//! A window onto a saved voxel world.
//!
//! The library keeps the blocks of a rectangle of columns in memory, chunk
//! by chunk, reads them from the records of a region store and writes them
//! back. Its functions are verified against their contracts; the few that
//! are trusted instead say so.
//!
//! - `block`, `encode`, `decode`, `stable`: the block model and its named
//!   states.
//! - `registry`: the states that the block model does not know.
//! - `commands`: the texts that command blocks run.
//! - `palette`: the packed form of a run of blocks.
//! - `chunk`, `record`, `tags`: sections, chunks and what storage keeps of
//!   them.
//! - `world`, `view`: the grid of chunks and the interface that building
//!   goes through.
//! - `remove_foliage`, `terraform`: what building asks of the land.

pub mod block;
pub mod blockstate;
pub mod chunk;
pub mod commands;
pub mod decode;
pub mod encode;
pub mod error;
pub mod geometry;
pub mod names;
pub mod palette;
pub mod record;
pub mod registry;
pub mod remove_foliage;
pub mod stable;
pub mod tags;
pub mod terraform;
pub mod text;
pub mod view;
pub mod world;
