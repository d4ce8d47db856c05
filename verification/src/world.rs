//! The world: a window onto the blocks of a rectangle of columns.
//!
//! The world keeps the chunks that cover the wanted rectangle and a margin
//! around it. The margin is there so that a question about the neighbour
//! of a column at the edge has an answer; nothing is built there, and the
//! outermost chunks are never written back.

use crate::block::Block;
use crate::blockstate::StateView;
use crate::chunk::{
    lemma_chunk_with_block, sections_wf, spec_chunk_of, spec_column_place, spec_empty_chunk, Biome,
    Chunk, ChunkView, MAX_Y, MIN_Y,
};
use crate::commands::Commands;
use crate::error::WorldError;
use crate::geometry::{div16, mod16, ChunkIndex, Column, Pos, Rect};
use crate::record::{
    entities_view, load_chunk, save_chunk, spec_chunk_in_range, spec_load_sections,
    spec_save_chunk, spec_sections_encodable, ChunkRecord, ChunkRecordView, Entity, EntityView,
};
use crate::registry::UnknownBlocks;
use vstd::arithmetic::div_mod::{lemma_fundamental_div_mod, lemma_fundamental_div_mod_converse};
use vstd::prelude::*;

verus! {

/// The width of the margin around the wanted rectangle, in columns: the
/// width of one chunk, so that the margin and the chunks that are never
/// written back are the same columns.
pub const LOAD_MARGIN: i32 = 16;

/// The furthest from the origin that a wanted rectangle may reach.
pub const MAX_COORD: i32 = 30_000_000;

/// A village that starts in a chunk of the world.
#[derive(Debug)]
pub struct Village {
    pub chunk: ChunkIndex,
    pub id: String,
}

/// The chunks of a rectangle of columns, and what lives among them.
#[derive(Debug)]
pub struct World {
    chunk_min: ChunkIndex,
    chunk_max: ChunkIndex,
    /// The chunks row by row: all of the lowest `z` first, each row by
    /// rising `x`.
    chunks: Vec<Chunk>,
    entities: Vec<Entity>,
    villages: Vec<Village>,
}

/// What saving a world changes in the description of its level.
#[derive(Debug)]
pub struct LevelEdits {
    /// The name under which the level is shown.
    pub level_name: String,
    /// When the level was last played, in milliseconds.
    pub last_played: i64,
    pub difficulty: i8,
    /// The value of the game rule `commandBlockOutput`.
    pub command_block_output: String,
    /// The value of the game rule `gameLoopFunction`.
    pub game_loop_function: String,
    pub spawn_x: i32,
    pub spawn_z: i32,
}

/// How far the game keeps running around the place where players enter
/// the level, in columns.
pub const PROCESSING_RADIUS: i32 = 111;

/// What a `Village` holds.
pub ghost struct VillageView {
    pub chunk: ChunkIndex,
    pub id: Seq<char>,
}

impl View for Village {
    type V = VillageView;

    open spec fn view(&self) -> VillageView {
        VillageView { chunk: self.chunk, id: self.id@ }
    }
}

/// What a world holds.
pub ghost struct WorldState {
    /// The first chunk of the world in both directions.
    pub chunk_min: ChunkIndex,
    /// The last chunk of the world in both directions.
    pub chunk_max: ChunkIndex,
    /// The chunks row by row.
    pub chunks: Seq<ChunkView>,
    /// What lives in the world.
    pub entities: Seq<EntityView>,
    /// The villages that start in the world.
    pub villages: Seq<VillageView>,
}

/// Whether a world can be made for the rectangle: it is not empty, lies
/// within `MAX_COORD` of the origin, and the chunks that it takes with its
/// margin can be counted by the machine.
pub open spec fn spec_area_supported(area: Rect) -> bool {
    &&& area.min.0 <= area.max.0
    &&& area.min.1 <= area.max.1
    &&& -MAX_COORD <= area.min.0
    &&& -MAX_COORD <= area.min.1
    &&& area.max.0 <= MAX_COORD
    &&& area.max.1 <= MAX_COORD
    &&& (spec_last_chunk(area.max.0 as int) - spec_first_chunk(area.min.0 as int) + 1) * (
    spec_last_chunk(area.max.1 as int) - spec_first_chunk(area.min.1 as int) + 1) <= usize::MAX
}

/// The empty world for the rectangle: the chunks that cover it and its
/// margin, all of them air without ground, and nothing that lives there.
pub open spec fn spec_new_world(area: Rect) -> WorldState {
    let min_x = spec_first_chunk(area.min.0 as int);
    let min_z = spec_first_chunk(area.min.1 as int);
    let max_x = spec_last_chunk(area.max.0 as int);
    let max_z = spec_last_chunk(area.max.1 as int);
    WorldState {
        chunk_min: ChunkIndex(min_x as i32, min_z as i32),
        chunk_max: ChunkIndex(max_x as i32, max_z as i32),
        chunks: Seq::new(
            ((max_x - min_x + 1) * (max_z - min_z + 1)) as nat,
            |i: int| spec_empty_chunk(),
        ),
        entities: Seq::empty(),
        villages: Seq::empty(),
    }
}

/// The first chunk that a world loads for a rectangle that starts at `min`.
pub open spec fn spec_first_chunk(min: int) -> int {
    (min - LOAD_MARGIN) / 16
}

/// The last chunk that a world loads for a rectangle that ends at `max`.
pub open spec fn spec_last_chunk(max: int) -> int {
    (max + LOAD_MARGIN) / 16
}

impl WorldState {
    /// The number of chunks in a row.
    pub open spec fn width(self) -> int {
        self.chunk_max.0 - self.chunk_min.0 + 1
    }

    /// The number of rows of chunks.
    pub open spec fn depth(self) -> int {
        self.chunk_max.1 - self.chunk_min.1 + 1
    }

    /// Whether the world holds the chunk.
    pub open spec fn contains_chunk(self, chunk: ChunkIndex) -> bool {
        &&& self.chunk_min.0 <= chunk.0 <= self.chunk_max.0
        &&& self.chunk_min.1 <= chunk.1 <= self.chunk_max.1
    }

    /// The place of the chunk among the chunks of the world.
    pub open spec fn chunk_offset(self, chunk: ChunkIndex) -> int {
        (chunk.0 - self.chunk_min.0) + (chunk.1 - self.chunk_min.1) * self.width()
    }

    /// The columns that the world holds: those of its chunks.
    pub open spec fn loaded(self) -> Rect {
        Rect {
            min: Column((self.chunk_min.0 * 16) as i32, (self.chunk_min.1 * 16) as i32),
            max: Column((self.chunk_max.0 * 16 + 15) as i32, (self.chunk_max.1 * 16 + 15) as i32),
        }
    }

    /// The columns that may be built on: those that the world holds, less
    /// the margin on every side.
    pub open spec fn area(self) -> Rect {
        Rect {
            min: Column(
                (self.chunk_min.0 * 16 + LOAD_MARGIN) as i32,
                (self.chunk_min.1 * 16 + LOAD_MARGIN) as i32,
            ),
            max: Column(
                (self.chunk_max.0 * 16 + 15 - LOAD_MARGIN) as i32,
                (self.chunk_max.1 * 16 + 15 - LOAD_MARGIN) as i32,
            ),
        }
    }

    /// Whether the world holds the column.
    pub open spec fn contains_column(self, column: Column) -> bool {
        self.contains_chunk(column.spec_chunk())
    }

    /// Whether the world holds the position: its column is held, and its
    /// height is one that chunks store.
    pub open spec fn contains_pos(self, pos: Pos) -> bool {
        self.contains_column(Column(pos.0, pos.2)) && MIN_Y <= pos.1 < MAX_Y
    }

    /// The chunk that holds the column.
    pub open spec fn chunk_of(self, column: Column) -> ChunkView {
        self.chunks[self.chunk_offset(column.spec_chunk())]
    }

    /// The block at the position.
    pub open spec fn block(self, pos: Pos) -> Block {
        self.chunk_of(Column(pos.0, pos.2)).block(
            pos.0 as int % 16,
            pos.1 as int,
            pos.2 as int % 16,
        )
    }

    /// The height of the ground in the column.
    pub open spec fn height(self, column: Column) -> i32 {
        self.chunk_of(column).heights[spec_column_place(column.0 as int % 16, column.1 as int % 16)]
    }

    /// The height of the water in the column, if it has any.
    pub open spec fn water_level(self, column: Column) -> Option<i32> {
        self.chunk_of(column).water[spec_column_place(column.0 as int % 16, column.1 as int % 16)]
    }

    /// The biome of the column.
    pub open spec fn biome(self, column: Column) -> Biome {
        self.chunk_of(column).biome[(column.0 as int % 16) / 4 + ((column.1 as int % 16) / 4) * 4]
    }

    /// The world with another chunk in the place of the column's chunk.
    pub open spec fn with_chunk(self, column: Column, chunk: ChunkView) -> WorldState {
        WorldState {
            chunks: self.chunks.update(self.chunk_offset(column.spec_chunk()), chunk),
            ..self
        }
    }

    /// The world after `block` was put at the position.
    pub open spec fn with_block(self, pos: Pos, block: Block) -> WorldState {
        let column = Column(pos.0, pos.2);
        self.with_chunk(
            column,
            self.chunk_of(column).with_block(
                pos.0 as int % 16,
                pos.1 as int,
                pos.2 as int % 16,
                block,
            ),
        )
    }

    /// The world after the height of the ground in the column was set.
    pub open spec fn with_height(self, column: Column, height: i32) -> WorldState {
        let chunk = self.chunk_of(column);
        self.with_chunk(
            column,
            ChunkView {
                heights: chunk.heights.update(
                    spec_column_place(column.0 as int % 16, column.1 as int % 16),
                    height,
                ),
                ..chunk
            },
        )
    }

    /// The world after the height of the water in the column was set.
    pub open spec fn with_water_level(self, column: Column, level: Option<i32>) -> WorldState {
        let chunk = self.chunk_of(column);
        self.with_chunk(
            column,
            ChunkView {
                water: chunk.water.update(
                    spec_column_place(column.0 as int % 16, column.1 as int % 16),
                    level,
                ),
                ..chunk
            },
        )
    }

    /// Whether the chunk lies inside the ring of the outermost chunks.
    pub open spec fn is_interior(self, chunk: ChunkIndex) -> bool {
        &&& self.chunk_min.0 < chunk.0 < self.chunk_max.0
        &&& self.chunk_min.1 < chunk.1 < self.chunk_max.1
    }

    /// The number of chunks in a row that are written back.
    pub open spec fn saved_width(self) -> int {
        if self.width() > 2 {
            self.width() - 2
        } else {
            0
        }
    }

    /// The number of rows of chunks that are written back.
    pub open spec fn saved_depth(self) -> int {
        if self.depth() > 2 {
            self.depth() - 2
        } else {
            0
        }
    }

    /// The number of chunks that are written back: all but the outermost
    /// ring.
    pub open spec fn saved_count(self) -> int {
        self.saved_width() * self.saved_depth()
    }

    /// The `k`-th of the chunks that are written back, row by row.
    pub open spec fn saved_chunk(self, k: int) -> ChunkIndex {
        ChunkIndex(
            (self.chunk_min.0 + 1 + k % self.saved_width()) as i32,
            (self.chunk_min.1 + 1 + k / self.saved_width()) as i32,
        )
    }

    /// Whether every entity stands in a column that the world holds.
    pub open spec fn entities_inside(self) -> bool {
        forall|i: int|
            0 <= i < self.entities.len() ==> self.contains_column(
                Column((#[trigger] self.entities[i]).pos.0, self.entities[i].pos.2),
            )
    }

    /// Whether every block of the chunks that are written back can be
    /// written.
    pub open spec fn saved_encodable(
        self,
        unknown: Seq<StateView>,
        commands: Seq<Seq<char>>,
    ) -> bool {
        forall|k: int|
            0 <= k < self.saved_count() ==> spec_sections_encodable(
                self.chunks[self.chunk_offset(#[trigger] self.saved_chunk(k))].sections,
                unknown,
                commands,
            )
    }

    /// The record of the `k`-th of the chunks that are written back, with
    /// the entities that stand in the chunk.
    pub open spec fn saved_record(
        self,
        k: int,
        unknown: Seq<StateView>,
        commands: Seq<Seq<char>>,
    ) -> ChunkRecordView {
        spec_save_chunk(
            self.saved_chunk(k),
            self.chunks[self.chunk_offset(self.saved_chunk(k))].sections,
            spec_entities_in(self.entities, self.saved_chunk(k), self.entities.len() as int),
            unknown,
            commands,
        )
    }

    /// The records that saving the world gives: one for each chunk inside
    /// the outermost ring, row by row. It fails with `OutOfBounds` where an
    /// entity stands outside of the world, and with `Unencodable` where a
    /// block of a chunk that is written cannot be written.
    pub open spec fn save(self, unknown: Seq<StateView>, commands: Seq<Seq<char>>) -> Result<
        Seq<ChunkRecordView>,
        WorldError,
    > {
        if !self.entities_inside() {
            Err(WorldError::OutOfBounds)
        } else if !self.saved_encodable(unknown, commands) {
            Err(WorldError::Unencodable)
        } else {
            Ok(
                Seq::new(
                    self.saved_count() as nat,
                    |k: int| self.saved_record(k, unknown, commands),
                ),
            )
        }
    }

    /// What reading the record of the chunk `index` makes of the world and
    /// of the registry. A chunk that the world does not hold fails with
    /// `OutOfBounds` and changes nothing. A record that cannot be read
    /// fails with its error and leaves the world as it is. Else the chunk
    /// takes the sections of the record, with the heights that their blocks
    /// give, and the village of the record is added to the villages.
    pub open spec fn load_chunk(
        self,
        index: ChunkIndex,
        record: ChunkRecordView,
        unknown: Seq<StateView>,
    ) -> (Result<WorldState, WorldError>, Seq<StateView>) {
        if !self.contains_chunk(index) {
            (Err(WorldError::OutOfBounds), unknown)
        } else {
            let (sections, after) = spec_load_sections(record.sections, unknown);
            match sections {
                Err(e) => (Err(e), after),
                Ok(sections) => (
                    Ok(
                        WorldState {
                            chunks: self.chunks.update(
                                self.chunk_offset(index),
                                spec_chunk_of(sections),
                            ),
                            villages: match record.village {
                                Some(id) => if id == "INVALID"@ {
                                    self.villages
                                } else {
                                    self.villages.push(VillageView { chunk: index, id })
                                },
                                None => self.villages,
                            },
                            ..self
                        },
                    ),
                    after,
                ),
            }
        }
    }
}

/// What reading the first `upto` records makes of the world and of the
/// registry, each record into the chunk that is named with it. The first
/// record that cannot be read ends the reading with its error.
pub open spec fn spec_load_chunks(
    state: WorldState,
    records: Seq<(ChunkIndex, ChunkRecordView)>,
    unknown: Seq<StateView>,
    upto: int,
) -> (Result<WorldState, WorldError>, Seq<StateView>)
    decreases upto,
{
    if upto <= 0 {
        (Ok(state), unknown)
    } else {
        let (before, known) = spec_load_chunks(state, records, unknown, upto - 1);
        match before {
            Err(e) => (Err(e), known),
            Ok(world) => world.load_chunk(records[upto - 1].0, records[upto - 1].1, known),
        }
    }
}

/// The records with the chunks that they are for, as what they hold.
pub open spec fn indexed_records_view(records: Seq<(ChunkIndex, ChunkRecord)>) -> Seq<
    (ChunkIndex, ChunkRecordView),
> {
    records.map_values(|r: (ChunkIndex, ChunkRecord)| (r.0, r.1@))
}

/// Once a record has failed, the records after it change nothing.
proof fn lemma_load_chunks_error(
    state: WorldState,
    records: Seq<(ChunkIndex, ChunkRecordView)>,
    unknown: Seq<StateView>,
    k: int,
    upto: int,
)
    requires
        0 <= k <= upto,
        spec_load_chunks(state, records, unknown, k).0 is Err,
    ensures
        spec_load_chunks(state, records, unknown, upto) == spec_load_chunks(
            state,
            records,
            unknown,
            k,
        ),
    decreases upto - k,
{
    if k < upto {
        lemma_load_chunks_error(state, records, unknown, k, upto - 1);
    }
}

/// Those of the first `upto` entities that stand in the chunk, in their
/// order.
pub open spec fn spec_entities_in(entities: Seq<EntityView>, chunk: ChunkIndex, upto: int) -> Seq<
    EntityView,
>
    decreases upto,
{
    if upto <= 0 {
        Seq::empty()
    } else {
        let before = spec_entities_in(entities, chunk, upto - 1);
        let entity = entities[upto - 1];
        if Column(entity.pos.0, entity.pos.2).spec_chunk() == chunk {
            before.push(entity)
        } else {
            before
        }
    }
}

/// Whether the state is that of a well-formed world.
pub open spec fn spec_state_wf(state: WorldState) -> bool {
    &&& state.chunk_min.0 <= state.chunk_max.0
    &&& state.chunk_min.1 <= state.chunk_max.1
    &&& spec_chunk_in_range(state.chunk_min)
    &&& spec_chunk_in_range(state.chunk_max)
    &&& state.chunks.len() == state.width() * state.depth()
    &&& forall|i: int|
        0 <= i < state.chunks.len() ==> sections_wf((#[trigger] state.chunks[i]).sections)
}

/// Every column that may be built on lies at least `LOAD_MARGIN` columns
/// inside the columns that the world holds, and in a chunk that is
/// written back: no column of the outermost ring may be built on.
pub proof fn lemma_area_inside(state: WorldState, column: Column)
    requires
        spec_state_wf(state),
        state.area().spec_contains(column),
    ensures
        state.loaded().min.0 + LOAD_MARGIN <= column.0 <= state.loaded().max.0 - LOAD_MARGIN,
        state.loaded().min.1 + LOAD_MARGIN <= column.1 <= state.loaded().max.1 - LOAD_MARGIN,
        state.contains_column(column),
        state.is_interior(column.spec_chunk()),
{
}

/// The columns that may be built on are the columns of the chunks that
/// are written back: none of them lies in the outermost ring, and no
/// column of a chunk that is written lies outside of them.
pub proof fn lemma_area_is_saved(state: WorldState, column: Column)
    requires
        spec_state_wf(state),
        state.contains_column(column),
    ensures
        state.area().spec_contains(column) <==> state.is_interior(column.spec_chunk()),
{
}

/// A chunk that is written back lies inside the outermost ring, and each
/// chunk inside the ring is written back exactly once.
pub proof fn lemma_saved_chunks(state: WorldState, k: int)
    requires
        spec_state_wf(state),
        0 <= k < state.saved_count(),
    ensures
        state.is_interior(state.saved_chunk(k)),
        state.contains_chunk(state.saved_chunk(k)),
        forall|j: int|
            0 <= j < state.saved_count() && j != k ==> state.saved_chunk(j) != state.saved_chunk(
                k,
            ),
{
    let w = state.saved_width();
    let d = state.saved_depth();
    assert(w > 0 && d > 0) by (nonlinear_arith)
        requires
            0 <= k < w * d,
            w >= 0,
            d >= 0,
    ;
    lemma_fundamental_div_mod(k, w);
    assert(0 <= k / w < d) by (nonlinear_arith)
        requires
            0 <= k < w * d,
            w > 0,
            k == w * (k / w) + k % w,
            0 <= k % w < w,
    ;
    assert forall|j: int| 0 <= j < state.saved_count() && j != k implies state.saved_chunk(j)
        != state.saved_chunk(k) by {
        lemma_fundamental_div_mod(j, w);
        assert(0 <= j / w < d) by (nonlinear_arith)
            requires
                0 <= j < w * d,
                w > 0,
                j == w * (j / w) + j % w,
                0 <= j % w < w,
        ;
    }
}

/// Each chunk inside the outermost ring is one of those written back.
pub proof fn lemma_interior_is_saved(state: WorldState, chunk: ChunkIndex)
    requires
        spec_state_wf(state),
        state.is_interior(chunk),
    ensures
        ({
            let k = (chunk.0 - state.chunk_min.0 - 1) + (chunk.1 - state.chunk_min.1 - 1)
                * state.saved_width();
            0 <= k < state.saved_count() && state.saved_chunk(k) == chunk
        }),
{
    let w = state.saved_width();
    let d = state.saved_depth();
    let dx = chunk.0 - state.chunk_min.0 - 1;
    let dz = chunk.1 - state.chunk_min.1 - 1;
    assert(0 <= dx + dz * w < w * d) by (nonlinear_arith)
        requires
            0 <= dx < w,
            0 <= dz < d,
    ;
    lemma_fundamental_div_mod_converse(dx + dz * w, w, dz, dx);
}

/// The `i`-th chunk in the order of columns of chunks is a chunk of the
/// world.
pub proof fn lemma_chunk_listed(state: WorldState, i: int)
    requires
        spec_state_wf(state),
        0 <= i < state.chunks.len(),
    ensures
        state.contains_chunk(
            ChunkIndex(
                (state.chunk_min.0 + i / state.depth()) as i32,
                (state.chunk_min.1 + i % state.depth()) as i32,
            ),
        ),
{
    let w = state.width();
    let d = state.depth();
    lemma_fundamental_div_mod(i, d);
    assert(0 <= i / d < w) by (nonlinear_arith)
        requires
            0 <= i < w * d,
            d > 0,
            i == d * (i / d) + i % d,
            0 <= i % d < d,
    ;
}

/// A world made for a rectangle lets all of the rectangle be built on.
pub proof fn lemma_request_in_area(state: WorldState, area: Rect, column: Column)
    requires
        spec_area_supported(area),
        state.chunk_min.0 == spec_first_chunk(area.min.0 as int),
        state.chunk_min.1 == spec_first_chunk(area.min.1 as int),
        state.chunk_max.0 == spec_last_chunk(area.max.0 as int),
        state.chunk_max.1 == spec_last_chunk(area.max.1 as int),
        area.spec_contains(column),
    ensures
        state.area().spec_contains(column),
{
}

/// Putting a block into the world changes the block at that position and
/// no other, and neither a height of ground or water nor a biome.
pub proof fn lemma_with_block(state: WorldState, pos: Pos, block: Block, other: Pos)
    requires
        spec_state_wf(state),
        state.contains_pos(pos),
        state.contains_pos(other),
    ensures
        spec_state_wf(state.with_block(pos, block)),
        state.with_block(pos, block).block(other) == if other == pos {
            block
        } else {
            state.block(other)
        },
        state.with_block(pos, block).height(Column(other.0, other.2)) == state.height(
            Column(other.0, other.2),
        ),
        state.with_block(pos, block).water_level(Column(other.0, other.2)) == state.water_level(
            Column(other.0, other.2),
        ),
        state.with_block(pos, block).biome(Column(other.0, other.2)) == state.biome(
            Column(other.0, other.2),
        ),
{
    let after = state.with_block(pos, block);
    let column = Column(pos.0, pos.2);
    let other_column = Column(other.0, other.2);
    let chunk = column.spec_chunk();
    let other_chunk = other_column.spec_chunk();
    lemma_chunk_offset(state, chunk);
    lemma_chunk_offset(state, other_chunk);
    let offset = state.chunk_offset(chunk);
    let before = state.chunks[offset];
    lemma_chunk_with_block(
        before,
        pos.0 as int % 16,
        pos.1 as int,
        pos.2 as int % 16,
        block,
        other.0 as int % 16,
        other.1 as int,
        other.2 as int % 16,
    );
    assert forall|i: int| 0 <= i < after.chunks.len() implies sections_wf(
        (#[trigger] after.chunks[i]).sections,
    ) by {
        if i != offset {
            assert(after.chunks[i] == state.chunks[i]);
        }
    }
    if state.chunk_offset(other_chunk) == offset {
        lemma_chunk_offset_injective(state, chunk, other_chunk);
        if other.0 as int % 16 == pos.0 as int % 16 && other.2 as int % 16 == pos.2 as int % 16
            && other.1 == pos.1 {
            assert(other.0 == pos.0);
            assert(other.2 == pos.2);
        }
    }
}

/// A chunk of the grid has its place among the chunks, and no other chunk
/// has the same.
pub proof fn lemma_chunk_offset(state: WorldState, chunk: ChunkIndex)
    requires
        state.chunk_min.0 <= state.chunk_max.0,
        state.chunk_min.1 <= state.chunk_max.1,
        state.contains_chunk(chunk),
    ensures
        0 <= state.chunk_offset(chunk) < state.width() * state.depth(),
        state.chunk_offset(chunk) % state.width() == chunk.0 - state.chunk_min.0,
        state.chunk_offset(chunk) / state.width() == chunk.1 - state.chunk_min.1,
{
    let w = state.width();
    let d = state.depth();
    let dx = chunk.0 - state.chunk_min.0;
    let dz = chunk.1 - state.chunk_min.1;
    assert(0 <= dx + dz * w < w * d) by (nonlinear_arith)
        requires
            0 <= dx < w,
            0 <= dz < d,
    ;
    lemma_fundamental_div_mod_converse(dx + dz * w, w, dz, dx);
}

/// Two chunks of the grid with the same place are the same chunk.
pub proof fn lemma_chunk_offset_injective(state: WorldState, a: ChunkIndex, b: ChunkIndex)
    requires
        state.chunk_min.0 <= state.chunk_max.0,
        state.chunk_min.1 <= state.chunk_max.1,
        state.contains_chunk(a),
        state.contains_chunk(b),
        state.chunk_offset(a) == state.chunk_offset(b),
    ensures
        a == b,
{
    lemma_chunk_offset(state, a);
    lemma_chunk_offset(state, b);
}

impl View for World {
    type V = WorldState;

    closed spec fn view(&self) -> WorldState {
        WorldState {
            chunk_min: self.chunk_min,
            chunk_max: self.chunk_max,
            chunks: self.chunks@.map_values(|c: Chunk| c@),
            entities: entities_view(self.entities@),
            villages: self.villages@.map_values(|v: Village| v@),
        }
    }
}

impl World {
    /// Whether every chunk of the world is a well-formed chunk.
    pub closed spec fn chunks_wf(&self) -> bool {
        forall|i: int| 0 <= i < self.chunks.len() ==> (#[trigger] self.chunks[i]).wf()
    }

    /// Whether the world is well formed: its first chunk lies before its
    /// last, both near enough to the origin, and it holds a well-formed
    /// chunk for each place of its grid.
    pub open spec fn wf(&self) -> bool {
        &&& self@.chunk_min.0 <= self@.chunk_max.0
        &&& self@.chunk_min.1 <= self@.chunk_max.1
        &&& spec_chunk_in_range(self@.chunk_min)
        &&& spec_chunk_in_range(self@.chunk_max)
        &&& self@.chunks.len() == self@.width() * self@.depth()
        &&& self.chunks_wf()
    }

    /// The state of a well-formed world is well formed.
    pub proof fn lemma_wf(&self)
        requires
            self.wf(),
        ensures
            spec_state_wf(self@),
    {
        assert forall|i: int| 0 <= i < self@.chunks.len() implies sections_wf(
            (#[trigger] self@.chunks[i]).sections,
        ) by {
            assert(self.chunks[i].wf());
            assert(self@.chunks[i] == self.chunks[i]@);
        }
    }

    /// A world for the rectangle `area`, with the chunks that cover it and
    /// a margin of `LOAD_MARGIN` columns around it. The chunks are empty:
    /// all air, without ground. It fails with `UnsupportedArea` where the
    /// rectangle is empty, reaches further than `MAX_COORD` from the
    /// origin, or takes more chunks than the machine can count.
    pub fn new(area: Rect) -> (r: Result<World, WorldError>)
        ensures
            match r {
                Ok(world) => {
                    &&& spec_area_supported(area)
                    &&& world.wf()
                    &&& world@ == spec_new_world(area)
                },
                Err(e) => !spec_area_supported(area) && e == WorldError::UnsupportedArea,
            },
    {
        if area.min.0 > area.max.0 || area.min.1 > area.max.1 || area.min.0 < -MAX_COORD
            || area.min.1 < -MAX_COORD || area.max.0 > MAX_COORD || area.max.1 > MAX_COORD {
            return Err(WorldError::UnsupportedArea);
        }
        let chunk_min = ChunkIndex(
            div16(area.min.0 - LOAD_MARGIN),
            div16(area.min.1 - LOAD_MARGIN),
        );
        let chunk_max = ChunkIndex(
            div16(area.max.0 + LOAD_MARGIN),
            div16(area.max.1 + LOAD_MARGIN),
        );
        let width: u64 = (chunk_max.0 - chunk_min.0 + 1) as u64;
        let depth: u64 = (chunk_max.1 - chunk_min.1 + 1) as u64;
        assert(width * depth <= 0x40_0000 * 0x40_0000) by (nonlinear_arith)
            requires
                0 <= width <= 0x40_0000,
                0 <= depth <= 0x40_0000,
        ;
        let count: u64 = width * depth;
        if count > usize::MAX as u64 {
            return Err(WorldError::UnsupportedArea);
        }
        let mut chunks: Vec<Chunk> = Vec::new();
        let mut i: u64 = 0;
        while i < count
            invariant
                i <= count,
                count <= usize::MAX,
                chunks.len() == i,
                forall|j: int|
                    0 <= j < i ==> (#[trigger] chunks[j]).wf() && chunks[j]@
                        == spec_empty_chunk(),
            decreases count - i,
        {
            chunks.push(Chunk::new());
            i = i + 1;
        }
        let world = World {
            chunk_min,
            chunk_max,
            chunks,
            entities: Vec::new(),
            villages: Vec::new(),
        };
        proof {
            let expected = spec_new_world(area);
            assert(world@.chunks =~= expected.chunks);
            assert(world@.entities =~= expected.entities);
            assert(world@.villages =~= expected.villages);
        }
        Ok(world)
    }

    /// The first chunk of the world in both directions.
    pub fn chunk_min(&self) -> (r: ChunkIndex)
        ensures
            r == self@.chunk_min,
    {
        self.chunk_min
    }

    /// The last chunk of the world in both directions.
    pub fn chunk_max(&self) -> (r: ChunkIndex)
        ensures
            r == self@.chunk_max,
    {
        self.chunk_max
    }

    /// The place of the chunk among the chunks of the world. It fails with
    /// `OutOfBounds` for a chunk that the world does not hold.
    pub fn chunk_index(&self, chunk: ChunkIndex) -> (r: Result<usize, WorldError>)
        requires
            self.wf(),
        ensures
            match r {
                Ok(offset) => self@.contains_chunk(chunk) && offset == self@.chunk_offset(chunk)
                    && offset < self@.chunks.len(),
                Err(e) => !self@.contains_chunk(chunk) && e == WorldError::OutOfBounds,
            },
    {
        if chunk.0 < self.chunk_min.0 || chunk.0 > self.chunk_max.0 || chunk.1 < self.chunk_min.1
            || chunk.1 > self.chunk_max.1 {
            return Err(WorldError::OutOfBounds);
        }
        proof {
            lemma_chunk_offset(self@, chunk);
        }
        assert(self@.chunk_offset(chunk) < self.chunks.len());
        let width: usize = (self.chunk_max.0 - self.chunk_min.0 + 1) as usize;
        let dx: usize = (chunk.0 - self.chunk_min.0) as usize;
        let dz: usize = (chunk.1 - self.chunk_min.1) as usize;
        assert(dz * width <= self@.chunk_offset(chunk)) by (nonlinear_arith)
            requires
                dz * width + dx == self@.chunk_offset(chunk),
                dx >= 0,
        ;
        Ok(dx + dz * width)
    }

    /// The place of the column's chunk among the chunks of the world and
    /// the column's place in the chunk. It fails with `OutOfBounds` for a
    /// column that the world does not hold.
    fn locate(&self, column: Column) -> (r: Result<(usize, usize, usize), WorldError>)
        requires
            self.wf(),
        ensures
            match r {
                Ok((offset, x, z)) => {
                    &&& self@.contains_column(column)
                    &&& offset == self@.chunk_offset(column.spec_chunk())
                    &&& offset < self@.chunks.len()
                    &&& x == column.0 as int % 16
                    &&& z == column.1 as int % 16
                    &&& x < 16
                    &&& z < 16
                },
                Err(e) => !self@.contains_column(column) && e == WorldError::OutOfBounds,
            },
    {
        let offset: usize = match self.chunk_index(column.chunk()) {
            Ok(offset) => offset,
            Err(e) => {
                return Err(e);
            },
        };
        Ok((offset, mod16(column.0) as usize, mod16(column.1) as usize))
    }

    /// The block at the position. It fails with `OutOfBounds` for a
    /// position that the world does not hold.
    pub fn get(&self, pos: Pos) -> (r: Result<Block, WorldError>)
        requires
            self.wf(),
        ensures
            match r {
                Ok(block) => self@.contains_pos(pos) && block == self@.block(pos),
                Err(e) => !self@.contains_pos(pos) && e == WorldError::OutOfBounds,
            },
    {
        if pos.1 < MIN_Y || pos.1 >= MAX_Y {
            return Err(WorldError::OutOfBounds);
        }
        match self.locate(pos.column()) {
            Ok((offset, x, z)) => {
                assert(self.chunks[offset as int].wf());
                Ok(self.chunks[offset].block(x, pos.1, z))
            },
            Err(e) => Err(e),
        }
    }

    /// Puts `block` at the position. Where the chunk has no section there,
    /// it gets one of air first. Nothing else changes: neither another
    /// block nor the heights of ground and water. It fails with
    /// `OutOfBounds` for a position that the world does not hold, and then
    /// changes nothing.
    pub fn set(&mut self, pos: Pos, block: Block) -> (r: Result<(), WorldError>)
        requires
            old(self).wf(),
        ensures
            final(self).wf(),
            match r {
                Ok(()) => old(self)@.contains_pos(pos) && final(self)@ == old(self)@.with_block(
                    pos,
                    block,
                ),
                Err(e) => {
                    &&& !old(self)@.contains_pos(pos)
                    &&& e == WorldError::OutOfBounds
                    &&& final(self)@ == old(self)@
                },
            },
    {
        if pos.1 < MIN_Y || pos.1 >= MAX_Y {
            return Err(WorldError::OutOfBounds);
        }
        match self.locate(pos.column()) {
            Ok((offset, x, z)) => {
                let ghost before = self@;
                assert(self.chunks[offset as int].wf());
                self.chunks[offset].set_block(x, pos.1, z, block);
                assert(self@.chunks =~= before.with_block(pos, block).chunks);
                Ok(())
            },
            Err(e) => Err(e),
        }
    }

    /// Puts `block` at the position, as `set` does.
    pub fn set_override(&mut self, pos: Pos, block: Block) -> (r: Result<(), WorldError>)
        requires
            old(self).wf(),
        ensures
            final(self).wf(),
            match r {
                Ok(()) => old(self)@.contains_pos(pos) && final(self)@ == old(self)@.with_block(
                    pos,
                    block,
                ),
                Err(e) => {
                    &&& !old(self)@.contains_pos(pos)
                    &&& e == WorldError::OutOfBounds
                    &&& final(self)@ == old(self)@
                },
            },
    {
        self.set(pos, block)
    }

    /// Puts `block` at the position unless the block that is there is
    /// solid.
    pub fn set_if_not_solid(&mut self, pos: Pos, block: Block) -> (r: Result<(), WorldError>)
        requires
            old(self).wf(),
        ensures
            final(self).wf(),
            match r {
                Ok(()) => {
                    &&& old(self)@.contains_pos(pos)
                    &&& final(self)@ == if old(self)@.block(pos).spec_solid() {
                        old(self)@
                    } else {
                        old(self)@.with_block(pos, block)
                    }
                },
                Err(e) => {
                    &&& !old(self)@.contains_pos(pos)
                    &&& e == WorldError::OutOfBounds
                    &&& final(self)@ == old(self)@
                },
            },
    {
        match self.get(pos) {
            Ok(present) => if present.solid() {
                Ok(())
            } else {
                self.set(pos, block)
            },
            Err(e) => Err(e),
        }
    }

    /// The height of the ground in the column. It fails with `OutOfBounds`
    /// for a column that the world does not hold.
    pub fn height(&self, column: Column) -> (r: Result<i32, WorldError>)
        requires
            self.wf(),
        ensures
            match r {
                Ok(height) => self@.contains_column(column) && height == self@.height(column),
                Err(e) => !self@.contains_column(column) && e == WorldError::OutOfBounds,
            },
    {
        match self.locate(column) {
            Ok((offset, x, z)) => {
                assert(self.chunks[offset as int].wf());
                Ok(self.chunks[offset].height(x, z))
            },
            Err(e) => Err(e),
        }
    }

    /// Sets the height of the ground in the column. It fails with
    /// `OutOfBounds` for a column that the world does not hold, and then
    /// changes nothing.
    pub fn set_height(&mut self, column: Column, height: i32) -> (r: Result<(), WorldError>)
        requires
            old(self).wf(),
        ensures
            final(self).wf(),
            match r {
                Ok(()) => old(self)@.contains_column(column) && final(self)@
                    == old(self)@.with_height(column, height),
                Err(e) => !old(self)@.contains_column(column) && e == WorldError::OutOfBounds
                    && final(self)@ == old(self)@,
            },
    {
        match self.locate(column) {
            Ok((offset, x, z)) => {
                let ghost before = self@;
                assert(self.chunks[offset as int].wf());
                self.chunks[offset].set_height(x, z, height);
                assert(self@.chunks =~= before.with_height(column, height).chunks);
                Ok(())
            },
            Err(e) => Err(e),
        }
    }

    /// The height of the water in the column, if it has any. It fails with
    /// `OutOfBounds` for a column that the world does not hold.
    pub fn water_level(&self, column: Column) -> (r: Result<Option<i32>, WorldError>)
        requires
            self.wf(),
        ensures
            match r {
                Ok(level) => self@.contains_column(column) && level == self@.water_level(column),
                Err(e) => !self@.contains_column(column) && e == WorldError::OutOfBounds,
            },
    {
        match self.locate(column) {
            Ok((offset, x, z)) => {
                assert(self.chunks[offset as int].wf());
                Ok(self.chunks[offset].water_level(x, z))
            },
            Err(e) => Err(e),
        }
    }

    /// Sets the height of the water in the column. It fails with
    /// `OutOfBounds` for a column that the world does not hold, and then
    /// changes nothing.
    pub fn set_water_level(&mut self, column: Column, level: Option<i32>) -> (r: Result<
        (),
        WorldError,
    >)
        requires
            old(self).wf(),
        ensures
            final(self).wf(),
            match r {
                Ok(()) => old(self)@.contains_column(column) && final(self)@
                    == old(self)@.with_water_level(column, level),
                Err(e) => !old(self)@.contains_column(column) && e == WorldError::OutOfBounds
                    && final(self)@ == old(self)@,
            },
    {
        match self.locate(column) {
            Ok((offset, x, z)) => {
                let ghost before = self@;
                assert(self.chunks[offset as int].wf());
                self.chunks[offset].set_water_level(x, z, level);
                assert(self@.chunks =~= before.with_water_level(column, level).chunks);
                Ok(())
            },
            Err(e) => Err(e),
        }
    }

    /// The biome of the column. It fails with `OutOfBounds` for a column
    /// that the world does not hold.
    pub fn biome(&self, column: Column) -> (r: Result<Biome, WorldError>)
        requires
            self.wf(),
        ensures
            match r {
                Ok(biome) => self@.contains_column(column) && biome == self@.biome(column),
                Err(e) => !self@.contains_column(column) && e == WorldError::OutOfBounds,
            },
    {
        match self.locate(column) {
            Ok((offset, x, z)) => {
                assert(self.chunks[offset as int].wf());
                Ok(self.chunks[offset].biome(x, z))
            },
            Err(e) => Err(e),
        }
    }

    /// The rectangle of columns that may be built on: the columns that the
    /// world holds, less the margin of `LOAD_MARGIN` columns on every
    /// side.
    pub fn area(&self) -> (r: Rect)
        requires
            self.wf(),
        ensures
            r == self@.area(),
    {
        Rect {
            min: Column(self.chunk_min.0 * 16 + LOAD_MARGIN, self.chunk_min.1 * 16 + LOAD_MARGIN),
            max: Column(
                self.chunk_max.0 * 16 + 15 - LOAD_MARGIN,
                self.chunk_max.1 * 16 + 15 - LOAD_MARGIN,
            ),
        }
    }

    /// What lives in the world.
    pub fn entities(&self) -> (r: &Vec<Entity>)
        ensures
            entities_view(r@) == self@.entities,
    {
        &self.entities
    }

    /// Adds an entity to the world.
    pub fn add_entity(&mut self, entity: Entity)
        requires
            old(self).wf(),
        ensures
            final(self).wf(),
            final(self)@ == (WorldState {
                entities: old(self)@.entities.push(entity@),
                ..old(self)@
            }),
    {
        let ghost before = self@;
        let ghost added = entity@;
        self.entities.push(entity);
        assert(self@.entities =~= before.entities.push(added));
    }

    /// The villages that start in the world.
    pub fn villages(&self) -> (r: &Vec<Village>)
        ensures
            r@.map_values(|v: Village| v@) == self@.villages,
    {
        &self.villages
    }

    /// The chunks of the world, column of chunks by column of chunks: all
    /// of the lowest `x` first, each by rising `z`.
    pub fn chunks(&self) -> (r: Vec<ChunkIndex>)
        requires
            self.wf(),
        ensures
            r@.len() == self@.chunks.len(),
            forall|i: int|
                0 <= i < r@.len() ==> (#[trigger] r@[i]) == ChunkIndex(
                    (self@.chunk_min.0 + i / self@.depth()) as i32,
                    (self@.chunk_min.1 + i % self@.depth()) as i32,
                ),
    {
        let ghost w = self@.width();
        let ghost d = self@.depth();
        let mut list: Vec<ChunkIndex> = Vec::new();
        let mut x: i32 = self.chunk_min.0;
        assert(0 * d == 0) by (nonlinear_arith);
        while x <= self.chunk_max.0
            invariant
                self.wf(),
                w == self@.width(),
                d == self@.depth(),
                self.chunk_min.0 <= x <= self.chunk_max.0 + 1,
                list.len() == (x - self.chunk_min.0) * d,
                forall|i: int|
                    0 <= i < list.len() ==> (#[trigger] list[i]) == ChunkIndex(
                        (self.chunk_min.0 + i / d) as i32,
                        (self.chunk_min.1 + i % d) as i32,
                    ),
            decreases self.chunk_max.0 + 1 - x,
        {
            let mut z: i32 = self.chunk_min.1;
            while z <= self.chunk_max.1
                invariant
                    self.wf(),
                    w == self@.width(),
                    d == self@.depth(),
                    self.chunk_min.0 <= x <= self.chunk_max.0,
                    self.chunk_min.1 <= z <= self.chunk_max.1 + 1,
                    list.len() == (x - self.chunk_min.0) * d + (z - self.chunk_min.1),
                    forall|i: int|
                        0 <= i < list.len() ==> (#[trigger] list[i]) == ChunkIndex(
                            (self.chunk_min.0 + i / d) as i32,
                            (self.chunk_min.1 + i % d) as i32,
                        ),
                decreases self.chunk_max.1 + 1 - z,
            {
                proof {
                    lemma_fundamental_div_mod_converse(
                        list.len() as int,
                        d,
                        (x - self.chunk_min.0) as int,
                        (z - self.chunk_min.1) as int,
                    );
                }
                list.push(ChunkIndex(x, z));
                z = z + 1;
            }
            assert((x - self.chunk_min.0) * d + d == (x + 1 - self.chunk_min.0) * d)
                by (nonlinear_arith);
            x = x + 1;
        }
        assert(w * d == d * w) by (nonlinear_arith);
        list
    }

    /// Those of the world's entities that stand in the chunk, in their
    /// order.
    fn entities_in(&self, chunk: ChunkIndex) -> (r: Vec<Entity>)
        ensures
            entities_view(r@) == spec_entities_in(
                self@.entities,
                chunk,
                self@.entities.len() as int,
            ),
    {
        let ghost all = self@.entities;
        let mut found: Vec<Entity> = Vec::new();
        let mut i: usize = 0;
        assert(entities_view(found@) =~= spec_entities_in(all, chunk, 0));
        while i < self.entities.len()
            invariant
                i <= self.entities.len(),
                all == self@.entities,
                all.len() == self.entities.len(),
                entities_view(found@) == spec_entities_in(all, chunk, i as int),
            decreases self.entities.len() - i,
        {
            assert(all[i as int] == self.entities[i as int]@);
            if self.entities[i].pos.column().chunk() == chunk {
                let ghost before = entities_view(found@);
                let copy = self.entities[i].duplicate();
                let ghost added = copy@;
                found.push(copy);
                assert(entities_view(found@) =~= before.push(added));
            }
            i = i + 1;
        }
        found
    }

    /// Reads the record of the chunk `index` into the world.
    ///
    /// The chunk takes the sections of the record, decoded as `load_chunk`
    /// of the records does, and the heights of ground and water that their
    /// blocks give. A village that the record names is added to the
    /// villages. It fails with `OutOfBounds` for a chunk that the world
    /// does not hold, and with the error of the record where the record
    /// cannot be read; in both cases the world stays as it is.
    pub fn load_chunk(
        &mut self,
        index: ChunkIndex,
        record: &ChunkRecord,
        unknown: &mut UnknownBlocks,
    ) -> (r: Result<(), WorldError>)
        requires
            old(self).wf(),
            old(unknown).wf(),
        ensures
            final(self).wf(),
            final(unknown).wf(),
            final(unknown)@ == old(self)@.load_chunk(index, record@, old(unknown)@).1,
            match r {
                Ok(()) => old(self)@.load_chunk(index, record@, old(unknown)@).0 == Ok::<
                    WorldState,
                    WorldError,
                >(final(self)@),
                Err(e) => old(self)@.load_chunk(index, record@, old(unknown)@).0 == Err::<
                    WorldState,
                    WorldError,
                >(e) && final(self)@ == old(self)@,
            },
    {
        let offset: usize = match self.chunk_index(index) {
            Ok(offset) => offset,
            Err(e) => {
                return Err(e);
            },
        };
        let chunk = match load_chunk(record, unknown) {
            Ok(chunk) => chunk,
            Err(e) => {
                return Err(e);
            },
        };
        let ghost before = self@;
        let ghost loaded = chunk@;
        self.chunks[offset] = chunk;
        assert(self@.chunks =~= before.chunks.update(offset as int, loaded));
        match record.village_marker() {
            Some(id) => {
                let village = Village { chunk: index, id: String::from_str(id) };
                let ghost added = village@;
                self.villages.push(village);
                assert(self@.villages =~= before.villages.push(added));
            },
            None => {
                assert(self@.villages =~= before.villages);
            },
        }
        Ok(())
    }

    /// A world for the rectangle `area` with the chunks that the records
    /// hold.
    ///
    /// The world is made as `new` makes it, and the records are read into
    /// it one after the other, as `load_chunk` reads them. A chunk without
    /// a record stays empty. It fails where `new` fails, and with the
    /// error of the first record that cannot be read.
    pub fn load(
        area: Rect,
        records: &Vec<(ChunkIndex, ChunkRecord)>,
        unknown: &mut UnknownBlocks,
    ) -> (r: Result<World, WorldError>)
        requires
            old(unknown).wf(),
        ensures
            final(unknown).wf(),
            ({
                let loaded = spec_load_chunks(
                    spec_new_world(area),
                    indexed_records_view(records@),
                    old(unknown)@,
                    records@.len() as int,
                );
                if spec_area_supported(area) {
                    &&& final(unknown)@ == loaded.1
                    &&& match r {
                        Ok(world) => world.wf() && loaded.0 == Ok::<WorldState, WorldError>(
                            world@,
                        ),
                        Err(e) => loaded.0 == Err::<WorldState, WorldError>(e),
                    }
                } else {
                    &&& r matches Err(e) && e == WorldError::UnsupportedArea
                    &&& final(unknown)@ == old(unknown)@
                }
            }),
    {
        let mut world = match World::new(area) {
            Ok(world) => world,
            Err(e) => {
                return Err(e);
            },
        };
        let ghost empty = world@;
        let ghost start = unknown@;
        let ghost all = indexed_records_view(records@);
        let mut i: usize = 0;
        while i < records.len()
            invariant
                i <= records.len(),
                world.wf(),
                unknown.wf(),
                spec_area_supported(area),
                empty == spec_new_world(area),
                start == old(unknown)@,
                all == indexed_records_view(records@),
                spec_load_chunks(empty, all, start, i as int) == (
                    Ok::<WorldState, WorldError>(world@),
                    unknown@,
                ),
            decreases records.len() - i,
        {
            assert(all[i as int] == (records[i as int].0, records[i as int].1@));
            match world.load_chunk(records[i].0, &records[i].1, unknown) {
                Ok(()) => {},
                Err(e) => {
                    proof {
                        lemma_load_chunks_error(empty, all, start, i + 1, records.len() as int);
                    }
                    return Err(e);
                },
            }
            i = i + 1;
        }
        Ok(world)
    }

    /// The records of the chunks that are written back: one for each chunk
    /// inside the outermost ring, row by row, with the entities that stand
    /// in it. The chunks of the outermost ring are never written.
    ///
    /// It fails with `OutOfBounds` where an entity stands outside of the
    /// world, and with `Unencodable` where a block of a chunk that is
    /// written cannot be written with the registry `unknown` and the store
    /// `commands`.
    pub fn save(&self, unknown: &UnknownBlocks, commands: &Commands) -> (r: Result<
        Vec<ChunkRecord>,
        WorldError,
    >)
        requires
            self.wf(),
        ensures
            match r {
                Ok(records) => self@.save(unknown@, commands@) == Ok::<
                    Seq<ChunkRecordView>,
                    WorldError,
                >(records@.map_values(|c: ChunkRecord| c@)),
                Err(e) => self@.save(unknown@, commands@) == Err::<
                    Seq<ChunkRecordView>,
                    WorldError,
                >(e),
            },
    {
        let mut e: usize = 0;
        while e < self.entities.len()
            invariant
                self.wf(),
                e <= self.entities.len(),
                forall|i: int|
                    0 <= i < e ==> self@.contains_column(
                        Column((#[trigger] self@.entities[i]).pos.0, self@.entities[i].pos.2),
                    ),
            decreases self.entities.len() - e,
        {
            assert(self@.entities[e as int] == self.entities[e as int]@);
            if self.chunk_index(self.entities[e].pos.column().chunk()).is_err() {
                return Err(WorldError::OutOfBounds);
            }
            e = e + 1;
        }
        assert(self@.entities_inside());
        let ghost state = self@;
        let ghost w = state.saved_width();
        let ghost d = state.saved_depth();
        let mut records: Vec<ChunkRecord> = Vec::new();
        if self.chunk_max.0 - self.chunk_min.0 < 2 || self.chunk_max.1 - self.chunk_min.1 < 2 {
            assert(w * d == 0) by (nonlinear_arith)
                requires
                    w >= 0,
                    d >= 0,
                    w == 0 || d == 0,
            ;
            assert(records@.map_values(|c: ChunkRecord| c@) =~= Seq::new(
                state.saved_count() as nat,
                |k: int| state.saved_record(k, unknown@, commands@),
            ));
            return Ok(records);
        }
        let mut z: i32 = self.chunk_min.1 + 1;
        assert(0 * w == 0) by (nonlinear_arith);
        while z < self.chunk_max.1
            invariant
                self.wf(),
                state == self@,
                state.entities_inside(),
                w == state.saved_width(),
                d == state.saved_depth(),
                w >= 1,
                d >= 1,
                self.chunk_min.1 + 1 <= z <= self.chunk_max.1,
                records.len() == (z - self.chunk_min.1 - 1) * w,
                forall|k: int|
                    0 <= k < records.len() ==> (#[trigger] records[k])@ == state.saved_record(
                        k,
                        unknown@,
                    commands@,
                    ) && spec_sections_encodable(
                        state.chunks[state.chunk_offset(state.saved_chunk(k))].sections,
                        unknown@,
                    commands@,
                    ),
            decreases self.chunk_max.1 - z,
        {
            let mut x: i32 = self.chunk_min.0 + 1;
            while x < self.chunk_max.0
                invariant
                    self.wf(),
                    state == self@,
                    state.entities_inside(),
                    w == state.saved_width(),
                    d == state.saved_depth(),
                    w >= 1,
                    d >= 1,
                    self.chunk_min.1 + 1 <= z < self.chunk_max.1,
                    self.chunk_min.0 + 1 <= x <= self.chunk_max.0,
                    records.len() == (z - self.chunk_min.1 - 1) * w + (x - self.chunk_min.0 - 1),
                    forall|k: int|
                        0 <= k < records.len() ==> (#[trigger] records[k])@ == state.saved_record(
                            k,
                            unknown@,
                        commands@,
                        ) && spec_sections_encodable(
                            state.chunks[state.chunk_offset(state.saved_chunk(k))].sections,
                            unknown@,
                        commands@,
                        ),
                decreases self.chunk_max.0 - x,
            {
                let index = ChunkIndex(x, z);
                let ghost k = records.len() as int;
                proof {
                    lemma_interior_is_saved(state, index);
                    assert(self.chunks_wf());
                }
                let offset: usize = match self.chunk_index(index) {
                    Ok(offset) => offset,
                    Err(_) => 0,
                };
                assert(self.chunks[offset as int].wf());
                assert(state.chunks[offset as int] == self.chunks[offset as int]@);
                let standing = self.entities_in(index);
                match save_chunk(index, &self.chunks[offset], standing, unknown, commands) {
                    Ok(record) => {
                        records.push(record);
                    },
                    Err(e) => {
                        assert(!state.saved_encodable(unknown@, commands@));
                        return Err(e);
                    },
                }
                x = x + 1;
            }
            assert((z - self.chunk_min.1 - 1) * w + w == (z + 1 - self.chunk_min.1 - 1) * w)
                by (nonlinear_arith);
            z = z + 1;
        }
        proof {
            assert(records.len() == d * w);
            assert(d * w == w * d) by (nonlinear_arith);
            assert forall|k: int| 0 <= k < state.saved_count() implies spec_sections_encodable(
                state.chunks[state.chunk_offset(#[trigger] state.saved_chunk(k))].sections,
                unknown@,
            commands@,
            ) by {
                assert(records[k]@ == state.saved_record(k, unknown@, commands@));
            }
            assert(records@.map_values(|c: ChunkRecord| c@) =~= Seq::new(
                state.saved_count() as nat,
                |k: int| state.saved_record(k, unknown@, commands@),
            ));
        }
        Ok(records)
    }

    /// What saving the world changes in the description of its level: the
    /// name gets a mark at its end, the time of the last play is `now`, the
    /// difficulty is the lowest, commands write no output, the game calls
    /// the loop function on every tick, and players enter the level in the
    /// middle of the rectangle that may be built on.
    pub fn level_edits(&self, level_name: &str, now_millis: i64) -> (r: LevelEdits)
        requires
            self.wf(),
        ensures
            r.level_name@ == level_name@ + " [generated]"@,
            r.last_played == now_millis,
            r.difficulty == 0,
            r.command_block_output@ == "false"@,
            r.game_loop_function@ == "mc-gen:loop"@,
            Column(r.spawn_x, r.spawn_z) == self@.area().spec_center(),
    {
        let center = self.area().center();
        let mut name = String::from_str(level_name);
        name.append(" [generated]");
        LevelEdits {
            level_name: name,
            last_played: now_millis,
            difficulty: 0,
            command_block_output: String::from_str("false"),
            game_loop_function: String::from_str("mc-gen:loop"),
            spawn_x: center.0,
            spawn_z: center.1,
        }
    }

    /// The rectangle of chunks within `PROCESSING_RADIUS` columns of the
    /// middle of the rectangle that may be built on.
    pub fn redstone_processing_area(&self) -> (r: Rect)
        requires
            self.wf(),
        ensures
            ({
                let center = self@.area().spec_center();
                &&& r.min.0 == ((center.0 - PROCESSING_RADIUS) / 16) * 16
                &&& r.min.1 == ((center.1 - PROCESSING_RADIUS) / 16) * 16
                &&& r.max.0 == ((center.0 + PROCESSING_RADIUS) / 16) * 16 + 15
                &&& r.max.1 == ((center.1 + PROCESSING_RADIUS) / 16) * 16 + 15
            }),
    {
        let center = self.area().center();
        Rect {
            min: Column(
                div16(center.0 - PROCESSING_RADIUS) * 16,
                div16(center.1 - PROCESSING_RADIUS) * 16,
            ),
            max: Column(
                div16(center.0 + PROCESSING_RADIUS) * 16 + 15,
                div16(center.1 + PROCESSING_RADIUS) * 16 + 15,
            ),
        }
    }

    /// The rectangle of all columns that the world holds, margin and all.
    pub fn loaded_area(&self) -> (r: Rect)
        requires
            self.wf(),
        ensures
            r == self@.loaded(),
    {
        Rect {
            min: Column(self.chunk_min.0 * 16, self.chunk_min.1 * 16),
            max: Column(self.chunk_max.0 * 16 + 15, self.chunk_max.1 * 16 + 15),
        }
    }
}

} // verus!
