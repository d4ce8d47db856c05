//! The errors of the library.

use vstd::prelude::*;

verus! {

/// Why a named state could not be read as a block.
#[derive(Debug, Copy, Clone, PartialEq, Eq, Hash, Structural)]
pub enum BlockError {
    /// The record of the block has no name.
    MissingName,
    /// A property that the block's kind needs is not there.
    MissingProperty,
    /// A property is there, but its value is none that the kind allows.
    InvalidProperty,
    /// A number lies outside its domain.
    OutOfDomain,
    /// The registry of unknown states holds as many states as an index can
    /// tell apart.
    RegistryFull,
}

/// Why a sequence of blocks could not be unpacked.
#[derive(Debug, Copy, Clone, PartialEq, Eq, Hash, Structural)]
pub enum PaletteError {
    /// The packed words are fewer than the blocks need.
    TooFewWords,
    /// An index points past the end of the palette.
    IndexOutOfPalette,
}

/// Why an operation on the world failed.
#[derive(Debug, Copy, Clone, PartialEq, Eq, Hash, Structural)]
pub enum WorldError {
    /// The area is empty, lies too far out, or needs more chunks than the
    /// world can hold.
    UnsupportedArea,
    /// The position lies outside of the loaded chunks or of the heights
    /// that the world stores.
    OutOfBounds,
    /// A block of a chunk record could not be read.
    Block(BlockError),
    /// The blocks of a section could not be unpacked.
    Palette(PaletteError),
    /// A block cannot be written: one of its numbers lies outside its
    /// domain, or the registry holds no state at its index.
    Unencodable,
    /// A tag that a chunk needs is missing or of another kind.
    Malformed,
}

impl BlockError {
    /// A short description of the error.
    pub open spec fn spec_message(self) -> Seq<char> {
        match self {
            BlockError::MissingName => "block without a name"@,
            BlockError::MissingProperty => "block state lacks a property"@,
            BlockError::InvalidProperty => "block state property has an invalid value"@,
            BlockError::OutOfDomain => "block state number outside of its domain"@,
            BlockError::RegistryFull => "too many distinct unknown block states"@,
        }
    }

    /// A short description of the error.
    pub fn message(self) -> (r: &'static str)
        ensures
            r@ == self.spec_message(),
    {
        match self {
            BlockError::MissingName => "block without a name",
            BlockError::MissingProperty => "block state lacks a property",
            BlockError::InvalidProperty => "block state property has an invalid value",
            BlockError::OutOfDomain => "block state number outside of its domain",
            BlockError::RegistryFull => "too many distinct unknown block states",
        }
    }
}

impl PaletteError {
    /// A short description of the error.
    pub open spec fn spec_message(self) -> Seq<char> {
        match self {
            PaletteError::TooFewWords => "section with too few packed words"@,
            PaletteError::IndexOutOfPalette => "section with an index outside of its palette"@,
        }
    }

    /// A short description of the error.
    pub fn message(self) -> (r: &'static str)
        ensures
            r@ == self.spec_message(),
    {
        match self {
            PaletteError::TooFewWords => "section with too few packed words",
            PaletteError::IndexOutOfPalette => "section with an index outside of its palette",
        }
    }
}

impl WorldError {
    /// A short description of the error.
    pub open spec fn spec_message(self) -> Seq<char> {
        match self {
            WorldError::UnsupportedArea => "area not supported"@,
            WorldError::OutOfBounds => "position outside of the loaded world"@,
            WorldError::Block(e) => e.spec_message(),
            WorldError::Palette(e) => e.spec_message(),
            WorldError::Unencodable => "block that cannot be written"@,
            WorldError::Malformed => "chunk with a missing or mistyped tag"@,
        }
    }

    /// A short description of the error.
    pub fn message(self) -> (r: &'static str)
        ensures
            r@ == self.spec_message(),
    {
        match self {
            WorldError::UnsupportedArea => "area not supported",
            WorldError::OutOfBounds => "position outside of the loaded world",
            WorldError::Block(e) => e.message(),
            WorldError::Palette(e) => e.message(),
            WorldError::Unencodable => "block that cannot be written",
            WorldError::Malformed => "chunk with a missing or mistyped tag",
        }
    }
}

} // verus!
