//! Chunk records: what storage keeps of a chunk, and how a chunk is read
//! from its record and written to one.

use crate::block::Block;
use crate::blockstate::{Blockstate, StateView};
use crate::commands::Commands;
use crate::chunk::{
    sections_view, sections_wf, spec_chunk_of, spec_derived, Chunk, Section, CHUNK_SECTIONS,
    SECTION_BLOCKS,
};
use crate::decode::spec_decode;
use crate::encode::spec_blockstate;
use crate::error::{BlockError, WorldError};
use crate::geometry::{ChunkIndex, Pos};
use crate::palette::{
    lemma_palette, palette_decode, palette_encode, spec_indices, spec_pack, spec_palette,
    spec_palette_decode, spec_bits_per_index, words_view,
};
use crate::registry::UnknownBlocks;
use crate::text::str_eq;
use vstd::prelude::*;

verus! {

/// The version of the storage format that the library is made for.
pub const DATA_VERSION: i32 = 3465;

/// The lowest section of a record that is read, by its number.
pub const FIRST_LOADED_SECTION: i8 = 0;

/// The first section above those of a record that are read.
pub const END_LOADED_SECTION: i8 = 15;

/// Something that lives in the world: where it is and what it is.
#[derive(Debug)]
pub struct Entity {
    pub pos: Pos,
    pub id: String,
}

/// What storage keeps beside a block that has more state than its name
/// and properties.
#[derive(Debug)]
pub struct TileEntity {
    pub id: String,
    pub pos: Pos,
    /// The command that the block runs, for a command block.
    pub command: Option<String>,
}

/// What a `TileEntity` holds.
pub ghost struct TileView {
    pub id: Seq<char>,
    pub pos: Pos,
    pub command: Option<Seq<char>>,
}

/// What an `Entity` holds.
pub ghost struct EntityView {
    pub pos: Pos,
    pub id: Seq<char>,
}

/// A section as storage keeps it: its number, counted in sections from
/// height zero, the palette of its blocks, and the packed indices. A
/// section without packed indices is all air.
#[derive(Debug)]
pub struct SectionRecord {
    pub y: i8,
    pub palette: Vec<Blockstate>,
    pub data: Option<Vec<i64>>,
}

/// What a `SectionRecord` holds.
pub ghost struct SectionRecordView {
    pub y: i8,
    pub palette: Seq<StateView>,
    pub data: Option<Seq<nat>>,
}

/// A chunk as storage keeps it.
#[derive(Debug)]
pub struct ChunkRecord {
    pub data_version: i32,
    pub x_pos: i32,
    pub z_pos: i32,
    pub last_update: i64,
    pub terrain_populated: i8,
    pub inhabited_time: i64,
    pub status: String,
    pub sections: Vec<SectionRecord>,
    /// The name of the village that starts in the chunk, if one does.
    pub village: Option<String>,
    pub tile_entities: Vec<TileEntity>,
    pub entities: Vec<Entity>,
}

/// What a `ChunkRecord` holds.
pub ghost struct ChunkRecordView {
    pub data_version: i32,
    pub x_pos: i32,
    pub z_pos: i32,
    pub last_update: i64,
    pub terrain_populated: i8,
    pub inhabited_time: i64,
    pub status: Seq<char>,
    pub sections: Seq<SectionRecordView>,
    pub village: Option<Seq<char>>,
    pub tile_entities: Seq<TileView>,
    pub entities: Seq<EntityView>,
}

impl View for TileEntity {
    type V = TileView;

    open spec fn view(&self) -> TileView {
        TileView {
            id: self.id@,
            pos: self.pos,
            command: match self.command {
                Some(text) => Some(text@),
                None => None,
            },
        }
    }
}

impl View for Entity {
    type V = EntityView;

    open spec fn view(&self) -> EntityView {
        EntityView { pos: self.pos, id: self.id@ }
    }
}

impl Entity {
    /// A copy of the entity.
    pub fn duplicate(&self) -> (r: Entity)
        ensures
            r@ == self@,
    {
        Entity { pos: self.pos, id: self.id.clone() }
    }
}

/// The entities as what they hold.
pub open spec fn entities_view(entities: Seq<Entity>) -> Seq<EntityView> {
    entities.map_values(|e: Entity| e@)
}

/// The named states as sequences of characters.
pub open spec fn states_view(states: Seq<Blockstate>) -> Seq<StateView> {
    states.map_values(|s: Blockstate| s@)
}

impl View for SectionRecord {
    type V = SectionRecordView;

    open spec fn view(&self) -> SectionRecordView {
        SectionRecordView {
            y: self.y,
            palette: states_view(self.palette@),
            data: match self.data {
                Some(words) => Some(words_view(words@)),
                None => None,
            },
        }
    }
}

impl View for ChunkRecord {
    type V = ChunkRecordView;

    open spec fn view(&self) -> ChunkRecordView {
        ChunkRecordView {
            data_version: self.data_version,
            x_pos: self.x_pos,
            z_pos: self.z_pos,
            last_update: self.last_update,
            terrain_populated: self.terrain_populated,
            inhabited_time: self.inhabited_time,
            status: self.status@,
            sections: records_view(self.sections@),
            village: match self.village {
                Some(name) => Some(name@),
                None => None,
            },
            tile_entities: tiles_view(self.tile_entities@),
            entities: entities_view(self.entities@),
        }
    }
}

/// What the section records hold.
pub open spec fn records_view(records: Seq<SectionRecord>) -> Seq<SectionRecordView> {
    records.map_values(|r: SectionRecord| r@)
}

/// The tile entities as what they hold.
pub open spec fn tiles_view(tiles: Seq<TileEntity>) -> Seq<TileView> {
    tiles.map_values(|t: TileEntity| t@)
}

/// The blocks of a section of air.
pub open spec fn spec_air() -> Seq<Block> {
    Seq::new(SECTION_BLOCKS as nat, |i: int| Block::Air)
}

/// The places of a chunk without any section.
pub open spec fn spec_no_sections() -> Seq<Option<Seq<Block>>> {
    Seq::new(CHUNK_SECTIONS as nat, |i: int| None::<Seq<Block>>)
}

/// The blocks that the named states decode to, one after the other, and
/// the registry after them. The first state that fails ends the decoding
/// with its error.
pub open spec fn spec_decode_states(states: Seq<StateView>, unknown: Seq<StateView>) -> (
    Result<Seq<Block>, BlockError>,
    Seq<StateView>,
)
    decreases states.len(),
{
    if states.len() == 0 {
        (Ok(Seq::empty()), unknown)
    } else {
        let (front, known) = spec_decode_states(states.drop_last(), unknown);
        match front {
            Err(e) => (Err(e), known),
            Ok(blocks) => {
                let (last, after) = spec_decode(states.last(), known);
                match last {
                    Ok(block) => (Ok(blocks.push(block)), after),
                    Err(e) => (Err(e), after),
                }
            },
        }
    }
}

/// Whether a section with the number `y` is read.
pub open spec fn spec_section_loaded(y: i8) -> bool {
    FIRST_LOADED_SECTION <= y < END_LOADED_SECTION
}

/// The blocks of the section that a record holds, and the registry after
/// reading it: `None` for a section that is not read, air for one without
/// packed indices, else what the palette codec reads from the record.
pub open spec fn spec_load_section(record: SectionRecordView, unknown: Seq<StateView>) -> (
    Result<Option<Seq<Block>>, WorldError>,
    Seq<StateView>,
) {
    if !spec_section_loaded(record.y) {
        (Ok(None), unknown)
    } else {
        let (palette, after) = spec_decode_states(record.palette, unknown);
        match palette {
            Err(e) => (Err(WorldError::Block(e)), after),
            Ok(blocks) => match record.data {
                None => (Ok(Some(spec_air())), after),
                Some(words) => match spec_palette_decode(blocks, words, SECTION_BLOCKS as nat) {
                    Ok(decoded) => (Ok(Some(decoded)), after),
                    Err(e) => (Err(WorldError::Palette(e)), after),
                },
            },
        }
    }
}

/// The sections of the chunk that the records hold, and the registry after
/// reading them. The records are read in their order; of two records with
/// the same number the later one stays; the first that fails ends the
/// reading with its error.
pub open spec fn spec_load_sections(records: Seq<SectionRecordView>, unknown: Seq<StateView>) -> (
    Result<Seq<Option<Seq<Block>>>, WorldError>,
    Seq<StateView>,
)
    decreases records.len(),
{
    if records.len() == 0 {
        (Ok(spec_no_sections()), unknown)
    } else {
        let (front, known) = spec_load_sections(records.drop_last(), unknown);
        match front {
            Err(e) => (Err(e), known),
            Ok(sections) => {
                let (last, after) = spec_load_section(records.last(), known);
                match last {
                    Err(e) => (Err(e), after),
                    Ok(None) => (Ok(sections), after),
                    Ok(Some(blocks)) => (
                        Ok(sections.update(records.last().y + 4, Some(blocks))),
                        after,
                    ),
                }
            },
        }
    }
}

/// Once a state has failed, the states after it change nothing.
proof fn lemma_states_error(states: Seq<StateView>, unknown: Seq<StateView>, k: int)
    requires
        0 <= k <= states.len(),
        spec_decode_states(states.take(k), unknown).0 is Err,
    ensures
        spec_decode_states(states, unknown) == spec_decode_states(states.take(k), unknown),
    decreases states.len() - k,
{
    if k == states.len() {
        assert(states.take(k) =~= states);
    } else {
        assert(states.take(k + 1).drop_last() =~= states.take(k));
        lemma_states_error(states, unknown, k + 1);
    }
}

/// Once a section has failed, the sections after it change nothing.
proof fn lemma_sections_error(records: Seq<SectionRecordView>, unknown: Seq<StateView>, k: int)
    requires
        0 <= k <= records.len(),
        spec_load_sections(records.take(k), unknown).0 is Err,
    ensures
        spec_load_sections(records, unknown) == spec_load_sections(records.take(k), unknown),
    decreases records.len() - k,
{
    if k == records.len() {
        assert(records.take(k) =~= records);
    } else {
        assert(records.take(k + 1).drop_last() =~= records.take(k));
        lemma_sections_error(records, unknown, k + 1);
    }
}

/// Reads the named states of a palette as blocks, one after the other.
/// States that the block model does not know are interned in `unknown`.
/// The first state that fails ends the reading with its error.
pub fn decode_palette(states: &Vec<Blockstate>, unknown: &mut UnknownBlocks) -> (r: Result<
    Vec<Block>,
    BlockError,
>)
    requires
        old(unknown).wf(),
    ensures
        final(unknown).wf(),
        final(unknown)@ == spec_decode_states(states_view(states@), old(unknown)@).1,
        match r {
            Ok(blocks) => spec_decode_states(states_view(states@), old(unknown)@).0 == Ok::<
                Seq<Block>,
                BlockError,
            >(blocks@),
            Err(e) => spec_decode_states(states_view(states@), old(unknown)@).0 == Err::<
                Seq<Block>,
                BlockError,
            >(e),
        },
{
    let ghost all = states_view(states@);
    let ghost start = unknown@;
    let mut blocks: Vec<Block> = Vec::new();
    let mut i: usize = 0;
    assert(all.take(0) =~= Seq::<StateView>::empty());
    while i < states.len()
        invariant
            i <= states.len(),
            all == states_view(states@),
            start == old(unknown)@,
            unknown.wf(),
            spec_decode_states(all.take(i as int), start) == (
                Ok::<Seq<Block>, BlockError>(blocks@),
                unknown@,
            ),
        decreases states.len() - i,
    {
        let ghost upto = all.take(i + 1);
        assert(upto.drop_last() =~= all.take(i as int));
        assert(upto.last() == states[i as int]@);
        match Block::from_blockstate(states[i].duplicate(), unknown) {
            Ok(block) => {
                blocks.push(block);
            },
            Err(e) => {
                proof {
                    lemma_states_error(all, start, i + 1);
                }
                return Err(e);
            },
        }
        i = i + 1;
    }
    assert(all.take(i as int) =~= all);
    Ok(blocks)
}

/// Reads the section that a record holds. A section whose number is not
/// among those that are read gives `None` and leaves the registry as it is.
pub fn load_section(record: &SectionRecord, unknown: &mut UnknownBlocks) -> (r: Result<
    Option<Section>,
    WorldError,
>)
    requires
        old(unknown).wf(),
    ensures
        final(unknown).wf(),
        final(unknown)@ == spec_load_section(record@, old(unknown)@).1,
        match r {
            Ok(Some(section)) => section.wf() && spec_load_section(record@, old(unknown)@).0
                == Ok::<Option<Seq<Block>>, WorldError>(Some(section@)),
            Ok(None) => spec_load_section(record@, old(unknown)@).0 == Ok::<
                Option<Seq<Block>>,
                WorldError,
            >(None),
            Err(e) => spec_load_section(record@, old(unknown)@).0 == Err::<
                Option<Seq<Block>>,
                WorldError,
            >(e),
        },
{
    if record.y < FIRST_LOADED_SECTION || record.y >= END_LOADED_SECTION {
        return Ok(None);
    }
    let palette = match decode_palette(&record.palette, unknown) {
        Ok(palette) => palette,
        Err(e) => {
            return Err(WorldError::Block(e));
        },
    };
    match &record.data {
        None => {
            let section = Section::new();
            assert(section@ =~= spec_air());
            Ok(Some(section))
        },
        Some(words) => match palette_decode(&palette, words, SECTION_BLOCKS) {
            Ok(blocks) => Ok(Some(Section::from_blocks(blocks))),
            Err(e) => Err(WorldError::Palette(e)),
        },
    }
}

/// Reads a chunk from its record.
///
/// Each section of the record whose number is among those that are read is
/// decoded through its palette; states that the block model does not know
/// are interned in `unknown`. The other sections are left out. From the
/// blocks the height of the ground and of the water is taken for each
/// column. The first section that cannot be read ends the call with its
/// error.
pub fn load_chunk(record: &ChunkRecord, unknown: &mut UnknownBlocks) -> (r: Result<
    Chunk,
    WorldError,
>)
    requires
        old(unknown).wf(),
    ensures
        final(unknown).wf(),
        final(unknown)@ == spec_load_sections(records_view(record.sections@), old(unknown)@).1,
        match r {
            Ok(chunk) => {
                &&& chunk.wf()
                &&& spec_load_sections(records_view(record.sections@), old(unknown)@).0 == Ok::<
                    Seq<Option<Seq<Block>>>,
                    WorldError,
                >(chunk@.sections)
                &&& chunk@ == spec_chunk_of(chunk@.sections)
                &&& spec_derived(chunk@.sections, chunk@.heights, chunk@.water)
            },
            Err(e) => spec_load_sections(records_view(record.sections@), old(unknown)@).0 == Err::<
                Seq<Option<Seq<Block>>>,
                WorldError,
            >(e),
        },
{
    let ghost all = records_view(record.sections@);
    let ghost start = unknown@;
    let mut sections: Vec<Option<Section>> = Vec::new();
    let mut s: usize = 0;
    while s < CHUNK_SECTIONS
        invariant
            s <= CHUNK_SECTIONS,
            sections.len() == s,
            forall|j: int| 0 <= j < s ==> sections[j] is None,
        decreases CHUNK_SECTIONS - s,
    {
        sections.push(None);
        s = s + 1;
    }
    assert(sections_view(sections@) =~= spec_no_sections());
    assert(all.take(0) =~= Seq::<SectionRecordView>::empty());
    let mut i: usize = 0;
    while i < record.sections.len()
        invariant
            i <= record.sections.len(),
            all == records_view(record.sections@),
            start == old(unknown)@,
            unknown.wf(),
            sections.len() == CHUNK_SECTIONS,
            sections_wf(sections_view(sections@)),
            spec_load_sections(all.take(i as int), start) == (
                Ok::<Seq<Option<Seq<Block>>>, WorldError>(sections_view(sections@)),
                unknown@,
            ),
        decreases record.sections.len() - i,
    {
        let ghost upto = all.take(i + 1);
        assert(upto.drop_last() =~= all.take(i as int));
        assert(upto.last() == record.sections[i as int]@);
        let ghost before = sections_view(sections@);
        match load_section(&record.sections[i], unknown) {
            Err(e) => {
                proof {
                    lemma_sections_error(all, start, i + 1);
                }
                return Err(e);
            },
            Ok(None) => {},
            Ok(Some(section)) => {
                let place: usize = (record.sections[i].y + 4) as usize;
                let ghost blocks = section@;
                sections[place] = Some(section);
                assert(sections_view(sections@) =~= before.update(place as int, Some(blocks)));
            },
        }
        i = i + 1;
    }
    assert(all.take(i as int) =~= all);
    Ok(Chunk::from_sections(sections))
}

impl ChunkRecord {
    /// Whether the record has the version that the library is made for. A
    /// record of another version is read all the same, but what is read
    /// may be wrong.
    pub fn version_supported(&self) -> (r: bool)
        ensures
            r == (self.data_version == DATA_VERSION),
    {
        self.data_version == DATA_VERSION
    }

    /// The name of the village that starts in the chunk, unless the record
    /// marks it as `INVALID`.
    pub fn village_marker(&self) -> (r: Option<&str>)
        ensures
            match r {
                Some(id) => self.village matches Some(name) && name@ == id@ && id@ != "INVALID"@,
                None => self.village matches Some(name) ==> name@ == "INVALID"@,
            },
    {
        match &self.village {
            Some(name) => if str_eq(name.as_str(), "INVALID") {
                None
            } else {
                Some(name.as_str())
            },
            None => None,
        }
    }
}

impl Block {
    /// Whether storage keeps a tile entity beside the block.
    pub open spec fn spec_has_tile_entity(self) -> bool {
        self is Bell || self is WallBanner || self is CommandBlock
    }

    /// The tile entity that storage keeps beside the block at `pos`, if it
    /// keeps one: for a command block the one with its command, which the
    /// store `commands` holds.
    pub open spec fn spec_tile_entity(self, pos: Pos, commands: Seq<Seq<char>>) -> Option<
        TileView,
    > {
        match self {
            Block::Bell(_, _) => Some(TileView { id: "bell"@, pos, command: None }),
            Block::WallBanner(_, _) => Some(TileView { id: "banner"@, pos, command: None }),
            Block::CommandBlock(_) => match self.spec_command(commands) {
                Some(text) => Some(TileView { id: "command_block"@, pos, command: Some(text) }),
                None => None,
            },
            _ => None,
        }
    }

    /// Whether storage keeps a tile entity beside the block.
    pub fn has_tile_entity(self) -> (r: bool)
        ensures
            r == self.spec_has_tile_entity(),
    {
        match self {
            Block::Bell(_, _) | Block::WallBanner(_, _) | Block::CommandBlock(_) => true,
            _ => false,
        }
    }

    /// The tile entity that storage keeps beside the block at `pos`: one
    /// for a bell, for a banner on a wall and for a command block whose
    /// command the store holds, none for any other block.
    pub fn tile_entity(self, pos: Pos, commands: &Commands) -> (r: Option<TileEntity>)
        ensures
            r is Some <==> self.spec_has_tile_entity() && self.spec_command_held(commands@),
            match r {
                Some(tile) => self.spec_tile_entity(pos, commands@) == Some(tile@),
                None => self.spec_tile_entity(pos, commands@) is None,
            },
    {
        match self {
            Block::Bell(_, _) => Some(
                TileEntity { id: String::from_str("bell"), pos, command: None },
            ),
            Block::WallBanner(_, _) => Some(
                TileEntity { id: String::from_str("banner"), pos, command: None },
            ),
            Block::CommandBlock(_) => match commands.command(self) {
                Some(text) => Some(
                    TileEntity { id: String::from_str("command_block"), pos, command: Some(text) },
                ),
                None => None,
            },
            _ => None,
        }
    }

    /// Whether the block can be written with the registry `unknown`.
    pub fn is_encodable(self, unknown: &UnknownBlocks) -> (r: bool)
        ensures
            r == self.encodable(unknown@),
    {
        match self {
            Block::Other(index) => (index as usize) < unknown.len(),
            _ => self.is_valid(),
        }
    }

    /// Whether the block can be written to a record: with its state, by
    /// the registry `unknown`, and with what it needs beside its state, by
    /// the store `commands`.
    pub open spec fn storable(self, unknown: Seq<StateView>, commands: Seq<Seq<char>>) -> bool {
        self.encodable(unknown) && self.spec_command_held(commands)
    }

    /// Whether the block can be written to a record.
    pub fn is_storable(self, unknown: &UnknownBlocks, commands: &Commands) -> (r: bool)
        ensures
            r == self.storable(unknown@, commands@),
    {
        self.is_encodable(unknown) && commands.holds(self)
    }
}

/// The furthest that a chunk may lie from the origin, in chunks, so that
/// the positions of its blocks can be told.
pub const MAX_CHUNK_COORD: i32 = 0x400_0000;

/// Whether the positions of the chunk's blocks can be told.
pub open spec fn spec_chunk_in_range(index: ChunkIndex) -> bool {
    -MAX_CHUNK_COORD <= index.0 < MAX_CHUNK_COORD && -MAX_CHUNK_COORD <= index.1
        < MAX_CHUNK_COORD
}

/// The position in the world of the block at place `i` of the section at
/// place `place` of the chunk `index`.
pub open spec fn spec_block_pos(index: ChunkIndex, place: int, i: int) -> Pos {
    Pos(
        (index.0 * 16 + i % 16) as i32,
        ((place - 4) * 16 + i / 256) as i32,
        (index.1 * 16 + (i % 256) / 16) as i32,
    )
}

/// The tile entities of the first `upto` blocks of a section, in the order
/// of the blocks.
pub open spec fn spec_section_tiles(
    blocks: Seq<Block>,
    index: ChunkIndex,
    place: int,
    commands: Seq<Seq<char>>,
    upto: int,
) -> Seq<TileView>
    decreases upto,
{
    if upto <= 0 {
        Seq::empty()
    } else {
        let before = spec_section_tiles(blocks, index, place, commands, upto - 1);
        match blocks[upto - 1].spec_tile_entity(
            spec_block_pos(index, place, upto - 1),
            commands,
        ) {
            Some(tile) => before.push(tile),
            None => before,
        }
    }
}

/// The tile entities of the first `upto` places of a chunk, section after
/// section.
pub open spec fn spec_chunk_tiles(
    sections: Seq<Option<Seq<Block>>>,
    index: ChunkIndex,
    commands: Seq<Seq<char>>,
    upto: int,
) -> Seq<TileView>
    decreases upto,
{
    if upto <= 0 {
        Seq::empty()
    } else {
        let before = spec_chunk_tiles(sections, index, commands, upto - 1);
        match sections[upto - 1] {
            Some(blocks) => before + spec_section_tiles(
                blocks,
                index,
                upto - 1,
                commands,
                SECTION_BLOCKS as int,
            ),
            None => before,
        }
    }
}

/// Whether every block can be written with the registry `unknown` and the
/// store `commands`.
pub open spec fn spec_blocks_encodable(
    blocks: Seq<Block>,
    unknown: Seq<StateView>,
    commands: Seq<Seq<char>>,
) -> bool {
    forall|i: int| 0 <= i < blocks.len() ==> (#[trigger] blocks[i]).storable(unknown, commands)
}

/// Whether every block of every section can be written.
pub open spec fn spec_sections_encodable(
    sections: Seq<Option<Seq<Block>>>,
    unknown: Seq<StateView>,
    commands: Seq<Seq<char>>,
) -> bool {
    forall|s: int|
        0 <= s < sections.len() ==> (#[trigger] sections[s] matches Some(blocks)
            ==> spec_blocks_encodable(blocks, unknown, commands))
}

/// The named states of the blocks.
pub open spec fn spec_states_of(blocks: Seq<Block>, unknown: Seq<StateView>) -> Seq<StateView> {
    blocks.map_values(|b: Block| spec_blockstate(b, unknown))
}

/// The record of the section at place `place` with the given blocks: its
/// number, the named states of its palette, and its packed indices.
pub open spec fn spec_save_section(blocks: Seq<Block>, place: int, unknown: Seq<StateView>)
    -> SectionRecordView {
    SectionRecordView {
        y: (place - 4) as i8,
        palette: spec_states_of(spec_palette(blocks), unknown),
        data: Some(
            spec_pack(spec_indices(blocks), spec_bits_per_index(spec_palette(blocks).len())),
        ),
    }
}

/// The records of the sections in the first `upto` places of a chunk, from
/// the lowest up. A place without a section has no record.
pub open spec fn spec_save_sections(
    sections: Seq<Option<Seq<Block>>>,
    unknown: Seq<StateView>,
    upto: int,
) -> Seq<SectionRecordView>
    decreases upto,
{
    if upto <= 0 {
        Seq::empty()
    } else {
        let before = spec_save_sections(sections, unknown, upto - 1);
        match sections[upto - 1] {
            Some(blocks) => before.push(spec_save_section(blocks, upto - 1, unknown)),
            None => before,
        }
    }
}

/// The record of the chunk `index` with the given sections and entities:
/// the version that the library is made for, the chunk's place, one record
/// for each section, a tile entity for each block that carries one, and the
/// entities.
pub open spec fn spec_save_chunk(
    index: ChunkIndex,
    sections: Seq<Option<Seq<Block>>>,
    entities: Seq<EntityView>,
    unknown: Seq<StateView>,
    commands: Seq<Seq<char>>,
) -> ChunkRecordView {
    ChunkRecordView {
        data_version: DATA_VERSION,
        x_pos: index.0,
        z_pos: index.1,
        last_update: 0,
        terrain_populated: 1,
        inhabited_time: 0,
        status: "full"@,
        sections: spec_save_sections(sections, unknown, CHUNK_SECTIONS as int),
        village: None,
        tile_entities: spec_chunk_tiles(sections, index, commands, CHUNK_SECTIONS as int),
        entities,
    }
}

/// The position in the world of the block at place `i` of the section at
/// place `place` of the chunk `index`.
pub fn block_pos(index: ChunkIndex, place: usize, i: usize) -> (pos: Pos)
    requires
        spec_chunk_in_range(index),
        place < CHUNK_SECTIONS,
        i < SECTION_BLOCKS,
    ensures
        pos == spec_block_pos(index, place as int, i as int),
{
    Pos(
        index.0 * 16 + (i % 16) as i32,
        (place as i32 - 4) * 16 + (i / 256) as i32,
        index.1 * 16 + ((i % 256) / 16) as i32,
    )
}

/// A section has a tile entity for each of its blocks that carries one,
/// and no other: a block that carries none leaves no trace among them. A
/// block that carries one has it whenever the store holds its command.
pub proof fn lemma_section_tiles(
    blocks: Seq<Block>,
    index: ChunkIndex,
    place: int,
    commands: Seq<Seq<char>>,
    upto: int,
)
    requires
        0 <= upto <= blocks.len(),
    ensures
        forall|i: int|
            0 <= i < upto && (#[trigger] blocks[i]).spec_has_tile_entity()
                && blocks[i].spec_command_held(commands) ==> spec_section_tiles(
                blocks,
                index,
                place,
                commands,
                upto,
            ).contains(blocks[i].spec_tile_entity(spec_block_pos(index, place, i), commands)->0),
        forall|k: int|
            0 <= k < spec_section_tiles(blocks, index, place, commands, upto).len() ==> exists|
                i: int,
            |
                0 <= i < upto && (#[trigger] blocks[i]).spec_tile_entity(
                    spec_block_pos(index, place, i),
                    commands,
                ) == Some(#[trigger] spec_section_tiles(blocks, index, place, commands, upto)[k]),
        spec_section_tiles(blocks, index, place, commands, upto).len() <= upto,
    decreases upto,
{
    if upto > 0 {
        lemma_section_tiles(blocks, index, place, commands, upto - 1);
        let before = spec_section_tiles(blocks, index, place, commands, upto - 1);
        let tiles = spec_section_tiles(blocks, index, place, commands, upto);
        let last = blocks[upto - 1].spec_tile_entity(
            spec_block_pos(index, place, upto - 1),
            commands,
        );
        assert forall|i: int|
            0 <= i < upto && (#[trigger] blocks[i]).spec_has_tile_entity()
                && blocks[i].spec_command_held(commands) implies tiles.contains(
            blocks[i].spec_tile_entity(spec_block_pos(index, place, i), commands)->0,
        ) by {
            if i < upto - 1 {
                let tile = blocks[i].spec_tile_entity(
                    spec_block_pos(index, place, i),
                    commands,
                )->0;
                assert(before.contains(tile));
                let k = choose|k: int| 0 <= k < before.len() && before[k] == tile;
                assert(tiles[k] == tile);
            } else {
                assert(last is Some);
                assert(tiles[before.len() as int] == last->0);
            }
        }
        assert forall|k: int| 0 <= k < tiles.len() implies exists|i: int|
            0 <= i < upto && (#[trigger] blocks[i]).spec_tile_entity(
                spec_block_pos(index, place, i),
                commands,
            ) == Some(#[trigger] tiles[k]) by {
            if k < before.len() {
                let i = choose|i: int|
                    0 <= i < upto - 1 && (#[trigger] blocks[i]).spec_tile_entity(
                        spec_block_pos(index, place, i),
                        commands,
                    ) == Some(before[k]);
                assert(blocks[i].spec_tile_entity(spec_block_pos(index, place, i), commands)
                    == Some(tiles[k]));
            } else {
                assert(blocks[upto - 1].spec_tile_entity(
                    spec_block_pos(index, place, upto - 1),
                    commands,
                ) == Some(tiles[k]));
            }
        }
    }
}

/// In a section that can be written, every block that carries a tile
/// entity has its own among the section's: a bell, a banner on a wall, and
/// a command block with its command. A block that carries none has none.
pub proof fn lemma_written_tiles(
    blocks: Seq<Block>,
    index: ChunkIndex,
    place: int,
    unknown: Seq<StateView>,
    commands: Seq<Seq<char>>,
)
    requires
        spec_blocks_encodable(blocks, unknown, commands),
    ensures
        forall|i: int|
            0 <= i < blocks.len() && (#[trigger] blocks[i]).spec_has_tile_entity() ==> {
                let tile = blocks[i].spec_tile_entity(spec_block_pos(index, place, i), commands);
                let tiles = spec_section_tiles(blocks, index, place, commands, blocks.len() as int);
                &&& tile is Some
                &&& tile->0.pos == spec_block_pos(index, place, i)
                &&& tile->0.command == blocks[i].spec_command(commands)
                &&& (blocks[i] is CommandBlock ==> tile->0.command is Some)
                &&& tiles.contains(tile->0)
            },
        forall|i: int|
            0 <= i < blocks.len() && !(#[trigger] blocks[i]).spec_has_tile_entity()
                ==> blocks[i].spec_tile_entity(spec_block_pos(index, place, i), commands) is None,
{
    lemma_section_tiles(blocks, index, place, commands, blocks.len() as int);
    assert forall|i: int|
        0 <= i < blocks.len() && (#[trigger] blocks[i]).spec_has_tile_entity()
            implies blocks[i].spec_command_held(commands) by {
        assert(blocks[i].storable(unknown, commands));
    }
}

/// Adds the tile entities of a section to `tiles`.
fn collect_tiles(
    section: &Section,
    index: ChunkIndex,
    place: usize,
    commands: &Commands,
    tiles: &mut Vec<TileEntity>,
)
    requires
        section.wf(),
        spec_chunk_in_range(index),
        place < CHUNK_SECTIONS,
    ensures
        tiles_view(final(tiles)@) == tiles_view(old(tiles)@) + spec_section_tiles(
            section@,
            index,
            place as int,
            commands@,
            SECTION_BLOCKS as int,
        ),
{
    let ghost start = tiles_view(tiles@);
    let mut i: usize = 0;
    assert(tiles_view(tiles@) =~= start + spec_section_tiles(
        section@,
        index,
        place as int,
        commands@,
        0,
    ));
    while i < SECTION_BLOCKS
        invariant
            i <= SECTION_BLOCKS,
            section.wf(),
            spec_chunk_in_range(index),
            place < CHUNK_SECTIONS,
            tiles_view(tiles@) == start + spec_section_tiles(
                section@,
                index,
                place as int,
                commands@,
                i as int,
            ),
        decreases SECTION_BLOCKS - i,
    {
        let ghost before = tiles_view(tiles@);
        match section.get(i).tile_entity(block_pos(index, place, i), commands) {
            Some(tile) => {
                let ghost added = tile@;
                tiles.push(tile);
                assert(tiles_view(tiles@) =~= before.push(added));
                assert(before.push(added) =~= start + spec_section_tiles(
                    section@,
                    index,
                    place as int,
                    commands@,
                    i as int,
                ).push(added));
            },
            None => {},
        }
        i = i + 1;
    }
}

/// The record of a section. It fails with `Unencodable` where one of the
/// section's blocks cannot be written: the registry does not hold its
/// state, or the store does not hold its command.
pub fn save_section(
    section: &Section,
    place: usize,
    unknown: &UnknownBlocks,
    commands: &Commands,
) -> (r: Result<SectionRecord, WorldError>)
    requires
        section.wf(),
        place < CHUNK_SECTIONS,
    ensures
        match r {
            Ok(record) => spec_blocks_encodable(section@, unknown@, commands@) && record@
                == spec_save_section(section@, place as int, unknown@),
            Err(e) => !spec_blocks_encodable(section@, unknown@, commands@) && e
                == WorldError::Unencodable,
        },
{
    let (palette, data) = palette_encode(section.blocks());
    let ghost blocks = section@;
    proof {
        lemma_palette(blocks);
    }
    let mut states: Vec<Blockstate> = Vec::new();
    let mut k: usize = 0;
    while k < palette.len()
        invariant
            k <= palette.len(),
            blocks == section@,
            palette@ == spec_palette(blocks),
            palette.len() >= 1,
            palette[0] == Block::Air,
            states.len() == k,
            forall|j: int| 0 <= j < k ==> (#[trigger] palette[j]).storable(unknown@, commands@),
            forall|j: int|
                0 <= j < k ==> (#[trigger] states[j])@ == spec_blockstate(palette[j], unknown@),
            forall|j: int|
                1 <= j < palette.len() ==> blocks.contains(#[trigger] spec_palette(blocks)[j]),
        decreases palette.len() - k,
    {
        if !palette[k].is_storable(unknown, commands) {
            proof {
                assert(k >= 1);
                assert(blocks.contains(spec_palette(blocks)[k as int]));
                let i = choose|i: int| 0 <= i < blocks.len() && blocks[i] == palette[k as int];
                assert(!blocks[i].storable(unknown@, commands@));
            }
            return Err(WorldError::Unencodable);
        }
        states.push(palette[k].blockstate(unknown));
        k = k + 1;
    }
    proof {
        assert forall|i: int| 0 <= i < blocks.len() implies (#[trigger] blocks[i]).storable(
            unknown@,
            commands@,
        ) by {
            assert(spec_palette(blocks).contains(blocks[i]));
            let j = choose|j: int| 0 <= j < palette.len() && palette[j] == blocks[i];
            assert(palette[j].storable(unknown@, commands@));
        }
        assert(states_view(states@) =~= spec_states_of(spec_palette(blocks), unknown@));
    }
    Ok(SectionRecord { y: (place as i32 - 4) as i8, palette: states, data: Some(data) })
}

/// Writes a chunk to its record.
///
/// The record has one section for each section of the chunk, from the
/// lowest up, each with the palette and packed indices that the palette
/// codec gives; a tile entity for each block that carries one, and no
/// other, a command block's with its command; and the entities that are
/// handed in. It fails with `Unencodable` where a block of the chunk cannot
/// be written.
pub fn save_chunk(
    index: ChunkIndex,
    chunk: &Chunk,
    entities: Vec<Entity>,
    unknown: &UnknownBlocks,
    commands: &Commands,
) -> (r: Result<ChunkRecord, WorldError>)
    requires
        chunk.wf(),
        spec_chunk_in_range(index),
    ensures
        match r {
            Ok(record) => spec_sections_encodable(chunk@.sections, unknown@, commands@)
                && record@ == spec_save_chunk(
                index,
                chunk@.sections,
                entities_view(entities@),
                unknown@,
                commands@,
            ),
            Err(e) => !spec_sections_encodable(chunk@.sections, unknown@, commands@) && e
                == WorldError::Unencodable,
        },
{
    let ghost all = chunk@.sections;
    let mut sections: Vec<SectionRecord> = Vec::new();
    let mut tiles: Vec<TileEntity> = Vec::new();
    let mut place: usize = 0;
    assert(records_view(sections@) =~= spec_save_sections(all, unknown@, 0));
    assert(tiles_view(tiles@) =~= spec_chunk_tiles(all, index, commands@, 0));
    while place < CHUNK_SECTIONS
        invariant
            place <= CHUNK_SECTIONS,
            chunk.wf(),
            all == chunk@.sections,
            spec_chunk_in_range(index),
            records_view(sections@) == spec_save_sections(all, unknown@, place as int),
            tiles_view(tiles@) == spec_chunk_tiles(all, index, commands@, place as int),
            forall|s: int|
                0 <= s < place ==> (#[trigger] all[s] matches Some(blocks)
                    ==> spec_blocks_encodable(blocks, unknown@, commands@)),
        decreases CHUNK_SECTIONS - place,
    {
        match chunk.section(place) {
            None => {},
            Some(section) => {
                let ghost before = records_view(sections@);
                match save_section(section, place, unknown, commands) {
                    Err(e) => {
                        assert(all[place as int] matches Some(blocks) && !spec_blocks_encodable(
                            blocks,
                            unknown@,
                            commands@,
                        ));
                        return Err(e);
                    },
                    Ok(record) => {
                        let ghost added = record@;
                        sections.push(record);
                        assert(records_view(sections@) =~= before.push(added));
                    },
                }
                collect_tiles(section, index, place, commands, &mut tiles);
            },
        }
        place = place + 1;
    }
    Ok(
        ChunkRecord {
            data_version: DATA_VERSION,
            x_pos: index.0,
            z_pos: index.1,
            last_update: 0,
            terrain_populated: 1,
            inhabited_time: 0,
            status: String::from_str("full"),
            sections,
            village: None,
            tile_entities: tiles,
            entities,
        },
    )
}

} // verus!
