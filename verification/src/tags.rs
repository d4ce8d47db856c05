//! Blocks and chunk records as tags of the storage format.
//!
//! A compound tag is an ordered list of named tags. The functions of this
//! module read the tags of a chunk into a record and write a record as
//! tags. What a compound tag holds is known through a handful of trusted
//! functions, each of which calls one method of the tag.

use crate::block::Block;
use crate::blockstate::{props_view, Blockstate, StateView};
use crate::commands::Commands;
use crate::decode::{
    known_block, spec_decode, spec_known_block, spec_strip_namespace, strip_namespace,
};
use crate::error::{BlockError, WorldError};
use crate::geometry::{ChunkIndex, Pos};
use crate::record::{
    records_view, spec_section_loaded, states_view, ChunkRecord, ChunkRecordView, EntityView,
    SectionRecord, SectionRecordView, TileEntity, TileView, END_LOADED_SECTION,
    FIRST_LOADED_SECTION,
};
use crate::palette::words_view;
use crate::registry::UnknownBlocks;
use vstd::prelude::*;

verus! {

/// The compound tag of the storage format.
#[verifier::external_type_specification]
#[verifier::external_body]
pub struct ExCompoundTag(nbt::CompoundTag);

/// What a tag holds. Tags of the kinds that chunks do not use count as
/// `Other`.
pub ghost enum NbtValue {
    Byte(i8),
    Int(i32),
    Long(i64),
    Str(Seq<char>),
    Longs(Seq<i64>),
    Compound(Seq<(Seq<char>, NbtValue)>),
    List(Seq<NbtValue>),
    Other,
}

/// The named tags that a compound tag holds, in the order in which the tag
/// hands them out.
pub uninterp spec fn tag_view(tag: nbt::CompoundTag) -> Seq<(Seq<char>, NbtValue)>;

/// The tag named `name` among `entries`.
pub open spec fn nbt_get(entries: Seq<(Seq<char>, NbtValue)>, name: Seq<char>) -> Option<NbtValue>
    decreases entries.len(),
{
    if entries.len() == 0 {
        None
    } else if entries[0].0 == name {
        Some(entries[0].1)
    } else {
        nbt_get(entries.skip(1), name)
    }
}

/// The entries without those named `name`.
pub open spec fn nbt_without(entries: Seq<(Seq<char>, NbtValue)>, name: Seq<char>) -> Seq<
    (Seq<char>, NbtValue),
> {
    entries.filter(|e: (Seq<char>, NbtValue)| e.0 != name)
}

/// The entries after a tag was put in under `name`: a tag of that name
/// leaves its place, and the new tag comes last.
pub open spec fn nbt_insert(entries: Seq<(Seq<char>, NbtValue)>, name: Seq<char>, value: NbtValue)
    -> Seq<(Seq<char>, NbtValue)> {
    nbt_without(entries, name).push((name, value))
}

/// The compound tags as values of a list.
pub open spec fn compounds_view(tags: Seq<nbt::CompoundTag>) -> Seq<NbtValue> {
    tags.map_values(|t: nbt::CompoundTag| NbtValue::Compound(tag_view(t)))
}

/// The borrowed compound tags as values of a list.
pub open spec fn compound_refs_view(tags: Seq<&nbt::CompoundTag>) -> Seq<NbtValue> {
    tags.map_values(|t: &nbt::CompoundTag| NbtValue::Compound(tag_view(*t)))
}

/// Whether the value is a list of compound tags.
pub open spec fn spec_is_compound_list(value: Option<NbtValue>) -> bool {
    value matches Some(NbtValue::List(items)) && forall|i: int|
        0 <= i < items.len() ==> #[trigger] items[i] is Compound
}

/// A compound tag without tags.
///
/// Trusted: `CompoundTag::new` makes a tag with an empty map.
#[verifier::external_body]
pub(crate) fn tag_new() -> (tag: nbt::CompoundTag)
    ensures
        tag_view(tag) == Seq::<(Seq<char>, NbtValue)>::empty(),
{
    nbt::CompoundTag::new()
}

/// The string named `name`, if the tag holds a string of that name.
///
/// Trusted: `CompoundTag::get_str` looks the name up and gives the value
/// where the tag found is a string, and an error where none is found or
/// the tag found is of another kind.
#[verifier::external_body]
pub(crate) fn tag_get_str(tag: &nbt::CompoundTag, name: &str) -> (r: Option<String>)
    ensures
        match r {
            Some(value) => nbt_get(tag_view(*tag), name@) == Some(NbtValue::Str(value@)),
            None => !(nbt_get(tag_view(*tag), name@) matches Some(NbtValue::Str(_))),
        },
{
    tag.get_str(name).ok().map(|value| value.to_string())
}

/// The `i32` named `name`, if the tag holds one of that name.
///
/// Trusted: `CompoundTag::get_i32` looks the name up and gives the value
/// where the tag found is an int, and an error otherwise.
#[verifier::external_body]
pub(crate) fn tag_get_i32(tag: &nbt::CompoundTag, name: &str) -> (r: Option<i32>)
    ensures
        match r {
            Some(value) => nbt_get(tag_view(*tag), name@) == Some(NbtValue::Int(value)),
            None => !(nbt_get(tag_view(*tag), name@) matches Some(NbtValue::Int(_))),
        },
{
    tag.get_i32(name).ok()
}

/// The `i8` named `name`, if the tag holds one of that name.
///
/// Trusted: `CompoundTag::get_i8` looks the name up and gives the value
/// where the tag found is a byte, and an error otherwise.
#[verifier::external_body]
pub(crate) fn tag_get_i8(tag: &nbt::CompoundTag, name: &str) -> (r: Option<i8>)
    ensures
        match r {
            Some(value) => nbt_get(tag_view(*tag), name@) == Some(NbtValue::Byte(value)),
            None => !(nbt_get(tag_view(*tag), name@) matches Some(NbtValue::Byte(_))),
        },
{
    tag.get_i8(name).ok()
}

/// A copy of the array of `i64` named `name`, if the tag holds one of that
/// name.
///
/// Trusted: `CompoundTag::get_i64_vec` looks the name up and gives the
/// array where the tag found is an array of longs, and an error otherwise.
#[verifier::external_body]
pub(crate) fn tag_get_longs(tag: &nbt::CompoundTag, name: &str) -> (r: Option<Vec<i64>>)
    ensures
        match r {
            Some(values) => nbt_get(tag_view(*tag), name@) == Some(NbtValue::Longs(values@)),
            None => !(nbt_get(tag_view(*tag), name@) matches Some(NbtValue::Longs(_))),
        },
{
    tag.get_i64_vec(name).ok().cloned()
}

/// The compound tag named `name`, if the tag holds one of that name.
///
/// Trusted: `CompoundTag::get_compound_tag` looks the name up and gives the
/// tag found where it is a compound tag, and an error otherwise.
#[verifier::external_body]
pub(crate) fn tag_get_compound<'a>(tag: &'a nbt::CompoundTag, name: &'a str) -> (r: Option<
    &'a nbt::CompoundTag,
>)
    ensures
        match r {
            Some(child) => nbt_get(tag_view(*tag), name@) == Some(
                NbtValue::Compound(tag_view(*child)),
            ),
            None => !(nbt_get(tag_view(*tag), name@) matches Some(NbtValue::Compound(_))),
        },
{
    tag.get_compound_tag(name).ok()
}

/// The compound tags of the list named `name`, if the tag holds a list of
/// that name and all that the list holds are compound tags.
///
/// Trusted: `CompoundTag::get_compound_tag_vec` looks the name up, gives an
/// error where the tag found is no list or holds a tag that is no
/// compound tag, and else the tags of the list in their order.
#[verifier::external_body]
pub(crate) fn tag_get_compounds<'a>(tag: &'a nbt::CompoundTag, name: &'a str) -> (r: Option<
    Vec<&'a nbt::CompoundTag>,
>)
    ensures
        match r {
            Some(children) => nbt_get(tag_view(*tag), name@) == Some(
                NbtValue::List(compound_refs_view(children@)),
            ),
            None => !spec_is_compound_list(nbt_get(tag_view(*tag), name@)),
        },
{
    tag.get_compound_tag_vec(name).ok()
}

/// The named tags of the tag in their order, each with its string where
/// it is a string.
///
/// Trusted: `CompoundTag::iter` hands out the names and tags of the tag's
/// map in its order.
#[verifier::external_body]
pub(crate) fn tag_string_entries(tag: &nbt::CompoundTag) -> (r: Vec<(String, Option<String>)>)
    ensures
        r@.len() == tag_view(*tag).len(),
        forall|i: int|
            0 <= i < r@.len() ==> (#[trigger] r@[i]).0@ == tag_view(*tag)[i].0 && match r@[i].1 {
                Some(value) => tag_view(*tag)[i].1 == NbtValue::Str(value@),
                None => !(tag_view(*tag)[i].1 is Str),
            },
{
    tag.iter().map(
        |(name, value)|
            (
                name.clone(),
                match value {
                    nbt::Tag::String(text) => Some(text.clone()),
                    _ => None,
                },
            ),
    ).collect()
}

/// Puts a string into the tag under `name`.
///
/// Trusted: `CompoundTag::insert_str` puts a string into the tag's map,
/// which keeps the order of insertion and moves a name that was there to
/// the end.
#[verifier::external_body]
pub(crate) fn tag_insert_str(tag: &mut nbt::CompoundTag, name: &str, value: &str)
    ensures
        tag_view(*final(tag)) == nbt_insert(tag_view(*old(tag)), name@, NbtValue::Str(value@)),
{
    tag.insert_str(name, value)
}

/// Puts an `i32` into the tag under `name`.
///
/// Trusted: `CompoundTag::insert_i32` puts an int into the tag's map, as
/// `insert_str` does a string.
#[verifier::external_body]
pub(crate) fn tag_insert_i32(tag: &mut nbt::CompoundTag, name: &str, value: i32)
    ensures
        tag_view(*final(tag)) == nbt_insert(tag_view(*old(tag)), name@, NbtValue::Int(value)),
{
    tag.insert_i32(name, value)
}

/// Puts an `i8` into the tag under `name`.
///
/// Trusted: `CompoundTag::insert_i8` puts a byte into the tag's map, as
/// `insert_str` does a string.
#[verifier::external_body]
pub(crate) fn tag_insert_i8(tag: &mut nbt::CompoundTag, name: &str, value: i8)
    ensures
        tag_view(*final(tag)) == nbt_insert(tag_view(*old(tag)), name@, NbtValue::Byte(value)),
{
    tag.insert_i8(name, value)
}

/// Puts an `i64` into the tag under `name`.
///
/// Trusted: `CompoundTag::insert_i64` puts a long into the tag's map, as
/// `insert_str` does a string.
#[verifier::external_body]
pub(crate) fn tag_insert_i64(tag: &mut nbt::CompoundTag, name: &str, value: i64)
    ensures
        tag_view(*final(tag)) == nbt_insert(tag_view(*old(tag)), name@, NbtValue::Long(value)),
{
    tag.insert_i64(name, value)
}

/// Puts an array of `i64` into the tag under `name`.
///
/// Trusted: `CompoundTag::insert_i64_vec` puts an array of longs into the
/// tag's map, as `insert_str` does a string.
#[verifier::external_body]
pub(crate) fn tag_insert_longs(tag: &mut nbt::CompoundTag, name: &str, values: Vec<i64>)
    ensures
        tag_view(*final(tag)) == nbt_insert(tag_view(*old(tag)), name@, NbtValue::Longs(values@)),
{
    tag.insert_i64_vec(name, values)
}

/// Puts a compound tag into the tag under `name`.
///
/// Trusted: `CompoundTag::insert_compound_tag` puts the tag into the tag's
/// map, as `insert_str` does a string.
#[verifier::external_body]
pub(crate) fn tag_insert_compound(tag: &mut nbt::CompoundTag, name: &str, child: nbt::CompoundTag)
    ensures
        tag_view(*final(tag)) == nbt_insert(
            tag_view(*old(tag)),
            name@,
            NbtValue::Compound(tag_view(child)),
        ),
{
    tag.insert_compound_tag(name, child)
}

/// Puts a list of compound tags into the tag under `name`.
///
/// Trusted: `CompoundTag::insert_compound_tag_vec` makes a list of the tags
/// in their order and puts it into the tag's map, as `insert_str` does a
/// string.
#[verifier::external_body]
pub(crate) fn tag_insert_compounds(
    tag: &mut nbt::CompoundTag,
    name: &str,
    children: Vec<nbt::CompoundTag>,
)
    ensures
        tag_view(*final(tag)) == nbt_insert(
            tag_view(*old(tag)),
            name@,
            NbtValue::List(compounds_view(children@)),
        ),
{
    tag.insert_compound_tag_vec(name, children)
}

/// Those of the first `upto` entries that are strings, in their order.
pub open spec fn spec_string_props(entries: Seq<(Seq<char>, NbtValue)>, upto: int) -> Seq<
    (Seq<char>, Seq<char>),
>
    decreases upto,
{
    if upto <= 0 {
        Seq::empty()
    } else {
        let before = spec_string_props(entries, upto - 1);
        match entries[upto - 1].1 {
            NbtValue::Str(value) => before.push((entries[upto - 1].0, value)),
            _ => before,
        }
    }
}

/// Whether all of the first `upto` entries are strings.
pub open spec fn spec_all_strings(entries: Seq<(Seq<char>, NbtValue)>, upto: int) -> bool {
    forall|i: int| 0 <= i < upto ==> (#[trigger] entries[i]).1 is Str
}

/// The properties of a block's tag: the tags of its `Properties`, and none
/// where it has no such compound tag.
pub open spec fn spec_properties(entries: Seq<(Seq<char>, NbtValue)>) -> Seq<
    (Seq<char>, NbtValue),
> {
    match nbt_get(entries, "Properties"@) {
        Some(NbtValue::Compound(props)) => props,
        _ => Seq::empty(),
    }
}

/// The named state that the tag of a block holds: its `Name` without the
/// namespace, and those of its `Properties` that are strings. A tag
/// without a name has no state. A property that is no string is passed
/// over where the table knows the name, and is invalid where it does not.
pub open spec fn spec_state_from_nbt(entries: Seq<(Seq<char>, NbtValue)>) -> Result<
    StateView,
    BlockError,
> {
    match nbt_get(entries, "Name"@) {
        Some(NbtValue::Str(full)) => {
            let name = spec_strip_namespace(full);
            let tags = spec_properties(entries);
            let props = spec_string_props(tags, tags.len() as int);
            if !spec_all_strings(tags, tags.len() as int) && spec_known_block(name, props) is None {
                Err(BlockError::InvalidProperty)
            } else {
                Ok(StateView { name, props })
            }
        },
        _ => Err(BlockError::MissingName),
    }
}

/// The tags of the properties, put in one after the other.
pub open spec fn spec_props_nbt(props: Seq<(Seq<char>, Seq<char>)>, upto: int) -> Seq<
    (Seq<char>, NbtValue),
>
    decreases upto,
{
    if upto <= 0 {
        Seq::empty()
    } else {
        nbt_insert(
            spec_props_nbt(props, upto - 1),
            props[upto - 1].0,
            NbtValue::Str(props[upto - 1].1),
        )
    }
}

/// The tag of a named state: its `Name`, and its `Properties` where it has
/// any.
pub open spec fn spec_state_nbt(state: StateView) -> Seq<(Seq<char>, NbtValue)> {
    let named = nbt_insert(Seq::empty(), "Name"@, NbtValue::Str(state.name));
    if state.props.len() == 0 {
        named
    } else {
        nbt_insert(
            named,
            "Properties"@,
            NbtValue::Compound(spec_props_nbt(state.props, state.props.len() as int)),
        )
    }
}

/// The first entries of the tag of a tile entity: its `id` and, where it
/// holds a command, the `Command` and a `TrackOutput` that is off.
pub open spec fn spec_tile_head_nbt(tile: TileView) -> Seq<(Seq<char>, NbtValue)> {
    let named = nbt_insert(Seq::empty(), "id"@, NbtValue::Str(tile.id));
    match tile.command {
        Some(text) => nbt_insert(
            nbt_insert(named, "Command"@, NbtValue::Str(text)),
            "TrackOutput"@,
            NbtValue::Byte(0),
        ),
        None => named,
    }
}

/// The tag of a tile entity: its `id`, what it holds beside, and the `x`,
/// `y` and `z` of its position, put in in this order.
pub open spec fn spec_tile_nbt(tile: TileView) -> Seq<(Seq<char>, NbtValue)> {
    nbt_insert(
        nbt_insert(
            nbt_insert(
                spec_tile_head_nbt(tile),
                "x"@,
                NbtValue::Int(tile.pos.0),
            ),
            "y"@,
            NbtValue::Int(tile.pos.1),
        ),
        "z"@,
        NbtValue::Int(tile.pos.2),
    )
}

/// The named state that the tag of a block holds.
pub fn state_from_nbt(tag: &nbt::CompoundTag) -> (r: Result<Blockstate, BlockError>)
    ensures
        match r {
            Ok(state) => spec_state_from_nbt(tag_view(*tag)) == Ok::<StateView, BlockError>(state@),
            Err(e) => spec_state_from_nbt(tag_view(*tag)) == Err::<StateView, BlockError>(e),
        },
{
    let full = match tag_get_str(tag, "Name") {
        Some(full) => full,
        None => {
            return Err(BlockError::MissingName);
        },
    };
    let name = String::from_str(strip_namespace(full.as_str()));
    let mut props: Vec<(String, String)> = Vec::new();
    let mut all_strings: bool = true;
    match tag_get_compound(tag, "Properties") {
        None => {
            assert(props_view(props@) =~= spec_string_props(Seq::empty(), 0));
        },
        Some(child) => {
            let entries = tag_string_entries(child);
            let ghost tags = tag_view(*child);
            let mut i: usize = 0;
            assert(props_view(props@) =~= spec_string_props(tags, 0));
            while i < entries.len()
                invariant
                    i <= entries.len(),
                    tags == tag_view(*child),
                    entries@.len() == tags.len(),
                    forall|j: int|
                        0 <= j < entries@.len() ==> (#[trigger] entries@[j]).0@ == tags[j].0
                            && match entries@[j].1 {
                            Some(value) => tags[j].1 == NbtValue::Str(value@),
                            None => !(tags[j].1 is Str),
                        },
                    props_view(props@) == spec_string_props(tags, i as int),
                    all_strings == spec_all_strings(tags, i as int),
                decreases entries.len() - i,
            {
                let ghost before = props_view(props@);
                assert(entries@[i as int].0@ == tags[i as int].0);
                match &entries[i].1 {
                    Some(value) => {
                        props.push((entries[i].0.clone(), value.clone()));
                        assert(props_view(props@) =~= before.push((tags[i as int].0, value@)));
                    },
                    None => {
                        all_strings = false;
                    },
                }
                i = i + 1;
            }
        },
    }
    if !all_strings && known_block(name.as_str(), &props).is_none() {
        return Err(BlockError::InvalidProperty);
    }
    Ok(Blockstate::new(name, props))
}

/// The tag of a named state.
pub fn state_to_nbt(state: &Blockstate) -> (tag: nbt::CompoundTag)
    ensures
        tag_view(tag) == spec_state_nbt(state@),
{
    let mut tag = tag_new();
    tag_insert_str(&mut tag, "Name", state.0.as_str());
    if state.1.len() > 0 {
        let mut props = tag_new();
        let mut i: usize = 0;
        while i < state.1.len()
            invariant
                i <= state.1.len(),
                tag_view(props) == spec_props_nbt(state@.props, i as int),
            decreases state.1.len() - i,
        {
            assert(state@.props[i as int] == (state.1[i as int].0@, state.1[i as int].1@));
            tag_insert_str(&mut props, state.1[i].0.as_str(), state.1[i].1.as_str());
            i = i + 1;
        }
        tag_insert_compound(&mut tag, "Properties", props);
    }
    tag
}

/// The tag of a tile entity.
pub fn tile_to_nbt(tile: &TileEntity) -> (tag: nbt::CompoundTag)
    ensures
        tag_view(tag) == spec_tile_nbt(tile@),
{
    let mut tag = tag_new();
    tag_insert_str(&mut tag, "id", tile.id.as_str());
    match &tile.command {
        Some(text) => {
            tag_insert_str(&mut tag, "Command", text.as_str());
            tag_insert_i8(&mut tag, "TrackOutput", 0);
        },
        None => {},
    }
    tag_insert_i32(&mut tag, "x", tile.pos.0);
    tag_insert_i32(&mut tag, "y", tile.pos.1);
    tag_insert_i32(&mut tag, "z", tile.pos.2);
    tag
}

impl Block {
    /// Reads the tag of a block.
    ///
    /// The tag's named state is read as `from_blockstate` reads it. It
    /// fails with `MissingName` where the tag has no name, and with
    /// `InvalidProperty` where the table does not know the name and a
    /// property is no string; the registry then stays as it is.
    pub fn from_nbt(tag: &nbt::CompoundTag, unknown: &mut UnknownBlocks) -> (r: Result<
        Block,
        BlockError,
    >)
        requires
            old(unknown).wf(),
        ensures
            final(unknown).wf(),
            match spec_state_from_nbt(tag_view(*tag)) {
                Ok(state) => r == spec_decode(state, old(unknown)@).0 && final(unknown)@
                    == spec_decode(state, old(unknown)@).1,
                Err(e) => r == Err::<Block, BlockError>(e) && final(unknown)@ == old(unknown)@,
            },
            r matches Ok(block) ==> block.encodable(final(unknown)@),
    {
        match state_from_nbt(tag) {
            Ok(state) => Block::from_blockstate(state, unknown),
            Err(e) => Err(e),
        }
    }

    /// The tag of the block: the `Name` of its named state, and its
    /// `Properties` where it has any.
    pub fn to_nbt(&self, unknown: &UnknownBlocks) -> (tag: nbt::CompoundTag)
        requires
            self.encodable(unknown@),
        ensures
            tag_view(tag) == spec_state_nbt(crate::encode::spec_blockstate(*self, unknown@)),
    {
        let state = self.blockstate(unknown);
        state_to_nbt(&state)
    }

    /// The tag of the tile entity that storage keeps beside the block at
    /// `pos`: one for a block that carries a tile entity, a command block's
    /// with the command that the store holds, none for any other.
    pub fn tile_entity_nbt(&self, pos: Pos, commands: &Commands) -> (r: Option<nbt::CompoundTag>)
        ensures
            r is Some <==> self.spec_has_tile_entity() && self.spec_command_held(commands@),
            match r {
                Some(tag) => self.spec_tile_entity(pos, commands@) matches Some(tile)
                    && tag_view(tag) == spec_tile_nbt(tile),
                None => self.spec_tile_entity(pos, commands@) is None,
            },
    {
        match self.tile_entity(pos, commands) {
            Some(tile) => Some(tile_to_nbt(&tile)),
            None => None,
        }
    }
}

/// The named states of the first `upto` tags of a palette. The first tag
/// that holds no state ends the reading with its error.
pub open spec fn spec_states_from_nbt(items: Seq<NbtValue>, upto: int) -> Result<
    Seq<StateView>,
    BlockError,
>
    decreases upto,
{
    if upto <= 0 {
        Ok(Seq::empty())
    } else {
        match spec_states_from_nbt(items, upto - 1) {
            Err(e) => Err(e),
            Ok(states) => match items[upto - 1] {
                NbtValue::Compound(entries) => match spec_state_from_nbt(entries) {
                    Ok(state) => Ok(states.push(state)),
                    Err(e) => Err(e),
                },
                _ => Err(BlockError::MissingName),
            },
        }
    }
}

/// The packed indices of a section, where its tag holds any.
pub open spec fn spec_data_from_nbt(states: Seq<(Seq<char>, NbtValue)>) -> Option<Seq<nat>> {
    match nbt_get(states, "data"@) {
        Some(NbtValue::Longs(words)) => Some(words_view(words)),
        _ => None,
    }
}

/// The record of the section that a tag holds. Of a section that is not
/// read only the number `Y` is taken. Of any other the palette and the
/// packed indices of its `block_states` are taken; the tag is malformed
/// where it has no `Y`, no `block_states` or no `palette`.
pub open spec fn spec_section_from_nbt(entries: Seq<(Seq<char>, NbtValue)>) -> Result<
    SectionRecordView,
    WorldError,
> {
    match nbt_get(entries, "Y"@) {
        Some(NbtValue::Byte(y)) => if !spec_section_loaded(y) {
            Ok(SectionRecordView { y, palette: Seq::empty(), data: None })
        } else {
            match nbt_get(entries, "block_states"@) {
                Some(NbtValue::Compound(states)) => match nbt_get(states, "palette"@) {
                    Some(NbtValue::List(items)) => if spec_is_compound_list(
                        nbt_get(states, "palette"@),
                    ) {
                        match spec_states_from_nbt(items, items.len() as int) {
                            Ok(palette) => Ok(
                                SectionRecordView { y, palette, data: spec_data_from_nbt(states) },
                            ),
                            Err(e) => Err(WorldError::Block(e)),
                        }
                    } else {
                        Err(WorldError::Malformed)
                    },
                    _ => Err(WorldError::Malformed),
                },
                _ => Err(WorldError::Malformed),
            }
        },
        _ => Err(WorldError::Malformed),
    }
}

/// The records of the first `upto` sections of a list of tags. The first
/// tag that holds no section ends the reading with its error.
pub open spec fn spec_sections_from_nbt(items: Seq<NbtValue>, upto: int) -> Result<
    Seq<SectionRecordView>,
    WorldError,
>
    decreases upto,
{
    if upto <= 0 {
        Ok(Seq::empty())
    } else {
        match spec_sections_from_nbt(items, upto - 1) {
            Err(e) => Err(e),
            Ok(sections) => match items[upto - 1] {
                NbtValue::Compound(entries) => match spec_section_from_nbt(entries) {
                    Ok(section) => Ok(sections.push(section)),
                    Err(e) => Err(e),
                },
                _ => Err(WorldError::Malformed),
            },
        }
    }
}

/// The name of the village that starts in a chunk: the `id` of the
/// `village` among the `Starts` of the chunk's `Structures`. A chunk
/// without `Structures` or without a `village` there has none; the tag is
/// malformed where `Structures` has no `Starts` or the village no `id`.
pub open spec fn spec_village_from_nbt(entries: Seq<(Seq<char>, NbtValue)>) -> Result<
    Option<Seq<char>>,
    WorldError,
> {
    match nbt_get(entries, "Structures"@) {
        Some(NbtValue::Compound(structures)) => match nbt_get(structures, "Starts"@) {
            Some(NbtValue::Compound(starts)) => match nbt_get(starts, "village"@) {
                Some(NbtValue::Compound(village)) => match nbt_get(village, "id"@) {
                    Some(NbtValue::Str(id)) => Ok(Some(id)),
                    _ => Err(WorldError::Malformed),
                },
                _ => Ok(None),
            },
            _ => Err(WorldError::Malformed),
        },
        _ => Ok(None),
    }
}

/// The record of the chunk `index` that a tag holds: its `DataVersion`,
/// the village that starts in it, and its `sections`. The tag is
/// malformed where it has no `DataVersion` or no list of `sections`.
pub open spec fn spec_record_from_nbt(entries: Seq<(Seq<char>, NbtValue)>, index: ChunkIndex)
    -> Result<ChunkRecordView, WorldError> {
    match nbt_get(entries, "DataVersion"@) {
        Some(NbtValue::Int(data_version)) => match spec_village_from_nbt(entries) {
            Err(e) => Err(e),
            Ok(village) => match nbt_get(entries, "sections"@) {
                Some(NbtValue::List(items)) => if spec_is_compound_list(
                    nbt_get(entries, "sections"@),
                ) {
                    match spec_sections_from_nbt(items, items.len() as int) {
                        Err(e) => Err(e),
                        Ok(sections) => Ok(
                            ChunkRecordView {
                                data_version,
                                x_pos: index.0,
                                z_pos: index.1,
                                last_update: 0,
                                terrain_populated: 1,
                                inhabited_time: 0,
                                status: "full"@,
                                sections,
                                village,
                                tile_entities: Seq::empty(),
                                entities: Seq::empty(),
                            },
                        ),
                    }
                } else {
                    Err(WorldError::Malformed)
                },
                _ => Err(WorldError::Malformed),
            },
        },
        _ => Err(WorldError::Malformed),
    }
}

/// Once a tag of a palette has failed, the tags after it change nothing.
proof fn lemma_states_nbt_error(items: Seq<NbtValue>, k: int, upto: int)
    requires
        0 <= k <= upto,
        spec_states_from_nbt(items, k) is Err,
    ensures
        spec_states_from_nbt(items, upto) == spec_states_from_nbt(items, k),
    decreases upto - k,
{
    if k < upto {
        lemma_states_nbt_error(items, k, upto - 1);
    }
}

/// Once a tag of a section has failed, the tags after it change nothing.
proof fn lemma_sections_nbt_error(items: Seq<NbtValue>, k: int, upto: int)
    requires
        0 <= k <= upto,
        spec_sections_from_nbt(items, k) is Err,
    ensures
        spec_sections_from_nbt(items, upto) == spec_sections_from_nbt(items, k),
    decreases upto - k,
{
    if k < upto {
        lemma_sections_nbt_error(items, k, upto - 1);
    }
}

/// The record of the section that a tag holds.
#[verifier::loop_isolation(false)]
pub fn section_from_nbt(tag: &nbt::CompoundTag) -> (r: Result<SectionRecord, WorldError>)
    ensures
        match r {
            Ok(section) => spec_section_from_nbt(tag_view(*tag)) == Ok::<
                SectionRecordView,
                WorldError,
            >(section@),
            Err(e) => spec_section_from_nbt(tag_view(*tag)) == Err::<SectionRecordView, WorldError>(
                e,
            ),
        },
{
    let y: i8 = match tag_get_i8(tag, "Y") {
        Some(y) => y,
        None => {
            return Err(WorldError::Malformed);
        },
    };
    if y < FIRST_LOADED_SECTION || y >= END_LOADED_SECTION {
        let section = SectionRecord { y, palette: Vec::new(), data: None };
        assert(section@.palette =~= Seq::empty());
        return Ok(section);
    }
    let states = match tag_get_compound(tag, "block_states") {
        Some(states) => states,
        None => {
            return Err(WorldError::Malformed);
        },
    };
    let tags = match tag_get_compounds(states, "palette") {
        Some(tags) => tags,
        None => {
            return Err(WorldError::Malformed);
        },
    };
    let ghost items = compound_refs_view(tags@);
    let mut palette: Vec<Blockstate> = Vec::new();
    let mut i: usize = 0;
    assert(states_view(palette@) =~= Seq::<StateView>::empty());
    while i < tags.len()
        invariant
            i <= tags.len(),
            items == compound_refs_view(tags@),
            spec_states_from_nbt(items, i as int) == Ok::<Seq<StateView>, BlockError>(
                states_view(palette@),
            ),
        decreases tags.len() - i,
    {
        let ghost before = states_view(palette@);
        assert(items[i as int] == NbtValue::Compound(tag_view(*tags[i as int])));
        match state_from_nbt(tags[i]) {
            Ok(state) => {
                let ghost added = state@;
                palette.push(state);
                assert(states_view(palette@) =~= before.push(added));
            },
            Err(e) => {
                proof {
                    lemma_states_nbt_error(items, i + 1, items.len() as int);
                }
                return Err(WorldError::Block(e));
            },
        }
        i = i + 1;
    }
    let data = tag_get_longs(states, "data");
    Ok(SectionRecord { y, palette, data })
}

/// The name of the village that starts in the chunk of a tag.
fn village_from_nbt(tag: &nbt::CompoundTag) -> (r: Result<Option<String>, WorldError>)
    ensures
        match r {
            Ok(Some(id)) => spec_village_from_nbt(tag_view(*tag)) == Ok::<
                Option<Seq<char>>,
                WorldError,
            >(Some(id@)),
            Ok(None) => spec_village_from_nbt(tag_view(*tag)) == Ok::<
                Option<Seq<char>>,
                WorldError,
            >(None),
            Err(e) => spec_village_from_nbt(tag_view(*tag)) == Err::<Option<Seq<char>>, WorldError>(
                e,
            ),
        },
{
    let structures = match tag_get_compound(tag, "Structures") {
        Some(structures) => structures,
        None => {
            return Ok(None);
        },
    };
    let starts = match tag_get_compound(structures, "Starts") {
        Some(starts) => starts,
        None => {
            return Err(WorldError::Malformed);
        },
    };
    let village = match tag_get_compound(starts, "village") {
        Some(village) => village,
        None => {
            return Ok(None);
        },
    };
    match tag_get_str(village, "id") {
        Some(id) => Ok(Some(id)),
        None => Err(WorldError::Malformed),
    }
}

/// Reads the tag of the chunk `index` into a record.
///
/// It fails with `Malformed` where a tag that the chunk needs is missing
/// or of another kind, and with the error of the block where the tag of a
/// palette holds no named state.
#[verifier::loop_isolation(false)]
pub fn chunk_record_from_nbt(tag: &nbt::CompoundTag, index: ChunkIndex) -> (r: Result<
    ChunkRecord,
    WorldError,
>)
    ensures
        match r {
            Ok(record) => spec_record_from_nbt(tag_view(*tag), index) == Ok::<
                ChunkRecordView,
                WorldError,
            >(record@),
            Err(e) => spec_record_from_nbt(tag_view(*tag), index) == Err::<
                ChunkRecordView,
                WorldError,
            >(e),
        },
{
    let data_version: i32 = match tag_get_i32(tag, "DataVersion") {
        Some(version) => version,
        None => {
            return Err(WorldError::Malformed);
        },
    };
    let village = match village_from_nbt(tag) {
        Ok(village) => village,
        Err(e) => {
            return Err(e);
        },
    };
    let tags = match tag_get_compounds(tag, "sections") {
        Some(tags) => tags,
        None => {
            return Err(WorldError::Malformed);
        },
    };
    let ghost items = compound_refs_view(tags@);
    let mut sections: Vec<SectionRecord> = Vec::new();
    let mut i: usize = 0;
    assert(records_view(sections@) =~= Seq::<SectionRecordView>::empty());
    while i < tags.len()
        invariant
            i <= tags.len(),
            items == compound_refs_view(tags@),
            spec_sections_from_nbt(items, i as int) == Ok::<Seq<SectionRecordView>, WorldError>(
                records_view(sections@),
            ),
        decreases tags.len() - i,
    {
        let ghost before = records_view(sections@);
        assert(items[i as int] == NbtValue::Compound(tag_view(*tags[i as int])));
        match section_from_nbt(tags[i]) {
            Ok(section) => {
                let ghost added = section@;
                sections.push(section);
                assert(records_view(sections@) =~= before.push(added));
            },
            Err(e) => {
                proof {
                    lemma_sections_nbt_error(items, i + 1, items.len() as int);
                }
                return Err(e);
            },
        }
        i = i + 1;
    }
    let record = ChunkRecord {
        data_version,
        x_pos: index.0,
        z_pos: index.1,
        last_update: 0,
        terrain_populated: 1,
        inhabited_time: 0,
        status: String::from_str("full"),
        sections,
        village,
        tile_entities: Vec::new(),
        entities: Vec::new(),
    };
    assert(record@.tile_entities =~= Seq::empty());
    assert(record@.entities =~= Seq::empty());
    Ok(record)
}

/// The tags of the first `upto` named states of a palette.
pub open spec fn spec_palette_nbt(palette: Seq<StateView>, upto: int) -> Seq<NbtValue>
    decreases upto,
{
    if upto <= 0 {
        Seq::empty()
    } else {
        spec_palette_nbt(palette, upto - 1).push(
            NbtValue::Compound(spec_state_nbt(palette[upto - 1])),
        )
    }
}

/// The tag of the `block_states` of a section: its `palette`, and its
/// packed indices as `data` where it has any.
pub open spec fn spec_block_states_nbt(section: SectionRecord) -> Seq<(Seq<char>, NbtValue)> {
    let palette = nbt_insert(
        Seq::empty(),
        "palette"@,
        NbtValue::List(spec_palette_nbt(section@.palette, section@.palette.len() as int)),
    );
    match section.data {
        Some(words) => nbt_insert(palette, "data"@, NbtValue::Longs(words@)),
        None => palette,
    }
}

/// The tag of a section: its number `Y` and its `block_states`.
pub open spec fn spec_section_nbt(section: SectionRecord) -> Seq<(Seq<char>, NbtValue)> {
    nbt_insert(
        nbt_insert(Seq::empty(), "Y"@, NbtValue::Byte(section.y)),
        "block_states"@,
        NbtValue::Compound(spec_block_states_nbt(section)),
    )
}

/// The tags of the first `upto` sections.
pub open spec fn spec_sections_nbt(sections: Seq<SectionRecord>, upto: int) -> Seq<NbtValue>
    decreases upto,
{
    if upto <= 0 {
        Seq::empty()
    } else {
        spec_sections_nbt(sections, upto - 1).push(
            NbtValue::Compound(spec_section_nbt(sections[upto - 1])),
        )
    }
}

/// The tags of the first `upto` tile entities.
pub open spec fn spec_tiles_nbt(tiles: Seq<TileView>, upto: int) -> Seq<NbtValue>
    decreases upto,
{
    if upto <= 0 {
        Seq::empty()
    } else {
        spec_tiles_nbt(tiles, upto - 1).push(NbtValue::Compound(spec_tile_nbt(tiles[upto - 1])))
    }
}

/// The tag of an entity: its `id` and the `x`, `y` and `z` of its
/// position, put in in this order.
pub open spec fn spec_entity_nbt(entity: EntityView) -> Seq<(Seq<char>, NbtValue)> {
    spec_tile_nbt(TileView { id: entity.id, pos: entity.pos, command: None })
}

/// The tags of the first `upto` entities.
pub open spec fn spec_entities_nbt(entities: Seq<EntityView>, upto: int) -> Seq<NbtValue>
    decreases upto,
{
    if upto <= 0 {
        Seq::empty()
    } else {
        spec_entities_nbt(entities, upto - 1).push(
            NbtValue::Compound(spec_entity_nbt(entities[upto - 1])),
        )
    }
}

/// The first tags of a chunk: its version, its place, and what says that
/// the chunk is complete.
pub open spec fn spec_chunk_head_nbt(record: ChunkRecord) -> Seq<(Seq<char>, NbtValue)> {
    nbt_insert(
        nbt_insert(
            nbt_insert(
                nbt_insert(
                    nbt_insert(
                        nbt_insert(
                            nbt_insert(
                                Seq::empty(),
                                "DataVersion"@,
                                NbtValue::Int(record.data_version),
                            ),
                            "xPos"@,
                            NbtValue::Int(record.x_pos),
                        ),
                        "zPos"@,
                        NbtValue::Int(record.z_pos),
                    ),
                    "LastUpdate"@,
                    NbtValue::Long(record.last_update),
                ),
                "TerrainPopulated"@,
                NbtValue::Byte(record.terrain_populated),
            ),
            "InhabitetTime"@,
            NbtValue::Long(record.inhabited_time),
        ),
        "Status"@,
        NbtValue::Str(record.status@),
    )
}

/// The tag of a chunk: its first tags, then its `sections`, its
/// `block_entities` and its `Entities`, put in in this order.
pub open spec fn spec_chunk_nbt(record: ChunkRecord) -> Seq<(Seq<char>, NbtValue)> {
    nbt_insert(
        nbt_insert(
            nbt_insert(
                spec_chunk_head_nbt(record),
                "sections"@,
                NbtValue::List(spec_sections_nbt(record.sections@, record.sections@.len() as int)),
            ),
            "block_entities"@,
            NbtValue::List(
                spec_tiles_nbt(record@.tile_entities, record@.tile_entities.len() as int),
            ),
        ),
        "Entities"@,
        NbtValue::List(spec_entities_nbt(record@.entities, record@.entities.len() as int)),
    )
}

/// The tag of a section.
pub fn section_to_nbt(section: &SectionRecord) -> (tag: nbt::CompoundTag)
    ensures
        tag_view(tag) == spec_section_nbt(*section),
{
    let mut palette: Vec<nbt::CompoundTag> = Vec::new();
    let mut i: usize = 0;
    assert(compounds_view(palette@) =~= spec_palette_nbt(section@.palette, 0));
    while i < section.palette.len()
        invariant
            i <= section.palette.len(),
            compounds_view(palette@) == spec_palette_nbt(section@.palette, i as int),
        decreases section.palette.len() - i,
    {
        let ghost before = compounds_view(palette@);
        let state = state_to_nbt(&section.palette[i]);
        assert(section@.palette[i as int] == section.palette[i as int]@);
        palette.push(state);
        assert(compounds_view(palette@) =~= before.push(NbtValue::Compound(tag_view(state))));
        i = i + 1;
    }
    let mut states = tag_new();
    tag_insert_compounds(&mut states, "palette", palette);
    match &section.data {
        Some(words) => {
            tag_insert_longs(&mut states, "data", words.clone());
        },
        None => {},
    }
    let mut tag = tag_new();
    tag_insert_i8(&mut tag, "Y", section.y);
    tag_insert_compound(&mut tag, "block_states", states);
    tag
}

/// Writes the record of a chunk as a tag.
pub fn chunk_record_to_nbt(record: &ChunkRecord) -> (tag: nbt::CompoundTag)
    ensures
        tag_view(tag) == spec_chunk_nbt(*record),
{
    let mut tag = tag_new();
    tag_insert_i32(&mut tag, "DataVersion", record.data_version);
    tag_insert_i32(&mut tag, "xPos", record.x_pos);
    tag_insert_i32(&mut tag, "zPos", record.z_pos);
    tag_insert_i64(&mut tag, "LastUpdate", record.last_update);
    tag_insert_i8(&mut tag, "TerrainPopulated", record.terrain_populated);
    tag_insert_i64(&mut tag, "InhabitetTime", record.inhabited_time);
    tag_insert_str(&mut tag, "Status", record.status.as_str());
    let mut sections: Vec<nbt::CompoundTag> = Vec::new();
    let mut i: usize = 0;
    assert(compounds_view(sections@) =~= spec_sections_nbt(record.sections@, 0));
    while i < record.sections.len()
        invariant
            i <= record.sections.len(),
            compounds_view(sections@) == spec_sections_nbt(record.sections@, i as int),
        decreases record.sections.len() - i,
    {
        let ghost before = compounds_view(sections@);
        let section = section_to_nbt(&record.sections[i]);
        sections.push(section);
        assert(compounds_view(sections@) =~= before.push(NbtValue::Compound(tag_view(section))));
        i = i + 1;
    }
    tag_insert_compounds(&mut tag, "sections", sections);
    let mut tiles: Vec<nbt::CompoundTag> = Vec::new();
    let mut t: usize = 0;
    assert(compounds_view(tiles@) =~= spec_tiles_nbt(record@.tile_entities, 0));
    while t < record.tile_entities.len()
        invariant
            t <= record.tile_entities.len(),
            compounds_view(tiles@) == spec_tiles_nbt(record@.tile_entities, t as int),
        decreases record.tile_entities.len() - t,
    {
        let ghost before = compounds_view(tiles@);
        let tile = tile_to_nbt(&record.tile_entities[t]);
        assert(record@.tile_entities[t as int] == record.tile_entities[t as int]@);
        tiles.push(tile);
        assert(compounds_view(tiles@) =~= before.push(NbtValue::Compound(tag_view(tile))));
        t = t + 1;
    }
    tag_insert_compounds(&mut tag, "block_entities", tiles);
    let mut entities: Vec<nbt::CompoundTag> = Vec::new();
    let mut e: usize = 0;
    assert(compounds_view(entities@) =~= spec_entities_nbt(record@.entities, 0));
    while e < record.entities.len()
        invariant
            e <= record.entities.len(),
            compounds_view(entities@) == spec_entities_nbt(record@.entities, e as int),
        decreases record.entities.len() - e,
    {
        let ghost before = compounds_view(entities@);
        let entity = &record.entities[e];
        let mut entry = tag_new();
        tag_insert_str(&mut entry, "id", entity.id.as_str());
        tag_insert_i32(&mut entry, "x", entity.pos.0);
        tag_insert_i32(&mut entry, "y", entity.pos.1);
        tag_insert_i32(&mut entry, "z", entity.pos.2);
        assert(record@.entities[e as int] == record.entities[e as int]@);
        entities.push(entry);
        assert(compounds_view(entities@) =~= before.push(NbtValue::Compound(tag_view(entry))));
        e = e + 1;
    }
    tag_insert_compounds(&mut tag, "Entities", entities);
    tag
}

/// Whether no two of the properties have the same key.
pub open spec fn spec_distinct_keys(props: Seq<(Seq<char>, Seq<char>)>) -> bool {
    forall|i: int, j: int| 0 <= i < j < props.len() ==> props[i].0 != props[j].0
}

/// Taking out a name that no entry has leaves the entries as they are.
proof fn lemma_without_absent(entries: Seq<(Seq<char>, NbtValue)>, name: Seq<char>)
    requires
        forall|i: int| 0 <= i < entries.len() ==> (#[trigger] entries[i]).0 != name,
    ensures
        nbt_without(entries, name) == entries,
    decreases entries.len(),
{
    reveal(Seq::filter);
    if entries.len() > 0 {
        let front = entries.drop_last();
        assert forall|i: int| 0 <= i < front.len() implies (#[trigger] front[i]).0 != name by {
            assert(front[i] == entries[i]);
        }
        lemma_without_absent(front, name);
        assert(front.push(entries.last()) =~= entries);
    } else {
        assert(nbt_without(entries, name) =~= entries);
    }
}

/// Properties with different keys are written one after the other, each
/// as a string.
proof fn lemma_props_nbt(props: Seq<(Seq<char>, Seq<char>)>, upto: int)
    requires
        spec_distinct_keys(props),
        0 <= upto <= props.len(),
    ensures
        spec_props_nbt(props, upto).len() == upto,
        forall|i: int|
            0 <= i < upto ==> #[trigger] spec_props_nbt(props, upto)[i] == (
                props[i].0,
                NbtValue::Str(props[i].1),
            ),
    decreases upto,
{
    if upto > 0 {
        lemma_props_nbt(props, upto - 1);
        lemma_without_absent(spec_props_nbt(props, upto - 1), props[upto - 1].0);
    }
}

/// Strings are read as properties one after the other.
proof fn lemma_string_props(
    tags: Seq<(Seq<char>, NbtValue)>,
    props: Seq<(Seq<char>, Seq<char>)>,
    upto: int,
)
    requires
        0 <= upto <= props.len(),
        tags.len() == props.len(),
        forall|i: int|
            0 <= i < tags.len() ==> #[trigger] tags[i] == (props[i].0, NbtValue::Str(props[i].1)),
    ensures
        spec_string_props(tags, upto) == props.take(upto),
        spec_all_strings(tags, upto),
    decreases upto,
{
    if upto > 0 {
        lemma_string_props(tags, props, upto - 1);
        assert(tags[upto - 1] == (props[upto - 1].0, NbtValue::Str(props[upto - 1].1)));
        assert(props.take(upto - 1).push(props[upto - 1]) =~= props.take(upto));
    } else {
        assert(spec_string_props(tags, upto) =~= props.take(upto));
    }
}

/// A named state is read back from the tag that it is written as, where
/// no two of its properties have the same key and its name does not begin
/// with the namespace: a tag holds one value for a key, and the namespace
/// is not read.
pub proof fn lemma_state_tag_reads_back(state: StateView)
    requires
        spec_distinct_keys(state.props),
        spec_strip_namespace(state.name) == state.name,
    ensures
        spec_state_from_nbt(spec_state_nbt(state)) == Ok::<StateView, BlockError>(state),
{
    reveal_strlit("Name");
    reveal_strlit("Properties");
    reveal_with_fuel(Seq::filter, 3);
    reveal_with_fuel(nbt_get, 3);
    let first = (Seq::<(Seq<char>, NbtValue)>::empty()).push(("Name"@, NbtValue::Str(state.name)));
    assert(nbt_without(Seq::empty(), "Name"@) =~= Seq::empty());
    let named = nbt_insert(Seq::empty(), "Name"@, NbtValue::Str(state.name));
    assert(named =~= first);
    let count = state.props.len() as int;
    let tags = spec_props_nbt(state.props, count);
    lemma_props_nbt(state.props, count);
    lemma_string_props(tags, state.props, count);
    assert(state.props.take(count) =~= state.props);
    assert("Name"@ != "Properties"@) by {
        assert("Name"@.len() != "Properties"@.len());
    }
    if count == 0 {
        assert(named.skip(1) =~= Seq::empty());
        assert(nbt_get(named, "Name"@) == Some(NbtValue::Str(state.name)));
        assert(nbt_get(named, "Properties"@) is None);
        assert(spec_properties(named) =~= Seq::empty());
        assert(tags =~= Seq::empty());
    } else {
        lemma_without_absent(named, "Properties"@);
        let whole = nbt_insert(named, "Properties"@, NbtValue::Compound(tags));
        assert(whole =~= first.push(("Properties"@, NbtValue::Compound(tags))));
        assert(whole.skip(1) =~= (Seq::<(Seq<char>, NbtValue)>::empty()).push(
            ("Properties"@, NbtValue::Compound(tags)),
        ));
        assert(nbt_get(whole, "Name"@) == Some(NbtValue::Str(state.name)));
        assert(nbt_get(whole, "Properties"@) == Some(NbtValue::Compound(tags)));
        assert(spec_properties(whole) == tags);
    }
}

} // verus!
