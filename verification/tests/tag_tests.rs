use mc_gen::block::{BellAttachment, Block, BlockMaterial, LogType, TreeSpecies};
use mc_gen::blockstate::Blockstate;
use mc_gen::commands::Commands;
use mc_gen::error::{BlockError, WorldError};
use mc_gen::geometry::{Axis, ChunkIndex, HDir, Pos};
use mc_gen::tags::{
    chunk_record_from_nbt, chunk_record_to_nbt, section_from_nbt, section_to_nbt, state_from_nbt,
    state_to_nbt, tile_to_nbt,
};
use mc_gen::record::{load_chunk, ChunkRecord, Entity, SectionRecord, TileEntity};
use mc_gen::registry::UnknownBlocks;
use nbt::{CompoundTag, Tag};

fn block_tag(name: &str, props: &[(&str, &str)]) -> CompoundTag {
    let mut tag = CompoundTag::new();
    tag.insert_str("Name", name);
    if !props.is_empty() {
        let mut properties = CompoundTag::new();
        for (key, value) in props {
            properties.insert_str(key, value);
        }
        tag.insert_compound_tag("Properties", properties);
    }
    tag
}

fn names(tag: &CompoundTag) -> Vec<String> {
    tag.iter().map(|(name, _)| name.clone()).collect()
}

fn section_tag(y: i8, palette: Vec<CompoundTag>, data: Option<Vec<i64>>) -> CompoundTag {
    let mut states = CompoundTag::new();
    states.insert_compound_tag_vec("palette", palette);
    if let Some(data) = data {
        states.insert_i64_vec("data", data);
    }
    let mut tag = CompoundTag::new();
    tag.insert_i8("Y", y);
    tag.insert_compound_tag("block_states", states);
    tag
}

fn chunk_tag(sections: Vec<CompoundTag>) -> CompoundTag {
    let mut tag = CompoundTag::new();
    tag.insert_i32("DataVersion", 3465);
    tag.insert_compound_tag_vec("sections", sections);
    tag
}

#[test]
fn a_block_is_read_from_its_tag() {
    let mut unknown = UnknownBlocks::new();
    assert_eq!(
        Block::from_nbt(&block_tag("minecraft:stone", &[]), &mut unknown),
        Ok(Block::Full(BlockMaterial::Stone))
    );
    assert_eq!(
        Block::from_nbt(&block_tag("minecraft:birch_log", &[("axis", "z")]), &mut unknown),
        Ok(Block::Log(TreeSpecies::Birch, LogType::Normal(Axis::Z)))
    );
    assert_eq!(
        Block::from_nbt(&block_tag("bell", &[("attachment", "floor"), ("facing", "west")]), &mut unknown),
        Ok(Block::Bell(HDir::XNeg, BellAttachment::Floor))
    );
    assert_eq!(unknown.len(), 0);
    assert_eq!(
        Block::from_nbt(&block_tag("minecraft:chest", &[("type", "single"), ("facing", "east")]), &mut unknown),
        Ok(Block::Other(0))
    );
    assert_eq!(
        unknown.resolve(0),
        Some(Blockstate(
            "chest".to_string(),
            vec![("type".to_string(), "single".to_string()), ("facing".to_string(), "east".to_string())]
        ))
    );
}

#[test]
fn a_tag_without_a_name_is_no_block() {
    let mut unknown = UnknownBlocks::new();
    assert_eq!(Block::from_nbt(&CompoundTag::new(), &mut unknown), Err(BlockError::MissingName));
    let mut numbered = CompoundTag::new();
    numbered.insert_i32("Name", 7);
    assert_eq!(Block::from_nbt(&numbered, &mut unknown), Err(BlockError::MissingName));
    let mut lower = CompoundTag::new();
    lower.insert_str("name", "stone");
    assert_eq!(state_from_nbt(&lower).err(), Some(BlockError::MissingName));
}

#[test]
fn properties_that_are_no_strings() {
    let mut unknown = UnknownBlocks::new();
    let mut properties = CompoundTag::new();
    properties.insert_i32("age", 3);
    properties.insert_str("axis", "y");
    let mut log = CompoundTag::new();
    log.insert_str("Name", "oak_log");
    log.insert_compound_tag("Properties", properties.clone());
    assert_eq!(
        Block::from_nbt(&log, &mut unknown),
        Ok(Block::Log(TreeSpecies::Oak, LogType::Normal(Axis::Y)))
    );
    let mut chest = CompoundTag::new();
    chest.insert_str("Name", "chest");
    chest.insert_compound_tag("Properties", properties);
    assert_eq!(Block::from_nbt(&chest, &mut unknown), Err(BlockError::InvalidProperty));
    assert_eq!(unknown.len(), 0);
    let mut odd = CompoundTag::new();
    odd.insert_str("Name", "chest");
    odd.insert_str("Properties", "none");
    assert_eq!(Block::from_nbt(&odd, &mut unknown), Ok(Block::Other(0)));
    assert_eq!(unknown.resolve(0), Some(Blockstate("chest".to_string(), Vec::new())));
}

#[test]
fn a_block_is_written_as_its_tag() {
    let unknown = UnknownBlocks::new();
    let stone = Block::Full(BlockMaterial::Stone).to_nbt(&unknown);
    assert_eq!(names(&stone), vec!["Name"]);
    assert_eq!(stone.get_str("Name").ok(), Some("stone"));
    let stairs = Block::Stair(BlockMaterial::Cobble, HDir::ZPos, mc_gen::block::Half::Top).to_nbt(&unknown);
    assert_eq!(names(&stairs), vec!["Name", "Properties"]);
    assert_eq!(stairs.get_str("Name").ok(), Some("cobblestone_stairs"));
    let properties = stairs.get_compound_tag("Properties").unwrap();
    assert_eq!(names(properties), vec!["half", "facing"]);
    assert_eq!(properties.get_str("half").ok(), Some("top"));
    assert_eq!(properties.get_str("facing").ok(), Some("south"));
}

#[test]
fn a_property_that_is_named_twice_is_written_once_and_last() {
    let state = Blockstate(
        "thing".to_string(),
        vec![
            ("a".to_string(), "1".to_string()),
            ("b".to_string(), "2".to_string()),
            ("a".to_string(), "3".to_string()),
        ],
    );
    let tag = state_to_nbt(&state);
    let properties = tag.get_compound_tag("Properties").unwrap();
    assert_eq!(names(properties), vec!["b", "a"]);
    assert_eq!(properties.get_str("a").ok(), Some("3"));
}

#[test]
fn a_written_block_is_read_back() {
    let mut unknown = UnknownBlocks::new();
    let chest = Block::from_nbt(&block_tag("chest", &[("facing", "east")]), &mut unknown).unwrap();
    for block in [
        Block::Air,
        Block::Full(BlockMaterial::Andesite),
        Block::Log(TreeSpecies::Cherry, LogType::Normal(Axis::X)),
        Block::Leaves(TreeSpecies::Oak, Some(-7)),
        Block::Cauldron { water: 2 },
        chest,
    ] {
        let tag = block.to_nbt(&unknown);
        assert_eq!(Block::from_nbt(&tag, &mut unknown), Ok(block));
    }
    assert_eq!(unknown.len(), 1);
}

#[test]
fn tile_entities_are_written_for_blocks_with_payload_only() {
    let pos = Pos(-5, 70, 12);
    let commands = Commands::new();
    assert!(Block::Full(BlockMaterial::Stone).tile_entity_nbt(pos, &commands).is_none());
    assert!(Block::Air.tile_entity_nbt(pos, &commands).is_none());
    let bell =
        Block::Bell(HDir::XPos, BellAttachment::Floor).tile_entity_nbt(pos, &commands).unwrap();
    assert_eq!(names(&bell), vec!["id", "x", "y", "z"]);
    assert_eq!(bell.get_str("id").ok(), Some("bell"));
    assert_eq!(bell.get_i32("x").ok(), Some(-5));
    assert_eq!(bell.get_i32("y").ok(), Some(70));
    assert_eq!(bell.get_i32("z").ok(), Some(12));
    let banner = Block::WallBanner(HDir::XPos, mc_gen::block::Color::Red)
        .tile_entity_nbt(pos, &commands)
        .unwrap();
    assert_eq!(banner.get_str("id").ok(), Some("banner"));
    let tile = tile_to_nbt(&TileEntity { id: "sign".to_string(), pos: Pos(1, 2, 3), command: None });
    assert_eq!(tile.get_str("id").ok(), Some("sign"));
    assert_eq!(tile.get_i32("z").ok(), Some(3));
}

#[test]
fn the_tile_entity_of_a_command_block_holds_its_command() {
    let pos = Pos(-5, 70, 12);
    let mut commands = Commands::new();
    commands.add("say first".to_string()).unwrap();
    let block = commands.add("setblock ~ ~1 ~ stone".to_string()).unwrap();
    let tag = block.tile_entity_nbt(pos, &commands).unwrap();
    assert_eq!(names(&tag), vec!["id", "Command", "TrackOutput", "x", "y", "z"]);
    assert_eq!(tag.get_str("id").ok(), Some("command_block"));
    assert_eq!(tag.get_str("Command").ok(), Some("setblock ~ ~1 ~ stone"));
    assert_eq!(tag.get_i8("TrackOutput").ok(), Some(0));
    assert_eq!(tag.get_bool("TrackOutput").ok(), Some(false));
    assert_eq!(tag.get_i32("x").ok(), Some(-5));
    assert_eq!(tag.get_i32("y").ok(), Some(70));
    assert_eq!(tag.get_i32("z").ok(), Some(12));
    assert!(Block::CommandBlock(2).tile_entity_nbt(pos, &commands).is_none());
    let unknown = UnknownBlocks::new();
    let state = block.to_nbt(&unknown);
    assert_eq!(names(&state), vec!["Name"]);
    assert_eq!(state.get_str("Name").ok(), Some("command_block"));
}

#[test]
fn water_is_read_back_from_the_tag_that_it_is_written_as() {
    let mut unknown = UnknownBlocks::new();
    let read = Block::from_nbt(&block_tag("minecraft:water", &[("level", "0")]), &mut unknown);
    assert_eq!(read, Ok(Block::Water));
    let written = Block::Water.to_nbt(&unknown);
    assert_eq!(Block::from_nbt(&written, &mut unknown), Ok(Block::Water));
    assert_eq!(unknown.len(), 0);
}

#[test]
fn known_states_are_read_back_from_the_tags_that_they_are_written_as() {
    let tags = vec![
        block_tag("minecraft:packed_mud", &[]),
        block_tag("minecraft:coarse_dirt", &[]),
        block_tag("minecraft:acacia_leaves", &[("persistent", "true")]),
        block_tag("minecraft:oak_fence", &[]),
        block_tag("minecraft:dark_oak_fence", &[]),
        block_tag("minecraft:spruce_slab", &[("type", "double")]),
        block_tag("minecraft:mossy_stone_brick_slab", &[("type", "double")]),
        block_tag("minecraft:oak_stairs", &[("facing", "east"), ("half", "bottom")]),
        block_tag("minecraft:water", &[]),
        block_tag("minecraft:stone", &[]),
    ];
    for tag in tags {
        let mut unknown = UnknownBlocks::new();
        let first = Block::from_nbt(&tag, &mut unknown).unwrap();
        let second = Block::from_nbt(&first.to_nbt(&unknown), &mut unknown);
        assert_eq!(second, Ok(first), "{:?}", tag);
        assert_eq!(unknown.len(), 0, "{:?}", tag);
    }
}

#[test]
fn a_section_is_read_from_its_tag() {
    let tag = section_tag(
        3,
        vec![block_tag("minecraft:air", &[]), block_tag("minecraft:water", &[("level", "0")])],
        Some(vec![7, -1, 3]),
    );
    let section = section_from_nbt(&tag).unwrap();
    assert_eq!(section.y, 3);
    assert_eq!(
        section.palette,
        vec![
            Blockstate("air".to_string(), Vec::new()),
            Blockstate("water".to_string(), vec![("level".to_string(), "0".to_string())])
        ]
    );
    assert_eq!(section.data, Some(vec![7, -1, 3]));
    let bare = section_from_nbt(&section_tag(3, vec![block_tag("air", &[])], None)).unwrap();
    assert_eq!(bare.data, None);
    assert_eq!(bare.palette.len(), 1);
}

#[test]
fn a_section_that_is_not_read_needs_its_number_only() {
    for y in [-4i8, -1, 15, 19] {
        let mut tag = CompoundTag::new();
        tag.insert_i8("Y", y);
        let section = section_from_nbt(&tag).unwrap();
        assert_eq!(section.y, y);
        assert!(section.palette.is_empty());
        assert_eq!(section.data, None);
    }
    let mut tag = CompoundTag::new();
    tag.insert_i8("Y", 0);
    assert_eq!(section_from_nbt(&tag).err(), Some(WorldError::Malformed));
}

#[test]
fn malformed_tags_are_errors() {
    let index = ChunkIndex(0, 0);
    assert_eq!(chunk_record_from_nbt(&CompoundTag::new(), index).err(), Some(WorldError::Malformed));
    let mut no_sections = CompoundTag::new();
    no_sections.insert_i32("DataVersion", 3465);
    assert_eq!(chunk_record_from_nbt(&no_sections, index).err(), Some(WorldError::Malformed));
    let mut long_version = chunk_tag(Vec::new());
    long_version.insert_i64("DataVersion", 3465);
    assert_eq!(chunk_record_from_nbt(&long_version, index).err(), Some(WorldError::Malformed));
    let mut mixed = no_sections.clone();
    mixed.insert("sections", Tag::List(vec![Tag::Compound(CompoundTag::new()), Tag::Int(1)]));
    assert_eq!(chunk_record_from_nbt(&mixed, index).err(), Some(WorldError::Malformed));
    let mut no_y = CompoundTag::new();
    no_y.insert_i32("Y", 3);
    assert_eq!(chunk_record_from_nbt(&chunk_tag(vec![no_y]), index).err(), Some(WorldError::Malformed));
    let mut no_palette = CompoundTag::new();
    no_palette.insert_i8("Y", 3);
    no_palette.insert_compound_tag("block_states", CompoundTag::new());
    assert_eq!(
        chunk_record_from_nbt(&chunk_tag(vec![no_palette]), index).err(),
        Some(WorldError::Malformed)
    );
    let nameless = section_tag(3, vec![CompoundTag::new()], None);
    assert_eq!(
        chunk_record_from_nbt(&chunk_tag(vec![nameless]), index).err(),
        Some(WorldError::Block(BlockError::MissingName))
    );
    let mut no_starts = chunk_tag(Vec::new());
    no_starts.insert_compound_tag("Structures", CompoundTag::new());
    assert_eq!(chunk_record_from_nbt(&no_starts, index).err(), Some(WorldError::Malformed));
}

#[test]
fn a_chunk_is_read_from_its_tag() {
    let mut data = vec![0i64; 256];
    data[0] = 0x0102;
    let mut tag = chunk_tag(vec![
        section_tag(-1, Vec::new(), None),
        section_tag(
            4,
            vec![
                block_tag("minecraft:air", &[]),
                block_tag("minecraft:grass_block", &[("snowy", "false")]),
                block_tag("minecraft:lantern", &[("hanging", "false")]),
            ],
            Some(data),
        ),
    ]);
    let mut village = CompoundTag::new();
    village.insert_str("id", "minecraft:village_taiga");
    let mut starts = CompoundTag::new();
    starts.insert_compound_tag("village", village);
    let mut structures = CompoundTag::new();
    structures.insert_compound_tag("Starts", starts);
    tag.insert_compound_tag("Structures", structures);
    tag.insert_i32("DataVersion", 3000);
    let record = chunk_record_from_nbt(&tag, ChunkIndex(7, -9)).unwrap();
    assert_eq!(record.data_version, 3000);
    assert!(!record.version_supported());
    assert_eq!((record.x_pos, record.z_pos), (7, -9));
    assert_eq!(record.village, Some("minecraft:village_taiga".to_string()));
    assert_eq!(record.sections.len(), 2);
    assert_eq!(record.sections[0].y, -1);
    assert_eq!(record.sections[1].y, 4);
    let mut unknown = UnknownBlocks::new();
    let chunk = load_chunk(&record, &mut unknown).unwrap();
    assert_eq!(chunk.block(0, 64, 0), Block::Other(0));
    assert_eq!(chunk.block(1, 64, 0), Block::Air);
    assert_eq!(chunk.block(2, 64, 0), Block::Grass);
    assert_eq!(chunk.height(0, 0), 64);
    assert_eq!(chunk.height(2, 0), 64);
}

#[test]
fn a_chunk_without_a_village_has_none() {
    let mut tag = chunk_tag(Vec::new());
    assert_eq!(chunk_record_from_nbt(&tag, ChunkIndex(0, 0)).unwrap().village, None);
    let mut structures = CompoundTag::new();
    structures.insert_compound_tag("Starts", CompoundTag::new());
    tag.insert_compound_tag("Structures", structures);
    assert_eq!(chunk_record_from_nbt(&tag, ChunkIndex(0, 0)).unwrap().village, None);
}

#[test]
fn a_chunk_is_written_as_its_tag() {
    let record = ChunkRecord {
        data_version: 3465,
        x_pos: 4,
        z_pos: -2,
        last_update: 42,
        terrain_populated: 1,
        inhabited_time: -7,
        status: "full".to_string(),
        sections: vec![
            SectionRecord {
                y: -4,
                palette: vec![
                    Blockstate("air".to_string(), Vec::new()),
                    Blockstate("oak_log".to_string(), vec![("axis".to_string(), "y".to_string())]),
                ],
                data: Some(vec![1, i64::MIN, -5]),
            },
            SectionRecord { y: 2, palette: vec![Blockstate("air".to_string(), Vec::new())], data: None },
        ],
        village: None,
        tile_entities: vec![
            TileEntity { id: "bell".to_string(), pos: Pos(65, -3, -31), command: None },
            TileEntity {
                id: "command_block".to_string(),
                pos: Pos(66, -3, -31),
                command: Some("say hello".to_string()),
            },
        ],
        entities: vec![Entity { pos: Pos(70, 64, -20), id: "villager".to_string() }],
    };
    let tag = chunk_record_to_nbt(&record);
    assert_eq!(
        names(&tag),
        vec![
            "DataVersion",
            "xPos",
            "zPos",
            "LastUpdate",
            "TerrainPopulated",
            "InhabitetTime",
            "Status",
            "sections",
            "block_entities",
            "Entities"
        ]
    );
    assert_eq!(tag.get_i32("DataVersion").ok(), Some(3465));
    assert_eq!(tag.get_i32("xPos").ok(), Some(4));
    assert_eq!(tag.get_i32("zPos").ok(), Some(-2));
    assert_eq!(tag.get_i64("LastUpdate").ok(), Some(42));
    assert_eq!(tag.get_i8("TerrainPopulated").ok(), Some(1));
    assert_eq!(tag.get_i64("InhabitetTime").ok(), Some(-7));
    assert_eq!(tag.get_str("Status").ok(), Some("full"));
    let sections = tag.get_compound_tag_vec("sections").unwrap();
    assert_eq!(sections.len(), 2);
    assert_eq!(names(sections[0]), vec!["Y", "block_states"]);
    assert_eq!(sections[0].get_i8("Y").ok(), Some(-4));
    let states = sections[0].get_compound_tag("block_states").unwrap();
    assert_eq!(names(states), vec!["palette", "data"]);
    assert_eq!(states.get_i64_vec("data").unwrap(), &vec![1, i64::MIN, -5]);
    let palette = states.get_compound_tag_vec("palette").unwrap();
    assert_eq!(palette.len(), 2);
    assert_eq!(palette[1].get_str("Name").ok(), Some("oak_log"));
    assert_eq!(palette[1].get_compound_tag("Properties").unwrap().get_str("axis").ok(), Some("y"));
    let bare = sections[1].get_compound_tag("block_states").unwrap();
    assert_eq!(names(bare), vec!["palette"]);
    let tiles = tag.get_compound_tag_vec("block_entities").unwrap();
    assert_eq!(tiles.len(), 2);
    assert_eq!(names(tiles[0]), vec!["id", "x", "y", "z"]);
    assert_eq!(tiles[0].get_str("id").ok(), Some("bell"));
    assert_eq!(tiles[0].get_i32("y").ok(), Some(-3));
    assert_eq!(names(tiles[1]), vec!["id", "Command", "TrackOutput", "x", "y", "z"]);
    assert_eq!(tiles[1].get_str("Command").ok(), Some("say hello"));
    assert_eq!(tiles[1].get_i8("TrackOutput").ok(), Some(0));
    let entities = tag.get_compound_tag_vec("Entities").unwrap();
    assert_eq!(entities.len(), 1);
    assert_eq!(entities[0].get_str("id").ok(), Some("villager"));
    assert_eq!(entities[0].get_i32("x").ok(), Some(70));
    let one = section_to_nbt(&record.sections[1]);
    assert_eq!(one.get_i8("Y").ok(), Some(2));
}

#[test]
fn a_written_chunk_is_read_back() {
    let record = ChunkRecord {
        data_version: 3465,
        x_pos: 1,
        z_pos: 1,
        last_update: 0,
        terrain_populated: 1,
        inhabited_time: 0,
        status: "full".to_string(),
        sections: vec![SectionRecord {
            y: 5,
            palette: vec![
                Blockstate("air".to_string(), Vec::new()),
                Blockstate("chest".to_string(), vec![("facing".to_string(), "east".to_string())]),
            ],
            data: Some((0..256).map(|i| i % 2).collect()),
        }],
        village: None,
        tile_entities: Vec::new(),
        entities: Vec::new(),
    };
    let read = chunk_record_from_nbt(&chunk_record_to_nbt(&record), ChunkIndex(1, 1)).unwrap();
    assert_eq!(read.data_version, record.data_version);
    assert_eq!(read.sections.len(), 1);
    assert_eq!(read.sections[0].y, 5);
    assert_eq!(read.sections[0].palette, record.sections[0].palette);
    assert_eq!(read.sections[0].data, record.sections[0].data);
}
