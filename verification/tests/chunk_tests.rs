use mc_gen::block::{Block, BlockMaterial, LogType, TreeSpecies};
use mc_gen::blockstate::Blockstate;
use mc_gen::chunk::{derive_column, Biome, Chunk, Section, NO_GROUND};
use mc_gen::commands::{Commands, MAX_COMMANDS};
use mc_gen::error::{BlockError, PaletteError, WorldError};
use mc_gen::geometry::{Axis, ChunkIndex, HDir, Pos};
use mc_gen::palette::palette_encode;
use mc_gen::record::{
    block_pos, load_chunk, load_section, save_chunk, save_section, ChunkRecord, Entity,
    SectionRecord, DATA_VERSION,
};
use mc_gen::registry::UnknownBlocks;

const OAK_LOG: Block = Block::Log(TreeSpecies::Oak, LogType::Normal(Axis::Y));
const OAK_LEAVES: Block = Block::Leaves(TreeSpecies::Oak, None);

fn column_chunk(column: &[(i32, Block)]) -> Chunk {
    let mut chunk = Chunk::new();
    for (y, block) in column {
        chunk.set_block(3, *y, 5, *block);
    }
    chunk
}

fn derived(chunk: &Chunk) -> (i32, Option<i32>) {
    let sections: Vec<Option<Section>> = (0..24)
        .map(|s| chunk.section(s).map(|section| Section::from_blocks(section.blocks().clone())))
        .collect();
    derive_column(&sections, 3, 5)
}

fn record_of(sections: Vec<SectionRecord>) -> ChunkRecord {
    ChunkRecord {
        data_version: DATA_VERSION,
        x_pos: 0,
        z_pos: 0,
        last_update: 0,
        terrain_populated: 1,
        inhabited_time: 0,
        status: "full".to_string(),
        sections,
        village: None,
        tile_entities: Vec::new(),
        entities: Vec::new(),
    }
}

fn section_record(y: i8, blocks: &Vec<Block>) -> SectionRecord {
    let unknown = UnknownBlocks::new();
    let (palette, data) = palette_encode(blocks);
    let states = palette.iter().map(|block| block.blockstate(&unknown)).collect();
    SectionRecord { y, palette: states, data: Some(data) }
}

fn place(x: usize, y: usize, z: usize) -> usize {
    x + 16 * z + 256 * y
}

#[test]
fn a_floating_log_is_no_ground() {
    let mut blocks = vec![Block::Air; 4096];
    blocks[place(3, 12, 5)] = Block::Dirt;
    let mut upper = vec![Block::Air; 4096];
    upper[place(3, 6, 5)] = OAK_LOG;
    upper[place(3, 7, 5)] = OAK_LOG;
    upper[place(3, 8, 5)] = OAK_LEAVES;
    upper[place(3, 9, 5)] = OAK_LEAVES;
    let record = record_of(vec![section_record(3, &blocks), section_record(4, &upper)]);
    let mut unknown = UnknownBlocks::new();
    let chunk = load_chunk(&record, &mut unknown).unwrap();
    assert_eq!(chunk.block(3, 60, 5), Block::Dirt);
    assert_eq!(chunk.block(3, 70, 5), OAK_LOG);
    assert_eq!(chunk.block(3, 71, 5), OAK_LOG);
    assert_eq!(chunk.block(3, 72, 5), OAK_LEAVES);
    assert_eq!(chunk.height(3, 5), 60);
    assert_eq!(chunk.water_level(3, 5), None);
    assert_eq!(chunk.height(4, 5), NO_GROUND);
}

#[test]
fn the_water_level_is_the_topmost_water() {
    let mut blocks = vec![Block::Air; 4096];
    blocks[place(3, 12, 5)] = Block::Dirt;
    blocks[place(3, 13, 5)] = Block::Water;
    blocks[place(3, 14, 5)] = Block::Water;
    blocks[place(3, 15, 5)] = Block::Water;
    let record = record_of(vec![section_record(3, &blocks)]);
    let mut unknown = UnknownBlocks::new();
    let chunk = load_chunk(&record, &mut unknown).unwrap();
    assert_eq!(chunk.height(3, 5), 60);
    assert_eq!(chunk.water_level(3, 5), Some(63));
    assert_eq!(chunk.water_level(5, 3), None);
}

#[test]
fn heights_are_taken_from_the_highest_ground() {
    let stone = Block::Full(BlockMaterial::Stone);
    assert_eq!(derived(&column_chunk(&[])), (NO_GROUND, None));
    assert_eq!(derived(&column_chunk(&[(-64, stone)])), (-64, None));
    assert_eq!(derived(&column_chunk(&[(319, stone)])), (319, None));
    assert_eq!(derived(&column_chunk(&[(10, stone), (40, stone), (20, stone)])), (40, None));
    assert_eq!(derived(&column_chunk(&[(10, stone), (11, OAK_LOG)])), (10, None));
    assert_eq!(derived(&column_chunk(&[(11, OAK_LOG)])), (NO_GROUND, None));
    assert_eq!(derived(&column_chunk(&[(-1, stone)])), (-1, None));
    assert_eq!(derived(&column_chunk(&[(0, stone)])), (0, None));
    assert_eq!(derived(&column_chunk(&[(15, stone), (16, Block::Ladder(HDir::XPos))])), (15, None));
}

#[test]
fn water_counts_only_above_the_ground() {
    let stone = Block::Full(BlockMaterial::Stone);
    assert_eq!(derived(&column_chunk(&[(5, Block::Water)])), (NO_GROUND, Some(5)));
    assert_eq!(derived(&column_chunk(&[(5, Block::Water), (9, Block::Water)])), (NO_GROUND, Some(9)));
    assert_eq!(derived(&column_chunk(&[(5, Block::Water), (9, stone)])), (9, None));
    assert_eq!(derived(&column_chunk(&[(5, stone), (9, Block::Water), (30, Block::Water)])), (5, Some(30)));
    assert_eq!(derived(&column_chunk(&[(5, stone), (9, Block::Lava)])), (5, None));
    assert_eq!(derived(&column_chunk(&[(-64, Block::Water)])), (NO_GROUND, Some(-64)));
    assert_eq!(
        derived(&column_chunk(&[(63, stone), (64, Block::Water), (100, OAK_LOG), (101, Block::Water)])),
        (63, Some(101))
    );
}

#[test]
fn a_chunk_starts_empty() {
    let chunk = Chunk::new();
    for s in 0..24 {
        assert!(chunk.section(s).is_none());
    }
    assert_eq!(chunk.block(0, -64, 0), Block::Air);
    assert_eq!(chunk.block(15, 319, 15), Block::Air);
    assert_eq!(chunk.height(0, 0), NO_GROUND);
    assert_eq!(chunk.water_level(15, 15), None);
    assert_eq!(chunk.biome(7, 9), Biome(0));
}

#[test]
fn setting_a_block_makes_its_section() {
    let mut chunk = Chunk::new();
    chunk.set_block(1, -1, 2, Block::Sand);
    assert!(chunk.section(3).is_some());
    assert!(chunk.section(4).is_none());
    assert_eq!(chunk.block(1, -1, 2), Block::Sand);
    assert_eq!(chunk.block(1, 0, 2), Block::Air);
    assert_eq!(chunk.block(2, -1, 1), Block::Air);
    assert_eq!(chunk.section(3).unwrap().get(place(1, 15, 2)), Block::Sand);
    assert_eq!(chunk.height(1, 2), NO_GROUND);
    chunk.set_height(1, 2, -1);
    chunk.set_water_level(1, 2, Some(4));
    assert_eq!(chunk.height(1, 2), -1);
    assert_eq!(chunk.water_level(1, 2), Some(4));
    assert_eq!(chunk.height(2, 1), NO_GROUND);
}

#[test]
fn sections_outside_of_the_read_range_are_left_out() {
    let blocks = vec![Block::Dirt; 4096];
    let mut unknown = UnknownBlocks::new();
    for y in [-5i8, -4, -1, 15, 19, 20, 127, -128] {
        let record = record_of(vec![section_record(y, &blocks)]);
        let chunk = load_chunk(&record, &mut unknown).unwrap();
        for s in 0..24 {
            assert!(chunk.section(s).is_none(), "section {} of record {}", s, y);
        }
    }
    for y in [0i8, 7, 14] {
        let record = record_of(vec![section_record(y, &blocks)]);
        let chunk = load_chunk(&record, &mut unknown).unwrap();
        for s in 0..24 {
            assert_eq!(chunk.section(s).is_some(), s as i8 == y + 4);
        }
        assert_eq!(chunk.height(0, 0), y as i32 * 16 + 15);
    }
}

#[test]
fn a_section_that_is_left_out_does_not_reach_the_registry() {
    let mut unknown = UnknownBlocks::new();
    let record = SectionRecord {
        y: 15,
        palette: vec![Blockstate("lantern".to_string(), Vec::new())],
        data: None,
    };
    assert!(load_section(&record, &mut unknown).unwrap().is_none());
    assert_eq!(unknown.len(), 0);
    let read = SectionRecord { y: 14, ..record };
    assert!(load_section(&read, &mut unknown).unwrap().is_some());
    assert_eq!(unknown.len(), 1);
}

#[test]
fn a_section_without_indices_is_air() {
    let mut unknown = UnknownBlocks::new();
    let record = record_of(vec![SectionRecord {
        y: 2,
        palette: vec![Blockstate("stone".to_string(), Vec::new())],
        data: None,
    }]);
    let chunk = load_chunk(&record, &mut unknown).unwrap();
    assert!(chunk.section(6).is_some());
    assert_eq!(chunk.block(0, 32, 0), Block::Air);
    assert_eq!(chunk.height(0, 0), NO_GROUND);
}

#[test]
fn of_two_sections_with_one_number_the_later_stays() {
    let mut unknown = UnknownBlocks::new();
    let record = record_of(vec![
        section_record(1, &vec![Block::Dirt; 4096]),
        section_record(1, &vec![Block::Sand; 4096]),
    ]);
    let chunk = load_chunk(&record, &mut unknown).unwrap();
    assert_eq!(chunk.block(0, 16, 0), Block::Sand);
}

#[test]
fn unknown_states_of_a_chunk_are_interned() {
    let mut unknown = UnknownBlocks::new();
    let lantern = Blockstate("lantern".to_string(), vec![("hanging".to_string(), "true".to_string())]);
    let mut data = vec![0i64; 256];
    data[0] = 0x21;
    let record = record_of(vec![SectionRecord {
        y: 0,
        palette: vec![
            Blockstate("air".to_string(), Vec::new()),
            lantern.duplicate(),
            Blockstate("stone".to_string(), Vec::new()),
        ],
        data: Some(data),
    }]);
    let chunk = load_chunk(&record, &mut unknown).unwrap();
    assert_eq!(chunk.block(0, 0, 0), Block::Other(0));
    assert_eq!(chunk.block(1, 0, 0), Block::Full(BlockMaterial::Stone));
    assert_eq!(chunk.block(2, 0, 0), Block::Air);
    assert_eq!(unknown.resolve(0), Some(lantern));
    assert_eq!(chunk.height(0, 0), 0);
}

#[test]
fn a_chunk_that_cannot_be_read_is_an_error() {
    let mut unknown = UnknownBlocks::new();
    let log = record_of(vec![SectionRecord {
        y: 0,
        palette: vec![Blockstate("oak_log".to_string(), Vec::new())],
        data: None,
    }]);
    assert_eq!(load_chunk(&log, &mut unknown).err(), Some(WorldError::Block(BlockError::MissingProperty)));
    let short = record_of(vec![SectionRecord {
        y: 0,
        palette: vec![Blockstate("air".to_string(), Vec::new())],
        data: Some(vec![0; 255]),
    }]);
    assert_eq!(load_chunk(&short, &mut unknown).err(), Some(WorldError::Palette(PaletteError::TooFewWords)));
    let wild = record_of(vec![SectionRecord {
        y: 0,
        palette: vec![Blockstate("air".to_string(), Vec::new())],
        data: Some(vec![1; 256]),
    }]);
    assert_eq!(
        load_chunk(&wild, &mut unknown).err(),
        Some(WorldError::Palette(PaletteError::IndexOutOfPalette))
    );
    let empty = record_of(vec![SectionRecord { y: 0, palette: Vec::new(), data: Some(vec![0; 256]) }]);
    assert_eq!(
        load_chunk(&empty, &mut unknown).err(),
        Some(WorldError::Palette(PaletteError::IndexOutOfPalette))
    );
}

#[test]
fn the_version_and_the_village_of_a_record() {
    let mut record = record_of(Vec::new());
    assert!(record.version_supported());
    assert_eq!(record.village_marker(), None);
    record.data_version = 3464;
    assert!(!record.version_supported());
    record.village = Some("INVALID".to_string());
    assert_eq!(record.village_marker(), None);
    record.village = Some("minecraft:village".to_string());
    assert_eq!(record.village_marker(), Some("minecraft:village"));
    let mut unknown = UnknownBlocks::new();
    assert!(load_chunk(&record, &mut unknown).is_ok());
}

#[test]
fn a_block_without_payload_has_no_tile_entity() {
    let pos = Pos(1, 2, 3);
    let commands = Commands::new();
    assert!(Block::Full(BlockMaterial::Stone).tile_entity(pos, &commands).is_none());
    assert!(Block::Air.tile_entity(pos, &commands).is_none());
    assert!(Block::Other(3).tile_entity(pos, &commands).is_none());
    assert!(!Block::Full(BlockMaterial::Stone).has_tile_entity());
    let bell = Block::Bell(HDir::XPos, mc_gen::block::BellAttachment::Floor);
    assert!(bell.has_tile_entity());
    let tile = bell.tile_entity(pos, &commands).unwrap();
    assert_eq!(tile.id, "bell");
    assert_eq!(tile.pos, pos);
    assert_eq!(tile.command, None);
    let banner = Block::WallBanner(HDir::XPos, mc_gen::block::Color::Red)
        .tile_entity(pos, &commands)
        .unwrap();
    assert_eq!(banner.id, "banner");
    assert_eq!(banner.command, None);
}

#[test]
fn a_command_block_always_has_a_tile_entity_with_its_command() {
    let pos = Pos(-7, 64, 9);
    let mut commands = Commands::new();
    let first = commands.add("say hello".to_string()).unwrap();
    let second = commands.add("time set day".to_string()).unwrap();
    assert_eq!(first, Block::CommandBlock(0));
    assert_eq!(second, Block::CommandBlock(1));
    assert_eq!(commands.len(), 2);
    assert_eq!(commands.get(1), Some("time set day".to_string()));
    assert_eq!(commands.get(2), None);
    assert_eq!(commands.command(first), Some("say hello".to_string()));
    assert_eq!(commands.command(Block::Air), None);
    assert!(commands.holds(second));
    assert!(commands.holds(Block::Dirt));
    assert!(!commands.holds(Block::CommandBlock(2)));
    assert!(first.has_tile_entity());
    let tile = second.tile_entity(pos, &commands).unwrap();
    assert_eq!(tile.id, "command_block");
    assert_eq!(tile.pos, pos);
    assert_eq!(tile.command, Some("time set day".to_string()));
    assert!(Block::CommandBlock(2).tile_entity(pos, &commands).is_none());
    let unknown = UnknownBlocks::new();
    assert_eq!(first.blockstate(&unknown), Blockstate("command_block".to_string(), Vec::new()));
    assert!(first.is_storable(&unknown, &commands));
    assert!(!Block::CommandBlock(2).is_storable(&unknown, &commands));
    assert!(Block::CommandBlock(2).is_encodable(&unknown));
}

#[test]
fn a_full_store_of_commands_takes_no_more() {
    let mut commands = Commands::new();
    for i in 0..MAX_COMMANDS {
        assert_eq!(commands.add(String::new()), Some(Block::CommandBlock(i as u16)));
    }
    assert_eq!(commands.add("say late".to_string()), None);
    assert_eq!(commands.len(), MAX_COMMANDS);
    assert_eq!(commands.get(65535), Some(String::new()));
}

#[test]
fn saving_a_chunk_writes_the_commands_of_its_command_blocks() {
    let unknown = UnknownBlocks::new();
    let mut commands = Commands::new();
    let hello = commands.add("say hello".to_string()).unwrap();
    let day = commands.add("time set day".to_string()).unwrap();
    let mut chunk = Chunk::new();
    chunk.set_block(3, 70, 2, day);
    chunk.set_block(1, 70, 2, hello);
    chunk.set_block(2, 70, 2, Block::Full(BlockMaterial::Stone));
    let record = save_chunk(ChunkIndex(1, 1), &chunk, Vec::new(), &unknown, &commands).unwrap();
    assert_eq!(
        record.sections[0].palette,
        vec![
            Blockstate("air".to_string(), Vec::new()),
            Blockstate("command_block".to_string(), Vec::new()),
            Blockstate("stone".to_string(), Vec::new()),
            Blockstate("command_block".to_string(), Vec::new()),
        ]
    );
    assert_eq!(record.tile_entities.len(), 2);
    assert_eq!(record.tile_entities[0].id, "command_block");
    assert_eq!(record.tile_entities[0].pos, Pos(17, 70, 18));
    assert_eq!(record.tile_entities[0].command, Some("say hello".to_string()));
    assert_eq!(record.tile_entities[1].pos, Pos(19, 70, 18));
    assert_eq!(record.tile_entities[1].command, Some("time set day".to_string()));
    let empty = Commands::new();
    assert_eq!(
        save_chunk(ChunkIndex(1, 1), &chunk, Vec::new(), &unknown, &empty).err(),
        Some(WorldError::Unencodable)
    );
}

#[test]
fn positions_of_blocks_in_a_chunk() {
    assert_eq!(block_pos(ChunkIndex(0, 0), 4, 0), Pos(0, 0, 0));
    assert_eq!(block_pos(ChunkIndex(0, 0), 0, 0), Pos(0, -64, 0));
    assert_eq!(block_pos(ChunkIndex(2, -3), 5, place(7, 9, 11)), Pos(39, 25, -37));
    assert_eq!(block_pos(ChunkIndex(-1, -1), 23, 4095), Pos(-1, 319, -1));
}

#[test]
fn saving_a_chunk_writes_its_sections_and_tile_entities() {
    let unknown = UnknownBlocks::new();
    let bell = Block::Bell(HDir::ZNeg, mc_gen::block::BellAttachment::Ceiling);
    let mut chunk = Chunk::new();
    chunk.set_block(0, 0, 0, Block::Dirt);
    chunk.set_block(1, 70, 2, bell);
    chunk.set_block(2, 70, 2, Block::Full(BlockMaterial::Stone));
    chunk.set_block(15, -64, 15, Block::Bedrock);
    let entity = Entity { pos: Pos(35, 70, -45), id: "villager".to_string() };
    let record =
        save_chunk(ChunkIndex(2, -3), &chunk, vec![entity], &unknown, &Commands::new()).unwrap();
    assert_eq!(record.data_version, 3465);
    assert_eq!((record.x_pos, record.z_pos), (2, -3));
    assert_eq!(record.last_update, 0);
    assert_eq!(record.terrain_populated, 1);
    assert_eq!(record.inhabited_time, 0);
    assert_eq!(record.status, "full");
    assert_eq!(record.village, None);
    assert_eq!(record.sections.iter().map(|s| s.y).collect::<Vec<i8>>(), vec![-4, 0, 4]);
    assert_eq!(
        record.sections[1].palette,
        vec![Blockstate("air".to_string(), Vec::new()), Blockstate("dirt".to_string(), Vec::new())]
    );
    let data = record.sections[1].data.as_ref().unwrap();
    assert_eq!(data.len(), 256);
    assert_eq!(data[0], 1);
    assert!(data[1..].iter().all(|word| *word == 0));
    assert_eq!(record.tile_entities.len(), 1);
    assert_eq!(record.tile_entities[0].id, "bell");
    assert_eq!(record.tile_entities[0].pos, Pos(33, 70, -46));
    assert_eq!(record.tile_entities[0].command, None);
    assert_eq!(record.entities.len(), 1);
    assert_eq!(record.entities[0].id, "villager");
}

#[test]
fn a_saved_chunk_is_loaded_back() {
    let mut unknown = UnknownBlocks::new();
    let chest = unknown.intern(Blockstate("chest".to_string(), Vec::new())).unwrap();
    let mut chunk = Chunk::new();
    for x in 0..16 {
        for z in 0..16 {
            chunk.set_block(x, 3, z, Block::Dirt);
            chunk.set_block(x, 4 + (x as i32 + z as i32) % 3, z, Block::Full(BlockMaterial::Stone));
        }
    }
    chunk.set_block(4, 100, 4, Block::Other(chest));
    chunk.set_block(4, 239, 4, Block::Sand);
    let record = save_chunk(ChunkIndex(0, 0), &chunk, Vec::new(), &unknown, &Commands::new()).unwrap();
    let loaded = load_chunk(&record, &mut unknown).unwrap();
    for x in 0..16 {
        for z in 0..16 {
            for y in 0..240 {
                assert_eq!(loaded.block(x, y, z), chunk.block(x, y, z));
            }
            let top = if (x, z) == (4, 4) { 239 } else { 4 + (x as i32 + z as i32) % 3 };
            assert_eq!(loaded.height(x, z), top);
        }
    }
    assert_eq!(unknown.len(), 1);
}

#[test]
fn water_is_written_without_its_level_and_read_back_as_water() {
    let mut unknown = UnknownBlocks::new();
    let mut chunk = Chunk::new();
    chunk.set_block(0, 9, 0, Block::Dirt);
    chunk.set_block(0, 10, 0, Block::Water);
    let record = save_chunk(ChunkIndex(0, 0), &chunk, Vec::new(), &unknown, &Commands::new()).unwrap();
    assert_eq!(record.sections[0].palette[2], Blockstate("water".to_string(), Vec::new()));
    let loaded = load_chunk(&record, &mut unknown).unwrap();
    assert_eq!(loaded.block(0, 10, 0), Block::Water);
    assert_eq!(loaded.height(0, 0), 9);
    assert_eq!(loaded.water_level(0, 0), Some(10));
}

#[test]
fn a_block_that_cannot_be_written_fails_the_saving() {
    let unknown = UnknownBlocks::new();
    let mut chunk = Chunk::new();
    chunk.set_block(0, 0, 0, Block::Cauldron { water: 4 });
    assert_eq!(
        save_chunk(ChunkIndex(0, 0), &chunk, Vec::new(), &unknown, &Commands::new()).err(),
        Some(WorldError::Unencodable)
    );
    let mut other = Chunk::new();
    other.set_block(0, 0, 0, Block::Other(0));
    assert_eq!(
        save_section(other.section(4).unwrap(), 4, &unknown, &Commands::new()).err(),
        Some(WorldError::Unencodable)
    );
    let mut fine = Chunk::new();
    fine.set_block(0, 0, 0, Block::Cauldron { water: 3 });
    assert!(save_chunk(ChunkIndex(0, 0), &fine, Vec::new(), &unknown, &Commands::new()).is_ok());
}
