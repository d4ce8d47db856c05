use mc_gen::block::{Block, BlockMaterial, GroundPlant};
use mc_gen::blockstate::Blockstate;
use mc_gen::chunk::{Biome, NO_GROUND};
use mc_gen::error::{BlockError, WorldError};
use mc_gen::geometry::{div16, mod16, ChunkIndex, Column, Pos, Rect};
use mc_gen::record::{ChunkRecord, Entity, SectionRecord, DATA_VERSION};
use mc_gen::registry::UnknownBlocks;
use mc_gen::commands::Commands;
use mc_gen::world::{World, LOAD_MARGIN, MAX_COORD};

const STONE: Block = Block::Full(BlockMaterial::Stone);

fn rect(min: (i32, i32), max: (i32, i32)) -> Rect {
    Rect { min: Column(min.0, min.1), max: Column(max.0, max.1) }
}

fn small_world() -> World {
    World::new(rect((-16, -16), (47, 31))).unwrap()
}

fn record_of(sections: Vec<SectionRecord>, village: Option<&str>) -> ChunkRecord {
    ChunkRecord {
        data_version: DATA_VERSION,
        x_pos: 0,
        z_pos: 0,
        last_update: 0,
        terrain_populated: 1,
        inhabited_time: 0,
        status: "full".to_string(),
        sections,
        village: village.map(|id| id.to_string()),
        tile_entities: Vec::new(),
        entities: Vec::new(),
    }
}

fn dirt_floor() -> SectionRecord {
    let mut data = vec![0i64; 256];
    for word in data.iter_mut().take(16) {
        *word = 0x1111_1111_1111_1111;
    }
    SectionRecord {
        y: 0,
        palette: vec![
            Blockstate("air".to_string(), Vec::new()),
            Blockstate("dirt".to_string(), Vec::new()),
        ],
        data: Some(data),
    }
}

#[test]
fn floor_division_rounds_down() {
    assert_eq!(div16(0), 0);
    assert_eq!(div16(15), 0);
    assert_eq!(div16(16), 1);
    assert_eq!(div16(-1), -1);
    assert_eq!(div16(-16), -1);
    assert_eq!(div16(-17), -2);
    assert_eq!(div16(i32::MIN), -134217728);
    assert_eq!(mod16(-1), 15);
    assert_eq!(mod16(-16), 0);
    assert_eq!(mod16(17), 1);
    assert_eq!(Column(-1, 31).chunk(), ChunkIndex(-1, 1));
    assert_eq!(Pos(1, 2, 3).column(), Column(1, 3));
    assert_eq!(Column(1, 3).at(2), Pos(1, 2, 3));
}

#[test]
fn rectangles() {
    let r = rect((-3, 2), (5, 9));
    assert!(r.contains(Column(-3, 2)));
    assert!(r.contains(Column(5, 9)));
    assert!(!r.contains(Column(-4, 2)));
    assert!(!r.contains(Column(5, 10)));
    assert_eq!(r.shrink(2), rect((-1, 4), (3, 7)));
    assert_eq!(r.shrink(-1), rect((-4, 1), (6, 10)));
    assert_eq!(r.center(), Column(1, 5));
    assert_eq!(rect((-4, -3), (-1, 0)).center(), Column(-3, -2));
    assert_eq!(rect((i32::MAX - 1, 0), (i32::MAX, 0)).center(), Column(i32::MAX - 1, 0));
}

#[test]
fn the_world_loads_a_margin_around_the_wanted_area() {
    assert_eq!(LOAD_MARGIN, 16);
    let world = small_world();
    assert_eq!(world.chunk_min(), ChunkIndex(-2, -2));
    assert_eq!(world.chunk_max(), ChunkIndex(3, 2));
    assert_eq!(world.loaded_area(), rect((-32, -32), (63, 47)));
    assert_eq!(world.area(), rect((-16, -16), (47, 31)));
    let inner = World::new(rect((3, 4), (20, 15))).unwrap();
    assert_eq!(inner.chunk_min(), ChunkIndex(-1, -1));
    assert_eq!(inner.chunk_max(), ChunkIndex(2, 1));
    assert_eq!(inner.loaded_area(), rect((-16, -16), (47, 31)));
    assert_eq!(inner.area(), rect((0, 0), (31, 15)));
    let negative = World::new(rect((-100, -50), (-90, -40))).unwrap();
    assert_eq!(negative.chunk_min(), ChunkIndex(-8, -5));
    assert_eq!(negative.chunk_max(), ChunkIndex(-5, -2));
    assert_eq!(negative.area(), rect((-112, -64), (-81, -33)));
}

#[test]
fn the_area_holds_all_that_was_wanted_and_no_column_of_the_margin() {
    for (min, max) in [((0, 0), (0, 0)), ((-7, 3), (12, 40)), ((15, 16), (16, 17)), ((-33, -1), (-32, 0))] {
        let wanted = rect(min, max);
        let world = World::new(wanted).unwrap();
        let area = world.area();
        let loaded = world.loaded_area();
        assert!(area.contains(wanted.min) && area.contains(wanted.max));
        assert_eq!(area, loaded.shrink(LOAD_MARGIN));
        for x in loaded.min.0..=loaded.max.0 {
            for z in loaded.min.1..=loaded.max.1 {
                let column = Column(x, z);
                let chunk = column.chunk();
                let on_the_ring = chunk.0 == world.chunk_min().0
                    || chunk.0 == world.chunk_max().0
                    || chunk.1 == world.chunk_min().1
                    || chunk.1 == world.chunk_max().1;
                let near_the_edge = x < loaded.min.0 + LOAD_MARGIN
                    || x > loaded.max.0 - LOAD_MARGIN
                    || z < loaded.min.1 + LOAD_MARGIN
                    || z > loaded.max.1 - LOAD_MARGIN;
                assert_eq!(area.contains(column), !near_the_edge);
                assert_eq!(area.contains(column), !on_the_ring);
            }
        }
    }
}

#[test]
fn an_area_that_is_not_supported_is_an_error() {
    assert_eq!(World::new(rect((1, 0), (0, 0))).err(), Some(WorldError::UnsupportedArea));
    assert_eq!(World::new(rect((0, 1), (0, 0))).err(), Some(WorldError::UnsupportedArea));
    assert_eq!(World::new(rect((-MAX_COORD - 1, 0), (0, 0))).err(), Some(WorldError::UnsupportedArea));
    assert_eq!(World::new(rect((0, 0), (0, MAX_COORD + 1))).err(), Some(WorldError::UnsupportedArea));
    assert_eq!(
        World::new(rect((i32::MIN, i32::MIN), (i32::MAX, i32::MAX))).err(),
        Some(WorldError::UnsupportedArea)
    );
    assert!(World::new(rect((MAX_COORD, MAX_COORD), (MAX_COORD, MAX_COORD))).is_ok());
    assert!(World::new(rect((-MAX_COORD, -MAX_COORD), (-MAX_COORD, -MAX_COORD))).is_ok());
}

#[test]
fn a_new_world_is_air_without_ground() {
    let world = small_world();
    assert_eq!(world.get(Pos(0, 0, 0)), Ok(Block::Air));
    assert_eq!(world.get(Pos(-32, -64, -32)), Ok(Block::Air));
    assert_eq!(world.get(Pos(63, 319, 47)), Ok(Block::Air));
    assert_eq!(world.height(Column(5, 5)), Ok(NO_GROUND));
    assert_eq!(world.water_level(Column(5, 5)), Ok(None));
    assert_eq!(world.biome(Column(5, 5)), Ok(Biome(0)));
    assert!(world.entities().is_empty());
    assert!(world.villages().is_empty());
}

#[test]
fn positions_outside_of_the_world_are_errors() {
    let mut world = small_world();
    for pos in [Pos(-33, 0, 0), Pos(64, 0, 0), Pos(0, 0, -33), Pos(0, 0, 48), Pos(0, -65, 0), Pos(0, 320, 0), Pos(i32::MAX, 0, 0), Pos(0, i32::MIN, 0)] {
        assert_eq!(world.get(pos), Err(WorldError::OutOfBounds), "{:?}", pos);
        assert_eq!(world.set(pos, STONE), Err(WorldError::OutOfBounds));
        assert_eq!(world.set_override(pos, STONE), Err(WorldError::OutOfBounds));
        assert_eq!(world.set_if_not_solid(pos, STONE), Err(WorldError::OutOfBounds));
    }
    for column in [Column(-33, 0), Column(64, 0), Column(0, -33), Column(0, 48)] {
        assert_eq!(world.height(column), Err(WorldError::OutOfBounds));
        assert_eq!(world.set_height(column, 3), Err(WorldError::OutOfBounds));
        assert_eq!(world.water_level(column), Err(WorldError::OutOfBounds));
        assert_eq!(world.set_water_level(column, None), Err(WorldError::OutOfBounds));
        assert_eq!(world.biome(column), Err(WorldError::OutOfBounds));
    }
    assert_eq!(world.chunk_index(ChunkIndex(-3, 0)), Err(WorldError::OutOfBounds));
    assert_eq!(world.chunk_index(ChunkIndex(0, 3)), Err(WorldError::OutOfBounds));
}

#[test]
fn chunks_have_their_places_row_by_row() {
    let world = small_world();
    assert_eq!(world.chunk_index(ChunkIndex(-2, -2)), Ok(0));
    assert_eq!(world.chunk_index(ChunkIndex(3, -2)), Ok(5));
    assert_eq!(world.chunk_index(ChunkIndex(-2, -1)), Ok(6));
    assert_eq!(world.chunk_index(ChunkIndex(3, 2)), Ok(29));
    let chunks = world.chunks();
    assert_eq!(chunks.len(), 30);
    assert_eq!(chunks[0], ChunkIndex(-2, -2));
    assert_eq!(chunks[1], ChunkIndex(-2, -1));
    assert_eq!(chunks[5], ChunkIndex(-1, -2));
    assert_eq!(chunks[29], ChunkIndex(3, 2));
}

#[test]
fn setting_a_block_changes_that_block_alone() {
    let mut world = small_world();
    let pos = Pos(-1, -1, -1);
    assert_eq!(world.set(pos, STONE), Ok(()));
    assert_eq!(world.get(pos), Ok(STONE));
    for other in [Pos(0, -1, -1), Pos(-1, 0, -1), Pos(-1, -1, 0), Pos(-2, -1, -1), Pos(15, -1, -1), Pos(-1, 15, -1), Pos(-17, -1, -1), Pos(-1, -1, -17)] {
        assert_eq!(world.get(other), Ok(Block::Air), "{:?}", other);
    }
    assert_eq!(world.height(Column(-1, -1)), Ok(NO_GROUND));
    assert_eq!(world.set(pos, Block::Air), Ok(()));
    assert_eq!(world.get(pos), Ok(Block::Air));
    assert_eq!(world.set_override(pos, Block::Sand), Ok(()));
    assert_eq!(world.get(pos), Ok(Block::Sand));
}

#[test]
fn every_position_keeps_its_own_block() {
    let mut world = World::new(rect((0, 0), (0, 0))).unwrap();
    let loaded = world.loaded_area();
    let mut n: u16 = 0;
    for x in (loaded.min.0..=loaded.max.0).step_by(5) {
        for z in (loaded.min.1..=loaded.max.1).step_by(7) {
            for y in (-64..320).step_by(37) {
                assert_eq!(world.set(Pos(x, y, z), Block::Other(n)), Ok(()));
                n += 1;
            }
        }
    }
    let mut n: u16 = 0;
    for x in (loaded.min.0..=loaded.max.0).step_by(5) {
        for z in (loaded.min.1..=loaded.max.1).step_by(7) {
            for y in (-64..320).step_by(37) {
                assert_eq!(world.get(Pos(x, y, z)), Ok(Block::Other(n)));
                n += 1;
            }
        }
    }
}

#[test]
fn a_solid_block_is_not_replaced() {
    let mut world = small_world();
    let pos = Pos(3, 70, 3);
    assert_eq!(world.set_if_not_solid(pos, Block::Dirt), Ok(()));
    assert_eq!(world.get(pos), Ok(Block::Dirt));
    assert_eq!(world.set_if_not_solid(pos, STONE), Ok(()));
    assert_eq!(world.get(pos), Ok(Block::Dirt));
    assert_eq!(world.set(pos, Block::GroundPlant(GroundPlant::Cactus)), Ok(()));
    assert_eq!(world.set_if_not_solid(pos, STONE), Ok(()));
    assert_eq!(world.get(pos), Ok(STONE));
}

#[test]
fn heights_and_water_levels_are_kept_by_column() {
    let mut world = small_world();
    assert_eq!(world.set_height(Column(-5, 7), 64), Ok(()));
    assert_eq!(world.set_water_level(Column(-5, 7), Some(62)), Ok(()));
    assert_eq!(world.height(Column(-5, 7)), Ok(64));
    assert_eq!(world.water_level(Column(-5, 7)), Ok(Some(62)));
    assert_eq!(world.height(Column(-5, 8)), Ok(NO_GROUND));
    assert_eq!(world.height(Column(11, 7)), Ok(NO_GROUND));
    assert_eq!(world.water_level(Column(7, -5)), Ok(None));
    assert_eq!(world.get(Pos(-5, 64, 7)), Ok(Block::Air));
    assert_eq!(world.set_water_level(Column(-5, 7), None), Ok(()));
    assert_eq!(world.water_level(Column(-5, 7)), Ok(None));
}

#[test]
fn a_chunk_is_read_into_its_place() {
    let mut world = small_world();
    let mut unknown = UnknownBlocks::new();
    let record = record_of(vec![dirt_floor()], Some("minecraft:village_plains"));
    assert_eq!(world.load_chunk(ChunkIndex(1, -1), &record, &mut unknown), Ok(()));
    assert_eq!(world.get(Pos(16, 0, -16)), Ok(Block::Dirt));
    assert_eq!(world.get(Pos(31, 0, -1)), Ok(Block::Dirt));
    assert_eq!(world.get(Pos(16, 1, -16)), Ok(Block::Air));
    assert_eq!(world.get(Pos(15, 0, -16)), Ok(Block::Air));
    assert_eq!(world.get(Pos(16, 0, 0)), Ok(Block::Air));
    assert_eq!(world.height(Column(20, -5)), Ok(0));
    assert_eq!(world.height(Column(20, 5)), Ok(NO_GROUND));
    assert_eq!(world.villages().len(), 1);
    assert_eq!(world.villages()[0].chunk, ChunkIndex(1, -1));
    assert_eq!(world.villages()[0].id, "minecraft:village_plains");
    assert_eq!(unknown.len(), 0);
}

#[test]
fn a_chunk_that_cannot_be_read_leaves_the_world_alone() {
    let mut world = small_world();
    let mut unknown = UnknownBlocks::new();
    let fine = record_of(vec![dirt_floor()], None);
    assert_eq!(world.load_chunk(ChunkIndex(4, 0), &fine, &mut unknown), Err(WorldError::OutOfBounds));
    let broken = record_of(
        vec![
            dirt_floor(),
            SectionRecord { y: 5, palette: vec![Blockstate("ladder".to_string(), Vec::new())], data: None },
        ],
        Some("village"),
    );
    assert_eq!(
        world.load_chunk(ChunkIndex(0, 0), &broken, &mut unknown),
        Err(WorldError::Block(BlockError::MissingProperty))
    );
    assert_eq!(world.get(Pos(0, 0, 0)), Ok(Block::Air));
    assert!(world.villages().is_empty());
    let invalid = record_of(vec![dirt_floor()], Some("INVALID"));
    assert_eq!(world.load_chunk(ChunkIndex(0, 0), &invalid, &mut unknown), Ok(()));
    assert!(world.villages().is_empty());
    assert_eq!(world.get(Pos(0, 0, 0)), Ok(Block::Dirt));
}

#[test]
fn only_the_chunks_inside_the_ring_are_saved() {
    let mut world = small_world();
    let unknown = UnknownBlocks::new();
    for chunk in world.chunks() {
        assert_eq!(world.set(Pos(chunk.0 * 16 + 1, 64, chunk.1 * 16 + 2), STONE), Ok(()));
    }
    let records = world.save(&unknown, &Commands::new()).unwrap();
    let saved: Vec<(i32, i32)> = records.iter().map(|r| (r.x_pos, r.z_pos)).collect();
    assert_eq!(
        saved,
        vec![(-1, -1), (0, -1), (1, -1), (2, -1), (-1, 0), (0, 0), (1, 0), (2, 0), (-1, 1), (0, 1), (1, 1), (2, 1)]
    );
    for record in &records {
        assert_eq!(record.data_version, DATA_VERSION);
        assert_eq!(record.sections.len(), 1);
        assert_eq!(record.sections[0].y, 4);
        assert_eq!(record.sections[0].palette[1], Blockstate("stone".to_string(), Vec::new()));
    }
    let area = world.area();
    for x in area.min.0..=area.max.0 {
        for z in area.min.1..=area.max.1 {
            let chunk = Column(x, z).chunk();
            assert!(saved.contains(&(chunk.0, chunk.1)));
        }
    }
}

#[test]
fn a_wide_world_is_made() {
    let world = World::new(rect((0, 0), (16 * 40 - 1, 16 * 30 - 1))).unwrap();
    assert_eq!(world.chunk_min(), ChunkIndex(-1, -1));
    assert_eq!(world.chunk_max(), ChunkIndex(40, 30));
    assert_eq!(world.chunks().len(), 42 * 32);
    assert_eq!(world.area(), rect((0, 0), (639, 479)));
    assert_eq!(world.save(&UnknownBlocks::new(), &Commands::new()).map(|r| r.len()), Ok(40 * 30));
}

#[test]
fn command_blocks_are_saved_with_their_commands() {
    let unknown = UnknownBlocks::new();
    let mut commands = Commands::new();
    let block = commands.add("say saved".to_string()).unwrap();
    let mut world = small_world();
    assert_eq!(world.set(Pos(20, 64, -3), block), Ok(()));
    assert_eq!(world.set(Pos(-20, 64, -3), Block::CommandBlock(7)), Ok(()));
    let records = world.save(&unknown, &commands).unwrap();
    for record in &records {
        if (record.x_pos, record.z_pos) == (1, -1) {
            assert_eq!(record.tile_entities.len(), 1);
            assert_eq!(record.tile_entities[0].id, "command_block");
            assert_eq!(record.tile_entities[0].pos, Pos(20, 64, -3));
            assert_eq!(record.tile_entities[0].command, Some("say saved".to_string()));
        } else {
            assert!(record.tile_entities.is_empty());
        }
    }
    assert_eq!(world.set(Pos(0, 64, 0), Block::CommandBlock(7)), Ok(()));
    assert_eq!(world.save(&unknown, &commands).err(), Some(WorldError::Unencodable));
}

#[test]
fn a_world_of_two_rows_has_nothing_to_save() {
    let unknown = UnknownBlocks::new();
    let mut world = small_world();
    assert_eq!(world.set(Pos(-32, 0, -32), Block::Cauldron { water: 9 }), Ok(()));
    assert_eq!(world.save(&unknown, &Commands::new()).map(|records| records.len()), Ok(12));
    assert_eq!(world.set(Pos(0, 0, 0), Block::Cauldron { water: 9 }), Ok(()));
    assert_eq!(world.save(&unknown, &Commands::new()).err(), Some(WorldError::Unencodable));
}

#[test]
fn entities_are_saved_with_the_chunk_they_stand_in() {
    let unknown = UnknownBlocks::new();
    let mut world = small_world();
    world.add_entity(Entity { pos: Pos(0, 70, 0), id: "a".to_string() });
    world.add_entity(Entity { pos: Pos(17, 70, -3), id: "b".to_string() });
    world.add_entity(Entity { pos: Pos(15, 500, 15), id: "c".to_string() });
    world.add_entity(Entity { pos: Pos(-32, 70, -32), id: "on the ring".to_string() });
    assert_eq!(world.entities().len(), 4);
    let records = world.save(&unknown, &Commands::new()).unwrap();
    for record in &records {
        let ids: Vec<&str> = record.entities.iter().map(|e| e.id.as_str()).collect();
        match (record.x_pos, record.z_pos) {
            (0, 0) => assert_eq!(ids, vec!["a", "c"]),
            (1, -1) => assert_eq!(ids, vec!["b"]),
            _ => assert!(ids.is_empty()),
        }
    }
    world.add_entity(Entity { pos: Pos(64, 70, 0), id: "outside".to_string() });
    assert_eq!(world.save(&unknown, &Commands::new()).err(), Some(WorldError::OutOfBounds));
}

#[test]
fn saving_changes_the_description_of_the_level() {
    let world = small_world();
    let edits = world.level_edits("Flat", 1_700_000_000_123);
    assert_eq!(edits.level_name, "Flat [generated]");
    assert_eq!(edits.last_played, 1_700_000_000_123);
    assert_eq!(edits.difficulty, 0);
    assert_eq!(edits.command_block_output, "false");
    assert_eq!(edits.game_loop_function, "mc-gen:loop");
    assert_eq!((edits.spawn_x, edits.spawn_z), (15, 7));
    assert_eq!(world.area().center(), Column(15, 7));
    assert_eq!(world.redstone_processing_area(), rect((-96, -112), (127, 127)));
}

#[test]
fn a_world_is_loaded_from_its_records() {
    let mut unknown = UnknownBlocks::new();
    let area = rect((-16, -16), (47, 31));
    let records = vec![
        (ChunkIndex(0, 0), record_of(vec![dirt_floor()], Some("village"))),
        (ChunkIndex(1, 1), record_of(Vec::new(), Some("INVALID"))),
        (ChunkIndex(0, 0), record_of(Vec::new(), None)),
        (ChunkIndex(-2, -2), record_of(vec![dirt_floor()], None)),
    ];
    let world = World::load(area, &records, &mut unknown).unwrap();
    assert_eq!(world.chunk_min(), ChunkIndex(-2, -2));
    assert_eq!(world.get(Pos(0, 0, 0)), Ok(Block::Air));
    assert_eq!(world.get(Pos(-32, 0, -32)), Ok(Block::Dirt));
    assert_eq!(world.height(Column(-32, -32)), Ok(0));
    assert_eq!(world.villages().len(), 1);
    let empty = World::load(area, &Vec::new(), &mut unknown).unwrap();
    assert_eq!(empty.get(Pos(-32, 0, -32)), Ok(Block::Air));
}

#[test]
fn a_record_that_cannot_be_read_fails_the_loading() {
    let mut unknown = UnknownBlocks::new();
    let area = rect((-16, -16), (47, 31));
    let outside = vec![(ChunkIndex(9, 9), record_of(Vec::new(), None))];
    assert_eq!(World::load(area, &outside, &mut unknown).err(), Some(WorldError::OutOfBounds));
    let broken = vec![
        (ChunkIndex(0, 0), record_of(vec![dirt_floor()], None)),
        (
            ChunkIndex(1, 0),
            record_of(
                vec![SectionRecord {
                    y: 0,
                    palette: vec![
                        Blockstate("lantern".to_string(), Vec::new()),
                        Blockstate("oak_log".to_string(), Vec::new()),
                    ],
                    data: None,
                }],
                None,
            ),
        ),
        (ChunkIndex(9, 9), record_of(Vec::new(), None)),
    ];
    assert_eq!(
        World::load(area, &broken, &mut unknown).err(),
        Some(WorldError::Block(BlockError::MissingProperty))
    );
    assert_eq!(unknown.len(), 1);
    assert_eq!(
        World::load(rect((1, 0), (0, 0)), &broken, &mut unknown).err(),
        Some(WorldError::UnsupportedArea)
    );
    assert_eq!(unknown.len(), 1);
}
