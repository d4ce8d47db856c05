use mc_gen::block::{Block, BlockMaterial};
use mc_gen::error::WorldError;
use mc_gen::geometry::{ChunkIndex, Column, Pos, Rect};
use mc_gen::terraform::{max_chunk_heights, side_exposted, slope, soil_exposted};
use mc_gen::world::World;

const STONE: Block = Block::Full(BlockMaterial::Stone);

fn world() -> World {
    World::new(Rect { min: Column(0, 0), max: Column(15, 15) }).unwrap()
}

#[test]
fn a_side_is_open_where_a_neighbour_is_not_solid() {
    let mut world = world();
    let pos = Pos(5, 10, 5);
    assert_eq!(side_exposted(&world, pos), Ok(true));
    for beside in [Pos(5, 10, 6), Pos(5, 10, 4), Pos(6, 10, 5)] {
        world.set(beside, STONE).unwrap();
        assert_eq!(side_exposted(&world, pos), Ok(true));
    }
    world.set(Pos(4, 10, 5), STONE).unwrap();
    assert_eq!(side_exposted(&world, pos), Ok(false));
    world.set(Pos(5, 11, 5), Block::Air).unwrap();
    world.set(Pos(5, 10, 4), Block::Water).unwrap();
    assert_eq!(side_exposted(&world, pos), Ok(true));
}

#[test]
fn soil_with_an_open_side() {
    let mut world = world();
    let pos = Pos(5, 10, 5);
    assert_eq!(soil_exposted(&world, pos), Ok(false));
    world.set(pos, Block::Dirt).unwrap();
    assert_eq!(soil_exposted(&world, pos), Ok(true));
    world.set(pos, STONE).unwrap();
    assert_eq!(soil_exposted(&world, pos), Ok(false));
    world.set(pos, Block::Sand).unwrap();
    for beside in [Pos(5, 10, 6), Pos(5, 10, 4), Pos(6, 10, 5), Pos(4, 10, 5)] {
        world.set(beside, STONE).unwrap();
    }
    assert_eq!(soil_exposted(&world, pos), Ok(false));
}

#[test]
fn sides_at_the_edge_of_the_world() {
    let mut world = world();
    let loaded = world.loaded_area();
    let south_edge = Pos(0, 0, loaded.max.1);
    assert_eq!(side_exposted(&world, south_edge), Err(WorldError::OutOfBounds));
    let north_edge = Pos(0, 0, loaded.min.1);
    assert_eq!(side_exposted(&world, north_edge), Ok(true));
    world.set(Pos(0, 0, loaded.min.1 + 1), STONE).unwrap();
    assert_eq!(side_exposted(&world, north_edge), Err(WorldError::OutOfBounds));
    assert_eq!(soil_exposted(&world, Pos(0, 400, 0)), Err(WorldError::OutOfBounds));
    assert_eq!(side_exposted(&world, Pos(0, 0, i32::MAX)), Err(WorldError::OutOfBounds));
    assert_eq!(side_exposted(&world, Pos(i32::MIN, 0, i32::MIN)), Err(WorldError::OutOfBounds));
}

#[test]
fn the_slope_weighs_the_heights_around_a_column() {
    let mut world = world();
    assert_eq!(slope(&world, Column(5, 5)), Ok((0, 0)));
    for x in 0..12 {
        for z in 0..12 {
            world.set_height(Column(x, z), 3 * x + 10 * z).unwrap();
        }
    }
    assert_eq!(slope(&world, Column(5, 5)), Ok((24, 80)));
    world.set_height(Column(6, 4), 1000).unwrap();
    assert_eq!(slope(&world, Column(5, 5)), Ok((24 + 1000 - 58, 80 - 1000 + 58)));
    world.set_height(Column(5, 5), -5000).unwrap();
    assert_eq!(slope(&world, Column(5, 5)), Ok((24 + 1000 - 58, 80 - 1000 + 58)));
    for x in 4..=6 {
        for z in 4..=6 {
            world.set_height(Column(x, z), if x == 6 { i32::MAX } else { i32::MIN }).unwrap();
        }
    }
    assert_eq!(slope(&world, Column(5, 5)), Ok((4 * (i32::MAX as i64 - i32::MIN as i64), 0)));
}

#[test]
fn the_slope_needs_all_columns_around() {
    let world = world();
    let loaded = world.loaded_area();
    assert_eq!(slope(&world, loaded.min), Err(WorldError::OutOfBounds));
    assert_eq!(slope(&world, loaded.max), Err(WorldError::OutOfBounds));
    assert_eq!(slope(&world, Column(loaded.min.0 + 1, loaded.min.1 + 1)), Ok((0, 0)));
    assert_eq!(slope(&world, Column(loaded.max.0 - 1, loaded.max.1 - 1)), Ok((0, 0)));
    assert_eq!(slope(&world, Column(i32::MAX, 0)), Err(WorldError::OutOfBounds));
    assert_eq!(slope(&world, Column(0, i32::MIN)), Err(WorldError::OutOfBounds));
}

#[test]
fn the_greatest_height_of_each_chunk() {
    let mut world = world();
    world.set_height(Column(3, 3), 70).unwrap();
    world.set_height(Column(4, 3), 75).unwrap();
    world.set_height(Column(16, 0), -3).unwrap();
    for x in -16..0 {
        for z in 0..16 {
            world.set_height(Column(x, z), -20 - x).unwrap();
        }
    }
    let heights = max_chunk_heights(&world);
    assert_eq!(heights.len(), world.chunks().len());
    for (i, (chunk, max)) in heights.iter().enumerate() {
        assert_eq!(*chunk, world.chunks()[i]);
        let expected = match chunk {
            ChunkIndex(0, 0) => 75,
            ChunkIndex(-1, 0) => -4,
            _ => 0,
        };
        assert_eq!(*max, expected, "{:?}", chunk);
    }
}
