use mc_gen::block::{Block, BlockMaterial, Crop, GroundPlant, SmallPlant, TreeSpecies};
use mc_gen::error::WorldError;
use mc_gen::geometry::{Column, Pos, Rect};
use mc_gen::remove_foliage::ground;
use mc_gen::view::WorldView;
use mc_gen::world::World;

const STONE: Block = Block::Full(BlockMaterial::Stone);
const CACTUS: Block = Block::GroundPlant(GroundPlant::Cactus);

fn rect(min: (i32, i32), max: (i32, i32)) -> Rect {
    Rect { min: Column(min.0, min.1), max: Column(max.0, max.1) }
}

fn world() -> World {
    World::new(rect((0, 0), (15, 15))).unwrap()
}

fn build_tower<W: WorldView>(view: &mut W, column: Column, height: i32) -> Result<(), WorldError> {
    for y in 0..height {
        view.set(column.at(y), STONE)?;
    }
    view.set_height(column, height - 1)
}

#[test]
fn building_goes_through_the_view() {
    let mut world = world();
    assert_eq!(build_tower(&mut world, Column(3, 4), 5), Ok(()));
    assert_eq!(WorldView::get(&world, Pos(3, 4, 4)), Ok(STONE));
    assert_eq!(WorldView::get(&world, Pos(3, 5, 4)), Ok(Block::Air));
    assert_eq!(WorldView::height(&world, Column(3, 4)), Ok(4));
    assert_eq!(WorldView::water_level(&world, Column(3, 4)), Ok(None));
    assert_eq!(WorldView::area(&world), world.area());
    assert_eq!(build_tower(&mut world, Column(300, 4), 5), Err(WorldError::OutOfBounds));
    assert_eq!(WorldView::set_if_not_solid(&mut world, Pos(3, 4, 4), Block::Sand), Ok(()));
    assert_eq!(world.get(Pos(3, 4, 4)), Ok(STONE));
    assert_eq!(WorldView::set_override(&mut world, Pos(3, 4, 4), Block::Sand), Ok(()));
    assert_eq!(world.get(Pos(3, 4, 4)), Ok(Block::Sand));
    assert_eq!(WorldView::set_water_level(&mut world, Column(3, 4), Some(9)), Ok(()));
    assert_eq!(world.water_level(Column(3, 4)), Ok(Some(9)));
    assert!(WorldView::biome(&world, Column(3, 4)).is_ok());
}

#[test]
fn plants_on_the_ground_are_cleared() {
    let mut world = world();
    let column = Column(2, 3);
    world.set(column.at(10), Block::Dirt).unwrap();
    world.set(column.at(11), CACTUS).unwrap();
    world.set(column.at(12), CACTUS).unwrap();
    world.set(column.at(13), CACTUS).unwrap();
    world.set_height(column, 10).unwrap();
    let sapling = Block::GroundPlant(GroundPlant::Sapling(TreeSpecies::Oak));
    world.set(Pos(3, 1, 3), sapling).unwrap();
    world.set(Pos(3, 0, 3), Block::GroundPlant(GroundPlant::Crop(Crop::Wheat))).unwrap();
    world.set(Pos(4, 2, 3), Block::SmallPlant(SmallPlant::Poppy)).unwrap();
    world.set(Pos(5, 2, 3), STONE).unwrap();
    assert_eq!(ground(&mut world, rect((0, 0), (15, 15))), Ok(()));
    assert_eq!(world.get(column.at(10)), Ok(Block::Dirt));
    assert_eq!(world.get(column.at(11)), Ok(Block::Air));
    assert_eq!(world.get(column.at(12)), Ok(Block::Air));
    assert_eq!(world.get(column.at(13)), Ok(CACTUS));
    assert_eq!(world.get(Pos(3, 1, 3)), Ok(Block::Air));
    assert_eq!(world.get(Pos(3, 0, 3)), Ok(Block::GroundPlant(GroundPlant::Crop(Crop::Wheat))));
    assert_eq!(world.get(Pos(4, 2, 3)), Ok(Block::SmallPlant(SmallPlant::Poppy)));
    assert_eq!(world.get(Pos(5, 2, 3)), Ok(STONE));
    assert_eq!(world.height(column), Ok(10));
}

#[test]
fn plants_are_looked_for_above_the_water() {
    let mut world = world();
    let column = Column(7, 7);
    world.set_height(column, 50).unwrap();
    world.set_water_level(column, Some(62)).unwrap();
    for y in [51, 52, 63, 64, 65] {
        world.set(column.at(y), CACTUS).unwrap();
    }
    assert_eq!(ground(&mut world, rect((7, 7), (7, 7))), Ok(()));
    assert_eq!(world.get(column.at(51)), Ok(CACTUS));
    assert_eq!(world.get(column.at(52)), Ok(CACTUS));
    assert_eq!(world.get(column.at(63)), Ok(Block::Air));
    assert_eq!(world.get(column.at(64)), Ok(Block::Air));
    assert_eq!(world.get(column.at(65)), Ok(CACTUS));
}

#[test]
fn plants_outside_of_the_area_stay() {
    let mut world = world();
    for x in 0..4 {
        world.set(Pos(x, 1, 0), CACTUS).unwrap();
    }
    assert_eq!(ground(&mut world, rect((1, 0), (2, 0))), Ok(()));
    assert_eq!(world.get(Pos(0, 1, 0)), Ok(CACTUS));
    assert_eq!(world.get(Pos(1, 1, 0)), Ok(Block::Air));
    assert_eq!(world.get(Pos(2, 1, 0)), Ok(Block::Air));
    assert_eq!(world.get(Pos(3, 1, 0)), Ok(CACTUS));
    assert_eq!(ground(&mut world, rect((3, 0), (0, 0))), Ok(()));
    assert_eq!(world.get(Pos(3, 1, 0)), Ok(CACTUS));
}

#[test]
fn ground_at_the_edges_of_the_heights() {
    let mut world = world();
    world.set(Pos(0, -64, 0), CACTUS).unwrap();
    world.set(Pos(0, 319, 0), CACTUS).unwrap();
    world.set_height(Column(0, 0), -66).unwrap();
    assert_eq!(ground(&mut world, rect((0, 0), (0, 0))), Ok(()));
    assert_eq!(world.get(Pos(0, -64, 0)), Ok(Block::Air));
    assert_eq!(world.get(Pos(0, 319, 0)), Ok(CACTUS));
    world.set_height(Column(0, 0), 318).unwrap();
    assert_eq!(ground(&mut world, rect((0, 0), (0, 0))), Ok(()));
    assert_eq!(world.get(Pos(0, 319, 0)), Ok(Block::Air));
    world.set(Pos(0, 319, 0), CACTUS).unwrap();
    for height in [i32::MAX, i32::MIN, 319, 320, -67] {
        world.set_height(Column(0, 0), height).unwrap();
        assert_eq!(ground(&mut world, rect((0, 0), (0, 0))), Ok(()));
        assert_eq!(world.get(Pos(0, 319, 0)), Ok(CACTUS));
    }
}

#[test]
fn an_area_that_the_world_does_not_hold_is_an_error() {
    let mut world = world();
    world.set(Pos(0, 1, 0), CACTUS).unwrap();
    assert_eq!(ground(&mut world, rect((0, 0), (100, 0))), Err(WorldError::OutOfBounds));
    assert_eq!(ground(&mut world, rect((-100, 0), (0, 0))), Err(WorldError::OutOfBounds));
    assert_eq!(world.get(Pos(0, 1, 0)), Ok(CACTUS));
    let loaded = world.loaded_area();
    assert_eq!(ground(&mut world, loaded), Ok(()));
    assert_eq!(world.get(Pos(0, 1, 0)), Ok(Block::Air));
}
