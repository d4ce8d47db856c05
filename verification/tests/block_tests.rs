use mc_gen::block::{
    BellAttachment, Block, BlockMaterial, Color, Crop, DoorMeta, GroundPlant, Half, LogType,
    SmallPlant, TallPlant, TreeSpecies,
};
use mc_gen::blockstate::Blockstate;
use mc_gen::geometry::{Axis, HAxis, HDir};
use mc_gen::registry::{debug_read_unknown, UnknownBlocks};

fn state(name: &str, props: &[(&str, &str)]) -> Blockstate {
    Blockstate(
        name.to_string(),
        props.iter().map(|(k, v)| (k.to_string(), v.to_string())).collect(),
    )
}

fn encode(block: Block) -> Blockstate {
    block.blockstate(&UnknownBlocks::new())
}

#[test]
fn plain_blocks_have_their_names() {
    assert_eq!(encode(Block::Air), state("air", &[]));
    assert_eq!(encode(Block::Grass), state("grass_block", &[]));
    assert_eq!(encode(Block::Path), state("grass_path", &[]));
    assert_eq!(encode(Block::PackedMud), state("packed_mud", &[]));
    assert_eq!(encode(Block::Hay), state("hay_block", &[]));
    assert_eq!(encode(Block::CraftingTable), state("crafting_table", &[]));
    assert_eq!(encode(Block::Terracotta(None)), state("terracotta", &[]));
    assert_eq!(encode(Block::GlassPane(None)), state("glass_pane", &[]));
}

#[test]
fn full_blocks_are_named_by_material() {
    assert_eq!(encode(Block::Full(BlockMaterial::Stone)), state("stone", &[]));
    assert_eq!(encode(Block::Full(BlockMaterial::Brick)), state("bricks", &[]));
    assert_eq!(encode(Block::Full(BlockMaterial::StoneBrick)), state("stone_bricks", &[]));
    assert_eq!(encode(Block::Full(BlockMaterial::MudBrick)), state("mud_bricks", &[]));
    assert_eq!(
        encode(Block::Full(BlockMaterial::PolishedBlackstoneBrick)),
        state("polished_blackstone_bricks", &[])
    );
    assert_eq!(
        encode(Block::Full(BlockMaterial::Wood(TreeSpecies::DarkOak))),
        state("dark_oak_planks", &[])
    );
    assert_eq!(encode(Block::Full(BlockMaterial::Cobble)), state("cobblestone", &[]));
}

#[test]
fn logs_carry_their_axis() {
    assert_eq!(
        encode(Block::Log(TreeSpecies::Oak, LogType::Normal(Axis::Y))),
        state("oak_log", &[("axis", "y")])
    );
    assert_eq!(
        encode(Block::Log(TreeSpecies::Warped, LogType::Normal(Axis::X))),
        state("warped_stem", &[("axis", "x")])
    );
    assert_eq!(
        encode(Block::Log(TreeSpecies::Crimson, LogType::FullBark)),
        state("crimson_hyphae", &[])
    );
    assert_eq!(
        encode(Block::Log(TreeSpecies::Birch, LogType::FullBark)),
        state("birch_wood", &[])
    );
    assert_eq!(
        encode(Block::Log(TreeSpecies::Spruce, LogType::Stripped(Axis::Z))),
        state("stripped_spruce_log", &[("axis", "z")])
    );
}

#[test]
fn leaves_carry_their_distance() {
    assert_eq!(
        encode(Block::Leaves(TreeSpecies::Oak, None)),
        state("oak_leaves", &[("persistent", "true")])
    );
    assert_eq!(
        encode(Block::Leaves(TreeSpecies::Jungle, Some(5))),
        state("jungle_leaves", &[("persistent", "false"), ("distance", "5")])
    );
    assert_eq!(
        encode(Block::Leaves(TreeSpecies::Jungle, Some(-128))),
        state("jungle_leaves", &[("persistent", "false"), ("distance", "-128")])
    );
    assert_eq!(
        encode(Block::Leaves(TreeSpecies::Jungle, Some(127))),
        state("jungle_leaves", &[("persistent", "false"), ("distance", "127")])
    );
}

#[test]
fn plants_have_their_names_and_halves() {
    assert_eq!(encode(Block::SmallPlant(SmallPlant::OxeyeDaisy)), state("oxeye_daisy", &[]));
    assert_eq!(
        encode(Block::TallPlant(TallPlant::Rose, Half::Top)),
        state("rose_bush", &[("half", "upper")])
    );
    assert_eq!(
        encode(Block::TallPlant(TallPlant::Grass, Half::Bottom)),
        state("tall_grass", &[("half", "lower")])
    );
    assert_eq!(
        encode(Block::GroundPlant(GroundPlant::Sapling(TreeSpecies::Cherry))),
        state("cherry_sapling", &[])
    );
    assert_eq!(encode(Block::GroundPlant(GroundPlant::Reeds)), state("sugar_cane", &[]));
    assert_eq!(
        encode(Block::GroundPlant(GroundPlant::Crop(Crop::Wheat))),
        state("wheat", &[("age", "7")])
    );
    assert_eq!(
        encode(Block::GroundPlant(GroundPlant::Crop(Crop::Beetroot))),
        state("beetroot", &[("age", "3")])
    );
}

#[test]
fn shaped_blocks_carry_their_orientation() {
    assert_eq!(
        encode(Block::Slab(BlockMaterial::MossyStonebrick, Half::Top)),
        state("mossy_stone_brick_slab", &[("type", "top")])
    );
    assert_eq!(
        encode(Block::Stair(BlockMaterial::Wood(TreeSpecies::Acacia), HDir::ZNeg, Half::Bottom)),
        state("acacia_stairs", &[("half", "bottom"), ("facing", "north")])
    );
    assert_eq!(
        encode(Block::Fence(BlockMaterial::Wood(TreeSpecies::Spruce))),
        state("spruce_fence", &[])
    );
    assert_eq!(encode(Block::Fence(BlockMaterial::Cobble)), state("cobblestone_wall", &[]));
    assert_eq!(encode(Block::Ladder(HDir::XPos)), state("ladder", &[("facing", "east")]));
    assert_eq!(encode(Block::Rail(HAxis::X)), state("rail", &[("shape", "north_south")]));
    assert_eq!(encode(Block::Rail(HAxis::Z)), state("rail", &[("shape", "east_west")]));
    assert_eq!(encode(Block::Stonecutter(HAxis::X)), state("stonecutter", &[("facing", "south")]));
    assert_eq!(encode(Block::Stonecutter(HAxis::Z)), state("stonecutter", &[("facing", "east")]));
}

#[test]
fn dyed_blocks_are_named_by_colour() {
    assert_eq!(encode(Block::Wool(Color::LightBlue)), state("light_blue_wool", &[]));
    assert_eq!(
        encode(Block::Terracotta(Some(Color::Magenta))),
        state("magenta_terracotta", &[])
    );
    assert_eq!(
        encode(Block::GlassPane(Some(Color::Black))),
        state("black_stained_glass_pane", &[])
    );
    assert_eq!(
        encode(Block::WallBanner(HDir::XNeg, Color::Red)),
        state("red_wall_banner", &[("facing", "west")])
    );
}

#[test]
fn fixtures_carry_their_state() {
    assert_eq!(encode(Block::Cauldron { water: 0 }), state("cauldron", &[("level", "0")]));
    assert_eq!(encode(Block::Cauldron { water: 3 }), state("cauldron", &[("level", "3")]));
    assert_eq!(
        encode(Block::Repeater(HDir::ZPos, 4)),
        state("repeater", &[("delay", "4"), ("facing", "south")])
    );
    assert_eq!(
        encode(Block::Trapdoor(TreeSpecies::Oak, HDir::XPos, DoorMeta::new(true, false))),
        state("oak_trapdoor", &[("facing", "east"), ("half", "top"), ("open", "false")])
    );
    assert_eq!(
        encode(Block::Door(TreeSpecies::Spruce, HDir::ZNeg, DoorMeta::new(true, true))),
        state("spruce_door", &[("facing", "north"), ("half", "upper"), ("open", "true")])
    );
    assert_eq!(
        encode(Block::Door(TreeSpecies::Spruce, HDir::ZNeg, DoorMeta::empty())),
        state("spruce_door", &[("facing", "north"), ("half", "lower"), ("open", "false")])
    );
    assert_eq!(
        encode(Block::Bell(HDir::XPos, BellAttachment::SingleWall)),
        state("bell", &[("facing", "east"), ("attachment", "single_wall")])
    );
    assert_eq!(encode(Block::SnowLayer), state("snow", &[("layers", "1")]));
}

#[test]
fn other_is_written_as_the_registry_holds_it() {
    let mut unknown = UnknownBlocks::new();
    let lantern = state("lantern", &[("hanging", "true")]);
    let index = unknown.intern(lantern.duplicate()).unwrap();
    assert_eq!(Block::Other(index).blockstate(&unknown), lantern);
    assert_eq!(debug_read_unknown(&unknown, index), lantern);
}

#[test]
fn validity_is_the_domain_of_the_numbers() {
    assert!(Block::Cauldron { water: 3 }.is_valid());
    assert!(!Block::Cauldron { water: 4 }.is_valid());
    assert!(!Block::Repeater(HDir::XPos, 0).is_valid());
    assert!(Block::Repeater(HDir::XPos, 1).is_valid());
    assert!(Block::Repeater(HDir::XPos, 4).is_valid());
    assert!(!Block::Repeater(HDir::XPos, 5).is_valid());
    assert!(Block::Air.is_valid());
    let unknown = UnknownBlocks::new();
    assert!(!Block::Other(0).is_encodable(&unknown));
    assert!(Block::Full(BlockMaterial::Stone).is_encodable(&unknown));
}

#[test]
fn solid_and_its_kin() {
    assert!(!Block::Air.solid());
    assert!(!Block::Water.solid());
    assert!(!Block::Leaves(TreeSpecies::Oak, None).solid());
    assert!(!Block::Ladder(HDir::XPos).solid());
    assert!(!Block::Rail(HAxis::X).solid());
    assert!(Block::Full(BlockMaterial::Stone).solid());
    assert!(Block::Log(TreeSpecies::Oak, LogType::FullBark).solid());
    assert!(Block::Other(7).solid());
    assert!(Block::Ladder(HDir::XPos).walkable());
    assert!(Block::Dirt.walkable());
    assert!(!Block::Water.walkable());
    assert!(Block::Ladder(HDir::XPos).climbable());
    assert!(!Block::Dirt.climbable());
    assert!(Block::Sand.soil());
    assert!(!Block::Sand.dirtsoil());
    assert!(Block::PackedMud.dirtsoil());
    assert!(!Block::Full(BlockMaterial::Stone).soil());
    assert!(Block::Lava.no_pathing());
    assert!(Block::GroundPlant(GroundPlant::Cactus).no_pathing());
    assert!(!Block::GroundPlant(GroundPlant::Pumpkin).no_pathing());
}

#[test]
fn ground_is_solid_and_no_log() {
    assert!(Block::Dirt.is_ground());
    assert!(!Block::Log(TreeSpecies::Oak, LogType::Normal(Axis::Y)).is_ground());
    assert!(!Block::Leaves(TreeSpecies::Oak, None).is_ground());
    assert!(!Block::Water.is_ground());
    assert!(Block::Water.is_water());
    assert!(!Block::Lava.is_water());
}

#[test]
fn a_quarter_turn_swaps_the_horizontal_axes_of_a_log() {
    let along_x = Block::Log(TreeSpecies::Oak, LogType::Normal(Axis::X));
    let along_z = Block::Log(TreeSpecies::Oak, LogType::Normal(Axis::Z));
    let upright = Block::Log(TreeSpecies::Oak, LogType::Normal(Axis::Y));
    assert_eq!(along_x.rotated(1), along_z);
    assert_eq!(along_z.rotated(1), along_x);
    assert_eq!(along_x.rotated(1).rotated(1), along_x);
    assert_eq!(along_x.rotated(2), along_x);
    assert_eq!(along_x.rotated(3), along_z);
    assert_eq!(along_x.rotated(-1), along_z);
    assert_eq!(along_x.rotated(4), along_x);
    assert_eq!(upright.rotated(1), upright);
    assert_eq!(
        Block::Log(TreeSpecies::Oak, LogType::Stripped(Axis::X)).rotated(1),
        Block::Log(TreeSpecies::Oak, LogType::Stripped(Axis::Z))
    );
    assert_eq!(
        Block::Log(TreeSpecies::Oak, LogType::FullBark).rotated(1),
        Block::Log(TreeSpecies::Oak, LogType::FullBark)
    );
}

#[test]
fn turning_moves_directions_clockwise() {
    assert_eq!(HDir::XPos.rotated(1), HDir::ZPos);
    assert_eq!(HDir::ZPos.rotated(1), HDir::XNeg);
    assert_eq!(HDir::XNeg.rotated(1), HDir::ZNeg);
    assert_eq!(HDir::ZNeg.rotated(1), HDir::XPos);
    assert_eq!(HDir::XPos.rotated(-1), HDir::ZNeg);
    assert_eq!(HDir::XPos.rotated(6), HDir::XNeg);
    assert_eq!(HDir::XPos.rotated(i32::MIN), HDir::XPos);
    assert_eq!(
        Block::Stair(BlockMaterial::Stone, HDir::XPos, Half::Top).rotated(1),
        Block::Stair(BlockMaterial::Stone, HDir::ZPos, Half::Top)
    );
    assert_eq!(
        Block::Door(TreeSpecies::Oak, HDir::ZNeg, DoorMeta::empty()).rotated(2),
        Block::Door(TreeSpecies::Oak, HDir::ZPos, DoorMeta::empty())
    );
    assert_eq!(Block::Rail(HAxis::X).rotated(1), Block::Rail(HAxis::Z));
    assert_eq!(Block::Rail(HAxis::X).rotated(2), Block::Rail(HAxis::X));
}

#[test]
fn turning_leaves_blocks_without_orientation_alone() {
    for turns in -5..=5 {
        assert_eq!(Block::Air.rotated(turns), Block::Air);
        assert_eq!(Block::Full(BlockMaterial::Stone).rotated(turns), Block::Full(BlockMaterial::Stone));
        assert_eq!(Block::Wool(Color::Red).rotated(turns), Block::Wool(Color::Red));
        assert_eq!(Block::Other(3).rotated(turns), Block::Other(3));
        assert_eq!(Block::Ladder(HDir::XPos).rotated(turns), Block::Ladder(HDir::XPos));
    }
}

#[test]
fn oak_is_swapped_for_another_wood() {
    let birch = TreeSpecies::Birch;
    assert_eq!(
        Block::Full(BlockMaterial::Wood(TreeSpecies::Oak)).swap_wood_type(birch),
        Block::Full(BlockMaterial::Wood(birch))
    );
    assert_eq!(
        Block::Log(TreeSpecies::Oak, LogType::FullBark).swap_wood_type(birch),
        Block::Log(birch, LogType::FullBark)
    );
    assert_eq!(
        Block::Leaves(TreeSpecies::Oak, Some(2)).swap_wood_type(birch),
        Block::Leaves(birch, Some(2))
    );
    assert_eq!(
        Block::Full(BlockMaterial::Wood(TreeSpecies::Spruce)).swap_wood_type(birch),
        Block::Full(BlockMaterial::Wood(TreeSpecies::Spruce))
    );
    assert_eq!(Block::Full(BlockMaterial::Stone).swap_wood_type(birch), Block::Full(BlockMaterial::Stone));
}

#[test]
fn or_prefers_the_solid_block() {
    assert_eq!(Block::Dirt | Block::Sand, Block::Dirt);
    assert_eq!(Block::Air | Block::Sand, Block::Sand);
    assert_eq!(Block::Water | Block::Air, Block::Air);
    let mut block = Block::Water;
    block |= Block::Sand;
    assert_eq!(block, Block::Sand);
    block |= Block::Dirt;
    assert_eq!(block, Block::Sand);
}

#[test]
fn names_of_species_colours_and_materials() {
    assert_eq!(TreeSpecies::FloweringAzalea.to_str(), "flowering_azalea");
    assert_eq!(TreeSpecies::DarkOak.to_str(), "dark_oak");
    assert_eq!(Color::LightGray.to_str(), "light_gray");
    assert_eq!(BlockMaterial::Wood(TreeSpecies::Mangrove).to_str(), "mangrove");
    assert_eq!(BlockMaterial::SmoothRedSandstone.to_str(), "smooth_red_sandstone");
    assert_eq!(BlockMaterial::Cobble.to_str(), "cobblestone");
    assert_eq!(Axis::Y.to_str(), "y");
    assert_eq!(Axis::from_str("z"), Some(Axis::Z));
    assert_eq!(Axis::from_str("w"), None);
    assert_eq!(HDir::from_str("south"), Some(HDir::ZPos));
    assert_eq!(HDir::from_str("up"), None);
    assert_eq!(HDir::ZNeg.to_str(), "north");
}

#[test]
fn a_state_is_written_as_an_item_and_in_readable_form() {
    let stairs = state("oak_stairs", &[("half", "top"), ("facing", "east")]);
    assert_eq!(
        stairs.item_snbt(),
        "{id:\"oak_stairs\",Count:1,tag:{BlockStateTag:{half:\"top\",facing:\"east\",}}}"
    );
    assert_eq!(stairs.display(), "oak_stairs[half=top,facing=east,]");
    let stone = state("stone", &[]);
    assert_eq!(stone.item_snbt(), "{id:\"stone\",Count:1,tag:{BlockStateTag:{}}}");
    assert_eq!(stone.display(), "stone[]");
    assert!(stone.same_as(&state("stone", &[])));
    assert!(!stone.same_as(&stairs));
    assert!(!stairs.same_as(&state("oak_stairs", &[("facing", "east"), ("half", "top")])));
}

#[test]
fn the_default_block_is_air() {
    assert_eq!(Block::default(), Block::Air);
}

#[test]
fn doors_know_their_half_and_opening() {
    for top in [false, true] {
        for open in [false, true] {
            let meta = DoorMeta::new(top, open);
            assert_eq!(meta.top(), top);
            assert_eq!(meta.open(), open);
        }
    }
    assert_eq!(DoorMeta::empty(), DoorMeta::new(false, false));
    assert_eq!(DoorMeta::new(true, true), DoorMeta::TopOpen);
}
