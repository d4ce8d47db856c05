use mc_gen::block::{
    BellAttachment, Block, BlockMaterial, Color, DoorMeta, Half, LogType, SmallPlant, TallPlant,
    TreeSpecies,
};
use mc_gen::blockstate::Blockstate;
use mc_gen::decode::known_block;
use mc_gen::error::BlockError;
use mc_gen::geometry::{Axis, HDir};
use mc_gen::registry::{UnknownBlocks, MAX_UNKNOWN};

fn state(name: &str, props: &[(&str, &str)]) -> Blockstate {
    Blockstate(
        name.to_string(),
        props.iter().map(|(k, v)| (k.to_string(), v.to_string())).collect(),
    )
}

fn decode(name: &str, props: &[(&str, &str)]) -> Result<Block, BlockError> {
    let mut unknown = UnknownBlocks::new();
    let block = Block::from_blockstate(state(name, props), &mut unknown);
    assert_eq!(unknown.len(), 0, "{} must not reach the registry", name);
    block
}

#[test]
fn terrain_is_read_by_its_name() {
    assert_eq!(decode("air", &[]), Ok(Block::Air));
    assert_eq!(decode("cave_air", &[]), Ok(Block::Air));
    assert_eq!(decode("stone", &[]), Ok(Block::Full(BlockMaterial::Stone)));
    assert_eq!(decode("bricks", &[]), Ok(Block::Full(BlockMaterial::Brick)));
    assert_eq!(decode("grass_block", &[]), Ok(Block::Grass));
    assert_eq!(decode("bedrock", &[]), Ok(Block::Bedrock));
    assert_eq!(decode("oak_planks", &[]), Ok(Block::Full(BlockMaterial::Wood(TreeSpecies::Oak))));
    assert_eq!(decode("tall_seagrass", &[]), Ok(Block::Water));
    assert_eq!(decode("packed_mud", &[]), Ok(Block::PackedMud));
    assert_eq!(decode("coarse_dirt", &[]), Ok(Block::CoarseDirt));
    assert_eq!(decode("mossy_cobblestone", &[]), Ok(Block::Full(BlockMaterial::MossyCobble)));
    assert_eq!(
        decode("mossy_stone_bricks", &[]),
        Ok(Block::Full(BlockMaterial::MossyStonebrick))
    );
    assert_eq!(decode("blackstone", &[]), Ok(Block::Full(BlockMaterial::Blackstone)));
    assert_eq!(
        decode("polished_blackstone", &[]),
        Ok(Block::Full(BlockMaterial::PolishedBlackstone))
    );
    assert_eq!(
        decode("dark_oak_planks", &[]),
        Ok(Block::Full(BlockMaterial::Wood(TreeSpecies::DarkOak)))
    );
}

#[test]
fn water_needs_its_full_level() {
    assert_eq!(decode("water", &[("level", "0")]), Ok(Block::Water));
    assert_eq!(decode("water", &[("level", "3")]), Ok(Block::Air));
    assert_eq!(decode("water", &[("level", "00")]), Ok(Block::Air));
    assert_eq!(decode("water", &[]), Ok(Block::Water));
}

#[test]
fn dirt_is_read_by_its_variant() {
    assert_eq!(decode("dirt", &[]), Ok(Block::Dirt));
    assert_eq!(decode("dirt", &[("variant", "coarse_dirt")]), Ok(Block::CoarseDirt));
    let mut unknown = UnknownBlocks::new();
    let podzol = state("dirt", &[("variant", "podzol")]);
    assert_eq!(Block::from_blockstate(podzol.duplicate(), &mut unknown), Ok(Block::Other(0)));
    assert_eq!(unknown.resolve(0), Some(podzol));
}

#[test]
fn logs_and_leaves_are_read_with_their_properties() {
    assert_eq!(
        decode("spruce_log", &[("axis", "x")]),
        Ok(Block::Log(TreeSpecies::Spruce, LogType::Normal(Axis::X)))
    );
    assert_eq!(
        decode("stripped_oak_log", &[("axis", "z")]),
        Ok(Block::Log(TreeSpecies::Oak, LogType::Stripped(Axis::Z)))
    );
    assert_eq!(
        decode("birch_leaves", &[("persistent", "true")]),
        Ok(Block::Leaves(TreeSpecies::Birch, None))
    );
    assert_eq!(
        decode("birch_leaves", &[("distance", "4"), ("persistent", "false")]),
        Ok(Block::Leaves(TreeSpecies::Birch, Some(4)))
    );
    assert_eq!(
        decode("acacia_leaves", &[("persistent", "true")]),
        Ok(Block::Leaves(TreeSpecies::Acacia, None))
    );
}

#[test]
fn plants_are_read() {
    assert_eq!(decode("poppy", &[]), Ok(Block::SmallPlant(SmallPlant::Poppy)));
    assert_eq!(decode("seagrass", &[]), Ok(Block::SmallPlant(SmallPlant::Seagrass)));
    assert_eq!(
        decode("sunflower", &[("half", "upper")]),
        Ok(Block::TallPlant(TallPlant::Sunflower, Half::Top))
    );
    assert_eq!(
        decode("sunflower", &[("half", "lower")]),
        Ok(Block::TallPlant(TallPlant::Sunflower, Half::Bottom))
    );
    assert_eq!(decode("snow", &[("layers", "3")]), Ok(Block::SnowLayer));
}

#[test]
fn slabs_and_stairs_are_read() {
    assert_eq!(
        decode("oak_slab", &[("type", "top")]),
        Ok(Block::Slab(BlockMaterial::Wood(TreeSpecies::Oak), Half::Top))
    );
    assert_eq!(
        decode("oak_slab", &[("type", "bottom")]),
        Ok(Block::Slab(BlockMaterial::Wood(TreeSpecies::Oak), Half::Bottom))
    );
    assert_eq!(
        decode("mud_brick_slab", &[("type", "double")]),
        Ok(Block::Full(BlockMaterial::MudBrick))
    );
    assert_eq!(
        decode("stone_brick_stairs", &[("facing", "west"), ("half", "top")]),
        Ok(Block::Stair(BlockMaterial::StoneBrick, HDir::XNeg, Half::Top))
    );
    assert_eq!(decode("oak_fence", &[]), Ok(Block::Fence(BlockMaterial::Wood(TreeSpecies::Oak))));
    assert_eq!(
        decode("jungle_fence", &[]),
        Ok(Block::Fence(BlockMaterial::Wood(TreeSpecies::Jungle)))
    );
    assert_eq!(decode("cobblestone_wall", &[]), Ok(Block::Fence(BlockMaterial::MossyCobble)));
}

#[test]
fn fixtures_are_read() {
    assert_eq!(decode("cauldron", &[]), Ok(Block::Cauldron { water: 0 }));
    assert_eq!(decode("cauldron", &[("level", "2")]), Ok(Block::Cauldron { water: 2 }));
    assert_eq!(decode("barrel", &[("facing", "up")]), Ok(Block::Barrel));
    assert_eq!(
        decode("oak_trapdoor", &[("facing", "east"), ("half", "top"), ("open", "true")]),
        Ok(Block::Trapdoor(TreeSpecies::Oak, HDir::XPos, DoorMeta::new(true, true)))
    );
    assert_eq!(
        decode("spruce_door", &[("facing", "south"), ("half", "lower"), ("open", "false")]),
        Ok(Block::Door(TreeSpecies::Spruce, HDir::ZPos, DoorMeta::new(false, false)))
    );
    assert_eq!(
        decode("bell", &[("facing", "north"), ("attachment", "ceiling")]),
        Ok(Block::Bell(HDir::ZNeg, BellAttachment::Ceiling))
    );
    assert_eq!(
        decode("bell", &[("facing", "north"), ("attachment", "anything")]),
        Ok(Block::Bell(HDir::ZNeg, BellAttachment::DoubleWall))
    );
    assert_eq!(
        decode("white_wall_banner", &[("facing", "east")]),
        Ok(Block::WallBanner(HDir::XPos, Color::Red))
    );
    assert_eq!(decode("ladder", &[("facing", "west")]), Ok(Block::Ladder(HDir::XNeg)));
    assert_eq!(decode("lime_terracotta", &[]), Ok(Block::Terracotta(Some(Color::Lime))));
}

#[test]
fn a_missing_property_is_an_error() {
    assert_eq!(decode("oak_log", &[]), Err(BlockError::MissingProperty));
    assert_eq!(decode("oak_slab", &[]), Err(BlockError::MissingProperty));
    assert_eq!(decode("oak_stairs", &[("half", "top")]), Err(BlockError::MissingProperty));
    assert_eq!(decode("oak_stairs", &[("facing", "east")]), Err(BlockError::MissingProperty));
    assert_eq!(decode("oak_leaves", &[]), Err(BlockError::MissingProperty));
    assert_eq!(decode("oak_leaves", &[("persistent", "false")]), Err(BlockError::MissingProperty));
    assert_eq!(decode("ladder", &[]), Err(BlockError::MissingProperty));
    assert_eq!(decode("bell", &[("facing", "east")]), Err(BlockError::MissingProperty));
    assert_eq!(
        decode("oak_door", &[("facing", "east"), ("half", "upper")]),
        Err(BlockError::MissingProperty)
    );
}

#[test]
fn an_invalid_property_is_an_error() {
    assert_eq!(decode("oak_log", &[("axis", "w")]), Err(BlockError::InvalidProperty));
    assert_eq!(decode("ladder", &[("facing", "up")]), Err(BlockError::InvalidProperty));
    assert_eq!(
        decode("oak_leaves", &[("persistent", "false"), ("distance", "far")]),
        Err(BlockError::InvalidProperty)
    );
    assert_eq!(
        decode("oak_leaves", &[("persistent", "false"), ("distance", "128")]),
        Err(BlockError::InvalidProperty)
    );
    assert_eq!(decode("cauldron", &[("level", "full")]), Err(BlockError::InvalidProperty));
    assert_eq!(decode("cauldron", &[("level", "-1")]), Err(BlockError::InvalidProperty));
    assert_eq!(decode("cauldron", &[("level", "256")]), Err(BlockError::InvalidProperty));
}

#[test]
fn a_number_outside_its_domain_is_an_error() {
    assert_eq!(decode("cauldron", &[("level", "3")]), Ok(Block::Cauldron { water: 3 }));
    assert_eq!(decode("cauldron", &[("level", "4")]), Err(BlockError::OutOfDomain));
    assert_eq!(decode("cauldron", &[("level", "255")]), Err(BlockError::OutOfDomain));
}

#[test]
fn the_first_property_of_a_name_counts() {
    assert_eq!(
        decode("oak_log", &[("axis", "x"), ("axis", "z")]),
        Ok(Block::Log(TreeSpecies::Oak, LogType::Normal(Axis::X)))
    );
}

#[test]
fn the_table_tells_known_names_from_unknown() {
    assert_eq!(known_block("stone", &Vec::new()), Some(Ok(Block::Full(BlockMaterial::Stone))));
    assert_eq!(known_block("oak_log", &Vec::new()), Some(Err(BlockError::MissingProperty)));
    assert_eq!(known_block("lantern", &Vec::new()), None);
    assert_eq!(known_block("packed_mud", &Vec::new()), Some(Ok(Block::PackedMud)));
    assert_eq!(known_block("fence", &Vec::new()), None);
    assert_eq!(known_block("command_block", &Vec::new()), None);
    assert_eq!(known_block("", &Vec::new()), None);
    assert_eq!(known_block("Stone", &Vec::new()), None);
    assert_eq!(known_block("stone ", &Vec::new()), None);
}

#[test]
fn unknown_states_are_interned() {
    let mut unknown = UnknownBlocks::new();
    let lantern = state("lantern", &[("hanging", "false")]);
    let hanging = state("lantern", &[("hanging", "true")]);
    let first = Block::from_blockstate(lantern.duplicate(), &mut unknown);
    let second = Block::from_blockstate(hanging.duplicate(), &mut unknown);
    let again = Block::from_blockstate(lantern.duplicate(), &mut unknown);
    assert_eq!(first, Ok(Block::Other(0)));
    assert_eq!(second, Ok(Block::Other(1)));
    assert_eq!(again, first);
    assert_eq!(unknown.len(), 2);
    assert_eq!(unknown.resolve(0), Some(lantern.duplicate()));
    assert_eq!(unknown.resolve(1), Some(hanging));
    assert_eq!(unknown.resolve(2), None);
    assert_eq!(unknown.find(&lantern), Some(0));
    assert_eq!(unknown.find(&state("lantern", &[])), None);
}

#[test]
fn states_differ_by_the_order_of_their_properties() {
    let mut unknown = UnknownBlocks::new();
    let a = unknown.intern(state("chest", &[("facing", "east"), ("type", "single")])).unwrap();
    let b = unknown.intern(state("chest", &[("type", "single"), ("facing", "east")])).unwrap();
    assert_ne!(a, b);
}

#[test]
fn interning_twice_gives_the_same_index() {
    let mut unknown = UnknownBlocks::new();
    for round in 0..3 {
        for i in 0..50 {
            let name = format!("thing_{}", i);
            assert_eq!(unknown.intern(state(&name, &[])), Ok(i as u16), "round {}", round);
        }
    }
    assert_eq!(unknown.len(), 50);
    let copy = unknown.duplicate();
    assert_eq!(copy.len(), 50);
    assert_eq!(copy.resolve(49), Some(state("thing_49", &[])));
}

#[test]
fn a_full_registry_takes_no_new_state() {
    let mut unknown = UnknownBlocks::new();
    for i in 0..MAX_UNKNOWN {
        assert_eq!(unknown.intern(Blockstate(i.to_string(), Vec::new())), Ok(i as u16));
    }
    assert_eq!(unknown.len(), MAX_UNKNOWN);
    assert_eq!(unknown.intern(state("new", &[])), Err(BlockError::RegistryFull));
    assert_eq!(unknown.len(), MAX_UNKNOWN);
    assert_eq!(unknown.intern(state("65535", &[])), Ok(65535));
    assert_eq!(unknown.intern(state("0", &[])), Ok(0));
    let mut again = unknown.duplicate();
    assert_eq!(
        Block::from_blockstate(state("lantern", &[]), &mut again),
        Err(BlockError::RegistryFull)
    );
    assert_eq!(
        Block::from_blockstate(state("stone", &[]), &mut again),
        Ok(Block::Full(BlockMaterial::Stone))
    );
}

#[test]
fn the_namespace_is_taken_off_before_reading() {
    let mut unknown = UnknownBlocks::new();
    assert_eq!(
        Block::from_named("minecraft:stone", Vec::new(), &mut unknown),
        Ok(Block::Full(BlockMaterial::Stone))
    );
    assert_eq!(Block::from_named("minecraft:lantern", Vec::new(), &mut unknown), Ok(Block::Other(0)));
    assert_eq!(unknown.resolve(0), Some(state("lantern", &[])));
    assert_eq!(Block::from_named("lantern", Vec::new(), &mut unknown), Ok(Block::Other(0)));
    assert_eq!(Block::from_named("mod:lantern", Vec::new(), &mut unknown), Ok(Block::Other(1)));
}

fn read_write_read(name: &str, props: &[(&str, &str)]) -> (Result<Block, BlockError>, Result<Block, BlockError>) {
    let mut unknown = UnknownBlocks::new();
    let first = Block::from_blockstate(state(name, props), &mut unknown);
    let written = first.unwrap().blockstate(&unknown);
    let second = Block::from_blockstate(written, &mut unknown);
    (first, second)
}

#[test]
fn known_states_are_read_back_as_they_were_read() {
    let samples: Vec<(&str, Vec<(&str, &str)>)> = vec![
        ("air", vec![]),
        ("cave_air", vec![]),
        ("stone", vec![]),
        ("mud_bricks", vec![]),
        ("oak_planks", vec![]),
        ("dirt", vec![]),
        ("cherry_log", vec![("axis", "y")]),
        ("stripped_oak_log", vec![("axis", "x")]),
        ("azalea_leaves", vec![("persistent", "false"), ("distance", "-3")]),
        ("flowering_azalea_leaves", vec![("persistent", "yes")]),
        ("dandelion", vec![]),
        ("peony", vec![("half", "top")]),
        ("snow", vec![("layers", "8")]),
        ("cobblestone_wall", vec![]),
        ("mossy_cobblestone_wall", vec![]),
        ("polished_blackstone_slab", vec![("type", "top")]),
        ("cobblestone_slab", vec![("type", "double")]),
        ("dark_oak_stairs", vec![("facing", "north"), ("half", "upper")]),
        ("terracotta", vec![]),
        ("light_gray_terracotta", vec![]),
        ("muddy_mangrove_roots", vec![]),
        ("cauldron", vec![("level", "+2")]),
        ("cauldron", vec![]),
        ("barrel", vec![]),
        ("spruce_trapdoor", vec![("facing", "west"), ("half", "bottom"), ("open", "true")]),
        ("oak_door", vec![("facing", "west"), ("half", "upper"), ("open", "no")]),
        ("bell", vec![("facing", "east"), ("attachment", "floor")]),
        ("bell", vec![("facing", "east"), ("attachment", "odd")]),
        ("blue_wall_banner", vec![("facing", "south")]),
        ("ladder", vec![("facing", "north")]),
        ("water", vec![("level", "0")]),
        ("water", vec![("level", "7")]),
        ("water", vec![]),
        ("tall_seagrass", vec![]),
        ("packed_mud", vec![]),
        ("coarse_dirt", vec![]),
        ("dirt", vec![("variant", "coarse_dirt")]),
        ("acacia_leaves", vec![("persistent", "true")]),
        ("acacia_leaves", vec![("persistent", "false"), ("distance", "2")]),
        ("oak_fence", vec![]),
        ("spruce_fence", vec![]),
        ("birch_fence", vec![]),
        ("jungle_fence", vec![]),
        ("acacia_fence", vec![]),
        ("dark_oak_fence", vec![]),
        ("spruce_slab", vec![("type", "double")]),
        ("mossy_cobblestone_slab", vec![("type", "double")]),
        ("mossy_stone_brick_slab", vec![("type", "double")]),
        ("blackstone_slab", vec![("type", "double")]),
        ("polished_blackstone_slab", vec![("type", "double")]),
        ("mud_brick_slab", vec![("type", "double")]),
    ];
    for (name, props) in samples {
        let (first, second) = read_write_read(name, &props);
        assert!(first.is_ok(), "{}", name);
        assert_eq!(first, second, "{}", name);
    }
}

#[test]
fn blocks_that_are_read_under_several_names_are_read_back() {
    let (first, second) = read_write_read("water", &[("level", "0")]);
    assert_eq!(first, Ok(Block::Water));
    assert_eq!(second, Ok(Block::Water));
    let (first, second) = read_write_read("packed_mud", &[]);
    assert_eq!(first, Ok(Block::PackedMud));
    assert_eq!(second, Ok(Block::PackedMud));
    let (first, second) = read_write_read("oak_fence", &[]);
    assert_eq!(first, Ok(Block::Fence(BlockMaterial::Wood(TreeSpecies::Oak))));
    assert_eq!(second, first);
    let (first, second) = read_write_read("spruce_slab", &[("type", "double")]);
    assert_eq!(first, Ok(Block::Full(BlockMaterial::Wood(TreeSpecies::Spruce))));
    assert_eq!(second, first);
    let (first, second) = read_write_read("dirt", &[("variant", "coarse_dirt")]);
    assert_eq!(first, Ok(Block::CoarseDirt));
    assert_eq!(second, Ok(Block::CoarseDirt));
    let (first, second) = read_write_read("acacia_leaves", &[("persistent", "true")]);
    assert_eq!(first, Ok(Block::Leaves(TreeSpecies::Acacia, None)));
    assert_eq!(second, first);
}

#[test]
fn every_block_that_the_table_gives_is_written_under_a_name_of_the_table() {
    let blocks = vec![
        Block::Water,
        Block::PackedMud,
        Block::CoarseDirt,
        Block::Full(BlockMaterial::MossyCobble),
        Block::Full(BlockMaterial::MossyStonebrick),
        Block::Full(BlockMaterial::Blackstone),
        Block::Full(BlockMaterial::PolishedBlackstone),
        Block::Full(BlockMaterial::Cobble),
        Block::Full(BlockMaterial::Wood(TreeSpecies::Acacia)),
        Block::Leaves(TreeSpecies::Acacia, Some(3)),
        Block::Fence(BlockMaterial::Wood(TreeSpecies::Birch)),
        Block::Fence(BlockMaterial::MossyCobble),
    ];
    for block in blocks {
        let mut unknown = UnknownBlocks::new();
        let written = block.blockstate(&unknown);
        assert_eq!(Block::from_blockstate(written, &mut unknown), Ok(block), "{:?}", block);
        assert_eq!(unknown.len(), 0, "{:?}", block);
    }
}

#[test]
fn unknown_states_are_read_back_unchanged() {
    let mut unknown = UnknownBlocks::new();
    let chest = state("chest", &[("facing", "east"), ("waterlogged", "false")]);
    let block = Block::from_blockstate(chest.duplicate(), &mut unknown).unwrap();
    let written = block.blockstate(&unknown);
    assert_eq!(written, chest);
    assert_eq!(Block::from_blockstate(written, &mut unknown), Ok(block));
    assert_eq!(unknown.len(), 1);
}
