//! Reading back what was written: a state that the table knows gives a
//! block that is written as a state, and as a tag, from which the same
//! block is read.

use crate::block::{Block, BlockMaterial, Color, LogType, SmallPlant, TallPlant, TreeSpecies};
use crate::blockstate::{spec_prop, StateView};
use crate::decode::{
    spec_bell, spec_cauldron, spec_decode, spec_dirt, spec_door, spec_known_block,
    spec_known_decor, spec_known_fixtures, spec_known_plants, spec_known_shapes,
    spec_known_terrain, spec_known_wood, spec_ladder, spec_leaves, spec_log, spec_slab, spec_stair,
    spec_strip_namespace, spec_tall_plant, spec_trapdoor, spec_wall_banner, spec_water,
};
use crate::encode::{spec_block_name, spec_block_props, spec_blockstate};
use crate::error::BlockError;
use crate::registry::{lemma_intern_keeps, lemma_intern_resolves, spec_intern, MAX_UNKNOWN};
use crate::geometry::{Axis, HDir};
use crate::names::{
    lemma_marks_decor, lemma_marks_fixtures, lemma_marks_plants, lemma_marks_properties,
    lemma_marks_shapes, lemma_marks_terrain, lemma_marks_values, lemma_marks_wood, spec_char_at,
    spec_mark,
};
use crate::tags::{
    lemma_state_tag_reads_back, spec_distinct_keys, spec_state_from_nbt, spec_state_nbt, NbtValue,
};
use crate::text::{lemma_parse_format_small, spec_starts_with};
use vstd::prelude::*;

verus! {

/// What the table gives for a name whose row is one block.
pub open spec fn spec_hit(block: Block) -> Option<Result<Block, BlockError>> {
    Some(Ok(block))
}

/// What the table gives for each of its names for ground, stone and fluids.
proof fn lemma_rows_terrain(name: Seq<char>, props: Seq<(Seq<char>, Seq<char>)>)
    ensures
        ({
            let hit = spec_known_block(name, props);
            &&& name == "air"@ ==> hit == spec_hit(Block::Air)
            &&& name == "cave_air"@ ==> hit == spec_hit(Block::Air)
            &&& name == "water"@ ==> hit == Some(spec_water(props))
            &&& name == "tall_seagrass"@ ==> hit == spec_hit(Block::Water)
            &&& name == "stone"@ ==> hit == spec_hit(Block::Full(BlockMaterial::Stone))
            &&& name == "granite"@ ==> hit == spec_hit(Block::Full(BlockMaterial::Granite))
            &&& name == "diorite"@ ==> hit == spec_hit(Block::Full(BlockMaterial::Diorite))
            &&& name == "andesite"@ ==> hit == spec_hit(Block::Full(BlockMaterial::Andesite))
            &&& name == "cobblestone"@ ==> hit == spec_hit(Block::Full(BlockMaterial::Cobble))
            &&& name == "bricks"@ ==> hit == spec_hit(Block::Full(BlockMaterial::Brick))
            &&& name == "stone_bricks"@ ==> hit == spec_hit(Block::Full(BlockMaterial::StoneBrick))
            &&& name == "mud_bricks"@ ==> hit == spec_hit(Block::Full(BlockMaterial::MudBrick))
            &&& name == "packed_mud"@ ==> hit == spec_hit(Block::PackedMud)
            &&& name == "bedrock"@ ==> hit == spec_hit(Block::Bedrock)
            &&& name == "gravel"@ ==> hit == spec_hit(Block::Gravel)
            &&& name == "grass_block"@ ==> hit == spec_hit(Block::Grass)
            &&& name == "sand"@ ==> hit == spec_hit(Block::Sand)
            &&& name == "dirt"@ ==> hit == spec_dirt(props)
            &&& name == "coarse_dirt"@ ==> hit == spec_hit(Block::CoarseDirt)
            &&& name == "mossy_cobblestone"@ ==> hit
                == spec_hit(Block::Full(BlockMaterial::MossyCobble))
            &&& name == "mossy_stone_bricks"@ ==> hit
                == spec_hit(Block::Full(BlockMaterial::MossyStonebrick))
            &&& name == "blackstone"@ ==> hit == spec_hit(Block::Full(BlockMaterial::Blackstone))
            &&& name == "polished_blackstone"@ ==> hit
                == spec_hit(Block::Full(BlockMaterial::PolishedBlackstone))
            &&& name == "oak_planks"@ ==> hit
                == spec_hit(Block::Full(BlockMaterial::Wood(TreeSpecies::Oak)))
            &&& name == "spruce_planks"@ ==> hit
                == spec_hit(Block::Full(BlockMaterial::Wood(TreeSpecies::Spruce)))
            &&& name == "birch_planks"@ ==> hit
                == spec_hit(Block::Full(BlockMaterial::Wood(TreeSpecies::Birch)))
            &&& name == "jungle_planks"@ ==> hit
                == spec_hit(Block::Full(BlockMaterial::Wood(TreeSpecies::Jungle)))
            &&& name == "acacia_planks"@ ==> hit
                == spec_hit(Block::Full(BlockMaterial::Wood(TreeSpecies::Acacia)))
            &&& name == "dark_oak_planks"@ ==> hit
                == spec_hit(Block::Full(BlockMaterial::Wood(TreeSpecies::DarkOak)))
        }),
{
    lemma_marks_terrain();
    lemma_marks_wood();
    lemma_marks_plants();
    lemma_marks_shapes();
    lemma_marks_decor();
    lemma_marks_fixtures();
}

/// What the table gives for each of its names for trunks and leaves.
proof fn lemma_rows_wood(name: Seq<char>, props: Seq<(Seq<char>, Seq<char>)>)
    ensures
        ({
            let hit = spec_known_block(name, props);
            &&& name == "oak_log"@ ==> hit == Some(spec_log(TreeSpecies::Oak, false, props))
            &&& name == "spruce_log"@ ==> hit == Some(spec_log(TreeSpecies::Spruce, false, props))
            &&& name == "birch_log"@ ==> hit == Some(spec_log(TreeSpecies::Birch, false, props))
            &&& name == "jungle_log"@ ==> hit == Some(spec_log(TreeSpecies::Jungle, false, props))
            &&& name == "acacia_log"@ ==> hit == Some(spec_log(TreeSpecies::Acacia, false, props))
            &&& name == "dark_oak_log"@ ==> hit
                == Some(spec_log(TreeSpecies::DarkOak, false, props))
            &&& name == "mangrove_log"@ ==> hit
                == Some(spec_log(TreeSpecies::Mangrove, false, props))
            &&& name == "cherry_log"@ ==> hit == Some(spec_log(TreeSpecies::Cherry, false, props))
            &&& name == "stripped_oak_log"@ ==> hit == Some(spec_log(TreeSpecies::Oak, true, props))
            &&& name == "oak_leaves"@ ==> hit == Some(spec_leaves(TreeSpecies::Oak, props))
            &&& name == "spruce_leaves"@ ==> hit == Some(spec_leaves(TreeSpecies::Spruce, props))
            &&& name == "birch_leaves"@ ==> hit == Some(spec_leaves(TreeSpecies::Birch, props))
            &&& name == "jungle_leaves"@ ==> hit == Some(spec_leaves(TreeSpecies::Jungle, props))
            &&& name == "acacia_leaves"@ ==> hit == Some(spec_leaves(TreeSpecies::Acacia, props))
            &&& name == "dark_oak_leaves"@ ==> hit == Some(spec_leaves(TreeSpecies::DarkOak, props))
            &&& name == "azalea_leaves"@ ==> hit == Some(spec_leaves(TreeSpecies::Azalea, props))
            &&& name == "flowering_azalea_leaves"@ ==> hit
                == Some(spec_leaves(TreeSpecies::FloweringAzalea, props))
        }),
{
    lemma_marks_terrain();
    lemma_marks_wood();
}

/// What the table gives for each of its names for plants and snow.
proof fn lemma_rows_plants(name: Seq<char>, props: Seq<(Seq<char>, Seq<char>)>)
    ensures
        ({
            let hit = spec_known_block(name, props);
            &&& name == "grass"@ ==> hit == spec_hit(Block::SmallPlant(SmallPlant::Grass))
            &&& name == "fern"@ ==> hit == spec_hit(Block::SmallPlant(SmallPlant::Fern))
            &&& name == "dead_bush"@ ==> hit == spec_hit(Block::SmallPlant(SmallPlant::DeadBush))
            &&& name == "brown_mushroom"@ ==> hit
                == spec_hit(Block::SmallPlant(SmallPlant::BrownMushroom))
            &&& name == "red_mushroom"@ ==> hit
                == spec_hit(Block::SmallPlant(SmallPlant::RedMushroom))
            &&& name == "dandelion"@ ==> hit == spec_hit(Block::SmallPlant(SmallPlant::Dandelion))
            &&& name == "poppy"@ ==> hit == spec_hit(Block::SmallPlant(SmallPlant::Poppy))
            &&& name == "cornflower"@ ==> hit == spec_hit(Block::SmallPlant(SmallPlant::Cornflower))
            &&& name == "blue_orchid"@ ==> hit
                == spec_hit(Block::SmallPlant(SmallPlant::BlueOrchid))
            &&& name == "allium"@ ==> hit == spec_hit(Block::SmallPlant(SmallPlant::Allium))
            &&& name == "azure_bluet"@ ==> hit
                == spec_hit(Block::SmallPlant(SmallPlant::AzureBluet))
            &&& name == "red_tulip"@ ==> hit == spec_hit(Block::SmallPlant(SmallPlant::RedTulip))
            &&& name == "orange_tulip"@ ==> hit
                == spec_hit(Block::SmallPlant(SmallPlant::OrangeTulip))
            &&& name == "white_tulip"@ ==> hit
                == spec_hit(Block::SmallPlant(SmallPlant::WhiteTulip))
            &&& name == "pink_tulip"@ ==> hit == spec_hit(Block::SmallPlant(SmallPlant::PinkTulip))
            &&& name == "oxeye_daisy"@ ==> hit
                == spec_hit(Block::SmallPlant(SmallPlant::OxeyeDaisy))
            &&& name == "seagrass"@ ==> hit == spec_hit(Block::SmallPlant(SmallPlant::Seagrass))
            &&& name == "tall_grass"@ ==> hit == Some(spec_tall_plant(TallPlant::Grass, props))
            &&& name == "large_fern"@ ==> hit == Some(spec_tall_plant(TallPlant::Fern, props))
            &&& name == "sunflower"@ ==> hit == Some(spec_tall_plant(TallPlant::Sunflower, props))
            &&& name == "lilac"@ ==> hit == Some(spec_tall_plant(TallPlant::Lilac, props))
            &&& name == "rose_bush"@ ==> hit == Some(spec_tall_plant(TallPlant::Rose, props))
            &&& name == "peony"@ ==> hit == Some(spec_tall_plant(TallPlant::Peony, props))
            &&& name == "snow"@ ==> hit == spec_hit(Block::SnowLayer)
        }),
{
    lemma_marks_terrain();
    lemma_marks_wood();
    lemma_marks_plants();
}

/// What the table gives for each of its names for fences, walls, slabs and stairs.
proof fn lemma_rows_shapes(name: Seq<char>, props: Seq<(Seq<char>, Seq<char>)>)
    ensures
        ({
            let hit = spec_known_block(name, props);
            &&& name == "oak_fence"@ ==> hit
                == spec_hit(Block::Fence(BlockMaterial::Wood(TreeSpecies::Oak)))
            &&& name == "spruce_fence"@ ==> hit
                == spec_hit(Block::Fence(BlockMaterial::Wood(TreeSpecies::Spruce)))
            &&& name == "birch_fence"@ ==> hit
                == spec_hit(Block::Fence(BlockMaterial::Wood(TreeSpecies::Birch)))
            &&& name == "jungle_fence"@ ==> hit
                == spec_hit(Block::Fence(BlockMaterial::Wood(TreeSpecies::Jungle)))
            &&& name == "acacia_fence"@ ==> hit
                == spec_hit(Block::Fence(BlockMaterial::Wood(TreeSpecies::Acacia)))
            &&& name == "dark_oak_fence"@ ==> hit
                == spec_hit(Block::Fence(BlockMaterial::Wood(TreeSpecies::DarkOak)))
            &&& name == "cobblestone_wall"@ ==> hit
                == spec_hit(Block::Fence(BlockMaterial::MossyCobble))
            &&& name == "mossy_cobblestone_wall"@ ==> hit
                == spec_hit(Block::Fence(BlockMaterial::MossyCobble))
            &&& name == "oak_slab"@ ==> hit
                == Some(spec_slab(BlockMaterial::Wood(TreeSpecies::Oak), props))
            &&& name == "spruce_slab"@ ==> hit
                == Some(spec_slab(BlockMaterial::Wood(TreeSpecies::Spruce), props))
            &&& name == "birch_slab"@ ==> hit
                == Some(spec_slab(BlockMaterial::Wood(TreeSpecies::Birch), props))
            &&& name == "jungle_slab"@ ==> hit
                == Some(spec_slab(BlockMaterial::Wood(TreeSpecies::Jungle), props))
            &&& name == "acacia_slab"@ ==> hit
                == Some(spec_slab(BlockMaterial::Wood(TreeSpecies::Acacia), props))
            &&& name == "dark_oak_slab"@ ==> hit
                == Some(spec_slab(BlockMaterial::Wood(TreeSpecies::DarkOak), props))
            &&& name == "cobblestone_slab"@ ==> hit == Some(spec_slab(BlockMaterial::Cobble, props))
            &&& name == "mossy_cobblestone_slab"@ ==> hit
                == Some(spec_slab(BlockMaterial::MossyCobble, props))
            &&& name == "stone_brick_slab"@ ==> hit
                == Some(spec_slab(BlockMaterial::StoneBrick, props))
            &&& name == "mossy_stone_brick_slab"@ ==> hit
                == Some(spec_slab(BlockMaterial::MossyStonebrick, props))
            &&& name == "blackstone_slab"@ ==> hit
                == Some(spec_slab(BlockMaterial::Blackstone, props))
            &&& name == "polished_blackstone_slab"@ ==> hit
                == Some(spec_slab(BlockMaterial::PolishedBlackstone, props))
            &&& name == "mud_brick_slab"@ ==> hit == Some(spec_slab(BlockMaterial::MudBrick, props))
            &&& name == "oak_stairs"@ ==> hit
                == Some(spec_stair(BlockMaterial::Wood(TreeSpecies::Oak), props))
            &&& name == "spruce_stairs"@ ==> hit
                == Some(spec_stair(BlockMaterial::Wood(TreeSpecies::Spruce), props))
            &&& name == "birch_stairs"@ ==> hit
                == Some(spec_stair(BlockMaterial::Wood(TreeSpecies::Birch), props))
            &&& name == "jungle_stairs"@ ==> hit
                == Some(spec_stair(BlockMaterial::Wood(TreeSpecies::Jungle), props))
            &&& name == "acacia_stairs"@ ==> hit
                == Some(spec_stair(BlockMaterial::Wood(TreeSpecies::Acacia), props))
            &&& name == "dark_oak_stairs"@ ==> hit
                == Some(spec_stair(BlockMaterial::Wood(TreeSpecies::DarkOak), props))
            &&& name == "cobblestone_stairs"@ ==> hit
                == Some(spec_stair(BlockMaterial::Cobble, props))
            &&& name == "stone_brick_stairs"@ ==> hit
                == Some(spec_stair(BlockMaterial::StoneBrick, props))
            &&& name == "blackstone_stairs"@ ==> hit
                == Some(spec_stair(BlockMaterial::Blackstone, props))
            &&& name == "mud_brick_stairs"@ ==> hit
                == Some(spec_stair(BlockMaterial::MudBrick, props))
        }),
{
    lemma_marks_terrain();
    lemma_marks_wood();
    lemma_marks_plants();
    lemma_marks_shapes();
}

/// What the table gives for each of its names for terracotta and what grows in swamps.
proof fn lemma_rows_decor(name: Seq<char>, props: Seq<(Seq<char>, Seq<char>)>)
    ensures
        ({
            let hit = spec_known_block(name, props);
            &&& name == "terracotta"@ ==> hit == spec_hit(Block::Terracotta(None))
            &&& name == "mushroom_stem"@ ==> hit == spec_hit(Block::MushroomStem)
            &&& name == "mangrove_roots"@ ==> hit == spec_hit(Block::MangroveRoots)
            &&& name == "muddy_mangrove_roots"@ ==> hit == spec_hit(Block::MuddyMangroveRoots)
            &&& name == "white_terracotta"@ ==> hit
                == spec_hit(Block::Terracotta(Some(Color::White)))
            &&& name == "orange_terracotta"@ ==> hit
                == spec_hit(Block::Terracotta(Some(Color::Orange)))
            &&& name == "magenta_terracotta"@ ==> hit
                == spec_hit(Block::Terracotta(Some(Color::Magenta)))
            &&& name == "light_blue_terracotta"@ ==> hit
                == spec_hit(Block::Terracotta(Some(Color::LightBlue)))
            &&& name == "yellow_terracotta"@ ==> hit
                == spec_hit(Block::Terracotta(Some(Color::Yellow)))
            &&& name == "lime_terracotta"@ ==> hit == spec_hit(Block::Terracotta(Some(Color::Lime)))
            &&& name == "pink_terracotta"@ ==> hit == spec_hit(Block::Terracotta(Some(Color::Pink)))
            &&& name == "gray_terracotta"@ ==> hit == spec_hit(Block::Terracotta(Some(Color::Gray)))
            &&& name == "light_gray_terracotta"@ ==> hit
                == spec_hit(Block::Terracotta(Some(Color::LightGray)))
            &&& name == "cyan_terracotta"@ ==> hit == spec_hit(Block::Terracotta(Some(Color::Cyan)))
            &&& name == "purple_terracotta"@ ==> hit
                == spec_hit(Block::Terracotta(Some(Color::Purple)))
            &&& name == "blue_terracotta"@ ==> hit == spec_hit(Block::Terracotta(Some(Color::Blue)))
            &&& name == "brown_terracotta"@ ==> hit
                == spec_hit(Block::Terracotta(Some(Color::Brown)))
            &&& name == "green_terracotta"@ ==> hit
                == spec_hit(Block::Terracotta(Some(Color::Green)))
            &&& name == "red_terracotta"@ ==> hit == spec_hit(Block::Terracotta(Some(Color::Red)))
            &&& name == "black_terracotta"@ ==> hit
                == spec_hit(Block::Terracotta(Some(Color::Black)))
        }),
{
    lemma_marks_terrain();
    lemma_marks_wood();
    lemma_marks_plants();
    lemma_marks_shapes();
    lemma_marks_decor();
}

/// What the table gives for each of its names for things that are built and used.
proof fn lemma_rows_fixtures(name: Seq<char>, props: Seq<(Seq<char>, Seq<char>)>)
    ensures
        ({
            let hit = spec_known_block(name, props);
            &&& name == "cauldron"@ ==> hit == Some(spec_cauldron(props))
            &&& name == "barrel"@ ==> hit == spec_hit(Block::Barrel)
            &&& name == "oak_trapdoor"@ ==> hit == Some(spec_trapdoor(TreeSpecies::Oak, props))
            &&& name == "spruce_trapdoor"@ ==> hit
                == Some(spec_trapdoor(TreeSpecies::Spruce, props))
            &&& name == "oak_door"@ ==> hit == Some(spec_door(TreeSpecies::Oak, props))
            &&& name == "spruce_door"@ ==> hit == Some(spec_door(TreeSpecies::Spruce, props))
            &&& name == "bell"@ ==> hit == Some(spec_bell(props))
            &&& name == "red_wall_banner"@ ==> hit == Some(spec_wall_banner(Color::Red, props))
            &&& name == "white_wall_banner"@ ==> hit == Some(spec_wall_banner(Color::Red, props))
            &&& name == "blue_wall_banner"@ ==> hit == Some(spec_wall_banner(Color::Red, props))
            &&& name == "green_wall_banner"@ ==> hit == Some(spec_wall_banner(Color::Red, props))
            &&& name == "yellow_wall_banner"@ ==> hit == Some(spec_wall_banner(Color::Red, props))
            &&& name == "ladder"@ ==> hit == Some(spec_ladder(props))
        }),
{
    lemma_marks_terrain();
    lemma_marks_wood();
    lemma_marks_plants();
    lemma_marks_shapes();
    lemma_marks_decor();
    lemma_marks_fixtures();
}

/// The names that end in `_planks`, put together from their parts.
proof fn lemma_join_planks()
    ensures
        "oak"@ + "_planks"@ == "oak_planks"@,
        "spruce"@ + "_planks"@ == "spruce_planks"@,
        "birch"@ + "_planks"@ == "birch_planks"@,
        "jungle"@ + "_planks"@ == "jungle_planks"@,
        "acacia"@ + "_planks"@ == "acacia_planks"@,
        "dark_oak"@ + "_planks"@ == "dark_oak_planks"@,
{
    reveal_strlit("_planks");
    reveal_strlit("oak");
    reveal_strlit("oak_planks");
    reveal_strlit("spruce");
    reveal_strlit("spruce_planks");
    reveal_strlit("birch");
    reveal_strlit("birch_planks");
    reveal_strlit("jungle");
    reveal_strlit("jungle_planks");
    reveal_strlit("acacia");
    reveal_strlit("acacia_planks");
    reveal_strlit("dark_oak");
    reveal_strlit("dark_oak_planks");
    assert("oak"@ + "_planks"@ =~= "oak_planks"@);
    assert("spruce"@ + "_planks"@ =~= "spruce_planks"@);
    assert("birch"@ + "_planks"@ =~= "birch_planks"@);
    assert("jungle"@ + "_planks"@ =~= "jungle_planks"@);
    assert("acacia"@ + "_planks"@ =~= "acacia_planks"@);
    assert("dark_oak"@ + "_planks"@ =~= "dark_oak_planks"@);
}

/// The names that end in `_fence`, put together from their parts.
proof fn lemma_join_fence()
    ensures
        "oak"@ + "_fence"@ == "oak_fence"@,
        "spruce"@ + "_fence"@ == "spruce_fence"@,
        "birch"@ + "_fence"@ == "birch_fence"@,
        "jungle"@ + "_fence"@ == "jungle_fence"@,
        "acacia"@ + "_fence"@ == "acacia_fence"@,
        "dark_oak"@ + "_fence"@ == "dark_oak_fence"@,
{
    reveal_strlit("_fence");
    reveal_strlit("oak");
    reveal_strlit("oak_fence");
    reveal_strlit("spruce");
    reveal_strlit("spruce_fence");
    reveal_strlit("birch");
    reveal_strlit("birch_fence");
    reveal_strlit("jungle");
    reveal_strlit("jungle_fence");
    reveal_strlit("acacia");
    reveal_strlit("acacia_fence");
    reveal_strlit("dark_oak");
    reveal_strlit("dark_oak_fence");
    assert("oak"@ + "_fence"@ =~= "oak_fence"@);
    assert("spruce"@ + "_fence"@ =~= "spruce_fence"@);
    assert("birch"@ + "_fence"@ =~= "birch_fence"@);
    assert("jungle"@ + "_fence"@ =~= "jungle_fence"@);
    assert("acacia"@ + "_fence"@ =~= "acacia_fence"@);
    assert("dark_oak"@ + "_fence"@ =~= "dark_oak_fence"@);
}

/// The names that end in `_slab`, put together from their parts.
proof fn lemma_join_slab()
    ensures
        "oak"@ + "_slab"@ == "oak_slab"@,
        "spruce"@ + "_slab"@ == "spruce_slab"@,
        "birch"@ + "_slab"@ == "birch_slab"@,
        "jungle"@ + "_slab"@ == "jungle_slab"@,
        "acacia"@ + "_slab"@ == "acacia_slab"@,
        "dark_oak"@ + "_slab"@ == "dark_oak_slab"@,
        "cobblestone"@ + "_slab"@ == "cobblestone_slab"@,
        "mossy_cobblestone"@ + "_slab"@ == "mossy_cobblestone_slab"@,
        "stone_brick"@ + "_slab"@ == "stone_brick_slab"@,
        "mossy_stone_brick"@ + "_slab"@ == "mossy_stone_brick_slab"@,
        "blackstone"@ + "_slab"@ == "blackstone_slab"@,
        "polished_blackstone"@ + "_slab"@ == "polished_blackstone_slab"@,
        "mud_brick"@ + "_slab"@ == "mud_brick_slab"@,
{
    reveal_strlit("_slab");
    reveal_strlit("oak");
    reveal_strlit("oak_slab");
    reveal_strlit("spruce");
    reveal_strlit("spruce_slab");
    reveal_strlit("birch");
    reveal_strlit("birch_slab");
    reveal_strlit("jungle");
    reveal_strlit("jungle_slab");
    reveal_strlit("acacia");
    reveal_strlit("acacia_slab");
    reveal_strlit("dark_oak");
    reveal_strlit("dark_oak_slab");
    reveal_strlit("cobblestone");
    reveal_strlit("cobblestone_slab");
    reveal_strlit("mossy_cobblestone");
    reveal_strlit("mossy_cobblestone_slab");
    reveal_strlit("stone_brick");
    reveal_strlit("stone_brick_slab");
    reveal_strlit("mossy_stone_brick");
    reveal_strlit("mossy_stone_brick_slab");
    reveal_strlit("blackstone");
    reveal_strlit("blackstone_slab");
    reveal_strlit("polished_blackstone");
    reveal_strlit("polished_blackstone_slab");
    reveal_strlit("mud_brick");
    reveal_strlit("mud_brick_slab");
    assert("oak"@ + "_slab"@ =~= "oak_slab"@);
    assert("spruce"@ + "_slab"@ =~= "spruce_slab"@);
    assert("birch"@ + "_slab"@ =~= "birch_slab"@);
    assert("jungle"@ + "_slab"@ =~= "jungle_slab"@);
    assert("acacia"@ + "_slab"@ =~= "acacia_slab"@);
    assert("dark_oak"@ + "_slab"@ =~= "dark_oak_slab"@);
    assert("cobblestone"@ + "_slab"@ =~= "cobblestone_slab"@);
    assert("mossy_cobblestone"@ + "_slab"@ =~= "mossy_cobblestone_slab"@);
    assert("stone_brick"@ + "_slab"@ =~= "stone_brick_slab"@);
    assert("mossy_stone_brick"@ + "_slab"@ =~= "mossy_stone_brick_slab"@);
    assert("blackstone"@ + "_slab"@ =~= "blackstone_slab"@);
    assert("polished_blackstone"@ + "_slab"@ =~= "polished_blackstone_slab"@);
    assert("mud_brick"@ + "_slab"@ =~= "mud_brick_slab"@);
}

/// The names that end in `_stairs`, put together from their parts.
proof fn lemma_join_stairs()
    ensures
        "oak"@ + "_stairs"@ == "oak_stairs"@,
        "spruce"@ + "_stairs"@ == "spruce_stairs"@,
        "birch"@ + "_stairs"@ == "birch_stairs"@,
        "jungle"@ + "_stairs"@ == "jungle_stairs"@,
        "acacia"@ + "_stairs"@ == "acacia_stairs"@,
        "dark_oak"@ + "_stairs"@ == "dark_oak_stairs"@,
        "cobblestone"@ + "_stairs"@ == "cobblestone_stairs"@,
        "stone_brick"@ + "_stairs"@ == "stone_brick_stairs"@,
        "blackstone"@ + "_stairs"@ == "blackstone_stairs"@,
        "mud_brick"@ + "_stairs"@ == "mud_brick_stairs"@,
{
    reveal_strlit("_stairs");
    reveal_strlit("oak");
    reveal_strlit("oak_stairs");
    reveal_strlit("spruce");
    reveal_strlit("spruce_stairs");
    reveal_strlit("birch");
    reveal_strlit("birch_stairs");
    reveal_strlit("jungle");
    reveal_strlit("jungle_stairs");
    reveal_strlit("acacia");
    reveal_strlit("acacia_stairs");
    reveal_strlit("dark_oak");
    reveal_strlit("dark_oak_stairs");
    reveal_strlit("cobblestone");
    reveal_strlit("cobblestone_stairs");
    reveal_strlit("stone_brick");
    reveal_strlit("stone_brick_stairs");
    reveal_strlit("blackstone");
    reveal_strlit("blackstone_stairs");
    reveal_strlit("mud_brick");
    reveal_strlit("mud_brick_stairs");
    assert("oak"@ + "_stairs"@ =~= "oak_stairs"@);
    assert("spruce"@ + "_stairs"@ =~= "spruce_stairs"@);
    assert("birch"@ + "_stairs"@ =~= "birch_stairs"@);
    assert("jungle"@ + "_stairs"@ =~= "jungle_stairs"@);
    assert("acacia"@ + "_stairs"@ =~= "acacia_stairs"@);
    assert("dark_oak"@ + "_stairs"@ =~= "dark_oak_stairs"@);
    assert("cobblestone"@ + "_stairs"@ =~= "cobblestone_stairs"@);
    assert("stone_brick"@ + "_stairs"@ =~= "stone_brick_stairs"@);
    assert("blackstone"@ + "_stairs"@ =~= "blackstone_stairs"@);
    assert("mud_brick"@ + "_stairs"@ =~= "mud_brick_stairs"@);
}

/// The names that end in `_wall`, put together from their parts.
proof fn lemma_join_wall()
    ensures
        "mossy_cobblestone"@ + "_wall"@ == "mossy_cobblestone_wall"@,
{
    reveal_strlit("_wall");
    reveal_strlit("mossy_cobblestone");
    reveal_strlit("mossy_cobblestone_wall");
    assert("mossy_cobblestone"@ + "_wall"@ =~= "mossy_cobblestone_wall"@);
}

/// The names that end in `_log`, put together from their parts.
proof fn lemma_join_log()
    ensures
        "oak"@ + "_log"@ == "oak_log"@,
        "spruce"@ + "_log"@ == "spruce_log"@,
        "birch"@ + "_log"@ == "birch_log"@,
        "jungle"@ + "_log"@ == "jungle_log"@,
        "acacia"@ + "_log"@ == "acacia_log"@,
        "dark_oak"@ + "_log"@ == "dark_oak_log"@,
        "mangrove"@ + "_log"@ == "mangrove_log"@,
        "cherry"@ + "_log"@ == "cherry_log"@,
{
    reveal_strlit("_log");
    reveal_strlit("oak");
    reveal_strlit("oak_log");
    reveal_strlit("spruce");
    reveal_strlit("spruce_log");
    reveal_strlit("birch");
    reveal_strlit("birch_log");
    reveal_strlit("jungle");
    reveal_strlit("jungle_log");
    reveal_strlit("acacia");
    reveal_strlit("acacia_log");
    reveal_strlit("dark_oak");
    reveal_strlit("dark_oak_log");
    reveal_strlit("mangrove");
    reveal_strlit("mangrove_log");
    reveal_strlit("cherry");
    reveal_strlit("cherry_log");
    assert("oak"@ + "_log"@ =~= "oak_log"@);
    assert("spruce"@ + "_log"@ =~= "spruce_log"@);
    assert("birch"@ + "_log"@ =~= "birch_log"@);
    assert("jungle"@ + "_log"@ =~= "jungle_log"@);
    assert("acacia"@ + "_log"@ =~= "acacia_log"@);
    assert("dark_oak"@ + "_log"@ =~= "dark_oak_log"@);
    assert("mangrove"@ + "_log"@ =~= "mangrove_log"@);
    assert("cherry"@ + "_log"@ =~= "cherry_log"@);
}

/// The names that end in `_leaves`, put together from their parts.
proof fn lemma_join_leaves()
    ensures
        "oak"@ + "_leaves"@ == "oak_leaves"@,
        "spruce"@ + "_leaves"@ == "spruce_leaves"@,
        "birch"@ + "_leaves"@ == "birch_leaves"@,
        "jungle"@ + "_leaves"@ == "jungle_leaves"@,
        "acacia"@ + "_leaves"@ == "acacia_leaves"@,
        "dark_oak"@ + "_leaves"@ == "dark_oak_leaves"@,
        "azalea"@ + "_leaves"@ == "azalea_leaves"@,
        "flowering_azalea"@ + "_leaves"@ == "flowering_azalea_leaves"@,
{
    reveal_strlit("_leaves");
    reveal_strlit("oak");
    reveal_strlit("oak_leaves");
    reveal_strlit("spruce");
    reveal_strlit("spruce_leaves");
    reveal_strlit("birch");
    reveal_strlit("birch_leaves");
    reveal_strlit("jungle");
    reveal_strlit("jungle_leaves");
    reveal_strlit("acacia");
    reveal_strlit("acacia_leaves");
    reveal_strlit("dark_oak");
    reveal_strlit("dark_oak_leaves");
    reveal_strlit("azalea");
    reveal_strlit("azalea_leaves");
    reveal_strlit("flowering_azalea");
    reveal_strlit("flowering_azalea_leaves");
    assert("oak"@ + "_leaves"@ =~= "oak_leaves"@);
    assert("spruce"@ + "_leaves"@ =~= "spruce_leaves"@);
    assert("birch"@ + "_leaves"@ =~= "birch_leaves"@);
    assert("jungle"@ + "_leaves"@ =~= "jungle_leaves"@);
    assert("acacia"@ + "_leaves"@ =~= "acacia_leaves"@);
    assert("dark_oak"@ + "_leaves"@ =~= "dark_oak_leaves"@);
    assert("azalea"@ + "_leaves"@ =~= "azalea_leaves"@);
    assert("flowering_azalea"@ + "_leaves"@ =~= "flowering_azalea_leaves"@);
}

/// The names that end in `_terracotta`, put together from their parts.
proof fn lemma_join_terracotta()
    ensures
        "white"@ + "_terracotta"@ == "white_terracotta"@,
        "orange"@ + "_terracotta"@ == "orange_terracotta"@,
        "magenta"@ + "_terracotta"@ == "magenta_terracotta"@,
        "light_blue"@ + "_terracotta"@ == "light_blue_terracotta"@,
        "yellow"@ + "_terracotta"@ == "yellow_terracotta"@,
        "lime"@ + "_terracotta"@ == "lime_terracotta"@,
        "pink"@ + "_terracotta"@ == "pink_terracotta"@,
        "gray"@ + "_terracotta"@ == "gray_terracotta"@,
        "light_gray"@ + "_terracotta"@ == "light_gray_terracotta"@,
        "cyan"@ + "_terracotta"@ == "cyan_terracotta"@,
        "purple"@ + "_terracotta"@ == "purple_terracotta"@,
        "blue"@ + "_terracotta"@ == "blue_terracotta"@,
        "brown"@ + "_terracotta"@ == "brown_terracotta"@,
        "green"@ + "_terracotta"@ == "green_terracotta"@,
        "red"@ + "_terracotta"@ == "red_terracotta"@,
        "black"@ + "_terracotta"@ == "black_terracotta"@,
{
    reveal_strlit("_terracotta");
    reveal_strlit("white");
    reveal_strlit("white_terracotta");
    reveal_strlit("orange");
    reveal_strlit("orange_terracotta");
    reveal_strlit("magenta");
    reveal_strlit("magenta_terracotta");
    reveal_strlit("light_blue");
    reveal_strlit("light_blue_terracotta");
    reveal_strlit("yellow");
    reveal_strlit("yellow_terracotta");
    reveal_strlit("lime");
    reveal_strlit("lime_terracotta");
    reveal_strlit("pink");
    reveal_strlit("pink_terracotta");
    reveal_strlit("gray");
    reveal_strlit("gray_terracotta");
    reveal_strlit("light_gray");
    reveal_strlit("light_gray_terracotta");
    reveal_strlit("cyan");
    reveal_strlit("cyan_terracotta");
    reveal_strlit("purple");
    reveal_strlit("purple_terracotta");
    reveal_strlit("blue");
    reveal_strlit("blue_terracotta");
    reveal_strlit("brown");
    reveal_strlit("brown_terracotta");
    reveal_strlit("green");
    reveal_strlit("green_terracotta");
    reveal_strlit("red");
    reveal_strlit("red_terracotta");
    reveal_strlit("black");
    reveal_strlit("black_terracotta");
    assert("white"@ + "_terracotta"@ =~= "white_terracotta"@);
    assert("orange"@ + "_terracotta"@ =~= "orange_terracotta"@);
    assert("magenta"@ + "_terracotta"@ =~= "magenta_terracotta"@);
    assert("light_blue"@ + "_terracotta"@ =~= "light_blue_terracotta"@);
    assert("yellow"@ + "_terracotta"@ =~= "yellow_terracotta"@);
    assert("lime"@ + "_terracotta"@ =~= "lime_terracotta"@);
    assert("pink"@ + "_terracotta"@ =~= "pink_terracotta"@);
    assert("gray"@ + "_terracotta"@ =~= "gray_terracotta"@);
    assert("light_gray"@ + "_terracotta"@ =~= "light_gray_terracotta"@);
    assert("cyan"@ + "_terracotta"@ =~= "cyan_terracotta"@);
    assert("purple"@ + "_terracotta"@ =~= "purple_terracotta"@);
    assert("blue"@ + "_terracotta"@ =~= "blue_terracotta"@);
    assert("brown"@ + "_terracotta"@ =~= "brown_terracotta"@);
    assert("green"@ + "_terracotta"@ =~= "green_terracotta"@);
    assert("red"@ + "_terracotta"@ =~= "red_terracotta"@);
    assert("black"@ + "_terracotta"@ =~= "black_terracotta"@);
}

/// The names that end in `_trapdoor`, put together from their parts.
proof fn lemma_join_trapdoor()
    ensures
        "oak"@ + "_trapdoor"@ == "oak_trapdoor"@,
        "spruce"@ + "_trapdoor"@ == "spruce_trapdoor"@,
{
    reveal_strlit("_trapdoor");
    reveal_strlit("oak");
    reveal_strlit("oak_trapdoor");
    reveal_strlit("spruce");
    reveal_strlit("spruce_trapdoor");
    assert("oak"@ + "_trapdoor"@ =~= "oak_trapdoor"@);
    assert("spruce"@ + "_trapdoor"@ =~= "spruce_trapdoor"@);
}

/// The names that end in `_door`, put together from their parts.
proof fn lemma_join_door()
    ensures
        "oak"@ + "_door"@ == "oak_door"@,
        "spruce"@ + "_door"@ == "spruce_door"@,
{
    reveal_strlit("_door");
    reveal_strlit("oak");
    reveal_strlit("oak_door");
    reveal_strlit("spruce");
    reveal_strlit("spruce_door");
    assert("oak"@ + "_door"@ =~= "oak_door"@);
    assert("spruce"@ + "_door"@ =~= "spruce_door"@);
}

/// The names that end in `_wall_banner`, put together from their parts.
proof fn lemma_join_wall_banner()
    ensures
        "red"@ + "_wall_banner"@ == "red_wall_banner"@,
{
    reveal_strlit("_wall_banner");
    reveal_strlit("red");
    reveal_strlit("red_wall_banner");
    assert("red"@ + "_wall_banner"@ =~= "red_wall_banner"@);
}

/// The name of a stripped log of oak, put together from its parts.
proof fn lemma_join_stripped()
    ensures
        "stripped_"@ + "oak"@ + "_log"@ == "stripped_oak_log"@,
{
    reveal_strlit("stripped_");
    reveal_strlit("oak");
    reveal_strlit("_log");
    reveal_strlit("stripped_oak_log");
    assert("stripped_"@ + "oak"@ + "_log"@ =~= "stripped_oak_log"@);
}

/// Whether the table gives the block for some state. These are the blocks
/// that it reads back from the state that they are written as.
pub open spec fn spec_reads_back(block: Block) -> bool {
    match block {
        Block::Air
        | Block::Water
        | Block::Bedrock
        | Block::Gravel
        | Block::Grass
        | Block::Sand
        | Block::Dirt
        | Block::CoarseDirt
        | Block::PackedMud
        | Block::SnowLayer
        | Block::MushroomStem
        | Block::MangroveRoots
        | Block::MuddyMangroveRoots
        | Block::Barrel => true,
        Block::Full(material) => material == BlockMaterial::Stone || material
            == BlockMaterial::Granite || material == BlockMaterial::Diorite || material
            == BlockMaterial::Andesite || material == BlockMaterial::Brick || spec_slab_material(
            material,
        ),
        Block::Log(species, LogType::Normal(_)) => spec_table_wood(species) || species
            == TreeSpecies::Mangrove || species == TreeSpecies::Cherry,
        Block::Log(species, LogType::Stripped(_)) => species == TreeSpecies::Oak,
        Block::Leaves(species, _) => spec_table_wood(species) || species == TreeSpecies::Azalea
            || species == TreeSpecies::FloweringAzalea,
        Block::SmallPlant(_) => true,
        Block::TallPlant(plant, _) => plant != TallPlant::Seagrass,
        Block::Fence(material) => material == BlockMaterial::MossyCobble || (
        material matches BlockMaterial::Wood(species) && spec_table_wood(species)),
        Block::Slab(material, _) => spec_slab_material(material),
        Block::Stair(material, _, _) => spec_stair_material(material),
        Block::Terracotta(_) => true,
        Block::Cauldron { water } => water <= 3,
        Block::Trapdoor(species, _, _) => species == TreeSpecies::Oak || species
            == TreeSpecies::Spruce,
        Block::Door(species, _, _) => species == TreeSpecies::Oak || species
            == TreeSpecies::Spruce,
        Block::Bell(_, _) => true,
        Block::WallBanner(_, color) => color == Color::Red,
        Block::Ladder(_) => true,
        _ => false,
    }
}

/// Whether the species is one of the six whose planks, slabs, stairs and
/// fences the table has.
pub open spec fn spec_table_wood(species: TreeSpecies) -> bool {
    species == TreeSpecies::Oak || species == TreeSpecies::Spruce || species
        == TreeSpecies::Birch || species == TreeSpecies::Jungle || species == TreeSpecies::Acacia
        || species == TreeSpecies::DarkOak
}

/// Whether the table has a slab of the material.
pub open spec fn spec_slab_material(material: BlockMaterial) -> bool {
    material == BlockMaterial::Wood(TreeSpecies::Oak) || material == BlockMaterial::Wood(
        TreeSpecies::Spruce,
    ) || material == BlockMaterial::Wood(TreeSpecies::Birch) || material == BlockMaterial::Wood(
        TreeSpecies::Jungle,
    ) || material == BlockMaterial::Wood(TreeSpecies::Acacia) || material == BlockMaterial::Wood(
        TreeSpecies::DarkOak,
    ) || material == BlockMaterial::Cobble || material == BlockMaterial::MossyCobble || material
        == BlockMaterial::StoneBrick || material == BlockMaterial::MossyStonebrick || material
        == BlockMaterial::Blackstone || material == BlockMaterial::PolishedBlackstone || material
        == BlockMaterial::MudBrick
}

/// Whether the table has stairs of the material.
pub open spec fn spec_stair_material(material: BlockMaterial) -> bool {
    material == BlockMaterial::Wood(TreeSpecies::Oak) || material == BlockMaterial::Wood(
        TreeSpecies::Spruce,
    ) || material == BlockMaterial::Wood(TreeSpecies::Birch) || material == BlockMaterial::Wood(
        TreeSpecies::Jungle,
    ) || material == BlockMaterial::Wood(TreeSpecies::Acacia) || material == BlockMaterial::Wood(
        TreeSpecies::DarkOak,
    ) || material == BlockMaterial::Cobble || material == BlockMaterial::StoneBrick || material
        == BlockMaterial::Blackstone || material == BlockMaterial::MudBrick
}

/// The value of a property in a list of one.
proof fn lemma_one_prop(a: (Seq<char>, Seq<char>), key: Seq<char>)
    ensures
        spec_prop(seq![a], key) == if a.0 == key {
            Some(a.1)
        } else {
            None
        },
{
    reveal_with_fuel(spec_prop, 2);
    let props = seq![a];
    assert(props.len() == 1);
    assert(props[0] == a);
    assert(props.skip(1).len() == 0);
}

/// The value of a property in a list of two.
proof fn lemma_two_props(a: (Seq<char>, Seq<char>), b: (Seq<char>, Seq<char>), key: Seq<char>)
    ensures
        spec_prop(seq![a, b], key) == if a.0 == key {
            Some(a.1)
        } else if b.0 == key {
            Some(b.1)
        } else {
            None
        },
{
    let props = seq![a, b];
    assert(props[0] == a);
    assert(props.skip(1) =~= seq![b]);
    lemma_one_prop(b, key);
}

/// The value of a property in a list of three.
proof fn lemma_three_props(
    a: (Seq<char>, Seq<char>),
    b: (Seq<char>, Seq<char>),
    c: (Seq<char>, Seq<char>),
    key: Seq<char>,
)
    ensures
        spec_prop(seq![a, b, c], key) == if a.0 == key {
            Some(a.1)
        } else if b.0 == key {
            Some(b.1)
        } else if c.0 == key {
            Some(c.1)
        } else {
            None
        },
{
    let props = seq![a, b, c];
    assert(props[0] == a);
    assert(props.skip(1) =~= seq![b, c]);
    lemma_two_props(b, c, key);
}

/// An axis and a direction are read back from their names.
proof fn lemma_orientation_names(axis: Axis, facing: HDir)
    ensures
        Axis::spec_from_str(axis.spec_to_str()) == Some(axis),
        HDir::spec_from_str(facing.spec_to_str()) == Some(facing),
{
    lemma_marks_values();
}

/// Blocks without properties are read back from their names.
proof fn lemma_back_plain(block: Block)
    requires
        spec_reads_back(block),
        block is Air || block is Water || block is Bedrock || block is Gravel || block is Grass
            || block is Sand || block is Dirt || block is CoarseDirt || block is PackedMud
            || block is MushroomStem || block is MangroveRoots || block is MuddyMangroveRoots
            || block is Barrel || block is Full || block is SmallPlant || block is Terracotta
            || block is Fence || block is SnowLayer,
    ensures
        spec_known_block(spec_block_name(block), spec_block_props(block)) == spec_hit(block),
{
    let name = spec_block_name(block);
    let props = spec_block_props(block);
    lemma_rows_terrain(name, props);
    lemma_rows_plants(name, props);
    lemma_rows_shapes(name, props);
    lemma_rows_decor(name, props);
    lemma_rows_fixtures(name, props);
    lemma_join_planks();
    lemma_join_fence();
    lemma_join_terracotta();
    lemma_join_wall();
    if block is Dirt {
        assert(spec_prop(props, "variant"@) is None);
    }
    if block is Water {
        assert(spec_prop(props, "level"@) is None);
    }
}

/// Trunks and leaves are read back from their states.
proof fn lemma_back_wood(block: Block)
    requires
        spec_reads_back(block),
        block is Log || block is Leaves,
    ensures
        spec_known_block(spec_block_name(block), spec_block_props(block)) == spec_hit(block),
{
    let name = spec_block_name(block);
    let props = spec_block_props(block);
    lemma_rows_wood(name, props);
    lemma_join_log();
    lemma_join_leaves();
    lemma_join_stripped();
    lemma_marks_properties();
    lemma_marks_values();
    match block {
        Block::Log(_, LogType::Normal(axis)) => {
            lemma_one_prop(("axis"@, axis.spec_to_str()), "axis"@);
            lemma_orientation_names(axis, HDir::XPos);
        },
        Block::Log(_, LogType::Stripped(axis)) => {
            lemma_one_prop(("axis"@, axis.spec_to_str()), "axis"@);
            lemma_orientation_names(axis, HDir::XPos);
        },
        Block::Leaves(_, Some(distance)) => {
            let a = ("persistent"@, "false"@);
            let b = ("distance"@, crate::text::spec_format_int(distance as int));
            lemma_two_props(a, b, "persistent"@);
            lemma_two_props(a, b, "distance"@);
            lemma_parse_format_small(distance, 0);
        },
        Block::Leaves(_, None) => {
            lemma_one_prop(("persistent"@, "true"@), "persistent"@);
        },
        _ => {},
    }
}

/// Tall plants, slabs and stairs are read back from their states.
proof fn lemma_back_halves(block: Block)
    requires
        spec_reads_back(block),
        block is TallPlant || block is Slab || block is Stair,
    ensures
        spec_known_block(spec_block_name(block), spec_block_props(block)) == spec_hit(block),
{
    let name = spec_block_name(block);
    let props = spec_block_props(block);
    lemma_rows_plants(name, props);
    lemma_rows_shapes(name, props);
    lemma_join_slab();
    lemma_join_stairs();
    lemma_marks_properties();
    lemma_marks_values();
    match block {
        Block::TallPlant(_, half) => {
            lemma_one_prop(("half"@, half.spec_tall_str()), "half"@);
        },
        Block::Slab(_, half) => {
            lemma_one_prop(("type"@, half.spec_to_str()), "type"@);
        },
        Block::Stair(_, facing, half) => {
            let a = ("half"@, half.spec_to_str());
            let b = ("facing"@, facing.spec_to_str());
            lemma_two_props(a, b, "half"@);
            lemma_two_props(a, b, "facing"@);
            lemma_orientation_names(Axis::X, facing);
        },
        _ => {},
    }
}

/// Things that are built and used are read back from their states.
proof fn lemma_back_fixtures(block: Block)
    requires
        spec_reads_back(block),
        block is Cauldron || block is Trapdoor || block is Door || block is Bell
            || block is WallBanner || block is Ladder,
    ensures
        spec_known_block(spec_block_name(block), spec_block_props(block)) == spec_hit(block),
{
    let name = spec_block_name(block);
    let props = spec_block_props(block);
    lemma_rows_fixtures(name, props);
    lemma_join_trapdoor();
    lemma_join_door();
    lemma_join_wall_banner();
    lemma_marks_properties();
    lemma_marks_values();
    match block {
        Block::Cauldron { water } => {
            lemma_one_prop(("level"@, crate::text::spec_digits(water as nat)), "level"@);
            lemma_parse_format_small(0, water);
        },
        Block::Trapdoor(_, facing, meta) => {
            let a = ("facing"@, facing.spec_to_str());
            let b = ("half"@, if meta.spec_top() {
                "top"@
            } else {
                "bottom"@
            });
            let c = ("open"@, crate::encode::spec_bool_str(meta.spec_open()));
            lemma_three_props(a, b, c, "facing"@);
            lemma_three_props(a, b, c, "half"@);
            lemma_three_props(a, b, c, "open"@);
            lemma_orientation_names(Axis::X, facing);
        },
        Block::Door(_, facing, meta) => {
            let a = ("facing"@, facing.spec_to_str());
            let b = ("half"@, if meta.spec_top() {
                "upper"@
            } else {
                "lower"@
            });
            let c = ("open"@, crate::encode::spec_bool_str(meta.spec_open()));
            lemma_three_props(a, b, c, "facing"@);
            lemma_three_props(a, b, c, "half"@);
            lemma_three_props(a, b, c, "open"@);
            lemma_orientation_names(Axis::X, facing);
        },
        Block::Bell(facing, attachment) => {
            let a = ("facing"@, facing.spec_to_str());
            let b = ("attachment"@, attachment.spec_to_str());
            lemma_two_props(a, b, "facing"@);
            lemma_two_props(a, b, "attachment"@);
            lemma_orientation_names(Axis::X, facing);
        },
        Block::WallBanner(facing, _) => {
            lemma_one_prop(("facing"@, facing.spec_to_str()), "facing"@);
            lemma_orientation_names(Axis::X, facing);
        },
        Block::Ladder(facing) => {
            lemma_one_prop(("facing"@, facing.spec_to_str()), "facing"@);
            lemma_orientation_names(Axis::X, facing);
        },
        _ => {},
    }
}

/// Every block that the table reads back is read back from the state that
/// it is written as.
pub proof fn lemma_reads_back(block: Block)
    requires
        spec_reads_back(block),
    ensures
        spec_known_block(spec_block_name(block), spec_block_props(block)) == spec_hit(block),
        !(block is Other),
        block.wf(),
{
    if block is Log || block is Leaves {
        lemma_back_wood(block);
    } else if block is TallPlant || block is Slab || block is Stair {
        lemma_back_halves(block);
    } else if block is Cauldron || block is Trapdoor || block is Door || block is Bell
        || block is WallBanner || block is Ladder {
        lemma_back_fixtures(block);
    } else {
        lemma_back_plain(block);
    }
}

/// Every block that the table gives is one that it reads back.
pub proof fn lemma_known_blocks(name: Seq<char>, props: Seq<(Seq<char>, Seq<char>)>)
    ensures
        spec_known_block(name, props) matches Some(Ok(block)) ==> spec_reads_back(block),
{
}

/// Reading a state that the table knows, writing the block and reading it
/// again gives the same block, and changes the registry at no time.
pub proof fn lemma_known_states_stable(state: StateView, unknown: Seq<StateView>)
    ensures
        spec_known_block(state.name, state.props) matches Some(Ok(block)) ==> {
            &&& spec_decode(state, unknown) == (Ok::<Block, BlockError>(block), unknown)
            &&& spec_decode(spec_blockstate(block, unknown), unknown) == (
                Ok::<Block, BlockError>(block),
                unknown,
            )
        },
{
    lemma_known_blocks(state.name, state.props);
    match spec_known_block(state.name, state.props) {
        Some(Ok(block)) => lemma_reads_back(block),
        _ => {},
    }
}

/// Reading any state, writing the block and reading it again gives the
/// same block and leaves the registry as the first reading left it: a
/// state of the table through its row, any other state through its place
/// in the registry.
pub proof fn lemma_states_stable(state: StateView, unknown: Seq<StateView>)
    requires
        unknown.no_duplicates(),
        unknown.len() <= MAX_UNKNOWN,
    ensures
        ({
            let (first, registry) = spec_decode(state, unknown);
            first matches Ok(block) ==> spec_decode(spec_blockstate(block, registry), registry)
                == (first, registry)
        }),
{
    let (first, registry) = spec_decode(state, unknown);
    if spec_known_block(state.name, state.props) is Some {
        lemma_known_states_stable(state, unknown);
    } else if first is Ok {
        lemma_intern_resolves(unknown, state);
        lemma_intern_keeps(unknown, state);
        let i = spec_intern(unknown, state).1->0;
        assert(registry[i] == state);
        assert(registry.contains(state));
        let k = registry.index_of(state);
        assert(registry[k] == state);
        assert(k == i);
    }
}

/// A name whose first two characters are not those of the namespace does
/// not begin with it.
proof fn lemma_bare(name: Seq<char>)
    requires
        spec_char_at(name, 0) != 'm' || spec_char_at(name, 1) != 'i',
    ensures
        spec_strip_namespace(name) == name,
{
    reveal_strlit("minecraft:");
    if spec_starts_with(name, "minecraft:"@) {
        let head = name.subrange(0, 10);
        assert(head[0] == name[0]);
        assert(head[1] == name[1]);
    }
}

/// No name of this part of the table begins with the namespace.
proof fn lemma_bare_terrain(name: Seq<char>, props: Seq<(Seq<char>, Seq<char>)>)
    ensures
        spec_known_terrain(name, props) is Some ==> spec_strip_namespace(name) == name,
{
    lemma_marks_terrain();
    if spec_known_terrain(name, props) is Some {
        assert(spec_mark(name).1 != 'm' || spec_mark(name).2 != 'i');
        lemma_bare(name);
    }
}

/// No name of this part of the table begins with the namespace.
proof fn lemma_bare_wood(name: Seq<char>, props: Seq<(Seq<char>, Seq<char>)>)
    ensures
        spec_known_wood(name, props) is Some ==> spec_strip_namespace(name) == name,
{
    lemma_marks_wood();
    if spec_known_wood(name, props) is Some {
        assert(spec_mark(name).1 != 'm' || spec_mark(name).2 != 'i');
        lemma_bare(name);
    }
}

/// No name of this part of the table begins with the namespace.
proof fn lemma_bare_plants(name: Seq<char>, props: Seq<(Seq<char>, Seq<char>)>)
    ensures
        spec_known_plants(name, props) is Some ==> spec_strip_namespace(name) == name,
{
    lemma_marks_plants();
    if spec_known_plants(name, props) is Some {
        assert(spec_mark(name).1 != 'm' || spec_mark(name).2 != 'i');
        lemma_bare(name);
    }
}

/// No name of this part of the table begins with the namespace.
proof fn lemma_bare_shapes(name: Seq<char>, props: Seq<(Seq<char>, Seq<char>)>)
    ensures
        spec_known_shapes(name, props) is Some ==> spec_strip_namespace(name) == name,
{
    lemma_marks_shapes();
    if spec_known_shapes(name, props) is Some {
        assert(spec_mark(name).1 != 'm' || spec_mark(name).2 != 'i');
        lemma_bare(name);
    }
}

/// No name of this part of the table begins with the namespace.
proof fn lemma_bare_decor(name: Seq<char>, props: Seq<(Seq<char>, Seq<char>)>)
    ensures
        spec_known_decor(name, props) is Some ==> spec_strip_namespace(name) == name,
{
    lemma_marks_decor();
    if spec_known_decor(name, props) is Some {
        assert(spec_mark(name).1 != 'm' || spec_mark(name).2 != 'i');
        lemma_bare(name);
    }
}

/// No name of this part of the table begins with the namespace.
proof fn lemma_bare_fixtures(name: Seq<char>, props: Seq<(Seq<char>, Seq<char>)>)
    ensures
        spec_known_fixtures(name, props) is Some ==> spec_strip_namespace(name) == name,
{
    lemma_marks_fixtures();
    if spec_known_fixtures(name, props) is Some {
        assert(spec_mark(name).1 != 'm' || spec_mark(name).2 != 'i');
        lemma_bare(name);
    }
}

/// No name of the table begins with the namespace.
pub proof fn lemma_known_names_bare(name: Seq<char>, props: Seq<(Seq<char>, Seq<char>)>)
    ensures
        spec_known_block(name, props) is Some ==> spec_strip_namespace(name) == name,
{
    lemma_bare_terrain(name, props);
    lemma_bare_wood(name, props);
    lemma_bare_plants(name, props);
    lemma_bare_shapes(name, props);
    lemma_bare_decor(name, props);
    lemma_bare_fixtures(name, props);
}

/// No block is written with two properties of the same key.
pub proof fn lemma_block_props_distinct(block: Block)
    ensures
        spec_distinct_keys(spec_block_props(block)),
{
    lemma_marks_properties();
    let props = spec_block_props(block);
    assert(spec_mark("half"@) != spec_mark("facing"@));
    assert(spec_mark("persistent"@) != spec_mark("distance"@));
    assert(spec_mark("half"@) != spec_mark("open"@));
    assert(spec_mark("facing"@) != spec_mark("open"@));
    assert(spec_mark("facing"@) != spec_mark("attachment"@));
    assert(spec_mark("delay"@) != spec_mark("facing"@));
    assert forall|i: int, j: int| 0 <= i < j < props.len() implies props[i].0 != props[j].0 by {
        assert(props.len() <= 3);
        if props.len() == 2 {
            assert(i == 0 && j == 1);
        }
    }
}

/// Reading the tag of a state that the table knows, writing the block as
/// a tag and reading that tag gives the same block: the tag that is
/// written holds the state that the block is written as, and that state
/// is read as the block.
pub proof fn lemma_known_tags_stable(
    entries: Seq<(Seq<char>, NbtValue)>,
    unknown: Seq<StateView>,
)
    ensures
        spec_state_from_nbt(entries) matches Ok(state) ==> (spec_known_block(
            state.name,
            state.props,
        ) matches Some(Ok(block)) ==> {
            &&& spec_decode(state, unknown) == (Ok::<Block, BlockError>(block), unknown)
            &&& spec_state_from_nbt(spec_state_nbt(spec_blockstate(block, unknown))) == Ok::<
                StateView,
                BlockError,
            >(spec_blockstate(block, unknown))
            &&& spec_decode(spec_blockstate(block, unknown), unknown) == (
                Ok::<Block, BlockError>(block),
                unknown,
            )
        }),
{
    match spec_state_from_nbt(entries) {
        Ok(state) => {
            lemma_known_states_stable(state, unknown);
            lemma_known_blocks(state.name, state.props);
            match spec_known_block(state.name, state.props) {
                Some(Ok(block)) => {
                    lemma_reads_back(block);
                    let written = spec_blockstate(block, unknown);
                    lemma_known_names_bare(written.name, written.props);
                    lemma_block_props_distinct(block);
                    lemma_state_tag_reads_back(written);
                },
                _ => {},
            }
        },
        Err(_) => {},
    }
}

} // verus!
