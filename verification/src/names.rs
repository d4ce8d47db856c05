//! Marks of the strings that the block model reads and writes.
//!
//! A mark is the length of a string and its characters at a few places.
//! Two strings with different marks are different strings. The places are
//! chosen so that no two names of the table, names of properties or values
//! of properties have the same mark.

use vstd::prelude::*;

verus! {

/// The character at place `i` of `s`, and a blank past its end.
pub open spec fn spec_char_at(s: Seq<char>, i: int) -> char {
    if 0 <= i < s.len() {
        s[i]
    } else {
        ' '
    }
}

/// The mark of `s`: its length and its characters at the places 0, 1, 5,
/// 7, 12 and 18.
pub open spec fn spec_mark(s: Seq<char>) -> (nat, char, char, char, char, char, char) {
    (
        s.len(),
        spec_char_at(s, 0),
        spec_char_at(s, 1),
        spec_char_at(s, 5),
        spec_char_at(s, 7),
        spec_char_at(s, 12),
        spec_char_at(s, 18),
    )
}

/// The marks of ground, stone and fluids.
pub proof fn lemma_marks_terrain()
    ensures
        spec_mark("air"@) == (3nat, 'a', 'i', ' ', ' ', ' ', ' '),
        spec_mark("cave_air"@) == (8nat, 'c', 'a', 'a', 'r', ' ', ' '),
        spec_mark("water"@) == (5nat, 'w', 'a', ' ', ' ', ' ', ' '),
        spec_mark("tall_seagrass"@) == (13nat, 't', 'a', 's', 'a', 's', ' '),
        spec_mark("stone"@) == (5nat, 's', 't', ' ', ' ', ' ', ' '),
        spec_mark("granite"@) == (7nat, 'g', 'r', 't', ' ', ' ', ' '),
        spec_mark("diorite"@) == (7nat, 'd', 'i', 't', ' ', ' ', ' '),
        spec_mark("andesite"@) == (8nat, 'a', 'n', 'i', 'e', ' ', ' '),
        spec_mark("cobblestone"@) == (11nat, 'c', 'o', 'e', 't', ' ', ' '),
        spec_mark("bricks"@) == (6nat, 'b', 'r', 's', ' ', ' ', ' '),
        spec_mark("stone_bricks"@) == (12nat, 's', 't', '_', 'r', ' ', ' '),
        spec_mark("mud_bricks"@) == (10nat, 'm', 'u', 'r', 'c', ' ', ' '),
        spec_mark("packed_mud"@) == (10nat, 'p', 'a', 'd', 'm', ' ', ' '),
        spec_mark("bedrock"@) == (7nat, 'b', 'e', 'c', ' ', ' ', ' '),
        spec_mark("gravel"@) == (6nat, 'g', 'r', 'l', ' ', ' ', ' '),
        spec_mark("grass_block"@) == (11nat, 'g', 'r', '_', 'l', ' ', ' '),
        spec_mark("sand"@) == (4nat, 's', 'a', ' ', ' ', ' ', ' '),
        spec_mark("dirt"@) == (4nat, 'd', 'i', ' ', ' ', ' ', ' '),
        spec_mark("coarse_dirt"@) == (11nat, 'c', 'o', 'e', 'd', ' ', ' '),
        spec_mark("mossy_cobblestone"@) == (17nat, 'm', 'o', '_', 'o', 's', ' '),
        spec_mark("mossy_stone_bricks"@) == (18nat, 'm', 'o', '_', 't', 'b', ' '),
        spec_mark("blackstone"@) == (10nat, 'b', 'l', 's', 'o', ' ', ' '),
        spec_mark("polished_blackstone"@) == (19nat, 'p', 'o', 'h', 'd', 'c', 'e'),
        spec_mark("oak_planks"@) == (10nat, 'o', 'a', 'l', 'n', ' ', ' '),
        spec_mark("spruce_planks"@) == (13nat, 's', 'p', 'e', 'p', 's', ' '),
        spec_mark("birch_planks"@) == (12nat, 'b', 'i', '_', 'l', ' ', ' '),
        spec_mark("jungle_planks"@) == (13nat, 'j', 'u', 'e', 'p', 's', ' '),
        spec_mark("acacia_planks"@) == (13nat, 'a', 'c', 'a', 'p', 's', ' '),
        spec_mark("dark_oak_planks"@) == (15nat, 'd', 'a', 'o', 'k', 'n', ' '),
{
    reveal_strlit("air");
    reveal_strlit("cave_air");
    reveal_strlit("water");
    reveal_strlit("tall_seagrass");
    reveal_strlit("stone");
    reveal_strlit("granite");
    reveal_strlit("diorite");
    reveal_strlit("andesite");
    reveal_strlit("cobblestone");
    reveal_strlit("bricks");
    reveal_strlit("stone_bricks");
    reveal_strlit("mud_bricks");
    reveal_strlit("packed_mud");
    reveal_strlit("bedrock");
    reveal_strlit("gravel");
    reveal_strlit("grass_block");
    reveal_strlit("sand");
    reveal_strlit("dirt");
    reveal_strlit("coarse_dirt");
    reveal_strlit("mossy_cobblestone");
    reveal_strlit("mossy_stone_bricks");
    reveal_strlit("blackstone");
    reveal_strlit("polished_blackstone");
    reveal_strlit("oak_planks");
    reveal_strlit("spruce_planks");
    reveal_strlit("birch_planks");
    reveal_strlit("jungle_planks");
    reveal_strlit("acacia_planks");
    reveal_strlit("dark_oak_planks");
}

/// The marks of trunks and leaves.
pub proof fn lemma_marks_wood()
    ensures
        spec_mark("oak_log"@) == (7nat, 'o', 'a', 'o', ' ', ' ', ' '),
        spec_mark("spruce_log"@) == (10nat, 's', 'p', 'e', 'l', ' ', ' '),
        spec_mark("birch_log"@) == (9nat, 'b', 'i', '_', 'o', ' ', ' '),
        spec_mark("jungle_log"@) == (10nat, 'j', 'u', 'e', 'l', ' ', ' '),
        spec_mark("acacia_log"@) == (10nat, 'a', 'c', 'a', 'l', ' ', ' '),
        spec_mark("dark_oak_log"@) == (12nat, 'd', 'a', 'o', 'k', ' ', ' '),
        spec_mark("mangrove_log"@) == (12nat, 'm', 'a', 'o', 'e', ' ', ' '),
        spec_mark("cherry_log"@) == (10nat, 'c', 'h', 'y', 'l', ' ', ' '),
        spec_mark("stripped_oak_log"@) == (16nat, 's', 't', 'p', 'd', '_', ' '),
        spec_mark("oak_leaves"@) == (10nat, 'o', 'a', 'e', 'v', ' ', ' '),
        spec_mark("spruce_leaves"@) == (13nat, 's', 'p', 'e', 'l', 's', ' '),
        spec_mark("birch_leaves"@) == (12nat, 'b', 'i', '_', 'e', ' ', ' '),
        spec_mark("jungle_leaves"@) == (13nat, 'j', 'u', 'e', 'l', 's', ' '),
        spec_mark("acacia_leaves"@) == (13nat, 'a', 'c', 'a', 'l', 's', ' '),
        spec_mark("dark_oak_leaves"@) == (15nat, 'd', 'a', 'o', 'k', 'v', ' '),
        spec_mark("azalea_leaves"@) == (13nat, 'a', 'z', 'a', 'l', 's', ' '),
        spec_mark("flowering_azalea_leaves"@) == (23nat, 'f', 'l', 'r', 'n', 'a', 'e'),
{
    reveal_strlit("oak_log");
    reveal_strlit("spruce_log");
    reveal_strlit("birch_log");
    reveal_strlit("jungle_log");
    reveal_strlit("acacia_log");
    reveal_strlit("dark_oak_log");
    reveal_strlit("mangrove_log");
    reveal_strlit("cherry_log");
    reveal_strlit("stripped_oak_log");
    reveal_strlit("oak_leaves");
    reveal_strlit("spruce_leaves");
    reveal_strlit("birch_leaves");
    reveal_strlit("jungle_leaves");
    reveal_strlit("acacia_leaves");
    reveal_strlit("dark_oak_leaves");
    reveal_strlit("azalea_leaves");
    reveal_strlit("flowering_azalea_leaves");
}

/// The marks of plants and snow.
pub proof fn lemma_marks_plants()
    ensures
        spec_mark("grass"@) == (5nat, 'g', 'r', ' ', ' ', ' ', ' '),
        spec_mark("fern"@) == (4nat, 'f', 'e', ' ', ' ', ' ', ' '),
        spec_mark("dead_bush"@) == (9nat, 'd', 'e', 'b', 's', ' ', ' '),
        spec_mark("brown_mushroom"@) == (14nat, 'b', 'r', '_', 'u', 'o', ' '),
        spec_mark("red_mushroom"@) == (12nat, 'r', 'e', 'u', 'h', ' ', ' '),
        spec_mark("dandelion"@) == (9nat, 'd', 'a', 'l', 'o', ' ', ' '),
        spec_mark("poppy"@) == (5nat, 'p', 'o', ' ', ' ', ' ', ' '),
        spec_mark("cornflower"@) == (10nat, 'c', 'o', 'l', 'w', ' ', ' '),
        spec_mark("blue_orchid"@) == (11nat, 'b', 'l', 'o', 'c', ' ', ' '),
        spec_mark("allium"@) == (6nat, 'a', 'l', 'm', ' ', ' ', ' '),
        spec_mark("azure_bluet"@) == (11nat, 'a', 'z', '_', 'l', ' ', ' '),
        spec_mark("red_tulip"@) == (9nat, 'r', 'e', 'u', 'i', ' ', ' '),
        spec_mark("orange_tulip"@) == (12nat, 'o', 'r', 'e', 't', ' ', ' '),
        spec_mark("white_tulip"@) == (11nat, 'w', 'h', '_', 'u', ' ', ' '),
        spec_mark("pink_tulip"@) == (10nat, 'p', 'i', 't', 'l', ' ', ' '),
        spec_mark("oxeye_daisy"@) == (11nat, 'o', 'x', '_', 'a', ' ', ' '),
        spec_mark("seagrass"@) == (8nat, 's', 'e', 'a', 's', ' ', ' '),
        spec_mark("tall_grass"@) == (10nat, 't', 'a', 'g', 'a', ' ', ' '),
        spec_mark("large_fern"@) == (10nat, 'l', 'a', '_', 'e', ' ', ' '),
        spec_mark("sunflower"@) == (9nat, 's', 'u', 'o', 'e', ' ', ' '),
        spec_mark("lilac"@) == (5nat, 'l', 'i', ' ', ' ', ' ', ' '),
        spec_mark("rose_bush"@) == (9nat, 'r', 'o', 'b', 's', ' ', ' '),
        spec_mark("peony"@) == (5nat, 'p', 'e', ' ', ' ', ' ', ' '),
        spec_mark("snow"@) == (4nat, 's', 'n', ' ', ' ', ' ', ' '),
{
    reveal_strlit("grass");
    reveal_strlit("fern");
    reveal_strlit("dead_bush");
    reveal_strlit("brown_mushroom");
    reveal_strlit("red_mushroom");
    reveal_strlit("dandelion");
    reveal_strlit("poppy");
    reveal_strlit("cornflower");
    reveal_strlit("blue_orchid");
    reveal_strlit("allium");
    reveal_strlit("azure_bluet");
    reveal_strlit("red_tulip");
    reveal_strlit("orange_tulip");
    reveal_strlit("white_tulip");
    reveal_strlit("pink_tulip");
    reveal_strlit("oxeye_daisy");
    reveal_strlit("seagrass");
    reveal_strlit("tall_grass");
    reveal_strlit("large_fern");
    reveal_strlit("sunflower");
    reveal_strlit("lilac");
    reveal_strlit("rose_bush");
    reveal_strlit("peony");
    reveal_strlit("snow");
}

/// The marks of fences, walls, slabs and stairs.
pub proof fn lemma_marks_shapes()
    ensures
        spec_mark("oak_fence"@) == (9nat, 'o', 'a', 'e', 'c', ' ', ' '),
        spec_mark("spruce_fence"@) == (12nat, 's', 'p', 'e', 'f', ' ', ' '),
        spec_mark("birch_fence"@) == (11nat, 'b', 'i', '_', 'e', ' ', ' '),
        spec_mark("jungle_fence"@) == (12nat, 'j', 'u', 'e', 'f', ' ', ' '),
        spec_mark("acacia_fence"@) == (12nat, 'a', 'c', 'a', 'f', ' ', ' '),
        spec_mark("dark_oak_fence"@) == (14nat, 'd', 'a', 'o', 'k', 'c', ' '),
        spec_mark("cobblestone_wall"@) == (16nat, 'c', 'o', 'e', 't', 'w', ' '),
        spec_mark("mossy_cobblestone_wall"@) == (22nat, 'm', 'o', '_', 'o', 's', 'w'),
        spec_mark("oak_slab"@) == (8nat, 'o', 'a', 'l', 'b', ' ', ' '),
        spec_mark("spruce_slab"@) == (11nat, 's', 'p', 'e', 's', ' ', ' '),
        spec_mark("birch_slab"@) == (10nat, 'b', 'i', '_', 'l', ' ', ' '),
        spec_mark("jungle_slab"@) == (11nat, 'j', 'u', 'e', 's', ' ', ' '),
        spec_mark("acacia_slab"@) == (11nat, 'a', 'c', 'a', 's', ' ', ' '),
        spec_mark("dark_oak_slab"@) == (13nat, 'd', 'a', 'o', 'k', 'b', ' '),
        spec_mark("cobblestone_slab"@) == (16nat, 'c', 'o', 'e', 't', 's', ' '),
        spec_mark("mossy_cobblestone_slab"@) == (22nat, 'm', 'o', '_', 'o', 's', 's'),
        spec_mark("stone_brick_slab"@) == (16nat, 's', 't', '_', 'r', 's', ' '),
        spec_mark("mossy_stone_brick_slab"@) == (22nat, 'm', 'o', '_', 't', 'b', 's'),
        spec_mark("blackstone_slab"@) == (15nat, 'b', 'l', 's', 'o', 'l', ' '),
        spec_mark("polished_blackstone_slab"@) == (24nat, 'p', 'o', 'h', 'd', 'c', 'e'),
        spec_mark("mud_brick_slab"@) == (14nat, 'm', 'u', 'r', 'c', 'a', ' '),
        spec_mark("oak_stairs"@) == (10nat, 'o', 'a', 't', 'i', ' ', ' '),
        spec_mark("spruce_stairs"@) == (13nat, 's', 'p', 'e', 's', 's', ' '),
        spec_mark("birch_stairs"@) == (12nat, 'b', 'i', '_', 't', ' ', ' '),
        spec_mark("jungle_stairs"@) == (13nat, 'j', 'u', 'e', 's', 's', ' '),
        spec_mark("acacia_stairs"@) == (13nat, 'a', 'c', 'a', 's', 's', ' '),
        spec_mark("dark_oak_stairs"@) == (15nat, 'd', 'a', 'o', 'k', 'i', ' '),
        spec_mark("cobblestone_stairs"@) == (18nat, 'c', 'o', 'e', 't', 's', ' '),
        spec_mark("stone_brick_stairs"@) == (18nat, 's', 't', '_', 'r', 's', ' '),
        spec_mark("blackstone_stairs"@) == (17nat, 'b', 'l', 's', 'o', 't', ' '),
        spec_mark("mud_brick_stairs"@) == (16nat, 'm', 'u', 'r', 'c', 'a', ' '),
{
    reveal_strlit("oak_fence");
    reveal_strlit("spruce_fence");
    reveal_strlit("birch_fence");
    reveal_strlit("jungle_fence");
    reveal_strlit("acacia_fence");
    reveal_strlit("dark_oak_fence");
    reveal_strlit("cobblestone_wall");
    reveal_strlit("mossy_cobblestone_wall");
    reveal_strlit("oak_slab");
    reveal_strlit("spruce_slab");
    reveal_strlit("birch_slab");
    reveal_strlit("jungle_slab");
    reveal_strlit("acacia_slab");
    reveal_strlit("dark_oak_slab");
    reveal_strlit("cobblestone_slab");
    reveal_strlit("mossy_cobblestone_slab");
    reveal_strlit("stone_brick_slab");
    reveal_strlit("mossy_stone_brick_slab");
    reveal_strlit("blackstone_slab");
    reveal_strlit("polished_blackstone_slab");
    reveal_strlit("mud_brick_slab");
    reveal_strlit("oak_stairs");
    reveal_strlit("spruce_stairs");
    reveal_strlit("birch_stairs");
    reveal_strlit("jungle_stairs");
    reveal_strlit("acacia_stairs");
    reveal_strlit("dark_oak_stairs");
    reveal_strlit("cobblestone_stairs");
    reveal_strlit("stone_brick_stairs");
    reveal_strlit("blackstone_stairs");
    reveal_strlit("mud_brick_stairs");
}

/// The marks of terracotta and what grows in swamps.
pub proof fn lemma_marks_decor()
    ensures
        spec_mark("terracotta"@) == (10nat, 't', 'e', 'c', 't', ' ', ' '),
        spec_mark("mushroom_stem"@) == (13nat, 'm', 'u', 'o', 'm', 'm', ' '),
        spec_mark("mangrove_roots"@) == (14nat, 'm', 'a', 'o', 'e', 't', ' '),
        spec_mark("muddy_mangrove_roots"@) == (20nat, 'm', 'u', '_', 'a', 'v', 't'),
        spec_mark("white_terracotta"@) == (16nat, 'w', 'h', '_', 'e', 'o', ' '),
        spec_mark("orange_terracotta"@) == (17nat, 'o', 'r', 'e', 't', 'c', ' '),
        spec_mark("magenta_terracotta"@) == (18nat, 'm', 'a', 't', '_', 'a', ' '),
        spec_mark("light_blue_terracotta"@) == (21nat, 'l', 'i', '_', 'l', 'e', 't'),
        spec_mark("yellow_terracotta"@) == (17nat, 'y', 'e', 'w', 't', 'c', ' '),
        spec_mark("lime_terracotta"@) == (15nat, 'l', 'i', 't', 'r', 't', ' '),
        spec_mark("pink_terracotta"@) == (15nat, 'p', 'i', 't', 'r', 't', ' '),
        spec_mark("gray_terracotta"@) == (15nat, 'g', 'r', 't', 'r', 't', ' '),
        spec_mark("light_gray_terracotta"@) == (21nat, 'l', 'i', '_', 'r', 'e', 't'),
        spec_mark("cyan_terracotta"@) == (15nat, 'c', 'y', 't', 'r', 't', ' '),
        spec_mark("purple_terracotta"@) == (17nat, 'p', 'u', 'e', 't', 'c', ' '),
        spec_mark("blue_terracotta"@) == (15nat, 'b', 'l', 't', 'r', 't', ' '),
        spec_mark("brown_terracotta"@) == (16nat, 'b', 'r', '_', 'e', 'o', ' '),
        spec_mark("green_terracotta"@) == (16nat, 'g', 'r', '_', 'e', 'o', ' '),
        spec_mark("red_terracotta"@) == (14nat, 'r', 'e', 'e', 'r', 't', ' '),
        spec_mark("black_terracotta"@) == (16nat, 'b', 'l', '_', 'e', 'o', ' '),
{
    reveal_strlit("terracotta");
    reveal_strlit("mushroom_stem");
    reveal_strlit("mangrove_roots");
    reveal_strlit("muddy_mangrove_roots");
    reveal_strlit("white_terracotta");
    reveal_strlit("orange_terracotta");
    reveal_strlit("magenta_terracotta");
    reveal_strlit("light_blue_terracotta");
    reveal_strlit("yellow_terracotta");
    reveal_strlit("lime_terracotta");
    reveal_strlit("pink_terracotta");
    reveal_strlit("gray_terracotta");
    reveal_strlit("light_gray_terracotta");
    reveal_strlit("cyan_terracotta");
    reveal_strlit("purple_terracotta");
    reveal_strlit("blue_terracotta");
    reveal_strlit("brown_terracotta");
    reveal_strlit("green_terracotta");
    reveal_strlit("red_terracotta");
    reveal_strlit("black_terracotta");
}

/// The marks of things that are built and used.
pub proof fn lemma_marks_fixtures()
    ensures
        spec_mark("cauldron"@) == (8nat, 'c', 'a', 'r', 'n', ' ', ' '),
        spec_mark("barrel"@) == (6nat, 'b', 'a', 'l', ' ', ' ', ' '),
        spec_mark("oak_trapdoor"@) == (12nat, 'o', 'a', 'r', 'p', ' ', ' '),
        spec_mark("spruce_trapdoor"@) == (15nat, 's', 'p', 'e', 't', 'o', ' '),
        spec_mark("oak_door"@) == (8nat, 'o', 'a', 'o', 'r', ' ', ' '),
        spec_mark("spruce_door"@) == (11nat, 's', 'p', 'e', 'd', ' ', ' '),
        spec_mark("bell"@) == (4nat, 'b', 'e', ' ', ' ', ' ', ' '),
        spec_mark("red_wall_banner"@) == (15nat, 'r', 'e', 'a', 'l', 'n', ' '),
        spec_mark("white_wall_banner"@) == (17nat, 'w', 'h', '_', 'a', 'a', ' '),
        spec_mark("blue_wall_banner"@) == (16nat, 'b', 'l', 'w', 'l', 'n', ' '),
        spec_mark("green_wall_banner"@) == (17nat, 'g', 'r', '_', 'a', 'a', ' '),
        spec_mark("yellow_wall_banner"@) == (18nat, 'y', 'e', 'w', 'w', 'b', ' '),
        spec_mark("ladder"@) == (6nat, 'l', 'a', 'r', ' ', ' ', ' '),
{
    reveal_strlit("cauldron");
    reveal_strlit("barrel");
    reveal_strlit("oak_trapdoor");
    reveal_strlit("spruce_trapdoor");
    reveal_strlit("oak_door");
    reveal_strlit("spruce_door");
    reveal_strlit("bell");
    reveal_strlit("red_wall_banner");
    reveal_strlit("white_wall_banner");
    reveal_strlit("blue_wall_banner");
    reveal_strlit("green_wall_banner");
    reveal_strlit("yellow_wall_banner");
    reveal_strlit("ladder");
}

/// The marks of the names of properties.
pub proof fn lemma_marks_properties()
    ensures
        spec_mark("facing"@) == (6nat, 'f', 'a', 'g', ' ', ' ', ' '),
        spec_mark("half"@) == (4nat, 'h', 'a', ' ', ' ', ' ', ' '),
        spec_mark("type"@) == (4nat, 't', 'y', ' ', ' ', ' ', ' '),
        spec_mark("axis"@) == (4nat, 'a', 'x', ' ', ' ', ' ', ' '),
        spec_mark("persistent"@) == (10nat, 'p', 'e', 's', 'e', ' ', ' '),
        spec_mark("distance"@) == (8nat, 'd', 'i', 'n', 'e', ' ', ' '),
        spec_mark("level"@) == (5nat, 'l', 'e', ' ', ' ', ' ', ' '),
        spec_mark("open"@) == (4nat, 'o', 'p', ' ', ' ', ' ', ' '),
        spec_mark("attachment"@) == (10nat, 'a', 't', 'h', 'e', ' ', ' '),
        spec_mark("layers"@) == (6nat, 'l', 'a', 's', ' ', ' ', ' '),
        spec_mark("age"@) == (3nat, 'a', 'g', ' ', ' ', ' ', ' '),
        spec_mark("variant"@) == (7nat, 'v', 'a', 'n', ' ', ' ', ' '),
        spec_mark("delay"@) == (5nat, 'd', 'e', ' ', ' ', ' ', ' '),
        spec_mark("shape"@) == (5nat, 's', 'h', ' ', ' ', ' ', ' '),
{
    reveal_strlit("facing");
    reveal_strlit("half");
    reveal_strlit("type");
    reveal_strlit("axis");
    reveal_strlit("persistent");
    reveal_strlit("distance");
    reveal_strlit("level");
    reveal_strlit("open");
    reveal_strlit("attachment");
    reveal_strlit("layers");
    reveal_strlit("age");
    reveal_strlit("variant");
    reveal_strlit("delay");
    reveal_strlit("shape");
}

/// The marks of the values of properties.
pub proof fn lemma_marks_values()
    ensures
        spec_mark("east"@) == (4nat, 'e', 'a', ' ', ' ', ' ', ' '),
        spec_mark("south"@) == (5nat, 's', 'o', ' ', ' ', ' ', ' '),
        spec_mark("west"@) == (4nat, 'w', 'e', ' ', ' ', ' ', ' '),
        spec_mark("north"@) == (5nat, 'n', 'o', ' ', ' ', ' ', ' '),
        spec_mark("x"@) == (1nat, 'x', ' ', ' ', ' ', ' ', ' '),
        spec_mark("y"@) == (1nat, 'y', ' ', ' ', ' ', ' ', ' '),
        spec_mark("z"@) == (1nat, 'z', ' ', ' ', ' ', ' ', ' '),
        spec_mark("top"@) == (3nat, 't', 'o', ' ', ' ', ' ', ' '),
        spec_mark("bottom"@) == (6nat, 'b', 'o', 'm', ' ', ' ', ' '),
        spec_mark("upper"@) == (5nat, 'u', 'p', ' ', ' ', ' ', ' '),
        spec_mark("lower"@) == (5nat, 'l', 'o', ' ', ' ', ' ', ' '),
        spec_mark("double"@) == (6nat, 'd', 'o', 'e', ' ', ' ', ' '),
        spec_mark("true"@) == (4nat, 't', 'r', ' ', ' ', ' ', ' '),
        spec_mark("false"@) == (5nat, 'f', 'a', ' ', ' ', ' ', ' '),
        spec_mark("floor"@) == (5nat, 'f', 'l', ' ', ' ', ' ', ' '),
        spec_mark("ceiling"@) == (7nat, 'c', 'e', 'n', ' ', ' ', ' '),
        spec_mark("single_wall"@) == (11nat, 's', 'i', 'e', 'w', ' ', ' '),
        spec_mark("double_wall"@) == (11nat, 'd', 'o', 'e', 'w', ' ', ' '),
        spec_mark("0"@) == (1nat, '0', ' ', ' ', ' ', ' ', ' '),
        spec_mark("1"@) == (1nat, '1', ' ', ' ', ' ', ' ', ' '),
        spec_mark("3"@) == (1nat, '3', ' ', ' ', ' ', ' ', ' '),
        spec_mark("7"@) == (1nat, '7', ' ', ' ', ' ', ' ', ' '),
{
    reveal_strlit("east");
    reveal_strlit("south");
    reveal_strlit("west");
    reveal_strlit("north");
    reveal_strlit("x");
    reveal_strlit("y");
    reveal_strlit("z");
    reveal_strlit("top");
    reveal_strlit("bottom");
    reveal_strlit("upper");
    reveal_strlit("lower");
    reveal_strlit("double");
    reveal_strlit("true");
    reveal_strlit("false");
    reveal_strlit("floor");
    reveal_strlit("ceiling");
    reveal_strlit("single_wall");
    reveal_strlit("double_wall");
    reveal_strlit("0");
    reveal_strlit("1");
    reveal_strlit("3");
    reveal_strlit("7");
}

} // verus!
