//! From a named state to a block.
//!
//! A fixed table of names says which states the model knows. A state with
//! a name of the table becomes the block of its row, or fails where its
//! properties are not what the row needs. Every other state is handed to
//! the registry and becomes `Block::Other`.

use crate::block::{
    BellAttachment, Block, BlockMaterial, Color, DoorMeta, Half, LogType, SmallPlant, TallPlant,
    TreeSpecies,
};
use crate::blockstate::{prop, props_view, spec_prop, Blockstate, StateView};
use crate::error::BlockError;
use crate::geometry::{Axis, HDir};
use crate::registry::{spec_intern, UnknownBlocks};
use crate::text::{
    parse_i8, parse_u8, spec_parse_i8, spec_parse_u8, spec_strip_prefix, str_eq, strip_prefix,
};
use vstd::prelude::*;

verus! {

/// The direction of the `facing` property.
pub open spec fn spec_facing(props: Seq<(Seq<char>, Seq<char>)>) -> Result<HDir, BlockError> {
    match spec_prop(props, "facing"@) {
        None => Err(BlockError::MissingProperty),
        Some(value) => match HDir::spec_from_str(value) {
            Some(facing) => Ok(facing),
            None => Err(BlockError::InvalidProperty),
        },
    }
}

/// The half of the `half` property: the top for `upper` and `top`, else the
/// bottom.
pub open spec fn spec_half(props: Seq<(Seq<char>, Seq<char>)>) -> Result<Half, BlockError> {
    match spec_prop(props, "half"@) {
        None => Err(BlockError::MissingProperty),
        Some(value) => if value == "upper"@ || value == "top"@ {
            Ok(Half::Top)
        } else {
            Ok(Half::Bottom)
        },
    }
}

/// Water at its full level is water, and so is water that names no level;
/// flowing water counts as air.
pub open spec fn spec_water(props: Seq<(Seq<char>, Seq<char>)>) -> Result<Block, BlockError> {
    match spec_prop(props, "level"@) {
        None => Ok(Block::Water),
        Some(level) => if level == "0"@ {
            Ok(Block::Water)
        } else {
            Ok(Block::Air)
        },
    }
}

/// Dirt without a `variant` is dirt, with the variant `coarse_dirt` it is
/// coarse dirt, as is the state of that name; with another variant the
/// table does not know the state.
pub open spec fn spec_dirt(props: Seq<(Seq<char>, Seq<char>)>) -> Option<
    Result<Block, BlockError>,
> {
    match spec_prop(props, "variant"@) {
        None => Some(Ok(Block::Dirt)),
        Some(value) => if value == "coarse_dirt"@ {
            Some(Ok(Block::CoarseDirt))
        } else {
            None
        },
    }
}

/// A piece of trunk along the axis of its `axis` property.
pub open spec fn spec_log(
    species: TreeSpecies,
    stripped: bool,
    props: Seq<(Seq<char>, Seq<char>)>,
) -> Result<Block, BlockError> {
    match spec_prop(props, "axis"@) {
        None => Err(BlockError::MissingProperty),
        Some(value) => match Axis::spec_from_str(value) {
            None => Err(BlockError::InvalidProperty),
            Some(axis) => if stripped {
                Ok(Block::Log(species, LogType::Stripped(axis)))
            } else {
                Ok(Block::Log(species, LogType::Normal(axis)))
            },
        },
    }
}

/// Leaves: with `persistent` at `false` they carry their `distance`, else
/// none.
pub open spec fn spec_leaves(species: TreeSpecies, props: Seq<(Seq<char>, Seq<char>)>) -> Result<
    Block,
    BlockError,
> {
    match spec_prop(props, "persistent"@) {
        None => Err(BlockError::MissingProperty),
        Some(persistent) => if persistent == "false"@ {
            match spec_prop(props, "distance"@) {
                None => Err(BlockError::MissingProperty),
                Some(value) => match spec_parse_i8(value) {
                    None => Err(BlockError::InvalidProperty),
                    Some(distance) => Ok(Block::Leaves(species, Some(distance))),
                },
            }
        } else {
            Ok(Block::Leaves(species, None))
        },
    }
}

/// One half of a plant that is two blocks tall.
pub open spec fn spec_tall_plant(plant: TallPlant, props: Seq<(Seq<char>, Seq<char>)>) -> Result<
    Block,
    BlockError,
> {
    match spec_half(props) {
        Err(e) => Err(e),
        Ok(half) => Ok(Block::TallPlant(plant, half)),
    }
}

/// A slab by its `type`: `top`, `double` for a full block, else the bottom.
pub open spec fn spec_slab(material: BlockMaterial, props: Seq<(Seq<char>, Seq<char>)>) -> Result<
    Block,
    BlockError,
> {
    match spec_prop(props, "type"@) {
        None => Err(BlockError::MissingProperty),
        Some(value) => if value == "top"@ {
            Ok(Block::Slab(material, Half::Top))
        } else if value == "double"@ {
            Ok(Block::Full(material))
        } else {
            Ok(Block::Slab(material, Half::Bottom))
        },
    }
}

/// Stairs by their `facing` and `half`.
pub open spec fn spec_stair(material: BlockMaterial, props: Seq<(Seq<char>, Seq<char>)>) -> Result<
    Block,
    BlockError,
> {
    match spec_facing(props) {
        Err(e) => Err(e),
        Ok(facing) => match spec_half(props) {
            Err(e) => Err(e),
            Ok(half) => Ok(Block::Stair(material, facing, half)),
        },
    }
}

/// A cauldron by its `level`, which is 0 where the property is missing. A
/// level that is no number is invalid, one above 3 is outside the domain.
pub open spec fn spec_cauldron(props: Seq<(Seq<char>, Seq<char>)>) -> Result<Block, BlockError> {
    let text = match spec_prop(props, "level"@) {
        Some(value) => value,
        None => "0"@,
    };
    match spec_parse_u8(text) {
        None => Err(BlockError::InvalidProperty),
        Some(water) => if water <= 3 {
            Ok(Block::Cauldron { water })
        } else {
            Err(BlockError::OutOfDomain)
        },
    }
}

/// The half and the opening of a door or trapdoor, whose upper half is
/// named `top_name`.
pub open spec fn spec_door_meta(props: Seq<(Seq<char>, Seq<char>)>, top_name: Seq<char>) -> Result<
    DoorMeta,
    BlockError,
> {
    match spec_prop(props, "half"@) {
        None => Err(BlockError::MissingProperty),
        Some(half) => match spec_prop(props, "open"@) {
            None => Err(BlockError::MissingProperty),
            Some(open) => Ok(DoorMeta::spec_new(half == top_name, open == "true"@)),
        },
    }
}

/// A trapdoor by its `facing`, `half` and `open`.
pub open spec fn spec_trapdoor(species: TreeSpecies, props: Seq<(Seq<char>, Seq<char>)>) -> Result<
    Block,
    BlockError,
> {
    match spec_facing(props) {
        Err(e) => Err(e),
        Ok(facing) => match spec_door_meta(props, "top"@) {
            Err(e) => Err(e),
            Ok(meta) => Ok(Block::Trapdoor(species, facing, meta)),
        },
    }
}

/// A door by its `facing`, `half` and `open`.
pub open spec fn spec_door(species: TreeSpecies, props: Seq<(Seq<char>, Seq<char>)>) -> Result<
    Block,
    BlockError,
> {
    match spec_facing(props) {
        Err(e) => Err(e),
        Ok(facing) => match spec_door_meta(props, "upper"@) {
            Err(e) => Err(e),
            Ok(meta) => Ok(Block::Door(species, facing, meta)),
        },
    }
}

/// A bell by its `facing` and `attachment`; an attachment that is none of
/// the other three counts as a double wall.
pub open spec fn spec_bell(props: Seq<(Seq<char>, Seq<char>)>) -> Result<Block, BlockError> {
    match spec_facing(props) {
        Err(e) => Err(e),
        Ok(facing) => match spec_prop(props, "attachment"@) {
            None => Err(BlockError::MissingProperty),
            Some(value) => Ok(
                Block::Bell(
                    facing,
                    if value == "floor"@ {
                        BellAttachment::Floor
                    } else if value == "ceiling"@ {
                        BellAttachment::Ceiling
                    } else if value == "single_wall"@ {
                        BellAttachment::SingleWall
                    } else {
                        BellAttachment::DoubleWall
                    },
                ),
            ),
        },
    }
}

/// A banner on a wall by its `facing`.
pub open spec fn spec_wall_banner(color: Color, props: Seq<(Seq<char>, Seq<char>)>) -> Result<
    Block,
    BlockError,
> {
    match spec_facing(props) {
        Err(e) => Err(e),
        Ok(facing) => Ok(Block::WallBanner(facing, color)),
    }
}

/// A ladder by its `facing`.
pub open spec fn spec_ladder(props: Seq<(Seq<char>, Seq<char>)>) -> Result<Block, BlockError> {
    match spec_facing(props) {
        Err(e) => Err(e),
        Ok(facing) => Ok(Block::Ladder(facing)),
    }
}

/// The rows of the table for ground, stone and fluids.
pub open spec fn spec_known_terrain(name: Seq<char>, props: Seq<(Seq<char>, Seq<char>)>) -> Option<
    Result<Block, BlockError>,
> {
    if name == "air"@ {
        Some(Ok(Block::Air))
    } else if name == "cave_air"@ {
        Some(Ok(Block::Air))
    } else if name == "water"@ {
        Some(spec_water(props))
    } else if name == "tall_seagrass"@ {
        Some(Ok(Block::Water))
    } else if name == "stone"@ {
        Some(Ok(Block::Full(BlockMaterial::Stone)))
    } else if name == "granite"@ {
        Some(Ok(Block::Full(BlockMaterial::Granite)))
    } else if name == "diorite"@ {
        Some(Ok(Block::Full(BlockMaterial::Diorite)))
    } else if name == "andesite"@ {
        Some(Ok(Block::Full(BlockMaterial::Andesite)))
    } else if name == "cobblestone"@ {
        Some(Ok(Block::Full(BlockMaterial::Cobble)))
    } else if name == "bricks"@ {
        Some(Ok(Block::Full(BlockMaterial::Brick)))
    } else if name == "stone_bricks"@ {
        Some(Ok(Block::Full(BlockMaterial::StoneBrick)))
    } else if name == "mud_bricks"@ {
        Some(Ok(Block::Full(BlockMaterial::MudBrick)))
    } else if name == "packed_mud"@ {
        Some(Ok(Block::PackedMud))
    } else if name == "bedrock"@ {
        Some(Ok(Block::Bedrock))
    } else if name == "gravel"@ {
        Some(Ok(Block::Gravel))
    } else if name == "grass_block"@ {
        Some(Ok(Block::Grass))
    } else if name == "sand"@ {
        Some(Ok(Block::Sand))
    } else if name == "dirt"@ {
        spec_dirt(props)
    } else if name == "coarse_dirt"@ {
        Some(Ok(Block::CoarseDirt))
    } else if name == "mossy_cobblestone"@ {
        Some(Ok(Block::Full(BlockMaterial::MossyCobble)))
    } else if name == "mossy_stone_bricks"@ {
        Some(Ok(Block::Full(BlockMaterial::MossyStonebrick)))
    } else if name == "blackstone"@ {
        Some(Ok(Block::Full(BlockMaterial::Blackstone)))
    } else if name == "polished_blackstone"@ {
        Some(Ok(Block::Full(BlockMaterial::PolishedBlackstone)))
    } else if name == "oak_planks"@ {
        Some(Ok(Block::Full(BlockMaterial::Wood(TreeSpecies::Oak))))
    } else if name == "spruce_planks"@ {
        Some(Ok(Block::Full(BlockMaterial::Wood(TreeSpecies::Spruce))))
    } else if name == "birch_planks"@ {
        Some(Ok(Block::Full(BlockMaterial::Wood(TreeSpecies::Birch))))
    } else if name == "jungle_planks"@ {
        Some(Ok(Block::Full(BlockMaterial::Wood(TreeSpecies::Jungle))))
    } else if name == "acacia_planks"@ {
        Some(Ok(Block::Full(BlockMaterial::Wood(TreeSpecies::Acacia))))
    } else if name == "dark_oak_planks"@ {
        Some(Ok(Block::Full(BlockMaterial::Wood(TreeSpecies::DarkOak))))
    } else {
        None
    }
}

/// The rows of the table for trunks and leaves.
pub open spec fn spec_known_wood(name: Seq<char>, props: Seq<(Seq<char>, Seq<char>)>) -> Option<
    Result<Block, BlockError>,
> {
    if name == "oak_log"@ {
        Some(spec_log(TreeSpecies::Oak, false, props))
    } else if name == "spruce_log"@ {
        Some(spec_log(TreeSpecies::Spruce, false, props))
    } else if name == "birch_log"@ {
        Some(spec_log(TreeSpecies::Birch, false, props))
    } else if name == "jungle_log"@ {
        Some(spec_log(TreeSpecies::Jungle, false, props))
    } else if name == "acacia_log"@ {
        Some(spec_log(TreeSpecies::Acacia, false, props))
    } else if name == "dark_oak_log"@ {
        Some(spec_log(TreeSpecies::DarkOak, false, props))
    } else if name == "mangrove_log"@ {
        Some(spec_log(TreeSpecies::Mangrove, false, props))
    } else if name == "cherry_log"@ {
        Some(spec_log(TreeSpecies::Cherry, false, props))
    } else if name == "stripped_oak_log"@ {
        Some(spec_log(TreeSpecies::Oak, true, props))
    } else if name == "oak_leaves"@ {
        Some(spec_leaves(TreeSpecies::Oak, props))
    } else if name == "spruce_leaves"@ {
        Some(spec_leaves(TreeSpecies::Spruce, props))
    } else if name == "birch_leaves"@ {
        Some(spec_leaves(TreeSpecies::Birch, props))
    } else if name == "jungle_leaves"@ {
        Some(spec_leaves(TreeSpecies::Jungle, props))
    } else if name == "acacia_leaves"@ {
        Some(spec_leaves(TreeSpecies::Acacia, props))
    } else if name == "dark_oak_leaves"@ {
        Some(spec_leaves(TreeSpecies::DarkOak, props))
    } else if name == "azalea_leaves"@ {
        Some(spec_leaves(TreeSpecies::Azalea, props))
    } else if name == "flowering_azalea_leaves"@ {
        Some(spec_leaves(TreeSpecies::FloweringAzalea, props))
    } else {
        None
    }
}

/// The rows of the table for plants and snow.
pub open spec fn spec_known_plants(name: Seq<char>, props: Seq<(Seq<char>, Seq<char>)>) -> Option<
    Result<Block, BlockError>,
> {
    if name == "grass"@ {
        Some(Ok(Block::SmallPlant(SmallPlant::Grass)))
    } else if name == "fern"@ {
        Some(Ok(Block::SmallPlant(SmallPlant::Fern)))
    } else if name == "dead_bush"@ {
        Some(Ok(Block::SmallPlant(SmallPlant::DeadBush)))
    } else if name == "brown_mushroom"@ {
        Some(Ok(Block::SmallPlant(SmallPlant::BrownMushroom)))
    } else if name == "red_mushroom"@ {
        Some(Ok(Block::SmallPlant(SmallPlant::RedMushroom)))
    } else if name == "dandelion"@ {
        Some(Ok(Block::SmallPlant(SmallPlant::Dandelion)))
    } else if name == "poppy"@ {
        Some(Ok(Block::SmallPlant(SmallPlant::Poppy)))
    } else if name == "cornflower"@ {
        Some(Ok(Block::SmallPlant(SmallPlant::Cornflower)))
    } else if name == "blue_orchid"@ {
        Some(Ok(Block::SmallPlant(SmallPlant::BlueOrchid)))
    } else if name == "allium"@ {
        Some(Ok(Block::SmallPlant(SmallPlant::Allium)))
    } else if name == "azure_bluet"@ {
        Some(Ok(Block::SmallPlant(SmallPlant::AzureBluet)))
    } else if name == "red_tulip"@ {
        Some(Ok(Block::SmallPlant(SmallPlant::RedTulip)))
    } else if name == "orange_tulip"@ {
        Some(Ok(Block::SmallPlant(SmallPlant::OrangeTulip)))
    } else if name == "white_tulip"@ {
        Some(Ok(Block::SmallPlant(SmallPlant::WhiteTulip)))
    } else if name == "pink_tulip"@ {
        Some(Ok(Block::SmallPlant(SmallPlant::PinkTulip)))
    } else if name == "oxeye_daisy"@ {
        Some(Ok(Block::SmallPlant(SmallPlant::OxeyeDaisy)))
    } else if name == "seagrass"@ {
        Some(Ok(Block::SmallPlant(SmallPlant::Seagrass)))
    } else if name == "tall_grass"@ {
        Some(spec_tall_plant(TallPlant::Grass, props))
    } else if name == "large_fern"@ {
        Some(spec_tall_plant(TallPlant::Fern, props))
    } else if name == "sunflower"@ {
        Some(spec_tall_plant(TallPlant::Sunflower, props))
    } else if name == "lilac"@ {
        Some(spec_tall_plant(TallPlant::Lilac, props))
    } else if name == "rose_bush"@ {
        Some(spec_tall_plant(TallPlant::Rose, props))
    } else if name == "peony"@ {
        Some(spec_tall_plant(TallPlant::Peony, props))
    } else if name == "snow"@ {
        Some(Ok(Block::SnowLayer))
    } else {
        None
    }
}

/// The rows of the table for fences, walls, slabs and stairs.
pub open spec fn spec_known_shapes(name: Seq<char>, props: Seq<(Seq<char>, Seq<char>)>) -> Option<
    Result<Block, BlockError>,
> {
    if name == "oak_fence"@ {
        Some(Ok(Block::Fence(BlockMaterial::Wood(TreeSpecies::Oak))))
    } else if name == "spruce_fence"@ {
        Some(Ok(Block::Fence(BlockMaterial::Wood(TreeSpecies::Spruce))))
    } else if name == "birch_fence"@ {
        Some(Ok(Block::Fence(BlockMaterial::Wood(TreeSpecies::Birch))))
    } else if name == "jungle_fence"@ {
        Some(Ok(Block::Fence(BlockMaterial::Wood(TreeSpecies::Jungle))))
    } else if name == "acacia_fence"@ {
        Some(Ok(Block::Fence(BlockMaterial::Wood(TreeSpecies::Acacia))))
    } else if name == "dark_oak_fence"@ {
        Some(Ok(Block::Fence(BlockMaterial::Wood(TreeSpecies::DarkOak))))
    } else if name == "cobblestone_wall"@ {
        Some(Ok(Block::Fence(BlockMaterial::MossyCobble)))
    } else if name == "mossy_cobblestone_wall"@ {
        Some(Ok(Block::Fence(BlockMaterial::MossyCobble)))
    } else if name == "oak_slab"@ {
        Some(spec_slab(BlockMaterial::Wood(TreeSpecies::Oak), props))
    } else if name == "spruce_slab"@ {
        Some(spec_slab(BlockMaterial::Wood(TreeSpecies::Spruce), props))
    } else if name == "birch_slab"@ {
        Some(spec_slab(BlockMaterial::Wood(TreeSpecies::Birch), props))
    } else if name == "jungle_slab"@ {
        Some(spec_slab(BlockMaterial::Wood(TreeSpecies::Jungle), props))
    } else if name == "acacia_slab"@ {
        Some(spec_slab(BlockMaterial::Wood(TreeSpecies::Acacia), props))
    } else if name == "dark_oak_slab"@ {
        Some(spec_slab(BlockMaterial::Wood(TreeSpecies::DarkOak), props))
    } else if name == "cobblestone_slab"@ {
        Some(spec_slab(BlockMaterial::Cobble, props))
    } else if name == "mossy_cobblestone_slab"@ {
        Some(spec_slab(BlockMaterial::MossyCobble, props))
    } else if name == "stone_brick_slab"@ {
        Some(spec_slab(BlockMaterial::StoneBrick, props))
    } else if name == "mossy_stone_brick_slab"@ {
        Some(spec_slab(BlockMaterial::MossyStonebrick, props))
    } else if name == "blackstone_slab"@ {
        Some(spec_slab(BlockMaterial::Blackstone, props))
    } else if name == "polished_blackstone_slab"@ {
        Some(spec_slab(BlockMaterial::PolishedBlackstone, props))
    } else if name == "mud_brick_slab"@ {
        Some(spec_slab(BlockMaterial::MudBrick, props))
    } else if name == "oak_stairs"@ {
        Some(spec_stair(BlockMaterial::Wood(TreeSpecies::Oak), props))
    } else if name == "spruce_stairs"@ {
        Some(spec_stair(BlockMaterial::Wood(TreeSpecies::Spruce), props))
    } else if name == "birch_stairs"@ {
        Some(spec_stair(BlockMaterial::Wood(TreeSpecies::Birch), props))
    } else if name == "jungle_stairs"@ {
        Some(spec_stair(BlockMaterial::Wood(TreeSpecies::Jungle), props))
    } else if name == "acacia_stairs"@ {
        Some(spec_stair(BlockMaterial::Wood(TreeSpecies::Acacia), props))
    } else if name == "dark_oak_stairs"@ {
        Some(spec_stair(BlockMaterial::Wood(TreeSpecies::DarkOak), props))
    } else if name == "cobblestone_stairs"@ {
        Some(spec_stair(BlockMaterial::Cobble, props))
    } else if name == "stone_brick_stairs"@ {
        Some(spec_stair(BlockMaterial::StoneBrick, props))
    } else if name == "blackstone_stairs"@ {
        Some(spec_stair(BlockMaterial::Blackstone, props))
    } else if name == "mud_brick_stairs"@ {
        Some(spec_stair(BlockMaterial::MudBrick, props))
    } else {
        None
    }
}

/// The rows of the table for terracotta and what grows in swamps.
pub open spec fn spec_known_decor(name: Seq<char>, props: Seq<(Seq<char>, Seq<char>)>) -> Option<
    Result<Block, BlockError>,
> {
    if name == "terracotta"@ {
        Some(Ok(Block::Terracotta(None)))
    } else if name == "mushroom_stem"@ {
        Some(Ok(Block::MushroomStem))
    } else if name == "mangrove_roots"@ {
        Some(Ok(Block::MangroveRoots))
    } else if name == "muddy_mangrove_roots"@ {
        Some(Ok(Block::MuddyMangroveRoots))
    } else if name == "white_terracotta"@ {
        Some(Ok(Block::Terracotta(Some(Color::White))))
    } else if name == "orange_terracotta"@ {
        Some(Ok(Block::Terracotta(Some(Color::Orange))))
    } else if name == "magenta_terracotta"@ {
        Some(Ok(Block::Terracotta(Some(Color::Magenta))))
    } else if name == "light_blue_terracotta"@ {
        Some(Ok(Block::Terracotta(Some(Color::LightBlue))))
    } else if name == "yellow_terracotta"@ {
        Some(Ok(Block::Terracotta(Some(Color::Yellow))))
    } else if name == "lime_terracotta"@ {
        Some(Ok(Block::Terracotta(Some(Color::Lime))))
    } else if name == "pink_terracotta"@ {
        Some(Ok(Block::Terracotta(Some(Color::Pink))))
    } else if name == "gray_terracotta"@ {
        Some(Ok(Block::Terracotta(Some(Color::Gray))))
    } else if name == "light_gray_terracotta"@ {
        Some(Ok(Block::Terracotta(Some(Color::LightGray))))
    } else if name == "cyan_terracotta"@ {
        Some(Ok(Block::Terracotta(Some(Color::Cyan))))
    } else if name == "purple_terracotta"@ {
        Some(Ok(Block::Terracotta(Some(Color::Purple))))
    } else if name == "blue_terracotta"@ {
        Some(Ok(Block::Terracotta(Some(Color::Blue))))
    } else if name == "brown_terracotta"@ {
        Some(Ok(Block::Terracotta(Some(Color::Brown))))
    } else if name == "green_terracotta"@ {
        Some(Ok(Block::Terracotta(Some(Color::Green))))
    } else if name == "red_terracotta"@ {
        Some(Ok(Block::Terracotta(Some(Color::Red))))
    } else if name == "black_terracotta"@ {
        Some(Ok(Block::Terracotta(Some(Color::Black))))
    } else {
        None
    }
}

/// The rows of the table for things that are built and used.
pub open spec fn spec_known_fixtures(name: Seq<char>, props: Seq<(Seq<char>, Seq<char>)>) -> Option<
    Result<Block, BlockError>,
> {
    if name == "cauldron"@ {
        Some(spec_cauldron(props))
    } else if name == "barrel"@ {
        Some(Ok(Block::Barrel))
    } else if name == "oak_trapdoor"@ {
        Some(spec_trapdoor(TreeSpecies::Oak, props))
    } else if name == "spruce_trapdoor"@ {
        Some(spec_trapdoor(TreeSpecies::Spruce, props))
    } else if name == "oak_door"@ {
        Some(spec_door(TreeSpecies::Oak, props))
    } else if name == "spruce_door"@ {
        Some(spec_door(TreeSpecies::Spruce, props))
    } else if name == "bell"@ {
        Some(spec_bell(props))
    } else if name == "red_wall_banner"@ {
        Some(spec_wall_banner(Color::Red, props))
    } else if name == "white_wall_banner"@ {
        Some(spec_wall_banner(Color::Red, props))
    } else if name == "blue_wall_banner"@ {
        Some(spec_wall_banner(Color::Red, props))
    } else if name == "green_wall_banner"@ {
        Some(spec_wall_banner(Color::Red, props))
    } else if name == "yellow_wall_banner"@ {
        Some(spec_wall_banner(Color::Red, props))
    } else if name == "ladder"@ {
        Some(spec_ladder(props))
    } else {
        None
    }
}

/// The block of a state that the table knows: `None` for a name that the
/// table does not hold, else the block of the row, or the error where the
/// state's properties are not what the row needs.
pub open spec fn spec_known_block(name: Seq<char>, props: Seq<(Seq<char>, Seq<char>)>) -> Option<
    Result<Block, BlockError>,
> {
    if spec_known_terrain(name, props) is Some {
        spec_known_terrain(name, props)
    } else if spec_known_wood(name, props) is Some {
        spec_known_wood(name, props)
    } else if spec_known_plants(name, props) is Some {
        spec_known_plants(name, props)
    } else if spec_known_shapes(name, props) is Some {
        spec_known_shapes(name, props)
    } else if spec_known_decor(name, props) is Some {
        spec_known_decor(name, props)
    } else {
        spec_known_fixtures(name, props)
    }
}

/// The block that `state` decodes to and the registry after it. A state
/// that the table knows leaves the registry as it is. Any other state is
/// interned and becomes `Other` with its index, unless the registry is
/// full.
pub open spec fn spec_decode(state: StateView, unknown: Seq<StateView>) -> (
    Result<Block, BlockError>,
    Seq<StateView>,
) {
    match spec_known_block(state.name, state.props) {
        Some(result) => (result, unknown),
        None => {
            let (after, index) = spec_intern(unknown, state);
            match index {
                Some(i) => (Ok(Block::Other(i as u16)), after),
                None => (Err(BlockError::RegistryFull), after),
            }
        },
    }
}

/// The name without the namespace `minecraft:` before it.
pub open spec fn spec_strip_namespace(name: Seq<char>) -> Seq<char> {
    match spec_strip_prefix(name, "minecraft:"@) {
        Some(rest) => rest,
        None => name,
    }
}

/// The direction of the `facing` property.
fn facing(props: &Vec<(String, String)>) -> (r: Result<HDir, BlockError>)
    ensures
        r == spec_facing(props_view(props@)),
{
    match prop(props, "facing") {
        None => Err(BlockError::MissingProperty),
        Some(value) => match HDir::from_str(value) {
            Some(facing) => Ok(facing),
            None => Err(BlockError::InvalidProperty),
        },
    }
}

/// The half of the `half` property.
fn half(props: &Vec<(String, String)>) -> (r: Result<Half, BlockError>)
    ensures
        r == spec_half(props_view(props@)),
{
    match prop(props, "half") {
        None => Err(BlockError::MissingProperty),
        Some(value) => if str_eq(value, "upper") || str_eq(value, "top") {
            Ok(Half::Top)
        } else {
            Ok(Half::Bottom)
        },
    }
}

fn water(props: &Vec<(String, String)>) -> (r: Result<Block, BlockError>)
    ensures
        r == spec_water(props_view(props@)),
{
    match prop(props, "level") {
        None => Ok(Block::Water),
        Some(level) => if str_eq(level, "0") {
            Ok(Block::Water)
        } else {
            Ok(Block::Air)
        },
    }
}

fn dirt(props: &Vec<(String, String)>) -> (r: Option<Result<Block, BlockError>>)
    ensures
        r == spec_dirt(props_view(props@)),
{
    match prop(props, "variant") {
        None => Some(Ok(Block::Dirt)),
        Some(value) => if str_eq(value, "coarse_dirt") {
            Some(Ok(Block::CoarseDirt))
        } else {
            None
        },
    }
}

fn log(species: TreeSpecies, stripped: bool, props: &Vec<(String, String)>) -> (r: Result<
    Block,
    BlockError,
>)
    ensures
        r == spec_log(species, stripped, props_view(props@)),
{
    match prop(props, "axis") {
        None => Err(BlockError::MissingProperty),
        Some(value) => match Axis::from_str(value) {
            None => Err(BlockError::InvalidProperty),
            Some(axis) => if stripped {
                Ok(Block::Log(species, LogType::Stripped(axis)))
            } else {
                Ok(Block::Log(species, LogType::Normal(axis)))
            },
        },
    }
}

fn leaves(species: TreeSpecies, props: &Vec<(String, String)>) -> (r: Result<Block, BlockError>)
    ensures
        r == spec_leaves(species, props_view(props@)),
{
    match prop(props, "persistent") {
        None => Err(BlockError::MissingProperty),
        Some(persistent) => if str_eq(persistent, "false") {
            match prop(props, "distance") {
                None => Err(BlockError::MissingProperty),
                Some(value) => match parse_i8(value) {
                    None => Err(BlockError::InvalidProperty),
                    Some(distance) => Ok(Block::Leaves(species, Some(distance))),
                },
            }
        } else {
            Ok(Block::Leaves(species, None))
        },
    }
}

fn tall_plant(plant: TallPlant, props: &Vec<(String, String)>) -> (r: Result<Block, BlockError>)
    ensures
        r == spec_tall_plant(plant, props_view(props@)),
{
    match half(props) {
        Err(e) => Err(e),
        Ok(half) => Ok(Block::TallPlant(plant, half)),
    }
}

fn slab(material: BlockMaterial, props: &Vec<(String, String)>) -> (r: Result<Block, BlockError>)
    ensures
        r == spec_slab(material, props_view(props@)),
{
    match prop(props, "type") {
        None => Err(BlockError::MissingProperty),
        Some(value) => if str_eq(value, "top") {
            Ok(Block::Slab(material, Half::Top))
        } else if str_eq(value, "double") {
            Ok(Block::Full(material))
        } else {
            Ok(Block::Slab(material, Half::Bottom))
        },
    }
}

fn stair(material: BlockMaterial, props: &Vec<(String, String)>) -> (r: Result<Block, BlockError>)
    ensures
        r == spec_stair(material, props_view(props@)),
{
    match facing(props) {
        Err(e) => Err(e),
        Ok(facing) => match half(props) {
            Err(e) => Err(e),
            Ok(half) => Ok(Block::Stair(material, facing, half)),
        },
    }
}

fn cauldron(props: &Vec<(String, String)>) -> (r: Result<Block, BlockError>)
    ensures
        r == spec_cauldron(props_view(props@)),
{
    let text: &str = match prop(props, "level") {
        Some(value) => value,
        None => "0",
    };
    match parse_u8(text) {
        None => Err(BlockError::InvalidProperty),
        Some(water) => if water <= 3 {
            Ok(Block::Cauldron { water })
        } else {
            Err(BlockError::OutOfDomain)
        },
    }
}

fn door_meta(props: &Vec<(String, String)>, top_name: &str) -> (r: Result<DoorMeta, BlockError>)
    ensures
        r == spec_door_meta(props_view(props@), top_name@),
{
    match prop(props, "half") {
        None => Err(BlockError::MissingProperty),
        Some(half) => match prop(props, "open") {
            None => Err(BlockError::MissingProperty),
            Some(open) => Ok(DoorMeta::new(str_eq(half, top_name), str_eq(open, "true"))),
        },
    }
}

fn trapdoor(species: TreeSpecies, props: &Vec<(String, String)>) -> (r: Result<Block, BlockError>)
    ensures
        r == spec_trapdoor(species, props_view(props@)),
{
    match facing(props) {
        Err(e) => Err(e),
        Ok(facing) => match door_meta(props, "top") {
            Err(e) => Err(e),
            Ok(meta) => Ok(Block::Trapdoor(species, facing, meta)),
        },
    }
}

fn door(species: TreeSpecies, props: &Vec<(String, String)>) -> (r: Result<Block, BlockError>)
    ensures
        r == spec_door(species, props_view(props@)),
{
    match facing(props) {
        Err(e) => Err(e),
        Ok(facing) => match door_meta(props, "upper") {
            Err(e) => Err(e),
            Ok(meta) => Ok(Block::Door(species, facing, meta)),
        },
    }
}

fn bell(props: &Vec<(String, String)>) -> (r: Result<Block, BlockError>)
    ensures
        r == spec_bell(props_view(props@)),
{
    match facing(props) {
        Err(e) => Err(e),
        Ok(facing) => match prop(props, "attachment") {
            None => Err(BlockError::MissingProperty),
            Some(value) => {
                let attachment = if str_eq(value, "floor") {
                    BellAttachment::Floor
                } else if str_eq(value, "ceiling") {
                    BellAttachment::Ceiling
                } else if str_eq(value, "single_wall") {
                    BellAttachment::SingleWall
                } else {
                    BellAttachment::DoubleWall
                };
                Ok(Block::Bell(facing, attachment))
            },
        },
    }
}

fn wall_banner(color: Color, props: &Vec<(String, String)>) -> (r: Result<Block, BlockError>)
    ensures
        r == spec_wall_banner(color, props_view(props@)),
{
    match facing(props) {
        Err(e) => Err(e),
        Ok(facing) => Ok(Block::WallBanner(facing, color)),
    }
}

fn ladder(props: &Vec<(String, String)>) -> (r: Result<Block, BlockError>)
    ensures
        r == spec_ladder(props_view(props@)),
{
    match facing(props) {
        Err(e) => Err(e),
        Ok(facing) => Ok(Block::Ladder(facing)),
    }
}

/// The rows of the table for ground, stone and fluids.
fn known_terrain(name: &str, props: &Vec<(String, String)>) -> (r: Option<
    Result<Block, BlockError>,
>)
    ensures
        r == spec_known_terrain(name@, props_view(props@)),
{
    if str_eq(name, "air") {
        Some(Ok(Block::Air))
    } else if str_eq(name, "cave_air") {
        Some(Ok(Block::Air))
    } else if str_eq(name, "water") {
        Some(water(props))
    } else if str_eq(name, "tall_seagrass") {
        Some(Ok(Block::Water))
    } else if str_eq(name, "stone") {
        Some(Ok(Block::Full(BlockMaterial::Stone)))
    } else if str_eq(name, "granite") {
        Some(Ok(Block::Full(BlockMaterial::Granite)))
    } else if str_eq(name, "diorite") {
        Some(Ok(Block::Full(BlockMaterial::Diorite)))
    } else if str_eq(name, "andesite") {
        Some(Ok(Block::Full(BlockMaterial::Andesite)))
    } else if str_eq(name, "cobblestone") {
        Some(Ok(Block::Full(BlockMaterial::Cobble)))
    } else if str_eq(name, "bricks") {
        Some(Ok(Block::Full(BlockMaterial::Brick)))
    } else if str_eq(name, "stone_bricks") {
        Some(Ok(Block::Full(BlockMaterial::StoneBrick)))
    } else if str_eq(name, "mud_bricks") {
        Some(Ok(Block::Full(BlockMaterial::MudBrick)))
    } else if str_eq(name, "packed_mud") {
        Some(Ok(Block::PackedMud))
    } else if str_eq(name, "bedrock") {
        Some(Ok(Block::Bedrock))
    } else if str_eq(name, "gravel") {
        Some(Ok(Block::Gravel))
    } else if str_eq(name, "grass_block") {
        Some(Ok(Block::Grass))
    } else if str_eq(name, "sand") {
        Some(Ok(Block::Sand))
    } else if str_eq(name, "dirt") {
        dirt(props)
    } else if str_eq(name, "coarse_dirt") {
        Some(Ok(Block::CoarseDirt))
    } else if str_eq(name, "mossy_cobblestone") {
        Some(Ok(Block::Full(BlockMaterial::MossyCobble)))
    } else if str_eq(name, "mossy_stone_bricks") {
        Some(Ok(Block::Full(BlockMaterial::MossyStonebrick)))
    } else if str_eq(name, "blackstone") {
        Some(Ok(Block::Full(BlockMaterial::Blackstone)))
    } else if str_eq(name, "polished_blackstone") {
        Some(Ok(Block::Full(BlockMaterial::PolishedBlackstone)))
    } else if str_eq(name, "oak_planks") {
        Some(Ok(Block::Full(BlockMaterial::Wood(TreeSpecies::Oak))))
    } else if str_eq(name, "spruce_planks") {
        Some(Ok(Block::Full(BlockMaterial::Wood(TreeSpecies::Spruce))))
    } else if str_eq(name, "birch_planks") {
        Some(Ok(Block::Full(BlockMaterial::Wood(TreeSpecies::Birch))))
    } else if str_eq(name, "jungle_planks") {
        Some(Ok(Block::Full(BlockMaterial::Wood(TreeSpecies::Jungle))))
    } else if str_eq(name, "acacia_planks") {
        Some(Ok(Block::Full(BlockMaterial::Wood(TreeSpecies::Acacia))))
    } else if str_eq(name, "dark_oak_planks") {
        Some(Ok(Block::Full(BlockMaterial::Wood(TreeSpecies::DarkOak))))
    } else {
        None
    }
}

/// The rows of the table for trunks and leaves.
fn known_wood(name: &str, props: &Vec<(String, String)>) -> (r: Option<
    Result<Block, BlockError>,
>)
    ensures
        r == spec_known_wood(name@, props_view(props@)),
{
    if str_eq(name, "oak_log") {
        Some(log(TreeSpecies::Oak, false, props))
    } else if str_eq(name, "spruce_log") {
        Some(log(TreeSpecies::Spruce, false, props))
    } else if str_eq(name, "birch_log") {
        Some(log(TreeSpecies::Birch, false, props))
    } else if str_eq(name, "jungle_log") {
        Some(log(TreeSpecies::Jungle, false, props))
    } else if str_eq(name, "acacia_log") {
        Some(log(TreeSpecies::Acacia, false, props))
    } else if str_eq(name, "dark_oak_log") {
        Some(log(TreeSpecies::DarkOak, false, props))
    } else if str_eq(name, "mangrove_log") {
        Some(log(TreeSpecies::Mangrove, false, props))
    } else if str_eq(name, "cherry_log") {
        Some(log(TreeSpecies::Cherry, false, props))
    } else if str_eq(name, "stripped_oak_log") {
        Some(log(TreeSpecies::Oak, true, props))
    } else if str_eq(name, "oak_leaves") {
        Some(leaves(TreeSpecies::Oak, props))
    } else if str_eq(name, "spruce_leaves") {
        Some(leaves(TreeSpecies::Spruce, props))
    } else if str_eq(name, "birch_leaves") {
        Some(leaves(TreeSpecies::Birch, props))
    } else if str_eq(name, "jungle_leaves") {
        Some(leaves(TreeSpecies::Jungle, props))
    } else if str_eq(name, "acacia_leaves") {
        Some(leaves(TreeSpecies::Acacia, props))
    } else if str_eq(name, "dark_oak_leaves") {
        Some(leaves(TreeSpecies::DarkOak, props))
    } else if str_eq(name, "azalea_leaves") {
        Some(leaves(TreeSpecies::Azalea, props))
    } else if str_eq(name, "flowering_azalea_leaves") {
        Some(leaves(TreeSpecies::FloweringAzalea, props))
    } else {
        None
    }
}

/// The rows of the table for plants and snow.
fn known_plants(name: &str, props: &Vec<(String, String)>) -> (r: Option<
    Result<Block, BlockError>,
>)
    ensures
        r == spec_known_plants(name@, props_view(props@)),
{
    if str_eq(name, "grass") {
        Some(Ok(Block::SmallPlant(SmallPlant::Grass)))
    } else if str_eq(name, "fern") {
        Some(Ok(Block::SmallPlant(SmallPlant::Fern)))
    } else if str_eq(name, "dead_bush") {
        Some(Ok(Block::SmallPlant(SmallPlant::DeadBush)))
    } else if str_eq(name, "brown_mushroom") {
        Some(Ok(Block::SmallPlant(SmallPlant::BrownMushroom)))
    } else if str_eq(name, "red_mushroom") {
        Some(Ok(Block::SmallPlant(SmallPlant::RedMushroom)))
    } else if str_eq(name, "dandelion") {
        Some(Ok(Block::SmallPlant(SmallPlant::Dandelion)))
    } else if str_eq(name, "poppy") {
        Some(Ok(Block::SmallPlant(SmallPlant::Poppy)))
    } else if str_eq(name, "cornflower") {
        Some(Ok(Block::SmallPlant(SmallPlant::Cornflower)))
    } else if str_eq(name, "blue_orchid") {
        Some(Ok(Block::SmallPlant(SmallPlant::BlueOrchid)))
    } else if str_eq(name, "allium") {
        Some(Ok(Block::SmallPlant(SmallPlant::Allium)))
    } else if str_eq(name, "azure_bluet") {
        Some(Ok(Block::SmallPlant(SmallPlant::AzureBluet)))
    } else if str_eq(name, "red_tulip") {
        Some(Ok(Block::SmallPlant(SmallPlant::RedTulip)))
    } else if str_eq(name, "orange_tulip") {
        Some(Ok(Block::SmallPlant(SmallPlant::OrangeTulip)))
    } else if str_eq(name, "white_tulip") {
        Some(Ok(Block::SmallPlant(SmallPlant::WhiteTulip)))
    } else if str_eq(name, "pink_tulip") {
        Some(Ok(Block::SmallPlant(SmallPlant::PinkTulip)))
    } else if str_eq(name, "oxeye_daisy") {
        Some(Ok(Block::SmallPlant(SmallPlant::OxeyeDaisy)))
    } else if str_eq(name, "seagrass") {
        Some(Ok(Block::SmallPlant(SmallPlant::Seagrass)))
    } else if str_eq(name, "tall_grass") {
        Some(tall_plant(TallPlant::Grass, props))
    } else if str_eq(name, "large_fern") {
        Some(tall_plant(TallPlant::Fern, props))
    } else if str_eq(name, "sunflower") {
        Some(tall_plant(TallPlant::Sunflower, props))
    } else if str_eq(name, "lilac") {
        Some(tall_plant(TallPlant::Lilac, props))
    } else if str_eq(name, "rose_bush") {
        Some(tall_plant(TallPlant::Rose, props))
    } else if str_eq(name, "peony") {
        Some(tall_plant(TallPlant::Peony, props))
    } else if str_eq(name, "snow") {
        Some(Ok(Block::SnowLayer))
    } else {
        None
    }
}

/// The rows of the table for fences, walls, slabs and stairs.
fn known_shapes(name: &str, props: &Vec<(String, String)>) -> (r: Option<
    Result<Block, BlockError>,
>)
    ensures
        r == spec_known_shapes(name@, props_view(props@)),
{
    if str_eq(name, "oak_fence") {
        Some(Ok(Block::Fence(BlockMaterial::Wood(TreeSpecies::Oak))))
    } else if str_eq(name, "spruce_fence") {
        Some(Ok(Block::Fence(BlockMaterial::Wood(TreeSpecies::Spruce))))
    } else if str_eq(name, "birch_fence") {
        Some(Ok(Block::Fence(BlockMaterial::Wood(TreeSpecies::Birch))))
    } else if str_eq(name, "jungle_fence") {
        Some(Ok(Block::Fence(BlockMaterial::Wood(TreeSpecies::Jungle))))
    } else if str_eq(name, "acacia_fence") {
        Some(Ok(Block::Fence(BlockMaterial::Wood(TreeSpecies::Acacia))))
    } else if str_eq(name, "dark_oak_fence") {
        Some(Ok(Block::Fence(BlockMaterial::Wood(TreeSpecies::DarkOak))))
    } else if str_eq(name, "cobblestone_wall") {
        Some(Ok(Block::Fence(BlockMaterial::MossyCobble)))
    } else if str_eq(name, "mossy_cobblestone_wall") {
        Some(Ok(Block::Fence(BlockMaterial::MossyCobble)))
    } else if str_eq(name, "oak_slab") {
        Some(slab(BlockMaterial::Wood(TreeSpecies::Oak), props))
    } else if str_eq(name, "spruce_slab") {
        Some(slab(BlockMaterial::Wood(TreeSpecies::Spruce), props))
    } else if str_eq(name, "birch_slab") {
        Some(slab(BlockMaterial::Wood(TreeSpecies::Birch), props))
    } else if str_eq(name, "jungle_slab") {
        Some(slab(BlockMaterial::Wood(TreeSpecies::Jungle), props))
    } else if str_eq(name, "acacia_slab") {
        Some(slab(BlockMaterial::Wood(TreeSpecies::Acacia), props))
    } else if str_eq(name, "dark_oak_slab") {
        Some(slab(BlockMaterial::Wood(TreeSpecies::DarkOak), props))
    } else if str_eq(name, "cobblestone_slab") {
        Some(slab(BlockMaterial::Cobble, props))
    } else if str_eq(name, "mossy_cobblestone_slab") {
        Some(slab(BlockMaterial::MossyCobble, props))
    } else if str_eq(name, "stone_brick_slab") {
        Some(slab(BlockMaterial::StoneBrick, props))
    } else if str_eq(name, "mossy_stone_brick_slab") {
        Some(slab(BlockMaterial::MossyStonebrick, props))
    } else if str_eq(name, "blackstone_slab") {
        Some(slab(BlockMaterial::Blackstone, props))
    } else if str_eq(name, "polished_blackstone_slab") {
        Some(slab(BlockMaterial::PolishedBlackstone, props))
    } else if str_eq(name, "mud_brick_slab") {
        Some(slab(BlockMaterial::MudBrick, props))
    } else if str_eq(name, "oak_stairs") {
        Some(stair(BlockMaterial::Wood(TreeSpecies::Oak), props))
    } else if str_eq(name, "spruce_stairs") {
        Some(stair(BlockMaterial::Wood(TreeSpecies::Spruce), props))
    } else if str_eq(name, "birch_stairs") {
        Some(stair(BlockMaterial::Wood(TreeSpecies::Birch), props))
    } else if str_eq(name, "jungle_stairs") {
        Some(stair(BlockMaterial::Wood(TreeSpecies::Jungle), props))
    } else if str_eq(name, "acacia_stairs") {
        Some(stair(BlockMaterial::Wood(TreeSpecies::Acacia), props))
    } else if str_eq(name, "dark_oak_stairs") {
        Some(stair(BlockMaterial::Wood(TreeSpecies::DarkOak), props))
    } else if str_eq(name, "cobblestone_stairs") {
        Some(stair(BlockMaterial::Cobble, props))
    } else if str_eq(name, "stone_brick_stairs") {
        Some(stair(BlockMaterial::StoneBrick, props))
    } else if str_eq(name, "blackstone_stairs") {
        Some(stair(BlockMaterial::Blackstone, props))
    } else if str_eq(name, "mud_brick_stairs") {
        Some(stair(BlockMaterial::MudBrick, props))
    } else {
        None
    }
}

/// The rows of the table for terracotta and what grows in swamps.
fn known_decor(name: &str, props: &Vec<(String, String)>) -> (r: Option<
    Result<Block, BlockError>,
>)
    ensures
        r == spec_known_decor(name@, props_view(props@)),
{
    if str_eq(name, "terracotta") {
        Some(Ok(Block::Terracotta(None)))
    } else if str_eq(name, "mushroom_stem") {
        Some(Ok(Block::MushroomStem))
    } else if str_eq(name, "mangrove_roots") {
        Some(Ok(Block::MangroveRoots))
    } else if str_eq(name, "muddy_mangrove_roots") {
        Some(Ok(Block::MuddyMangroveRoots))
    } else if str_eq(name, "white_terracotta") {
        Some(Ok(Block::Terracotta(Some(Color::White))))
    } else if str_eq(name, "orange_terracotta") {
        Some(Ok(Block::Terracotta(Some(Color::Orange))))
    } else if str_eq(name, "magenta_terracotta") {
        Some(Ok(Block::Terracotta(Some(Color::Magenta))))
    } else if str_eq(name, "light_blue_terracotta") {
        Some(Ok(Block::Terracotta(Some(Color::LightBlue))))
    } else if str_eq(name, "yellow_terracotta") {
        Some(Ok(Block::Terracotta(Some(Color::Yellow))))
    } else if str_eq(name, "lime_terracotta") {
        Some(Ok(Block::Terracotta(Some(Color::Lime))))
    } else if str_eq(name, "pink_terracotta") {
        Some(Ok(Block::Terracotta(Some(Color::Pink))))
    } else if str_eq(name, "gray_terracotta") {
        Some(Ok(Block::Terracotta(Some(Color::Gray))))
    } else if str_eq(name, "light_gray_terracotta") {
        Some(Ok(Block::Terracotta(Some(Color::LightGray))))
    } else if str_eq(name, "cyan_terracotta") {
        Some(Ok(Block::Terracotta(Some(Color::Cyan))))
    } else if str_eq(name, "purple_terracotta") {
        Some(Ok(Block::Terracotta(Some(Color::Purple))))
    } else if str_eq(name, "blue_terracotta") {
        Some(Ok(Block::Terracotta(Some(Color::Blue))))
    } else if str_eq(name, "brown_terracotta") {
        Some(Ok(Block::Terracotta(Some(Color::Brown))))
    } else if str_eq(name, "green_terracotta") {
        Some(Ok(Block::Terracotta(Some(Color::Green))))
    } else if str_eq(name, "red_terracotta") {
        Some(Ok(Block::Terracotta(Some(Color::Red))))
    } else if str_eq(name, "black_terracotta") {
        Some(Ok(Block::Terracotta(Some(Color::Black))))
    } else {
        None
    }
}

/// The rows of the table for things that are built and used.
fn known_fixtures(name: &str, props: &Vec<(String, String)>) -> (r: Option<
    Result<Block, BlockError>,
>)
    ensures
        r == spec_known_fixtures(name@, props_view(props@)),
{
    if str_eq(name, "cauldron") {
        Some(cauldron(props))
    } else if str_eq(name, "barrel") {
        Some(Ok(Block::Barrel))
    } else if str_eq(name, "oak_trapdoor") {
        Some(trapdoor(TreeSpecies::Oak, props))
    } else if str_eq(name, "spruce_trapdoor") {
        Some(trapdoor(TreeSpecies::Spruce, props))
    } else if str_eq(name, "oak_door") {
        Some(door(TreeSpecies::Oak, props))
    } else if str_eq(name, "spruce_door") {
        Some(door(TreeSpecies::Spruce, props))
    } else if str_eq(name, "bell") {
        Some(bell(props))
    } else if str_eq(name, "red_wall_banner") {
        Some(wall_banner(Color::Red, props))
    } else if str_eq(name, "white_wall_banner") {
        Some(wall_banner(Color::Red, props))
    } else if str_eq(name, "blue_wall_banner") {
        Some(wall_banner(Color::Red, props))
    } else if str_eq(name, "green_wall_banner") {
        Some(wall_banner(Color::Red, props))
    } else if str_eq(name, "yellow_wall_banner") {
        Some(wall_banner(Color::Red, props))
    } else if str_eq(name, "ladder") {
        Some(ladder(props))
    } else {
        None
    }
}

/// The block of a state that the table knows; `None` for a name that the
/// table does not hold.
pub fn known_block(name: &str, props: &Vec<(String, String)>) -> (r: Option<
    Result<Block, BlockError>,
>)
    ensures
        r == spec_known_block(name@, props_view(props@)),
        r matches Some(Ok(block)) ==> block.wf() && !(block is Other),
{
    let terrain = known_terrain(name, props);
    if terrain.is_some() {
        return terrain;
    }
    let wood = known_wood(name, props);
    if wood.is_some() {
        return wood;
    }
    let plants = known_plants(name, props);
    if plants.is_some() {
        return plants;
    }
    let shapes = known_shapes(name, props);
    if shapes.is_some() {
        return shapes;
    }
    let decor = known_decor(name, props);
    if decor.is_some() {
        return decor;
    }
    known_fixtures(name, props)
}

/// The name without the namespace `minecraft:` before it.
pub fn strip_namespace(name: &str) -> (r: &str)
    ensures
        r@ == spec_strip_namespace(name@),
{
    match strip_prefix(name, "minecraft:") {
        Some(rest) => rest,
        None => name,
    }
}

impl Block {
    /// Reads a named state as a block.
    ///
    /// A state that the table knows gives the block of its row and leaves
    /// the registry as it is; it fails with `MissingProperty` or
    /// `InvalidProperty` where its properties are not what the row needs,
    /// and with `OutOfDomain` where a number lies outside its domain. Any
    /// other state is interned in `unknown` and gives `Other` with its
    /// index there; the call fails with `RegistryFull` where the state is
    /// new and the registry has no index left. The same state always gives
    /// the same block.
    pub fn from_blockstate(state: Blockstate, unknown: &mut UnknownBlocks) -> (r: Result<
        Block,
        BlockError,
    >)
        requires
            old(unknown).wf(),
        ensures
            final(unknown).wf(),
            r == spec_decode(state@, old(unknown)@).0,
            final(unknown)@ == spec_decode(state@, old(unknown)@).1,
            r matches Ok(block) ==> block.encodable(final(unknown)@),
            forall|i: int| 0 <= i < old(unknown)@.len() ==> final(unknown)@[i] == old(unknown)@[i],
            old(unknown)@.len() <= final(unknown)@.len(),
    {
        match known_block(state.0.as_str(), &state.1) {
            Some(result) => result,
            None => match unknown.intern(state) {
                Ok(index) => Ok(Block::Other(index)),
                Err(e) => Err(e),
            },
        }
    }

    /// Reads a name and its properties as a block, as `from_blockstate`
    /// does, after taking the namespace `minecraft:` off the name.
    pub fn from_named(name: &str, props: Vec<(String, String)>, unknown: &mut UnknownBlocks) -> (r:
        Result<Block, BlockError>)
        requires
            old(unknown).wf(),
        ensures
            final(unknown).wf(),
            ({
                let state = StateView {
                    name: spec_strip_namespace(name@),
                    props: props_view(props@),
                };
                &&& r == spec_decode(state, old(unknown)@).0
                &&& final(unknown)@ == spec_decode(state, old(unknown)@).1
            }),
            r matches Ok(block) ==> block.encodable(final(unknown)@),
            forall|i: int| 0 <= i < old(unknown)@.len() ==> final(unknown)@[i] == old(unknown)@[i],
            old(unknown)@.len() <= final(unknown)@.len(),
    {
        let short = strip_namespace(name);
        let state = Blockstate::new(String::from_str(short), props);
        Block::from_blockstate(state, unknown)
    }
}

} // verus!
