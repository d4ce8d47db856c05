//! From a block to its named state.

use crate::block::{
    Block, BlockMaterial, Crop, GroundPlant, LogType, SmallPlant, TallPlant, TreeSpecies,
};
use crate::blockstate::{joined, property, props_view, Blockstate, StateView};
use crate::geometry::HAxis;
use crate::registry::UnknownBlocks;
use crate::text::{format_i8, format_u8, spec_digits, spec_format_int};
use vstd::prelude::*;

verus! {

/// Whether the species is one of the two fungi, whose trunks are stems and
/// hyphae.
pub open spec fn spec_is_fungus(species: TreeSpecies) -> bool {
    species == TreeSpecies::Warped || species == TreeSpecies::Crimson
}

/// The name of a piece of trunk.
pub open spec fn spec_log_name(species: TreeSpecies, shape: LogType) -> Seq<char> {
    match shape {
        LogType::Normal(_) => if spec_is_fungus(species) {
            species.spec_to_str() + "_stem"@
        } else {
            species.spec_to_str() + "_log"@
        },
        LogType::FullBark => if spec_is_fungus(species) {
            species.spec_to_str() + "_hyphae"@
        } else {
            species.spec_to_str() + "_wood"@
        },
        LogType::Stripped(_) => if spec_is_fungus(species) {
            species.spec_to_str() + "_stem"@
        } else {
            "stripped_"@ + species.spec_to_str() + "_log"@
        },
    }
}

/// The name of a full block of the material.
pub open spec fn spec_full_name(material: BlockMaterial) -> Seq<char> {
    match material {
        BlockMaterial::Wood(species) => species.spec_to_str() + "_planks"@,
        BlockMaterial::Brick => "bricks"@,
        BlockMaterial::StoneBrick => "stone_bricks"@,
        BlockMaterial::MossyStonebrick => "mossy_stone_bricks"@,
        BlockMaterial::MudBrick => "mud_bricks"@,
        BlockMaterial::PolishedBlackstoneBrick => "polished_blackstone_bricks"@,
        _ => material.spec_to_str(),
    }
}

/// The name of a plant that grows on the ground.
pub open spec fn spec_ground_plant_name(plant: GroundPlant) -> Seq<char> {
    match plant {
        GroundPlant::Sapling(species) => species.spec_to_str() + "_sapling"@,
        GroundPlant::Cactus => "cactus"@,
        GroundPlant::Reeds => "sugar_cane"@,
        GroundPlant::Pumpkin => "pumpkin"@,
        GroundPlant::Crop(crop) => crop.spec_to_str(),
    }
}

/// The name under which storage knows the block. For `Other` it is the
/// empty string: the registry holds the name.
pub open spec fn spec_block_name(block: Block) -> Seq<char> {
    match block {
        Block::Air => "air"@,
        Block::Full(material) => spec_full_name(material),
        Block::Slab(material, _) => material.spec_to_str() + "_slab"@,
        Block::Stair(material, _, _) => material.spec_to_str() + "_stairs"@,
        Block::Fence(material) => match material {
            BlockMaterial::Wood(species) => species.spec_to_str() + "_fence"@,
            _ => material.spec_to_str() + "_wall"@,
        },
        Block::Ladder(_) => "ladder"@,
        Block::Water => "water"@,
        Block::Lava => "lava"@,
        Block::Dirt => "dirt"@,
        Block::Grass => "grass_block"@,
        Block::Sand => "sand"@,
        Block::Gravel => "gravel"@,
        Block::Farmland => "farmland"@,
        Block::Path => "grass_path"@,
        Block::Podzol => "podzol"@,
        Block::CoarseDirt => "coarse_dirt"@,
        Block::SoulSand => "soul_sand"@,
        Block::PackedMud => "packed_mud"@,
        Block::Log(species, shape) => spec_log_name(species, shape),
        Block::Leaves(species, _) => species.spec_to_str() + "_leaves"@,
        Block::SmallPlant(plant) => plant.spec_to_str(),
        Block::TallPlant(plant, _) => plant.spec_to_str(),
        Block::GroundPlant(plant) => spec_ground_plant_name(plant),
        Block::Wool(color) => color.spec_to_str() + "_wool"@,
        Block::Terracotta(Some(color)) => color.spec_to_str() + "_terracotta"@,
        Block::Terracotta(None) => "terracotta"@,
        Block::MushroomStem => "mushroom_stem"@,
        Block::MangroveRoots => "mangrove_roots"@,
        Block::MuddyMangroveRoots => "muddy_mangrove_roots"@,
        Block::SmoothQuartz => "smooth_quartz"@,
        Block::SnowLayer => "snow"@,
        Block::Glowstone => "glowstone"@,
        Block::GlassPane(Some(color)) => color.spec_to_str() + "_stained_glass_pane"@,
        Block::GlassPane(None) => "glass_pane"@,
        Block::WallBanner(_, color) => color.spec_to_str() + "_wall_banner"@,
        Block::Hay => "hay_block"@,
        Block::Cauldron { .. } => "cauldron"@,
        Block::Barrel => "barrel"@,
        Block::Trapdoor(species, _, _) => species.spec_to_str() + "_trapdoor"@,
        Block::Door(species, _, _) => species.spec_to_str() + "_door"@,
        Block::Bell(_, _) => "bell"@,
        Block::Repeater(_, _) => "repeater"@,
        Block::Rail(_) => "rail"@,
        Block::Barrier => "barrier"@,
        Block::Bedrock => "bedrock"@,
        Block::CraftingTable => "crafting_table"@,
        Block::Stonecutter(_) => "stonecutter"@,
        Block::CommandBlock(_) => "command_block"@,
        Block::Other(_) => Seq::empty(),
    }
}

/// The value of the `open` property.
pub open spec fn spec_bool_str(b: bool) -> Seq<char> {
    if b {
        "true"@
    } else {
        "false"@
    }
}

/// The properties that storage keeps with the block, in their order. For
/// `Other` there are none: the registry holds them.
pub open spec fn spec_block_props(block: Block) -> Seq<(Seq<char>, Seq<char>)> {
    match block {
        Block::Slab(_, half) => seq![("type"@, half.spec_to_str())],
        Block::Stair(_, facing, half) => seq![
            ("half"@, half.spec_to_str()),
            ("facing"@, facing.spec_to_str()),
        ],
        Block::Ladder(facing) => seq![("facing"@, facing.spec_to_str())],
        Block::Log(_, LogType::Normal(axis)) => seq![("axis"@, axis.spec_to_str())],
        Block::Log(_, LogType::Stripped(axis)) => seq![("axis"@, axis.spec_to_str())],
        Block::Leaves(_, Some(distance)) => seq![
            ("persistent"@, "false"@),
            ("distance"@, spec_format_int(distance as int)),
        ],
        Block::Leaves(_, None) => seq![("persistent"@, "true"@)],
        Block::TallPlant(_, half) => seq![("half"@, half.spec_tall_str())],
        Block::GroundPlant(GroundPlant::Crop(Crop::Beetroot)) => seq![("age"@, "3"@)],
        Block::GroundPlant(GroundPlant::Crop(_)) => seq![("age"@, "7"@)],
        Block::SnowLayer => seq![("layers"@, "1"@)],
        Block::WallBanner(facing, _) => seq![("facing"@, facing.spec_to_str())],
        Block::Cauldron { water } => seq![("level"@, spec_digits(water as nat))],
        Block::Trapdoor(_, facing, meta) => seq![
            ("facing"@, facing.spec_to_str()),
            ("half"@, if meta.spec_top() {
                "top"@
            } else {
                "bottom"@
            }),
            ("open"@, spec_bool_str(meta.spec_open())),
        ],
        Block::Door(_, facing, meta) => seq![
            ("facing"@, facing.spec_to_str()),
            ("half"@, if meta.spec_top() {
                "upper"@
            } else {
                "lower"@
            }),
            ("open"@, spec_bool_str(meta.spec_open())),
        ],
        Block::Bell(facing, attachment) => seq![
            ("facing"@, facing.spec_to_str()),
            ("attachment"@, attachment.spec_to_str()),
        ],
        Block::Repeater(facing, delay) => seq![
            ("delay"@, spec_digits(delay as nat)),
            ("facing"@, facing.spec_to_str()),
        ],
        Block::Rail(axis) => seq![
            ("shape"@, match axis {
                HAxis::X => "north_south"@,
                HAxis::Z => "east_west"@,
            }),
        ],
        Block::Stonecutter(axis) => seq![
            ("facing"@, match axis {
                HAxis::X => "south"@,
                HAxis::Z => "east"@,
            }),
        ],
        _ => seq![],
    }
}

/// The named state of `block`. A block that the model knows has the name
/// and the properties of its kind; `Other` has the state that the registry
/// `unknown` holds at its index.
pub open spec fn spec_blockstate(block: Block, unknown: Seq<StateView>) -> StateView {
    match block {
        Block::Other(index) => unknown[index as int],
        _ => StateView { name: spec_block_name(block), props: spec_block_props(block) },
    }
}

/// The value of the `open` property.
fn bool_str(b: bool) -> (r: &'static str)
    ensures
        r@ == spec_bool_str(b),
{
    if b {
        "true"
    } else {
        "false"
    }
}

/// Three parts, one after the other.
fn joined3(a: &str, b: &str, c: &str) -> (r: String)
    ensures
        r@ == a@ + b@ + c@,
{
    let mut s = String::from_str(a);
    s.append(b);
    s.append(c);
    s
}

/// The name of a piece of trunk.
fn log_name(species: TreeSpecies, shape: LogType) -> (r: String)
    ensures
        r@ == spec_log_name(species, shape),
{
    let fungus: bool = match species {
        TreeSpecies::Warped | TreeSpecies::Crimson => true,
        _ => false,
    };
    match shape {
        LogType::Normal(_) => if fungus {
            joined(species.to_str(), "_stem")
        } else {
            joined(species.to_str(), "_log")
        },
        LogType::FullBark => if fungus {
            joined(species.to_str(), "_hyphae")
        } else {
            joined(species.to_str(), "_wood")
        },
        LogType::Stripped(_) => if fungus {
            joined(species.to_str(), "_stem")
        } else {
            joined3("stripped_", species.to_str(), "_log")
        },
    }
}

/// The name of a block that the model knows.
fn block_name(block: Block) -> (r: String)
    requires
        !(block is Other),
    ensures
        r@ == spec_block_name(block),
{
    match block {
        Block::Air => String::from_str("air"),
        Block::Full(material) => match material {
            BlockMaterial::Wood(species) => joined(species.to_str(), "_planks"),
            BlockMaterial::Brick => String::from_str("bricks"),
            BlockMaterial::StoneBrick => String::from_str("stone_bricks"),
            BlockMaterial::MossyStonebrick => String::from_str("mossy_stone_bricks"),
            BlockMaterial::MudBrick => String::from_str("mud_bricks"),
            BlockMaterial::PolishedBlackstoneBrick => String::from_str(
                "polished_blackstone_bricks",
            ),
            _ => String::from_str(material.to_str()),
        },
        Block::Slab(material, _) => joined(material.to_str(), "_slab"),
        Block::Stair(material, _, _) => joined(material.to_str(), "_stairs"),
        Block::Fence(material) => match material {
            BlockMaterial::Wood(species) => joined(species.to_str(), "_fence"),
            _ => joined(material.to_str(), "_wall"),
        },
        Block::Ladder(_) => String::from_str("ladder"),
        Block::Water => String::from_str("water"),
        Block::Lava => String::from_str("lava"),
        Block::Dirt => String::from_str("dirt"),
        Block::Grass => String::from_str("grass_block"),
        Block::Sand => String::from_str("sand"),
        Block::Gravel => String::from_str("gravel"),
        Block::Farmland => String::from_str("farmland"),
        Block::Path => String::from_str("grass_path"),
        Block::Podzol => String::from_str("podzol"),
        Block::CoarseDirt => String::from_str("coarse_dirt"),
        Block::SoulSand => String::from_str("soul_sand"),
        Block::PackedMud => String::from_str("packed_mud"),
        Block::Log(species, shape) => log_name(species, shape),
        Block::Leaves(species, _) => joined(species.to_str(), "_leaves"),
        Block::SmallPlant(plant) => String::from_str(plant.to_str()),
        Block::TallPlant(plant, _) => String::from_str(plant.to_str()),
        Block::GroundPlant(plant) => match plant {
            GroundPlant::Sapling(species) => joined(species.to_str(), "_sapling"),
            GroundPlant::Cactus => String::from_str("cactus"),
            GroundPlant::Reeds => String::from_str("sugar_cane"),
            GroundPlant::Pumpkin => String::from_str("pumpkin"),
            GroundPlant::Crop(crop) => String::from_str(crop.to_str()),
        },
        Block::Wool(color) => joined(color.to_str(), "_wool"),
        Block::Terracotta(Some(color)) => joined(color.to_str(), "_terracotta"),
        Block::Terracotta(None) => String::from_str("terracotta"),
        Block::MushroomStem => String::from_str("mushroom_stem"),
        Block::MangroveRoots => String::from_str("mangrove_roots"),
        Block::MuddyMangroveRoots => String::from_str("muddy_mangrove_roots"),
        Block::SmoothQuartz => String::from_str("smooth_quartz"),
        Block::SnowLayer => String::from_str("snow"),
        Block::Glowstone => String::from_str("glowstone"),
        Block::GlassPane(Some(color)) => joined(color.to_str(), "_stained_glass_pane"),
        Block::GlassPane(None) => String::from_str("glass_pane"),
        Block::WallBanner(_, color) => joined(color.to_str(), "_wall_banner"),
        Block::Hay => String::from_str("hay_block"),
        Block::Cauldron { .. } => String::from_str("cauldron"),
        Block::Barrel => String::from_str("barrel"),
        Block::Trapdoor(species, _, _) => joined(species.to_str(), "_trapdoor"),
        Block::Door(species, _, _) => joined(species.to_str(), "_door"),
        Block::Bell(_, _) => String::from_str("bell"),
        Block::Repeater(_, _) => String::from_str("repeater"),
        Block::Rail(_) => String::from_str("rail"),
        Block::Barrier => String::from_str("barrier"),
        Block::Bedrock => String::from_str("bedrock"),
        Block::CraftingTable => String::from_str("crafting_table"),
        Block::Stonecutter(_) => String::from_str("stonecutter"),
        Block::CommandBlock(_) => String::from_str("command_block"),
        Block::Other(_) => String::new(),
    }
}

/// A list of one property.
fn one_prop(a: (String, String)) -> (r: Vec<(String, String)>)
    ensures
        props_view(r@) == seq![(a.0@, a.1@)],
{
    let mut v: Vec<(String, String)> = Vec::new();
    v.push(a);
    assert(props_view(v@) =~= seq![(a.0@, a.1@)]);
    v
}

/// A list of two properties.
fn two_props(a: (String, String), b: (String, String)) -> (r: Vec<(String, String)>)
    ensures
        props_view(r@) == seq![(a.0@, a.1@), (b.0@, b.1@)],
{
    let mut v: Vec<(String, String)> = Vec::new();
    v.push(a);
    v.push(b);
    assert(props_view(v@) =~= seq![(a.0@, a.1@), (b.0@, b.1@)]);
    v
}

/// A list of three properties.
fn three_props(a: (String, String), b: (String, String), c: (String, String)) -> (r: Vec<
    (String, String),
>)
    ensures
        props_view(r@) == seq![(a.0@, a.1@), (b.0@, b.1@), (c.0@, c.1@)],
{
    let mut v: Vec<(String, String)> = Vec::new();
    v.push(a);
    v.push(b);
    v.push(c);
    assert(props_view(v@) =~= seq![(a.0@, a.1@), (b.0@, b.1@), (c.0@, c.1@)]);
    v
}

/// The properties of a block that the model knows.
fn block_props(block: Block) -> (r: Vec<(String, String)>)
    requires
        !(block is Other),
    ensures
        props_view(r@) == spec_block_props(block),
{
    match block {
        Block::Slab(_, half) => one_prop(property("type", half.to_str())),
        Block::Stair(_, facing, half) => two_props(
            property("half", half.to_str()),
            property("facing", facing.to_str()),
        ),
        Block::Ladder(facing) => one_prop(property("facing", facing.to_str())),
        Block::Log(_, LogType::Normal(axis)) => one_prop(property("axis", axis.to_str())),
        Block::Log(_, LogType::Stripped(axis)) => one_prop(property("axis", axis.to_str())),
        Block::Leaves(_, Some(distance)) => {
            let digits = format_i8(distance);
            two_props(property("persistent", "false"), property("distance", digits.as_str()))
        },
        Block::Leaves(_, None) => one_prop(property("persistent", "true")),
        Block::TallPlant(_, half) => one_prop(property("half", half.tall_str())),
        Block::GroundPlant(GroundPlant::Crop(Crop::Beetroot)) => one_prop(property("age", "3")),
        Block::GroundPlant(GroundPlant::Crop(_)) => one_prop(property("age", "7")),
        Block::SnowLayer => one_prop(property("layers", "1")),
        Block::WallBanner(facing, _) => one_prop(property("facing", facing.to_str())),
        Block::Cauldron { water } => {
            let digits = format_u8(water);
            one_prop(property("level", digits.as_str()))
        },
        Block::Trapdoor(_, facing, meta) => three_props(
            property("facing", facing.to_str()),
            property("half", if meta.top() {
                "top"
            } else {
                "bottom"
            }),
            property("open", bool_str(meta.open())),
        ),
        Block::Door(_, facing, meta) => three_props(
            property("facing", facing.to_str()),
            property("half", if meta.top() {
                "upper"
            } else {
                "lower"
            }),
            property("open", bool_str(meta.open())),
        ),
        Block::Bell(facing, attachment) => two_props(
            property("facing", facing.to_str()),
            property("attachment", attachment.to_str()),
        ),
        Block::Repeater(facing, delay) => {
            let digits = format_u8(delay);
            two_props(property("delay", digits.as_str()), property("facing", facing.to_str()))
        },
        Block::Rail(axis) => one_prop(
            property("shape", match axis {
                HAxis::X => "north_south",
                HAxis::Z => "east_west",
            }),
        ),
        Block::Stonecutter(axis) => one_prop(
            property("facing", match axis {
                HAxis::X => "south",
                HAxis::Z => "east",
            }),
        ),
        _ => {
            let v: Vec<(String, String)> = Vec::new();
            assert(props_view(v@) =~= seq![]);
            v
        },
    }
}

impl Block {
    /// Whether the block can be written: its numbers lie in their domains,
    /// and the registry holds a state at the index of an `Other`.
    pub open spec fn encodable(self, unknown: Seq<StateView>) -> bool {
        self.wf() && (self matches Block::Other(index) ==> index < unknown.len())
    }

    /// The named state of the block: the name and the properties under
    /// which storage knows it. For `Other` it is the state that `unknown`
    /// holds at the block's index.
    pub fn blockstate(&self, unknown: &UnknownBlocks) -> (r: Blockstate)
        requires
            self.encodable(unknown@),
        ensures
            r@ == spec_blockstate(*self, unknown@),
    {
        match *self {
            Block::Other(index) => crate::registry::debug_read_unknown(unknown, index),
            block => Blockstate::new(block_name(block), block_props(block)),
        }
    }
}

} // verus!
