//! The block model: one small value for each voxel.
//!
//! A block is a kind and, where the kind has any, a little state: a
//! material, a species of wood, a colour, an orientation. States that the
//! model does not know are kept in a registry and stand in the model as
//! `Block::Other` with their index there. The text of a command block
//! is kept in a store of commands, and the block holds its index there.

use crate::geometry::{lemma_axis_turns, lemma_haxis_turns, lemma_hdir_turns, Axis, HAxis, HDir};
use vstd::prelude::*;

verus! {

/// One voxel.
#[derive(Debug, Copy, Clone, PartialEq, Eq, Hash, Structural)]
pub enum Block {
    Air,
    Full(BlockMaterial),
    Slab(BlockMaterial, Half),
    Stair(BlockMaterial, HDir, Half),
    Fence(BlockMaterial),
    Ladder(HDir),
    Water,
    Lava,
    Dirt,
    Grass,
    Sand,
    Gravel,
    Farmland,
    Path,
    Podzol,
    CoarseDirt,
    SoulSand,
    PackedMud,
    Log(TreeSpecies, LogType),
    /// The distance from the nearest log, unless the leaves are persistent.
    Leaves(TreeSpecies, Option<i8>),
    SmallPlant(SmallPlant),
    TallPlant(TallPlant, Half),
    GroundPlant(GroundPlant),
    Wool(Color),
    Terracotta(Option<Color>),
    MushroomStem,
    MangroveRoots,
    MuddyMangroveRoots,
    SmoothQuartz,
    SnowLayer,
    Glowstone,
    GlassPane(Option<Color>),
    WallBanner(HDir, Color),
    Hay,
    /// The fill level, from 0 to 3.
    Cauldron { water: u8 },
    Barrel,
    Trapdoor(TreeSpecies, HDir, DoorMeta),
    Door(TreeSpecies, HDir, DoorMeta),
    Bell(HDir, BellAttachment),
    /// The direction and the delay, from 1 to 4.
    Repeater(HDir, u8),
    Rail(HAxis),
    Barrier,
    Bedrock,
    CraftingTable,
    Stonecutter(HAxis),
    /// A block that runs a command: the command's index in the store of
    /// commands.
    CommandBlock(u16),
    /// A state that the model does not know: its index in the registry.
    Other(u16),
}

/// Which half of its space a door or trapdoor takes, and whether it stands
/// open.
#[derive(Debug, Copy, Clone, PartialEq, Eq, Hash, Structural)]
pub enum DoorMeta {
    Bottom,
    Top,
    BottomOpen,
    TopOpen,
}

/// The shape of a piece of trunk.
#[derive(Debug, Copy, Clone, PartialEq, Eq, Hash, Structural)]
pub enum LogType {
    Normal(Axis),
    FullBark,
    Stripped(Axis),
}

/// The kinds of wood. Warped and crimson are fungi, whose trunks are stems.
#[derive(Debug, Copy, Clone, PartialEq, Eq, Hash, Structural)]
pub enum TreeSpecies {
    Oak,
    Spruce,
    Birch,
    Jungle,
    Acacia,
    DarkOak,
    Warped,
    Crimson,
    Mangrove,
    Cherry,
    Azalea,
    FloweringAzalea,
}

/// What grows on the ground and is cleared away before building.
#[derive(Debug, Copy, Clone, PartialEq, Eq, Hash, Structural)]
pub enum GroundPlant {
    Sapling(TreeSpecies),
    Cactus,
    Reeds,
    Pumpkin,
    Crop(Crop),
}

/// Plants of one block.
#[derive(Debug, Copy, Clone, PartialEq, Eq, Hash, Structural)]
pub enum SmallPlant {
    Grass,
    DeadBush,
    Fern,
    BrownMushroom,
    RedMushroom,
    Dandelion,
    Poppy,
    Cornflower,
    BlueOrchid,
    Allium,
    AzureBluet,
    RedTulip,
    OrangeTulip,
    WhiteTulip,
    PinkTulip,
    OxeyeDaisy,
    Seagrass,
}

/// Plants of two blocks, one half above the other.
#[derive(Debug, Copy, Clone, PartialEq, Eq, Hash, Structural)]
pub enum TallPlant {
    Grass,
    Fern,
    Sunflower,
    Lilac,
    Rose,
    Peony,
    Seagrass,
}

/// What is sown on farmland. Crops stand fully grown.
#[derive(Debug, Copy, Clone, PartialEq, Eq, Hash, Structural)]
pub enum Crop {
    Wheat,
    Carrot,
    Potato,
    Beetroot,
}

/// The sixteen colours of dyed blocks.
#[derive(Debug, Copy, Clone, PartialEq, Eq, Hash, Structural)]
pub enum Color {
    White,
    Orange,
    Magenta,
    LightBlue,
    Yellow,
    Lime,
    Pink,
    Gray,
    LightGray,
    Cyan,
    Purple,
    Blue,
    Brown,
    Green,
    Red,
    Black,
}

/// The lower or the upper half of a block's space.
#[derive(Debug, Copy, Clone, PartialEq, Eq, Hash, Structural)]
pub enum Half {
    Bottom,
    Top,
}

/// What full blocks, slabs, stairs and walls are made of.
#[derive(Debug, Copy, Clone, PartialEq, Eq, Hash, Structural)]
pub enum BlockMaterial {
    Stone,
    SmoothStone,
    Granite,
    PolishedGranite,
    Diorite,
    PolishedDiorite,
    Andesite,
    PolishedAndesite,
    Wood(TreeSpecies),
    Cobble,
    MossyCobble,
    StoneBrick,
    MossyStonebrick,
    Brick,
    Sandstone,
    SmoothSandstone,
    RedSandstone,
    SmoothRedSandstone,
    Blackstone,
    PolishedBlackstone,
    PolishedBlackstoneBrick,
    MudBrick,
}

/// How a bell hangs.
#[derive(Debug, Copy, Clone, PartialEq, Eq, Hash, Structural)]
pub enum BellAttachment {
    Floor,
    Ceiling,
    SingleWall,
    DoubleWall,
}

impl DoorMeta {
    /// Whether it is the upper half.
    pub open spec fn spec_top(self) -> bool {
        self == DoorMeta::Top || self == DoorMeta::TopOpen
    }

    /// Whether it stands open.
    pub open spec fn spec_open(self) -> bool {
        self == DoorMeta::BottomOpen || self == DoorMeta::TopOpen
    }

    /// The upper half where `top` holds, open where `open` holds.
    pub open spec fn spec_new(top: bool, open: bool) -> DoorMeta {
        if top {
            if open {
                DoorMeta::TopOpen
            } else {
                DoorMeta::Top
            }
        } else {
            if open {
                DoorMeta::BottomOpen
            } else {
                DoorMeta::Bottom
            }
        }
    }

    /// The lower half, closed.
    pub fn empty() -> (r: DoorMeta)
        ensures
            r == DoorMeta::Bottom,
            !r.spec_top(),
            !r.spec_open(),
    {
        DoorMeta::Bottom
    }

    /// The upper half where `top` holds, open where `open` holds.
    pub fn new(top: bool, open: bool) -> (r: DoorMeta)
        ensures
            r == DoorMeta::spec_new(top, open),
            r.spec_top() == top,
            r.spec_open() == open,
    {
        if top {
            if open {
                DoorMeta::TopOpen
            } else {
                DoorMeta::Top
            }
        } else {
            if open {
                DoorMeta::BottomOpen
            } else {
                DoorMeta::Bottom
            }
        }
    }

    /// Whether it is the upper half.
    pub fn top(self) -> (r: bool)
        ensures
            r == self.spec_top(),
    {
        match self {
            DoorMeta::Top | DoorMeta::TopOpen => true,
            _ => false,
        }
    }

    /// Whether it stands open.
    pub fn open(self) -> (r: bool)
        ensures
            r == self.spec_open(),
    {
        match self {
            DoorMeta::BottomOpen | DoorMeta::TopOpen => true,
            _ => false,
        }
    }
}

impl Default for Block {
    fn default() -> (r: Block)
        ensures
            r == Block::Air,
    {
        Block::Air
    }
}

impl TreeSpecies {
    /// The name of the species in the names of its blocks.
    pub open spec fn spec_to_str(self) -> Seq<char> {
        match self {
            TreeSpecies::Oak => "oak"@,
            TreeSpecies::Spruce => "spruce"@,
            TreeSpecies::Birch => "birch"@,
            TreeSpecies::Jungle => "jungle"@,
            TreeSpecies::Acacia => "acacia"@,
            TreeSpecies::DarkOak => "dark_oak"@,
            TreeSpecies::Warped => "warped"@,
            TreeSpecies::Crimson => "crimson"@,
            TreeSpecies::Mangrove => "mangrove"@,
            TreeSpecies::Cherry => "cherry"@,
            TreeSpecies::Azalea => "azalea"@,
            TreeSpecies::FloweringAzalea => "flowering_azalea"@,
        }
    }

    /// The name of the species in the names of its blocks.
    pub fn to_str(self) -> (r: &'static str)
        ensures
            r@ == self.spec_to_str(),
    {
        match self {
            TreeSpecies::Oak => "oak",
            TreeSpecies::Spruce => "spruce",
            TreeSpecies::Birch => "birch",
            TreeSpecies::Jungle => "jungle",
            TreeSpecies::Acacia => "acacia",
            TreeSpecies::DarkOak => "dark_oak",
            TreeSpecies::Warped => "warped",
            TreeSpecies::Crimson => "crimson",
            TreeSpecies::Mangrove => "mangrove",
            TreeSpecies::Cherry => "cherry",
            TreeSpecies::Azalea => "azalea",
            TreeSpecies::FloweringAzalea => "flowering_azalea",
        }
    }
}

impl Color {
    /// The name of the colour in the names of dyed blocks.
    pub open spec fn spec_to_str(self) -> Seq<char> {
        match self {
            Color::White => "white"@,
            Color::Orange => "orange"@,
            Color::Magenta => "magenta"@,
            Color::LightBlue => "light_blue"@,
            Color::Yellow => "yellow"@,
            Color::Lime => "lime"@,
            Color::Pink => "pink"@,
            Color::Gray => "gray"@,
            Color::LightGray => "light_gray"@,
            Color::Cyan => "cyan"@,
            Color::Purple => "purple"@,
            Color::Blue => "blue"@,
            Color::Brown => "brown"@,
            Color::Green => "green"@,
            Color::Red => "red"@,
            Color::Black => "black"@,
        }
    }

    /// The name of the colour in the names of dyed blocks.
    pub fn to_str(self) -> (r: &'static str)
        ensures
            r@ == self.spec_to_str(),
    {
        match self {
            Color::White => "white",
            Color::Orange => "orange",
            Color::Magenta => "magenta",
            Color::LightBlue => "light_blue",
            Color::Yellow => "yellow",
            Color::Lime => "lime",
            Color::Pink => "pink",
            Color::Gray => "gray",
            Color::LightGray => "light_gray",
            Color::Cyan => "cyan",
            Color::Purple => "purple",
            Color::Blue => "blue",
            Color::Brown => "brown",
            Color::Green => "green",
            Color::Red => "red",
            Color::Black => "black",
        }
    }
}

impl SmallPlant {
    /// The name of the plant's block.
    pub open spec fn spec_to_str(self) -> Seq<char> {
        match self {
            SmallPlant::Grass => "grass"@,
            SmallPlant::DeadBush => "dead_bush"@,
            SmallPlant::Fern => "fern"@,
            SmallPlant::BrownMushroom => "brown_mushroom"@,
            SmallPlant::RedMushroom => "red_mushroom"@,
            SmallPlant::Dandelion => "dandelion"@,
            SmallPlant::Poppy => "poppy"@,
            SmallPlant::Cornflower => "cornflower"@,
            SmallPlant::BlueOrchid => "blue_orchid"@,
            SmallPlant::Allium => "allium"@,
            SmallPlant::AzureBluet => "azure_bluet"@,
            SmallPlant::RedTulip => "red_tulip"@,
            SmallPlant::OrangeTulip => "orange_tulip"@,
            SmallPlant::WhiteTulip => "white_tulip"@,
            SmallPlant::PinkTulip => "pink_tulip"@,
            SmallPlant::OxeyeDaisy => "oxeye_daisy"@,
            SmallPlant::Seagrass => "seagrass"@,
        }
    }

    /// The name of the plant's block.
    pub fn to_str(self) -> (r: &'static str)
        ensures
            r@ == self.spec_to_str(),
    {
        match self {
            SmallPlant::Grass => "grass",
            SmallPlant::DeadBush => "dead_bush",
            SmallPlant::Fern => "fern",
            SmallPlant::BrownMushroom => "brown_mushroom",
            SmallPlant::RedMushroom => "red_mushroom",
            SmallPlant::Dandelion => "dandelion",
            SmallPlant::Poppy => "poppy",
            SmallPlant::Cornflower => "cornflower",
            SmallPlant::BlueOrchid => "blue_orchid",
            SmallPlant::Allium => "allium",
            SmallPlant::AzureBluet => "azure_bluet",
            SmallPlant::RedTulip => "red_tulip",
            SmallPlant::OrangeTulip => "orange_tulip",
            SmallPlant::WhiteTulip => "white_tulip",
            SmallPlant::PinkTulip => "pink_tulip",
            SmallPlant::OxeyeDaisy => "oxeye_daisy",
            SmallPlant::Seagrass => "seagrass",
        }
    }
}

impl TallPlant {
    /// The name of the plant's block.
    pub open spec fn spec_to_str(self) -> Seq<char> {
        match self {
            TallPlant::Grass => "tall_grass"@,
            TallPlant::Fern => "large_fern"@,
            TallPlant::Sunflower => "sunflower"@,
            TallPlant::Lilac => "lilac"@,
            TallPlant::Rose => "rose_bush"@,
            TallPlant::Peony => "peony"@,
            TallPlant::Seagrass => "tall_seagrass"@,
        }
    }

    /// The name of the plant's block.
    pub fn to_str(self) -> (r: &'static str)
        ensures
            r@ == self.spec_to_str(),
    {
        match self {
            TallPlant::Grass => "tall_grass",
            TallPlant::Fern => "large_fern",
            TallPlant::Sunflower => "sunflower",
            TallPlant::Lilac => "lilac",
            TallPlant::Rose => "rose_bush",
            TallPlant::Peony => "peony",
            TallPlant::Seagrass => "tall_seagrass",
        }
    }
}

impl Crop {
    /// The name of the crop's block.
    pub open spec fn spec_to_str(self) -> Seq<char> {
        match self {
            Crop::Wheat => "wheat"@,
            Crop::Carrot => "carrot"@,
            Crop::Potato => "potato"@,
            Crop::Beetroot => "beetroot"@,
        }
    }

    /// The name of the crop's block.
    pub fn to_str(self) -> (r: &'static str)
        ensures
            r@ == self.spec_to_str(),
    {
        match self {
            Crop::Wheat => "wheat",
            Crop::Carrot => "carrot",
            Crop::Potato => "potato",
            Crop::Beetroot => "beetroot",
        }
    }
}

impl BellAttachment {
    /// The value of a bell's `attachment` property.
    pub open spec fn spec_to_str(self) -> Seq<char> {
        match self {
            BellAttachment::Floor => "floor"@,
            BellAttachment::Ceiling => "ceiling"@,
            BellAttachment::SingleWall => "single_wall"@,
            BellAttachment::DoubleWall => "double_wall"@,
        }
    }

    /// The value of a bell's `attachment` property.
    pub fn to_str(self) -> (r: &'static str)
        ensures
            r@ == self.spec_to_str(),
    {
        match self {
            BellAttachment::Floor => "floor",
            BellAttachment::Ceiling => "ceiling",
            BellAttachment::SingleWall => "single_wall",
            BellAttachment::DoubleWall => "double_wall",
        }
    }
}

impl BlockMaterial {
    /// The name of the material in the names of slabs, stairs and walls.
    /// Wood goes by the name of its species.
    pub open spec fn spec_to_str(self) -> Seq<char> {
        match self {
            BlockMaterial::Wood(species) => species.spec_to_str(),
            BlockMaterial::Stone => "stone"@,
            BlockMaterial::SmoothStone => "smooth_stone"@,
            BlockMaterial::Granite => "granite"@,
            BlockMaterial::PolishedGranite => "polished_granite"@,
            BlockMaterial::Diorite => "diorite"@,
            BlockMaterial::PolishedDiorite => "polished_diorite"@,
            BlockMaterial::Andesite => "andesite"@,
            BlockMaterial::PolishedAndesite => "polished_andesite"@,
            BlockMaterial::Cobble => "cobblestone"@,
            BlockMaterial::MossyCobble => "mossy_cobblestone"@,
            BlockMaterial::StoneBrick => "stone_brick"@,
            BlockMaterial::MossyStonebrick => "mossy_stone_brick"@,
            BlockMaterial::Brick => "brick"@,
            BlockMaterial::Sandstone => "sandstone"@,
            BlockMaterial::SmoothSandstone => "smooth_sandstone"@,
            BlockMaterial::RedSandstone => "red_sandstone"@,
            BlockMaterial::SmoothRedSandstone => "smooth_red_sandstone"@,
            BlockMaterial::Blackstone => "blackstone"@,
            BlockMaterial::PolishedBlackstone => "polished_blackstone"@,
            BlockMaterial::PolishedBlackstoneBrick => "polished_blackstone_brick"@,
            BlockMaterial::MudBrick => "mud_brick"@,
        }
    }

    /// The name of the material in the names of slabs, stairs and walls.
    /// Wood goes by the name of its species.
    pub fn to_str(self) -> (r: &'static str)
        ensures
            r@ == self.spec_to_str(),
    {
        match self {
            BlockMaterial::Wood(species) => species.to_str(),
            BlockMaterial::Stone => "stone",
            BlockMaterial::SmoothStone => "smooth_stone",
            BlockMaterial::Granite => "granite",
            BlockMaterial::PolishedGranite => "polished_granite",
            BlockMaterial::Diorite => "diorite",
            BlockMaterial::PolishedDiorite => "polished_diorite",
            BlockMaterial::Andesite => "andesite",
            BlockMaterial::PolishedAndesite => "polished_andesite",
            BlockMaterial::Cobble => "cobblestone",
            BlockMaterial::MossyCobble => "mossy_cobblestone",
            BlockMaterial::StoneBrick => "stone_brick",
            BlockMaterial::MossyStonebrick => "mossy_stone_brick",
            BlockMaterial::Brick => "brick",
            BlockMaterial::Sandstone => "sandstone",
            BlockMaterial::SmoothSandstone => "smooth_sandstone",
            BlockMaterial::RedSandstone => "red_sandstone",
            BlockMaterial::SmoothRedSandstone => "smooth_red_sandstone",
            BlockMaterial::Blackstone => "blackstone",
            BlockMaterial::PolishedBlackstone => "polished_blackstone",
            BlockMaterial::PolishedBlackstoneBrick => "polished_blackstone_brick",
            BlockMaterial::MudBrick => "mud_brick",
        }
    }
}

impl Half {
    /// The value of the `type` property of a slab and of the `half`
    /// property of stairs and trapdoors.
    pub open spec fn spec_to_str(self) -> Seq<char> {
        match self {
            Half::Top => "top"@,
            Half::Bottom => "bottom"@,
        }
    }

    /// The value of the `half` property of a plant or a door of two blocks.
    pub open spec fn spec_tall_str(self) -> Seq<char> {
        match self {
            Half::Top => "upper"@,
            Half::Bottom => "lower"@,
        }
    }

    /// The value of the `type` property of a slab and of the `half`
    /// property of stairs and trapdoors.
    pub fn to_str(self) -> (r: &'static str)
        ensures
            r@ == self.spec_to_str(),
    {
        match self {
            Half::Top => "top",
            Half::Bottom => "bottom",
        }
    }

    /// The value of the `half` property of a plant or a door of two blocks.
    pub fn tall_str(self) -> (r: &'static str)
        ensures
            r@ == self.spec_tall_str(),
    {
        match self {
            Half::Top => "upper",
            Half::Bottom => "lower",
        }
    }
}

impl Block {
    /// Whether the block's numbers lie in their domains: a cauldron's level
    /// from 0 to 3, a repeater's delay from 1 to 4.
    pub open spec fn wf(self) -> bool {
        match self {
            Block::Cauldron { water } => water <= 3,
            Block::Repeater(_, delay) => 1 <= delay <= 4,
            _ => true,
        }
    }

    /// Whether the block fills its space so that nothing passes through.
    pub open spec fn spec_solid(self) -> bool {
        !(self is Air || self is Water || self is Lava || self is SmallPlant || self is TallPlant
            || self is GroundPlant || self is Leaves || self is SnowLayer || self is Ladder
            || self is Trapdoor || self is Door || self is WallBanner || self is Repeater
            || self is Rail)
    }

    /// Whether one can stand on the block.
    pub open spec fn spec_walkable(self) -> bool {
        self.spec_solid() || self is Ladder
    }

    /// Whether the block is natural ground.
    pub open spec fn spec_soil(self) -> bool {
        self is Dirt || self is Grass || self is Sand || self is Gravel || self is Farmland
            || self is Path || self is Podzol || self is CoarseDirt || self is SoulSand
            || self is PackedMud
    }

    /// Whether the block is natural ground other than sand.
    pub open spec fn spec_dirtsoil(self) -> bool {
        self.spec_soil() && !(self is Sand)
    }

    /// Whether no path may lead through the block.
    pub open spec fn spec_no_pathing(self) -> bool {
        self is Water || self is Lava || self == Block::GroundPlant(GroundPlant::Cactus)
    }

    /// Whether the block is a piece of trunk, of whatever shape.
    pub open spec fn spec_is_log(self) -> bool {
        self is Log
    }

    /// Whether the block is a fluid that counts as a water surface.
    pub open spec fn spec_is_water(self) -> bool {
        self is Water
    }

    /// Whether the block counts as ground: solid, and no piece of trunk.
    pub open spec fn spec_is_ground(self) -> bool {
        self.spec_solid() && !self.spec_is_log()
    }

    /// The block after `turns` clockwise quarter turns about the vertical.
    /// Logs, rails and stonecutters exchange their horizontal axes on an odd
    /// number of turns; stairs, wall banners, repeaters, trapdoors and doors
    /// turn their direction; every other block stays as it is.
    pub open spec fn spec_rotated(self, turns: int) -> Block {
        match self {
            Block::Log(species, LogType::Normal(axis)) => Block::Log(
                species,
                LogType::Normal(axis.spec_rotated(turns)),
            ),
            Block::Log(species, LogType::Stripped(axis)) => Block::Log(
                species,
                LogType::Stripped(axis.spec_rotated(turns)),
            ),
            Block::Rail(axis) => Block::Rail(axis.spec_rotated(turns)),
            Block::Stonecutter(axis) => Block::Stonecutter(axis.spec_rotated(turns)),
            Block::Stair(material, facing, half) => Block::Stair(
                material,
                facing.spec_rotated(turns),
                half,
            ),
            Block::WallBanner(facing, color) => Block::WallBanner(
                facing.spec_rotated(turns),
                color,
            ),
            Block::Repeater(facing, delay) => Block::Repeater(facing.spec_rotated(turns), delay),
            Block::Trapdoor(species, facing, meta) => Block::Trapdoor(
                species,
                facing.spec_rotated(turns),
                meta,
            ),
            Block::Door(species, facing, meta) => Block::Door(
                species,
                facing.spec_rotated(turns),
                meta,
            ),
            _ => self,
        }
    }

    /// The block with oak replaced by `species`, where it is made of oak.
    pub open spec fn spec_swap_wood_type(self, species: TreeSpecies) -> Block {
        match self {
            Block::Full(BlockMaterial::Wood(TreeSpecies::Oak)) => Block::Full(
                BlockMaterial::Wood(species),
            ),
            Block::Slab(BlockMaterial::Wood(TreeSpecies::Oak), half) => Block::Slab(
                BlockMaterial::Wood(species),
                half,
            ),
            Block::Stair(BlockMaterial::Wood(TreeSpecies::Oak), facing, half) => Block::Stair(
                BlockMaterial::Wood(species),
                facing,
                half,
            ),
            Block::Fence(BlockMaterial::Wood(TreeSpecies::Oak)) => Block::Fence(
                BlockMaterial::Wood(species),
            ),
            Block::Log(TreeSpecies::Oak, shape) => Block::Log(species, shape),
            Block::Leaves(TreeSpecies::Oak, distance) => Block::Leaves(species, distance),
            Block::Trapdoor(TreeSpecies::Oak, facing, meta) => Block::Trapdoor(
                species,
                facing,
                meta,
            ),
            Block::Door(TreeSpecies::Oak, facing, meta) => Block::Door(species, facing, meta),
            _ => self,
        }
    }

    /// Whether the block's numbers lie in their domains.
    pub fn is_valid(self) -> (r: bool)
        ensures
            r == self.wf(),
    {
        match self {
            Block::Cauldron { water } => water <= 3,
            Block::Repeater(_, delay) => 1 <= delay && delay <= 4,
            _ => true,
        }
    }

    /// Whether the block fills its space so that nothing passes through.
    pub fn solid(self) -> (r: bool)
        ensures
            r == self.spec_solid(),
    {
        match self {
            Block::Air
            | Block::Water
            | Block::Lava
            | Block::SmallPlant(..)
            | Block::TallPlant(..)
            | Block::GroundPlant(..)
            | Block::Leaves(..)
            | Block::SnowLayer
            | Block::Ladder(..)
            | Block::Trapdoor(..)
            | Block::Door(..)
            | Block::WallBanner(..)
            | Block::Repeater(..)
            | Block::Rail(..) => false,
            _ => true,
        }
    }

    /// Whether one can stand on the block: it is solid, or a ladder.
    pub fn walkable(self) -> (r: bool)
        ensures
            r == self.spec_walkable(),
    {
        self.solid() || self.climbable()
    }

    /// Whether the block is natural ground.
    pub fn soil(self) -> (r: bool)
        ensures
            r == self.spec_soil(),
    {
        match self {
            Block::Dirt
            | Block::Grass
            | Block::Sand
            | Block::Gravel
            | Block::Farmland
            | Block::Path
            | Block::Podzol
            | Block::CoarseDirt
            | Block::SoulSand
            | Block::PackedMud => true,
            _ => false,
        }
    }

    /// Whether the block is natural ground other than sand.
    pub fn dirtsoil(self) -> (r: bool)
        ensures
            r == self.spec_dirtsoil(),
    {
        match self {
            Block::Dirt
            | Block::Grass
            | Block::Gravel
            | Block::Farmland
            | Block::Path
            | Block::Podzol
            | Block::CoarseDirt
            | Block::SoulSand
            | Block::PackedMud => true,
            _ => false,
        }
    }

    /// Whether no path may lead through the block: water, lava, cactus.
    pub fn no_pathing(self) -> (r: bool)
        ensures
            r == self.spec_no_pathing(),
    {
        match self {
            Block::Water | Block::Lava | Block::GroundPlant(GroundPlant::Cactus) => true,
            _ => false,
        }
    }

    /// Whether the block is a ladder.
    pub fn climbable(self) -> (r: bool)
        ensures
            r == (self is Ladder),
    {
        match self {
            Block::Ladder(..) => true,
            _ => false,
        }
    }

    /// Whether the block counts as ground for the height of a column:
    /// solid, and no piece of trunk.
    pub fn is_ground(self) -> (r: bool)
        ensures
            r == self.spec_is_ground(),
    {
        match self {
            Block::Log(..) => false,
            _ => self.solid(),
        }
    }

    /// Whether the block is a fluid that counts as a water surface.
    pub fn is_water(self) -> (r: bool)
        ensures
            r == self.spec_is_water(),
    {
        match self {
            Block::Water => true,
            _ => false,
        }
    }

    /// The block after `turns` clockwise quarter turns about the vertical.
    pub fn rotated(self, turns: i32) -> (r: Block)
        ensures
            r == self.spec_rotated(turns as int),
            self.wf() ==> r.wf(),
    {
        match self {
            Block::Log(species, LogType::Normal(axis)) => Block::Log(
                species,
                LogType::Normal(axis.rotated(turns)),
            ),
            Block::Log(species, LogType::Stripped(axis)) => Block::Log(
                species,
                LogType::Stripped(axis.rotated(turns)),
            ),
            Block::Rail(axis) => Block::Rail(axis.rotated(turns)),
            Block::Stonecutter(axis) => Block::Stonecutter(axis.rotated(turns)),
            Block::Stair(material, facing, half) => Block::Stair(
                material,
                facing.rotated(turns),
                half,
            ),
            Block::WallBanner(facing, color) => Block::WallBanner(facing.rotated(turns), color),
            Block::Repeater(facing, delay) => Block::Repeater(facing.rotated(turns), delay),
            Block::Trapdoor(species, facing, meta) => Block::Trapdoor(
                species,
                facing.rotated(turns),
                meta,
            ),
            Block::Door(species, facing, meta) => Block::Door(
                species,
                facing.rotated(turns),
                meta,
            ),
            _ => self,
        }
    }

    /// The block with oak replaced by `species`, where it is made of oak.
    pub fn swap_wood_type(self, species: TreeSpecies) -> (r: Block)
        ensures
            r == self.spec_swap_wood_type(species),
            self.wf() ==> r.wf(),
    {
        match self {
            Block::Full(BlockMaterial::Wood(TreeSpecies::Oak)) => Block::Full(
                BlockMaterial::Wood(species),
            ),
            Block::Slab(BlockMaterial::Wood(TreeSpecies::Oak), half) => Block::Slab(
                BlockMaterial::Wood(species),
                half,
            ),
            Block::Stair(BlockMaterial::Wood(TreeSpecies::Oak), facing, half) => Block::Stair(
                BlockMaterial::Wood(species),
                facing,
                half,
            ),
            Block::Fence(BlockMaterial::Wood(TreeSpecies::Oak)) => Block::Fence(
                BlockMaterial::Wood(species),
            ),
            Block::Log(TreeSpecies::Oak, shape) => Block::Log(species, shape),
            Block::Leaves(TreeSpecies::Oak, distance) => Block::Leaves(species, distance),
            Block::Trapdoor(TreeSpecies::Oak, facing, meta) => Block::Trapdoor(
                species,
                facing,
                meta,
            ),
            Block::Door(TreeSpecies::Oak, facing, meta) => Block::Door(species, facing, meta),
            _ => self,
        }
    }
}

impl std::ops::BitOr<Block> for Block {
    type Output = Block;

    /// This block where it is solid, else `rhs`.
    fn bitor(self, rhs: Block) -> (r: Block) {
        if self.solid() {
            self
        } else {
            rhs
        }
    }
}

impl vstd::std_specs::ops::BitOrSpecImpl<Block> for Block {
    open spec fn obeys_bitor_spec() -> bool {
        true
    }

    open spec fn bitor_req(self, rhs: Block) -> bool {
        true
    }

    open spec fn bitor_spec(self, rhs: Block) -> Block {
        if self.spec_solid() {
            self
        } else {
            rhs
        }
    }
}

impl std::ops::BitOrAssign for Block {
    /// Keeps this block where it is solid, else takes `rhs`.
    fn bitor_assign(&mut self, rhs: Block)
        ensures
            *final(self) == if old(self).spec_solid() {
                *old(self)
            } else {
                rhs
            },
    {
        if !self.solid() {
            *self = rhs;
        }
    }
}

/// A log that lies along a horizontal axis lies along the other one after a
/// quarter turn, and along its own again after two quarter turns, whether
/// made at once or one after the other. An upright log never changes.
pub proof fn lemma_log_rotation(species: TreeSpecies, shape: LogType)
    ensures
        ({
            let log = Block::Log(species, shape);
            &&& log.spec_rotated(1).spec_rotated(1) == log
            &&& log.spec_rotated(2) == log
            &&& shape == LogType::Normal(Axis::X) ==> log.spec_rotated(1) == Block::Log(
                species,
                LogType::Normal(Axis::Z),
            )
            &&& shape == LogType::Normal(Axis::Z) ==> log.spec_rotated(1) == Block::Log(
                species,
                LogType::Normal(Axis::X),
            )
            &&& shape == LogType::Stripped(Axis::X) ==> log.spec_rotated(1) == Block::Log(
                species,
                LogType::Stripped(Axis::Z),
            )
            &&& shape == LogType::Stripped(Axis::Z) ==> log.spec_rotated(1) == Block::Log(
                species,
                LogType::Stripped(Axis::X),
            )
            &&& (shape == LogType::Normal(Axis::Y) || shape == LogType::Stripped(Axis::Y) || shape
                == LogType::FullBark) ==> log.spec_rotated(1) == log
        }),
{
}

/// Turning a block by `a` quarter turns and then by `b` is turning it by
/// `a + b`; four quarter turns change nothing.
pub proof fn lemma_rotation_composes(block: Block, a: int, b: int)
    ensures
        block.spec_rotated(a).spec_rotated(b) == block.spec_rotated(a + b),
        block.spec_rotated(4) == block,
        block.spec_rotated(0) == block,
{
    match block {
        Block::Log(_, LogType::Normal(axis)) => lemma_axis_turns(axis, a, b),
        Block::Log(_, LogType::Stripped(axis)) => lemma_axis_turns(axis, a, b),
        Block::Rail(axis) => lemma_haxis_turns(axis, a, b),
        Block::Stonecutter(axis) => lemma_haxis_turns(axis, a, b),
        Block::Stair(_, facing, _) => lemma_hdir_turns(facing, a, b),
        Block::WallBanner(facing, _) => lemma_hdir_turns(facing, a, b),
        Block::Repeater(facing, _) => lemma_hdir_turns(facing, a, b),
        Block::Trapdoor(_, facing, _) => lemma_hdir_turns(facing, a, b),
        Block::Door(_, facing, _) => lemma_hdir_turns(facing, a, b),
        _ => {},
    }
}

} // verus!
