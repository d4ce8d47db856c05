//! Sections and chunks.
//!
//! A section is a cube of 16 by 16 by 16 blocks. A chunk is a pile of 24
//! places for sections, from 64 below zero to 320 above; a place without a
//! section is all air. With its blocks a chunk keeps, for each of its 256
//! columns, the height of the ground and the height of the water on it.

use crate::block::Block;
use vstd::prelude::*;

verus! {

/// The number of blocks in a section.
pub const SECTION_BLOCKS: usize = 4096;

/// The number of places for sections in a chunk.
pub const CHUNK_SECTIONS: usize = 24;

/// The number of columns in a chunk.
pub const CHUNK_COLUMNS: usize = 256;

/// The number of biome cells in a chunk: one for 4 by 4 columns.
pub const CHUNK_BIOMES: usize = 16;

/// The lowest height that a chunk stores.
pub const MIN_Y: i32 = -64;

/// The first height above those that a chunk stores.
pub const MAX_Y: i32 = 320;

/// The height of a column without ground.
pub const NO_GROUND: i32 = 0;

/// A biome, by its number in storage.
#[derive(Debug, Copy, Clone, PartialEq, Eq, Hash, Structural)]
pub struct Biome(pub i32);

/// A cube of 16 by 16 by 16 blocks. The block at `(x, y, z)` of the cube
/// stands at place `x + 16 * z + 256 * y`.
#[derive(Debug)]
pub struct Section {
    blocks: Vec<Block>,
}

/// A pile of sections with what is kept for each of its columns.
#[derive(Debug)]
pub struct Chunk {
    sections: Vec<Option<Section>>,
    biome: Vec<Biome>,
    heightmap: Vec<i32>,
    watermap: Vec<Option<i32>>,
}

/// What a chunk holds.
pub ghost struct ChunkView {
    /// For each place the blocks of its section, if it has one.
    pub sections: Seq<Option<Seq<Block>>>,
    pub biome: Seq<Biome>,
    pub heights: Seq<i32>,
    pub water: Seq<Option<i32>>,
}

/// The place in a section of the block at `(x, y, z)` of the section.
pub open spec fn spec_block_place(x: int, y: int, z: int) -> int {
    x + 16 * z + 256 * y
}

/// The place in a chunk of the column at `(x, z)` of the chunk.
pub open spec fn spec_column_place(x: int, z: int) -> int {
    x + 16 * z
}

/// The place in a chunk of the section that holds the height `y`.
pub open spec fn spec_section_place(y: int) -> int {
    y / 16 + 4
}

/// Whether the sections are those of a chunk: 24 places, and 4096 blocks in
/// each section.
pub open spec fn sections_wf(sections: Seq<Option<Seq<Block>>>) -> bool {
    &&& sections.len() == CHUNK_SECTIONS
    &&& forall|s: int|
        0 <= s < sections.len() ==> (#[trigger] sections[s] matches Some(blocks) ==> blocks.len()
            == SECTION_BLOCKS)
}

/// The block at height `y` of the column `(x, z)`: air where the chunk has
/// no section there.
pub open spec fn spec_column_block(sections: Seq<Option<Seq<Block>>>, x: int, z: int, y: int)
    -> Block {
    match sections[spec_section_place(y)] {
        Some(blocks) => blocks[spec_block_place(x, y % 16, z)],
        None => Block::Air,
    }
}

/// The height of the highest ground below `top` in the column `(x, z)`.
/// Ground is a block that is solid and no piece of trunk.
pub open spec fn spec_ground_below(sections: Seq<Option<Seq<Block>>>, x: int, z: int, top: int)
    -> Option<int>
    decreases top - MIN_Y,
{
    if top <= MIN_Y {
        None
    } else if spec_column_block(sections, x, z, top - 1).spec_is_ground() {
        Some(top - 1)
    } else {
        spec_ground_below(sections, x, z, top - 1)
    }
}

/// The height of the highest water below `top` and above `floor` in the
/// column `(x, z)`.
pub open spec fn spec_water_between(
    sections: Seq<Option<Seq<Block>>>,
    x: int,
    z: int,
    top: int,
    floor: int,
) -> Option<int>
    decreases top - floor,
{
    if top - 1 <= floor {
        None
    } else if spec_column_block(sections, x, z, top - 1).spec_is_water() {
        Some(top - 1)
    } else {
        spec_water_between(sections, x, z, top - 1, floor)
    }
}

/// The height of the ground in the column `(x, z)`: that of its highest
/// block that is solid and no piece of trunk, and `NO_GROUND` where it has
/// none.
pub open spec fn spec_height(sections: Seq<Option<Seq<Block>>>, x: int, z: int) -> int {
    match spec_ground_below(sections, x, z, MAX_Y as int) {
        Some(y) => y,
        None => NO_GROUND as int,
    }
}

/// The height of the water in the column `(x, z)`: that of its highest
/// block of water above the ground, if there is one.
pub open spec fn spec_water_level(sections: Seq<Option<Seq<Block>>>, x: int, z: int) -> Option<
    int,
> {
    match spec_ground_below(sections, x, z, MAX_Y as int) {
        Some(ground) => spec_water_between(sections, x, z, MAX_Y as int, ground),
        None => spec_water_between(sections, x, z, MAX_Y as int, MIN_Y - 1),
    }
}

/// Whether the stored water level is the given one.
pub open spec fn same_level(level: Option<int>, stored: Option<i32>) -> bool {
    match level {
        Some(y) => stored matches Some(w) && w == y,
        None => stored is None,
    }
}

/// Whether the heights and water levels are those that the blocks give.
pub open spec fn spec_derived(
    sections: Seq<Option<Seq<Block>>>,
    heights: Seq<i32>,
    water: Seq<Option<i32>>,
) -> bool {
    &&& heights.len() == CHUNK_COLUMNS
    &&& water.len() == CHUNK_COLUMNS
    &&& forall|x: int, z: int|
        0 <= x < 16 && 0 <= z < 16 ==> {
            &&& heights[#[trigger] spec_column_place(x, z)] == spec_height(sections, x, z)
            &&& same_level(spec_water_level(sections, x, z), water[spec_column_place(x, z)])
        }
}

/// The heights of the ground that the blocks give, column by column.
pub open spec fn spec_heights(sections: Seq<Option<Seq<Block>>>) -> Seq<i32> {
    Seq::new(CHUNK_COLUMNS as nat, |c: int| spec_height(sections, c % 16, c / 16) as i32)
}

/// The heights of the water that the blocks give, column by column.
pub open spec fn spec_water_levels(sections: Seq<Option<Seq<Block>>>) -> Seq<Option<i32>> {
    Seq::new(
        CHUNK_COLUMNS as nat,
        |c: int|
            match spec_water_level(sections, c % 16, c / 16) {
                Some(y) => Some(y as i32),
                None => None,
            },
    )
}

/// The chunk of the given sections as it is when read: with the heights
/// that its blocks give, and no biome known.
pub open spec fn spec_chunk_of(sections: Seq<Option<Seq<Block>>>) -> ChunkView {
    ChunkView {
        sections,
        biome: Seq::new(CHUNK_BIOMES as nat, |c: int| Biome(0)),
        heights: spec_heights(sections),
        water: spec_water_levels(sections),
    }
}

/// What a chunk without sections and without ground holds.
pub open spec fn spec_empty_chunk() -> ChunkView {
    ChunkView {
        sections: Seq::new(CHUNK_SECTIONS as nat, |s: int| None::<Seq<Block>>),
        biome: Seq::new(CHUNK_BIOMES as nat, |c: int| Biome(0)),
        heights: Seq::new(CHUNK_COLUMNS as nat, |c: int| NO_GROUND),
        water: Seq::new(CHUNK_COLUMNS as nat, |c: int| None::<i32>),
    }
}

/// The highest ground lies within the heights that a chunk stores.
pub proof fn lemma_ground_in_range(sections: Seq<Option<Seq<Block>>>, x: int, z: int, top: int)
    ensures
        spec_ground_below(sections, x, z, top) matches Some(y) ==> MIN_Y <= y < top
            && spec_column_block(sections, x, z, y).spec_is_ground(),
    decreases top - MIN_Y,
{
    if top > MIN_Y {
        lemma_ground_in_range(sections, x, z, top - 1);
    }
}

/// The highest water lies between the floor and the top.
pub proof fn lemma_water_in_range(
    sections: Seq<Option<Seq<Block>>>,
    x: int,
    z: int,
    top: int,
    floor: int,
)
    ensures
        spec_water_between(sections, x, z, top, floor) matches Some(y) ==> floor < y < top
            && spec_column_block(sections, x, z, y).spec_is_water(),
    decreases top - floor,
{
    if top - 1 > floor {
        lemma_water_in_range(sections, x, z, top - 1, floor);
    }
}

/// Lowering the floor by one finds the same water, or else the block on
/// the old floor.
proof fn lemma_water_lower_floor(
    sections: Seq<Option<Seq<Block>>>,
    x: int,
    z: int,
    top: int,
    floor: int,
)
    requires
        floor < top,
    ensures
        spec_water_between(sections, x, z, top, floor - 1) == match spec_water_between(
            sections,
            x,
            z,
            top,
            floor,
        ) {
            Some(y) => Some(y),
            None => if spec_column_block(sections, x, z, floor).spec_is_water() {
                Some(floor)
            } else {
                None
            },
        },
    decreases top - floor,
{
    if top - 1 > floor {
        lemma_water_lower_floor(sections, x, z, top - 1, floor);
    } else {
        assert(spec_water_between(sections, x, z, top - 1, floor - 1) is None);
    }
}

/// Where `count` heights below `top` are all air, neither ground nor water
/// is found among them.
proof fn lemma_skip_air(
    sections: Seq<Option<Seq<Block>>>,
    x: int,
    z: int,
    top: int,
    count: int,
    above: int,
)
    requires
        0 <= count,
        top <= above,
        forall|y: int|
            top - count <= y < top ==> spec_column_block(sections, x, z, y) == Block::Air,
    ensures
        spec_ground_below(sections, x, z, top) == spec_ground_below(sections, x, z, top - count),
        spec_water_between(sections, x, z, above, top - count - 1) == spec_water_between(
            sections,
            x,
            z,
            above,
            top - 1,
        ),
    decreases count,
{
    if count > 0 {
        lemma_skip_air(sections, x, z, top, count - 1, above);
        let y = top - count;
        assert(spec_column_block(sections, x, z, y) == Block::Air);
        lemma_water_lower_floor(sections, x, z, above, y);
    }
}

impl View for Section {
    type V = Seq<Block>;

    closed spec fn view(&self) -> Seq<Block> {
        self.blocks@
    }
}

impl Section {
    /// Whether the section holds 4096 blocks.
    pub open spec fn wf(&self) -> bool {
        self@.len() == SECTION_BLOCKS
    }

    /// A section of air.
    pub fn new() -> (r: Section)
        ensures
            r.wf(),
            forall|i: int| 0 <= i < SECTION_BLOCKS ==> r@[i] == Block::Air,
    {
        let mut blocks: Vec<Block> = Vec::new();
        let mut i: usize = 0;
        while i < SECTION_BLOCKS
            invariant
                i <= SECTION_BLOCKS,
                blocks.len() == i,
                forall|j: int| 0 <= j < i ==> blocks[j] == Block::Air,
            decreases SECTION_BLOCKS - i,
        {
            blocks.push(Block::Air);
            i = i + 1;
        }
        Section { blocks }
    }

    /// A section of the given blocks.
    pub fn from_blocks(blocks: Vec<Block>) -> (r: Section)
        requires
            blocks.len() == SECTION_BLOCKS,
        ensures
            r.wf(),
            r@ == blocks@,
    {
        Section { blocks }
    }

    /// The block at place `i`.
    pub fn get(&self, i: usize) -> (b: Block)
        requires
            self.wf(),
            i < SECTION_BLOCKS,
        ensures
            b == self@[i as int],
    {
        self.blocks[i]
    }

    /// Puts `block` at place `i`.
    pub fn set(&mut self, i: usize, block: Block)
        requires
            old(self).wf(),
            i < SECTION_BLOCKS,
        ensures
            final(self).wf(),
            final(self)@ == old(self)@.update(i as int, block),
    {
        self.blocks[i] = block;
    }

    /// The blocks of the section, in the order of their places.
    pub fn blocks(&self) -> (r: &Vec<Block>)
        ensures
            r@ == self@,
    {
        &self.blocks
    }
}

impl Default for Section {
    fn default() -> (r: Section)
        ensures
            r.wf(),
            forall|i: int| 0 <= i < SECTION_BLOCKS ==> r@[i] == Block::Air,
    {
        Section::new()
    }
}

/// For each place the blocks of its section, if it has one.
pub open spec fn sections_view(sections: Seq<Option<Section>>) -> Seq<Option<Seq<Block>>> {
    sections.map_values(
        |s: Option<Section>|
            match s {
                Some(section) => Some(section@),
                None => None,
            },
    )
}

/// The height of the ground and of the water in the column `(x, z)`.
pub fn derive_column(sections: &Vec<Option<Section>>, x: usize, z: usize) -> (r: (
    i32,
    Option<i32>,
))
    requires
        sections_wf(sections_view(sections@)),
        x < 16,
        z < 16,
    ensures
        r.0 == spec_height(sections_view(sections@), x as int, z as int),
        same_level(spec_water_level(sections_view(sections@), x as int, z as int), r.1),
{
    let ghost all = sections_view(sections@);
    let ghost gx = x as int;
    let ghost gz = z as int;
    let mut water: Option<i32> = None;
    let mut s: usize = CHUNK_SECTIONS;
    while s > 0
        invariant
            0 <= s <= CHUNK_SECTIONS,
            all == sections_view(sections@),
            sections_wf(all),
            gx == x,
            gz == z,
            x < 16,
            z < 16,
            spec_ground_below(all, gx, gz, MAX_Y as int) == spec_ground_below(
                all,
                gx,
                gz,
                16 * s - 64,
            ),
            same_level(spec_water_between(all, gx, gz, MAX_Y as int, 16 * s - 65), water),
        decreases s,
    {
        s = s - 1;
        let ghost base = 16 * s - 64;
        assert(all[s as int] == match sections[s as int] {
            Some(section) => Some(section@),
            None => None,
        });
        match &sections[s] {
            None => {
                proof {
                    assert forall|y: int| base <= y < base + 16 implies spec_column_block(
                        all,
                        gx,
                        gz,
                        y,
                    ) == Block::Air by {
                        assert(spec_section_place(y) == s);
                    }
                    lemma_skip_air(all, gx, gz, base + 16, 16, MAX_Y as int);
                }
            },
            Some(section) => {
                let mut y: usize = 16;
                while y > 0
                    invariant
                        0 <= y <= 16,
                        s < CHUNK_SECTIONS,
                        base == 16 * s - 64,
                        all == sections_view(sections@),
                        sections_wf(all),
                        all[s as int] == Some(section@),
                        section.wf(),
                        gx == x,
                        gz == z,
                        x < 16,
                        z < 16,
                        spec_ground_below(all, gx, gz, MAX_Y as int) == spec_ground_below(
                            all,
                            gx,
                            gz,
                            base + y,
                        ),
                        same_level(
                            spec_water_between(all, gx, gz, MAX_Y as int, base + y - 1),
                            water,
                        ),
                    decreases y,
                {
                    y = y - 1;
                    let block = section.get(x + 16 * z + 256 * y);
                    let height: i32 = 16 * (s as i32) - 64 + y as i32;
                    proof {
                        assert(spec_section_place(height as int) == s);
                        assert(height as int % 16 == y);
                        assert(spec_column_block(all, gx, gz, height as int) == block);
                        lemma_water_lower_floor(all, gx, gz, MAX_Y as int, height as int);
                        lemma_water_in_range(all, gx, gz, MAX_Y as int, height as int);
                    }
                    if block.is_ground() {
                        return (height, water);
                    }
                    if block.is_water() && water.is_none() {
                        water = Some(height);
                    }
                }
            },
        }
    }
    (NO_GROUND, water)
}

impl View for Chunk {
    type V = ChunkView;

    closed spec fn view(&self) -> ChunkView {
        ChunkView {
            sections: sections_view(self.sections@),
            biome: self.biome@,
            heights: self.heightmap@,
            water: self.watermap@,
        }
    }
}

impl ChunkView {
    /// The block at `(x, y, z)` of the chunk, with `y` a height of the
    /// world: air where the chunk has no section there.
    pub open spec fn block(self, x: int, y: int, z: int) -> Block {
        spec_column_block(self.sections, x, z, y)
    }

    /// What the chunk holds after `block` was put at `(x, y, z)`: a place
    /// without a section gets one of air first.
    pub open spec fn with_block(self, x: int, y: int, z: int, block: Block) -> ChunkView {
        let place = spec_section_place(y);
        let before = match self.sections[place] {
            Some(blocks) => blocks,
            None => Seq::new(SECTION_BLOCKS as nat, |i: int| Block::Air),
        };
        ChunkView {
            sections: self.sections.update(
                place,
                Some(before.update(spec_block_place(x, y % 16, z), block)),
            ),
            ..self
        }
    }
}

impl Chunk {
    /// Whether the chunk has its 24 places, 4096 blocks in each section,
    /// and a height, a water level and a biome for each of its columns and
    /// cells.
    pub open spec fn wf(&self) -> bool {
        &&& sections_wf(self@.sections)
        &&& self@.heights.len() == CHUNK_COLUMNS
        &&& self@.water.len() == CHUNK_COLUMNS
        &&& self@.biome.len() == CHUNK_BIOMES
    }

    /// A chunk without sections and without ground.
    pub fn new() -> (r: Chunk)
        ensures
            r.wf(),
            r@ == spec_empty_chunk(),
    {
        let mut sections: Vec<Option<Section>> = Vec::new();
        let mut i: usize = 0;
        while i < CHUNK_SECTIONS
            invariant
                i <= CHUNK_SECTIONS,
                sections.len() == i,
                forall|j: int| 0 <= j < i ==> sections[j] is None,
            decreases CHUNK_SECTIONS - i,
        {
            sections.push(None);
            i = i + 1;
        }
        let mut heightmap: Vec<i32> = Vec::new();
        let mut watermap: Vec<Option<i32>> = Vec::new();
        let mut c: usize = 0;
        while c < CHUNK_COLUMNS
            invariant
                c <= CHUNK_COLUMNS,
                heightmap.len() == c,
                watermap.len() == c,
                forall|j: int| 0 <= j < c ==> heightmap[j] == NO_GROUND,
                forall|j: int| 0 <= j < c ==> watermap[j] is None,
            decreases CHUNK_COLUMNS - c,
        {
            heightmap.push(NO_GROUND);
            watermap.push(None);
            c = c + 1;
        }
        let mut biome: Vec<Biome> = Vec::new();
        let mut b: usize = 0;
        while b < CHUNK_BIOMES
            invariant
                b <= CHUNK_BIOMES,
                biome.len() == b,
                forall|j: int| 0 <= j < b ==> biome[j] == Biome(0),
            decreases CHUNK_BIOMES - b,
        {
            biome.push(Biome(0));
            b = b + 1;
        }
        let r = Chunk { sections, biome, heightmap, watermap };
        proof {
            let expected = spec_empty_chunk();
            assert(r@.sections =~= expected.sections);
            assert(r@.biome =~= expected.biome);
            assert(r@.heights =~= expected.heights);
            assert(r@.water =~= expected.water);
        }
        r
    }

    /// A chunk of the given sections, with the heights of ground and water
    /// that their blocks give.
    pub fn from_sections(sections: Vec<Option<Section>>) -> (r: Chunk)
        requires
            sections_wf(sections_view(sections@)),
        ensures
            r.wf(),
            r@ == spec_chunk_of(sections_view(sections@)),
            spec_derived(r@.sections, r@.heights, r@.water),
    {
        let ghost all = sections_view(sections@);
        let mut heightmap: Vec<i32> = Vec::new();
        let mut watermap: Vec<Option<i32>> = Vec::new();
        let mut z: usize = 0;
        while z < 16
            invariant
                z <= 16,
                all == sections_view(sections@),
                sections_wf(all),
                heightmap.len() == 16 * z,
                watermap.len() == 16 * z,
                forall|c: int|
                    0 <= c < heightmap.len() ==> (#[trigger] heightmap[c]) == spec_height(
                        all,
                        c % 16,
                        c / 16,
                    ),
                forall|c: int|
                    0 <= c < watermap.len() ==> same_level(
                        spec_water_level(all, c % 16, c / 16),
                        #[trigger] watermap[c],
                    ),
            decreases 16 - z,
        {
            let mut x: usize = 0;
            while x < 16
                invariant
                    x <= 16,
                    z < 16,
                    all == sections_view(sections@),
                    sections_wf(all),
                    heightmap.len() == 16 * z + x,
                    watermap.len() == 16 * z + x,
                    forall|c: int|
                        0 <= c < heightmap.len() ==> (#[trigger] heightmap[c]) == spec_height(
                            all,
                            c % 16,
                            c / 16,
                        ),
                    forall|c: int|
                        0 <= c < watermap.len() ==> same_level(
                            spec_water_level(all, c % 16, c / 16),
                            #[trigger] watermap[c],
                        ),
                decreases 16 - x,
            {
                let (height, water) = derive_column(&sections, x, z);
                heightmap.push(height);
                watermap.push(water);
                x = x + 1;
            }
            z = z + 1;
        }
        assert forall|cx: int, cz: int| 0 <= cx < 16 && 0 <= cz < 16 implies {
            &&& heightmap@[#[trigger] spec_column_place(cx, cz)] == spec_height(all, cx, cz)
            &&& same_level(spec_water_level(all, cx, cz), watermap@[spec_column_place(cx, cz)])
        } by {
            let c = spec_column_place(cx, cz);
            assert(c % 16 == cx && c / 16 == cz);
            assert(heightmap[c] == spec_height(all, c % 16, c / 16));
            assert(same_level(spec_water_level(all, c % 16, c / 16), watermap[c]));
        }
        let mut biome: Vec<Biome> = Vec::new();
        let mut b: usize = 0;
        while b < CHUNK_BIOMES
            invariant
                b <= CHUNK_BIOMES,
                biome.len() == b,
                forall|j: int| 0 <= j < b ==> biome[j] == Biome(0),
            decreases CHUNK_BIOMES - b,
        {
            biome.push(Biome(0));
            b = b + 1;
        }
        let r = Chunk { sections, biome, heightmap, watermap };
        proof {
            let expected = spec_chunk_of(all);
            assert(r@.biome =~= expected.biome);
            assert forall|c: int| 0 <= c < CHUNK_COLUMNS implies r@.heights[c]
                == expected.heights[c] && r@.water[c] == expected.water[c] by {
                lemma_ground_in_range(all, c % 16, c / 16, MAX_Y as int);
                assert(heightmap[c] == spec_height(all, c % 16, c / 16));
                assert(same_level(spec_water_level(all, c % 16, c / 16), watermap[c]));
            }
            assert(r@.heights =~= expected.heights);
            assert(r@.water =~= expected.water);
        }
        r
    }

    /// The block at `(x, y, z)`, with `x` and `z` inside the chunk and `y`
    /// a height of the world.
    pub fn block(&self, x: usize, y: i32, z: usize) -> (b: Block)
        requires
            self.wf(),
            x < 16,
            z < 16,
            MIN_Y <= y < MAX_Y,
        ensures
            b == self@.block(x as int, y as int, z as int),
    {
        let place: usize = (crate::geometry::div16(y) + 4) as usize;
        let level: usize = crate::geometry::mod16(y) as usize;
        assert(self@.sections[place as int] == match self.sections[place as int] {
            Some(section) => Some(section@),
            None => None,
        });
        match &self.sections[place] {
            Some(section) => section.get(x + 16 * z + 256 * level),
            None => Block::Air,
        }
    }

    /// Puts `block` at `(x, y, z)`. A place without a section gets one of
    /// air first. The heights of ground and water stay as they are.
    pub fn set_block(&mut self, x: usize, y: i32, z: usize, block: Block)
        requires
            old(self).wf(),
            x < 16,
            z < 16,
            MIN_Y <= y < MAX_Y,
        ensures
            final(self).wf(),
            final(self)@ == old(self)@.with_block(x as int, y as int, z as int, block),
    {
        let place: usize = (crate::geometry::div16(y) + 4) as usize;
        let level: usize = crate::geometry::mod16(y) as usize;
        let ghost before = self@;
        assert(before.sections[place as int] == match self.sections[place as int] {
            Some(section) => Some(section@),
            None => None,
        });
        if self.sections[place].is_none() {
            self.sections[place] = Some(Section::new());
        }
        let ghost filled = match before.sections[place as int] {
            Some(blocks) => blocks,
            None => Seq::new(SECTION_BLOCKS as nat, |i: int| Block::Air),
        };
        assert(self.sections[place as int] matches Some(section) && section@ =~= filled);
        match &mut self.sections[place] {
            Some(section) => {
                section.set(x + 16 * z + 256 * level, block);
            },
            None => {},
        }
        assert(self@.sections =~= before.with_block(
            x as int,
            y as int,
            z as int,
            block,
        ).sections);
    }

    /// The height of the ground in column `(x, z)`.
    pub fn height(&self, x: usize, z: usize) -> (h: i32)
        requires
            self.wf(),
            x < 16,
            z < 16,
        ensures
            h == self@.heights[spec_column_place(x as int, z as int)],
    {
        self.heightmap[x + 16 * z]
    }

    /// Sets the height of the ground in column `(x, z)`.
    pub fn set_height(&mut self, x: usize, z: usize, height: i32)
        requires
            old(self).wf(),
            x < 16,
            z < 16,
        ensures
            final(self).wf(),
            final(self)@ == (ChunkView {
                heights: old(self)@.heights.update(
                    spec_column_place(x as int, z as int),
                    height,
                ),
                ..old(self)@
            }),
    {
        self.heightmap[x + 16 * z] = height;
    }

    /// The height of the water in column `(x, z)`, if it has any.
    pub fn water_level(&self, x: usize, z: usize) -> (w: Option<i32>)
        requires
            self.wf(),
            x < 16,
            z < 16,
        ensures
            w == self@.water[spec_column_place(x as int, z as int)],
    {
        self.watermap[x + 16 * z]
    }

    /// Sets the height of the water in column `(x, z)`.
    pub fn set_water_level(&mut self, x: usize, z: usize, level: Option<i32>)
        requires
            old(self).wf(),
            x < 16,
            z < 16,
        ensures
            final(self).wf(),
            final(self)@ == (ChunkView {
                water: old(self)@.water.update(spec_column_place(x as int, z as int), level),
                ..old(self)@
            }),
    {
        self.watermap[x + 16 * z] = level;
    }

    /// The biome of column `(x, z)`: that of its cell of 4 by 4 columns.
    pub fn biome(&self, x: usize, z: usize) -> (b: Biome)
        requires
            self.wf(),
            x < 16,
            z < 16,
        ensures
            b == self@.biome[x as int / 4 + (z as int / 4) * 4],
    {
        self.biome[x / 4 + (z / 4) * 4]
    }

    /// The section at place `s`, if the chunk has one there.
    pub fn section(&self, s: usize) -> (r: Option<&Section>)
        requires
            self.wf(),
            s < CHUNK_SECTIONS,
        ensures
            match r {
                Some(section) => self@.sections[s as int] == Some(section@) && section.wf(),
                None => self@.sections[s as int] is None,
            },
    {
        assert(self@.sections[s as int] == match self.sections[s as int] {
            Some(section) => Some(section@),
            None => None,
        });
        match &self.sections[s] {
            Some(section) => Some(section),
            None => None,
        }
    }
}

/// Putting a block into a chunk changes the block at that place and no
/// other, and leaves the chunk well formed.
pub proof fn lemma_chunk_with_block(
    chunk: ChunkView,
    x: int,
    y: int,
    z: int,
    block: Block,
    ox: int,
    oy: int,
    oz: int,
)
    requires
        sections_wf(chunk.sections),
        0 <= x < 16,
        0 <= z < 16,
        MIN_Y <= y < MAX_Y,
        0 <= ox < 16,
        0 <= oz < 16,
        MIN_Y <= oy < MAX_Y,
    ensures
        sections_wf(chunk.with_block(x, y, z, block).sections),
        chunk.with_block(x, y, z, block).block(ox, oy, oz) == if ox == x && oy == y && oz == z {
            block
        } else {
            chunk.block(ox, oy, oz)
        },
{
    let after = chunk.with_block(x, y, z, block);
    let place = spec_section_place(y);
    assert(0 <= place < CHUNK_SECTIONS);
    assert(0 <= spec_block_place(x, y % 16, z) < SECTION_BLOCKS);
    assert(0 <= spec_block_place(ox, oy % 16, oz) < SECTION_BLOCKS);
    assert forall|s: int| 0 <= s < after.sections.len() implies (
    #[trigger] after.sections[s] matches Some(blocks) ==> blocks.len() == SECTION_BLOCKS) by {
        if s != place {
            assert(after.sections[s] == chunk.sections[s]);
        }
    }
    if spec_section_place(oy) == place {
        if spec_block_place(ox, oy % 16, oz) == spec_block_place(x, y % 16, z) {
            assert(ox == x && oz == z && oy % 16 == y % 16);
            assert(oy == y);
        }
    }
}

impl Default for Chunk {
    fn default() -> (r: Chunk)
        ensures
            r.wf(),
    {
        Chunk::new()
    }
}

} // verus!
