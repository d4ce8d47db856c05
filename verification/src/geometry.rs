//! Coordinates and orientations.
//!
//! The vertical axis is `y`; `x` grows to the east and `z` to the south. A
//! column is a pair `(x, z)`, a chunk covers 16 by 16 columns.

use crate::text::str_eq;
use vstd::prelude::*;

verus! {

/// One of the three coordinate axes. `Y` is the vertical one.
#[derive(Debug, Clone, Copy, PartialEq, Eq, Hash, Structural)]
pub enum Axis {
    X,
    Y,
    Z,
}

/// One of the two horizontal axes.
#[derive(Debug, Clone, Copy, PartialEq, Eq, Hash, Structural)]
pub enum HAxis {
    X,
    Z,
}

/// A horizontal direction. The variants are listed in the order of a
/// clockwise turn seen from above: east, south, west, north.
#[derive(Debug, Clone, Copy, PartialEq, Eq, Hash, Structural)]
pub enum HDir {
    XPos,
    ZPos,
    XNeg,
    ZNeg,
}

/// Position of one block: `(x, y, z)`.
#[derive(Debug, Clone, Copy, PartialEq, Eq, Hash, Structural)]
pub struct Pos(pub i32, pub i32, pub i32);

/// A vertical column of blocks: `(x, z)`.
#[derive(Debug, Clone, Copy, PartialEq, Eq, Hash, Structural)]
pub struct Column(pub i32, pub i32);

/// Grid coordinate of a chunk: `(x, z)` in units of 16 blocks.
#[derive(Debug, Clone, Copy, PartialEq, Eq, Hash, Structural)]
pub struct ChunkIndex(pub i32, pub i32);

/// An axis-aligned rectangle of columns; both corners belong to it.
#[derive(Debug, Clone, Copy, PartialEq, Eq, Hash, Structural)]
pub struct Rect {
    pub min: Column,
    pub max: Column,
}

/// Number of quarter turns (0 to 3) that `turns` amounts to.
pub open spec fn quarter_turns(turns: int) -> int {
    turns % 4
}

/// Whether `turns` quarter turns exchange the two horizontal axes.
pub open spec fn swaps_axes(turns: int) -> bool {
    turns % 2 != 0
}

/// `x` divided by 16, rounded towards negative infinity.
pub fn div16(x: i32) -> (q: i32)
    ensures
        q == x as int / 16,
{
    match x.checked_div_euclid(16) {
        Some(q) => q,
        None => 0,
    }
}

/// The remainder of `x` modulo 16, between 0 and 15.
pub fn mod16(x: i32) -> (r: i32)
    ensures
        r == x as int % 16,
        0 <= r < 16,
{
    match x.checked_rem_euclid(16) {
        Some(r) => r,
        None => 0,
    }
}

/// Number of quarter turns, between 0 and 3, for any `turns`.
pub fn normalize_turns(turns: i32) -> (r: i32)
    ensures
        r == quarter_turns(turns as int),
        0 <= r < 4,
{
    match turns.checked_rem_euclid(4) {
        Some(r) => r,
        None => 0,
    }
}

impl Axis {
    /// Name of the axis in a block state.
    pub open spec fn spec_to_str(self) -> Seq<char> {
        match self {
            Axis::X => "x"@,
            Axis::Y => "y"@,
            Axis::Z => "z"@,
        }
    }

    /// The axis that a block state names, if it names one.
    pub open spec fn spec_from_str(s: Seq<char>) -> Option<Axis> {
        if s == "x"@ {
            Some(Axis::X)
        } else if s == "y"@ {
            Some(Axis::Y)
        } else if s == "z"@ {
            Some(Axis::Z)
        } else {
            None
        }
    }

    /// The axis after `turns` quarter turns about the vertical.
    pub open spec fn spec_rotated(self, turns: int) -> Axis {
        if swaps_axes(turns) {
            match self {
                Axis::X => Axis::Z,
                Axis::Y => Axis::Y,
                Axis::Z => Axis::X,
            }
        } else {
            self
        }
    }

    /// Name of the axis in a block state.
    pub fn to_str(self) -> (r: &'static str)
        ensures
            r@ == self.spec_to_str(),
    {
        match self {
            Axis::X => "x",
            Axis::Y => "y",
            Axis::Z => "z",
        }
    }

    /// The axis that a block state names, if it names one.
    pub fn from_str(s: &str) -> (r: Option<Axis>)
        ensures
            r == Axis::spec_from_str(s@),
    {
        if str_eq(s, "x") {
            Some(Axis::X)
        } else if str_eq(s, "y") {
            Some(Axis::Y)
        } else if str_eq(s, "z") {
            Some(Axis::Z)
        } else {
            None
        }
    }

    /// Turns the axis about the vertical: an odd number of quarter turns
    /// exchanges `X` and `Z`, an even number changes nothing.
    pub fn rotated(self, turns: i32) -> (r: Axis)
        ensures
            r == self.spec_rotated(turns as int),
    {
        let quarter: i32 = normalize_turns(turns);
        if quarter == 1 || quarter == 3 {
            match self {
                Axis::X => Axis::Z,
                Axis::Y => Axis::Y,
                Axis::Z => Axis::X,
            }
        } else {
            self
        }
    }
}

impl HAxis {
    /// The axis after `turns` quarter turns about the vertical.
    pub open spec fn spec_rotated(self, turns: int) -> HAxis {
        if swaps_axes(turns) {
            match self {
                HAxis::X => HAxis::Z,
                HAxis::Z => HAxis::X,
            }
        } else {
            self
        }
    }

    /// Turns the axis about the vertical.
    pub fn rotated(self, turns: i32) -> (r: HAxis)
        ensures
            r == self.spec_rotated(turns as int),
    {
        let quarter: i32 = normalize_turns(turns);
        if quarter == 1 || quarter == 3 {
            match self {
                HAxis::X => HAxis::Z,
                HAxis::Z => HAxis::X,
            }
        } else {
            self
        }
    }
}

impl HDir {
    /// Name of the direction in a block state.
    pub open spec fn spec_to_str(self) -> Seq<char> {
        match self {
            HDir::XPos => "east"@,
            HDir::ZPos => "south"@,
            HDir::XNeg => "west"@,
            HDir::ZNeg => "north"@,
        }
    }

    /// The direction that a block state names, if it names one.
    pub open spec fn spec_from_str(s: Seq<char>) -> Option<HDir> {
        if s == "east"@ {
            Some(HDir::XPos)
        } else if s == "south"@ {
            Some(HDir::ZPos)
        } else if s == "west"@ {
            Some(HDir::XNeg)
        } else if s == "north"@ {
            Some(HDir::ZNeg)
        } else {
            None
        }
    }

    /// Position of the direction in the clockwise order, from 0 for east.
    pub open spec fn ordinal(self) -> int {
        match self {
            HDir::XPos => 0,
            HDir::ZPos => 1,
            HDir::XNeg => 2,
            HDir::ZNeg => 3,
        }
    }

    /// The direction at position `n % 4` of the clockwise order.
    pub open spec fn from_ordinal(n: int) -> HDir {
        let k = n % 4;
        if k == 0 {
            HDir::XPos
        } else if k == 1 {
            HDir::ZPos
        } else if k == 2 {
            HDir::XNeg
        } else {
            HDir::ZNeg
        }
    }

    /// The direction after `turns` clockwise quarter turns.
    pub open spec fn spec_rotated(self, turns: int) -> HDir {
        HDir::from_ordinal(self.ordinal() + quarter_turns(turns))
    }

    /// Name of the direction in a block state.
    pub fn to_str(self) -> (r: &'static str)
        ensures
            r@ == self.spec_to_str(),
    {
        match self {
            HDir::XPos => "east",
            HDir::ZPos => "south",
            HDir::XNeg => "west",
            HDir::ZNeg => "north",
        }
    }

    /// The direction that a block state names, if it names one.
    pub fn from_str(s: &str) -> (r: Option<HDir>)
        ensures
            r == HDir::spec_from_str(s@),
    {
        if str_eq(s, "east") {
            Some(HDir::XPos)
        } else if str_eq(s, "south") {
            Some(HDir::ZPos)
        } else if str_eq(s, "west") {
            Some(HDir::XNeg)
        } else if str_eq(s, "north") {
            Some(HDir::ZNeg)
        } else {
            None
        }
    }

    /// Turns the direction clockwise by `turns` quarter turns; a negative
    /// number turns it the other way.
    pub fn rotated(self, turns: i32) -> (r: HDir)
        ensures
            r == self.spec_rotated(turns as int),
    {
        let quarter: i32 = normalize_turns(turns);
        let start: i32 = match self {
            HDir::XPos => 0,
            HDir::ZPos => 1,
            HDir::XNeg => 2,
            HDir::ZNeg => 3,
        };
        let sum: i32 = start + quarter;
        let place: i32 = if sum >= 4 {
            sum - 4
        } else {
            sum
        };
        if place == 0 {
            HDir::XPos
        } else if place == 1 {
            HDir::ZPos
        } else if place == 2 {
            HDir::XNeg
        } else {
            HDir::ZNeg
        }
    }
}

/// Turning an axis by `a` quarter turns and then by `b` is turning it by
/// `a + b`; an even number of turns changes nothing.
pub proof fn lemma_axis_turns(axis: Axis, a: int, b: int)
    ensures
        axis.spec_rotated(a).spec_rotated(b) == axis.spec_rotated(a + b),
        axis.spec_rotated(0) == axis,
        axis.spec_rotated(2) == axis,
        axis.spec_rotated(4) == axis,
{
    assert((a + b) % 2 == (a % 2 + b % 2) % 2);
}

/// Turning a horizontal axis by `a` quarter turns and then by `b` is
/// turning it by `a + b`; an even number of turns changes nothing.
pub proof fn lemma_haxis_turns(axis: HAxis, a: int, b: int)
    ensures
        axis.spec_rotated(a).spec_rotated(b) == axis.spec_rotated(a + b),
        axis.spec_rotated(0) == axis,
        axis.spec_rotated(2) == axis,
        axis.spec_rotated(4) == axis,
{
    assert((a + b) % 2 == (a % 2 + b % 2) % 2);
}

/// Turning a direction by `a` quarter turns and then by `b` is turning it
/// by `a + b`; four quarter turns change nothing.
pub proof fn lemma_hdir_turns(facing: HDir, a: int, b: int)
    ensures
        facing.spec_rotated(a).spec_rotated(b) == facing.spec_rotated(a + b),
        facing.spec_rotated(0) == facing,
        facing.spec_rotated(4) == facing,
{
    assert((a + b) % 4 == (a % 4 + b % 4) % 4);
}

impl Pos {
    /// The column that the position stands in.
    pub open spec fn spec_column(self) -> Column {
        Column(self.0, self.2)
    }

    /// The column that the position stands in.
    pub fn column(self) -> (c: Column)
        ensures
            c == self.spec_column(),
            c == Column(self.0, self.2),
    {
        Column(self.0, self.2)
    }
}

impl Column {
    /// The position at height `y` of this column.
    pub fn at(self, y: i32) -> (p: Pos)
        ensures
            p == Pos(self.0, y, self.1),
    {
        Pos(self.0, y, self.1)
    }

    /// The chunk that holds the column.
    pub open spec fn spec_chunk(self) -> ChunkIndex {
        ChunkIndex((self.0 as int / 16) as i32, (self.1 as int / 16) as i32)
    }

    /// The chunk that holds the column.
    pub fn chunk(self) -> (c: ChunkIndex)
        ensures
            c == self.spec_chunk(),
            c.0 == self.0 as int / 16,
            c.1 == self.1 as int / 16,
    {
        ChunkIndex(div16(self.0), div16(self.1))
    }
}

impl Rect {
    /// Whether the column lies in the rectangle.
    pub open spec fn spec_contains(self, column: Column) -> bool {
        self.min.0 <= column.0 <= self.max.0 && self.min.1 <= column.1 <= self.max.1
    }

    /// The rectangle with each side moved inwards by `amount`.
    pub open spec fn spec_shrink(self, amount: int) -> (Column, Column)
        recommends
            i32::MIN <= self.min.0 + amount <= i32::MAX,
            i32::MIN <= self.min.1 + amount <= i32::MAX,
            i32::MIN <= self.max.0 - amount <= i32::MAX,
            i32::MIN <= self.max.1 - amount <= i32::MAX,
    {
        (
            Column((self.min.0 + amount) as i32, (self.min.1 + amount) as i32),
            Column((self.max.0 - amount) as i32, (self.max.1 - amount) as i32),
        )
    }

    /// The column in the middle, rounded towards negative infinity.
    pub open spec fn spec_center(self) -> Column {
        Column(
            ((self.min.0 + self.max.0) / 2) as i32,
            ((self.min.1 + self.max.1) / 2) as i32,
        )
    }

    /// Whether the column lies in the rectangle.
    pub fn contains(&self, column: Column) -> (r: bool)
        ensures
            r == self.spec_contains(column),
    {
        self.min.0 <= column.0 && column.0 <= self.max.0 && self.min.1 <= column.1 && column.1
            <= self.max.1
    }

    /// The rectangle with each side moved inwards by `amount`. A negative
    /// amount widens it. The result is empty where the rectangle is narrower
    /// than twice the amount.
    pub fn shrink(&self, amount: i32) -> (r: Rect)
        requires
            i32::MIN <= self.min.0 + amount <= i32::MAX,
            i32::MIN <= self.min.1 + amount <= i32::MAX,
            i32::MIN <= self.max.0 - amount <= i32::MAX,
            i32::MIN <= self.max.1 - amount <= i32::MAX,
        ensures
            r.min == self.spec_shrink(amount as int).0,
            r.max == self.spec_shrink(amount as int).1,
            r.min.0 == self.min.0 + amount,
            r.min.1 == self.min.1 + amount,
            r.max.0 == self.max.0 - amount,
            r.max.1 == self.max.1 - amount,
    {
        Rect {
            min: Column(self.min.0 + amount, self.min.1 + amount),
            max: Column(self.max.0 - amount, self.max.1 - amount),
        }
    }

    /// The column in the middle, rounded towards negative infinity.
    pub fn center(&self) -> (c: Column)
        ensures
            c == self.spec_center(),
    {
        let sum_x: i64 = self.min.0 as i64 + self.max.0 as i64;
        let sum_z: i64 = self.min.1 as i64 + self.max.1 as i64;
        let half_x: i64 = match sum_x.checked_div_euclid(2) {
            Some(h) => h,
            None => 0,
        };
        let half_z: i64 = match sum_z.checked_div_euclid(2) {
            Some(h) => h,
            None => 0,
        };
        Column(half_x as i32, half_z as i32)
    }
}

} // verus!
