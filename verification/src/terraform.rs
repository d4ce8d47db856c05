//! Questions about the lie of the land.

use crate::error::WorldError;
use crate::geometry::{ChunkIndex, Column, Pos};
use crate::view::WorldView;
use crate::world::{World, WorldState};
use vstd::prelude::*;

verus! {

/// The position `dx` to the east and `dz` to the south of `pos`, if there
/// is one.
pub open spec fn spec_beside(pos: Pos, dx: int, dz: int) -> Option<Pos> {
    if i32::MIN <= pos.0 + dx <= i32::MAX && i32::MIN <= pos.2 + dz <= i32::MAX {
        Some(Pos((pos.0 + dx) as i32, pos.1, (pos.2 + dz) as i32))
    } else {
        None
    }
}

/// Whether the block beside `pos` is solid; an error where the world holds
/// no such position.
pub open spec fn spec_solid_beside(state: WorldState, pos: Pos, dx: int, dz: int) -> Result<
    bool,
    WorldError,
> {
    match spec_beside(pos, dx, dz) {
        Some(beside) => if state.contains_pos(beside) {
            Ok(state.block(beside).spec_solid())
        } else {
            Err(WorldError::OutOfBounds)
        },
        None => Err(WorldError::OutOfBounds),
    }
}

/// Whether one of the four blocks beside `pos` is not solid. The blocks to
/// the south, north, east and west are looked at in this order, up to the
/// first that is not solid; it fails with `OutOfBounds` where the world
/// does not hold one that is looked at.
pub open spec fn spec_side_exposted(state: WorldState, pos: Pos) -> Result<bool, WorldError> {
    match spec_solid_beside(state, pos, 0, 1) {
        Err(e) => Err(e),
        Ok(false) => Ok(true),
        Ok(true) => match spec_solid_beside(state, pos, 0, -1) {
            Err(e) => Err(e),
            Ok(false) => Ok(true),
            Ok(true) => match spec_solid_beside(state, pos, 1, 0) {
                Err(e) => Err(e),
                Ok(false) => Ok(true),
                Ok(true) => match spec_solid_beside(state, pos, -1, 0) {
                    Err(e) => Err(e),
                    Ok(false) => Ok(true),
                    Ok(true) => Ok(false),
                },
            },
        },
    }
}

/// Whether the block at `pos` is natural ground with a side that is open.
pub open spec fn spec_soil_exposted(state: WorldState, pos: Pos) -> Result<bool, WorldError> {
    if !state.contains_pos(pos) {
        Err(WorldError::OutOfBounds)
    } else {
        match spec_side_exposted(state, pos) {
            Err(e) => Err(e),
            Ok(open) => Ok(state.block(pos).spec_soil() && open),
        }
    }
}

/// The column `dx` to the east and `dz` to the south of `column`.
pub open spec fn spec_column_beside(column: Column, dx: int, dz: int) -> Column {
    Column((column.0 + dx) as i32, (column.1 + dz) as i32)
}

/// Whether the world holds the column and the eight columns around it.
pub open spec fn spec_surrounded(state: WorldState, column: Column) -> bool {
    &&& i32::MIN < column.0 < i32::MAX
    &&& i32::MIN < column.1 < i32::MAX
    &&& forall|dx: int, dz: int|
        -1 <= dx <= 1 && -1 <= dz <= 1 ==> state.contains_column(
            #[trigger] spec_column_beside(column, dx, dz),
        )
}

/// The height of the ground `dx` to the east and `dz` to the south of
/// `column`.
pub open spec fn spec_height_beside(state: WorldState, column: Column, dx: int, dz: int) -> int {
    state.height(spec_column_beside(column, dx, dz)) as int
}

/// The slope of the ground at the column to the east and to the south, by
/// the Sobel operator: the heights of the three columns on the one side,
/// the middle one twice, less those on the other side.
pub open spec fn spec_slope(state: WorldState, column: Column) -> (int, int) {
    (
        (spec_height_beside(state, column, 1, -1) + 2 * spec_height_beside(state, column, 1, 0)
            + spec_height_beside(state, column, 1, 1)) - (spec_height_beside(
            state,
            column,
            -1,
            -1,
        ) + 2 * spec_height_beside(state, column, -1, 0) + spec_height_beside(
            state,
            column,
            -1,
            1,
        )),
        (spec_height_beside(state, column, -1, 1) + 2 * spec_height_beside(state, column, 0, 1)
            + spec_height_beside(state, column, 1, 1)) - (spec_height_beside(
            state,
            column,
            -1,
            -1,
        ) + 2 * spec_height_beside(state, column, 0, -1) + spec_height_beside(
            state,
            column,
            1,
            -1,
        )),
    )
}

/// Whether the block beside `pos` is solid.
fn solid_beside<W: WorldView>(world: &W, pos: Pos, dx: i32, dz: i32) -> (r: Result<
    bool,
    WorldError,
>)
    requires
        world.valid(),
        -1 <= dx <= 1,
        -1 <= dz <= 1,
    ensures
        r == spec_solid_beside(world.state(), pos, dx as int, dz as int),
{
    let x: i32 = match pos.0.checked_add(dx) {
        Some(x) => x,
        None => {
            return Err(WorldError::OutOfBounds);
        },
    };
    let z: i32 = match pos.2.checked_add(dz) {
        Some(z) => z,
        None => {
            return Err(WorldError::OutOfBounds);
        },
    };
    match world.get(Pos(x, pos.1, z)) {
        Ok(block) => Ok(block.solid()),
        Err(e) => Err(e),
    }
}

/// Whether one of the four blocks beside `pos` is not solid.
pub fn side_exposted<W: WorldView>(world: &W, pos: Pos) -> (r: Result<bool, WorldError>)
    requires
        world.valid(),
    ensures
        r == spec_side_exposted(world.state(), pos),
{
    match solid_beside(world, pos, 0, 1) {
        Err(e) => {
            return Err(e);
        },
        Ok(false) => {
            return Ok(true);
        },
        Ok(true) => {},
    }
    match solid_beside(world, pos, 0, -1) {
        Err(e) => {
            return Err(e);
        },
        Ok(false) => {
            return Ok(true);
        },
        Ok(true) => {},
    }
    match solid_beside(world, pos, 1, 0) {
        Err(e) => {
            return Err(e);
        },
        Ok(false) => {
            return Ok(true);
        },
        Ok(true) => {},
    }
    match solid_beside(world, pos, -1, 0) {
        Err(e) => Err(e),
        Ok(solid) => Ok(!solid),
    }
}

/// Whether the block at `pos` is natural ground with a side that is open.
/// It fails with `OutOfBounds` where the world does not hold the position
/// or one of the blocks beside it that are looked at.
pub fn soil_exposted<W: WorldView>(world: &W, pos: Pos) -> (r: Result<bool, WorldError>)
    requires
        world.valid(),
    ensures
        r == spec_soil_exposted(world.state(), pos),
{
    let block = match world.get(pos) {
        Ok(block) => block,
        Err(e) => {
            return Err(e);
        },
    };
    match side_exposted(world, pos) {
        Ok(open) => Ok(block.soil() && open),
        Err(e) => Err(e),
    }
}

/// The height of the ground beside `column`, as a wide number.
fn height_beside<W: WorldView>(world: &W, column: Column, dx: i32, dz: i32) -> (r: Option<i64>)
    requires
        world.valid(),
        -1 <= dx <= 1,
        -1 <= dz <= 1,
        i32::MIN < column.0 < i32::MAX,
        i32::MIN < column.1 < i32::MAX,
    ensures
        match r {
            Some(height) => world.state().contains_column(
                spec_column_beside(column, dx as int, dz as int),
            ) && height == spec_height_beside(world.state(), column, dx as int, dz as int),
            None => !world.state().contains_column(
                spec_column_beside(column, dx as int, dz as int),
            ),
        },
{
    match world.height(Column(column.0 + dx, column.1 + dz)) {
        Ok(height) => Some(height as i64),
        Err(_) => None,
    }
}

/// The slope of the ground at the column, to the east and to the south. It
/// fails with `OutOfBounds` where the world does not hold the column and
/// all eight columns around it.
pub fn slope<W: WorldView>(world: &W, column: Column) -> (r: Result<(i64, i64), WorldError>)
    requires
        world.valid(),
    ensures
        match r {
            Ok((east, south)) => {
                &&& spec_surrounded(world.state(), column)
                &&& (east as int, south as int) == spec_slope(world.state(), column)
            },
            Err(e) => !spec_surrounded(world.state(), column) && e == WorldError::OutOfBounds,
        },
{
    if column.0 == i32::MIN || column.0 == i32::MAX || column.1 == i32::MIN || column.1
        == i32::MAX {
        return Err(WorldError::OutOfBounds);
    }
    let n0 = match height_beside(world, column, -1, -1) {
        Some(height) => height,
        None => {
            return Err(WorldError::OutOfBounds);
        },
    };
    let n1 = match height_beside(world, column, 0, -1) {
        Some(height) => height,
        None => {
            return Err(WorldError::OutOfBounds);
        },
    };
    let n2 = match height_beside(world, column, 1, -1) {
        Some(height) => height,
        None => {
            return Err(WorldError::OutOfBounds);
        },
    };
    let n3 = match height_beside(world, column, -1, 0) {
        Some(height) => height,
        None => {
            return Err(WorldError::OutOfBounds);
        },
    };
    if height_beside(world, column, 0, 0).is_none() {
        return Err(WorldError::OutOfBounds);
    }
    let n5 = match height_beside(world, column, 1, 0) {
        Some(height) => height,
        None => {
            return Err(WorldError::OutOfBounds);
        },
    };
    let n6 = match height_beside(world, column, -1, 1) {
        Some(height) => height,
        None => {
            return Err(WorldError::OutOfBounds);
        },
    };
    let n7 = match height_beside(world, column, 0, 1) {
        Some(height) => height,
        None => {
            return Err(WorldError::OutOfBounds);
        },
    };
    let n8 = match height_beside(world, column, 1, 1) {
        Some(height) => height,
        None => {
            return Err(WorldError::OutOfBounds);
        },
    };
    let east: i64 = (n2 + 2 * n5 + n8) - (n0 + 2 * n3 + n6);
    let south: i64 = (n6 + 2 * n7 + n8) - (n0 + 2 * n1 + n2);
    Ok((east, south))
}

/// The column at `(x, z)` of the chunk.
pub open spec fn spec_chunk_column(chunk: ChunkIndex, x: int, z: int) -> Column {
    Column((chunk.0 * 16 + x) as i32, (chunk.1 * 16 + z) as i32)
}

/// Whether `max` is the greatest height of the ground in the chunk.
pub open spec fn spec_is_max_height(state: WorldState, chunk: ChunkIndex, max: i32) -> bool {
    &&& forall|x: int, z: int|
        0 <= x < 16 && 0 <= z < 16 ==> state.height(
            #[trigger] spec_chunk_column(chunk, x, z),
        ) <= max
    &&& exists|x: int, z: int|
        0 <= x < 16 && 0 <= z < 16 && state.height(
            #[trigger] spec_chunk_column(chunk, x, z),
        ) == max
}

/// The greatest height of the ground in a chunk of the world.
fn max_chunk_height(world: &World, chunk: ChunkIndex) -> (max: i32)
    requires
        world.wf(),
        world@.contains_chunk(chunk),
    ensures
        spec_is_max_height(world@, chunk, max),
{
    let ghost state = world@;
    let first = Column(chunk.0 * 16, chunk.1 * 16);
    assert(first.spec_chunk() == chunk);
    assert(first == spec_chunk_column(chunk, 0, 0));
    let mut max: i32 = match world.height(first) {
        Ok(height) => height,
        Err(_) => 0,
    };
    let ghost mut at: (int, int) = (0, 0);
    let mut z: i32 = 0;
    while z < 16
        invariant
            world.wf(),
            state == world@,
            state.contains_chunk(chunk),
            0 <= z <= 16,
            0 <= at.0 < 16,
            0 <= at.1 < 16,
            state.height(spec_chunk_column(chunk, at.0, at.1)) == max,
            forall|cx: int, cz: int|
                0 <= cx < 16 && 0 <= cz < z ==> state.height(
                    #[trigger] spec_chunk_column(chunk, cx, cz),
                ) <= max,
        decreases 16 - z,
    {
        let mut x: i32 = 0;
        while x < 16
            invariant
                world.wf(),
                state == world@,
                state.contains_chunk(chunk),
                0 <= z < 16,
                0 <= x <= 16,
                0 <= at.0 < 16,
                0 <= at.1 < 16,
                state.height(spec_chunk_column(chunk, at.0, at.1)) == max,
                forall|cx: int, cz: int|
                    0 <= cx < 16 && 0 <= cz < 16 && (cz < z || (cz == z && cx < x))
                        ==> state.height(
                        #[trigger] spec_chunk_column(chunk, cx, cz),
                    ) <= max,
            decreases 16 - x,
        {
            let column = Column(chunk.0 * 16 + x, chunk.1 * 16 + z);
            assert(column.spec_chunk() == chunk);
            assert(column == spec_chunk_column(chunk, x as int, z as int));
            let height: i32 = match world.height(column) {
                Ok(height) => height,
                Err(_) => 0,
            };
            if height > max {
                max = height;
                proof {
                    at = (x as int, z as int);
                }
            }
            x = x + 1;
        }
        z = z + 1;
    }
    max
}

/// For each chunk of the world the greatest height of the ground in it,
/// in the order of `World::chunks`.
pub fn max_chunk_heights(world: &World) -> (r: Vec<(ChunkIndex, i32)>)
    requires
        world.wf(),
    ensures
        r@.len() == world@.chunks.len(),
        forall|i: int|
            0 <= i < r@.len() ==> {
                &&& (#[trigger] r@[i]).0 == ChunkIndex(
                    (world@.chunk_min.0 + i / world@.depth()) as i32,
                    (world@.chunk_min.1 + i % world@.depth()) as i32,
                )
                &&& world@.contains_chunk(r@[i].0)
                &&& spec_is_max_height(world@, r@[i].0, r@[i].1)
            },
{
    let chunks = world.chunks();
    let mut heights: Vec<(ChunkIndex, i32)> = Vec::new();
    let mut i: usize = 0;
    while i < chunks.len()
        invariant
            world.wf(),
            i <= chunks.len(),
            chunks@.len() == world@.chunks.len(),
            forall|j: int|
                0 <= j < chunks@.len() ==> (#[trigger] chunks@[j]) == ChunkIndex(
                    (world@.chunk_min.0 + j / world@.depth()) as i32,
                    (world@.chunk_min.1 + j % world@.depth()) as i32,
                ),
            heights.len() == i,
            forall|j: int|
                0 <= j < i ==> {
                    &&& (#[trigger] heights@[j]).0 == chunks@[j]
                    &&& world@.contains_chunk(heights@[j].0)
                    &&& spec_is_max_height(world@, heights@[j].0, heights@[j].1)
                },
        decreases chunks.len() - i,
    {
        let chunk = chunks[i];
        proof {
            world.lemma_wf();
            crate::world::lemma_chunk_listed(world@, i as int);
        }
        let max = max_chunk_height(world, chunk);
        heights.push((chunk, max));
        i = i + 1;
    }
    heights
}

} // verus!
