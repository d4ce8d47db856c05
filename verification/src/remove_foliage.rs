//! Clearing away what grows on the ground.

use crate::block::Block;
use crate::chunk::{MAX_Y, MIN_Y};
use crate::error::WorldError;
use crate::geometry::{Column, Pos, Rect};

use crate::view::WorldView;
use crate::world::{lemma_with_block, spec_state_wf, WorldState};
use vstd::prelude::*;

verus! {

/// The height from which plants are looked for in a column: that of its
/// water, or of its ground where it has no water.
pub open spec fn spec_base(state: WorldState, column: Column) -> int {
    match state.water_level(column) {
        Some(level) => level as int,
        None => state.height(column) as int,
    }
}

/// Whether a plant that is cleared away stands at the position: a plant of
/// the ground in a column of `area`, one or two blocks above the column's
/// water or ground.
pub open spec fn spec_is_foliage(state: WorldState, area: Rect, pos: Pos) -> bool {
    let column = Column(pos.0, pos.2);
    &&& area.spec_contains(column)
    &&& state.contains_pos(pos)
    &&& spec_base(state, column) < pos.1 <= spec_base(state, column) + 2
    &&& state.block(pos) is GroundPlant
}

/// Whether the world holds all columns of `area`.
pub open spec fn spec_area_held(state: WorldState, area: Rect) -> bool {
    area.min.0 > area.max.0 || area.min.1 > area.max.1 || (state.contains_column(area.min)
        && state.contains_column(area.max))
}

/// The world after a plant of the ground at the position, if there is one,
/// gave way to air.
pub open spec fn spec_clear(state: WorldState, pos: Pos) -> WorldState {
    if state.contains_pos(pos) && state.block(pos) is GroundPlant {
        state.with_block(pos, Block::Air)
    } else {
        state
    }
}

/// Clearing a position changes the block there, if it is a plant of the
/// ground, and nothing else.
proof fn lemma_clear(state: WorldState, pos: Pos, other: Pos)
    requires
        spec_state_wf(state),
        state.contains_pos(other),
    ensures
        spec_state_wf(spec_clear(state, pos)),
        spec_clear(state, pos).chunk_min == state.chunk_min,
        spec_clear(state, pos).chunk_max == state.chunk_max,
        spec_clear(state, pos).entities == state.entities,
        spec_clear(state, pos).villages == state.villages,
        spec_clear(state, pos).block(other) == if other == pos && state.block(pos) is GroundPlant {
            Block::Air
        } else {
            state.block(other)
        },
        spec_clear(state, pos).height(Column(other.0, other.2)) == state.height(
            Column(other.0, other.2),
        ),
        spec_clear(state, pos).water_level(Column(other.0, other.2)) == state.water_level(
            Column(other.0, other.2),
        ),
        spec_clear(state, pos).biome(Column(other.0, other.2)) == state.biome(
            Column(other.0, other.2),
        ),
{
    if state.contains_pos(pos) && state.block(pos) is GroundPlant {
        lemma_with_block(state, pos, Block::Air, other);
    }
}

/// Whether `now` is `before` with the plants cleared away from the columns
/// of `area` that come before the column `(x, z)`, and from the column
/// itself up to the height `top`.
pub open spec fn spec_cleared_upto(
    before: WorldState,
    now: WorldState,
    area: Rect,
    x: int,
    z: int,
    top: int,
) -> bool {
    &&& spec_state_wf(now)
    &&& now.chunk_min == before.chunk_min
    &&& now.chunk_max == before.chunk_max
    &&& now.entities == before.entities
    &&& now.villages == before.villages
    &&& forall|pos: Pos| #[trigger]
        before.contains_pos(pos) ==> {
            &&& now.block(pos) == if spec_is_foliage(before, area, pos) && (pos.0 < x || (pos.0
                == x && (pos.2 < z || (pos.2 == z && pos.1 <= top)))) {
                Block::Air
            } else {
                before.block(pos)
            }
            &&& now.height(Column(pos.0, pos.2)) == before.height(Column(pos.0, pos.2))
            &&& now.water_level(Column(pos.0, pos.2)) == before.water_level(
                Column(pos.0, pos.2),
            )
            &&& now.biome(Column(pos.0, pos.2)) == before.biome(Column(pos.0, pos.2))
        }
}

/// Clears the position of a plant of the ground, if one stands there.
fn clear<W: WorldView>(level: &mut W, pos: Pos)
    requires
        old(level).valid(),
    ensures
        final(level).valid(),
        final(level).state() == spec_clear(old(level).state(), pos),
{
    match level.get(pos) {
        Ok(Block::GroundPlant(_)) => {
            let _ = level.set(pos, Block::Air);
        },
        _ => {},
    }
}

/// Clears away the plants of the ground from the columns of `area`.
///
/// In each column the two blocks above the water, or above the ground where
/// the column has no water, give way to air where they are plants of the
/// ground; nothing else changes. It fails with `OutOfBounds` where the view
/// does not hold all of `area`, and then changes nothing.
pub fn ground<W: WorldView>(level: &mut W, area: Rect) -> (r: Result<(), WorldError>)
    requires
        old(level).valid(),
    ensures
        final(level).valid(),
        ({
            let before = old(level).state();
            let after = final(level).state();
            match r {
                Ok(()) => {
                    &&& spec_area_held(before, area)
                    &&& after.chunk_min == before.chunk_min
                    &&& after.chunk_max == before.chunk_max
                    &&& after.entities == before.entities
                    &&& after.villages == before.villages
                    &&& forall|pos: Pos| #[trigger]
                        before.contains_pos(pos) ==> {
                            &&& after.block(pos) == if spec_is_foliage(before, area, pos) {
                                Block::Air
                            } else {
                                before.block(pos)
                            }
                            &&& after.height(pos.spec_column()) == before.height(
                                pos.spec_column(),
                            )
                            &&& after.water_level(pos.spec_column()) == before.water_level(
                                pos.spec_column(),
                            )
                            &&& after.biome(pos.spec_column()) == before.biome(pos.spec_column())
                        }
                },
                Err(e) => {
                    &&& !spec_area_held(before, area)
                    &&& e == WorldError::OutOfBounds
                    &&& after == before
                },
            }
        }),
{
    let ghost before = level.state();
    proof {
        level.lemma_valid();
    }
    if area.min.0 > area.max.0 || area.min.1 > area.max.1 {
        return Ok(());
    }
    if level.height(area.min).is_err() || level.height(area.max).is_err() {
        return Err(WorldError::OutOfBounds);
    }
    let mut x: i32 = area.min.0;
    while x <= area.max.0
        invariant
            level.valid(),
            spec_state_wf(before),
            before.contains_column(area.min),
            before.contains_column(area.max),
            area.min.0 <= x <= area.max.0 + 1,
            area.min.1 <= area.max.1,
            spec_cleared_upto(before, level.state(), area, x as int, i32::MIN as int - 1, 0),
        decreases area.max.0 + 1 - x,
    {
        let mut z: i32 = area.min.1;
        while z <= area.max.1
            invariant
                level.valid(),
                spec_state_wf(before),
                before.contains_column(area.min),
                before.contains_column(area.max),
                area.min.0 <= x <= area.max.0,
                area.min.1 <= z <= area.max.1 + 1,
                spec_cleared_upto(before, level.state(), area, x as int, z as int, MIN_Y - 1),
            decreases area.max.1 + 1 - z,
        {
            let column = Column(x, z);
            let ghost start = level.state();
            assert(before.contains_pos(Pos(x, 0, z)));
            let base: i32 = match level.water_level(column) {
                Ok(Some(water)) => water,
                _ => match level.height(column) {
                    Ok(height) => height,
                    Err(_) => 0,
                },
            };
            assert(base == spec_base(before, column));
            if base < MAX_Y && base >= MIN_Y - 2 {
                let low = Pos(x, base + 1, z);
                let high = Pos(x, base + 2, z);
                clear(level, low);
                let ghost middle = level.state();
                clear(level, high);
                proof {
                    assert forall|pos: Pos| #[trigger] before.contains_pos(pos) implies {
                        &&& level.state().block(pos) == if spec_is_foliage(before, area, pos) && (
                        pos.0 < x || (pos.0 == x && (pos.2 < z + 1 || (pos.2 == z + 1 && pos.1
                            <= MIN_Y - 1)))) {
                            Block::Air
                        } else {
                            before.block(pos)
                        }
                        &&& level.state().height(Column(pos.0, pos.2)) == before.height(
                            Column(pos.0, pos.2),
                        )
                        &&& level.state().water_level(Column(pos.0, pos.2)) == before.water_level(
                            Column(pos.0, pos.2),
                        )
                        &&& level.state().biome(Column(pos.0, pos.2)) == before.biome(
                            Column(pos.0, pos.2),
                        )
                    } by {
                        lemma_clear(start, low, pos);
                        lemma_clear(middle, high, pos);
                        if before.contains_pos(low) {
                            lemma_clear(start, low, low);
                            assert(start.block(low) == before.block(low));
                        }
                        if before.contains_pos(high) {
                            lemma_clear(start, low, high);
                            assert(start.block(high) == before.block(high));
                        }
                    }
                    lemma_clear(start, low, Pos(x, 0, z));
                    lemma_clear(middle, high, Pos(x, 0, z));
                }
            } else {
                proof {
                    assert forall|pos: Pos| #[trigger] before.contains_pos(pos) implies !(
                    spec_is_foliage(before, area, pos) && pos.0 == x && pos.2 == z) by {}
                }
            }
            z = z + 1;
        }
        x = x + 1;
    }
    Ok(())
}

} // verus!
