//! The view of a world that building works on.
//!
//! Whatever builds in a world reads and writes it through this narrow
//! interface: blocks by position, the heights of ground and water and the
//! biome by column, and the rectangle that may be built on.

use crate::block::Block;
use crate::chunk::Biome;
use crate::error::WorldError;
use crate::geometry::{Column, Pos, Rect};
use crate::world::{spec_state_wf, World, WorldState};
use vstd::prelude::*;

verus! {

/// A world as building sees it.
pub trait WorldView {
    /// What the view holds.
    spec fn state(&self) -> WorldState;

    /// Whether the view is well formed.
    spec fn valid(&self) -> bool;

    /// What a well-formed view holds is the state of a well-formed world.
    proof fn lemma_valid(&self)
        requires
            self.valid(),
        ensures
            spec_state_wf(self.state()),
    ;

    /// The block at the position. It fails with `OutOfBounds` for a
    /// position that the view does not hold.
    fn get(&self, pos: Pos) -> (r: Result<Block, WorldError>)
        requires
            self.valid(),
        ensures
            match r {
                Ok(block) => self.state().contains_pos(pos) && block == self.state().block(pos),
                Err(e) => !self.state().contains_pos(pos) && e == WorldError::OutOfBounds,
            },
    ;

    /// Puts `block` at the position and changes nothing else. It fails
    /// with `OutOfBounds` for a position that the view does not hold, and
    /// then changes nothing at all.
    fn set(&mut self, pos: Pos, block: Block) -> (r: Result<(), WorldError>)
        requires
            old(self).valid(),
        ensures
            final(self).valid(),
            match r {
                Ok(()) => {
                    &&& old(self).state().contains_pos(pos)
                    &&& final(self).state() == old(self).state().with_block(pos, block)
                },
                Err(e) => !old(self).state().contains_pos(pos) && e == WorldError::OutOfBounds
                    && final(self).state() == old(self).state(),
            },
    ;

    /// Puts `block` at the position, as `set` does.
    fn set_override(&mut self, pos: Pos, block: Block) -> (r: Result<(), WorldError>)
        requires
            old(self).valid(),
        ensures
            final(self).valid(),
            match r {
                Ok(()) => {
                    &&& old(self).state().contains_pos(pos)
                    &&& final(self).state() == old(self).state().with_block(pos, block)
                },
                Err(e) => !old(self).state().contains_pos(pos) && e == WorldError::OutOfBounds
                    && final(self).state() == old(self).state(),
            },
    {
        self.set(pos, block)
    }

    /// Puts `block` at the position unless the block that is there is
    /// solid.
    fn set_if_not_solid(&mut self, pos: Pos, block: Block) -> (r: Result<(), WorldError>)
        requires
            old(self).valid(),
        ensures
            final(self).valid(),
            match r {
                Ok(()) => {
                    &&& old(self).state().contains_pos(pos)
                    &&& final(self).state() == if old(self).state().block(pos).spec_solid() {
                        old(self).state()
                    } else {
                        old(self).state().with_block(pos, block)
                    }
                },
                Err(e) => !old(self).state().contains_pos(pos) && e == WorldError::OutOfBounds
                    && final(self).state() == old(self).state(),
            },
    {
        match self.get(pos) {
            Ok(present) => if present.solid() {
                Ok(())
            } else {
                self.set(pos, block)
            },
            Err(e) => Err(e),
        }
    }

    /// The height of the ground in the column, not counting what grows on
    /// it.
    fn height(&self, column: Column) -> (r: Result<i32, WorldError>)
        requires
            self.valid(),
        ensures
            match r {
                Ok(height) => self.state().contains_column(column) && height
                    == self.state().height(column),
                Err(e) => !self.state().contains_column(column) && e == WorldError::OutOfBounds,
            },
    ;

    /// Sets the height of the ground in the column.
    fn set_height(&mut self, column: Column, height: i32) -> (r: Result<(), WorldError>)
        requires
            old(self).valid(),
        ensures
            final(self).valid(),
            match r {
                Ok(()) => {
                    &&& old(self).state().contains_column(column)
                    &&& final(self).state() == old(self).state().with_height(column, height)
                },
                Err(e) => !old(self).state().contains_column(column) && e
                    == WorldError::OutOfBounds && final(self).state() == old(self).state(),
            },
    ;

    /// The height of the water in the column, if it has any.
    fn water_level(&self, column: Column) -> (r: Result<Option<i32>, WorldError>)
        requires
            self.valid(),
        ensures
            match r {
                Ok(level) => self.state().contains_column(column) && level
                    == self.state().water_level(column),
                Err(e) => !self.state().contains_column(column) && e == WorldError::OutOfBounds,
            },
    ;

    /// Sets the height of the water in the column.
    fn set_water_level(&mut self, column: Column, level: Option<i32>) -> (r: Result<
        (),
        WorldError,
    >)
        requires
            old(self).valid(),
        ensures
            final(self).valid(),
            match r {
                Ok(()) => {
                    &&& old(self).state().contains_column(column)
                    &&& final(self).state() == old(self).state().with_water_level(column, level)
                },
                Err(e) => !old(self).state().contains_column(column) && e
                    == WorldError::OutOfBounds && final(self).state() == old(self).state(),
            },
    ;

    /// The biome of the column.
    fn biome(&self, column: Column) -> (r: Result<Biome, WorldError>)
        requires
            self.valid(),
        ensures
            match r {
                Ok(biome) => {
                    &&& self.state().contains_column(column)
                    &&& biome == self.state().biome(column)
                },
                Err(e) => !self.state().contains_column(column) && e == WorldError::OutOfBounds,
            },
    ;

    /// The rectangle of columns that may be built on.
    fn area(&self) -> (r: Rect)
        requires
            self.valid(),
        ensures
            r == self.state().area(),
    ;
}

impl WorldView for World {
    open spec fn state(&self) -> WorldState {
        self@
    }

    open spec fn valid(&self) -> bool {
        self.wf()
    }

    proof fn lemma_valid(&self) {
        self.lemma_wf();
    }

    fn get(&self, pos: Pos) -> (r: Result<Block, WorldError>) {
        World::get(self, pos)
    }

    fn set(&mut self, pos: Pos, block: Block) -> (r: Result<(), WorldError>) {
        World::set(self, pos, block)
    }

    fn height(&self, column: Column) -> (r: Result<i32, WorldError>) {
        World::height(self, column)
    }

    fn set_height(&mut self, column: Column, height: i32) -> (r: Result<(), WorldError>) {
        World::set_height(self, column, height)
    }

    fn water_level(&self, column: Column) -> (r: Result<Option<i32>, WorldError>) {
        World::water_level(self, column)
    }

    fn set_water_level(&mut self, column: Column, level: Option<i32>) -> (r: Result<
        (),
        WorldError,
    >) {
        World::set_water_level(self, column, level)
    }

    fn biome(&self, column: Column) -> (r: Result<Biome, WorldError>) {
        World::biome(self, column)
    }

    fn area(&self) -> (r: Rect) {
        World::area(self)
    }
}

} // verus!
