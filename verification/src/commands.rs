//! The store of commands: the texts that command blocks run.
//!
//! A block is a small value and cannot hold a text, so a command block
//! holds the index of its command in a store. The store only grows: an
//! index that was handed out keeps its text.

use crate::block::Block;
use vstd::prelude::*;

verus! {

/// The most commands that a store holds: as many as a block can tell
/// apart.
pub const MAX_COMMANDS: usize = 65536;

/// The texts of the command blocks, each at the index that its blocks
/// hold.
#[derive(Debug)]
pub struct Commands {
    texts: Vec<String>,
}

impl View for Commands {
    type V = Seq<Seq<char>>;

    closed spec fn view(&self) -> Seq<Seq<char>> {
        self.texts@.map_values(|text: String| text@)
    }
}

impl Block {
    /// Whether the store holds what the block needs beside its state: the
    /// command of a command block. Any other block needs nothing.
    pub open spec fn spec_command_held(self, commands: Seq<Seq<char>>) -> bool {
        self matches Block::CommandBlock(index) ==> index < commands.len()
    }

    /// The command that the block runs, if it is a command block whose
    /// command the store holds.
    pub open spec fn spec_command(self, commands: Seq<Seq<char>>) -> Option<Seq<char>> {
        match self {
            Block::CommandBlock(index) => if index < commands.len() {
                Some(commands[index as int])
            } else {
                None
            },
            _ => None,
        }
    }
}

impl Commands {
    /// A store without commands.
    pub fn new() -> (r: Commands)
        ensures
            r@ == Seq::<Seq<char>>::empty(),
    {
        let r = Commands { texts: Vec::new() };
        assert(r@ =~= Seq::<Seq<char>>::empty());
        r
    }

    /// The number of commands in the store.
    pub fn len(&self) -> (r: usize)
        ensures
            r == self@.len(),
    {
        self.texts.len()
    }

    /// Adds a command to the store and gives the command block that runs
    /// it. A store that is full takes no more and gives no block.
    pub fn add(&mut self, text: String) -> (r: Option<Block>)
        ensures
            match r {
                Some(block) => {
                    &&& old(self)@.len() < MAX_COMMANDS
                    &&& block == Block::CommandBlock(old(self)@.len() as u16)
                    &&& final(self)@ == old(self)@.push(text@)
                    &&& block.spec_command(final(self)@) == Some(text@)
                },
                None => old(self)@.len() >= MAX_COMMANDS && final(self)@ == old(self)@,
            },
    {
        let count: usize = self.texts.len();
        if count >= MAX_COMMANDS {
            return None;
        }
        let ghost before = self@;
        let ghost added = text@;
        self.texts.push(text);
        assert(self@ =~= before.push(added));
        Some(Block::CommandBlock(count as u16))
    }

    /// The command at `index`, if the store holds one there.
    pub fn get(&self, index: u16) -> (r: Option<String>)
        ensures
            match r {
                Some(text) => index < self@.len() && text@ == self@[index as int],
                None => index >= self@.len(),
            },
    {
        if (index as usize) < self.texts.len() {
            Some(self.texts[index as usize].clone())
        } else {
            None
        }
    }

    /// Whether the store holds what the block needs beside its state.
    pub fn holds(&self, block: Block) -> (r: bool)
        ensures
            r == block.spec_command_held(self@),
    {
        match block {
            Block::CommandBlock(index) => (index as usize) < self.texts.len(),
            _ => true,
        }
    }

    /// The command that the block runs: that of a command block whose
    /// command the store holds, none for any other block.
    pub fn command(&self, block: Block) -> (r: Option<String>)
        ensures
            match r {
                Some(text) => block.spec_command(self@) == Some(text@),
                None => block.spec_command(self@) is None,
            },
    {
        match block {
            Block::CommandBlock(index) => self.get(index),
            _ => None,
        }
    }
}

/// A store keeps what it held when a command is added: every block whose
/// command it held runs the same command afterwards.
pub proof fn lemma_add_keeps(commands: Seq<Seq<char>>, text: Seq<char>, block: Block)
    requires
        block.spec_command_held(commands),
    ensures
        block.spec_command_held(commands.push(text)),
        block.spec_command(commands.push(text)) == block.spec_command(commands),
{
}

} // verus!
