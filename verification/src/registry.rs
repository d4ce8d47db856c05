//! The registry of unknown states.
//!
//! A state that the block model does not know is kept here once, and the
//! block holds its index. The registry only grows: an index, once given,
//! names the same state for as long as the registry lives.

use crate::blockstate::{Blockstate, StateView};
use crate::error::BlockError;
use std::collections::hash_map::DefaultHasher;
use std::collections::HashMap;
use std::hash::Hasher;
use vstd::prelude::*;
use vstd::std_specs::hash::DefaultHasherAdditionalSpecFns;
use vstd::utf8::encode_utf8;

verus! {

broadcast use vstd::std_specs::hash::group_hash_axioms;

/// The number of states that the registry can hold: as many as a `u16`
/// tells apart.
pub const MAX_UNKNOWN: usize = 65536;

/// The states that the block model does not know, each at its index.
#[derive(Debug)]
pub struct UnknownBlocks {
    states: Vec<Blockstate>,
    /// For each hash of a state the indices of the states that have it.
    index: HashMap<u64, Vec<u16>>,
}

/// What is hashed of the first `upto` properties: the bytes of each name
/// and of each value.
pub closed spec fn spec_hash_props(props: Seq<(Seq<char>, Seq<char>)>, upto: int) -> Seq<Seq<u8>>
    decreases upto,
{
    if upto <= 0 {
        Seq::empty()
    } else {
        spec_hash_props(props, upto - 1).push(encode_utf8(props[upto - 1].0)).push(
            encode_utf8(props[upto - 1].1),
        )
    }
}

/// The hash of a state: that of the bytes of its name and of its
/// properties.
pub closed spec fn spec_hash(state: StateView) -> u64 {
    DefaultHasher::spec_finish(
        seq![encode_utf8(state.name)] + spec_hash_props(state.props, state.props.len() as int),
    )
}

/// The hash of a state.
fn hash_state(state: &Blockstate) -> (h: u64)
    ensures
        h == spec_hash(state@),
{
    let mut hasher = DefaultHasher::new();
    hasher.write(state.0.as_str().as_bytes());
    let ghost head = seq![encode_utf8(state@.name)];
    assert(hasher@ =~= head + spec_hash_props(state@.props, 0));
    let mut i: usize = 0;
    while i < state.1.len()
        invariant
            i <= state.1.len(),
            head == seq![encode_utf8(state@.name)],
            hasher@ == head + spec_hash_props(state@.props, i as int),
        decreases state.1.len() - i,
    {
        let ghost before = hasher@;
        assert(state@.props[i as int] == (state.1[i as int].0@, state.1[i as int].1@));
        hasher.write(state.1[i].0.as_str().as_bytes());
        hasher.write(state.1[i].1.as_str().as_bytes());
        assert(hasher@ =~= head + spec_hash_props(state@.props, i + 1));
        i = i + 1;
    }
    hasher.finish()
}

/// What interning `state` makes of the registry `states`, and the index that
/// it gives: the index that the state has, or the next free one; `None`
/// where the state is new and no index is left.
pub open spec fn spec_intern(states: Seq<StateView>, state: StateView) -> (
    Seq<StateView>,
    Option<int>,
) {
    if states.contains(state) {
        (states, Some(states.index_of(state)))
    } else if states.len() < MAX_UNKNOWN {
        (states.push(state), Some(states.len() as int))
    } else {
        (states, None)
    }
}

impl View for UnknownBlocks {
    type V = Seq<StateView>;

    closed spec fn view(&self) -> Seq<StateView> {
        self.states@.map_values(|s: Blockstate| s@)
    }
}

impl UnknownBlocks {
    /// Whether the index of hashes is that of the states: each state is
    /// found under its hash, and nothing else is.
    pub closed spec fn indexed(&self) -> bool {
        &&& forall|i: int|
            0 <= i < self@.len() ==> self.index@.contains_key(spec_hash(#[trigger] self@[i]))
                && self.index@[spec_hash(self@[i])]@.contains(i as u16)
        &&& forall|h: u64, k: int|
            self.index@.contains_key(h) && 0 <= k < self.index@[h]@.len() ==> (
            #[trigger] self.index@[h]@[k]) < self@.len() && spec_hash(
                self@[self.index@[h]@[k] as int],
            ) == h
    }

    /// Whether the registry holds no state twice and no more states than
    /// there are indices, and finds each of them by its hash.
    pub open spec fn wf(&self) -> bool {
        self@.len() <= MAX_UNKNOWN && self@.no_duplicates() && self.indexed()
    }

    /// An empty registry.
    pub fn new() -> (r: UnknownBlocks)
        ensures
            r.wf(),
            r@ == Seq::<StateView>::empty(),
    {
        let r = UnknownBlocks { states: Vec::new(), index: HashMap::new() };
        assert(r@ =~= Seq::<StateView>::empty());
        r
    }

    /// The number of states in the registry.
    pub fn len(&self) -> (n: usize)
        ensures
            n == self@.len(),
    {
        self.states.len()
    }

    /// The index of `state`, if the registry holds it.
    pub fn find(&self, state: &Blockstate) -> (r: Option<u16>)
        requires
            self.wf(),
        ensures
            match r {
                Some(i) => i < self@.len() && self@[i as int] == state@,
                None => !self@.contains(state@),
            },
    {
        let hash: u64 = hash_state(state);
        let bucket = match self.index.get(&hash) {
            Some(bucket) => bucket,
            None => {
                return None;
            },
        };
        let mut k: usize = 0;
        while k < bucket.len()
            invariant
                k <= bucket.len(),
                self.wf(),
                hash == spec_hash(state@),
                self.index@.contains_key(hash),
                self.index@[hash] == *bucket,
                forall|j: int| 0 <= j < k ==> self@[bucket@[j] as int] != state@,
            decreases bucket.len() - k,
        {
            let i: u16 = bucket[k];
            assert(self.index@[hash]@[k as int] == i);
            assert(self@[i as int] == self.states[i as int]@);
            if self.states[i as usize].same_as(state) {
                return Some(i);
            }
            k = k + 1;
        }
        proof {
            if self@.contains(state@) {
                let i = choose|i: int| 0 <= i < self@.len() && self@[i] == state@;
                assert(self.index@[spec_hash(self@[i])]@.contains(i as u16));
                let j = choose|j: int| 0 <= j < bucket@.len() && bucket@[j] == i as u16;
                assert(self@[bucket@[j] as int] != state@);
            }
        }
        None
    }

    /// The index of `state`, which is added to the registry unless it is
    /// there. A state that is there keeps its index and the registry stays
    /// as it is. A new state gets the next index; when none is left, the
    /// call fails with `RegistryFull` and changes nothing.
    pub fn intern(&mut self, state: Blockstate) -> (r: Result<u16, BlockError>)
        requires
            old(self).wf(),
        ensures
            final(self).wf(),
            final(self)@ == spec_intern(old(self)@, state@).0,
            match r {
                Ok(i) => {
                    &&& spec_intern(old(self)@, state@).1 == Some(i as int)
                    &&& i < final(self)@.len()
                    &&& final(self)@[i as int] == state@
                },
                Err(e) => spec_intern(old(self)@, state@).1 is None && e
                    == BlockError::RegistryFull,
            },
            forall|i: int| 0 <= i < old(self)@.len() ==> final(self)@[i] == old(self)@[i],
    {
        match self.find(&state) {
            Some(i) => {
                proof {
                    let states = self@;
                    assert(states.contains(state@));
                    let k = states.index_of(state@);
                    assert(states[k] == state@);
                    assert(k == i as int);
                }
                Ok(i)
            },
            None => {
                let n: usize = self.states.len();
                if n < MAX_UNKNOWN {
                    let ghost before = self@;
                    let ghost added = state@;
                    let ghost old_index = self.index@;
                    let hash: u64 = hash_state(&state);
                    let mut bucket: Vec<u16> = match self.index.remove(&hash) {
                        Some(bucket) => bucket,
                        None => Vec::new(),
                    };
                    let ghost old_bucket = bucket@;
                    bucket.push(n as u16);
                    let ghost new_bucket = bucket@;
                    self.index.insert(hash, bucket);
                    self.states.push(state);
                    assert(self@ =~= before.push(added));
                    assert(self.indexed()) by {
                        assert(self.index@ =~= old_index.insert(hash, self.index@[hash]));
                        assert(self.index@[hash]@ == new_bucket);
                        assert forall|i: int| 0 <= i < self@.len() implies self.index@.contains_key(
                            spec_hash(#[trigger] self@[i]),
                        ) && self.index@[spec_hash(self@[i])]@.contains(i as u16) by {
                            if i < n {
                                assert(self@[i] == before[i]);
                                let h = spec_hash(before[i]);
                                assert(old_index.contains_key(h) && old_index[h]@.contains(
                                    i as u16,
                                ));
                                if h == hash {
                                    let j = choose|j: int|
                                        0 <= j < old_bucket.len() && old_bucket[j] == i as u16;
                                    assert(new_bucket[j] == i as u16);
                                }
                            } else {
                                assert(new_bucket[new_bucket.len() - 1] == n as u16);
                            }
                        }
                        assert forall|h: u64, k: int|
                            self.index@.contains_key(h) && 0 <= k
                                < self.index@[h]@.len() implies (#[trigger] self.index@[h]@[k])
                            < self@.len() && spec_hash(self@[self.index@[h]@[k] as int]) == h by {
                            if h == hash {
                                if k < old_bucket.len() {
                                    assert(old_index.contains_key(hash));
                                    assert(old_index[hash]@[k] == new_bucket[k]);
                                    let i = new_bucket[k] as int;
                                    assert(self@[i] == before[i]);
                                }
                            } else {
                                assert(old_index.contains_key(h));
                                assert(old_index[h]@[k] == self.index@[h]@[k]);
                                let i = old_index[h]@[k] as int;
                                assert(self@[i] == before[i]);
                            }
                        }
                    }
                    assert(self@.no_duplicates()) by {
                        assert forall|a: int, b: int|
                            0 <= a < self@.len() && 0 <= b < self@.len() && a != b implies self@[a]
                            != self@[b] by {
                            if a < n && b < n {
                                assert(before[a] != before[b]);
                            } else if a < n {
                                assert(before.contains(before[a]));
                            } else {
                                assert(before.contains(before[b]));
                            }
                        }
                    }
                    Ok(n as u16)
                } else {
                    Err(BlockError::RegistryFull)
                }
            },
        }
    }

    /// The state at `index`, if the registry holds one there.
    pub fn resolve(&self, index: u16) -> (r: Option<Blockstate>)
        ensures
            match r {
                Some(state) => index < self@.len() && state@ == self@[index as int],
                None => index >= self@.len(),
            },
    {
        if (index as usize) < self.states.len() {
            Some(self.states[index as usize].duplicate())
        } else {
            None
        }
    }

    /// A copy of the registry.
    pub fn duplicate(&self) -> (r: UnknownBlocks)
        requires
            self.wf(),
        ensures
            r.wf(),
            r@ == self@,
    {
        let mut copy = UnknownBlocks::new();
        let mut i: usize = 0;
        while i < self.states.len()
            invariant
                i <= self.states.len(),
                self.wf(),
                copy.wf(),
                copy@ == self@.take(i as int),
            decreases self.states.len() - i,
        {
            let state = self.states[i].duplicate();
            proof {
                let held = self@.take(i as int);
                assert(self@[i as int] == state@);
                if held.contains(state@) {
                    let j = choose|j: int| 0 <= j < held.len() && held[j] == state@;
                    assert(self@[j] == self@[i as int]);
                }
                assert(held.push(state@) =~= self@.take(i + 1));
            }
            let _ = copy.intern(state);
            i = i + 1;
        }
        assert(self@.take(i as int) =~= self@);
        copy
    }
}

impl Default for UnknownBlocks {
    fn default() -> (r: UnknownBlocks)
        ensures
            r.wf(),
            r@ == Seq::<StateView>::empty(),
    {
        UnknownBlocks::new()
    }
}

/// The state that the registry holds at `index`.
pub fn debug_read_unknown(unknown: &UnknownBlocks, index: u16) -> (r: Blockstate)
    requires
        index < unknown@.len(),
    ensures
        r@ == unknown@[index as int],
{
    match unknown.resolve(index) {
        Some(state) => state,
        None => Blockstate::named(String::new()),
    }
}

/// Interning a state a second time gives the index of the first time and
/// leaves the registry as the first time left it.
pub proof fn lemma_intern_twice(states: Seq<StateView>, state: StateView)
    requires
        states.no_duplicates(),
    ensures
        ({
            let (once, first) = spec_intern(states, state);
            let (twice, second) = spec_intern(once, state);
            first is Some ==> second == first && twice == once
        }),
{
    let (once, first) = spec_intern(states, state);
    if first is Some {
        if states.contains(state) {
        } else {
            assert(once[states.len() as int] == state);
            assert(once.contains(state));
            let k = once.index_of(state);
            assert(once[k] == state);
            if k < states.len() {
                assert(states[k] == state);
                assert(states.contains(state));
            }
        }
    }
}

/// Two different states never get the same index, in whichever order they
/// are interned and whatever the registry held before.
pub proof fn lemma_intern_distinct(states: Seq<StateView>, s1: StateView, s2: StateView)
    requires
        states.no_duplicates(),
        s1 != s2,
    ensures
        ({
            let (once, first) = spec_intern(states, s1);
            let (twice, second) = spec_intern(once, s2);
            first is Some && second is Some ==> first != second
        }),
{
    let (once, first) = spec_intern(states, s1);
    let (twice, second) = spec_intern(once, s2);
    if first is Some && second is Some {
        let i = first->0;
        let j = second->0;
        lemma_intern_resolves(states, s1);
        lemma_intern_keeps(states, s1);
        lemma_intern_resolves(once, s2);
        lemma_intern_keeps(once, s2);
        assert(once[i] == s1);
        assert(twice[j] == s2);
        assert(twice[i] == once[i]);
    }
}

/// The index that interning gives names the interned state.
pub proof fn lemma_intern_resolves(states: Seq<StateView>, state: StateView)
    ensures
        ({
            let (after, index) = spec_intern(states, state);
            index matches Some(i) ==> 0 <= i < after.len() && after[i] == state
        }),
{
    if states.contains(state) {
        let k = states.index_of(state);
        assert(states[k] == state);
    }
}

/// Interning changes no entry of the registry, and keeps it free of
/// duplicates.
pub proof fn lemma_intern_keeps(states: Seq<StateView>, state: StateView)
    requires
        states.no_duplicates(),
    ensures
        ({
            let after = spec_intern(states, state).0;
            &&& after.no_duplicates()
            &&& states.len() <= after.len()
            &&& forall|i: int| 0 <= i < states.len() ==> after[i] == states[i]
        }),
{
    let after = spec_intern(states, state).0;
    if !states.contains(state) && states.len() < MAX_UNKNOWN {
        assert forall|a: int, b: int|
            0 <= a < after.len() && 0 <= b < after.len() && a != b implies after[a] != after[b] by {
            if a < states.len() && b < states.len() {
                assert(states[a] != states[b]);
            } else if a < states.len() {
                assert(states.contains(states[a]));
            } else {
                assert(states.contains(states[b]));
            }
        }
    }
}

} // verus!
