//! The palette codec.
//!
//! A run of blocks is stored as a palette, the list of the distinct blocks
//! in it, and one index into the palette for each block. The indices all
//! have the same width in bits and are packed into words of 64 bits: the
//! first index in the lowest bits, the next above it. An index never
//! straddles two words: where the rest of a word is too narrow for one, it
//! stays zero and the index starts the next word.

use crate::block::Block;
use crate::error::PaletteError;
use vstd::arithmetic::div_mod::{
    lemma_div_denominator, lemma_fundamental_div_mod, lemma_fundamental_div_mod_converse,
    lemma_small_mod,
};
use vstd::arithmetic::mul::{lemma_mul_inequality, lemma_mul_is_commutative};
use vstd::arithmetic::power2::{
    lemma2_to64, lemma2_to64_rest, lemma_pow2_adds, lemma_pow2_pos, lemma_pow2_strictly_increases,
    lemma_pow2_unfold, pow2,
};
use vstd::bits::{lemma_u64_shl_is_mul, lemma_u64_shr_is_div};
use vstd::prelude::*;

verus! {

/// The narrowest width of an index, in bits.
pub const MIN_BITS: usize = 4;

/// The width of a word, in bits.
pub const WORD_BITS: usize = 64;

/// The width in bits of an index into a palette of `len` blocks: the least
/// `k` with `len <= 2^k`, and at least `MIN_BITS`.
pub open spec fn spec_bits_per_index(len: nat) -> nat
    decreases len,
{
    if len <= 16 {
        4
    } else {
        spec_bits_per_index((len + 1) / 2) + 1
    }
}

/// How many indices of `bits` bits one word holds.
pub open spec fn spec_per_word(bits: nat) -> nat {
    64nat / bits
}

/// How many words `count` indices of `bits` bits take.
pub open spec fn spec_word_count(count: nat, bits: nat) -> nat {
    (count + spec_per_word(bits) - 1) as nat / spec_per_word(bits)
}

/// The value of a word that holds `slots`, the first of them in its lowest
/// bits, each `bits` wide.
pub open spec fn spec_word(slots: Seq<nat>, bits: nat) -> nat
    decreases slots.len(),
{
    if slots.len() == 0 {
        0
    } else {
        slots[0] + pow2(bits) * spec_word(slots.skip(1), bits)
    }
}

/// The index in slot `slot` of `word`.
pub open spec fn spec_slot(word: nat, bits: nat, slot: nat) -> nat {
    (word / pow2(bits * slot)) % pow2(bits)
}

/// The indices that word `w` of the packed form holds.
pub open spec fn spec_word_slots(indices: Seq<nat>, bits: nat, w: int) -> Seq<nat> {
    let per = spec_per_word(bits) as int;
    let end = if (w + 1) * per <= indices.len() {
        (w + 1) * per
    } else {
        indices.len() as int
    };
    indices.subrange(w * per, end)
}

/// The words that hold `indices`, each `bits` wide: every word but the last
/// is full, and the bits that hold no index are zero.
pub open spec fn spec_pack(indices: Seq<nat>, bits: nat) -> Seq<nat> {
    Seq::new(
        spec_word_count(indices.len(), bits),
        |w: int| spec_word(spec_word_slots(indices, bits, w), bits),
    )
}

/// The index at position `i` of the packed `words`.
pub open spec fn spec_unpack(words: Seq<nat>, bits: nat, i: int) -> nat {
    let per = spec_per_word(bits) as int;
    spec_slot(words[i / per], bits, (i % per) as nat)
}

/// The palette of `blocks`: air first, then each block that occurs, in the
/// order of its first occurrence.
pub open spec fn spec_palette(blocks: Seq<Block>) -> Seq<Block>
    decreases blocks.len(),
{
    if blocks.len() == 0 {
        seq![Block::Air]
    } else {
        let before = spec_palette(blocks.drop_last());
        if before.contains(blocks.last()) {
            before
        } else {
            before.push(blocks.last())
        }
    }
}

/// For each block its index in the palette of `blocks`.
pub open spec fn spec_indices(blocks: Seq<Block>) -> Seq<nat> {
    Seq::new(blocks.len(), |i: int| spec_palette(blocks).index_of(blocks[i]) as nat)
}

/// The bits of a stored word as a number.
pub open spec fn word_bits(word: i64) -> nat {
    (word as u64) as nat
}

/// The bits of stored words as numbers.
pub open spec fn words_view(data: Seq<i64>) -> Seq<nat> {
    data.map_values(|w: i64| word_bits(w))
}

/// The palette and the packed words for `blocks`.
pub open spec fn spec_palette_encode(blocks: Seq<Block>) -> (Seq<Block>, Seq<nat>) {
    let palette = spec_palette(blocks);
    (palette, spec_pack(spec_indices(blocks), spec_bits_per_index(palette.len())))
}

/// Whether an index among the first `count` of `words` points past the end
/// of the palette.
pub open spec fn spec_bad_index(palette_len: nat, words: Seq<nat>, count: nat) -> bool {
    exists|i: int|
        0 <= i < count && #[trigger] spec_unpack(words, spec_bits_per_index(palette_len), i)
            >= palette_len
}

/// The `count` blocks that `words` hold over `palette`. It fails where the
/// words are too few for `count` indices, and where an index points past
/// the end of the palette. Words beyond those that are needed are not read.
pub open spec fn spec_palette_decode(palette: Seq<Block>, words: Seq<nat>, count: nat) -> Result<
    Seq<Block>,
    PaletteError,
> {
    let bits = spec_bits_per_index(palette.len());
    if words.len() < spec_word_count(count, bits) {
        Err(PaletteError::TooFewWords)
    } else if spec_bad_index(palette.len(), words, count) {
        Err(PaletteError::IndexOutOfPalette)
    } else {
        Ok(Seq::new(count, |i: int| palette[spec_unpack(words, bits, i) as int]))
    }
}

/// The width of an index is the least of all widths from `MIN_BITS` up that
/// can tell `len` blocks apart.
pub proof fn lemma_bits_minimal(len: nat)
    ensures
        4 <= spec_bits_per_index(len),
        len <= pow2(spec_bits_per_index(len)),
        spec_bits_per_index(len) > 4 ==> len > pow2((spec_bits_per_index(len) - 1) as nat),
        forall|k: nat| 4 <= k && len <= pow2(k) ==> spec_bits_per_index(len) <= k,
    decreases len,
{
    lemma2_to64();
    let bits = spec_bits_per_index(len);
    if len <= 16 {
    } else {
        let half = (len + 1) / 2;
        lemma_bits_minimal(half);
        let inner = spec_bits_per_index(half);
        lemma_pow2_unfold(bits);
        assert(len <= pow2(bits));
        if inner > 4 {
            lemma_pow2_unfold(inner);
        }
        assert(len > pow2((bits - 1) as nat));
        assert forall|k: nat| 4 <= k && len <= pow2(k) implies bits <= k by {
            if k == 4 {
            } else {
                lemma_pow2_unfold(k);
                assert(half <= pow2((k - 1) as nat));
                assert(4 <= (k - 1) as nat);
            }
        }
    }
}

/// A width of at least `MIN_BITS` and at most a word gives between one and
/// sixteen indices to the word, and they fit into it.
pub proof fn lemma_per_word(bits: nat)
    requires
        4 <= bits <= 64,
    ensures
        1 <= spec_per_word(bits) <= 16,
        spec_per_word(bits) * bits <= 64,
{
    let per = 64int / bits as int;
    lemma_fundamental_div_mod(64, bits as int);
    assert(bits * per <= 64);
    lemma_mul_is_commutative(bits as int, per);
    if per > 16 {
        lemma_mul_inequality(17, per, bits as int);
        lemma_mul_is_commutative(bits as int, per);
    }
    if per < 1 {
        assert(bits * per == 0) by (nonlinear_arith)
            requires
                per == 0,
        ;
    }
}

/// A word of `slots.len()` slots, each below `2^bits`, lies below
/// `2^(bits * slots.len())`.
pub proof fn lemma_word_bound(slots: Seq<nat>, bits: nat)
    requires
        forall|k: int| 0 <= k < slots.len() ==> slots[k] < pow2(bits),
    ensures
        spec_word(slots, bits) < pow2(bits * slots.len()),
    decreases slots.len(),
{
    if slots.len() == 0 {
        lemma2_to64();
        assert(bits * 0 == 0);
    } else {
        let rest = slots.skip(1);
        assert forall|k: int| 0 <= k < rest.len() implies rest[k] < pow2(bits) by {
            assert(rest[k] == slots[k + 1]);
        }
        lemma_word_bound(rest, bits);
        let p = pow2(bits) as int;
        let r = spec_word(rest, bits) as int;
        let q = pow2(bits * rest.len()) as int;
        lemma_pow2_adds(bits, bits * rest.len());
        assert(bits + bits * rest.len() == bits * slots.len()) by (nonlinear_arith)
            requires
                rest.len() + 1 == slots.len(),
        ;
        assert(slots[0] + p * r < p * q) by (nonlinear_arith)
            requires
                0 <= slots[0] < p,
                0 <= r < q,
        ;
    }
}

/// Putting one more index above the others adds it at its place.
pub proof fn lemma_word_push(slots: Seq<nat>, bits: nat, index: nat)
    ensures
        spec_word(slots.push(index), bits) == spec_word(slots, bits) + index * pow2(
            bits * slots.len(),
        ),
    decreases slots.len(),
{
    let more = slots.push(index);
    if slots.len() == 0 {
        lemma2_to64();
        assert(bits * 0 == 0);
        assert(more.skip(1) =~= Seq::<nat>::empty());
        assert(spec_word(more.skip(1), bits) == 0);
        assert(pow2(bits) * 0 == 0);
        assert(index * 1 == index);
    } else {
        let rest = slots.skip(1);
        assert(more.skip(1) =~= rest.push(index));
        lemma_word_push(rest, bits, index);
        let p = pow2(bits) as int;
        let q = pow2(bits * rest.len()) as int;
        lemma_pow2_adds(bits, bits * rest.len());
        assert(bits + bits * rest.len() == bits * slots.len()) by (nonlinear_arith)
            requires
                rest.len() + 1 == slots.len(),
        ;
        let r = spec_word(rest, bits) as int;
        assert(p * (r + index * q) == p * r + index * (p * q)) by (nonlinear_arith);
    }
}

/// Each slot of a word gives back the index that was put there.
pub proof fn lemma_slot_of_word(slots: Seq<nat>, bits: nat, k: int)
    requires
        0 <= k < slots.len(),
        forall|j: int| 0 <= j < slots.len() ==> slots[j] < pow2(bits),
    ensures
        spec_slot(spec_word(slots, bits), bits, k as nat) == slots[k],
    decreases k,
{
    let p = pow2(bits) as int;
    lemma_pow2_pos(bits);
    let rest = slots.skip(1);
    let r = spec_word(rest, bits) as int;
    let word = spec_word(slots, bits) as int;
    assert(word == r * p + slots[0]) by {
        lemma_mul_is_commutative(p, r);
    }
    lemma_fundamental_div_mod_converse(word, p, r, slots[0] as int);
    if k == 0 {
        lemma2_to64();
        assert(bits * 0 == 0);
        assert(word / 1 == word);
    } else {
        assert forall|j: int| 0 <= j < rest.len() implies rest[j] < pow2(bits) by {
            assert(rest[j] == slots[j + 1]);
        }
        lemma_slot_of_word(rest, bits, k - 1);
        assert(rest[k - 1] == slots[k]);
        let low = pow2(bits * ((k - 1) as nat)) as int;
        lemma_pow2_pos(bits * ((k - 1) as nat));
        lemma_pow2_adds(bits, bits * ((k - 1) as nat));
        assert(bits + bits * ((k - 1) as nat) == bits * (k as nat)) by (nonlinear_arith)
            requires
                k >= 1,
        ;
        lemma_div_denominator(word, p, low);
        assert((word / p) / low == word / (p * low));
    }
}

/// Where `i` is slot `slot` of word `w`, dividing by the slots of a word
/// finds them again.
pub proof fn lemma_position(i: int, per: int, w: int, slot: int)
    requires
        per > 0,
        0 <= slot < per,
        i == w * per + slot,
    ensures
        i / per == w,
        i % per == slot,
{
    lemma_fundamental_div_mod_converse(i, per, w, slot);
}

/// Unpacking what was packed gives each index back.
pub proof fn lemma_unpack_pack(indices: Seq<nat>, bits: nat, i: int)
    requires
        4 <= bits <= 64,
        0 <= i < indices.len(),
        forall|j: int| 0 <= j < indices.len() ==> indices[j] < pow2(bits),
    ensures
        i / (spec_per_word(bits) as int) < spec_pack(indices, bits).len(),
        spec_unpack(spec_pack(indices, bits), bits, i) == indices[i],
{
    lemma_per_word(bits);
    let per = spec_per_word(bits) as int;
    let w = i / per;
    let slot = i % per;
    lemma_fundamental_div_mod(i, per);
    lemma_mul_is_commutative(per, w);
    assert(i == w * per + slot);
    lemma_word_count(indices.len(), bits);
    let count = spec_word_count(indices.len(), bits) as int;
    assert(w < count) by {
        if w >= count {
            lemma_mul_inequality(count, w, per);
        }
    }
    assert(0 <= w) by {
        if w < 0 {
            assert(w * per <= -per) by (nonlinear_arith)
                requires
                    w <= -1,
                    per > 0,
            ;
        }
    }
    let slots = spec_word_slots(indices, bits, w);
    assert((w + 1) * per == w * per + per) by (nonlinear_arith);
    assert(slot < slots.len());
    assert forall|j: int| 0 <= j < slots.len() implies slots[j] < pow2(bits) by {
        assert(slots[j] == indices[w * per + j]);
    }
    lemma_slot_of_word(slots, bits, slot);
    assert(slots[slot] == indices[i]);
}

/// The words that `count` indices take hold them all, and the last of them
/// holds at least one.
pub proof fn lemma_word_count(count: nat, bits: nat)
    requires
        4 <= bits <= 64,
    ensures
        count <= spec_word_count(count, bits) * spec_per_word(bits),
        count > 0 ==> (spec_word_count(count, bits) - 1) * spec_per_word(bits) < count,
        count == 0 ==> spec_word_count(count, bits) == 0,
{
    lemma_per_word(bits);
    let per = spec_per_word(bits) as int;
    let top = count + per - 1;
    let words = top / per;
    lemma_fundamental_div_mod(top, per);
    lemma_mul_is_commutative(per, words);
    assert(top == words * per + top % per);
    assert((words - 1) * per == words * per - per) by (nonlinear_arith);
    if count == 0 {
        lemma_fundamental_div_mod_converse(top, per, 0, per - 1);
    }
}

/// The palette of `blocks` starts with air, holds no block twice, holds
/// every block of `blocks`, and nothing else after the air.
pub proof fn lemma_palette(blocks: Seq<Block>)
    ensures
        spec_palette(blocks).len() >= 1,
        spec_palette(blocks)[0] == Block::Air,
        spec_palette(blocks).no_duplicates(),
        spec_palette(blocks).len() <= blocks.len() + 1,
        forall|i: int|
            0 <= i < blocks.len() ==> spec_palette(blocks).contains(#[trigger] blocks[i]),
        forall|k: int|
            1 <= k < spec_palette(blocks).len() ==> blocks.contains(
                #[trigger] spec_palette(blocks)[k],
            ),
    decreases blocks.len(),
{
    let palette = spec_palette(blocks);
    if blocks.len() == 0 {
    } else {
        let front = blocks.drop_last();
        let before = spec_palette(front);
        lemma_palette(front);
        assert forall|i: int| 0 <= i < blocks.len() implies palette.contains(
            #[trigger] blocks[i],
        ) by {
            if i < front.len() {
                assert(front[i] == blocks[i]);
                assert(before.contains(front[i]));
                let k = choose|k: int| 0 <= k < before.len() && before[k] == front[i];
                assert(palette[k] == blocks[i]);
            } else {
                if before.contains(blocks.last()) {
                } else {
                    assert(palette[before.len() as int] == blocks[i]);
                }
            }
        }
        assert forall|k: int| 1 <= k < palette.len() implies blocks.contains(
            #[trigger] palette[k],
        ) by {
            if k < before.len() {
                assert(front.contains(before[k]));
                let i = choose|i: int| 0 <= i < front.len() && front[i] == before[k];
                assert(blocks[i] == palette[k]);
            } else {
                assert(blocks[blocks.len() - 1] == palette[k]);
            }
        }
    }
}

/// Every index into the palette of `blocks` names the block it stands for
/// and fits the width of the palette's indices.
pub proof fn lemma_indices(blocks: Seq<Block>)
    ensures
        forall|i: int|
            0 <= i < blocks.len() ==> {
                &&& (#[trigger] spec_indices(blocks)[i]) < spec_palette(blocks).len()
                &&& spec_palette(blocks)[spec_indices(blocks)[i] as int] == blocks[i]
                &&& spec_indices(blocks)[i] < pow2(spec_bits_per_index(spec_palette(blocks).len()))
            },
{
    let palette = spec_palette(blocks);
    lemma_palette(blocks);
    lemma_bits_minimal(palette.len());
    assert forall|i: int| 0 <= i < blocks.len() implies {
        &&& (#[trigger] spec_indices(blocks)[i]) < palette.len()
        &&& palette[spec_indices(blocks)[i] as int] == blocks[i]
    } by {
        assert(palette.contains(blocks[i]));
        let k = palette.index_of(blocks[i]);
        assert(0 <= k < palette.len() && palette[k] == blocks[i]);
    }
}

/// Decoding what was encoded gives the blocks back, whatever they are and
/// however many, as long as a machine can count them.
pub proof fn lemma_palette_round_trip(blocks: Seq<Block>)
    requires
        blocks.len() <= usize::MAX,
    ensures
        spec_palette_decode(
            spec_palette_encode(blocks).0,
            spec_palette_encode(blocks).1,
            blocks.len(),
        ) == Ok::<Seq<Block>, PaletteError>(blocks),
{
    let palette = spec_palette(blocks);
    let indices = spec_indices(blocks);
    let bits = spec_bits_per_index(palette.len());
    let words = spec_pack(indices, bits);
    lemma_palette(blocks);
    lemma_indices(blocks);
    lemma_bits_minimal(palette.len());
    lemma2_to64();
    lemma2_to64_rest();
    lemma_bits_at_most_64(palette.len());
    assert forall|i: int| 0 <= i < blocks.len() implies #[trigger] spec_unpack(words, bits, i)
        == indices[i] by {
        lemma_unpack_pack(indices, bits, i);
    }
    assert(!spec_bad_index(palette.len(), words, blocks.len()));
    let decoded = Seq::new(blocks.len(), |i: int| palette[spec_unpack(words, bits, i) as int]);
    assert(decoded =~= blocks);
}

/// A palette that a machine can hold has indices no wider than a word.
pub proof fn lemma_bits_at_most_64(len: nat)
    requires
        len <= pow2(64),
    ensures
        spec_bits_per_index(len) <= 64,
{
    lemma_bits_minimal(len);
}

/// The width in bits of an index into a palette of `palette_len` blocks:
/// the least width that can tell them apart, and at least `MIN_BITS`.
pub fn bits_per_index(palette_len: usize) -> (bits: usize)
    ensures
        bits == spec_bits_per_index(palette_len as nat),
        MIN_BITS <= bits <= WORD_BITS,
        palette_len <= pow2(bits as nat),
        bits > MIN_BITS ==> palette_len > pow2((bits - 1) as nat),
{
    let mut bits: usize = 4;
    let mut cap: u128 = 16;
    proof {
        lemma2_to64();
        lemma2_to64_rest();
    }
    while cap < palette_len as u128
        invariant
            4 <= bits <= 64,
            cap == pow2(bits as nat),
            bits > 4 ==> palette_len > pow2((bits - 1) as nat),
            pow2(64) == 0x1_0000_0000_0000_0000,
        decreases 64 - bits,
    {
        proof {
            if bits == 64 {
                assert(false);
            }
            lemma_pow2_unfold((bits + 1) as nat);
            if bits < 63 {
                lemma_pow2_strictly_increases((bits + 1) as nat, 64);
            }
        }
        cap = cap * 2;
        bits = bits + 1;
    }
    proof {
        lemma_bits_minimal(palette_len as nat);
        let least = spec_bits_per_index(palette_len as nat);
        if least < bits {
            if least < bits - 1 {
                lemma_pow2_strictly_increases(least, (bits - 1) as nat);
            }
        }
    }
    bits
}

/// The first place of `block` in `palette`.
fn position(palette: &Vec<Block>, block: Block) -> (r: Option<usize>)
    ensures
        match r {
            Some(k) => k < palette.len() && palette[k as int] == block,
            None => !palette@.contains(block),
        },
{
    let mut k: usize = 0;
    while k < palette.len()
        invariant
            k <= palette.len(),
            forall|j: int| 0 <= j < k ==> palette[j] != block,
        decreases palette.len() - k,
    {
        if palette[k] == block {
            return Some(k);
        }
        k = k + 1;
    }
    None
}

/// The palette of `blocks`: air first, then each block that occurs, in the
/// order of its first occurrence.
pub fn build_palette(blocks: &Vec<Block>) -> (palette: Vec<Block>)
    ensures
        palette@ == spec_palette(blocks@),
{
    let mut palette: Vec<Block> = Vec::new();
    palette.push(Block::Air);
    assert(palette@ =~= spec_palette(blocks@.take(0)));
    let mut i: usize = 0;
    while i < blocks.len()
        invariant
            i <= blocks.len(),
            palette@ == spec_palette(blocks@.take(i as int)),
        decreases blocks.len() - i,
    {
        let ghost upto = blocks@.take(i + 1);
        assert(upto.drop_last() =~= blocks@.take(i as int));
        assert(upto.last() == blocks[i as int]);
        if position(&palette, blocks[i]).is_none() {
            palette.push(blocks[i]);
        }
        i = i + 1;
    }
    assert(blocks@.take(i as int) =~= blocks@);
    palette
}

/// How many words `count` indices take where a word holds `per` of them.
fn word_count(count: usize, bits: usize) -> (words: usize)
    requires
        4 <= bits <= 64,
    ensures
        words == spec_word_count(count as nat, bits as nat),
        words <= count,
{
    let per: usize = 64 / bits;
    proof {
        lemma_per_word(bits as nat);
        lemma_word_count(count as nat, bits as nat);
    }
    let full: usize = count / per;
    let rest: usize = count % per;
    proof {
        let top = count + per - 1;
        lemma_fundamental_div_mod(count as int, per as int);
        lemma_mul_is_commutative(per as int, full as int);
        if rest == 0 {
            lemma_fundamental_div_mod_converse(top, per as int, full as int, per - 1);
        } else {
            assert((full + 1) * per == full * per + per) by (nonlinear_arith);
            lemma_fundamental_div_mod_converse(top, per as int, full + 1, rest - 1);
        }
        assert(full * per >= full) by (nonlinear_arith)
            requires
                per >= 1,
                full >= 0,
        ;
    }
    if rest == 0 {
        full
    } else {
        full + 1
    }
}

/// Writes `blocks` as a palette and packed indices.
///
/// The palette holds air first and then each block that occurs, in the
/// order of its first occurrence. The indices have the least width that
/// tells the palette's blocks apart, but no less than `MIN_BITS`, and are
/// packed into words without straddling: `palette_decode` gives the blocks
/// back.
pub fn palette_encode(blocks: &Vec<Block>) -> (r: (Vec<Block>, Vec<i64>))
    ensures
        r.0@ == spec_palette_encode(blocks@).0,
        words_view(r.1@) == spec_palette_encode(blocks@).1,
        spec_palette_decode(r.0@, words_view(r.1@), blocks@.len()) == Ok::<
            Seq<Block>,
            PaletteError,
        >(blocks@),
{
    let palette = build_palette(blocks);
    let count: usize = blocks.len();
    let bits: usize = bits_per_index(palette.len());
    let per: usize = 64 / bits;
    let ghost indices = spec_indices(blocks@);
    let ghost width = bits as nat;
    proof {
        lemma_per_word(width);
        lemma_indices(blocks@);
        lemma_palette(blocks@);
        lemma_palette_round_trip(blocks@);
        lemma2_to64();
        lemma2_to64_rest();
    }
    let mut data: Vec<i64> = Vec::new();
    let mut word: u64 = 0;
    let mut slot: usize = 0;
    let mut shift: u64 = 0;
    let mut i: usize = 0;
    assert(indices.subrange(0, 0) =~= Seq::<nat>::empty());
    assert(0 * per + 0 == 0 && 0 * bits == 0) by (nonlinear_arith);
    while i < blocks.len()
        invariant
            i <= blocks.len(),
            palette@ == spec_palette(blocks@),
            indices == spec_indices(blocks@),
            indices.len() == blocks.len(),
            width == bits,
            4 <= bits <= 64,
            per == spec_per_word(width),
            1 <= per <= 16,
            per * bits <= 64,
            forall|j: int|
                0 <= j < blocks.len() ==> {
                    &&& (#[trigger] indices[j]) < palette.len()
                    &&& palette[indices[j] as int] == blocks[j]
                    &&& indices[j] < pow2(width)
                },
            palette@.no_duplicates(),
            slot < per,
            shift == slot * bits,
            i == data.len() * per + slot,
            word == spec_word(indices.subrange(data.len() * per, i as int), width),
            forall|w: int|
                0 <= w < data.len() ==> word_bits(#[trigger] data[w]) == spec_word(
                    spec_word_slots(indices, width, w),
                    width,
                ),
            pow2(64) == 0x1_0000_0000_0000_0000,
        decreases blocks.len() - i,
    {
        let index: usize = match position(&palette, blocks[i]) {
            Some(k) => k,
            None => 0,
        };
        let ghost start = data.len() * per;
        let ghost slots = indices.subrange(start, i as int);
        proof {
            let k = palette@.index_of(blocks[i as int]);
            assert(palette@.contains(blocks[i as int])) by {
                assert(palette[indices[i as int] as int] == blocks[i as int]);
            }
            assert(palette[k] == blocks[i as int]);
            assert(index == indices[i as int]);
            assert forall|j: int| 0 <= j < slots.len() implies slots[j] < pow2(width) by {
                assert(slots[j] == indices[start + j]);
            }
            lemma_word_bound(slots, width);
            lemma_word_push(slots, width, index as nat);
            assert(slots.push(index as nat) =~= indices.subrange(start, i + 1));
            assert(width * slots.len() == shift) by (nonlinear_arith)
                requires
                    slots.len() == slot,
                    shift == slot * bits,
                    width == bits,
            ;
            assert(shift + bits <= 64) by (nonlinear_arith)
                requires
                    shift == slot * bits,
                    slot < per,
                    per * bits <= 64,
            ;
            lemma_pow2_adds(shift as nat, width);
            let low = pow2(shift as nat) as int;
            let high = pow2(width) as int;
            lemma_pow2_pos(shift as nat);
            assert(word + index * low < low * high) by (nonlinear_arith)
                requires
                    0 <= word < low,
                    0 <= index < high,
            ;
            if shift + bits < 64 {
                lemma_pow2_strictly_increases((shift + bits) as nat, 64);
            }
            assert(index * low <= u64::MAX);
            lemma_u64_shl_is_mul(index as u64, shift);
            assert((slot + 1) * bits == slot * bits + bits) by (nonlinear_arith);
        }
        word = word + ((index as u64) << shift);
        slot = slot + 1;
        shift = shift + bits as u64;
        i = i + 1;
        if slot == per {
            let ghost full = word;
            let ghost w = data.len() as int;
            data.push(#[verifier::truncate] (word as i64));
            proof {
                assert((full as i64) as u64 == full) by (bit_vector);
                assert((w + 1) * per == w * per + per) by (nonlinear_arith);
                assert(0 * bits == 0) by (nonlinear_arith);
                assert(spec_word_slots(indices, width, w) =~= indices.subrange(w * per, i as int));
                assert(indices.subrange(data.len() * per, i as int) =~= Seq::<nat>::empty());
            }
            word = 0;
            slot = 0;
            shift = 0;
        }
    }
    let ghost full_words = data.len() as int;
    if slot > 0 {
        let ghost last = word;
        data.push(#[verifier::truncate] (word as i64));
        proof {
            assert((last as i64) as u64 == last) by (bit_vector);
            assert((full_words + 1) * per == full_words * per + per) by (nonlinear_arith);
            assert(spec_word_slots(indices, width, full_words) =~= indices.subrange(
                full_words * per,
                i as int,
            ));
        }
    }
    proof {
        let count = blocks.len() as int;
        let top = count + per - 1;
        if slot > 0 {
            assert((full_words + 1) * per == full_words * per + per) by (nonlinear_arith);
            lemma_fundamental_div_mod_converse(top, per as int, full_words + 1, slot - 1);
        } else {
            lemma_fundamental_div_mod_converse(top, per as int, full_words, per - 1);
        }
        assert(data.len() == spec_word_count(indices.len(), width));
        assert(words_view(data@) =~= spec_pack(indices, width));
    }
    (palette, data)
}

/// Reads `count` blocks from a palette and packed indices.
///
/// The width of the indices is that of `bits_per_index` for the palette.
/// The call fails with `TooFewWords` where `data` is shorter than `count`
/// indices need, and with `IndexOutOfPalette` where one of the `count`
/// indices points past the end of the palette. Bits that hold no index and
/// words beyond those needed are not read.
pub fn palette_decode(palette: &Vec<Block>, data: &Vec<i64>, count: usize) -> (r: Result<
    Vec<Block>,
    PaletteError,
>)
    ensures
        match r {
            Ok(blocks) => spec_palette_decode(palette@, words_view(data@), count as nat) == Ok::<
                Seq<Block>,
                PaletteError,
            >(blocks@),
            Err(e) => spec_palette_decode(palette@, words_view(data@), count as nat) == Err::<
                Seq<Block>,
                PaletteError,
            >(e),
        },
{
    let bits: usize = bits_per_index(palette.len());
    let per: usize = 64 / bits;
    let ghost width = bits as nat;
    let ghost words = words_view(data@);
    proof {
        lemma_per_word(width);
        lemma2_to64();
        lemma2_to64_rest();
    }
    if data.len() < word_count(count, bits) {
        return Err(PaletteError::TooFewWords);
    }
    let mut blocks: Vec<Block> = Vec::new();
    let mut at: usize = 0;
    let mut slot: usize = 0;
    let mut shift: u64 = 0;
    let mut i: usize = 0;
    assert(0 * per + 0 == 0 && 0 * bits == 0) by (nonlinear_arith);
    while i < count
        invariant
            i <= count,
            width == bits,
            4 <= bits <= 64,
            per == spec_per_word(width),
            1 <= per <= 16,
            per * bits <= 64,
            words == words_view(data@),
            bits == spec_bits_per_index(palette@.len()),
            data.len() >= spec_word_count(count as nat, width),
            slot < per,
            shift == slot * bits,
            i == at * per + slot,
            blocks.len() == i,
            forall|j: int|
                0 <= j < i ==> (#[trigger] spec_unpack(words, width, j)) < palette.len()
                    && blocks[j] == palette[spec_unpack(words, width, j) as int],
            pow2(64) == 0x1_0000_0000_0000_0000,
        decreases count - i,
    {
        proof {
            lemma_position(i as int, per as int, at as int, slot as int);
            lemma_word_count(count as nat, width);
            let needed = spec_word_count(count as nat, width) as int;
            if at >= needed {
                lemma_mul_inequality(needed, at as int, per as int);
            }
            assert(shift + bits <= 64) by (nonlinear_arith)
                requires
                    shift == slot * bits,
                    slot < per,
                    per * bits <= 64,
            ;
            assert(width * (slot as nat) == shift) by (nonlinear_arith)
                requires
                    shift == slot * bits,
                    width == bits,
            ;
            assert((slot + 1) * bits == slot * bits + bits) by (nonlinear_arith);
            assert(0 * bits == 0) by (nonlinear_arith);
        }
        let word: u64 = #[verifier::truncate] (data[at] as u64);
        assert(word == words[at as int]);
        let index: u64 = if bits == 64 {
            proof {
                assert(slot == 0);
                lemma2_to64();
                assert(width * 0 == 0);
                assert(word as nat / 1 == word);
                lemma_small_mod(word as nat, pow2(64));
                assert(spec_slot(word as nat, width, 0) == word);
            }
            word
        } else {
            proof {
                lemma_u64_shr_is_div(word, shift);
                lemma_pow2_strictly_increases(width, 64);
                lemma_u64_shl_is_mul(1, bits as u64);
                assert((1u64 << (bits as u64)) == pow2(width));
                lemma_pow2_pos(width);
                assert((word >> shift) == word as nat / pow2(shift as nat));
                assert(spec_slot(word as nat, width, slot as nat) == (word as nat / pow2(
                    shift as nat,
                )) % pow2(width));
            }
            (word >> shift) % (1u64 << (bits as u64))
        };
        assert(index == spec_slot(word as nat, width, slot as nat));
        assert(index == spec_unpack(words, width, i as int));
        if index >= palette.len() as u64 {
            assert(spec_bad_index(palette@.len(), words, count as nat));
            return Err(PaletteError::IndexOutOfPalette);
        }
        blocks.push(palette[index as usize]);
        slot = slot + 1;
        shift = shift + bits as u64;
        i = i + 1;
        if slot == per {
            at = at + 1;
            slot = 0;
            shift = 0;
            assert((at - 1) * per + per == at * per) by (nonlinear_arith);
        }
    }
    assert(!spec_bad_index(palette@.len(), words, count as nat));
    assert(blocks@ =~= Seq::new(
        count as nat,
        |j: int| palette@[spec_unpack(words, width, j) as int],
    ));
    Ok(blocks)
}

} // verus!
