//! A 64-bit set over board squares: one bit per square, bit `i` for
//! square `i`.  Every higher layer of the engine is built on this type.

use vstd::prelude::*;

verus! {

/// Bit `i` of `v`, as a boolean.
pub open spec fn bit_at(v: u64, i: u64) -> bool {
    (v >> i) & 1 == 1
}

/// `v` with bit `i` set.
pub open spec fn mask_set(v: u64, i: u64) -> u64 {
    v | (1u64 << i)
}

/// `v` with bit `i` cleared.
pub open spec fn mask_clear(v: u64, i: u64) -> u64 {
    v & !(1u64 << i)
}

/// How many of the bits `0 .. n` of `v` are set.
pub open spec fn count_upto(v: u64, n: int) -> nat
    decreases n,
{
    if n <= 0 {
        0
    } else {
        count_upto(v, n - 1) + if bit_at(v, (n - 1) as u64) {
            1nat
        } else {
            0nat
        }
    }
}

/// How many bits of `v` are set.
pub open spec fn pop64(v: u64) -> nat {
    count_upto(v, 64)
}

pub broadcast proof fn lemma_bit_or(a: u64, b: u64, i: u64)
    requires
        i < 64,
    ensures
        #[trigger] bit_at(a | b, i) == (bit_at(a, i) || bit_at(b, i)),
{
    assert(i < 64 ==> (((a | b) >> i) & 1 == 1) == (((a >> i) & 1 == 1) || ((b >> i) & 1 == 1)))
        by (bit_vector);
}

pub broadcast proof fn lemma_bit_and(a: u64, b: u64, i: u64)
    requires
        i < 64,
    ensures
        #[trigger] bit_at(a & b, i) == (bit_at(a, i) && bit_at(b, i)),
{
    assert(i < 64 ==> (((a & b) >> i) & 1 == 1) == (((a >> i) & 1 == 1) && ((b >> i) & 1 == 1)))
        by (bit_vector);
}

pub broadcast proof fn lemma_bit_xor(a: u64, b: u64, i: u64)
    requires
        i < 64,
    ensures
        #[trigger] bit_at(a ^ b, i) == (bit_at(a, i) != bit_at(b, i)),
{
    assert(i < 64 ==> (((a ^ b) >> i) & 1 == 1) == (((a >> i) & 1 == 1) != ((b >> i) & 1 == 1)))
        by (bit_vector);
}

pub broadcast proof fn lemma_bit_mask_set(v: u64, i: u64, j: u64)
    requires
        i < 64,
        j < 64,
    ensures
        #[trigger] bit_at(mask_set(v, i), j) == (bit_at(v, j) || i == j),
{
    assert(i < 64 && j < 64 ==> (((v | (1u64 << i)) >> j) & 1 == 1) == (((v >> j) & 1 == 1) || i
        == j)) by (bit_vector);
}

pub broadcast proof fn lemma_bit_mask_clear(v: u64, i: u64, j: u64)
    requires
        i < 64,
        j < 64,
    ensures
        #[trigger] bit_at(mask_clear(v, i), j) == (bit_at(v, j) && i != j),
{
    assert(i < 64 && j < 64 ==> (((v & !(1u64 << i)) >> j) & 1 == 1) == (((v >> j) & 1 == 1) && i
        != j)) by (bit_vector);
}

pub broadcast proof fn lemma_bit_zero(i: u64)
    ensures
        !(#[trigger] bit_at(0u64, i)),
{
    assert((0u64 >> i) & 1 != 1) by (bit_vector);
}

pub broadcast group group_bit_lemmas {
    lemma_bit_or,
    lemma_bit_and,
    lemma_bit_xor,
    lemma_bit_mask_set,
    lemma_bit_mask_clear,
    lemma_bit_zero,
}

/// A set of board squares packed into one 64-bit word.
#[derive(Debug, Clone, Copy, PartialEq, Eq, Structural)]
pub struct BitMap64(pub u64);

impl View for BitMap64 {
    type V = u64;

    open spec fn view(&self) -> u64 {
        self.0
    }
}

impl Default for BitMap64 {
    fn default() -> (r: Self)
        ensures
            r@ == 0u64,
    {
        BitMap64(0)
    }
}

impl BitMap64 {
    pub fn new(num: u64) -> (r: BitMap64)
        ensures
            r@ == num,
    {
        BitMap64(num)
    }

    pub fn set_bit(&mut self, bit: u64)
        requires
            bit < 64,
        ensures
            final(self)@ == mask_set(old(self)@, bit),
    {
        self.0 = self.0 | (1u64 << bit);
    }

    pub fn clear_bit(&mut self, bit: u64)
        requires
            bit < 64,
        ensures
            final(self)@ == mask_clear(old(self)@, bit),
    {
        self.0 = self.0 & !(1u64 << bit);
    }

    pub fn get_bit(&self, bit: u64) -> (r: bool)
        requires
            bit < 64,
        ensures
            r == bit_at(self@, bit),
    {
        (self.0 >> bit) & 1 == 1
    }

    pub fn get_bit_value(&self, bit: u64) -> (r: u64)
        requires
            bit < 64,
        ensures
            r == if bit_at(self@, bit) {
                1u64
            } else {
                0u64
            },
    {
        let r = (self.0 >> bit) & 1;
        proof {
            let v = self.0;
            assert((v >> bit) & 1 == 1 || (v >> bit) & 1 == 0) by (bit_vector);
        }
        r
    }

    pub fn contains(&self, bit: u64) -> (r: bool)
        requires
            bit < 64,
        ensures
            r == bit_at(self@, bit),
    {
        self.get_bit(bit)
    }

    pub fn count_ones(&self) -> (r: u8)
        ensures
            r as nat == pop64(self@),
    {
        let mut acc: u8 = 0;
        let mut i: u64 = 0;
        while i < 64
            invariant
                i <= 64,
                acc as nat == count_upto(self@, i as int),
                acc <= i,
            decreases 64 - i,
        {
            if self.get_bit(i) {
                acc = acc + 1;
            }
            i = i + 1;
        }
        acc
    }

    pub fn get_copied_inner(&self) -> (r: u64)
        ensures
            r == self@,
    {
        self.0
    }

    /// The set union of the two bitmaps.
    pub fn union(self, rhs: BitMap64) -> (r: BitMap64)
        ensures
            r@ == self@ | rhs@,
    {
        BitMap64(self.0 | rhs.0)
    }

    /// The set intersection of the two bitmaps.
    pub fn intersect(self, rhs: BitMap64) -> (r: BitMap64)
        ensures
            r@ == self@ & rhs@,
    {
        BitMap64(self.0 & rhs.0)
    }

    /// The symmetric difference of the two bitmaps.
    pub fn xor(self, rhs: BitMap64) -> (r: BitMap64)
        ensures
            r@ == self@ ^ rhs@,
    {
        BitMap64(self.0 ^ rhs.0)
    }

    pub fn shift_left(self, rhs: u64) -> (r: BitMap64)
        requires
            rhs < 64,
        ensures
            r@ == self@ << rhs,
    {
        BitMap64(self.0 << rhs)
    }

    pub fn shift_right(self, rhs: u64) -> (r: BitMap64)
        requires
            rhs < 64,
        ensures
            r@ == self@ >> rhs,
    {
        BitMap64(self.0 >> rhs)
    }

    /// An enumerator over the 64 membership bits, restartable by
    /// constructing it anew.
    pub fn iter(&self) -> (r: BitMap64Iterator)
        ensures
            r.bitmap@ == self@,
            r.current == 0u64,
    {
        BitMap64Iterator { bitmap: *self, current: 0 }
    }
}

/// Yields the 64 booleans of a [`BitMap64`], lowest square first.
pub struct BitMap64Iterator {
    pub bitmap: BitMap64,
    pub current: u64,
}

impl BitMap64Iterator {
    /// The next membership bit, or `None` once all 64 squares were yielded.
    pub fn next(&mut self) -> (r: Option<bool>)
        ensures
            final(self).bitmap == old(self).bitmap,
            old(self).current < 64 ==> r == Some(bit_at(old(self).bitmap@, old(self).current))
                && final(self).current == old(self).current + 1,
            old(self).current >= 64 ==> r is None && final(self).current == old(self).current,
    {
        if self.current >= 64 {
            return None;
        }
        let res = self.bitmap.get_bit(self.current);
        self.current = self.current + 1;
        Some(res)
    }
}

/// Round trip of membership: setting a square makes the set contain it,
/// and clearing a square always removes it, whatever was there before.
pub proof fn lemma_bit_round_trip(v: u64, sq: u64)
    requires
        sq < 64,
    ensures
        bit_at(mask_set(v, sq), sq),
        !bit_at(mask_clear(v, sq), sq),
{
    broadcast use group_bit_lemmas;

}

} // verus!
