//! Embedding vectors, held as IEEE 754 binary32 bit patterns.
//!
//! A pattern has a sign bit, an eight-bit exponent field and a 23-bit fraction
//! field, from the most significant bit down. The predicates here read those
//! fields only, so they decide exactly what a vector holds without any
//! rounding.

use vstd::prelude::*;

verus! {

/// The eight bits below the sign bit.
pub open spec fn exponent_field(bits: u32) -> int {
    (bits as int / 0x80_0000) % 0x100
}

/// The low 23 bits.
pub open spec fn fraction_field(bits: u32) -> int {
    bits as int % 0x80_0000
}

/// The pattern encodes positive or negative zero: exponent and fraction are
/// both zero, whatever the sign.
pub open spec fn encodes_zero(bits: u32) -> bool {
    exponent_field(bits) == 0 && fraction_field(bits) == 0
}

/// The pattern encodes a number. An exponent field of all ones marks an
/// infinity or a NaN.
pub open spec fn encodes_number(bits: u32) -> bool {
    exponent_field(bits) != 0xFF
}

/// Every component is a zero, which is to say the Euclidean norm is zero.
/// This holds of the empty vector.
pub open spec fn zero_vector(v: Seq<u32>) -> bool {
    forall|i: int| 0 <= i < v.len() ==> encodes_zero(#[trigger] v[i])
}

/// Every component is a number.
pub open spec fn finite_vector(v: Seq<u32>) -> bool {
    forall|i: int| 0 <= i < v.len() ==> encodes_number(#[trigger] v[i])
}

/// Tells whether a pattern encodes positive or negative zero.
pub fn is_zero_bits(bits: u32) -> (z: bool)
    ensures
        z == encodes_zero(bits),
{
    assert((bits & 0x7FFF_FFFF == 0) <==> ((bits / 0x80_0000) % 0x100 == 0 && bits % 0x80_0000
        == 0)) by (bit_vector);
    bits & 0x7FFF_FFFF == 0
}

/// Tells whether a pattern encodes a number rather than an infinity or a NaN.
pub fn is_finite_bits(bits: u32) -> (f: bool)
    ensures
        f == encodes_number(bits),
{
    assert((bits >> 23) & 0xFF == (bits / 0x80_0000) % 0x100) by (bit_vector);
    (bits >> 23) & 0xFF != 0xFF
}

/// One embedding: an ordered sequence of components, fixed once made.
#[derive(Debug, PartialEq, Eq)]
pub struct Embedding {
    bits: Vec<u32>,
}

impl View for Embedding {
    type V = Seq<u32>;

    closed spec fn view(&self) -> Seq<u32> {
        self.bits@
    }
}

impl Clone for Embedding {
    /// A copy with the same components.
    fn clone(&self) -> (e: Embedding)
        ensures
            e@ == self@,
    {
        Embedding { bits: self.bits.clone() }
    }
}

impl Embedding {
    /// Makes an embedding of the given components, in their order.
    pub fn from_bits(bits: Vec<u32>) -> (e: Embedding)
        ensures
            e@ == bits@,
    {
        Embedding { bits }
    }

    /// Hands the components out again.
    pub fn into_bits(self) -> (bits: Vec<u32>)
        ensures
            bits@ == self@,
    {
        self.bits
    }

    /// The number of components.
    pub fn dimension(&self) -> (d: usize)
        ensures
            d == self@.len(),
    {
        self.bits.len()
    }

    /// The components, in their order.
    pub fn bits(&self) -> (bits: &Vec<u32>)
        ensures
            bits@ == self@,
    {
        &self.bits
    }

    /// Tells whether the norm is zero: whether every component is a zero.
    pub fn is_zero(&self) -> (z: bool)
        ensures
            z == zero_vector(self@),
    {
        let mut i: usize = 0;
        while i < self.bits.len()
            invariant
                i <= self.bits.len(),
                forall|j: int| 0 <= j < i ==> encodes_zero(#[trigger] self.bits@[j]),
            decreases self.bits.len() - i,
        {
            if !is_zero_bits(self.bits[i]) {
                return false;
            }
            i += 1;
        }
        true
    }

    /// Tells whether every component is a number.
    pub fn is_finite(&self) -> (f: bool)
        ensures
            f == finite_vector(self@),
    {
        let mut i: usize = 0;
        while i < self.bits.len()
            invariant
                i <= self.bits.len(),
                forall|j: int| 0 <= j < i ==> encodes_number(#[trigger] self.bits@[j]),
            decreases self.bits.len() - i,
        {
            if !is_finite_bits(self.bits[i]) {
                return false;
            }
            i += 1;
        }
        true
    }
}

} // verus!
