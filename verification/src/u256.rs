//! Unsigned 256-bit integers as four 64-bit little-endian limbs.
//!
//! Balances are 256-bit values; the arithmetic here is checked or
//! saturating, never silently wrapping.

use vstd::prelude::*;
use vstd::bytes::{spec_u64_from_le_bytes, spec_u64_to_le_bytes};
use crate::codec::read_u64_le;

verus! {

/// An unsigned 256-bit integer; `limbs[0]` is least significant.
#[derive(Debug, Clone, Copy, PartialEq, Eq)]
pub struct U256 {
    pub limbs: [u64; 4],
}

impl U256 {
    /// The mathematical value of this integer: the limbs weighted by the
    /// powers of `2^64`.
    pub open spec fn as_nat(self) -> nat {
        (self.limbs[0] + self.limbs[1] * 0x10000000000000000int + self.limbs[2]
            * 0x100000000000000000000000000000000int + self.limbs[3]
            * 0x1000000000000000000000000000000000000000000000000int) as nat
    }

    /// `2^256`, one past the largest representable value.
    pub open spec fn modulus() -> nat {
        0x10000000000000000000000000000000000000000000000000000000000000000nat
    }

    /// The zero value.
    pub fn zero() -> (r: U256)
        ensures
            r.as_nat() == 0,
    {
        U256 { limbs: [0u64, 0u64, 0u64, 0u64] }
    }

    /// Builds the value `v` as a 256-bit integer.
    pub fn from_u64(v: u64) -> (r: U256)
        ensures
            r.as_nat() == v,
    {
        U256 { limbs: [v, 0u64, 0u64, 0u64] }
    }

    /// The sum, or `None` when it exceeds the largest 256-bit value.
    pub fn checked_add(&self, other: &U256) -> (r: Option<U256>)
        ensures
            self.as_nat() + other.as_nat() < U256::modulus() ==> (r matches Some(c)
                && c.as_nat() == self.as_nat() + other.as_nat()),
            self.as_nat() + other.as_nat() >= U256::modulus() ==> r is None,
    {
        let (s0, c0) = add_limb(self.limbs[0], other.limbs[0], 0);
        let (s1, c1) = add_limb(self.limbs[1], other.limbs[1], c0);
        let (s2, c2) = add_limb(self.limbs[2], other.limbs[2], c1);
        let (s3, c3) = add_limb(self.limbs[3], other.limbs[3], c2);
        let r = U256 { limbs: [s0, s1, s2, s3] };
        if c3 == 0 {
            Some(r)
        } else {
            None
        }
    }

    /// The difference, or `None` when `other` is larger than `self`.
    pub fn checked_sub(&self, other: &U256) -> (r: Option<U256>)
        ensures
            self.as_nat() >= other.as_nat() ==> (r matches Some(c) && c.as_nat() == self.as_nat()
                - other.as_nat()),
            self.as_nat() < other.as_nat() ==> r is None,
    {
        let (d0, b0) = sub_limb(self.limbs[0], other.limbs[0], 0);
        let (d1, b1) = sub_limb(self.limbs[1], other.limbs[1], b0);
        let (d2, b2) = sub_limb(self.limbs[2], other.limbs[2], b1);
        let (d3, b3) = sub_limb(self.limbs[3], other.limbs[3], b2);
        let r = U256 { limbs: [d0, d1, d2, d3] };
        if b3 == 0 {
            Some(r)
        } else {
            None
        }
    }

    /// The sum, clamped to the largest 256-bit value on overflow.
    pub fn saturating_add(&self, other: &U256) -> (r: U256)
        ensures
            self.as_nat() + other.as_nat() < U256::modulus() ==> r.as_nat() == self.as_nat()
                + other.as_nat(),
            self.as_nat() + other.as_nat() >= U256::modulus() ==> r.as_nat() == U256::modulus()
                - 1,
    {
        match self.checked_add(other) {
            Some(c) => c,
            None => U256 { limbs: [u64::MAX, u64::MAX, u64::MAX, u64::MAX] },
        }
    }

    /// The difference, clamped to zero when `other` is larger than `self`.
    pub fn saturating_sub(&self, other: &U256) -> (r: U256)
        ensures
            self.as_nat() >= other.as_nat() ==> r.as_nat() == self.as_nat() - other.as_nat(),
            self.as_nat() < other.as_nat() ==> r.as_nat() == 0,
    {
        match self.checked_sub(other) {
            Some(c) => c,
            None => U256::zero(),
        }
    }

    /// Whether `self` is strictly below `other`.
    pub fn lt(&self, other: &U256) -> (r: bool)
        ensures
            r == (self.as_nat() < other.as_nat()),
    {
        if self.limbs[3] != other.limbs[3] {
            self.limbs[3] < other.limbs[3]
        } else if self.limbs[2] != other.limbs[2] {
            self.limbs[2] < other.limbs[2]
        } else if self.limbs[1] != other.limbs[1] {
            self.limbs[1] < other.limbs[1]
        } else {
            self.limbs[0] < other.limbs[0]
        }
    }

    /// Whether the two values are equal.
    pub fn eq_value(&self, other: &U256) -> (r: bool)
        ensures
            r == (self.as_nat() == other.as_nat()),
    {
        self.limbs[0] == other.limbs[0] && self.limbs[1] == other.limbs[1] && self.limbs[2]
            == other.limbs[2] && self.limbs[3] == other.limbs[3]
    }

    /// The 32-byte little-endian encoding: limb by limb, least significant
    /// first.
    pub open spec fn spec_to_le_bytes(self) -> Seq<u8> {
        spec_u64_to_le_bytes(self.limbs[0]) + spec_u64_to_le_bytes(self.limbs[1])
            + spec_u64_to_le_bytes(self.limbs[2]) + spec_u64_to_le_bytes(self.limbs[3])
    }

    /// Encodes the value as 32 little-endian bytes.
    pub fn to_le_bytes(&self) -> (r: Vec<u8>)
        ensures
            r@ == self.spec_to_le_bytes(),
            r@.len() == 32,
    {
        proof {
            vstd::bytes::lemma_auto_spec_u64_to_from_le_bytes();
        }
        let mut out: Vec<u8> = Vec::new();
        let mut b0 = crate::codec::write_u64_le(self.limbs[0]);
        let mut b1 = crate::codec::write_u64_le(self.limbs[1]);
        let mut b2 = crate::codec::write_u64_le(self.limbs[2]);
        let mut b3 = crate::codec::write_u64_le(self.limbs[3]);
        out.append(&mut b0);
        out.append(&mut b1);
        out.append(&mut b2);
        out.append(&mut b3);
        proof {
            assert(out@ =~= self.spec_to_le_bytes());
        }
        out
    }

    /// Decodes a value from 32 little-endian bytes.
    pub fn from_le_bytes(bytes: &[u8]) -> (r: U256)
        requires
            bytes@.len() == 32,
        ensures
            r == U256::spec_from_le_bytes(bytes@),
    {
        let l0 = read_u64_le(bytes);
        let l1 = read_u64_le(vstd::slice::slice_subrange(bytes, 8, 32));
        let l2 = read_u64_le(vstd::slice::slice_subrange(bytes, 16, 32));
        let l3 = read_u64_le(vstd::slice::slice_subrange(bytes, 24, 32));
        proof {
            assert(bytes@.subrange(8, 32).subrange(0, 8) =~= bytes@.subrange(8, 16));
            assert(bytes@.subrange(16, 32).subrange(0, 8) =~= bytes@.subrange(16, 24));
            assert(bytes@.subrange(24, 32).subrange(0, 8) =~= bytes@.subrange(24, 32));
        }
        let r = U256 { limbs: [l0, l1, l2, l3] };
        proof {
            assert(r.limbs =~= U256::spec_from_le_bytes(bytes@).limbs);
        }
        r
    }

    /// The value whose limbs are read from the four little-endian 8-byte
    /// groups of `s`.
    pub open spec fn spec_from_le_bytes(s: Seq<u8>) -> U256 {
        U256 {
            limbs: [
                spec_u64_from_le_bytes(s.subrange(0, 8)),
                spec_u64_from_le_bytes(s.subrange(8, 16)),
                spec_u64_from_le_bytes(s.subrange(16, 24)),
                spec_u64_from_le_bytes(s.subrange(24, 32)),
            ],
        }
    }
}

/// One limb of an addition: the limb of the sum and the carry out.
fn add_limb(a: u64, b: u64, carry: u64) -> (r: (u64, u64))
    requires
        carry <= 1,
    ensures
        r.0 + r.1 * 0x10000000000000000int == a + b + carry,
        r.1 <= 1,
{
    let t: u128 = a as u128 + b as u128 + carry as u128;
    let lo: u64 = (t % 0x10000000000000000u128) as u64;
    let hi: u64 = (t / 0x10000000000000000u128) as u64;
    (lo, hi)
}

/// One limb of a subtraction: the limb of the difference and the borrow
/// out.
fn sub_limb(a: u64, b: u64, borrow: u64) -> (r: (u64, u64))
    requires
        borrow <= 1,
    ensures
        r.0 == a - b - borrow + r.1 * 0x10000000000000000int,
        r.1 <= 1,
{
    if (a as u128) >= b as u128 + borrow as u128 {
        (a - b - borrow, 0)
    } else {
        let t: u128 = a as u128 + 0x10000000000000000u128 - b as u128 - borrow as u128;
        ((t % 0x10000000000000000u128) as u64, 1)
    }
}

/// Decoding the 32-byte encoding of a value gives the value back.
pub proof fn lemma_u256_le_bytes_round_trip(u: U256)
    ensures
        U256::spec_from_le_bytes(u.spec_to_le_bytes()) == u,
{
    vstd::bytes::lemma_auto_spec_u64_to_from_le_bytes();
    let s = u.spec_to_le_bytes();
    assert(s.subrange(0, 8) =~= spec_u64_to_le_bytes(u.limbs[0]));
    assert(s.subrange(8, 16) =~= spec_u64_to_le_bytes(u.limbs[1]));
    assert(s.subrange(16, 24) =~= spec_u64_to_le_bytes(u.limbs[2]));
    assert(s.subrange(24, 32) =~= spec_u64_to_le_bytes(u.limbs[3]));
    let v = U256::spec_from_le_bytes(s);
    assert(v.limbs =~= u.limbs);
    assert(v == u);
}

} // verus!
