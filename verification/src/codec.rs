//! Little-endian and big-endian byte codecs shared by the account encoding,
//! the system-call generators and the stack snippets.
//!
//! The multi-byte reads and writes go through `byteorder`, the crate the
//! rest of the system uses for its field encodings; each call sits behind a
//! trusted wrapper whose contract is stated over vstd's little-endian byte
//! specifications.

use vstd::prelude::*;
use vstd::bytes::{spec_u32_from_le_bytes, spec_u32_to_le_bytes, spec_u64_from_le_bytes, spec_u64_to_le_bytes};
use byteorder::{ByteOrder, LittleEndian};

verus! {

/// The value of `s` read as an unsigned little-endian integer:
/// `s[0] + 256 * s[1] + 256^2 * s[2] + ...`.
pub open spec fn le_bytes_value(s: Seq<u8>) -> nat
    decreases s.len(),
{
    if s.len() == 0 {
        0
    } else {
        (s[0] + 256 * le_bytes_value(s.skip(1))) as nat
    }
}

/// The value of `s` read as an unsigned big-endian integer: the first byte
/// is the most significant.
pub open spec fn be_bytes_value(s: Seq<u8>) -> nat
    decreases s.len(),
{
    if s.len() == 0 {
        0
    } else {
        (256 * be_bytes_value(s.drop_last()) + s.last()) as nat
    }
}

/// Relies on byteorder's `LittleEndian::read_u64`: reads the first 8 bytes
/// of `buf` as a little-endian unsigned integer (it panics on a shorter
/// buffer, which the precondition excludes).
#[verifier::external_body]
pub fn read_u64_le(buf: &[u8]) -> (r: u64)
    requires
        buf@.len() >= 8,
    ensures
        r == spec_u64_from_le_bytes(buf@.subrange(0, 8)),
{
    LittleEndian::read_u64(buf)
}

/// Relies on byteorder's `LittleEndian::read_u32`: reads the first 4 bytes
/// of `buf` as a little-endian unsigned integer (it panics on a shorter
/// buffer, which the precondition excludes).
#[verifier::external_body]
pub fn read_u32_le(buf: &[u8]) -> (r: u32)
    requires
        buf@.len() >= 4,
    ensures
        r == spec_u32_from_le_bytes(buf@.subrange(0, 4)),
{
    LittleEndian::read_u32(buf)
}

/// Relies on byteorder's `LittleEndian::write_u64`: fills an 8-byte buffer
/// with the little-endian encoding of `v`.
#[verifier::external_body]
pub fn write_u64_le(v: u64) -> (r: Vec<u8>)
    ensures
        r@ == spec_u64_to_le_bytes(v),
{
    let mut buf = vec![0u8; 8];
    LittleEndian::write_u64(&mut buf, v);
    buf
}

/// Relies on byteorder's `LittleEndian::write_u32`: fills a 4-byte buffer
/// with the little-endian encoding of `v`.
#[verifier::external_body]
pub fn write_u32_le(v: u32) -> (r: Vec<u8>)
    ensures
        r@ == spec_u32_to_le_bytes(v),
{
    let mut buf = vec![0u8; 4];
    LittleEndian::write_u32(&mut buf, v);
    buf
}

/// vstd's closed little-endian u64 specification agrees with
/// `le_bytes_value` on 8-byte sequences.
pub proof fn lemma_u64_le_bytes_value(s: Seq<u8>)
    requires
        s.len() == 8,
    ensures
        spec_u64_from_le_bytes(s) == le_bytes_value(s),
{
    vstd::bytes::lemma_auto_spec_u64_to_from_le_bytes();
    let x = spec_u64_from_le_bytes(s);
    vstd::bytes::spec_u64_to_le_bytes_to_open(x);
    let t = vstd::bytes::spec_u64_to_le_bytes_open(x);
    assert(s == t);
    assert(t.skip(8).len() == 0);
    assert(le_bytes_value(t.skip(8)) == 0);
    assert(t.skip(7).skip(1) =~= t.skip(8));
    assert(le_bytes_value(t.skip(7)) == t[7] + 256 * le_bytes_value(t.skip(8)));
    assert(t.skip(6).skip(1) =~= t.skip(7));
    assert(le_bytes_value(t.skip(6)) == t[6] + 256 * le_bytes_value(t.skip(7)));
    assert(t.skip(5).skip(1) =~= t.skip(6));
    assert(le_bytes_value(t.skip(5)) == t[5] + 256 * le_bytes_value(t.skip(6)));
    assert(t.skip(4).skip(1) =~= t.skip(5));
    assert(le_bytes_value(t.skip(4)) == t[4] + 256 * le_bytes_value(t.skip(5)));
    assert(t.skip(3).skip(1) =~= t.skip(4));
    assert(le_bytes_value(t.skip(3)) == t[3] + 256 * le_bytes_value(t.skip(4)));
    assert(t.skip(2).skip(1) =~= t.skip(3));
    assert(le_bytes_value(t.skip(2)) == t[2] + 256 * le_bytes_value(t.skip(3)));
    assert(t.skip(1).skip(1) =~= t.skip(2));
    assert(le_bytes_value(t.skip(1)) == t[1] + 256 * le_bytes_value(t.skip(2)));
    assert(t.skip(0) =~= t);
    assert(le_bytes_value(t) == t[0] + 256 * le_bytes_value(t.skip(1)));
    let y0 = x & 0xff;
    let y1 = (x >> 8) & 0xff;
    let y2 = (x >> 16) & 0xff;
    let y3 = (x >> 24) & 0xff;
    let y4 = (x >> 32) & 0xff;
    let y5 = (x >> 40) & 0xff;
    let y6 = (x >> 48) & 0xff;
    let y7 = (x >> 56) & 0xff;
    assert((x & 0xff) < 256 && ((x >> 8) & 0xff) < 256 && ((x >> 16) & 0xff) < 256 && ((x >> 24)
        & 0xff) < 256 && ((x >> 32) & 0xff) < 256 && ((x >> 40) & 0xff) < 256 && ((x >> 48) & 0xff)
        < 256 && ((x >> 56) & 0xff) < 256) by (bit_vector);
    assert(t[0] == y0 as u8 && t[1] == y1 as u8 && t[2] == y2 as u8 && t[3] == y3 as u8 && t[4]
        == y4 as u8 && t[5] == y5 as u8 && t[6] == y6 as u8 && t[7] == y7 as u8);
    assert(x == (x & 0xff) + 256 * (((x >> 8) & 0xff) + 256 * (((x >> 16) & 0xff) + 256 * (((x
        >> 24) & 0xff) + 256 * (((x >> 32) & 0xff) + 256 * (((x >> 40) & 0xff) + 256 * (((x >> 48)
        & 0xff) + 256 * ((x >> 56) & 0xff)))))))) by (bit_vector);
}

} // verus!

verus! {

/// The bytes of `s` reversed.
pub open spec fn rev_bytes(s: Seq<u8>) -> Seq<u8> {
    Seq::new(s.len(), |i: int| s[s.len() - 1 - i])
}

/// A sequence of zero bytes has value zero.
pub proof fn lemma_le_bytes_value_zeros(n: nat)
    ensures
        le_bytes_value(Seq::new(n, |i: int| 0u8)) == 0,
    decreases n,
{
    if n > 0 {
        assert(Seq::new(n, |i: int| 0u8).skip(1) =~= Seq::new((n - 1) as nat, |i: int| 0u8));
        lemma_le_bytes_value_zeros((n - 1) as nat);
    }
}

/// Zero bytes appended at the most-significant end leave the value
/// unchanged.
pub proof fn lemma_le_bytes_value_append_zeros(a: Seq<u8>, n: nat)
    ensures
        le_bytes_value(a + Seq::new(n, |i: int| 0u8)) == le_bytes_value(a),
    decreases a.len(),
{
    if a.len() == 0 {
        assert(a + Seq::new(n, |i: int| 0u8) =~= Seq::new(n, |i: int| 0u8));
        lemma_le_bytes_value_zeros(n);
    } else {
        assert((a + Seq::new(n, |i: int| 0u8)).skip(1) =~= a.skip(1) + Seq::new(n, |i: int| 0u8));
        lemma_le_bytes_value_append_zeros(a.skip(1), n);
    }
}

/// Reversing the bytes turns the big-endian value into the
/// little-endian one.
pub proof fn lemma_le_bytes_value_rev(s: Seq<u8>)
    ensures
        le_bytes_value(rev_bytes(s)) == be_bytes_value(s),
    decreases s.len(),
{
    if s.len() > 0 {
        assert(rev_bytes(s).skip(1) =~= rev_bytes(s.drop_last()));
        assert(rev_bytes(s)[0] == s.last());
        lemma_le_bytes_value_rev(s.drop_last());
    }
}

/// The little-endian value splits at byte eight: the low eight bytes
/// plus the tail weighted by `2^64`.
pub proof fn lemma_le_bytes_value_split8(s: Seq<u8>)
    requires
        s.len() >= 8,
    ensures
        le_bytes_value(s) == le_bytes_value(s.subrange(0, 8)) + 0x10000000000000000
            * le_bytes_value(s.skip(8)),
{
    let t = s.subrange(0, 8);
    assert(t.skip(7).skip(1).len() == 0);
    assert(le_bytes_value(t.skip(7)) == t[7] + 256 * le_bytes_value(t.skip(7).skip(1)));
    assert(le_bytes_value(t.skip(7)) == t[7]);
    assert(t.skip(6).skip(1) =~= t.skip(7));
    assert(le_bytes_value(t.skip(6)) == t[6] + 256 * le_bytes_value(t.skip(7)));
    assert(t.skip(5).skip(1) =~= t.skip(6));
    assert(le_bytes_value(t.skip(5)) == t[5] + 256 * le_bytes_value(t.skip(6)));
    assert(t.skip(4).skip(1) =~= t.skip(5));
    assert(le_bytes_value(t.skip(4)) == t[4] + 256 * le_bytes_value(t.skip(5)));
    assert(t.skip(3).skip(1) =~= t.skip(4));
    assert(le_bytes_value(t.skip(3)) == t[3] + 256 * le_bytes_value(t.skip(4)));
    assert(t.skip(2).skip(1) =~= t.skip(3));
    assert(le_bytes_value(t.skip(2)) == t[2] + 256 * le_bytes_value(t.skip(3)));
    assert(t.skip(1).skip(1) =~= t.skip(2));
    assert(le_bytes_value(t.skip(1)) == t[1] + 256 * le_bytes_value(t.skip(2)));
    assert(t.skip(0) =~= t);
    assert(le_bytes_value(t) == t[0] + 256 * le_bytes_value(t.skip(1)));
    assert(s.skip(7).skip(1) =~= s.skip(8));
    assert(le_bytes_value(s.skip(7)) == s[7] + 256 * le_bytes_value(s.skip(8)));
    assert(s.skip(6).skip(1) =~= s.skip(7));
    assert(le_bytes_value(s.skip(6)) == s[6] + 256 * le_bytes_value(s.skip(7)));
    assert(s.skip(5).skip(1) =~= s.skip(6));
    assert(le_bytes_value(s.skip(5)) == s[5] + 256 * le_bytes_value(s.skip(6)));
    assert(s.skip(4).skip(1) =~= s.skip(5));
    assert(le_bytes_value(s.skip(4)) == s[4] + 256 * le_bytes_value(s.skip(5)));
    assert(s.skip(3).skip(1) =~= s.skip(4));
    assert(le_bytes_value(s.skip(3)) == s[3] + 256 * le_bytes_value(s.skip(4)));
    assert(s.skip(2).skip(1) =~= s.skip(3));
    assert(le_bytes_value(s.skip(2)) == s[2] + 256 * le_bytes_value(s.skip(3)));
    assert(s.skip(1).skip(1) =~= s.skip(2));
    assert(le_bytes_value(s.skip(1)) == s[1] + 256 * le_bytes_value(s.skip(2)));
    assert(s.skip(0) =~= s);
    assert(le_bytes_value(s) == s[0] + 256 * le_bytes_value(s.skip(1)));
    assert(forall|i: int| 0 <= i < 8 ==> t[i] == s[i]);
}

/// A 32-byte little-endian decoding carries exactly the bytes' value.
pub proof fn lemma_u256_from_le_bytes_value(s: Seq<u8>)
    requires
        s.len() == 32,
    ensures
        crate::u256::U256::spec_from_le_bytes(s).as_nat() == le_bytes_value(s),
{
    let u = crate::u256::U256::spec_from_le_bytes(s);
    lemma_le_bytes_value_split8(s);
    assert(s.skip(8).subrange(0, 8) =~= s.subrange(8, 16));
    lemma_le_bytes_value_split8(s.skip(8));
    assert(s.skip(8).skip(8) =~= s.skip(16));
    assert(s.skip(16).subrange(0, 8) =~= s.subrange(16, 24));
    lemma_le_bytes_value_split8(s.skip(16));
    assert(s.skip(16).skip(8) =~= s.skip(24));
    assert(s.skip(24).subrange(0, 8) =~= s.subrange(24, 32));
    assert(s.skip(24).skip(8).len() == 0);
    lemma_le_bytes_value_split8(s.skip(24));
    lemma_u64_le_bytes_value(s.subrange(0, 8));
    lemma_u64_le_bytes_value(s.subrange(8, 16));
    lemma_u64_le_bytes_value(s.subrange(16, 24));
    lemma_u64_le_bytes_value(s.subrange(24, 32));
}

} // verus!
