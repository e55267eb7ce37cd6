//! Host-environment stack snippets: small routines that push a queried
//! environment value onto the 256-bit operand stack.

use vstd::prelude::*;
use crate::codec::{
    be_bytes_value, le_bytes_value, lemma_le_bytes_value_append_zeros, lemma_le_bytes_value_rev,
    lemma_u256_from_le_bytes_value, rev_bytes,
};
use crate::u256::U256;

verus! {

/// Reads a big-endian byte slice of at most 32 bytes as a 256-bit value.
#[verifier::loop_isolation(false)]
pub fn u256_from_be_slice(v: &[u8]) -> (r: U256)
    requires
        v@.len() <= 32,
    ensures
        r.as_nat() == be_bytes_value(v@),
{
    let n = v.len();
    let mut le: Vec<u8> = Vec::new();
    let mut i: usize = 0;
    while i < 32
        invariant
            0 <= i <= 32,
            le@.len() == i,
            forall|j: int|
                0 <= j < i ==> le@[j] == (if j < v@.len() {
                    v@[v@.len() - 1 - j]
                } else {
                    0u8
                }),
        decreases 32 - i,
    {
        if i < n {
            le.push(v[n - 1 - i]);
        } else {
            le.push(0);
        }
        i = i + 1;
    }
    let r = U256::from_le_bytes(le.as_slice());
    proof {
        lemma_u256_from_le_bytes_value(le@);
        assert(le@ =~= rev_bytes(v@) + Seq::new((32 - v@.len()) as nat, |j: int| 0u8));
        lemma_le_bytes_value_append_zeros(rev_bytes(v@), (32 - v@.len()) as nat);
        lemma_le_bytes_value_rev(v@);
    }
    r
}

/// Pushes one 256-bit value onto the operand stack.
pub fn stack_push_u256(stack: &mut Vec<U256>, value: U256)
    ensures
        final(stack)@ == old(stack)@.push(value),
{
    stack.push(value);
}

/// The blob-base-fee query: the fee is not yet surfaced by the
/// environment, so the snippet pushes the value of the empty byte
/// string — zero — as the current base fee per blob gas.
pub fn host_env_blobbasefee(stack: &mut Vec<U256>)
    ensures
        final(stack)@.len() == old(stack)@.len() + 1,
        forall|i: int| 0 <= i < old(stack)@.len() ==> final(stack)@[i] == old(stack)@[i],
        final(stack)@.last().as_nat() == 0,
{
    let empty: Vec<u8> = Vec::new();
    let fee = u256_from_be_slice(empty.as_slice());
    stack_push_u256(stack, fee);
}

} // verus!
