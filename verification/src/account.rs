//! Account state and its packed six-field encoding: balance, nonce, two
//! code sizes and two code hashes, each packed into one 32-byte word.
//!
//! The world-state collaborator stores accounts behind the
//! `AccountManager` trait; balance and nonce arithmetic is checked and
//! reported, never silently wrapped.

use vstd::prelude::*;
use vstd::bytes::{spec_u64_from_le_bytes, spec_u64_to_le_bytes};
use crate::codec::{read_u64_le, write_u64_le};
use crate::types::{Address, Bytes32, ExitCode};
use crate::u256::U256;

verus! {

/// How many packed fields an account has.
pub const JZKT_ACCOUNT_FIELDS_COUNT: u32 = 6;

/// How many packed fields one storage slot has.
pub const JZKT_STORAGE_FIELDS_COUNT: u32 = 1;

pub const JZKT_ACCOUNT_BALANCE_FIELD: u32 = 0;

pub const JZKT_ACCOUNT_NONCE_FIELD: u32 = 1;

pub const JZKT_ACCOUNT_SOURCE_CODE_SIZE_FIELD: u32 = 2;

pub const JZKT_ACCOUNT_SOURCE_CODE_HASH_FIELD: u32 = 3;

pub const JZKT_ACCOUNT_RWASM_CODE_SIZE_FIELD: u32 = 4;

pub const JZKT_ACCOUNT_RWASM_CODE_HASH_FIELD: u32 = 5;

/// The fields stored in a compressed (hashed) representation, as a
/// bitmask: bit 0 for the balance, because it can exceed the field
/// modulus, and bit 3 for the source code hash, because it is a
/// full-width digest.
pub const JZKT_ACCOUNT_COMPRESSION_FLAGS: u32 = 9;

pub const JZKT_STORAGE_COMPRESSION_FLAGS: u32 = 0;

/// A transactional boundary of the world-state collaborator.
pub type AccountCheckpoint = u64;

/// The packed account: one 32-byte word per field.
pub type AccountFields = [Bytes32; 6];

/// The hash the empty byte string hashes to under the source-code digest.
pub open spec fn spec_keccak_empty() -> Seq<u8> {
    seq![
        0xc5u8, 0xd2u8, 0x46u8, 0x01u8, 0x86u8, 0xf7u8, 0x23u8, 0x3cu8, 0x92u8, 0x7eu8, 0x7du8,
        0xb2u8, 0xdcu8, 0xc7u8, 0x03u8, 0xc0u8, 0xe5u8, 0x00u8, 0xb6u8, 0x53u8, 0xcau8, 0x82u8,
        0x27u8, 0x3bu8, 0x7bu8, 0xfau8, 0xd8u8, 0x04u8, 0x5du8, 0x85u8, 0xa4u8, 0x70u8,
    ]
}

/// The hash the empty byte string hashes to under the bytecode digest.
pub open spec fn spec_poseidon_empty() -> Seq<u8> {
    seq![
        0x20u8, 0x98u8, 0xf5u8, 0xfbu8, 0x9eu8, 0x23u8, 0x9eu8, 0xabu8, 0x3cu8, 0xeau8, 0xc3u8,
        0xf2u8, 0x7bu8, 0x81u8, 0xe4u8, 0x81u8, 0xdcu8, 0x31u8, 0x24u8, 0xd5u8, 0x5fu8, 0xfeu8,
        0xd5u8, 0x23u8, 0xa8u8, 0x39u8, 0xeeu8, 0x84u8, 0x46u8, 0xb6u8, 0x48u8, 0x64u8,
    ]
}

/// The 32-byte word the empty source code hashes to.
pub fn keccak_empty() -> (r: Bytes32)
    ensures
        r@ == spec_keccak_empty(),
{
    let r: Bytes32 = [
        0xc5u8, 0xd2u8, 0x46u8, 0x01u8, 0x86u8, 0xf7u8, 0x23u8, 0x3cu8, 0x92u8, 0x7eu8, 0x7du8,
        0xb2u8, 0xdcu8, 0xc7u8, 0x03u8, 0xc0u8, 0xe5u8, 0x00u8, 0xb6u8, 0x53u8, 0xcau8, 0x82u8,
        0x27u8, 0x3bu8, 0x7bu8, 0xfau8, 0xd8u8, 0x04u8, 0x5du8, 0x85u8, 0xa4u8, 0x70u8,
    ];
    proof {
        assert(r@ =~= spec_keccak_empty());
    }
    r
}

/// The 32-byte word the empty bytecode hashes to.
pub fn poseidon_empty() -> (r: Bytes32)
    ensures
        r@ == spec_poseidon_empty(),
{
    let r: Bytes32 = [
        0x20u8, 0x98u8, 0xf5u8, 0xfbu8, 0x9eu8, 0x23u8, 0x9eu8, 0xabu8, 0x3cu8, 0xeau8, 0xc3u8,
        0xf2u8, 0x7bu8, 0x81u8, 0xe4u8, 0x81u8, 0xdcu8, 0x31u8, 0x24u8, 0xd5u8, 0x5fu8, 0xfeu8,
        0xd5u8, 0x23u8, 0xa8u8, 0x39u8, 0xeeu8, 0x84u8, 0x46u8, 0xb6u8, 0x48u8, 0x64u8,
    ];
    proof {
        assert(r@ =~= spec_poseidon_empty());
    }
    r
}

/// The world-state collaborator: checkpoints, account and storage access,
/// code-preimage bookkeeping, and the hash-addressed execution entry
/// point.  Its behaviour belongs to the implementor; the builder states
/// nothing of it.
pub trait AccountManager {
    fn checkpoint(&self) -> AccountCheckpoint;

    fn commit(&self);

    fn rollback(&self, checkpoint: AccountCheckpoint);

    fn account(&self, address: Address) -> (Account, bool);

    fn write_account(&self, account: &Account);

    fn preimage_size(&self, hash: &Bytes32) -> u32;

    fn preimage(&self, hash: &Bytes32) -> Vec<u8>;

    fn update_preimage(&self, key: &Bytes32, field: u32, preimage: &[u8]);

    fn storage(&self, address: Address, slot: U256) -> (U256, bool);

    fn write_storage(&self, address: Address, slot: U256, value: U256) -> bool;

    fn log(&self, address: Address, data: Vec<u8>, topics: &[Bytes32]);

    fn exec_hash(&self, hash32: &Bytes32, input: &[u8], fuel_limit: u32, state: u32) -> (Vec<
        u8,
    >, i32);
}

/// One account: its address, balance, nonce, and the sizes and hashes of
/// its two code forms.
#[derive(Debug, Clone, PartialEq, Eq)]
pub struct Account {
    pub address: Address,
    pub balance: U256,
    pub nonce: u64,
    pub source_code_size: u64,
    pub source_code_hash: Bytes32,
    pub rwasm_code_size: u64,
    pub rwasm_code_hash: Bytes32,
}

/// A u64 packed into a 32-byte field: eight little-endian bytes, then
/// zeros.
pub open spec fn spec_field_u64(v: u64) -> Seq<u8> {
    spec_u64_to_le_bytes(v) + Seq::new(24, |i: int| 0u8)
}

/// The account the six packed fields decode to.
pub open spec fn account_from_fields(address: Address, fields: Seq<Bytes32>) -> Account {
    Account {
        address,
        balance: U256::spec_from_le_bytes(fields[0]@),
        nonce: spec_u64_from_le_bytes(fields[1]@.subrange(0, 8)),
        source_code_size: spec_u64_from_le_bytes(fields[2]@.subrange(0, 8)),
        source_code_hash: fields[3],
        rwasm_code_size: spec_u64_from_le_bytes(fields[4]@.subrange(0, 8)),
        rwasm_code_hash: fields[5],
    }
}

/// Copies a 32-byte vector into a 32-byte word.
fn vec_to_bytes32(v: &Vec<u8>) -> (r: Bytes32)
    requires
        v@.len() == 32,
    ensures
        r@ == v@,
{
    let mut r: Bytes32 = [0u8; 32];
    let mut i: usize = 0;
    while i < 32
        invariant
            i <= 32,
            r@.len() == 32,
            v@.len() == 32,
            forall|j: int| 0 <= j < i ==> r@[j] == v@[j],
        decreases 32 - i,
    {
        r[i] = v[i];
        i = i + 1;
    }
    proof {
        assert(r@ =~= v@);
    }
    r
}

/// Packs a u64 into a 32-byte field, little-endian, zero-padded.
fn u64_to_field(v: u64) -> (r: Bytes32)
    ensures
        r@ == spec_field_u64(v),
{
    proof {
        vstd::bytes::lemma_auto_spec_u64_to_from_le_bytes();
    }
    let b = write_u64_le(v);
    let mut r: Bytes32 = [0u8; 32];
    let mut i: usize = 0;
    while i < 8
        invariant
            i <= 8,
            r@.len() == 32,
            b@.len() == 8,
            b@ == spec_u64_to_le_bytes(v),
            forall|j: int| 0 <= j < i ==> r@[j] == b@[j],
            forall|j: int| i <= j < 32 ==> r@[j] == 0u8,
        decreases 8 - i,
    {
        r[i] = b[i];
        i = i + 1;
    }
    proof {
        assert(r@ =~= spec_field_u64(v));
    }
    r
}

/// Whether two 32-byte words are equal.
pub fn bytes32_eq(a: &Bytes32, b: &Bytes32) -> (r: bool)
    ensures
        r == (a@ == b@),
{
    let mut i: usize = 0;
    while i < 32
        invariant
            i <= 32,
            forall|j: int| 0 <= j < i ==> a@[j] == b@[j],
        decreases 32 - i,
    {
        if a[i] != b[i] {
            proof {
                assert(a@[i as int] != b@[i as int]);
            }
            return false;
        }
        i = i + 1;
    }
    proof {
        assert(a@ =~= b@);
    }
    true
}

impl Default for Account {
    /// The empty account: zero address, zero balance and nonce, empty
    /// code under both digests.
    fn default() -> (r: Account)
        ensures
            r.address.bytes@ == Seq::new(20, |i: int| 0u8),
            r.balance.as_nat() == 0,
            r.nonce == 0,
            r.source_code_size == 0,
            r.source_code_hash@ == spec_keccak_empty(),
            r.rwasm_code_size == 0,
            r.rwasm_code_hash@ == spec_poseidon_empty(),
    {
        Account {
            address: Address::zero(),
            balance: U256::zero(),
            nonce: 0,
            source_code_size: 0,
            source_code_hash: keccak_empty(),
            rwasm_code_size: 0,
            rwasm_code_hash: poseidon_empty(),
        }
    }
}

impl Account {
    /// A fresh, empty account at the given address.
    pub fn new(address: Address) -> (r: Account)
        ensures
            r.address == address,
            r.balance.as_nat() == 0,
            r.nonce == 0,
            r.source_code_size == 0,
            r.source_code_hash@ == spec_keccak_empty(),
            r.rwasm_code_size == 0,
            r.rwasm_code_hash@ == spec_poseidon_empty(),
    {
        Account {
            address,
            balance: U256::zero(),
            nonce: 0,
            source_code_size: 0,
            source_code_hash: keccak_empty(),
            rwasm_code_size: 0,
            rwasm_code_hash: poseidon_empty(),
        }
    }

    /// Decodes an account from its six packed fields.
    pub fn new_from_fields(address: Address, fields: &[Bytes32]) -> (r: Account)
        requires
            fields@.len() == 6,
        ensures
            r == account_from_fields(address, fields@),
    {
        let f0 = vstd::slice::slice_index_get(fields, 0);
        let f1 = vstd::slice::slice_index_get(fields, 1);
        let f2 = vstd::slice::slice_index_get(fields, 2);
        let f4 = vstd::slice::slice_index_get(fields, 4);
        let balance = U256::from_le_bytes(vstd::array::array_as_slice(f0));
        let nonce = read_u64_le(vstd::array::array_as_slice(f1));
        let source_code_size = read_u64_le(vstd::array::array_as_slice(f2));
        let rwasm_code_size = read_u64_le(vstd::array::array_as_slice(f4));
        let r = Account {
            address,
            balance,
            nonce,
            source_code_size,
            source_code_hash: *vstd::slice::slice_index_get(fields, 3),
            rwasm_code_size,
            rwasm_code_hash: *vstd::slice::slice_index_get(fields, 5),
        };
        r
    }

    /// Packs the account into its six fields: balance little-endian,
    /// nonce, source code size, source code hash, bytecode size, bytecode
    /// hash.
    pub fn get_fields(&self) -> (r: AccountFields)
        ensures
            r@.len() == 6,
            r@[0]@ == self.balance.spec_to_le_bytes(),
            r@[1]@ == spec_field_u64(self.nonce),
            r@[2]@ == spec_field_u64(self.source_code_size),
            r@[3] == self.source_code_hash,
            r@[4]@ == spec_field_u64(self.rwasm_code_size),
            r@[5] == self.rwasm_code_hash,
    {
        let balance_bytes = self.balance.to_le_bytes();
        let f0 = vec_to_bytes32(&balance_bytes);
        let f1 = u64_to_field(self.nonce);
        let f2 = u64_to_field(self.source_code_size);
        let f4 = u64_to_field(self.rwasm_code_size);
        [f0, f1, f2, self.source_code_hash, f4, self.rwasm_code_hash]
    }

    /// Advances the nonce and hands back the previous value; reaching the
    /// largest representable nonce is reported as an overflow, with the
    /// nonce already advanced.
    pub fn inc_nonce(&mut self) -> (r: Result<u64, ExitCode>)
        requires
            old(self).nonce < u64::MAX,
        ensures
            *final(self) == (Account { nonce: (old(self).nonce + 1) as u64, ..*old(self) }),
            final(self).nonce == u64::MAX ==> r == Result::<u64, ExitCode>::Err(
                ExitCode::NonceOverflow,
            ),
            final(self).nonce != u64::MAX ==> r == Result::<u64, ExitCode>::Ok(old(self).nonce),
    {
        let prev_nonce = self.nonce;
        self.nonce = self.nonce + 1;
        if self.nonce == u64::MAX {
            return Err(ExitCode::NonceOverflow);
        }
        Ok(prev_nonce)
    }

    /// Debits the balance; an insufficient balance is reported, never
    /// clamped.
    pub fn sub_balance(&mut self, amount: U256) -> (r: Result<(), ExitCode>)
        ensures
            *final(self) == (Account { balance: final(self).balance, ..*old(self) }),
            old(self).balance.as_nat() >= amount.as_nat() ==> r == Result::<(), ExitCode>::Ok(())
                && final(self).balance.as_nat() == old(self).balance.as_nat() - amount.as_nat(),
            old(self).balance.as_nat() < amount.as_nat() ==> r == Result::<(), ExitCode>::Err(
                ExitCode::InsufficientBalance,
            ) && final(self).balance == old(self).balance,
    {
        match self.balance.checked_sub(&amount) {
            Some(b) => {
                self.balance = b;
                Ok(())
            },
            None => Err(ExitCode::InsufficientBalance),
        }
    }

    /// Debits the balance, clamping at zero.
    pub fn sub_balance_saturating(&mut self, amount: U256)
        ensures
            *final(self) == (Account { balance: final(self).balance, ..*old(self) }),
            old(self).balance.as_nat() >= amount.as_nat() ==> final(self).balance.as_nat() == old(self).balance.as_nat() - amount.as_nat(),
            old(self).balance.as_nat() < amount.as_nat() ==> final(self).balance.as_nat() == 0,
    {
        self.balance = self.balance.saturating_sub(&amount);
    }

    /// Credits the balance; an overflowing payment is reported, never
    /// wrapped.
    pub fn add_balance(&mut self, amount: U256) -> (r: Result<(), ExitCode>)
        ensures
            *final(self) == (Account { balance: final(self).balance, ..*old(self) }),
            old(self).balance.as_nat() + amount.as_nat() < U256::modulus() ==> r == Result::<
                (),
                ExitCode,
            >::Ok(()) && final(self).balance.as_nat() == old(self).balance.as_nat()
                + amount.as_nat(),
            old(self).balance.as_nat() + amount.as_nat() >= U256::modulus() ==> r == Result::<
                (),
                ExitCode,
            >::Err(ExitCode::OverflowPayment) && final(self).balance == old(self).balance,
    {
        match self.balance.checked_add(&amount) {
            Some(b) => {
                self.balance = b;
                Ok(())
            },
            None => Err(ExitCode::OverflowPayment),
        }
    }

    /// Credits the balance, clamping at the largest representable value.
    pub fn add_balance_saturating(&mut self, amount: U256)
        ensures
            *final(self) == (Account { balance: final(self).balance, ..*old(self) }),
            old(self).balance.as_nat() + amount.as_nat() < U256::modulus() ==> final(self).balance.as_nat() == old(self).balance.as_nat() + amount.as_nat(),
            old(self).balance.as_nat() + amount.as_nat() >= U256::modulus() ==> final(self).balance.as_nat() == U256::modulus() - 1,
    {
        self.balance = self.balance.saturating_add(&amount);
    }

    /// Moves `amount` from one account to the other.  The debit happens
    /// first: when the credit overflows, the payer stays debited and the
    /// overflow is reported.
    pub fn transfer(from: &mut Account, to: &mut Account, amount: U256) -> (r: Result<
        (),
        ExitCode,
    >)
        ensures
            *final(from) == (Account { balance: final(from).balance, ..*old(from) }),
            *final(to) == (Account { balance: final(to).balance, ..*old(to) }),
            old(from).balance.as_nat() < amount.as_nat() ==> r == Result::<(), ExitCode>::Err(
                ExitCode::InsufficientBalance,
            ) && final(from).balance == old(from).balance && final(to).balance == old(to).balance,
            old(from).balance.as_nat() >= amount.as_nat() && old(to).balance.as_nat()
                + amount.as_nat() >= U256::modulus() ==> r == Result::<(), ExitCode>::Err(
                ExitCode::OverflowPayment,
            ) && final(from).balance.as_nat() == old(from).balance.as_nat() - amount.as_nat()
                && final(to).balance == old(to).balance,
            old(from).balance.as_nat() >= amount.as_nat() && old(to).balance.as_nat()
                + amount.as_nat() < U256::modulus() ==> r == Result::<(), ExitCode>::Ok(())
                && final(from).balance.as_nat() == old(from).balance.as_nat() - amount.as_nat()
                && final(to).balance.as_nat() == old(to).balance.as_nat() + amount.as_nat(),
    {
        from.sub_balance(amount)?;
        to.add_balance(amount)?;
        Ok(())
    }

    /// Whether the account differs from the empty account: a non-zero
    /// nonce, or code under either digest.
    pub fn is_not_empty(&self) -> (r: bool)
        ensures
            r == (self.nonce != 0 || self.source_code_hash@ != spec_keccak_empty()
                || self.rwasm_code_hash@ != spec_poseidon_empty()),
    {
        let ke = keccak_empty();
        let pe = poseidon_empty();
        self.nonce != 0 || !bytes32_eq(&self.source_code_hash, &ke) || !bytes32_eq(
            &self.rwasm_code_hash,
            &pe,
        )
    }

    /// Replaces both code forms: sizes and hashes are set from the given
    /// bytecodes and their digests, the account is written back, and both
    /// preimages are recorded under the account's address word.
    pub fn update_bytecode<AM: AccountManager>(
        &mut self,
        am: &AM,
        source_bytecode: &Vec<u8>,
        source_hash: Bytes32,
        rwasm_bytecode: &Vec<u8>,
        rwasm_hash: Bytes32,
    )
        requires
            old(self).address.bytes@.len() == 20,
        ensures
            *final(self) == (Account {
                source_code_size: final(self).source_code_size,
                source_code_hash: source_hash,
                rwasm_code_size: final(self).rwasm_code_size,
                rwasm_code_hash: rwasm_hash,
                ..*old(self)
            }),
            final(self).source_code_size == source_bytecode@.len(),
            final(self).rwasm_code_size == rwasm_bytecode@.len(),
    {
        let address_word = self.address.into_word();
        self.source_code_hash = source_hash;
        self.source_code_size = source_bytecode.len() as u64;
        self.rwasm_code_hash = rwasm_hash;
        self.rwasm_code_size = rwasm_bytecode.len() as u64;
        am.write_account(self);
        am.update_preimage(
            &address_word,
            JZKT_ACCOUNT_SOURCE_CODE_HASH_FIELD,
            source_bytecode.as_slice(),
        );
        am.update_preimage(
            &address_word,
            JZKT_ACCOUNT_RWASM_CODE_HASH_FIELD,
            rwasm_bytecode.as_slice(),
        );
    }

    /// The decision core of account creation, over the looked-up callee:
    /// the caller must afford the amount, its nonce must advance, the
    /// callee slot must be empty, and the transfer must fit; the new
    /// account starts at nonce one.
    pub fn create_account_with(caller: &mut Account, amount: U256, callee: Account) -> (r: Result<
        Account,
        ExitCode,
    >)
        requires
            old(caller).nonce < u64::MAX,
        ensures
            *final(caller) == (Account {
                balance: final(caller).balance,
                nonce: final(caller).nonce,
                ..*old(caller)
            }),
            old(caller).balance.as_nat() < amount.as_nat() ==> r == Result::<
                Account,
                ExitCode,
            >::Err(ExitCode::InsufficientBalance) && *final(caller) == *old(caller),
            old(caller).balance.as_nat() >= amount.as_nat() && old(caller).nonce + 1 == u64::MAX
                ==> r == Result::<Account, ExitCode>::Err(ExitCode::NonceOverflow) && final(caller).nonce == u64::MAX && final(caller).balance == old(caller).balance,
            old(caller).balance.as_nat() >= amount.as_nat() && old(caller).nonce + 1 != u64::MAX
                && callee.nonce != 0 ==> r == Result::<Account, ExitCode>::Err(
                ExitCode::CreateCollision,
            ) && final(caller).nonce == old(caller).nonce + 1 && final(caller).balance == old(caller).balance,
            old(caller).balance.as_nat() >= amount.as_nat() && old(caller).nonce + 1 != u64::MAX
                && callee.nonce == 0 && (callee.source_code_hash@ != spec_keccak_empty()
                || callee.rwasm_code_hash@ != spec_poseidon_empty()) ==> r == Result::<
                Account,
                ExitCode,
            >::Err(ExitCode::CreateCollision) && final(caller).nonce == old(caller).nonce + 1
                && final(caller).balance == old(caller).balance,
            old(caller).balance.as_nat() >= amount.as_nat() && old(caller).nonce + 1 != u64::MAX
                && callee.nonce == 0 && callee.source_code_hash@ == spec_keccak_empty()
                && callee.rwasm_code_hash@ == spec_poseidon_empty() && callee.balance.as_nat()
                + amount.as_nat() >= U256::modulus() ==> r == Result::<Account, ExitCode>::Err(
                ExitCode::OverflowPayment,
            ) && final(caller).nonce == old(caller).nonce + 1 && final(caller).balance.as_nat()
                == old(caller).balance.as_nat() - amount.as_nat(),
            old(caller).balance.as_nat() >= amount.as_nat() && old(caller).nonce + 1 != u64::MAX
                && callee.nonce == 0 && callee.source_code_hash@ == spec_keccak_empty()
                && callee.rwasm_code_hash@ == spec_poseidon_empty() && callee.balance.as_nat()
                + amount.as_nat() < U256::modulus() ==> (r matches Ok(c) && c == (Account {
                nonce: 1u64,
                balance: c.balance,
                ..callee
            }) && c.balance.as_nat() == callee.balance.as_nat() + amount.as_nat() && final(caller).nonce == old(caller).nonce + 1 && final(caller).balance.as_nat() == old(caller).balance.as_nat() - amount.as_nat()),
    {
        if caller.balance.lt(&amount) {
            return Err(ExitCode::InsufficientBalance);
        }
        let old_nonce = match caller.inc_nonce() {
            Ok(n) => n,
            Err(e) => {
                return Err(e);
            },
        };
        let mut callee = callee;
        if callee.is_not_empty() {
            return Err(ExitCode::CreateCollision);
        }
        match Account::transfer(caller, &mut callee, amount) {
            Ok(_) => {},
            Err(exit_code) => {
                return Err(exit_code);
            },
        }
        callee.nonce = 1;
        Ok(callee)
    }

    /// Creates an account at the resolved address: looks the slot up
    /// through the world-state collaborator and runs the creation
    /// decision on what came back.  The failures the inputs alone decide
    /// — an unaffordable amount, a nonce at its ceiling — are promised;
    /// a collision depends on the looked-up slot.
    pub fn create_account<AM: AccountManager>(
        am: &AM,
        caller: &mut Account,
        amount: U256,
        callee_address: Address,
    ) -> (r: Result<Account, ExitCode>)
        requires
            old(caller).nonce < u64::MAX,
        ensures
            old(caller).balance.as_nat() < amount.as_nat() ==> r == Result::<
                Account,
                ExitCode,
            >::Err(ExitCode::InsufficientBalance) && *final(caller) == *old(caller),
            old(caller).balance.as_nat() >= amount.as_nat() && old(caller).nonce + 1 == u64::MAX
                ==> r == Result::<Account, ExitCode>::Err(ExitCode::NonceOverflow),
            r matches Ok(c) ==> c.nonce == 1 && final(caller).nonce == old(caller).nonce + 1
                && final(caller).balance.as_nat() == old(caller).balance.as_nat()
                - amount.as_nat(),
    {
        let (callee, _) = am.account(callee_address);
        Account::create_account_with(caller, amount, callee)
    }

    /// The transfer-log emission point; the active design records
    /// transfers through rows alone, so nothing is emitted here.
    pub fn emit_transfer_log(_from: &Address, _to: &Address, _amount: &U256) {
    }

    /// Writes the account through the world-state collaborator.
    pub fn write_to_jzkt<AM: AccountManager>(&self, am: &AM) {
        am.write_account(self);
    }

    /// Loads the source bytecode behind the account's source code hash.
    pub fn load_source_bytecode<AM: AccountManager>(&self, am: &AM) -> Vec<u8> {
        am.preimage(&self.source_code_hash)
    }

    /// Loads the bytecode behind the account's bytecode hash.
    pub fn load_rwasm_bytecode<AM: AccountManager>(&self, am: &AM) -> Vec<u8> {
        am.preimage(&self.rwasm_code_hash)
    }
}

/// Packing an account's six fields and decoding them again reproduces
/// the account exactly: balance, nonce, both code sizes and both code
/// hashes survive the round trip.
pub proof fn lemma_account_fields_round_trip(a: Account, fields: Seq<Bytes32>)
    requires
        fields.len() == 6,
        fields[0]@ == a.balance.spec_to_le_bytes(),
        fields[1]@ == spec_field_u64(a.nonce),
        fields[2]@ == spec_field_u64(a.source_code_size),
        fields[3] == a.source_code_hash,
        fields[4]@ == spec_field_u64(a.rwasm_code_size),
        fields[5] == a.rwasm_code_hash,
    ensures
        account_from_fields(a.address, fields) == a,
{
    vstd::bytes::lemma_auto_spec_u64_to_from_le_bytes();
    crate::u256::lemma_u256_le_bytes_round_trip(a.balance);
    assert(fields[1]@.subrange(0, 8) =~= spec_u64_to_le_bytes(a.nonce));
    assert(fields[2]@.subrange(0, 8) =~= spec_u64_to_le_bytes(a.source_code_size));
    assert(fields[4]@.subrange(0, 8) =~= spec_u64_to_le_bytes(a.rwasm_code_size));
    let d = account_from_fields(a.address, fields);
    assert(d.balance == a.balance);
    assert(d == a);
}

} // verus!
