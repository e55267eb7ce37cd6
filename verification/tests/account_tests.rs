use rwtrace::account::{
    keccak_empty, poseidon_empty, Account, AccountManager, JZKT_ACCOUNT_COMPRESSION_FLAGS,
};
use rwtrace::types::{Address, Bytes32, ExitCode};
use rwtrace::u256::U256;

struct NullManager;

impl AccountManager for NullManager {
    fn checkpoint(&self) -> u64 {
        0
    }

    fn commit(&self) {}

    fn rollback(&self, _checkpoint: u64) {}

    fn account(&self, address: Address) -> (Account, bool) {
        (Account::new(address), false)
    }

    fn write_account(&self, _account: &Account) {}

    fn preimage_size(&self, _hash: &Bytes32) -> u32 {
        0
    }

    fn preimage(&self, _hash: &Bytes32) -> Vec<u8> {
        Vec::new()
    }

    fn update_preimage(&self, _key: &Bytes32, _field: u32, _preimage: &[u8]) {}

    fn storage(&self, _address: Address, _slot: U256) -> (U256, bool) {
        (U256::zero(), false)
    }

    fn write_storage(&self, _address: Address, _slot: U256, _value: U256) -> bool {
        true
    }

    fn log(&self, _address: Address, _data: Vec<u8>, _topics: &[Bytes32]) {}

    fn exec_hash(&self, _hash32: &Bytes32, _input: &[u8], _fuel_limit: u32, _state: u32) -> (Vec<u8>, i32) {
        (Vec::new(), 0)
    }
}

fn sample_account() -> Account {
    let mut a = Account::new(Address { bytes: [7u8; 20] });
    a.balance = U256 { limbs: [0x1122334455667788, 2, 3, 4] };
    a.nonce = 0x0102030405060708;
    a.source_code_size = 41;
    a.source_code_hash = [0xaa; 32];
    a.rwasm_code_size = 42;
    a.rwasm_code_hash = [0xbb; 32];
    a
}

#[test]
fn account_fields_round_trip() {
    let a = sample_account();
    let fields = a.get_fields();
    let b = Account::new_from_fields(a.address, &fields);
    assert_eq!(a, b);
}

#[test]
fn nonce_field_is_little_endian() {
    let a = sample_account();
    let fields = a.get_fields();
    assert_eq!(&fields[1][0..8], &[8, 7, 6, 5, 4, 3, 2, 1]);
    assert_eq!(&fields[1][8..32], &[0u8; 24]);
}

#[test]
fn balance_field_is_little_endian_limbs() {
    let a = sample_account();
    let fields = a.get_fields();
    assert_eq!(&fields[0][0..8], &[0x88, 0x77, 0x66, 0x55, 0x44, 0x33, 0x22, 0x11]);
    assert_eq!(fields[0][8], 2);
    assert_eq!(fields[0][16], 3);
    assert_eq!(fields[0][24], 4);
}

#[test]
fn decoding_reads_the_packed_bytes() {
    let mut fields: [Bytes32; 6] = [[0u8; 32]; 6];
    fields[1][0] = 5; // nonce 5, little-endian
    fields[2][0] = 9; // source code size 9
    fields[4][1] = 1; // bytecode size 256
    let a = Account::new_from_fields(Address { bytes: [0u8; 20] }, &fields);
    assert_eq!(a.nonce, 5);
    assert_eq!(a.source_code_size, 9);
    assert_eq!(a.rwasm_code_size, 256);
}

#[test]
fn fresh_account_is_empty() {
    let a = Account::new(Address { bytes: [1u8; 20] });
    assert!(!a.is_not_empty());
    assert_eq!(a.source_code_hash, keccak_empty());
    assert_eq!(a.rwasm_code_hash, poseidon_empty());
}

#[test]
fn nonzero_nonce_makes_an_account_nonempty() {
    let mut a = Account::new(Address { bytes: [1u8; 20] });
    a.nonce = 1;
    assert!(a.is_not_empty());
}

#[test]
fn inc_nonce_reports_overflow_at_the_ceiling() {
    let mut a = Account::new(Address { bytes: [0u8; 20] });
    a.nonce = u64::MAX - 1;
    assert_eq!(a.inc_nonce(), Err(ExitCode::NonceOverflow));
    assert_eq!(a.nonce, u64::MAX);
}

#[test]
fn inc_nonce_returns_previous_value() {
    let mut a = Account::new(Address { bytes: [0u8; 20] });
    a.nonce = 4;
    assert_eq!(a.inc_nonce(), Ok(4));
    assert_eq!(a.nonce, 5);
}

#[test]
fn balance_arithmetic_is_checked() {
    let mut a = Account::new(Address { bytes: [0u8; 20] });
    a.balance = U256::from_u64(10);
    assert_eq!(a.sub_balance(U256::from_u64(11)), Err(ExitCode::InsufficientBalance));
    assert_eq!(a.sub_balance(U256::from_u64(4)), Ok(()));
    assert_eq!(a.balance, U256::from_u64(6));
    let mut b = Account::new(Address { bytes: [0u8; 20] });
    b.balance = U256 { limbs: [u64::MAX, u64::MAX, u64::MAX, u64::MAX] };
    assert_eq!(b.add_balance(U256::from_u64(1)), Err(ExitCode::OverflowPayment));
    b.add_balance_saturating(U256::from_u64(1));
    assert_eq!(b.balance, U256 { limbs: [u64::MAX, u64::MAX, u64::MAX, u64::MAX] });
    b.sub_balance_saturating(U256 { limbs: [0, 0, 0, u64::MAX] });
    a.sub_balance_saturating(U256::from_u64(100));
    assert_eq!(a.balance, U256::zero());
}

#[test]
fn transfer_moves_the_amount() {
    let mut from = Account::new(Address { bytes: [1u8; 20] });
    from.balance = U256::from_u64(100);
    let mut to = Account::new(Address { bytes: [2u8; 20] });
    to.balance = U256::from_u64(5);
    assert_eq!(Account::transfer(&mut from, &mut to, U256::from_u64(30)), Ok(()));
    assert_eq!(from.balance, U256::from_u64(70));
    assert_eq!(to.balance, U256::from_u64(35));
}

#[test]
fn create_account_rejects_insufficient_balance() {
    let am = NullManager;
    let mut caller = Account::new(Address { bytes: [1u8; 20] });
    caller.balance = U256::from_u64(1);
    let r = Account::create_account(&am, &mut caller, U256::from_u64(2), Address { bytes: [9u8; 20] });
    assert_eq!(r, Err(ExitCode::InsufficientBalance));
    assert_eq!(caller.nonce, 0);
}

#[test]
fn create_account_rejects_collision() {
    let mut caller = Account::new(Address { bytes: [1u8; 20] });
    caller.balance = U256::from_u64(10);
    let mut callee = Account::new(Address { bytes: [9u8; 20] });
    callee.nonce = 3;
    let r = Account::create_account_with(&mut caller, U256::from_u64(2), callee);
    assert_eq!(r, Err(ExitCode::CreateCollision));
    assert_eq!(caller.nonce, 1);
}

#[test]
fn create_account_starts_callee_at_nonce_one() {
    let am = NullManager;
    let mut caller = Account::new(Address { bytes: [1u8; 20] });
    caller.balance = U256::from_u64(10);
    let r = Account::create_account(&am, &mut caller, U256::from_u64(4), Address { bytes: [9u8; 20] });
    let callee = r.unwrap();
    assert_eq!(callee.nonce, 1);
    assert_eq!(callee.balance, U256::from_u64(4));
    assert_eq!(caller.balance, U256::from_u64(6));
    assert_eq!(caller.nonce, 1);
}

#[test]
fn update_bytecode_sets_sizes_and_hashes() {
    let am = NullManager;
    let mut a = Account::new(Address { bytes: [1u8; 20] });
    let source = vec![1u8, 2, 3];
    let rwasm = vec![4u8, 5];
    a.update_bytecode(&am, &source, [0x11; 32], &rwasm, [0x22; 32]);
    assert_eq!(a.source_code_size, 3);
    assert_eq!(a.source_code_hash, [0x11; 32]);
    assert_eq!(a.rwasm_code_size, 2);
    assert_eq!(a.rwasm_code_hash, [0x22; 32]);
}

#[test]
fn compression_flags_mark_balance_and_source_hash() {
    assert_eq!(JZKT_ACCOUNT_COMPRESSION_FLAGS, 0b1001);
}

#[test]
fn address_into_word_left_pads() {
    let a = Address { bytes: [3u8; 20] };
    let w = a.into_word();
    assert_eq!(&w[0..12], &[0u8; 12]);
    assert_eq!(&w[12..32], &[3u8; 20]);
}

#[test]
fn exit_codes_round_trip_through_i32() {
    let codes = [
        ExitCode::Success,
        ExitCode::Panic,
        ExitCode::TransactError,
        ExitCode::OutputOverflow,
        ExitCode::NonceOverflow,
        ExitCode::InsufficientBalance,
        ExitCode::CreateCollision,
        ExitCode::OverflowPayment,
        ExitCode::MemoryOutOfBounds,
        ExitCode::UnknownError,
    ];
    for c in codes {
        assert_eq!(ExitCode::from_i32(c.into_i32()), c);
    }
    assert_eq!(ExitCode::from_i32(-77), ExitCode::UnknownError);
    assert_eq!(ExitCode::Success.into_i32(), 0);
}
