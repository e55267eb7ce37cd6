//! Shared plain types: addresses, 32-byte words, guest exit codes and
//! builder errors.

use vstd::prelude::*;

verus! {

/// A 32-byte word: a hash, a storage key or one packed account field.
pub type Bytes32 = [u8; 32];

/// A 20-byte account address.
#[derive(Debug, Clone, Copy, PartialEq, Eq)]
pub struct Address {
    pub bytes: [u8; 20],
}

impl Address {
    /// The all-zero address.
    pub fn zero() -> (r: Address)
        ensures
            r.bytes@ == Seq::new(20, |i: int| 0u8),
    {
        let r = Address { bytes: [0u8; 20] };
        proof {
            assert(r.bytes@ =~= Seq::new(20, |i: int| 0u8));
        }
        r
    }

    /// The address widened to a 32-byte word: twelve zero bytes, then the
    /// address bytes.
    pub open spec fn spec_into_word(self) -> Seq<u8> {
        Seq::new(32, |i: int| if i < 12 { 0u8 } else { self.bytes@[i - 12] })
    }

    /// Packs the address into a 32-byte word, left-padded with zeros.
    pub fn into_word(&self) -> (r: Bytes32)
        ensures
            r@ == self.spec_into_word(),
    {
        let mut r: Bytes32 = [0u8; 32];
        let mut i: usize = 0;
        while i < 20
            invariant
                i <= 20,
                r@.len() == 32,
                forall|j: int| 0 <= j < 12 ==> r@[j] == 0u8,
                forall|j: int| 12 <= j < 12 + i ==> r@[j] == self.bytes@[j - 12],
                forall|j: int| 12 + i <= j < 32 ==> r@[j] == 0u8,
            decreases 20 - i,
        {
            r[i + 12] = self.bytes[i];
            i = i + 1;
        }
        proof {
            assert(r@ =~= self.spec_into_word());
        }
        r
    }
}

/// A guest-visible exit code.  `Success` is the zero code; every other variant is an
/// expected, data-encoded outcome, never a builder fault.
#[derive(Debug, Clone, Copy, PartialEq, Eq, Structural)]
pub enum ExitCode {
    Success,
    Panic,
    TransactError,
    OutputOverflow,
    NonceOverflow,
    InsufficientBalance,
    CreateCollision,
    OverflowPayment,
    MemoryOutOfBounds,
    UnknownError,
}

impl ExitCode {
    /// The signed code this variant travels as: success is zero, every
    /// failure is negative.
    pub open spec fn spec_into_i32(self) -> i32 {
        match self {
            ExitCode::Success => 0i32,
            ExitCode::Panic => -1i32,
            ExitCode::UnknownError => -2i32,
            ExitCode::TransactError => -3i32,
            ExitCode::OutputOverflow => -4i32,
            ExitCode::NonceOverflow => -5i32,
            ExitCode::InsufficientBalance => -6i32,
            ExitCode::CreateCollision => -7i32,
            ExitCode::OverflowPayment => -8i32,
            ExitCode::MemoryOutOfBounds => -9i32,
        }
    }

    /// Encodes this exit code as its signed representation.
    pub fn into_i32(self) -> (r: i32)
        ensures
            r == self.spec_into_i32(),
    {
        match self {
            ExitCode::Success => 0,
            ExitCode::Panic => -1,
            ExitCode::UnknownError => -2,
            ExitCode::TransactError => -3,
            ExitCode::OutputOverflow => -4,
            ExitCode::NonceOverflow => -5,
            ExitCode::InsufficientBalance => -6,
            ExitCode::CreateCollision => -7,
            ExitCode::OverflowPayment => -8,
            ExitCode::MemoryOutOfBounds => -9,
        }
    }

    /// The exit code a signed representation stands for; an unassigned
    /// code maps to `UnknownError`.
    pub open spec fn spec_from_i32(code: i32) -> ExitCode {
        if code == 0 {
            ExitCode::Success
        } else if code == -1 {
            ExitCode::Panic
        } else if code == -3 {
            ExitCode::TransactError
        } else if code == -4 {
            ExitCode::OutputOverflow
        } else if code == -5 {
            ExitCode::NonceOverflow
        } else if code == -6 {
            ExitCode::InsufficientBalance
        } else if code == -7 {
            ExitCode::CreateCollision
        } else if code == -8 {
            ExitCode::OverflowPayment
        } else if code == -9 {
            ExitCode::MemoryOutOfBounds
        } else {
            ExitCode::UnknownError
        }
    }

    /// Decodes a signed representation back into an exit code.
    pub fn from_i32(code: i32) -> (r: ExitCode)
        ensures
            r == ExitCode::spec_from_i32(code),
    {
        if code == 0 {
            ExitCode::Success
        } else if code == -1 {
            ExitCode::Panic
        } else if code == -3 {
            ExitCode::TransactError
        } else if code == -4 {
            ExitCode::OutputOverflow
        } else if code == -5 {
            ExitCode::NonceOverflow
        } else if code == -6 {
            ExitCode::InsufficientBalance
        } else if code == -7 {
            ExitCode::CreateCollision
        } else if code == -8 {
            ExitCode::OverflowPayment
        } else if code == -9 {
            ExitCode::MemoryOutOfBounds
        } else {
            ExitCode::UnknownError
        }
    }
}

/// A builder fault.  Any of these aborts the current step; the caller
/// discards the step's accumulated rows.  Guest-visible failure exit codes
/// are *not* faults: they travel as data in rows and results.
#[derive(Debug, Clone, Copy, PartialEq, Eq, Structural)]
pub enum GadgetError {
    /// A call-like instruction resolved to a platform function index
    /// outside the known set; bytecode is pre-validated, so this signals a
    /// decoder/dispatcher mismatch.
    UnknownSysCall(u32),
    /// A bulk memory operation touched an address outside linear memory.
    OutOfBoundsMemory,
    /// A bulk table operation touched a missing table or element range, or
    /// a growth exceeded the table's declared maximum.
    OutOfBoundsTable,
    /// The step's remaining fuel would go negative.
    OutOfFuel,
    /// A nested sub-execution's output exceeded the caller-declared
    /// maximum return size.
    OutputOverflow,
    /// A nested sub-execution reported the carried non-success exit code.
    TransactError(i32),
}

} // verus!
