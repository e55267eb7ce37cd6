//! The persistent, merkleized key-value storage collaborator.  The
//! builder records only the logical read/write fact of a storage access;
//! the proof path belongs to the implementor.

use vstd::prelude::*;
use crate::types::{Bytes32, ExitCode};

verus! {

/// Persistent storage keyed by opaque byte keys, with 32-byte-word
/// values and opaque proof segments.
pub trait PersistentStorage {
    /// Opens the tree at a root; reports whether the root was known.
    fn open(&mut self, root32: &[u8]) -> bool;

    /// The current root commitment.
    fn compute_root(&self) -> Bytes32;

    /// The words stored under a key, if any.
    fn get(&self, key: &[u8]) -> Option<Vec<Bytes32>>;

    /// Stores words under a key, with the fields' compression flags.
    fn update(&mut self, key: &[u8], value_flags: u32, value: &Vec<Bytes32>) -> Result<
        (),
        ExitCode,
    >;

    /// Removes a key.
    fn remove(&mut self, key: &[u8]) -> Result<(), ExitCode>;

    /// The opaque proof segments for a key, if any.
    fn proof_path(&self, key: &Bytes32) -> Option<Vec<Vec<u8>>>;
}

} // verus!
