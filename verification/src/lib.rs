//! Secure storage of end-to-end-encryption key material: selecting and
//! opening a credential store (ephemeral in-memory, or encrypted persistent),
//! and assembling, serializing and safely destroying bundles of secrets that
//! bootstrap a new device.
//!
//! Passphrases and raw keys handed to this library are wiped after their
//! last use, on every path, success or failure.

use vstd::prelude::*;

pub mod bundle;
pub mod memstore;
pub mod records;
pub mod store;
pub mod transport;
mod wipe;

verus! {

/// The ways an operation of this library can fail.
///
/// Callers must be able to tell "your input was invalid" apart from
/// "the store could not be opened", so argument problems
/// (`ConfigurationError`, `ValidationError`) are distinct from backend
/// failures (`StoreOpenError`) and transport failures (`SerializationError`).
#[derive(Debug)]
pub enum StoreError {
    /// The caller supplied an inconsistent combination of arguments.
    ConfigurationError(String),
    /// A single input value is malformed (for example, a raw store key
    /// whose length is not 32).
    ValidationError(String),
    /// The persistence engine failed to open, create or decrypt the store.
    StoreOpenError(String),
    /// A transport value could not be decoded as a secrets bundle.
    SerializationError(String),
}

impl StoreError {
    pub open spec fn spec_message(&self) -> Seq<char> {
        match self {
            StoreError::ConfigurationError(m) => m@,
            StoreError::ValidationError(m) => m@,
            StoreError::StoreOpenError(m) => m@,
            StoreError::SerializationError(m) => m@,
        }
    }

    /// The human-readable description carried by the error.
    pub fn message(&self) -> (r: &String)
        ensures
            r@ == self.spec_message(),
    {
        match self {
            StoreError::ConfigurationError(m) => m,
            StoreError::ValidationError(m) => m,
            StoreError::StoreOpenError(m) => m,
            StoreError::SerializationError(m) => m,
        }
    }
}

} // verus!
