//! Selecting and opening a credential store.
//!
//! A handle is backed by exactly one of two backends, chosen at open time:
//! an ephemeral in-memory store, or an encrypted persistent store kept by
//! an external engine. Opening the persistent store is slow (key
//! derivation) and runs outside this library; `open` and `open_with_key`
//! therefore validate the arguments, fix the encryption parameters, and
//! hand back a [`PendingOpen`] that the surrounding runtime completes with
//! the engine's reply. The in-memory path needs no engine and yields a
//! ready handle at once.
//!
//! Every passphrase or raw key accepted here is wiped: in place when the
//! call rejects it, and inside [`PendingOpen::complete`] (or
//! [`PendingOpen::abandon`]) once the engine no longer needs it.

use vstd::prelude::*;

use crate::StoreError;
use crate::memstore::MemoryStore;
use crate::memstore::copy_bytes;
use crate::wipe::wipe_bytes;
use crate::wipe::wipe_string;
use vstd::string::StringExecFns;

verus! {

/// How the persistent store's encryption was parameterized at open time.
#[derive(Clone, Copy, Debug, PartialEq, Eq, Structural)]
pub enum EncryptionKind {
    /// Whatever default parameters the engine has established for the name.
    EngineDefaults,
    /// Encryption keyed by a passphrase-derived key.
    PassphraseDerived,
    /// Encryption keyed by a raw 32-byte key.
    RawKeyEncrypted,
}

/// The credential that the engine needs to open a persistent store.
pub enum StoreCredential {
    /// Open with the engine's default parameters.
    WithDefaults,
    /// Derive the encryption key from this passphrase.
    WithPassphrase(String),
    /// Use this raw key directly; it is exactly 32 bytes long.
    WithRawKey(Vec<u8>),
}

impl StoreCredential {
    /// The encryption parameters that the credential fixes.
    pub open spec fn spec_kind(&self) -> EncryptionKind {
        match self {
            StoreCredential::WithDefaults => EncryptionKind::EngineDefaults,
            StoreCredential::WithPassphrase(_) => EncryptionKind::PassphraseDerived,
            StoreCredential::WithRawKey(_) => EncryptionKind::RawKeyEncrypted,
        }
    }
}

/// A persistent-store open that has passed validation and now waits for
/// the external engine. The engine reads the name and the credential,
/// performs the (slow, possibly asynchronous) open, and reports back
/// through [`PendingOpen::complete`].
pub struct PendingOpen {
    /// The name the persistent store is keyed by.
    pub store_name: String,
    /// The credential the engine is to open it with.
    pub credential: StoreCredential,
}

/// What the external engine reports for a pending open.
pub enum EngineReply {
    /// The store is open; the token identifies the engine-side connection.
    Connected(u64),
    /// The engine could not open, create or decrypt the store.
    Refused(String),
}

/// An open connection to a persistent store kept by the external engine.
pub struct PersistentStore {
    /// The name the store is keyed by.
    pub store_name: String,
    /// The encryption parameters fixed at open time.
    pub encryption: EncryptionKind,
    /// The engine-side connection token.
    pub token: u64,
}

/// The backend a handle owns: exactly one of the two.
pub enum StoreBackend {
    /// An ephemeral store; its contents die with the handle.
    Memory(MemoryStore),
    /// A persistent store opened by the external engine.
    Persistent(PersistentStore),
}

/// An open connection to a credential store.
///
/// Opening a persistent store is expensive (key derivation), so callers
/// that need several operations against one store should open it once and
/// keep the handle.
pub struct StoreHandle {
    /// The backend, fixed when the handle was created.
    pub backend: StoreBackend,
}

/// What `open` yields when it succeeds: either a handle that is ready, or
/// a persistent open that the external engine must finish.
pub enum OpenOutcome {
    /// The handle is ready for use.
    Opened(StoreHandle),
    /// The engine must open the persistent store; see [`PendingOpen`].
    EngineNeeded(PendingOpen),
}

impl StoreHandle {
    /// Whether the handle is backed by the ephemeral in-memory store.
    pub fn is_ephemeral(&self) -> (r: bool)
        ensures
            r == (self.backend is Memory),
    {
        match &self.backend {
            StoreBackend::Memory(_) => true,
            StoreBackend::Persistent(_) => false,
        }
    }

    /// Open a credential store.
    ///
    /// With no `store_name` the store is ephemeral and in-memory — and a
    /// passphrase would have no effect, so supplying one without a name is
    /// a configuration error, caught before any engine work. With a
    /// `store_name` the persistent store of that name is to be opened (or
    /// created) by the external engine, encrypted with the passphrase if
    /// one was supplied, with the engine's defaults otherwise.
    ///
    /// The passphrase buffer is never handed back as it came: it is moved
    /// into the pending open (and wiped once the engine is done with it),
    /// or wiped in place on the rejecting path.
    pub fn open(store_name: Option<String>, store_passphrase: &mut Option<String>) -> (r: Result<
        OpenOutcome,
        StoreError,
    >)
        ensures
            match store_name {
                Option::Some(name) => {
                    &&& (*final(store_passphrase)) is None
                    &&& r matches Ok(OpenOutcome::EngineNeeded(p))
                    &&& p.store_name@ == name@
                    &&& match *old(store_passphrase) {
                        Option::Some(pw) => p.credential matches StoreCredential::WithPassphrase(q)
                            && q@ == pw@,
                        Option::None => p.credential is WithDefaults,
                    }
                },
                Option::None => match *old(store_passphrase) {
                    Option::Some(_) => {
                        &&& r matches Err(e) && e is ConfigurationError
                        &&& (*final(store_passphrase)) matches Option::Some(s) && s@.len() == 0
                    },
                    Option::None => {
                        &&& (*final(store_passphrase)) is None
                        &&& r matches Ok(OpenOutcome::Opened(h))
                        &&& h.backend matches StoreBackend::Memory(m) && m@ == Map::<
                            Seq<u8>,
                            Seq<u8>,
                        >::empty()
                    },
                },
            },
    {
        let taken = store_passphrase.take();
        match store_name {
            Option::Some(name) => {
                let credential = match taken {
                    Option::Some(pw) => StoreCredential::WithPassphrase(pw),
                    Option::None => StoreCredential::WithDefaults,
                };
                Ok(OpenOutcome::EngineNeeded(PendingOpen { store_name: name, credential }))
            },
            Option::None => {
                match taken {
                    Option::Some(mut pw) => {
                        wipe_string(&mut pw);
                        *store_passphrase = Option::Some(pw);
                        Err(
                            StoreError::ConfigurationError(
                                String::from_str(
                                    "the store passphrase has been set, but it has an effect only if a store name is set, which is not; please provide one",
                                ),
                            ),
                        )
                    },
                    Option::None => {
                        Ok(
                            OpenOutcome::Opened(
                                StoreHandle { backend: StoreBackend::Memory(MemoryStore::new()) },
                            ),
                        )
                    },
                }
            },
        }
    }

    /// Open a persistent store, using the given raw key for encryption.
    ///
    /// The key must be exactly 32 bytes long; anything else is a
    /// validation error, found before any engine work. On every path —
    /// valid or not — the caller's key buffer is wiped before the call
    /// returns; the valid key travels on inside the pending open and is
    /// wiped once the engine is done with it.
    pub fn open_with_key(store_name: String, store_key: &mut Vec<u8>) -> (r: Result<
        PendingOpen,
        StoreError,
    >)
        ensures
            final(store_key)@.len() == 0,
            old(store_key)@.len() != 32 ==> (r matches Err(e) && e is ValidationError),
            old(store_key)@.len() == 32 ==> {
                &&& r matches Ok(p)
                &&& p.store_name@ == store_name@
                &&& p.credential matches StoreCredential::WithRawKey(k) && k@ == old(store_key)@
            },
    {
        if store_key.len() != 32 {
            wipe_bytes(store_key);
            return Err(StoreError::ValidationError(String::from_str("expected a key of length 32")));
        }
        let key_copy = copy_bytes(store_key);
        wipe_bytes(store_key);
        Ok(PendingOpen { store_name, credential: StoreCredential::WithRawKey(key_copy) })
    }
}

impl PendingOpen {
    /// Finish a persistent open with the engine's reply.
    ///
    /// A connection becomes a ready handle that records the name, the
    /// encryption parameters and the engine's token; a refusal becomes a
    /// [`StoreError::StoreOpenError`] carrying the engine's message —
    /// never a configuration or validation error, since the arguments were
    /// vetted before the engine was asked. Either way the credential held
    /// by the pending open is wiped here.
    pub fn complete(self, reply: EngineReply) -> (r: Result<StoreHandle, StoreError>)
        ensures
            match reply {
                EngineReply::Connected(token) => {
                    &&& r matches Ok(h)
                    &&& h.backend matches StoreBackend::Persistent(p)
                    &&& p.store_name@ == self.store_name@
                    &&& p.encryption == self.credential.spec_kind()
                    &&& p.token == token
                },
                EngineReply::Refused(msg) => r matches Err(e) && e matches StoreError::StoreOpenError(
                    m,
                ) && m@ == msg@,
            },
    {
        let PendingOpen { store_name, credential } = self;
        let encryption = wipe_credential(credential);
        match reply {
            EngineReply::Connected(token) => {
                Ok(
                    StoreHandle {
                        backend: StoreBackend::Persistent(
                            PersistentStore { store_name, encryption, token },
                        ),
                    },
                )
            },
            EngineReply::Refused(msg) => Err(StoreError::StoreOpenError(msg)),
        }
    }

    /// Give the pending open up without asking the engine (or after
    /// abandoning interest in its result), wiping the credential.
    pub fn abandon(self) {
        let PendingOpen { store_name: _, credential } = self;
        let _ = wipe_credential(credential);
    }
}

/// Wipe whatever secret the credential holds and report the encryption
/// parameters it stood for.
fn wipe_credential(credential: StoreCredential) -> (r: EncryptionKind)
    ensures
        r == credential.spec_kind(),
{
    match credential {
        StoreCredential::WithDefaults => EncryptionKind::EngineDefaults,
        StoreCredential::WithPassphrase(mut pw) => {
            wipe_string(&mut pw);
            EncryptionKind::PassphraseDerived
        },
        StoreCredential::WithRawKey(mut key) => {
            wipe_bytes(&mut key);
            EncryptionKind::RawKeyEncrypted
        },
    }
}

} // verus!
