//! The store-selection protocol, observed from outside: which backend an
//! open yields, which error each bad input earns, and that every secret
//! handed in is wiped.

use crypto_store_handle::StoreError;
use crypto_store_handle::store::{
    EncryptionKind, EngineReply, OpenOutcome, StoreBackend, StoreCredential, StoreHandle,
};

#[test]
fn open_without_name_or_passphrase_yields_empty_memory_store() {
    let mut passphrase: Option<String> = None;
    let outcome = StoreHandle::open(None, &mut passphrase).unwrap();
    let mut handle = match outcome {
        OpenOutcome::Opened(h) => h,
        OpenOutcome::EngineNeeded(_) => panic!("the memory path needs no engine"),
    };
    assert!(handle.is_ephemeral());
    match &mut handle.backend {
        StoreBackend::Memory(store) => {
            assert_eq!(store.entry_count(), 0);
            assert_eq!(store.get(&b"curve25519 identity".to_vec()), None);
            store.insert(b"curve25519 identity".to_vec(), b"seed-1".to_vec());
            assert_eq!(
                store.get(&b"curve25519 identity".to_vec()),
                Some(b"seed-1".to_vec())
            );
            store.insert(b"curve25519 identity".to_vec(), b"seed-2".to_vec());
            assert_eq!(
                store.get(&b"curve25519 identity".to_vec()),
                Some(b"seed-2".to_vec())
            );
            assert_eq!(store.get(&b"unrelated".to_vec()), None);
        }
        StoreBackend::Persistent(_) => panic!("no engine was involved"),
    }
}

#[test]
fn memory_store_contents_die_with_the_handle() {
    let mut no_pass: Option<String> = None;
    let outcome = StoreHandle::open(None, &mut no_pass).unwrap();
    if let OpenOutcome::Opened(mut handle) = outcome {
        if let StoreBackend::Memory(store) = &mut handle.backend {
            store.insert(b"room key".to_vec(), b"megolm session".to_vec());
        }
        drop(handle);
    } else {
        panic!("the memory path needs no engine");
    }
    // A fresh open knows nothing of the dropped handle's contents.
    let outcome = StoreHandle::open(None, &mut None).unwrap();
    if let OpenOutcome::Opened(handle) = outcome {
        if let StoreBackend::Memory(store) = &handle.backend {
            assert_eq!(store.get(&b"room key".to_vec()), None);
            assert_eq!(store.entry_count(), 0);
        } else {
            panic!("no engine was involved");
        }
    } else {
        panic!("the memory path needs no engine");
    }
}

#[test]
fn passphrase_without_name_is_a_configuration_error_and_wipes() {
    let mut passphrase = Some(String::from("correct horse battery staple"));
    let result = StoreHandle::open(None, &mut passphrase);
    match result {
        Err(StoreError::ConfigurationError(msg)) => {
            assert!(msg.contains("store name"));
        }
        _ => panic!("a passphrase without a store name must be a configuration error"),
    }
    // The caller-supplied buffer has been overwritten in place: nothing of
    // the original passphrase remains.
    assert_eq!(passphrase, Some(String::new()));
}

#[test]
fn open_with_name_and_passphrase_asks_the_engine() {
    let mut passphrase = Some(String::from("correct horse"));
    let outcome = StoreHandle::open(Some(String::from("alice-device")), &mut passphrase).unwrap();
    // The secret has moved on towards the engine; the caller holds nothing.
    assert_eq!(passphrase, None);
    let pending = match outcome {
        OpenOutcome::EngineNeeded(p) => p,
        OpenOutcome::Opened(_) => panic!("a named store needs the engine"),
    };
    assert_eq!(pending.store_name, "alice-device");
    match &pending.credential {
        StoreCredential::WithPassphrase(p) => assert_eq!(p, "correct horse"),
        _ => panic!("the passphrase must reach the engine"),
    }
    let handle = pending.complete(EngineReply::Connected(7)).unwrap();
    assert!(!handle.is_ephemeral());
    match &handle.backend {
        StoreBackend::Persistent(p) => {
            assert_eq!(p.store_name, "alice-device");
            assert_eq!(p.encryption, EncryptionKind::PassphraseDerived);
            assert_eq!(p.token, 7);
        }
        StoreBackend::Memory(_) => panic!("a named store is persistent"),
    }
}

#[test]
fn engine_refusal_is_a_store_open_error_not_an_input_error() {
    // Reopening "alice-device" with the wrong passphrase: the arguments are
    // fine, the engine refuses to decrypt the store.
    let mut passphrase = Some(String::from("wrong horse"));
    let outcome = StoreHandle::open(Some(String::from("alice-device")), &mut passphrase).unwrap();
    let pending = match outcome {
        OpenOutcome::EngineNeeded(p) => p,
        OpenOutcome::Opened(_) => panic!("a named store needs the engine"),
    };
    let result = pending.complete(EngineReply::Refused(String::from(
        "the passphrase does not decrypt the store",
    )));
    match result {
        Err(StoreError::StoreOpenError(msg)) => {
            assert_eq!(msg, "the passphrase does not decrypt the store");
        }
        Err(StoreError::ConfigurationError(_)) => panic!("not a configuration error"),
        Err(StoreError::ValidationError(_)) => panic!("not a validation error"),
        _ => panic!("an engine refusal must surface as a store-open error"),
    }
}

#[test]
fn open_with_name_alone_uses_engine_defaults() {
    let mut no_pass: Option<String> = None;
    let outcome = StoreHandle::open(Some(String::from("bob-device")), &mut no_pass).unwrap();
    let pending = match outcome {
        OpenOutcome::EngineNeeded(p) => p,
        OpenOutcome::Opened(_) => panic!("a named store needs the engine"),
    };
    assert!(matches!(pending.credential, StoreCredential::WithDefaults));
    let handle = pending.complete(EngineReply::Connected(1)).unwrap();
    match &handle.backend {
        StoreBackend::Persistent(p) => assert_eq!(p.encryption, EncryptionKind::EngineDefaults),
        StoreBackend::Memory(_) => panic!("a named store is persistent"),
    }
}

#[test]
fn open_with_key_rejects_wrong_lengths_before_any_engine_work() {
    for len in [0usize, 16, 31, 33, 64] {
        let mut key = vec![0x42u8; len];
        let result = StoreHandle::open_with_key(String::from("alice-device"), &mut key);
        match result {
            Err(StoreError::ValidationError(msg)) => {
                assert!(msg.contains("32"));
            }
            _ => panic!("a key of length {len} must be a validation error"),
        }
        // The caller's buffer is wiped even on the rejecting path.
        assert!(key.is_empty());
    }
}

#[test]
fn open_with_key_accepts_exactly_32_bytes_and_wipes() {
    let mut key: Vec<u8> = (0u8..32).collect();
    let pending = StoreHandle::open_with_key(String::from("alice-device"), &mut key).unwrap();
    assert!(key.is_empty());
    assert_eq!(pending.store_name, "alice-device");
    match &pending.credential {
        StoreCredential::WithRawKey(k) => {
            assert_eq!(k.as_slice(), (0u8..32).collect::<Vec<u8>>().as_slice());
        }
        _ => panic!("the raw key must reach the engine"),
    }
    let handle = pending.complete(EngineReply::Connected(3)).unwrap();
    match &handle.backend {
        StoreBackend::Persistent(p) => {
            assert_eq!(p.encryption, EncryptionKind::RawKeyEncrypted);
            assert_eq!(p.token, 3);
        }
        StoreBackend::Memory(_) => panic!("a named store is persistent"),
    }
}

#[test]
fn length_valid_key_never_fails_for_the_wrong_reason() {
    // With 32 bytes the only failure left is the engine's.
    let mut key = vec![0xA5u8; 32];
    let pending = StoreHandle::open_with_key(String::from("carol-device"), &mut key).unwrap();
    let result = pending.complete(EngineReply::Refused(String::from("storage unavailable")));
    match result {
        Err(StoreError::StoreOpenError(msg)) => assert_eq!(msg, "storage unavailable"),
        _ => panic!("a length-valid key fails only as a store-open error"),
    }
}

#[test]
fn abandoning_a_pending_open_is_quiet() {
    let mut key = vec![0x11u8; 32];
    let pending = StoreHandle::open_with_key(String::from("dave-device"), &mut key).unwrap();
    pending.abandon();
}

#[test]
fn error_messages_are_reachable() {
    let mut passphrase = Some(String::from("p"));
    match StoreHandle::open(None, &mut passphrase) {
        Err(err) => assert!(err.message().contains("store name")),
        Ok(_) => panic!("a passphrase without a store name must be rejected"),
    }
}
