//! The informational record projections: passive data, read back exactly
//! as it was put in.

use crypto_store_handle::records::{CrossSigningKeyExport, RoomKeyInfo, RoomKeyWithheldInfo};

#[test]
fn cross_signing_key_export_hands_back_each_seed() {
    let export = CrossSigningKeyExport::new(
        Some(String::from("bWFzdGVy")),
        None,
        Some(String::from("dXNlcg")),
    );
    assert_eq!(export.master_key(), Some(String::from("bWFzdGVy")));
    assert_eq!(export.self_signing_key(), None);
    assert_eq!(export.user_signing_key(), Some(String::from("dXNlcg")));
}

#[test]
fn room_key_info_is_a_faithful_projection() {
    let info = RoomKeyInfo::new(
        String::from("m.megolm.v1.aes-sha2"),
        String::from("!room:example.org"),
        String::from("cGVlcg"),
        String::from("session-17"),
    );
    assert_eq!(info.algorithm(), "m.megolm.v1.aes-sha2");
    assert_eq!(info.room_id(), "!room:example.org");
    assert_eq!(info.sender_key(), "cGVlcg");
    assert_eq!(info.session_id(), "session-17");
}

#[test]
fn room_key_withheld_info_is_a_faithful_projection() {
    let info = RoomKeyWithheldInfo::new(
        String::from("@alice:example.org"),
        String::from("m.megolm.v1.aes-sha2"),
        String::from("m.unverified"),
        String::from("!room:example.org"),
        String::from("session-17"),
    );
    assert_eq!(info.sender(), "@alice:example.org");
    assert_eq!(info.algorithm(), "m.megolm.v1.aes-sha2");
    assert_eq!(info.withheld_code(), "m.unverified");
    assert_eq!(info.room_id(), "!room:example.org");
    assert_eq!(info.session_id(), "session-17");
}
