//! Read-only projections of data the cryptographic core already stores,
//! exposed for inspection: which room keys arrived, which were withheld
//! and why, and a narrow cross-signing-only export. They carry no logic
//! of their own; every accessor hands out an independent copy.

use vstd::prelude::*;

verus! {

/// Private cross-signing key seeds that can be backed up or uploaded to
/// the secret store: a narrower export than a full secrets bundle (no
/// backup secrets).
#[derive(Debug)]
pub struct CrossSigningKeyExport {
    master_key: Option<String>,
    self_signing_key: Option<String>,
    user_signing_key: Option<String>,
}

/// The text of an optional string.
pub open spec fn opt_view(o: Option<String>) -> Option<Seq<char>> {
    match o {
        Option::Some(s) => Option::Some(s@),
        Option::None => Option::None,
    }
}

/// Copy an optional string.
fn clone_opt(o: &Option<String>) -> (r: Option<String>)
    ensures
        opt_view(r) == opt_view(*o),
{
    match o {
        Option::Some(s) => Option::Some(s.clone()),
        Option::None => Option::None,
    }
}

impl CrossSigningKeyExport {
    /// Assemble an export from the seeds that are known.
    pub fn new(
        master_key: Option<String>,
        self_signing_key: Option<String>,
        user_signing_key: Option<String>,
    ) -> (r: CrossSigningKeyExport)
        ensures
            r.spec_master_key() == opt_view(master_key),
            r.spec_self_signing_key() == opt_view(self_signing_key),
            r.spec_user_signing_key() == opt_view(user_signing_key),
    {
        CrossSigningKeyExport { master_key, self_signing_key, user_signing_key }
    }

    pub closed spec fn spec_master_key(&self) -> Option<Seq<char>> {
        opt_view(self.master_key)
    }

    pub closed spec fn spec_self_signing_key(&self) -> Option<Seq<char>> {
        opt_view(self.self_signing_key)
    }

    pub closed spec fn spec_user_signing_key(&self) -> Option<Seq<char>> {
        opt_view(self.user_signing_key)
    }

    /// The seed of the master key encoded as unpadded base64.
    pub fn master_key(&self) -> (r: Option<String>)
        ensures
            opt_view(r) == self.spec_master_key(),
    {
        clone_opt(&self.master_key)
    }

    /// The seed of the self signing key encoded as unpadded base64.
    pub fn self_signing_key(&self) -> (r: Option<String>)
        ensures
            opt_view(r) == self.spec_self_signing_key(),
    {
        clone_opt(&self.self_signing_key)
    }

    /// The seed of the user signing key encoded as unpadded base64.
    pub fn user_signing_key(&self) -> (r: Option<String>)
        ensures
            opt_view(r) == self.spec_user_signing_key(),
    {
        clone_opt(&self.user_signing_key)
    }
}

/// Information on a room key that has been received or imported.
#[derive(Debug)]
pub struct RoomKeyInfo {
    algorithm: String,
    room_id: String,
    sender_key: String,
    session_id: String,
}

impl RoomKeyInfo {
    /// Record which key was received for which room and session.
    pub fn new(algorithm: String, room_id: String, sender_key: String, session_id: String) -> (r:
        RoomKeyInfo)
        ensures
            r.spec_algorithm() == algorithm@,
            r.spec_room_id() == room_id@,
            r.spec_sender_key() == sender_key@,
            r.spec_session_id() == session_id@,
    {
        RoomKeyInfo { algorithm, room_id, sender_key, session_id }
    }

    pub closed spec fn spec_algorithm(&self) -> Seq<char> {
        self.algorithm@
    }

    pub closed spec fn spec_room_id(&self) -> Seq<char> {
        self.room_id@
    }

    pub closed spec fn spec_sender_key(&self) -> Seq<char> {
        self.sender_key@
    }

    pub closed spec fn spec_session_id(&self) -> Seq<char> {
        self.session_id@
    }

    /// The encryption algorithm that this key is used for.
    pub fn algorithm(&self) -> (r: String)
        ensures
            r@ == self.spec_algorithm(),
    {
        self.algorithm.clone()
    }

    /// The room where the key is used.
    pub fn room_id(&self) -> (r: String)
        ensures
            r@ == self.spec_room_id(),
    {
        self.room_id.clone()
    }

    /// The Curve25519 key of the device which initiated the session,
    /// encoded as unpadded base64.
    pub fn sender_key(&self) -> (r: String)
        ensures
            r@ == self.spec_sender_key(),
    {
        self.sender_key.clone()
    }

    /// The ID of the session that the key is for.
    pub fn session_id(&self) -> (r: String)
        ensures
            r@ == self.spec_session_id(),
    {
        self.session_id.clone()
    }
}

/// Information on a notification that a session's key was deliberately
/// not shared: who sent it, for which room and session, and the reason
/// code.
#[derive(Debug)]
pub struct RoomKeyWithheldInfo {
    sender: String,
    algorithm: String,
    withheld_code: String,
    room_id: String,
    session_id: String,
}

impl RoomKeyWithheldInfo {
    /// Record a withheld-key notification.
    pub fn new(
        sender: String,
        algorithm: String,
        withheld_code: String,
        room_id: String,
        session_id: String,
    ) -> (r: RoomKeyWithheldInfo)
        ensures
            r.spec_sender() == sender@,
            r.spec_algorithm() == algorithm@,
            r.spec_withheld_code() == withheld_code@,
            r.spec_room_id() == room_id@,
            r.spec_session_id() == session_id@,
    {
        RoomKeyWithheldInfo { sender, algorithm, withheld_code, room_id, session_id }
    }

    pub closed spec fn spec_sender(&self) -> Seq<char> {
        self.sender@
    }

    pub closed spec fn spec_algorithm(&self) -> Seq<char> {
        self.algorithm@
    }

    pub closed spec fn spec_withheld_code(&self) -> Seq<char> {
        self.withheld_code@
    }

    pub closed spec fn spec_room_id(&self) -> Seq<char> {
        self.room_id@
    }

    pub closed spec fn spec_session_id(&self) -> Seq<char> {
        self.session_id@
    }

    /// The user that sent the withheld notification.
    pub fn sender(&self) -> (r: String)
        ensures
            r@ == self.spec_sender(),
    {
        self.sender.clone()
    }

    /// The encryption algorithm of the session that is being withheld.
    pub fn algorithm(&self) -> (r: String)
        ensures
            r@ == self.spec_algorithm(),
    {
        self.algorithm.clone()
    }

    /// The reason code from the notification, such as `m.unverified`.
    pub fn withheld_code(&self) -> (r: String)
        ensures
            r@ == self.spec_withheld_code(),
    {
        self.withheld_code.clone()
    }

    /// The room ID of the session that is being withheld.
    pub fn room_id(&self) -> (r: String)
        ensures
            r@ == self.spec_room_id(),
    {
        self.room_id.clone()
    }

    /// The session ID of the session that is being withheld.
    pub fn session_id(&self) -> (r: String)
        ensures
            r@ == self.spec_session_id(),
    {
        self.session_id.clone()
    }
}

} // verus!
