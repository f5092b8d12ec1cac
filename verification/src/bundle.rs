//! The secrets bundle: the key material that fully activates a new device
//! for end-to-end encryption — cross-signing key seeds and, optionally,
//! the backup decryption secrets — together with its transport encoding
//! and decoding.
//!
//! A bundle is held only as long as transport needs it; its accessors
//! return independent copies, so a caller should take as few as possible.

use vstd::prelude::*;

use crate::StoreError;
use crate::transport::EntryModel;
use crate::transport::SectionModel;
use crate::transport::TransportEntry;
use crate::transport::TransportSection;
use crate::transport::TransportValue;
use crate::transport::entries_view;
use vstd::string::StringExecFns;

verus! {

/// The backup secrets a bundle may carry, tagged by the algorithm they
/// belong to. Today one algorithm is recognized; a tag from the future
/// is kept as it came, and [`SecretsBundle::backup_bundle`] degrades it
/// to "no backup secrets" rather than misreading it.
pub enum BackupSecrets {
    /// The one recognized algorithm.
    MegolmBackupV1Curve25519AesSha2 {
        /// The backup decryption key, encoded as unpadded base64.
        key: String,
        /// The backup version this key is used with.
        backup_version: String,
    },
    /// Any other algorithm tag, carried through untouched.
    Unrecognized {
        /// The algorithm tag as it came.
        algorithm: String,
        /// The key field as it came.
        key: String,
        /// The backup version as it came.
        backup_version: String,
    },
}

/// The backup-specific parts of a secrets bundle, extracted for a caller.
#[derive(Debug)]
pub struct BackupSecretsBundle {
    /// The backup decryption key, encoded as unpadded base64.
    pub key: String,
    /// The backup version which this backup decryption key is used with.
    pub backup_version: String,
}

/// The bundle of secrets to fully activate a new device for end-to-end
/// encryption: up to three cross-signing key seeds (each encoded as
/// unpadded base64) and, optionally, the backup secrets.
pub struct SecretsBundle {
    master_key: Option<String>,
    self_signing_key: Option<String>,
    user_signing_key: Option<String>,
    backup: Option<BackupSecrets>,
}

/// The abstract value of [`BackupSecrets`].
#[verifier::ext_equal]
pub enum BackupModel {
    MegolmV1 { key: Seq<char>, backup_version: Seq<char> },
    Unrecognized { algorithm: Seq<char>, key: Seq<char>, backup_version: Seq<char> },
}

/// The abstract value of [`SecretsBundle`].
#[verifier::ext_equal]
pub struct BundleModel {
    pub master_key: Option<Seq<char>>,
    pub self_signing_key: Option<Seq<char>>,
    pub user_signing_key: Option<Seq<char>>,
    pub backup: Option<BackupModel>,
}

/// The text of an optional string.
pub open spec fn opt_text_view(o: Option<String>) -> Option<Seq<char>> {
    match o {
        Option::Some(s) => Option::Some(s@),
        Option::None => Option::None,
    }
}

impl View for BackupSecrets {
    type V = BackupModel;

    open spec fn view(&self) -> BackupModel {
        match self {
            BackupSecrets::MegolmBackupV1Curve25519AesSha2 { key, backup_version } => {
                BackupModel::MegolmV1 { key: key@, backup_version: backup_version@ }
            },
            BackupSecrets::Unrecognized { algorithm, key, backup_version } => {
                BackupModel::Unrecognized {
                    algorithm: algorithm@,
                    key: key@,
                    backup_version: backup_version@,
                }
            },
        }
    }
}

/// The abstract value of an optional [`BackupSecrets`].
pub open spec fn opt_backup_view(o: Option<BackupSecrets>) -> Option<BackupModel> {
    match o {
        Option::Some(b) => Option::Some(b@),
        Option::None => Option::None,
    }
}

impl View for SecretsBundle {
    type V = BundleModel;

    closed spec fn view(&self) -> BundleModel {
        BundleModel {
            master_key: opt_text_view(self.master_key),
            self_signing_key: opt_text_view(self.self_signing_key),
            user_signing_key: opt_text_view(self.user_signing_key),
            backup: opt_backup_view(self.backup),
        }
    }
}

/// The algorithm tag of the one recognized backup-secrets variant.
pub open spec fn megolm_v1_tag() -> Seq<char> {
    "m.megolm_backup.v1.curve25519-aes-sha2"@
}

/// A well-formed backup value does not spell the recognized tag in its
/// unrecognized form: the tag alone decides the variant.
pub open spec fn backup_model_wf(b: BackupModel) -> bool {
    match b {
        BackupModel::MegolmV1 { .. } => true,
        BackupModel::Unrecognized { algorithm, .. } => algorithm != megolm_v1_tag(),
    }
}

/// A well-formed bundle: its backup value, if any, is well-formed.
pub open spec fn bundle_wf(b: BundleModel) -> bool {
    match b.backup {
        Option::Some(bk) => backup_model_wf(bk),
        Option::None => true,
    }
}

// ---------------------------------------------------------------------
// The transport encoding, abstractly.
// ---------------------------------------------------------------------
pub open spec fn name_cross_signing() -> Seq<char> {
    "cross_signing"@
}

pub open spec fn name_backup() -> Seq<char> {
    "backup"@
}

pub open spec fn name_master_key() -> Seq<char> {
    "master_key"@
}

pub open spec fn name_self_signing_key() -> Seq<char> {
    "self_signing_key"@
}

pub open spec fn name_user_signing_key() -> Seq<char> {
    "user_signing_key"@
}

pub open spec fn name_algorithm() -> Seq<char> {
    "algorithm"@
}

pub open spec fn name_key() -> Seq<char> {
    "key"@
}

pub open spec fn name_backup_version() -> Seq<char> {
    "backup_version"@
}

/// One named field where the text is present, nothing where it is absent.
pub open spec fn optional_entry(name: Seq<char>, text: Option<Seq<char>>) -> Seq<EntryModel> {
    match text {
        Option::Some(t) => seq![EntryModel { name, text: t }],
        Option::None => Seq::empty(),
    }
}

/// The fields of the cross-signing section: the seeds that are present,
/// in canonical order.
pub open spec fn cross_field_entries(b: BundleModel) -> Seq<EntryModel> {
    optional_entry(name_master_key(), b.master_key) + optional_entry(
        name_self_signing_key(),
        b.self_signing_key,
    ) + optional_entry(name_user_signing_key(), b.user_signing_key)
}

/// The fields of the backup section: the algorithm tag, the key, and the
/// backup version.
pub open spec fn backup_entries(bk: BackupModel) -> Seq<EntryModel> {
    match bk {
        BackupModel::MegolmV1 { key, backup_version } => seq![
            EntryModel { name: name_algorithm(), text: megolm_v1_tag() },
            EntryModel { name: name_key(), text: key },
            EntryModel { name: name_backup_version(), text: backup_version },
        ],
        BackupModel::Unrecognized { algorithm, key, backup_version } => seq![
            EntryModel { name: name_algorithm(), text: algorithm },
            EntryModel { name: name_key(), text: key },
            EntryModel { name: name_backup_version(), text: backup_version },
        ],
    }
}

/// The transport form of a bundle: the cross-signing section, then the
/// backup section where backup secrets are present.
pub open spec fn transport_of(b: BundleModel) -> Seq<SectionModel> {
    seq![SectionModel { name: name_cross_signing(), entries: cross_field_entries(b) }] + match b
        .backup {
        Option::Some(bk) => seq![
            SectionModel { name: name_backup(), entries: backup_entries(bk) },
        ],
        Option::None => Seq::empty(),
    }
}

// ---------------------------------------------------------------------
// The transport decoding, abstractly.
// ---------------------------------------------------------------------
/// Take the field named `name` at position `i` if it stands there,
/// yielding its text and the next position.
pub open spec fn take_optional(es: Seq<EntryModel>, i: int, name: Seq<char>) -> (
    Option<Seq<char>>,
    int,
) {
    if i < es.len() && es[i].name == name {
        (Option::Some(es[i].text), i + 1)
    } else {
        (Option::None, i)
    }
}

/// Decode the cross-signing section: the three seeds, each optional, in
/// canonical order, and nothing else.
pub open spec fn parse_cross(es: Seq<EntryModel>) -> Option<
    (Option<Seq<char>>, Option<Seq<char>>, Option<Seq<char>>),
> {
    let (master, i1) = take_optional(es, 0, name_master_key());
    let (selfsig, i2) = take_optional(es, i1, name_self_signing_key());
    let (usersig, i3) = take_optional(es, i2, name_user_signing_key());
    if i3 == es.len() {
        Option::Some((master, selfsig, usersig))
    } else {
        Option::None
    }
}

/// Decode the backup section: exactly the algorithm tag, the key and the
/// backup version; the tag decides the variant.
pub open spec fn parse_backup(es: Seq<EntryModel>) -> Option<BackupModel> {
    if es.len() == 3 && es[0].name == name_algorithm() && es[1].name == name_key() && es[2].name
        == name_backup_version() {
        if es[0].text == megolm_v1_tag() {
            Option::Some(BackupModel::MegolmV1 { key: es[1].text, backup_version: es[2].text })
        } else {
            Option::Some(
                BackupModel::Unrecognized {
                    algorithm: es[0].text,
                    key: es[1].text,
                    backup_version: es[2].text,
                },
            )
        }
    } else {
        Option::None
    }
}

/// Decode a transport value: the cross-signing section, then at most a
/// backup section. Anything else is not a secrets bundle.
pub open spec fn parse_transport(t: Seq<SectionModel>) -> Option<BundleModel> {
    if t.len() < 1 || t.len() > 2 {
        Option::None
    } else if t[0].name != name_cross_signing() {
        Option::None
    } else {
        match parse_cross(t[0].entries) {
            Option::None => Option::None,
            Option::Some((master, selfsig, usersig)) => {
                if t.len() == 1 {
                    Option::Some(
                        BundleModel {
                            master_key: master,
                            self_signing_key: selfsig,
                            user_signing_key: usersig,
                            backup: Option::None,
                        },
                    )
                } else if t[1].name != name_backup() {
                    Option::None
                } else {
                    match parse_backup(t[1].entries) {
                        Option::None => Option::None,
                        Option::Some(bk) => Option::Some(
                            BundleModel {
                                master_key: master,
                                self_signing_key: selfsig,
                                user_signing_key: usersig,
                                backup: Option::Some(bk),
                            },
                        ),
                    }
                }
            },
        }
    }
}

/// Decoding inverts encoding: a well-formed bundle that is encoded to its
/// transport form and decoded again comes back exactly as it was.
pub proof fn lemma_transport_round_trip(b: BundleModel)
    requires
        bundle_wf(b),
    ensures
        parse_transport(transport_of(b)) == Option::Some(b),
{
    reveal_strlit("cross_signing");
    reveal_strlit("backup");
    reveal_strlit("master_key");
    reveal_strlit("self_signing_key");
    reveal_strlit("user_signing_key");
    reveal_strlit("algorithm");
    reveal_strlit("key");
    reveal_strlit("backup_version");
    reveal_strlit("m.megolm_backup.v1.curve25519-aes-sha2");
    assert(name_user_signing_key() != name_self_signing_key()) by {
        assert(name_user_signing_key()[0] == 'u');
        assert(name_self_signing_key()[0] == 's');
    }
    assert(name_self_signing_key() != name_master_key()) by {
        assert(name_self_signing_key().len() == 16);
        assert(name_master_key().len() == 10);
    }
    assert(name_user_signing_key() != name_master_key()) by {
        assert(name_user_signing_key().len() == 16);
        assert(name_master_key().len() == 10);
    }
    let t = transport_of(b);
    assert(t[0] == SectionModel { name: name_cross_signing(), entries: cross_field_entries(b) });
    let es = cross_field_entries(b);
    match b.master_key {
        Option::Some(m) => match b.self_signing_key {
            Option::Some(s) => match b.user_signing_key {
                Option::Some(u) => {
                    assert(es =~= seq![
                        EntryModel { name: name_master_key(), text: m },
                        EntryModel { name: name_self_signing_key(), text: s },
                        EntryModel { name: name_user_signing_key(), text: u },
                    ]);
                    assert(parse_cross(es) == Option::Some(
                        (b.master_key, b.self_signing_key, b.user_signing_key),
                    ));
                },
                Option::None => {
                    assert(es =~= seq![
                        EntryModel { name: name_master_key(), text: m },
                        EntryModel { name: name_self_signing_key(), text: s },
                    ]);
                    assert(parse_cross(es) == Option::Some(
                        (b.master_key, b.self_signing_key, b.user_signing_key),
                    ));
                },
            },
            Option::None => match b.user_signing_key {
                Option::Some(u) => {
                    assert(es =~= seq![
                        EntryModel { name: name_master_key(), text: m },
                        EntryModel { name: name_user_signing_key(), text: u },
                    ]);
                    assert(parse_cross(es) == Option::Some(
                        (b.master_key, b.self_signing_key, b.user_signing_key),
                    ));
                },
                Option::None => {
                    assert(es =~= seq![EntryModel { name: name_master_key(), text: m }]);
                    assert(parse_cross(es) == Option::Some(
                        (b.master_key, b.self_signing_key, b.user_signing_key),
                    ));
                },
            },
        },
        Option::None => match b.self_signing_key {
            Option::Some(s) => match b.user_signing_key {
                Option::Some(u) => {
                    assert(es =~= seq![
                        EntryModel { name: name_self_signing_key(), text: s },
                        EntryModel { name: name_user_signing_key(), text: u },
                    ]);
                    assert(parse_cross(es) == Option::Some(
                        (b.master_key, b.self_signing_key, b.user_signing_key),
                    ));
                },
                Option::None => {
                    assert(es =~= seq![EntryModel { name: name_self_signing_key(), text: s }]);
                    assert(parse_cross(es) == Option::Some(
                        (b.master_key, b.self_signing_key, b.user_signing_key),
                    ));
                },
            },
            Option::None => match b.user_signing_key {
                Option::Some(u) => {
                    assert(es =~= seq![EntryModel { name: name_user_signing_key(), text: u }]);
                    assert(parse_cross(es) == Option::Some(
                        (b.master_key, b.self_signing_key, b.user_signing_key),
                    ));
                },
                Option::None => {
                    assert(es =~= Seq::<EntryModel>::empty());
                    assert(parse_cross(es) == Option::Some(
                        (b.master_key, b.self_signing_key, b.user_signing_key),
                    ));
                },
            },
        },
    }
    assert(parse_cross(es) == Option::Some(
        (b.master_key, b.self_signing_key, b.user_signing_key),
    ));
    match b.backup {
        Option::Some(bk) => {
            assert(t.len() == 2);
            assert(t[1] == SectionModel { name: name_backup(), entries: backup_entries(bk) });
            assert(parse_backup(backup_entries(bk)) == Option::Some(bk));
        },
        Option::None => {
            assert(t.len() == 1);
        },
    }
    assert(parse_transport(t) matches Option::Some(p) && p =~= b);
}

// ---------------------------------------------------------------------
// The bundle itself.
// ---------------------------------------------------------------------
/// The error for a transport value that is not a secrets bundle.
fn malformed() -> (e: StoreError)
    ensures
        e is SerializationError,
{
    StoreError::SerializationError(
        String::from_str("the transport value does not have the shape of a secrets bundle"),
    )
}

impl SecretsBundle {
    /// Assemble a bundle from currently-known secrets.
    pub fn new(
        master_key: Option<String>,
        self_signing_key: Option<String>,
        user_signing_key: Option<String>,
        backup: Option<BackupSecrets>,
    ) -> (r: SecretsBundle)
        requires
            match opt_backup_view(backup) {
                Option::Some(bk) => backup_model_wf(bk),
                Option::None => true,
            },
        ensures
            r@ == (BundleModel {
                master_key: opt_text_view(master_key),
                self_signing_key: opt_text_view(self_signing_key),
                user_signing_key: opt_text_view(user_signing_key),
                backup: opt_backup_view(backup),
            }),
            bundle_wf(r@),
    {
        SecretsBundle { master_key, self_signing_key, user_signing_key, backup }
    }

    /// The seed of the master key, as an independent copy.
    pub fn master_key(&self) -> (r: Option<String>)
        ensures
            opt_text_view(r) == self@.master_key,
    {
        match &self.master_key {
            Option::Some(s) => Option::Some(s.clone()),
            Option::None => Option::None,
        }
    }

    /// The seed of the self-signing key, as an independent copy.
    pub fn self_signing_key(&self) -> (r: Option<String>)
        ensures
            opt_text_view(r) == self@.self_signing_key,
    {
        match &self.self_signing_key {
            Option::Some(s) => Option::Some(s.clone()),
            Option::None => Option::None,
        }
    }

    /// The seed of the user-signing key, as an independent copy.
    pub fn user_signing_key(&self) -> (r: Option<String>)
        ensures
            opt_text_view(r) == self@.user_signing_key,
    {
        match &self.user_signing_key {
            Option::Some(s) => Option::Some(s.clone()),
            Option::None => Option::None,
        }
    }

    /// Serialize the bundle to its transport value.
    ///
    /// Every bundle has a transport form, so this always succeeds; the
    /// `Result` mirrors the transport boundary, where a concrete wire
    /// object model could still fail on its own account.
    pub fn to_json(&self) -> (r: Result<TransportValue, StoreError>)
        ensures
            r matches Ok(t) && t@ == transport_of(self@),
    {
        let mut cross: Vec<TransportEntry> = Vec::new();
        if let Option::Some(mk) = &self.master_key {
            cross.push(
                TransportEntry { name: String::from_str("master_key"), text: mk.clone() },
            );
        }
        proof {
            assert(entries_view(cross@) =~= optional_entry(name_master_key(), self@.master_key));
        }
        if let Option::Some(sk) = &self.self_signing_key {
            cross.push(
                TransportEntry { name: String::from_str("self_signing_key"), text: sk.clone() },
            );
        }
        proof {
            assert(entries_view(cross@) =~= optional_entry(name_master_key(), self@.master_key)
                + optional_entry(name_self_signing_key(), self@.self_signing_key));
        }
        if let Option::Some(uk) = &self.user_signing_key {
            cross.push(
                TransportEntry { name: String::from_str("user_signing_key"), text: uk.clone() },
            );
        }
        proof {
            assert(entries_view(cross@) =~= cross_field_entries(self@));
        }
        let mut sections: Vec<TransportSection> = Vec::new();
        sections.push(
            TransportSection { name: String::from_str("cross_signing"), entries: cross },
        );
        match &self.backup {
            Option::Some(bk) => {
                let mut backup_fields: Vec<TransportEntry> = Vec::new();
                match bk {
                    BackupSecrets::MegolmBackupV1Curve25519AesSha2 { key, backup_version } => {
                        backup_fields.push(
                            TransportEntry {
                                name: String::from_str("algorithm"),
                                text: String::from_str(
                                    "m.megolm_backup.v1.curve25519-aes-sha2",
                                ),
                            },
                        );
                        backup_fields.push(
                            TransportEntry { name: String::from_str("key"), text: key.clone() },
                        );
                        backup_fields.push(
                            TransportEntry {
                                name: String::from_str("backup_version"),
                                text: backup_version.clone(),
                            },
                        );
                    },
                    BackupSecrets::Unrecognized { algorithm, key, backup_version } => {
                        backup_fields.push(
                            TransportEntry {
                                name: String::from_str("algorithm"),
                                text: algorithm.clone(),
                            },
                        );
                        backup_fields.push(
                            TransportEntry { name: String::from_str("key"), text: key.clone() },
                        );
                        backup_fields.push(
                            TransportEntry {
                                name: String::from_str("backup_version"),
                                text: backup_version.clone(),
                            },
                        );
                    },
                }
                proof {
                    assert(entries_view(backup_fields@) =~= backup_entries(bk@));
                }
                sections.push(
                    TransportSection { name: String::from_str("backup"), entries: backup_fields },
                );
            },
            Option::None => {},
        }
        let t = TransportValue { sections };
        proof {
            assert(t@ =~= transport_of(self@));
        }
        Ok(t)
    }

    /// Deserialize a bundle from a transport value.
    ///
    /// Succeeds exactly on the values that bundles encode to; anything of
    /// another shape is a serialization error, never a partial bundle.
    pub fn from_json(json: TransportValue) -> (r: Result<SecretsBundle, StoreError>)
        ensures
            match parse_transport(json@) {
                Option::Some(bm) => r matches Ok(b) && b@ == bm,
                Option::None => (r matches Err(e) && e is SerializationError),
            },
    {
        let n = json.sections.len();
        if n < 1 || n > 2 {
            return Err(malformed());
        }
        let sec0 = &json.sections[0];
        if !(sec0.name == String::from_str("cross_signing")) {
            return Err(malformed());
        }
        let es = &sec0.entries;
        let m = es.len();
        let mut i: usize = 0;
        let mut master: Option<String> = Option::None;
        if i < m && es[i].name == String::from_str("master_key") {
            master = Option::Some(es[i].text.clone());
            i = i + 1;
        }
        proof {
            assert((opt_text_view(master), i as int) == take_optional(
                entries_view(es@),
                0,
                name_master_key(),
            ));
        }
        let ghost i1 = i as int;
        let mut selfsig: Option<String> = Option::None;
        if i < m && es[i].name == String::from_str("self_signing_key") {
            selfsig = Option::Some(es[i].text.clone());
            i = i + 1;
        }
        proof {
            assert((opt_text_view(selfsig), i as int) == take_optional(
                entries_view(es@),
                i1,
                name_self_signing_key(),
            ));
        }
        let ghost i2 = i as int;
        let mut usersig: Option<String> = Option::None;
        if i < m && es[i].name == String::from_str("user_signing_key") {
            usersig = Option::Some(es[i].text.clone());
            i = i + 1;
        }
        proof {
            assert((opt_text_view(usersig), i as int) == take_optional(
                entries_view(es@),
                i2,
                name_user_signing_key(),
            ));
        }
        if i != m {
            return Err(malformed());
        }
        let backup: Option<BackupSecrets>;
        if n == 2 {
            let sec1 = &json.sections[1];
            if !(sec1.name == String::from_str("backup")) {
                return Err(malformed());
            }
            let backup_fields = &sec1.entries;
            if backup_fields.len() != 3 {
                return Err(malformed());
            }
            if !(backup_fields[0].name == String::from_str("algorithm")) {
                return Err(malformed());
            }
            if !(backup_fields[1].name == String::from_str("key")) {
                return Err(malformed());
            }
            if !(backup_fields[2].name == String::from_str("backup_version")) {
                return Err(malformed());
            }
            let algorithm = backup_fields[0].text.clone();
            let key = backup_fields[1].text.clone();
            let backup_version = backup_fields[2].text.clone();
            if algorithm == String::from_str("m.megolm_backup.v1.curve25519-aes-sha2") {
                backup = Option::Some(
                    BackupSecrets::MegolmBackupV1Curve25519AesSha2 { key, backup_version },
                );
            } else {
                backup = Option::Some(
                    BackupSecrets::Unrecognized { algorithm, key, backup_version },
                );
            }
            proof {
                assert(parse_backup(entries_view(sec1.entries@)) == opt_backup_view(backup));
            }
        } else {
            backup = Option::None;
        }
        let bundle = SecretsBundle {
            master_key: master,
            self_signing_key: selfsig,
            user_signing_key: usersig,
            backup,
        };
        proof {
            assert(parse_transport(json@) matches Option::Some(bm) && bm =~= bundle@);
        }
        Ok(bundle)
    }

    /// The backup decryption key and backup version — but only when the
    /// backup secrets carry the one recognized algorithm tag. Any other
    /// tag, whatever its fields look like, yields `None`: never a partial
    /// or best-effort extraction.
    pub fn backup_bundle(&self) -> (r: Option<BackupSecretsBundle>)
        ensures
            match self@.backup {
                Option::Some(BackupModel::MegolmV1 { key, backup_version }) => {
                    &&& r matches Option::Some(bb)
                    &&& bb.key@ == key
                    &&& bb.backup_version@ == backup_version
                },
                _ => r is None,
            },
    {
        match &self.backup {
            Option::Some(BackupSecrets::MegolmBackupV1Curve25519AesSha2 { key, backup_version }) => {
                Option::Some(
                    BackupSecretsBundle { key: key.clone(), backup_version: backup_version.clone() },
                )
            },
            _ => Option::None,
        }
    }
}

} // verus!
