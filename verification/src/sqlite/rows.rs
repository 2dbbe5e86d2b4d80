//! What the rows of the database stand for.
use vstd::prelude::*;

use crate::crypto::{
    deserialize_dilithium_private_key, deserialize_dilithium_public_key,
    deserialize_ed25519_private_key, deserialize_ed25519_public_key, ContactKeys,
    ContactPrivateKeys, ContactPublicKeys,
};
use crate::db::{missing, DbError, NodeInfo, OperationType};
use crate::domain_models::{
    Contact, ContactId, Filerequest, FilerequestAccess, FylesId, PendingFile, ReceiveStatus,
    ReceivedFile, SelfContact, SendStatus,
};
use crate::text::str_eq;

verus! {

/// The strings that a JSON text lists, where it is a list of strings.
pub uninterp spec fn json_strings(json: Seq<char>) -> Option<Seq<Seq<char>>>;

/// `serde_json::from_str` into a list of strings: a function of the text.
#[verifier::external_body]
fn parse_strings(json: &str) -> (r: Option<Vec<String>>)
    ensures
        match r {
            Some(strings) => json_strings(json@) == Some(crate::domain_models::views(strings@)),
            None => json_strings(json@) is None,
        },
{
    serde_json::from_str::<Vec<String>>(json).ok()
}

/// The JSON text that lists the strings.
pub uninterp spec fn strings_json(strings: Seq<Seq<char>>) -> Seq<char>;

/// `serde_json::to_string` of a list of strings: it does not fail, its result is a function of
/// the strings, and reading it gives the strings back.
#[verifier::external_body]
fn write_strings(strings: &Vec<String>) -> (r: Option<String>)
    ensures
        r is Some,
        r matches Some(json) ==> json@ == strings_json(crate::domain_models::views(strings@)),
        r matches Some(json) ==> json_strings(json@) == Some(
            crate::domain_models::views(strings@),
        ),
{
    serde_json::to_string(strings).ok()
}

/// Whether what was read is what should have been.
pub open spec fn reads<T: View>(
    got: Result<T, DbError>,
    expected: Result<T::V, crate::db::DbErrorView>,
) -> bool {
    match got {
        Ok(value) => expected matches Ok(view) && value@ == view,
        Err(error) => expected matches Err(e) && error@ == e,
    }
}

/// A row of `filerequests`.
#[derive(Debug)]
pub struct FilerequestRow {
    pub id: String,
    pub title: String,
    pub description: String,
    pub status: String,
    pub access_type: String,
}

/// The keys in a row of `contacts`.
#[derive(Debug)]
pub struct ContactKeysRow {
    pub dilithium_public_key: Option<Vec<u8>>,
    pub ed25519_public_key: Option<Vec<u8>>,
}

/// A row of `contacts`.
#[derive(Debug)]
pub struct ContactRow {
    pub id: String,
    pub name: String,
    pub keys: ContactKeysRow,
}

/// The row of `self_contact`.
#[derive(Debug)]
pub struct SelfContactRow {
    pub contact_id: String,
    pub name: String,
    pub ed25519_private_key: Vec<u8>,
    pub ed25519_public_key: Vec<u8>,
    pub dilithium_private_key: Vec<u8>,
    pub dilithium_public_key: Vec<u8>,
}

/// What is shared of the row of `self_contact`.
#[derive(Debug)]
pub struct SharableContactRow {
    pub contact_id: String,
    pub name: String,
    pub dilithium_public_key: Vec<u8>,
    pub ed25519_public_key: Vec<u8>,
}

/// A row of `pending_files`.
#[derive(Debug)]
pub struct PendingFileRow {
    pub id: String,
    pub file_path: String,
    pub target_filerequest_id: String,
    pub status: String,
    pub retry_count: usize,
    pub progress_bytes: Option<u64>,
    pub file_size_bytes: Option<u64>,
    pub transfer_id: Option<String>,
    pub display_name: Option<String>,
    pub interruption_reasons: String,
}

/// A row of `received_files`.
#[derive(Debug)]
pub struct ReceivedFileRow {
    pub id: String,
    pub contact_id: Option<String>,
    pub peer_id: String,
    pub filerequest_id: String,
    pub transfer_id: Option<String>,
    pub file_name: String,
    pub file_path: Option<String>,
    pub file_size_bytes: i64,
    pub progress_bytes: i64,
    pub status: String,
    pub started_at_ms: i64,
    pub received_at_ms: Option<i64>,
}

/// The access that the column stands for. Those whom it names are in rows of their own.
pub open spec fn access_of(
    access_type: Seq<char>,
    audience: Seq<Seq<char>>,
) -> crate::domain_models::AccessView {
    if access_type == "public"@ {
        crate::domain_models::AccessView::Public
    } else if access_type == "audience"@ {
        crate::domain_models::AccessView::Audience { contact_ids: audience }
    } else {
        crate::domain_models::AccessView::Audience { contact_ids: Seq::empty() }
    }
}

/// Whether the rows of the audience belong to the file request.
pub fn has_audience(access_type: &str) -> (r: bool)
    ensures
        r == (access_type@ == "audience"@),
{
    str_eq(access_type, "audience")
}

/// The file request of a row and of those who are its audience.
pub open spec fn filerequest(
    row: FilerequestRow,
    audience: Seq<Seq<char>>,
) -> crate::domain_models::FilerequestView {
    crate::domain_models::FilerequestView {
        id: row.id@,
        title: row.title@,
        description: row.description@,
        is_active: row.status@ == "active"@,
        access: access_of(row.access_type@, audience),
    }
}

/// The file request of a row and of those who are its audience.
pub fn filerequest_of(row: FilerequestRow, audience: Vec<ContactId>) -> (r: Filerequest)
    ensures
        r@ == filerequest(row, crate::domain_models::views(audience@)),
{
    let access = if str_eq(row.access_type.as_str(), "public") {
        FilerequestAccess::Public
    } else if str_eq(row.access_type.as_str(), "audience") {
        FilerequestAccess::Audience { contact_ids: audience }
    } else {
        let nobody: Vec<ContactId> = Vec::new();
        assert(crate::domain_models::views(nobody@) =~= Seq::empty());
        FilerequestAccess::Audience { contact_ids: nobody }
    };
    assert(access@ == access_of(row.access_type@, crate::domain_models::views(audience@)));
    Filerequest {
        id: FylesId(row.id),
        title: row.title,
        description: row.description,
        is_active: str_eq(row.status.as_str(), "active"),
        access,
    }
}

/// What is said of a contact that is not known.
pub open spec fn no_such_contact(id: Seq<char>) -> crate::db::DbErrorView {
    crate::db::DbErrorView::NotFound {
        message: "The contact with id "@ + id + " could not be found"@,
    }
}

/// The name of a contact, if there is such a contact.
pub fn contact_name_of(name: Option<String>, id: &ContactId) -> (r: Result<String, DbError>)
    ensures
        match r {
            Ok(text) => name == Some(text),
            Err(e) => name is None && e@ == no_such_contact(id@),
        },
{
    match name {
        Some(name) => Ok(name),
        None => Err(
            DbError::NotFound {
                message: "The contact with id ".to_owned().concat(id.0.as_str()).concat(
                    " could not be found",
                ),
            },
        ),
    }
}

/// What is said of a key that cannot be read.
pub open spec fn unreadable(key: Seq<char>, reason: Seq<char>) -> crate::db::DbErrorView {
    crate::db::DbErrorView::DataConversion {
        message: "Failed to deserialize "@ + key + " key: "@ + reason,
    }
}

fn unreadable_key(key: &str, reason: String) -> (r: DbError)
    ensures
        r@ == unreadable(key@, reason@),
{
    DbError::DataConversion {
        message: "Failed to deserialize ".to_owned().concat(key).concat(" key: ").concat(
            reason.as_str(),
        ),
    }
}

/// The public keys that two columns hold, or why they hold none.
pub open spec fn read_public_keys(dilithium: Seq<u8>, ed25519: Seq<u8>) -> Result<
    crate::crypto::PublicKeysView,
    crate::db::DbErrorView,
> {
    match crate::domain_proto_conversion::decoded_public_keys(
        crate::crypto::PublicKeysView { dilithium, ed25519 },
    ) {
        Ok(keys) => Ok(keys),
        Err(
            crate::domain_proto_conversion::PublicKeyDeserializationError::PublicDilithium(e),
        ) => Err(unreadable("dilithium public"@, e.text())),
        Err(
            crate::domain_proto_conversion::PublicKeyDeserializationError::PublicEd25519(e),
        ) => Err(unreadable("ed25519 public"@, e.text())),
    }
}

fn public_keys_of(dilithium: Vec<u8>, ed25519: Vec<u8>) -> (r: Result<ContactPublicKeys, DbError>)
    ensures
        reads(r, read_public_keys(dilithium@, ed25519@)),
{
    let dilithium = match deserialize_dilithium_public_key(dilithium) {
        Ok(key) => key,
        Err(e) => return Err(unreadable_key("dilithium public", e.to_text())),
    };
    let ed25519 = match deserialize_ed25519_public_key(ed25519) {
        Ok(key) => key,
        Err(e) => return Err(unreadable_key("ed25519 public", e.to_text())),
    };
    Ok(ContactPublicKeys { dilithium, ed25519 })
}

/// The keys of a contact, or why they cannot be read. There are none where the contact is unknown
/// or lacks one of them.
pub open spec fn read_contact_keys(row: Option<ContactKeysRow>) -> Result<
    Option<crate::crypto::PublicKeysView>,
    crate::db::DbErrorView,
> {
    match row {
        Some(
            ContactKeysRow {
                dilithium_public_key: Some(dilithium),
                ed25519_public_key: Some(ed25519),
            },
        ) => match read_public_keys(dilithium@, ed25519@) {
            Ok(keys) => Ok(Some(keys)),
            Err(e) => Err(e),
        },
        _ => Ok(None),
    }
}

/// The keys of a contact. There are none where the contact is unknown or lacks one of them.
pub fn contact_keys_of(row: Option<ContactKeysRow>) -> (r: Result<
    Option<ContactPublicKeys>,
    DbError,
>)
    ensures
        match r {
            Ok(keys) => read_contact_keys(row) matches Ok(view) && crate::domain_models::opt_view(
                keys,
            ) == view,
            Err(e) => read_contact_keys(row) matches Err(error) && e@ == error,
        },
{
    match row {
        Some(row) => match (row.dilithium_public_key, row.ed25519_public_key) {
            (Some(dilithium), Some(ed25519)) => match public_keys_of(dilithium, ed25519) {
                Ok(keys) => Ok(Some(keys)),
                Err(e) => Err(e),
            },
            _ => Ok(None),
        },
        None => Ok(None),
    }
}

/// The contact of a row, or why there is none.
pub open spec fn read_contact(row: ContactRow) -> Result<
    crate::domain_models::ContactView,
    crate::db::DbErrorView,
> {
    match (row.keys.dilithium_public_key, row.keys.ed25519_public_key) {
        (Some(dilithium), Some(ed25519)) => match read_public_keys(dilithium@, ed25519@) {
            Ok(public_keys) => Ok(
                crate::domain_models::ContactView { id: row.id@, name: row.name@, public_keys },
            ),
            Err(e) => Err(e),
        },
        _ => Err(
            crate::db::DbErrorView::NotFound {
                message: "Contact "@ + row.id@ + " missing public keys"@,
            },
        ),
    }
}

/// The contact of a row.
pub fn contact_of(row: ContactRow) -> (r: Result<Contact, DbError>)
    ensures
        reads(r, read_contact(row)),
{
    match (row.keys.dilithium_public_key, row.keys.ed25519_public_key) {
        (Some(dilithium), Some(ed25519)) => match public_keys_of(dilithium, ed25519) {
            Ok(public_keys) => Ok(Contact { id: ContactId(row.id), name: row.name, public_keys }),
            Err(e) => Err(e),
        },
        _ => Err(
            DbError::NotFound {
                message: "Contact ".to_owned().concat(row.id.as_str()).concat(
                    " missing public keys",
                ),
            },
        ),
    }
}

/// All keys of one's own contact, or the key that cannot be read and why. The dilithium keys are
/// read before the others.
pub open spec fn read_keys(
    dilithium_private: Seq<u8>,
    dilithium_public: Seq<u8>,
    ed25519_private: Seq<u8>,
    ed25519_public: Seq<u8>,
) -> Result<crate::crypto::KeysView, (Seq<char>, Seq<char>)> {
    let missing = crate::crypto::DilithiumDecodeError { got: 0 }.text();
    if dilithium_private.len() < crate::crypto::DILITHIUM_SECRET_KEY_LENGTH {
        Err(("dilithium private"@, missing))
    } else if dilithium_public.len() < crate::crypto::DILITHIUM_PUBLIC_KEY_LENGTH {
        Err(("dilithium public"@, missing))
    } else {
        match crate::domain_proto_conversion::decoded_private_keys(
            crate::crypto::PrivateKeysView {
                dilithium: dilithium_private,
                ed25519: ed25519_private,
            },
        ) {
            Err(
                crate::domain_proto_conversion::PrivateKeyDeserializationError::PrivateDilithium(e),
            ) => Err(("dilithium private"@, e.text())),
            Err(
                crate::domain_proto_conversion::PrivateKeyDeserializationError::PrivateEd25519(e),
            ) => Err(("ed25519 private"@, e.text())),
            Ok(private) => match crate::domain_proto_conversion::decoded_public_keys(
                crate::crypto::PublicKeysView {
                    dilithium: dilithium_public,
                    ed25519: ed25519_public,
                },
            ) {
                Err(
                    crate::domain_proto_conversion::PublicKeyDeserializationError::PublicDilithium(
                        e,
                    ),
                ) => Err(("dilithium public"@, e.text())),
                Err(
                    crate::domain_proto_conversion::PublicKeyDeserializationError::PublicEd25519(e),
                ) => Err(("ed25519 public"@, e.text())),
                Ok(public) => Ok(crate::crypto::KeysView { private, public }),
            },
        }
    }
}

fn keys_of(
    dilithium_private: Vec<u8>,
    dilithium_public: Vec<u8>,
    ed25519_private: Vec<u8>,
    ed25519_public: Vec<u8>,
) -> (r: Result<ContactKeys, (&'static str, String)>)
    ensures
        match r {
            Ok(keys) => read_keys(
                dilithium_private@,
                dilithium_public@,
                ed25519_private@,
                ed25519_public@,
            ) == Ok::<_, (Seq<char>, Seq<char>)>(keys@),
            Err((key, reason)) => read_keys(
                dilithium_private@,
                dilithium_public@,
                ed25519_private@,
                ed25519_public@,
            ) == Err::<crate::crypto::KeysView, _>((key@, reason@)),
        },
{
    let dilithium_private = match deserialize_dilithium_private_key(dilithium_private) {
        Ok(key) => key,
        Err(e) => return Err(("dilithium private", e.to_text())),
    };
    let dilithium_public = match deserialize_dilithium_public_key(dilithium_public) {
        Ok(key) => key,
        Err(e) => return Err(("dilithium public", e.to_text())),
    };
    let ed25519_private = match deserialize_ed25519_private_key(ed25519_private) {
        Ok(key) => key,
        Err(e) => return Err(("ed25519 private", e.to_text())),
    };
    let ed25519_public = match deserialize_ed25519_public_key(ed25519_public) {
        Ok(key) => key,
        Err(e) => return Err(("ed25519 public", e.to_text())),
    };
    Ok(
        ContactKeys {
            private: ContactPrivateKeys { dilithium: dilithium_private, ed25519: ed25519_private },
            public: ContactPublicKeys { dilithium: dilithium_public, ed25519: ed25519_public },
        },
    )
}

/// All keys in the row of the own contact.
pub open spec fn row_keys(row: SelfContactRow) -> Result<
    crate::crypto::KeysView,
    (Seq<char>, Seq<char>),
> {
    read_keys(
        row.dilithium_private_key@,
        row.dilithium_public_key@,
        row.ed25519_private_key@,
        row.ed25519_public_key@,
    )
}

/// What the node is known by, or why it is not known.
pub open spec fn read_node_info(key_bytes: Option<Vec<u8>>, row: Option<SelfContactRow>) -> Result<
    crate::db::NodeInfoView,
    crate::db::DbErrorView,
> {
    match (key_bytes, row) {
        (Some(key_bytes), Some(row)) => match row_keys(row) {
            Ok(keys) => Ok(
                crate::db::NodeInfoView {
                    node_key_pair: key_bytes@,
                    self_contact_id: row.contact_id@,
                    self_contact_keys: keys,
                },
            ),
            Err((key, reason)) => Err(unreadable(key, reason)),
        },
        _ => Err(crate::db::DbErrorView::DataNotYetInitialized),
    }
}

/// What the node is known by. It is not there before the node was started for the first time.
pub fn node_info_of(key_bytes: Option<Vec<u8>>, row: Option<SelfContactRow>) -> (r: Result<
    NodeInfo,
    DbError,
>)
    ensures
        reads(r, read_node_info(key_bytes, row)),
{
    let node_key_pair = match key_bytes {
        Some(key_bytes) => key_bytes,
        None => return Err(DbError::DataNotYetInitialized),
    };
    match row {
        Some(row) => match keys_of(
            row.dilithium_private_key,
            row.dilithium_public_key,
            row.ed25519_private_key,
            row.ed25519_public_key,
        ) {
            Ok(keys) => Ok(
                NodeInfo {
                    node_key_pair,
                    self_contact_id: ContactId(row.contact_id),
                    self_contact_keys: keys,
                },
            ),
            Err((key, reason)) => Err(unreadable_key(key, reason)),
        },
        None => Err(DbError::DataNotYetInitialized),
    }
}

/// What is said of a key of the own contact that cannot be read.
pub open spec fn invalid(key: Seq<char>) -> crate::db::DbErrorView {
    crate::db::DbErrorView::Validation { message: "Could not deserialize "@ + key + " key"@ }
}

fn invalid_key(key: &str) -> (r: DbError)
    ensures
        r@ == invalid(key@),
{
    DbError::Validation {
        message: "Could not deserialize ".to_owned().concat(key).concat(" key"),
    }
}

/// One's own contact, or why it cannot be read.
pub open spec fn read_self_contact(row: SelfContactRow) -> Result<
    crate::domain_models::SelfContactView,
    crate::db::DbErrorView,
> {
    match row_keys(row) {
        Ok(keys) => Ok(
            crate::domain_models::SelfContactView { id: row.contact_id@, name: row.name@, keys },
        ),
        Err((key, _)) => Err(invalid(key)),
    }
}

/// One's own contact.
pub fn self_contact_of(row: SelfContactRow) -> (r: Result<SelfContact, DbError>)
    ensures
        reads(r, read_self_contact(row)),
{
    match keys_of(
        row.dilithium_private_key,
        row.dilithium_public_key,
        row.ed25519_private_key,
        row.ed25519_public_key,
    ) {
        Ok(keys) => Ok(SelfContact { id: ContactId(row.contact_id), name: row.name, keys }),
        Err((key, _)) => Err(invalid_key(key)),
    }
}

/// What others are told of one's own contact, or why it cannot be read.
pub open spec fn read_sharable_contact(row: SharableContactRow) -> Result<
    crate::domain_models::ContactView,
    crate::db::DbErrorView,
> {
    match crate::domain_proto_conversion::decoded_public_keys(
        crate::crypto::PublicKeysView {
            dilithium: row.dilithium_public_key@,
            ed25519: row.ed25519_public_key@,
        },
    ) {
        Ok(public_keys) => Ok(
            crate::domain_models::ContactView {
                id: row.contact_id@,
                name: row.name@,
                public_keys,
            },
        ),
        Err(
            crate::domain_proto_conversion::PublicKeyDeserializationError::PublicDilithium(_),
        ) => Err(invalid("dilithium public"@)),
        Err(
            crate::domain_proto_conversion::PublicKeyDeserializationError::PublicEd25519(_),
        ) => Err(invalid("ed25519 public"@)),
    }
}

/// What others are told of one's own contact.
pub fn sharable_contact_of(row: SharableContactRow) -> (r: Result<Contact, DbError>)
    ensures
        reads(r, read_sharable_contact(row)),
{
    let dilithium = match deserialize_dilithium_public_key(row.dilithium_public_key) {
        Ok(key) => key,
        Err(_) => return Err(invalid_key("dilithium public")),
    };
    let ed25519 = match deserialize_ed25519_public_key(row.ed25519_public_key) {
        Ok(key) => key,
        Err(_) => return Err(invalid_key("ed25519 public")),
    };
    Ok(
        Contact {
            id: ContactId(row.contact_id),
            name: row.name,
            public_keys: ContactPublicKeys { dilithium, ed25519 },
        },
    )
}

/// The reasons that the column lists. A column that lists nothing readable lists none.
pub open spec fn reasons(json: Seq<char>) -> Seq<Seq<char>> {
    match json_strings(json) {
        Some(strings) => strings,
        None => Seq::empty(),
    }
}

/// The reasons that the column lists.
pub fn interruption_reasons_of(json: &str) -> (r: Vec<String>)
    ensures
        crate::domain_models::views(r@) == reasons(json@),
{
    match parse_strings(json) {
        Some(strings) => strings,
        None => {
            let none: Vec<String> = Vec::new();
            assert(crate::domain_models::views(none@) =~= Seq::empty());
            none
        },
    }
}

/// The column with one more reason.
pub fn with_interruption_reason(json: &str, reason: &str) -> (r: String)
    ensures
        r@ == strings_json(reasons(json@).push(reason@)),
        reasons(r@) == reasons(json@).push(reason@),
{
    let mut all = interruption_reasons_of(json);
    let ghost before = all@;
    all.push(reason.to_owned());
    assert(crate::domain_models::views(all@) =~= crate::domain_models::views(before).push(
        reason@,
    ));
    match write_strings(&all) {
        Some(json) => json,
        None => "[]".to_owned(),
    }
}

/// The file to send that a row describes, or why it describes none.
pub open spec fn pending_file(row: PendingFileRow, contact_id: Seq<char>) -> Result<
    crate::domain_models::PendingFileView,
    crate::db::DbErrorView,
> {
    match crate::domain_models::SendStatusView::from_columns(
        row.status@,
        row.progress_bytes,
        row.file_size_bytes,
        crate::domain_models::opt_view(row.transfer_id),
    ) {
        Ok(status) => Ok(
            crate::domain_models::PendingFileView {
                id: row.id@,
                contact_id,
                file_path: row.file_path@,
                retry_count: row.retry_count,
                target_filerequest_id: row.target_filerequest_id@,
                status,
                display_name: crate::domain_models::opt_view(row.display_name),
                interruption_reasons: reasons(row.interruption_reasons@),
            },
        ),
        Err(reason) => Err(
            crate::db::DbErrorView::DataConversion {
                message: "Failed to parse send status: "@ + reason,
            },
        ),
    }
}

/// The file to send that a row describes.
pub fn pending_file_of(row: &PendingFileRow, contact_id: &ContactId) -> (r: Result<
    PendingFile,
    DbError,
>)
    ensures
        reads(r, pending_file(*row, contact_id@)),
{
    let interruption_reasons = interruption_reasons_of(row.interruption_reasons.as_str());
    match SendStatus::from_db_columns(
        row.status.as_str(),
        row.progress_bytes,
        row.file_size_bytes,
        row.transfer_id.clone(),
    ) {
        Ok(status) => Ok(
            PendingFile {
                id: FylesId(row.id.clone()),
                contact_id: contact_id.clone(),
                file_path: row.file_path.clone(),
                retry_count: row.retry_count,
                target_filerequest_id: FylesId(row.target_filerequest_id.clone()),
                status,
                display_name: row.display_name.clone(),
                interruption_reasons,
            },
        ),
        Err(reason) => Err(
            DbError::DataConversion {
                message: "Failed to parse send status: ".to_owned().concat(reason.as_str()),
            },
        ),
    }
}

/// The files of all rows, or what is wrong with the first row that describes none.
pub open spec fn pending_files(rows: Seq<(PendingFileRow, Seq<char>)>) -> Result<
    Seq<crate::domain_models::PendingFileView>,
    crate::db::DbErrorView,
>
    decreases rows.len(),
{
    if rows.len() == 0 {
        Ok(Seq::empty())
    } else {
        match pending_files(rows.drop_last()) {
            Err(e) => Err(e),
            Ok(files) => match pending_file(rows.last().0, rows.last().1) {
                Err(e) => Err(e),
                Ok(file) => Ok(files.push(file)),
            },
        }
    }
}

/// Whether the files, or the error, are those of the rows.
pub open spec fn reads_pending_files(
    got: Result<Vec<PendingFile>, DbError>,
    rows: Seq<(PendingFileRow, Seq<char>)>,
) -> bool {
    match got {
        Ok(files) => pending_files(rows) matches Ok(views) && crate::domain_models::views(files@)
            == views,
        Err(error) => pending_files(rows) matches Err(e) && error@ == e,
    }
}

/// The rows, all for one contact.
pub open spec fn for_contact(rows: Seq<PendingFileRow>, contact_id: Seq<char>) -> Seq<
    (PendingFileRow, Seq<char>),
> {
    Seq::new(rows.len(), |i: int| (rows[i], contact_id))
}

/// The rows, each for the contact that it goes with.
pub open spec fn for_contacts(rows: Seq<(PendingFileRow, ContactId)>) -> Seq<
    (PendingFileRow, Seq<char>),
> {
    Seq::new(rows.len(), |i: int| (rows[i].0, rows[i].1@))
}

proof fn lemma_first_error_stays(rows: Seq<(PendingFileRow, Seq<char>)>, n: int)
    requires
        0 <= n <= rows.len(),
        pending_files(rows.take(n)) is Err,
    ensures
        pending_files(rows) == pending_files(rows.take(n)),
    decreases rows.len(),
{
    if n == rows.len() {
        assert(rows.take(n) =~= rows);
    } else {
        assert(rows.drop_last().take(n) =~= rows.take(n));
        lemma_first_error_stays(rows.drop_last(), n);
    }
}

/// The files of rows that are all for one contact.
pub fn pending_files_for(rows: &Vec<PendingFileRow>, contact_id: &ContactId) -> (r: Result<
    Vec<PendingFile>,
    DbError,
>)
    ensures
        reads_pending_files(r, for_contact(rows@, contact_id@)),
{
    let ghost all = for_contact(rows@, contact_id@);
    let mut files: Vec<PendingFile> = Vec::new();
    let mut i: usize = 0;
    proof {
        assert(all.take(0) =~= Seq::empty());
        assert(crate::domain_models::views(files@) =~= Seq::empty());
    }
    while i < rows.len()
        invariant
            i <= rows@.len(),
            all == for_contact(rows@, contact_id@),
            pending_files(all.take(i as int)) matches Ok(views) && views
                == crate::domain_models::views(files@),
        decreases rows@.len() - i,
    {
        proof {
            assert(all.take(i + 1).drop_last() =~= all.take(i as int));
            assert(all.take(i + 1).last() == all[i as int]);
        }
        match pending_file_of(&rows[i], contact_id) {
            Ok(file) => {
                let ghost before = files@;
                files.push(file);
                assert(crate::domain_models::views(files@) =~= crate::domain_models::views(
                    before,
                ).push(file@));
            },
            Err(e) => {
                proof {
                    lemma_first_error_stays(all, i + 1);
                }
                return Err(e);
            },
        }
        i = i + 1;
    }
    assert(all.take(i as int) =~= all);
    Ok(files)
}

/// The files of rows that each go with the contact that they are for.
pub fn pending_files_of(rows: &Vec<(PendingFileRow, ContactId)>) -> (r: Result<
    Vec<PendingFile>,
    DbError,
>)
    ensures
        reads_pending_files(r, for_contacts(rows@)),
{
    let ghost all = for_contacts(rows@);
    let mut files: Vec<PendingFile> = Vec::new();
    let mut i: usize = 0;
    proof {
        assert(all.take(0) =~= Seq::empty());
        assert(crate::domain_models::views(files@) =~= Seq::empty());
    }
    while i < rows.len()
        invariant
            i <= rows@.len(),
            all == for_contacts(rows@),
            pending_files(all.take(i as int)) matches Ok(views) && views
                == crate::domain_models::views(files@),
        decreases rows@.len() - i,
    {
        proof {
            assert(all.take(i + 1).drop_last() =~= all.take(i as int));
            assert(all.take(i + 1).last() == all[i as int]);
        }
        match pending_file_of(&rows[i].0, &rows[i].1) {
            Ok(file) => {
                let ghost before = files@;
                files.push(file);
                assert(crate::domain_models::views(files@) =~= crate::domain_models::views(
                    before,
                ).push(file@));
            },
            Err(e) => {
                proof {
                    lemma_first_error_stays(all, i + 1);
                }
                return Err(e);
            },
        }
        i = i + 1;
    }
    assert(all.take(i as int) =~= all);
    Ok(files)
}

/// The received file of a row.
pub open spec fn received_file(row: ReceivedFileRow) -> crate::domain_models::ReceivedFileView {
    crate::domain_models::ReceivedFileView {
        id: row.id@,
        contact_id: crate::domain_models::opt_view(row.contact_id),
        peer_id: row.peer_id@,
        filerequest_id: row.filerequest_id@,
        transfer_id: crate::domain_models::opt_view(row.transfer_id),
        file_name: row.file_name@,
        file_path: crate::domain_models::opt_view(row.file_path),
        file_size_bytes: row.file_size_bytes as u64,
        progress_bytes: row.progress_bytes as u64,
        status: crate::domain_models::ReceiveStatusView::from_column(row.status@),
        started_at_ms: row.started_at_ms,
        received_at_ms: row.received_at_ms,
    }
}

/// The received file of a row.
pub fn received_file_of(row: ReceivedFileRow) -> (r: ReceivedFile)
    ensures
        r@ == received_file(row),
{
    let contact_id = match row.contact_id {
        Some(id) => Some(ContactId(id)),
        None => None,
    };
    let transfer_id = match row.transfer_id {
        Some(id) => Some(FylesId(id)),
        None => None,
    };
    ReceivedFile {
        id: FylesId(row.id),
        contact_id,
        peer_id: row.peer_id,
        filerequest_id: FylesId(row.filerequest_id),
        transfer_id,
        file_name: row.file_name,
        file_path: row.file_path,
        file_size_bytes: row.file_size_bytes as u64,
        progress_bytes: row.progress_bytes as u64,
        status: ReceiveStatus::from_db_column(row.status.as_str()),
        started_at_ms: row.started_at_ms,
        received_at_ms: row.received_at_ms,
    }
}

/// What is said of a file request that cannot be updated, since it is not there.
pub open spec fn no_filerequest() -> crate::db::DbErrorView {
    crate::db::DbErrorView::missing(
        "filerequests"@,
        OperationType::Update,
        "Update Filerequest"@,
        "Filerequest not found"@,
    )
}

/// Whether a file request was updated.
pub fn filerequest_updated(changes: usize) -> (r: Result<(), DbError>)
    ensures
        match r {
            Ok(_) => changes > 0,
            Err(e) => changes == 0 && e@ == no_filerequest(),
        },
{
    if changes == 0 {
        return Err(
            missing(
                "filerequests",
                OperationType::Update,
                "Update Filerequest",
                "Filerequest not found",
            ),
        );
    }
    Ok(())
}

/// What is said of a contact that cannot be deleted, since it is not there.
pub open spec fn no_contact() -> crate::db::DbErrorView {
    crate::db::DbErrorView::missing(
        "contacts"@,
        OperationType::Delete,
        "Delete contact"@,
        "Contact not found"@,
    )
}

/// Whether a contact was deleted.
pub fn contact_deleted(changes: usize) -> (r: Result<(), DbError>)
    ensures
        match r {
            Ok(_) => changes > 0,
            Err(e) => changes == 0 && e@ == no_contact(),
        },
{
    if changes == 0 {
        return Err(
            missing("contacts", OperationType::Delete, "Delete contact", "Contact not found"),
        );
    }
    Ok(())
}

/// What is said of a received file that is not there.
pub open spec fn no_received_file(by: Seq<char>, id: Seq<char>) -> crate::db::DbErrorView {
    crate::db::DbErrorView::NotFound {
        message: "Received file with "@ + by + " "@ + id + " not found"@,
    }
}

fn missing_received_file(by: &str, id: &str) -> (r: DbError)
    ensures
        r@ == no_received_file(by@, id@),
{
    DbError::NotFound {
        message: "Received file with ".to_owned().concat(by).concat(" ").concat(id).concat(
            " not found",
        ),
    }
}

/// Whether the status of a received file was updated.
pub fn received_status_updated(changes: usize, transfer_id: &FylesId) -> (r: Result<(), DbError>)
    ensures
        match r {
            Ok(_) => changes > 0,
            Err(e) => changes == 0 && e@ == no_received_file("transfer_id"@, transfer_id@),
        },
{
    if changes == 0 {
        return Err(missing_received_file("transfer_id", transfer_id.0.as_str()));
    }
    Ok(())
}

/// Whether a received file was deleted.
pub fn received_file_deleted(changes: usize, id: &FylesId) -> (r: Result<(), DbError>)
    ensures
        match r {
            Ok(_) => changes > 0,
            Err(e) => changes == 0 && e@ == no_received_file("id"@, id@),
        },
{
    if changes == 0 {
        return Err(missing_received_file("id", id.0.as_str()));
    }
    Ok(())
}

/// The settings that were stored last, empty where none were.
pub fn settings_of(data: Option<Vec<u8>>) -> (r: Vec<u8>)
    ensures
        match data {
            Some(bytes) => r@ == bytes@,
            None => r@.len() == 0,
        },
{
    match data {
        Some(bytes) => bytes,
        None => Vec::new(),
    }
}

} // verus!
