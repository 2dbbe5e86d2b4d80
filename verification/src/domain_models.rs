//! The records that the service keeps and exchanges.
use vstd::prelude::*;

use crate::crypto::{ContactKeys, ContactPublicKeys};
use crate::text::str_eq;
use crate::util::duration_ext::{Duration, DurationExt};

verus! {

/// The views of the items, in order.
pub open spec fn views<T: View>(items: Seq<T>) -> Seq<T::V> {
    items.map_values(|item: T| item@)
}

/// The view of the item, where there is one.
pub open spec fn opt_view<T: View>(item: Option<T>) -> Option<T::V> {
    match item {
        Some(item) => Some(item@),
        None => None,
    }
}

/// Whether the text is a random UUID in its hyphenated form, in lower case.
pub open spec fn is_uuid(text: Seq<char>) -> bool {
    &&& text.len() == 36
    &&& forall|i: int| 0 <= i < 36 ==> is_uuid_char(i, #[trigger] text[i])
    &&& text[14] == '4'
    &&& text[19] == '8' || text[19] == '9' || text[19] == 'a' || text[19] == 'b'
}

/// Whether the character can stand at the place in a UUID.
pub open spec fn is_uuid_char(i: int, c: char) -> bool {
    if i == 8 || i == 13 || i == 18 || i == 23 {
        c == '-'
    } else {
        '0' <= c <= '9' || 'a' <= c <= 'f'
    }
}

/// `uuid::Uuid::new_v4` in its hyphenated form: which one is left to chance.
#[verifier::external_body]
fn new_uuid() -> (r: String)
    ensures
        is_uuid(r@),
{
    uuid::Uuid::new_v4().to_string()
}

/// Whether this text can be drawn for a new UUID.
pub closed spec fn can_be_new_uuid(text: Seq<char>) -> bool {
    exists|uuid: String| uuid@ == text && #[trigger] call_ensures(new_uuid, (), uuid)
}

/// A new UUID.
fn draw_uuid() -> (r: String)
    ensures
        is_uuid(r@),
        can_be_new_uuid(r@),
{
    let uuid = new_uuid();
    assert(call_ensures(new_uuid, (), uuid));
    uuid
}

pub fn clone_strings(items: &Vec<String>) -> (r: Vec<String>)
    ensures
        r@ == items@,
{
    let r = items.clone();
    assert(r@ =~= items@);
    r
}

pub fn clone_file_infos(items: &Vec<FileInfo>) -> (r: Vec<FileInfo>)
    ensures
        r@ == items@,
{
    let r = items.clone();
    assert(r@ =~= items@);
    r
}

pub fn clone_contact_ids(items: &Vec<ContactId>) -> (r: Vec<ContactId>)
    ensures
        r@ == items@,
{
    let r = items.clone();
    assert(r@ =~= items@);
    r
}

/// Identifies a contact.
#[derive(Debug, PartialEq, Eq, Hash)]
pub struct ContactId(pub String);

impl View for ContactId {
    type V = Seq<char>;

    open spec fn view(&self) -> Seq<char> {
        self.0@
    }
}

impl Clone for ContactId {
    fn clone(&self) -> (r: Self)
        ensures
            r == *self,
    {
        ContactId(self.0.clone())
    }
}

impl ContactId {
    /// Whether both identifiers are the same.
    pub fn same(&self, other: &Self) -> (r: bool)
        ensures
            r == (self@ == other@),
    {
        self.0 == other.0
    }
}

impl From<String> for ContactId {
    fn from(id: String) -> (r: Self) {
        ContactId(id)
    }
}

impl vstd::std_specs::convert::FromSpecImpl<String> for ContactId {
    open spec fn obeys_from_spec() -> bool {
        true
    }

    open spec fn from_spec(id: String) -> Self {
        ContactId(id)
    }
}

impl From<&str> for ContactId {
    fn from(id: &str) -> (r: Self)
        ensures
            r@ == id@,
    {
        ContactId(id.to_owned())
    }
}

impl vstd::std_specs::convert::FromSpecImpl<&str> for ContactId {
    open spec fn obeys_from_spec() -> bool {
        false
    }

    open spec fn from_spec(id: &str) -> Self {
        arbitrary()
    }
}

impl ContactId {
    /// A new, random identifier.
    pub fn new() -> (r: Self)
        ensures
            is_uuid(r@),
            can_be_new_uuid(r@),
    {
        ContactId(draw_uuid())
    }
}

impl Default for ContactId {
    fn default() -> (r: Self)
        ensures
            is_uuid(r@),
            can_be_new_uuid(r@),
    {
        Self::new()
    }
}

/// Identifies a record of the service.
#[derive(Debug, PartialEq, Eq, Hash)]
pub struct FylesId(pub String);

impl View for FylesId {
    type V = Seq<char>;

    open spec fn view(&self) -> Seq<char> {
        self.0@
    }
}

impl Clone for FylesId {
    fn clone(&self) -> (r: Self)
        ensures
            r == *self,
    {
        FylesId(self.0.clone())
    }
}

impl FylesId {
    /// Whether both identifiers are the same.
    pub fn same(&self, other: &Self) -> (r: bool)
        ensures
            r == (self@ == other@),
    {
        self.0 == other.0
    }
}

impl From<String> for FylesId {
    fn from(id: String) -> (r: Self) {
        FylesId(id)
    }
}

impl vstd::std_specs::convert::FromSpecImpl<String> for FylesId {
    open spec fn obeys_from_spec() -> bool {
        true
    }

    open spec fn from_spec(id: String) -> Self {
        FylesId(id)
    }
}

impl From<&str> for FylesId {
    fn from(id: &str) -> (r: Self)
        ensures
            r@ == id@,
    {
        FylesId(id.to_owned())
    }
}

impl vstd::std_specs::convert::FromSpecImpl<&str> for FylesId {
    open spec fn obeys_from_spec() -> bool {
        false
    }

    open spec fn from_spec(id: &str) -> Self {
        arbitrary()
    }
}

impl FylesId {
    /// A new, random identifier.
    pub fn new() -> (r: Self)
        ensures
            is_uuid(r@),
            can_be_new_uuid(r@),
    {
        FylesId(draw_uuid())
    }
}

impl Default for FylesId {
    fn default() -> (r: Self)
        ensures
            is_uuid(r@),
            can_be_new_uuid(r@),
    {
        Self::new()
    }
}

/// Identifies a device in the network.
#[derive(Debug, PartialEq, Eq, Hash)]
pub struct PeerIdWrapper(pub String);

impl View for PeerIdWrapper {
    type V = Seq<char>;

    open spec fn view(&self) -> Seq<char> {
        self.0@
    }
}

impl Clone for PeerIdWrapper {
    fn clone(&self) -> (r: Self)
        ensures
            r == *self,
    {
        PeerIdWrapper(self.0.clone())
    }
}

impl PeerIdWrapper {
    /// Whether both identifiers are the same.
    pub fn same(&self, other: &Self) -> (r: bool)
        ensures
            r == (self@ == other@),
    {
        self.0 == other.0
    }
}

impl From<String> for PeerIdWrapper {
    fn from(id: String) -> (r: Self) {
        PeerIdWrapper(id)
    }
}

impl vstd::std_specs::convert::FromSpecImpl<String> for PeerIdWrapper {
    open spec fn obeys_from_spec() -> bool {
        true
    }

    open spec fn from_spec(id: String) -> Self {
        PeerIdWrapper(id)
    }
}

impl PeerIdWrapper {
    /// An id that no other peer has.
    pub fn for_test() -> (r: Self)
        ensures
            is_uuid(r@),
            can_be_new_uuid(r@),
    {
        PeerIdWrapper(draw_uuid())
    }
}

impl From<&str> for PeerIdWrapper {
    fn from(id: &str) -> (r: Self)
        ensures
            r@ == id@,
    {
        PeerIdWrapper(id.to_owned())
    }
}

impl vstd::std_specs::convert::FromSpecImpl<&str> for PeerIdWrapper {
    open spec fn obeys_from_spec() -> bool {
        false
    }

    open spec fn from_spec(id: &str) -> Self {
        arbitrary()
    }
}

/// Who may drop files for a file request.
#[derive(Debug)]
pub enum FilerequestAccess {
    Public,
    Audience { contact_ids: Vec<ContactId> },
}

pub ghost enum AccessView {
    Public,
    Audience { contact_ids: Seq<Seq<char>> },
}

impl View for FilerequestAccess {
    type V = AccessView;

    open spec fn view(&self) -> AccessView {
        match *self {
            FilerequestAccess::Public => AccessView::Public,
            FilerequestAccess::Audience { contact_ids } => AccessView::Audience {
                contact_ids: views(contact_ids@),
            },
        }
    }
}

impl AccessView {
    /// A public request is open to everybody, known or not; any other one to its audience.
    pub open spec fn admits(self, contact_id: Option<Seq<char>>) -> bool {
        match self {
            AccessView::Public => true,
            AccessView::Audience { contact_ids } => match contact_id {
                Some(id) => contact_ids.contains(id),
                None => false,
            },
        }
    }
}

impl Clone for FilerequestAccess {
    fn clone(&self) -> (r: Self)
        ensures
            r@ == self@,
    {
        match self {
            FilerequestAccess::Public => FilerequestAccess::Public,
            FilerequestAccess::Audience { contact_ids } => FilerequestAccess::Audience {
                contact_ids: clone_contact_ids(contact_ids),
            },
        }
    }
}

/// Whether `id` stands among `ids`.
pub fn contains_contact(ids: &Vec<ContactId>, id: &ContactId) -> (r: bool)
    ensures
        r == views(ids@).contains(id@),
{
    let mut i: usize = 0;
    while i < ids.len()
        invariant
            i <= ids.len(),
            forall|j: int| 0 <= j < i ==> views(ids@)[j] != id@,
        decreases ids.len() - i,
    {
        if ids[i].same(id) {
            assert(views(ids@)[i as int] == id@);
            return true;
        }
        i = i + 1;
    }
    false
}

impl FilerequestAccess {
    pub fn is_accessible_by(&self, contact_id: Option<ContactId>) -> (r: bool)
        ensures
            r == self@.admits(opt_view(contact_id)),
    {
        match self {
            FilerequestAccess::Public => true,
            FilerequestAccess::Audience { contact_ids } => match contact_id {
                Some(id) => contains_contact(contact_ids, &id),
                None => false,
            },
        }
    }
}

/// A request for files, made by this node.
#[derive(Debug)]
pub struct Filerequest {
    pub id: FylesId,
    pub title: String,
    pub description: String,
    pub access: FilerequestAccess,
    pub is_active: bool,
}

pub ghost struct FilerequestView {
    pub id: Seq<char>,
    pub title: Seq<char>,
    pub description: Seq<char>,
    pub access: AccessView,
    pub is_active: bool,
}

impl View for Filerequest {
    type V = FilerequestView;

    open spec fn view(&self) -> FilerequestView {
        FilerequestView {
            id: self.id@,
            title: self.title@,
            description: self.description@,
            access: self.access@,
            is_active: self.is_active,
        }
    }
}

impl Clone for Filerequest {
    fn clone(&self) -> (r: Self)
        ensures
            r@ == self@,
    {
        Filerequest {
            id: self.id.clone(),
            title: self.title.clone(),
            description: self.description.clone(),
            access: self.access.clone(),
            is_active: self.is_active,
        }
    }
}

/// What a new file request is made of.
#[derive(Debug)]
pub struct CreateFilerequest {
    pub title: String,
    pub description: String,
    pub access: FilerequestAccess,
    pub is_active: bool,
}

pub ghost struct CreateFilerequestView {
    pub title: Seq<char>,
    pub description: Seq<char>,
    pub access: AccessView,
    pub is_active: bool,
}

impl View for CreateFilerequest {
    type V = CreateFilerequestView;

    open spec fn view(&self) -> CreateFilerequestView {
        CreateFilerequestView {
            title: self.title@,
            description: self.description@,
            access: self.access@,
            is_active: self.is_active,
        }
    }
}

impl Clone for CreateFilerequest {
    fn clone(&self) -> (r: Self)
        ensures
            r@ == self@,
    {
        CreateFilerequest {
            title: self.title.clone(),
            description: self.description.clone(),
            access: self.access.clone(),
            is_active: self.is_active,
        }
    }
}

/// A person or entity, as others know it.
#[derive(Debug)]
pub struct Contact {
    pub id: ContactId,
    pub name: String,
    pub public_keys: ContactPublicKeys,
}

pub ghost struct ContactView {
    pub id: Seq<char>,
    pub name: Seq<char>,
    pub public_keys: crate::crypto::PublicKeysView,
}

impl View for Contact {
    type V = ContactView;

    open spec fn view(&self) -> ContactView {
        ContactView {
            id: self.id@,
            name: self.name@,
            public_keys: self.public_keys@,
        }
    }
}

impl Clone for Contact {
    fn clone(&self) -> (r: Self)
        ensures
            r@ == self@,
    {
        Contact {
            id: self.id.clone(),
            name: self.name.clone(),
            public_keys: self.public_keys.clone(),
        }
    }
}

impl Contact {
    /// A contact with new keys.
    pub fn for_test() -> (r: Self)
        ensures
            is_uuid(r@.id),
            can_be_new_uuid(r@.id),
            r@.name == "Test Contact"@,
            exists|keys: crate::crypto::KeysView| #[trigger]
                crate::crypto::are_new_keys(keys) && keys.public == r@.public_keys,
    {
        Contact {
            id: ContactId::new(),
            name: "Test Contact".to_owned(),
            public_keys: ContactPublicKeys::new(),
        }
    }
}

/// What is shown of a contact.
#[derive(Debug)]
pub struct DisplayContact {
    pub id: ContactId,
    pub name: String,
}

pub ghost struct DisplayContactView {
    pub id: Seq<char>,
    pub name: Seq<char>,
}

impl View for DisplayContact {
    type V = DisplayContactView;

    open spec fn view(&self) -> DisplayContactView {
        DisplayContactView {
            id: self.id@,
            name: self.name@,
        }
    }
}

impl Clone for DisplayContact {
    fn clone(&self) -> (r: Self)
        ensures
            r == *self,
    {
        DisplayContact {
            id: self.id.clone(),
            name: self.name.clone(),
        }
    }
}

impl From<Contact> for DisplayContact {
    fn from(contact: Contact) -> (r: Self) {
        DisplayContact { id: contact.id, name: contact.name }
    }
}

impl vstd::std_specs::convert::FromSpecImpl<Contact> for DisplayContact {
    open spec fn obeys_from_spec() -> bool {
        true
    }

    open spec fn from_spec(contact: Contact) -> Self {
        DisplayContact { id: contact.id, name: contact.name }
    }
}

/// One's own contact, with all of its keys.
#[derive(Debug)]
pub struct SelfContact {
    pub id: ContactId,
    pub name: String,
    pub keys: ContactKeys,
}

pub ghost struct SelfContactView {
    pub id: Seq<char>,
    pub name: Seq<char>,
    pub keys: crate::crypto::KeysView,
}

impl View for SelfContact {
    type V = SelfContactView;

    open spec fn view(&self) -> SelfContactView {
        SelfContactView {
            id: self.id@,
            name: self.name@,
            keys: self.keys@,
        }
    }
}

impl Clone for SelfContact {
    fn clone(&self) -> (r: Self)
        ensures
            r@ == self@,
    {
        SelfContact {
            id: self.id.clone(),
            name: self.name.clone(),
            keys: self.keys.clone(),
        }
    }
}

/// How far a transfer has come.
#[derive(Debug, PartialEq)]
pub struct TransferData {
    pub progress_bytes: u64,
    pub file_size_bytes: u64,
    pub transfer_id: FylesId,
}

pub ghost struct TransferDataView {
    pub progress_bytes: u64,
    pub file_size_bytes: u64,
    pub transfer_id: Seq<char>,
}

impl View for TransferData {
    type V = TransferDataView;

    open spec fn view(&self) -> TransferDataView {
        TransferDataView {
            progress_bytes: self.progress_bytes,
            file_size_bytes: self.file_size_bytes,
            transfer_id: self.transfer_id@,
        }
    }
}

impl Clone for TransferData {
    fn clone(&self) -> (r: Self)
        ensures
            r == *self,
    {
        TransferData {
            progress_bytes: self.progress_bytes,
            file_size_bytes: self.file_size_bytes,
            transfer_id: self.transfer_id.clone(),
        }
    }
}

/// The stages of a transfer that is under way.
#[derive(Clone, Copy, Debug, PartialEq, Eq, Structural)]
pub enum InProgressSendStatus {
    Prepared,
    Sending,
    Interrupted,
    /// All bytes are transferred, but the receiving peer has not acknowledged them yet.
    /// This status is ephemeral and is never written to the database.
    PendingSent,
}

/// A transfer that is under way.
#[derive(Debug, PartialEq)]
pub struct InProgress {
    pub status: InProgressSendStatus,
    pub transfer_data: TransferData,
}

impl Clone for InProgress {
    fn clone(&self) -> (r: Self)
        ensures
            r == *self,
    {
        InProgress { status: self.status, transfer_data: self.transfer_data.clone() }
    }
}

/// The status of a file that is to be sent.
#[derive(Debug, PartialEq)]
pub enum SendStatus {
    Pending,
    InProgress(InProgress),
    Sent,
    Rejected,
    Failed,
    /// A status that is not recognized, such as one that a newer version of the software wrote
    /// to the database.
    Unknown(String),
}

pub ghost enum SendStatusView {
    Pending,
    InProgress { status: InProgressSendStatus, transfer_data: TransferDataView },
    Sent,
    Rejected,
    Failed,
    Unknown(Seq<char>),
}

impl View for SendStatus {
    type V = SendStatusView;

    open spec fn view(&self) -> SendStatusView {
        match *self {
            SendStatus::Pending => SendStatusView::Pending,
            SendStatus::InProgress(in_progress) => SendStatusView::InProgress {
                status: in_progress.status,
                transfer_data: in_progress.transfer_data@,
            },
            SendStatus::Sent => SendStatusView::Sent,
            SendStatus::Rejected => SendStatusView::Rejected,
            SendStatus::Failed => SendStatusView::Failed,
            SendStatus::Unknown(status) => SendStatusView::Unknown(status@),
        }
    }
}

impl SendStatusView {
    /// Whether the file may still be sent.
    pub open spec fn is_unfinished(self) -> bool {
        self is Pending || self is InProgress
    }

    /// The tag that stands for the status in the database, or why there is none.
    pub open spec fn tag(self) -> Result<Seq<char>, Seq<char>> {
        match self {
            SendStatusView::Pending => Ok("Pending"@),
            SendStatusView::InProgress { status, .. } => match status {
                InProgressSendStatus::Prepared => Err(
                    "Prepared is an ephemeral status and must not be persisted"@,
                ),
                InProgressSendStatus::Sending => Ok("Sending"@),
                InProgressSendStatus::Interrupted => Ok("Interrupted"@),
                InProgressSendStatus::PendingSent => Err(
                    "PendingSent is an ephemeral status and must not be persisted"@,
                ),
            },
            SendStatusView::Sent => Ok("Sent"@),
            SendStatusView::Rejected => Ok("Rejected"@),
            SendStatusView::Failed => Ok("Failed"@),
            SendStatusView::Unknown(status) => Err(
                "Unknown status '"@ + status + "' must not be persisted"@,
            ),
        }
    }

    /// The status as it is shown.
    pub open spec fn text(self) -> Seq<char> {
        match self {
            SendStatusView::Pending => "Pending"@,
            SendStatusView::InProgress { status, .. } => match status {
                InProgressSendStatus::Prepared => "Prepared"@,
                InProgressSendStatus::Sending => "Sending"@,
                InProgressSendStatus::Interrupted => "Interrupted"@,
                InProgressSendStatus::PendingSent => "PendingSent"@,
            },
            SendStatusView::Sent => "Sent"@,
            SendStatusView::Rejected => "Rejected"@,
            SendStatusView::Failed => "Failed"@,
            SendStatusView::Unknown(status) => status,
        }
    }

    pub open spec fn transfer_data(self) -> Option<TransferDataView> {
        match self {
            SendStatusView::InProgress { transfer_data, .. } => Some(transfer_data),
            _ => None,
        }
    }

    /// The status that the columns of the database stand for.
    pub open spec fn from_columns(
        tag: Seq<char>,
        progress_bytes: Option<u64>,
        file_size_bytes: Option<u64>,
        transfer_id: Option<Seq<char>>,
    ) -> Result<SendStatusView, Seq<char>> {
        let transfer_data = match (progress_bytes, file_size_bytes, transfer_id) {
            (Some(progress_bytes), Some(file_size_bytes), Some(transfer_id)) => Some(
                TransferDataView { progress_bytes, file_size_bytes, transfer_id },
            ),
            _ => None,
        };
        if tag == "Pending"@ {
            Ok(SendStatusView::Pending)
        } else if tag == "Prepared"@ {
            Err("Prepared status is ephemeral and must not be persisted to DB"@)
        } else if tag == "Sending"@ {
            match transfer_data {
                Some(transfer_data) => Ok(
                    SendStatusView::InProgress {
                        status: InProgressSendStatus::Sending,
                        transfer_data,
                    },
                ),
                None => Err("Sending status requires transfer data but columns are NULL"@),
            }
        } else if tag == "Interrupted"@ {
            match transfer_data {
                Some(transfer_data) => Ok(
                    SendStatusView::InProgress {
                        status: InProgressSendStatus::Interrupted,
                        transfer_data,
                    },
                ),
                None => Err("Interrupted status requires transfer data but columns are NULL"@),
            }
        } else if tag == "Sent"@ {
            Ok(SendStatusView::Sent)
        } else if tag == "Rejected"@ {
            Ok(SendStatusView::Rejected)
        } else if tag == "Failed"@ {
            Ok(SendStatusView::Failed)
        } else {
            Ok(SendStatusView::Unknown(tag))
        }
    }
}

impl Clone for SendStatus {
    fn clone(&self) -> (r: Self)
        ensures
            r == *self,
    {
        match self {
            SendStatus::Pending => SendStatus::Pending,
            SendStatus::InProgress(in_progress) => SendStatus::InProgress(in_progress.clone()),
            SendStatus::Sent => SendStatus::Sent,
            SendStatus::Rejected => SendStatus::Rejected,
            SendStatus::Failed => SendStatus::Failed,
            SendStatus::Unknown(status) => SendStatus::Unknown(status.clone()),
        }
    }
}

impl From<InProgress> for SendStatus {
    fn from(value: InProgress) -> (r: Self) {
        SendStatus::InProgress(value)
    }
}

impl vstd::std_specs::convert::FromSpecImpl<InProgress> for SendStatus {
    open spec fn obeys_from_spec() -> bool {
        true
    }

    open spec fn from_spec(value: InProgress) -> Self {
        SendStatus::InProgress(value)
    }
}

impl SendStatus {
    /// Returns the status tag string used for DB persistence.
    ///
    /// Returns `Err` for statuses that must not be persisted: `Prepared`, `PendingSent` and
    /// `Unknown`.
    pub fn status_tag(&self) -> (r: Result<&'static str, String>)
        ensures
            match r {
                Ok(tag) => self@.tag() == Ok::<Seq<char>, Seq<char>>(tag@),
                Err(reason) => self@.tag() == Err::<Seq<char>, Seq<char>>(reason@),
            },
    {
        match self {
            SendStatus::Pending => Ok("Pending"),
            SendStatus::InProgress(in_progress) => match in_progress.status {
                InProgressSendStatus::Prepared => Err(
                    "Prepared is an ephemeral status and must not be persisted".to_owned(),
                ),
                InProgressSendStatus::Sending => Ok("Sending"),
                InProgressSendStatus::Interrupted => Ok("Interrupted"),
                InProgressSendStatus::PendingSent => Err(
                    "PendingSent is an ephemeral status and must not be persisted".to_owned(),
                ),
            },
            SendStatus::Sent => Ok("Sent"),
            SendStatus::Rejected => Ok("Rejected"),
            SendStatus::Failed => Ok("Failed"),
            SendStatus::Unknown(status) => Err(
                "Unknown status '".to_owned().concat(status.as_str()).concat(
                    "' must not be persisted",
                ),
            ),
        }
    }

    /// Returns the transfer data associated with this status, if any.
    pub fn transfer_data(&self) -> (r: Option<&TransferData>)
        ensures
            match r {
                Some(data) => self matches SendStatus::InProgress(in_progress)
                    && in_progress.transfer_data == *data,
                None => !(self is InProgress),
            },
    {
        match self {
            SendStatus::InProgress(in_progress) => Some(&in_progress.transfer_data),
            _ => None,
        }
    }

    /// Whether the file may still be sent.
    pub fn is_unfinished(&self) -> (r: bool)
        ensures
            r == self@.is_unfinished(),
    {
        match self {
            SendStatus::Pending => true,
            SendStatus::InProgress(_) => true,
            _ => false,
        }
    }

    /// Reconstructs a `SendStatus` from its DB columns.
    ///
    /// Returns `Err` if the stored data is inconsistent, such as a status that requires transfer
    /// data while the columns are NULL.
    pub fn from_db_columns(
        status_tag: &str,
        progress_bytes: Option<u64>,
        file_size_bytes: Option<u64>,
        transfer_id: Option<String>,
    ) -> (r: Result<Self, String>)
        ensures
            match r {
                Ok(status) => SendStatusView::from_columns(
                    status_tag@,
                    progress_bytes,
                    file_size_bytes,
                    opt_view(transfer_id),
                ) == Ok::<SendStatusView, Seq<char>>(status@),
                Err(reason) => SendStatusView::from_columns(
                    status_tag@,
                    progress_bytes,
                    file_size_bytes,
                    opt_view(transfer_id),
                ) == Err::<SendStatusView, Seq<char>>(reason@),
            },
    {
        let transfer_data = match (progress_bytes, file_size_bytes, transfer_id) {
            (Some(progress_bytes), Some(file_size_bytes), Some(transfer_id)) => Some(
                TransferData { progress_bytes, file_size_bytes, transfer_id: FylesId(transfer_id) },
            ),
            _ => None,
        };
        if str_eq(status_tag, "Pending") {
            Ok(SendStatus::Pending)
        } else if str_eq(status_tag, "Prepared") {
            Err("Prepared status is ephemeral and must not be persisted to DB".to_owned())
        } else if str_eq(status_tag, "Sending") {
            match transfer_data {
                Some(transfer_data) => Ok(
                    SendStatus::InProgress(
                        InProgress { status: InProgressSendStatus::Sending, transfer_data },
                    ),
                ),
                None =>
                    Err("Sending status requires transfer data but columns are NULL".to_owned()),
            }
        } else if str_eq(status_tag, "Interrupted") {
            match transfer_data {
                Some(transfer_data) => Ok(
                    SendStatus::InProgress(
                        InProgress { status: InProgressSendStatus::Interrupted, transfer_data },
                    ),
                ),
                None => Err(
                    "Interrupted status requires transfer data but columns are NULL".to_owned(),
                ),
            }
        } else if str_eq(status_tag, "Sent") {
            Ok(SendStatus::Sent)
        } else if str_eq(status_tag, "Rejected") {
            Ok(SendStatus::Rejected)
        } else if str_eq(status_tag, "Failed") {
            Ok(SendStatus::Failed)
        } else {
            Ok(SendStatus::Unknown(status_tag.to_owned()))
        }
    }

    /// The status as it is shown.
    pub fn to_text(&self) -> (r: String)
        ensures
            r@ == self@.text(),
    {
        match self {
            SendStatus::Pending => "Pending".to_owned(),
            SendStatus::InProgress(in_progress) => match in_progress.status {
                InProgressSendStatus::Prepared => "Prepared".to_owned(),
                InProgressSendStatus::Sending => "Sending".to_owned(),
                InProgressSendStatus::Interrupted => "Interrupted".to_owned(),
                InProgressSendStatus::PendingSent => "PendingSent".to_owned(),
            },
            SendStatus::Sent => "Sent".to_owned(),
            SendStatus::Rejected => "Rejected".to_owned(),
            SendStatus::Failed => "Failed".to_owned(),
            SendStatus::Unknown(status) => status.clone(),
        }
    }
}

/// A status that can be written to the database is the one that is read from it.
pub proof fn law_send_status_round_trip(status: SendStatusView)
    requires
        status.tag() is Ok,
    ensures
        ({
            let data = status.transfer_data();
            SendStatusView::from_columns(
                status.tag()->Ok_0,
                match data {
                    Some(data) => Some(data.progress_bytes),
                    None => None,
                },
                match data {
                    Some(data) => Some(data.file_size_bytes),
                    None => None,
                },
                match data {
                    Some(data) => Some(data.transfer_id),
                    None => None,
                },
            )
        }) == Ok::<SendStatusView, Seq<char>>(status),
{
    reveal_strlit("Pending");
    reveal_strlit("Prepared");
    reveal_strlit("Sending");
    reveal_strlit("Interrupted");
    reveal_strlit("Sent");
    reveal_strlit("Rejected");
    reveal_strlit("Failed");
    assert("Pending"@[0] == 'P' && "Sending"@[0] == 'S' && "Interrupted"@[0] == 'I');
    assert("Prepared"@[0] == 'P' && "Sent"@[0] == 'S' && "Rejected"@[0] == 'R' && "Failed"@[0]
        == 'F');
    assert("Sent"@.len() == 4 && "Sending"@.len() == 7);
}

/// What is known of a peer's file request that is to be remembered.
#[derive(Debug)]
pub struct CreateRemoteFilerequest {
    pub peer_id: PeerIdWrapper,
    pub filerequest_id: String,
    /// Human readable identifier of the file request.
    pub name: String,
    pub contact_id: ContactId,
}

pub ghost struct CreateRemoteFilerequestView {
    pub peer_id: Seq<char>,
    pub filerequest_id: Seq<char>,
    pub name: Seq<char>,
    pub contact_id: Seq<char>,
}

impl View for CreateRemoteFilerequest {
    type V = CreateRemoteFilerequestView;

    open spec fn view(&self) -> CreateRemoteFilerequestView {
        CreateRemoteFilerequestView {
            peer_id: self.peer_id@,
            filerequest_id: self.filerequest_id@,
            name: self.name@,
            contact_id: self.contact_id@,
        }
    }
}

impl Clone for CreateRemoteFilerequest {
    fn clone(&self) -> (r: Self)
        ensures
            r == *self,
    {
        CreateRemoteFilerequest {
            peer_id: self.peer_id.clone(),
            filerequest_id: self.filerequest_id.clone(),
            name: self.name.clone(),
            contact_id: self.contact_id.clone(),
        }
    }
}

/// A file request of a peer.
#[derive(Debug)]
pub struct RemoteFilerequest {
    pub id: FylesId,
    pub peer_id: PeerIdWrapper,
    pub filerequest_id: FylesId,
    pub contact_id: ContactId,
    /// Human readable identifier of the file request.
    pub name: String,
}

pub ghost struct RemoteFilerequestView {
    pub id: Seq<char>,
    pub peer_id: Seq<char>,
    pub filerequest_id: Seq<char>,
    pub contact_id: Seq<char>,
    pub name: Seq<char>,
}

impl View for RemoteFilerequest {
    type V = RemoteFilerequestView;

    open spec fn view(&self) -> RemoteFilerequestView {
        RemoteFilerequestView {
            id: self.id@,
            peer_id: self.peer_id@,
            filerequest_id: self.filerequest_id@,
            contact_id: self.contact_id@,
            name: self.name@,
        }
    }
}

impl Clone for RemoteFilerequest {
    fn clone(&self) -> (r: Self)
        ensures
            r == *self,
    {
        RemoteFilerequest {
            id: self.id.clone(),
            peer_id: self.peer_id.clone(),
            filerequest_id: self.filerequest_id.clone(),
            contact_id: self.contact_id.clone(),
            name: self.name.clone(),
        }
    }
}

/// Status of a file being received from a peer.
#[derive(Debug, PartialEq)]
pub enum ReceiveStatus {
    /// The transfer was accepted and chunks are being received.
    Receiving,
    /// The transfer was interrupted, for example because the connection was lost, but can be
    /// continued.
    Interrupted,
    /// The transfer completed successfully: the file has been finalised.
    Completed,
    /// The transfer failed irrecoverably.
    Failed,
    /// Any value of the database that is not recognised.
    Unknown(String),
}

pub ghost enum ReceiveStatusView {
    Receiving,
    Interrupted,
    Completed,
    Failed,
    Unknown(Seq<char>),
}

impl View for ReceiveStatus {
    type V = ReceiveStatusView;

    open spec fn view(&self) -> ReceiveStatusView {
        match *self {
            ReceiveStatus::Receiving => ReceiveStatusView::Receiving,
            ReceiveStatus::Interrupted => ReceiveStatusView::Interrupted,
            ReceiveStatus::Completed => ReceiveStatusView::Completed,
            ReceiveStatus::Failed => ReceiveStatusView::Failed,
            ReceiveStatus::Unknown(status) => ReceiveStatusView::Unknown(status@),
        }
    }
}

impl ReceiveStatusView {
    /// The tag that stands for the status in the database, or why there is none.
    pub open spec fn tag(self) -> Result<Seq<char>, Seq<char>> {
        match self {
            ReceiveStatusView::Receiving => Ok("Receiving"@),
            ReceiveStatusView::Interrupted => Ok("Interrupted"@),
            ReceiveStatusView::Completed => Ok("Completed"@),
            ReceiveStatusView::Failed => Ok("Failed"@),
            ReceiveStatusView::Unknown(status) => Err(
                "Unknown status '"@ + status + "' must not be persisted"@,
            ),
        }
    }

    /// The status that the column of the database stands for.
    pub open spec fn from_column(tag: Seq<char>) -> ReceiveStatusView {
        if tag == "Receiving"@ {
            ReceiveStatusView::Receiving
        } else if tag == "Interrupted"@ {
            ReceiveStatusView::Interrupted
        } else if tag == "Completed"@ {
            ReceiveStatusView::Completed
        } else if tag == "Failed"@ {
            ReceiveStatusView::Failed
        } else {
            ReceiveStatusView::Unknown(tag)
        }
    }

    /// The status as it is shown.
    pub open spec fn text(self) -> Seq<char> {
        match self {
            ReceiveStatusView::Receiving => "Receiving"@,
            ReceiveStatusView::Interrupted => "Interrupted"@,
            ReceiveStatusView::Completed => "Completed"@,
            ReceiveStatusView::Failed => "Failed"@,
            ReceiveStatusView::Unknown(status) => status,
        }
    }

    /// Whether the transfer may still be continued.
    pub open spec fn is_unfinished(self) -> bool {
        self is Receiving || self is Interrupted
    }
}

impl Clone for ReceiveStatus {
    fn clone(&self) -> (r: Self)
        ensures
            r == *self,
    {
        match self {
            ReceiveStatus::Receiving => ReceiveStatus::Receiving,
            ReceiveStatus::Interrupted => ReceiveStatus::Interrupted,
            ReceiveStatus::Completed => ReceiveStatus::Completed,
            ReceiveStatus::Failed => ReceiveStatus::Failed,
            ReceiveStatus::Unknown(status) => ReceiveStatus::Unknown(status.clone()),
        }
    }
}

impl ReceiveStatus {
    /// Returns the status tag string used for DB persistence.
    ///
    /// Returns `Err` for statuses that must not be persisted: `Unknown`.
    pub fn status_tag(&self) -> (r: Result<&'static str, String>)
        ensures
            match r {
                Ok(tag) => self@.tag() == Ok::<Seq<char>, Seq<char>>(tag@),
                Err(reason) => self@.tag() == Err::<Seq<char>, Seq<char>>(reason@),
            },
    {
        match self {
            ReceiveStatus::Receiving => Ok("Receiving"),
            ReceiveStatus::Interrupted => Ok("Interrupted"),
            ReceiveStatus::Completed => Ok("Completed"),
            ReceiveStatus::Failed => Ok("Failed"),
            ReceiveStatus::Unknown(status) => Err(
                "Unknown status '".to_owned().concat(status.as_str()).concat(
                    "' must not be persisted",
                ),
            ),
        }
    }

    /// Reconstructs a `ReceiveStatus` from its DB column.
    pub fn from_db_column(tag: &str) -> (r: Self)
        ensures
            r@ == ReceiveStatusView::from_column(tag@),
    {
        if str_eq(tag, "Receiving") {
            ReceiveStatus::Receiving
        } else if str_eq(tag, "Interrupted") {
            ReceiveStatus::Interrupted
        } else if str_eq(tag, "Completed") {
            ReceiveStatus::Completed
        } else if str_eq(tag, "Failed") {
            ReceiveStatus::Failed
        } else {
            ReceiveStatus::Unknown(tag.to_owned())
        }
    }

    /// Whether the transfer may still be continued.
    pub fn is_unfinished(&self) -> (r: bool)
        ensures
            r == self@.is_unfinished(),
    {
        match self {
            ReceiveStatus::Receiving => true,
            ReceiveStatus::Interrupted => true,
            _ => false,
        }
    }

    /// The status as it is shown.
    pub fn to_text(&self) -> (r: String)
        ensures
            r@ == self@.text(),
    {
        match self {
            ReceiveStatus::Receiving => "Receiving".to_owned(),
            ReceiveStatus::Interrupted => "Interrupted".to_owned(),
            ReceiveStatus::Completed => "Completed".to_owned(),
            ReceiveStatus::Failed => "Failed".to_owned(),
            ReceiveStatus::Unknown(status) => status.clone(),
        }
    }
}

/// A status that can be written to the database is the one that is read from it.
pub proof fn law_receive_status_round_trip(status: ReceiveStatusView)
    requires
        status.tag() is Ok,
    ensures
        ReceiveStatusView::from_column(status.tag()->Ok_0) == status,
{
    reveal_strlit("Receiving");
    reveal_strlit("Interrupted");
    reveal_strlit("Completed");
    reveal_strlit("Failed");
    assert("Receiving"@[0] == 'R' && "Interrupted"@[0] == 'I' && "Completed"@[0] == 'C'
        && "Failed"@[0] == 'F');
}

/// A file that is being or has been received.
#[derive(Debug)]
pub struct ReceivedFile {
    pub id: FylesId,
    pub contact_id: Option<ContactId>,
    pub peer_id: String,
    pub filerequest_id: FylesId,
    pub transfer_id: Option<FylesId>,
    pub file_name: String,
    /// `None` while the transfer is still in progress.
    pub file_path: Option<String>,
    pub file_size_bytes: u64,
    pub progress_bytes: u64,
    pub status: ReceiveStatus,
    /// Milliseconds since UNIX epoch when the transfer started, which the name of the partial file
    /// begins with.
    pub started_at_ms: i64,
    /// `None` while the transfer is still in progress.
    pub received_at_ms: Option<i64>,
}

pub ghost struct ReceivedFileView {
    pub id: Seq<char>,
    pub contact_id: Option<Seq<char>>,
    pub peer_id: Seq<char>,
    pub filerequest_id: Seq<char>,
    pub transfer_id: Option<Seq<char>>,
    pub file_name: Seq<char>,
    pub file_path: Option<Seq<char>>,
    pub file_size_bytes: u64,
    pub progress_bytes: u64,
    pub status: ReceiveStatusView,
    pub started_at_ms: i64,
    pub received_at_ms: Option<i64>,
}

impl View for ReceivedFile {
    type V = ReceivedFileView;

    open spec fn view(&self) -> ReceivedFileView {
        ReceivedFileView {
            id: self.id@,
            contact_id: opt_view(self.contact_id),
            peer_id: self.peer_id@,
            filerequest_id: self.filerequest_id@,
            transfer_id: opt_view(self.transfer_id),
            file_name: self.file_name@,
            file_path: opt_view(self.file_path),
            file_size_bytes: self.file_size_bytes,
            progress_bytes: self.progress_bytes,
            status: self.status@,
            started_at_ms: self.started_at_ms,
            received_at_ms: self.received_at_ms,
        }
    }
}

impl Clone for ReceivedFile {
    fn clone(&self) -> (r: Self)
        ensures
            r == *self,
    {
        ReceivedFile {
            id: self.id.clone(),
            contact_id: self.contact_id.clone(),
            peer_id: self.peer_id.clone(),
            filerequest_id: self.filerequest_id.clone(),
            transfer_id: self.transfer_id.clone(),
            file_name: self.file_name.clone(),
            file_path: self.file_path.clone(),
            file_size_bytes: self.file_size_bytes,
            progress_bytes: self.progress_bytes,
            status: self.status.clone(),
            started_at_ms: self.started_at_ms,
            received_at_ms: self.received_at_ms,
        }
    }
}

/// What a new entry for a file in transfer is made of.
#[derive(Debug)]
pub struct CreateIncomingFile {
    pub filerequest_id: FylesId,
    pub transfer_id: FylesId,
    pub contact_id: Option<ContactId>,
    pub peer_id: String,
    pub file_name: String,
    pub file_size_bytes: u64,
    /// Milliseconds since UNIX epoch when the transfer started, which the name of the partial file
    /// begins with.
    pub started_at_ms: i64,
}

pub ghost struct CreateIncomingFileView {
    pub filerequest_id: Seq<char>,
    pub transfer_id: Seq<char>,
    pub contact_id: Option<Seq<char>>,
    pub peer_id: Seq<char>,
    pub file_name: Seq<char>,
    pub file_size_bytes: u64,
    pub started_at_ms: i64,
}

impl View for CreateIncomingFile {
    type V = CreateIncomingFileView;

    open spec fn view(&self) -> CreateIncomingFileView {
        CreateIncomingFileView {
            filerequest_id: self.filerequest_id@,
            transfer_id: self.transfer_id@,
            contact_id: opt_view(self.contact_id),
            peer_id: self.peer_id@,
            file_name: self.file_name@,
            file_size_bytes: self.file_size_bytes,
            started_at_ms: self.started_at_ms,
        }
    }
}

impl Clone for CreateIncomingFile {
    fn clone(&self) -> (r: Self)
        ensures
            r == *self,
    {
        CreateIncomingFile {
            filerequest_id: self.filerequest_id.clone(),
            transfer_id: self.transfer_id.clone(),
            contact_id: self.contact_id.clone(),
            peer_id: self.peer_id.clone(),
            file_name: self.file_name.clone(),
            file_size_bytes: self.file_size_bytes,
            started_at_ms: self.started_at_ms,
        }
    }
}

/// What completes the entry of a file in transfer.
#[derive(Debug)]
pub struct CompleteReceivedFile {
    pub transfer_id: FylesId,
    pub file_path: String,
    pub received_at_ms: i64,
}

pub ghost struct CompleteReceivedFileView {
    pub transfer_id: Seq<char>,
    pub file_path: Seq<char>,
    pub received_at_ms: i64,
}

impl View for CompleteReceivedFile {
    type V = CompleteReceivedFileView;

    open spec fn view(&self) -> CompleteReceivedFileView {
        CompleteReceivedFileView {
            transfer_id: self.transfer_id@,
            file_path: self.file_path@,
            received_at_ms: self.received_at_ms,
        }
    }
}

impl Clone for CompleteReceivedFile {
    fn clone(&self) -> (r: Self)
        ensures
            r == *self,
    {
        CompleteReceivedFile {
            transfer_id: self.transfer_id.clone(),
            file_path: self.file_path.clone(),
            received_at_ms: self.received_at_ms,
        }
    }
}

/// A file that is to be sent.
#[derive(Debug)]
pub struct PendingFile {
    pub id: FylesId,
    pub contact_id: ContactId,
    pub file_path: String,
    pub retry_count: usize,
    /// The _internal_ ID of the file request that this file is associated with. This is not the
    /// same as the ID that is shared with peers.
    pub target_filerequest_id: FylesId,
    pub status: SendStatus,
    pub display_name: Option<String>,
    pub interruption_reasons: Vec<String>,
}

pub ghost struct PendingFileView {
    pub id: Seq<char>,
    pub contact_id: Seq<char>,
    pub file_path: Seq<char>,
    pub retry_count: usize,
    pub target_filerequest_id: Seq<char>,
    pub status: SendStatusView,
    pub display_name: Option<Seq<char>>,
    pub interruption_reasons: Seq<Seq<char>>,
}

impl View for PendingFile {
    type V = PendingFileView;

    open spec fn view(&self) -> PendingFileView {
        PendingFileView {
            id: self.id@,
            contact_id: self.contact_id@,
            file_path: self.file_path@,
            retry_count: self.retry_count,
            target_filerequest_id: self.target_filerequest_id@,
            status: self.status@,
            display_name: opt_view(self.display_name),
            interruption_reasons: views(self.interruption_reasons@),
        }
    }
}

impl Clone for PendingFile {
    fn clone(&self) -> (r: Self)
        ensures
            r@ == self@,
    {
        PendingFile {
            id: self.id.clone(),
            contact_id: self.contact_id.clone(),
            file_path: self.file_path.clone(),
            retry_count: self.retry_count,
            target_filerequest_id: self.target_filerequest_id.clone(),
            status: self.status.clone(),
            display_name: self.display_name.clone(),
            interruption_reasons: clone_strings(&self.interruption_reasons),
        }
    }
}

/// A file that the user picked for sending.
#[derive(Debug)]
pub struct FileInfo {
    pub path: String,
    pub display_name: Option<String>,
}

pub ghost struct FileInfoView {
    pub path: Seq<char>,
    pub display_name: Option<Seq<char>>,
}

impl View for FileInfo {
    type V = FileInfoView;

    open spec fn view(&self) -> FileInfoView {
        FileInfoView {
            path: self.path@,
            display_name: opt_view(self.display_name),
        }
    }
}

impl Clone for FileInfo {
    fn clone(&self) -> (r: Self)
        ensures
            r == *self,
    {
        FileInfo {
            path: self.path.clone(),
            display_name: self.display_name.clone(),
        }
    }
}

/// Files that the user picked for one file request.
#[derive(Debug)]
pub struct CreatePendingFiles {
    pub file_infos: Vec<FileInfo>,
    pub target_filerequest_id: FylesId,
}

pub ghost struct CreatePendingFilesView {
    pub file_infos: Seq<FileInfoView>,
    pub target_filerequest_id: Seq<char>,
}

impl View for CreatePendingFiles {
    type V = CreatePendingFilesView;

    open spec fn view(&self) -> CreatePendingFilesView {
        CreatePendingFilesView {
            file_infos: views(self.file_infos@),
            target_filerequest_id: self.target_filerequest_id@,
        }
    }
}

impl Clone for CreatePendingFiles {
    fn clone(&self) -> (r: Self)
        ensures
            r@ == self@,
    {
        CreatePendingFiles {
            file_infos: clone_file_infos(&self.file_infos),
            target_filerequest_id: self.target_filerequest_id.clone(),
        }
    }
}

/// Things you may want to send data to.
pub enum Dialable {
    /// A single, specific device, like Ann's smartphone or XY-company's server.
    Device(PeerIdWrapper, PushStrategy),
    /// A specific person or entity, which may or may not be represented by multiple devices.
    Contact(Contact, MustReach),
    /// A combination of several dialables, like several people, several devices, or a mix of both.
    Collection(Vec<Dialable>, MustReach),
}

/// How many of the dialables must be reached.
pub enum MustReach {
    /// Try to send messages to all dialables, but don't ensure that all of them receive it.
    Nobody(AdHocPushStrategy),
    /// Make sure that this message is only sent to a single dialable: try each of them in turn
    /// until one accepts it.
    ExactlyOne(PushStrategy),
    /// Ensure that at least one of the dialables receives the message.
    AtLeastOne(ReliablePushStrategy),
    /// Ensure that all dialables receive the message.
    All(ReliablePushStrategy),
}

impl Default for MustReach {
    fn default() -> (r: Self)
        ensures
            r matches MustReach::AtLeastOne(strategy) && strategy.is_default_retry(),
    {
        MustReach::AtLeastOne(ReliablePushStrategy::default())
    }
}

/// How data is sent to a dialable: how often, when and to how many peers.
pub enum PushStrategy {
    /// Try sending if possible, but do not guarantee success. Think UDP.
    Unreliable(AdHocPushStrategy),
    /// Retry as often as necessary, until a send was successful. Think TCP.
    Reliable(ReliablePushStrategy),
}

impl Default for PushStrategy {
    fn default() -> (r: Self)
        ensures
            r matches PushStrategy::Reliable(strategy) && strategy.is_default_retry(),
    {
        PushStrategy::Reliable(ReliablePushStrategy::default())
    }
}

/// Strategies that do not enforce that every sending attempt is successful.
pub enum AdHocPushStrategy {
    /// Send right now, do not care about the result.
    RightNow,
    /// Send messages in regular intervals, but do not care about the result.
    Interval { interval_ms: Duration },
}

impl Default for AdHocPushStrategy {
    fn default() -> (r: Self)
        ensures
            r is RightNow,
    {
        AdHocPushStrategy::RightNow
    }
}

/// Strategies that enforce that the sending attempt is successful.
pub enum ReliablePushStrategy {
    /// Retry until success, at regular intervals.
    RetryInterval { interval_ms: Duration },
    /// Retry until success, with an exponential backoff, but capped at a maximum interval.
    CappedExponentialRetry(CappedExponentialRetry),
    /// Retry until success, where the interval before each attempt is listed.
    Adaptive { nth_interval: Vec<Duration> },
}

impl ReliablePushStrategy {
    pub open spec fn is_default_retry(self) -> bool {
        self matches ReliablePushStrategy::CappedExponentialRetry(retry)
            && retry.is_default_retry()
    }
}

impl Default for ReliablePushStrategy {
    fn default() -> (r: Self)
        ensures
            r.is_default_retry(),
    {
        ReliablePushStrategy::CappedExponentialRetry(CappedExponentialRetry::default())
    }
}

/// A retry strategy that uses an exponential backoff, but caps the maximum interval to avoid
/// excessive delays.
pub struct CappedExponentialRetry {
    base_interval: Duration,
    max_interval: Duration,
}

/// The interval before attempt number `n`, in nanoseconds: none before the first one, then
/// `base`, twice as long before each further one, but never longer than `max`.
pub open spec fn backoff_nanos(base: nat, max: nat, n: nat) -> nat {
    if n == 0 {
        0
    } else {
        let uncapped = base * vstd::arithmetic::power2::pow2((n - 1) as nat);
        if uncapped <= max {
            uncapped
        } else {
            max
        }
    }
}

impl Default for CappedExponentialRetry {
    fn default() -> (r: Self)
        ensures
            r.is_default_retry(),
    {
        CappedExponentialRetry {
            base_interval: 5u64.seconds(),
            // At least four attempts per day: not often enough to cause significant resource
            // drain, but often enough for one attempt during the waking hours of a person, which
            // is when most devices are likely to be online.
            max_interval: 6u64.hours(),
        }
    }
}

impl CappedExponentialRetry {
    pub closed spec fn base(self) -> nat {
        self.base_interval.total_nanos()
    }

    pub closed spec fn max(self) -> nat {
        self.max_interval.total_nanos()
    }

    /// Five seconds, capped at six hours.
    pub open spec fn is_default_retry(self) -> bool {
        self.base() == 5 * 1_000_000_000 && self.max() == 6 * 3600 * 1_000_000_000
    }

    pub fn new(base_interval: Duration, max_interval: Duration) -> (r: Self)
        ensures
            r.base() == base_interval.total_nanos(),
            r.max() == max_interval.total_nanos(),
    {
        CappedExponentialRetry { base_interval, max_interval }
    }

    /// The interval before attempt number `n`.
    pub fn n_th_interval(&self, n: u32) -> (r: Duration)
        ensures
            r.total_nanos() == backoff_nanos(self.base(), self.max(), n as nat),
    {
        if n == 0 {
            return 0u64.millis();
        }
        let base: u128 = self.base_interval.as_nanos();
        let max: u128 = self.max_interval.as_nanos();
        proof {
            vstd::arithmetic::power2::lemma2_to64();
        }
        if base == 0 {
            assert(base * vstd::arithmetic::power2::pow2((n - 1) as nat) == 0) by (nonlinear_arith)
                requires
                    base == 0,
            ;
            return 0u64.millis();
        }
        let mut interval: u128 = base;
        let mut doublings: u32 = 0;
        while doublings < n - 1 && interval <= max
            invariant
                n >= 1,
                doublings <= n - 1,
                base > 0,
                max < 0x1_0000_0000_0000_0000 * 1_000_000_000,
                interval <= 2 * (if max > base {
                    max
                } else {
                    base
                }),
                base < 0x1_0000_0000_0000_0000 * 1_000_000_000,
                interval == base * vstd::arithmetic::power2::pow2(doublings as nat),
            decreases n - doublings,
        {
            proof {
                vstd::arithmetic::power2::lemma_pow2_unfold((doublings + 1) as nat);
                assert(2 * (base * vstd::arithmetic::power2::pow2(doublings as nat)) == base * (2
                    * vstd::arithmetic::power2::pow2(doublings as nat))) by (nonlinear_arith);
            }
            interval = interval * 2;
            doublings = doublings + 1;
        }
        proof {
            if doublings < n - 1 {
                if (doublings as nat) < (n - 1) as nat {
                    vstd::arithmetic::power2::lemma_pow2_strictly_increases(
                        doublings as nat,
                        (n - 1) as nat,
                    );
                }
                let small = vstd::arithmetic::power2::pow2(doublings as nat);
                let large = vstd::arithmetic::power2::pow2((n - 1) as nat);
                assert(base * small <= base * large) by (nonlinear_arith)
                    requires
                        small <= large,
                        base > 0,
                ;
            }
        }
        if interval <= max {
            let secs: u64 = (interval / 1_000_000_000) as u64;
            let nanos: u32 = (interval % 1_000_000_000) as u32;
            Duration::from_parts(secs, nanos)
        } else {
            self.max_interval
        }
    }
}

/// Intervals never get shorter from one attempt to the next, and never exceed the maximum.
pub proof fn law_backoff_grows_up_to_the_cap(base: nat, max: nat, n: nat, m: nat)
    requires
        n <= m,
    ensures
        backoff_nanos(base, max, n) <= backoff_nanos(base, max, m) <= max,
{
    if 0 < n < m {
        vstd::arithmetic::power2::lemma_pow2_strictly_increases((n - 1) as nat, (m - 1) as nat);
        let small = vstd::arithmetic::power2::pow2((n - 1) as nat);
        let large = vstd::arithmetic::power2::pow2((m - 1) as nat);
        assert(base * small <= base * large) by (nonlinear_arith)
            requires
                small <= large,
        ;
    }
}

/// Strategies to internally redistribute data between "my" peers. Perhaps you want your phone
/// to accept files from your friends, but push those to your laptop as soon as possible.
pub enum DataRedistributionModel {
    /// Keep the data on the initial peer, and don't push it to any other peers.
    KeepOnInitialPeer,
    /// Push the data to all peers. The meaning of "all" depends on the context.
    PushToAll,
    /// Move the data to a specific peer, so that the initial peer acts as a relay.
    MoveToSpecificPeer(PeerIdWrapper),
    /// Push the data to a specific set of peers.
    PushToPeers(Vec<PeerIdWrapper>),
}

/// Nothing is waited for before the first attempt; before the next one the base is waited for, and
/// twice as long before each further one, until the maximum is reached.
pub proof fn law_backoff_doubles_up_to_the_cap(base: nat, max: nat, n: nat)
    requires
        n > 0,
    ensures
        backoff_nanos(base, max, 0) == 0,
        backoff_nanos(base, max, 1) == if base <= max {
            base
        } else {
            max
        },
        backoff_nanos(base, max, n + 1) == if 2 * backoff_nanos(base, max, n) <= max {
            2 * backoff_nanos(base, max, n)
        } else {
            max
        },
{
    vstd::arithmetic::power2::lemma2_to64();
    vstd::arithmetic::power2::lemma_pow2_unfold(n);
    let power = vstd::arithmetic::power2::pow2((n - 1) as nat);
    assert(base * (2 * power) == 2 * (base * power)) by (nonlinear_arith);
    assert(base * 1 == base);
}

/// Unless it is said otherwise, the second attempt comes after five seconds, and attempts are never
/// more than six hours apart.
pub proof fn law_attempts_begin_after_seconds_and_end_hours_apart(
    retry: CappedExponentialRetry,
    first: nat,
)
    requires
        retry.is_default_retry(),
    ensures
        backoff_nanos(retry.base(), retry.max(), 1) == 5 * 1_000_000_000,
        backoff_nanos(retry.base(), retry.max(), 2) == 10 * 1_000_000_000,
        backoff_nanos(retry.base(), retry.max(), first) <= 6 * 60 * 60 * 1_000_000_000,
        retry.max() == 6 * 60 * 60 * 1_000_000_000,
{
    vstd::arithmetic::power2::lemma2_to64();
}

} // verus!
