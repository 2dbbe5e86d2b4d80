//! Conversions between the records of the service and the messages on the wire.
use vstd::prelude::*;

use crate::crypto::{
    deserialize_dilithium_private_key, deserialize_dilithium_public_key,
    deserialize_ed25519_private_key, deserialize_ed25519_public_key,
    serialize_dilithium_private_key, serialize_dilithium_public_key, serialize_ed25519_private_key,
    serialize_ed25519_public_key, ContactKeys, ContactPrivateKeys, ContactPublicKeys,
    DilithiumDecodeError, DilithiumEncodeError, PrivateEd25519DeserializationError,
    PublicEd25519DeserializationError, DILITHIUM_PUBLIC_KEY_LENGTH, DILITHIUM_SECRET_KEY_LENGTH,
    ED25519_KEY_LENGTH,
};
use crate::domain_models::{
    clone_strings, Contact, ContactId, CreatePendingFiles, CreateRemoteFilerequest, DisplayContact,
    FileInfo, Filerequest, FilerequestAccess, FylesId, InProgressSendStatus, PeerIdWrapper,
    PendingFile, ReceiveStatus, ReceivedFile, RemoteFilerequest, SelfContact, SendStatus,
};
use crate::wire::{
    Access, AccessProto, ContactKeysProto, ContactPrivateKeysProto, ContactProto,
    ContactPublicKeysProto, CreatePendingFilesProto, CreateRemoteFileRequestProto,
    DatabaseRestoredFromBackup, FileInfoProto, FileRequestProto, Message, PendingFileProto,
    PendingFileStatusChanged, PublicProto, ReceiveStatusProto, ReceivedContactShareOverNetwork,
    ReceivedFileProto, ReceivedFileStatusChanged, ReceivedSelfContactInviteOverNetwork,
    RemoteFileRequestProto, SelfContactInviteAcceptedOverNetwork, SelfContactProto,
    SelfContactPublicProto, SendStatusProto, ServerMessage, SpecificUsersProto, Status,
    TransferDataProto,
};

verus! {

// Contacts

impl From<&Contact> for ContactProto {
    fn from(contact: &Contact) -> (r: Self) {
        ContactProto { id: contact.id.0.clone(), name: contact.name.clone() }
    }
}

impl vstd::std_specs::convert::FromSpecImpl<&Contact> for ContactProto {
    open spec fn obeys_from_spec() -> bool {
        true
    }

    open spec fn from_spec(contact: &Contact) -> Self {
        ContactProto { id: contact.id.0, name: contact.name }
    }
}

impl From<ContactProto> for DisplayContact {
    fn from(proto: ContactProto) -> (r: Self) {
        DisplayContact { id: ContactId(proto.id), name: proto.name }
    }
}

impl vstd::std_specs::convert::FromSpecImpl<ContactProto> for DisplayContact {
    open spec fn obeys_from_spec() -> bool {
        true
    }

    open spec fn from_spec(proto: ContactProto) -> Self {
        DisplayContact { id: ContactId(proto.id), name: proto.name }
    }
}

impl From<DisplayContact> for ContactProto {
    fn from(contact: DisplayContact) -> (r: Self) {
        ContactProto { id: contact.id.0, name: contact.name }
    }
}

impl vstd::std_specs::convert::FromSpecImpl<DisplayContact> for ContactProto {
    open spec fn obeys_from_spec() -> bool {
        true
    }

    open spec fn from_spec(contact: DisplayContact) -> Self {
        ContactProto { id: contact.id.0, name: contact.name }
    }
}

// File requests

fn ids_to_strings(ids: Vec<ContactId>) -> (r: Vec<String>)
    ensures
        crate::domain_models::views(r@) == crate::domain_models::views(ids@),
{
    let mut strings: Vec<String> = Vec::new();
    let mut i: usize = 0;
    while i < ids.len()
        invariant
            i <= ids.len(),
            strings@.len() == i,
            forall|j: int| 0 <= j < i ==> strings@[j]@ == ids@[j]@,
        decreases ids.len() - i,
    {
        strings.push(ids[i].0.clone());
        i = i + 1;
    }
    assert(crate::domain_models::views(strings@) =~= crate::domain_models::views(ids@));
    strings
}

/// The contacts that the texts identify.
pub fn strings_to_ids(strings: Vec<String>) -> (r: Vec<ContactId>)
    ensures
        crate::domain_models::views(r@) == crate::domain_models::views(strings@),
{
    let mut ids: Vec<ContactId> = Vec::new();
    let mut i: usize = 0;
    while i < strings.len()
        invariant
            i <= strings.len(),
            ids@.len() == i,
            forall|j: int| 0 <= j < i ==> ids@[j]@ == strings@[j]@,
        decreases strings.len() - i,
    {
        ids.push(ContactId(strings[i].clone()));
        i = i + 1;
    }
    assert(crate::domain_models::views(ids@) =~= crate::domain_models::views(strings@));
    ids
}

impl From<FilerequestAccess> for AccessProto {
    fn from(access: FilerequestAccess) -> (r: Self)
        ensures
            r@ == Some(access@),
    {
        AccessProto {
            access: Some(
                match access {
                    FilerequestAccess::Public => Access::Public(PublicProto {  }),
                    FilerequestAccess::Audience { contact_ids } => Access::Audience(
                        SpecificUsersProto { contact_ids: ids_to_strings(contact_ids) },
                    ),
                },
            ),
        }
    }
}

impl vstd::std_specs::convert::FromSpecImpl<FilerequestAccess> for AccessProto {
    open spec fn obeys_from_spec() -> bool {
        false
    }

    open spec fn from_spec(access: FilerequestAccess) -> Self {
        arbitrary()
    }
}

impl crate::domain_models::FilerequestView {
    /// The request as clients see it.
    pub open spec fn proto(self) -> crate::wire::FileRequestProtoView {
        crate::wire::FileRequestProtoView {
            id: self.id,
            title: self.title,
            description: self.description,
            is_active: self.is_active,
            access: Some(Some(self.access)),
        }
    }
}

impl From<&Filerequest> for FileRequestProto {
    fn from(fr: &Filerequest) -> (r: Self)
        ensures
            r@ == fr@.proto(),
    {
        FileRequestProto {
            id: fr.id.0.clone(),
            title: fr.title.clone(),
            description: fr.description.clone(),
            is_active: fr.is_active,
            access: Some(AccessProto::from(fr.access.clone())),
        }
    }
}

impl vstd::std_specs::convert::FromSpecImpl<&Filerequest> for FileRequestProto {
    open spec fn obeys_from_spec() -> bool {
        false
    }

    open spec fn from_spec(fr: &Filerequest) -> Self {
        arbitrary()
    }
}

/// The refusal of a request that does not say who may drop files.
pub open spec fn is_missing_access(status: Status) -> bool {
    status.is_invalid_argument("Missing access type"@)
}

impl TryFrom<AccessProto> for FilerequestAccess {
    type Error = Status;

    fn try_from(proto: AccessProto) -> (r: Result<Self, Status>)
        ensures
            match r {
                Ok(access) => proto@ == Some(access@),
                Err(status) => proto@ is None && is_missing_access(status),
            },
    {
        match proto.access {
            Some(Access::Public(_)) => Ok(FilerequestAccess::Public),
            Some(Access::Audience(users)) => Ok(
                FilerequestAccess::Audience { contact_ids: strings_to_ids(users.contact_ids) },
            ),
            None => Err(Status::invalid_argument("Missing access type".to_owned())),
        }
    }
}

impl vstd::std_specs::convert::TryFromSpecImpl<AccessProto> for FilerequestAccess {
    open spec fn obeys_try_from_spec() -> bool {
        false
    }

    open spec fn try_from_spec(proto: AccessProto) -> Result<Self, Status> {
        arbitrary()
    }
}

impl TryFrom<Option<AccessProto>> for FilerequestAccess {
    type Error = Status;

    fn try_from(proto: Option<AccessProto>) -> (r: Result<Self, Status>)
        ensures
            match r {
                Ok(access) => proto matches Some(proto) && proto@ == Some(access@),
                Err(status) => (proto matches Some(proto) ==> proto@ is None) && is_missing_access(
                    status,
                ),
            },
    {
        match proto {
            Some(proto) => FilerequestAccess::try_from(proto),
            None => Err(Status::invalid_argument("Missing access type".to_owned())),
        }
    }
}

impl vstd::std_specs::convert::TryFromSpecImpl<Option<AccessProto>> for FilerequestAccess {
    open spec fn obeys_try_from_spec() -> bool {
        false
    }

    open spec fn try_from_spec(proto: Option<AccessProto>) -> Result<Self, Status> {
        arbitrary()
    }
}

impl crate::wire::FileRequestProtoView {
    /// The file request that the message describes; `None` where it does not say who may drop
    /// files.
    pub open spec fn filerequest(self) -> Option<crate::domain_models::FilerequestView> {
        match self.access {
            Some(Some(access)) => Some(
                crate::domain_models::FilerequestView {
                    id: self.id,
                    title: self.title,
                    description: self.description,
                    access,
                    is_active: self.is_active,
                },
            ),
            _ => None,
        }
    }
}

impl TryFrom<FileRequestProto> for Filerequest {
    type Error = Status;

    fn try_from(proto: FileRequestProto) -> (r: Result<Self, Status>)
        ensures
            match r {
                Ok(fr) => proto@.filerequest() == Some(fr@),
                Err(status) => proto@.filerequest() is None && is_missing_access(status),
            },
    {
        match FilerequestAccess::try_from(proto.access) {
            Ok(access) => Ok(
                Filerequest {
                    id: FylesId(proto.id),
                    title: proto.title,
                    description: proto.description,
                    access,
                    is_active: proto.is_active,
                },
            ),
            Err(status) => Err(status),
        }
    }
}

impl vstd::std_specs::convert::TryFromSpecImpl<FileRequestProto> for Filerequest {
    open spec fn obeys_try_from_spec() -> bool {
        false
    }

    open spec fn try_from_spec(proto: FileRequestProto) -> Result<Self, Status> {
        arbitrary()
    }
}

/// What clients see of a file request describes that request.
pub proof fn law_filerequest_proto_round_trip(filerequest: crate::domain_models::FilerequestView)
    ensures
        filerequest.proto().filerequest() == Some(filerequest),
{
}

// File requests of others

impl From<RemoteFilerequest> for RemoteFileRequestProto {
    fn from(r: RemoteFilerequest) -> (proto: Self) {
        RemoteFileRequestProto {
            id: r.id.0,
            peer_id: r.peer_id.0,
            file_request_id: r.filerequest_id.0,
            name: r.name,
            contact_id: r.contact_id.0,
        }
    }
}

impl vstd::std_specs::convert::FromSpecImpl<RemoteFilerequest> for RemoteFileRequestProto {
    open spec fn obeys_from_spec() -> bool {
        true
    }

    open spec fn from_spec(r: RemoteFilerequest) -> Self {
        RemoteFileRequestProto {
            id: r.id.0,
            peer_id: r.peer_id.0,
            file_request_id: r.filerequest_id.0,
            name: r.name,
            contact_id: r.contact_id.0,
        }
    }
}

impl From<RemoteFileRequestProto> for RemoteFilerequest {
    fn from(proto: RemoteFileRequestProto) -> (r: Self) {
        RemoteFilerequest {
            id: FylesId(proto.id),
            peer_id: PeerIdWrapper(proto.peer_id),
            filerequest_id: FylesId(proto.file_request_id),
            name: proto.name,
            contact_id: ContactId(proto.contact_id),
        }
    }
}

impl vstd::std_specs::convert::FromSpecImpl<RemoteFileRequestProto> for RemoteFilerequest {
    open spec fn obeys_from_spec() -> bool {
        true
    }

    open spec fn from_spec(proto: RemoteFileRequestProto) -> Self {
        RemoteFilerequest {
            id: FylesId(proto.id),
            peer_id: PeerIdWrapper(proto.peer_id),
            filerequest_id: FylesId(proto.file_request_id),
            name: proto.name,
            contact_id: ContactId(proto.contact_id),
        }
    }
}

impl From<CreateRemoteFilerequest> for CreateRemoteFileRequestProto {
    fn from(r: CreateRemoteFilerequest) -> (proto: Self) {
        CreateRemoteFileRequestProto {
            peer_id: r.peer_id.0,
            file_request_id: r.filerequest_id,
            name: r.name,
            contact_id: r.contact_id.0,
        }
    }
}

impl vstd::std_specs::convert::FromSpecImpl<CreateRemoteFilerequest> for CreateRemoteFileRequestProto {
    open spec fn obeys_from_spec() -> bool {
        true
    }

    open spec fn from_spec(r: CreateRemoteFilerequest) -> Self {
        CreateRemoteFileRequestProto {
            peer_id: r.peer_id.0,
            file_request_id: r.filerequest_id,
            name: r.name,
            contact_id: r.contact_id.0,
        }
    }
}

impl From<CreateRemoteFileRequestProto> for CreateRemoteFilerequest {
    fn from(proto: CreateRemoteFileRequestProto) -> (r: Self) {
        CreateRemoteFilerequest {
            peer_id: PeerIdWrapper(proto.peer_id),
            filerequest_id: proto.file_request_id,
            name: proto.name,
            contact_id: ContactId(proto.contact_id),
        }
    }
}

impl vstd::std_specs::convert::FromSpecImpl<CreateRemoteFileRequestProto> for CreateRemoteFilerequest {
    open spec fn obeys_from_spec() -> bool {
        true
    }

    open spec fn from_spec(proto: CreateRemoteFileRequestProto) -> Self {
        CreateRemoteFilerequest {
            peer_id: PeerIdWrapper(proto.peer_id),
            filerequest_id: proto.file_request_id,
            name: proto.name,
            contact_id: ContactId(proto.contact_id),
        }
    }
}

// Files to send

impl crate::domain_models::SendStatusView {
    /// The status that clients are told. Of an unknown status they hear that it is pending.
    pub open spec fn proto(self) -> SendStatusProto {
        match self {
            crate::domain_models::SendStatusView::Pending => SendStatusProto::Pending,
            crate::domain_models::SendStatusView::InProgress { status, .. } => match status {
                InProgressSendStatus::Prepared => SendStatusProto::Prepared,
                InProgressSendStatus::Sending => SendStatusProto::Sending,
                InProgressSendStatus::Interrupted => SendStatusProto::Interrupted,
                InProgressSendStatus::PendingSent => SendStatusProto::PendingSent,
            },
            crate::domain_models::SendStatusView::Sent => SendStatusProto::Success,
            crate::domain_models::SendStatusView::Rejected => SendStatusProto::Rejected,
            crate::domain_models::SendStatusView::Failed => SendStatusProto::Failed,
            crate::domain_models::SendStatusView::Unknown(_) => SendStatusProto::Pending,
        }
    }
}

impl From<&SendStatus> for SendStatusProto {
    fn from(stat: &SendStatus) -> (r: Self) {
        match stat {
            SendStatus::Pending => SendStatusProto::Pending,
            SendStatus::InProgress(in_progress) => match in_progress.status {
                InProgressSendStatus::Prepared => SendStatusProto::Prepared,
                InProgressSendStatus::Sending => SendStatusProto::Sending,
                InProgressSendStatus::Interrupted => SendStatusProto::Interrupted,
                InProgressSendStatus::PendingSent => SendStatusProto::PendingSent,
            },
            SendStatus::Sent => SendStatusProto::Success,
            SendStatus::Rejected => SendStatusProto::Rejected,
            SendStatus::Failed => SendStatusProto::Failed,
            SendStatus::Unknown(_) => SendStatusProto::Pending,
        }
    }
}

impl vstd::std_specs::convert::FromSpecImpl<&SendStatus> for SendStatusProto {
    open spec fn obeys_from_spec() -> bool {
        true
    }

    open spec fn from_spec(stat: &SendStatus) -> Self {
        stat@.proto()
    }
}

/// What clients see of a file to send.
pub open spec fn shows_pending_file(
    proto: PendingFileProto,
    file: crate::domain_models::PendingFileView,
) -> bool {
    &&& proto.id@ == file.id
    &&& proto.file_path@ == file.file_path
    &&& proto.target_file_request_id@ == file.target_filerequest_id
    &&& proto.send_status == file.status.proto()
    &&& match (proto.transfer_data, file.status.transfer_data()) {
        (Some(shown), Some(data)) => shown.progress_bytes == data.progress_bytes
            && shown.transfer_id@ == data.transfer_id && shown.file_size_bytes
            == data.file_size_bytes,
        (None, None) => true,
        _ => false,
    }
    &&& crate::domain_models::opt_view(proto.display_name) == file.display_name
    &&& crate::domain_models::views(proto.interruption_reasons@) == file.interruption_reasons
}

impl From<&PendingFile> for PendingFileProto {
    fn from(p: &PendingFile) -> (r: Self)
        ensures
            shows_pending_file(r, p@),
    {
        PendingFileProto {
            id: p.id.0.clone(),
            file_path: p.file_path.clone(),
            target_file_request_id: p.target_filerequest_id.0.clone(),
            send_status: SendStatusProto::from(&p.status),
            transfer_data: match p.status.transfer_data() {
                Some(data) => Some(
                    TransferDataProto {
                        progress_bytes: data.progress_bytes,
                        transfer_id: data.transfer_id.0.clone(),
                        file_size_bytes: data.file_size_bytes,
                    },
                ),
                None => None,
            },
            display_name: p.display_name.clone(),
            interruption_reasons: clone_strings(&p.interruption_reasons),
        }
    }
}

impl vstd::std_specs::convert::FromSpecImpl<&PendingFile> for PendingFileProto {
    open spec fn obeys_from_spec() -> bool {
        false
    }

    open spec fn from_spec(p: &PendingFile) -> Self {
        arbitrary()
    }
}

/// The file that a message names.
pub open spec fn file_info_of(proto: FileInfoProto) -> FileInfo {
    FileInfo { path: proto.path, display_name: proto.display_name }
}

impl From<CreatePendingFilesProto> for CreatePendingFiles {
    fn from(p: CreatePendingFilesProto) -> (r: Self)
        ensures
            r.target_filerequest_id.0 == p.target_file_request_id,
            r.file_infos@ == p.file_infos@.map_values(|proto: FileInfoProto| file_info_of(proto)),
    {
        let mut file_infos: Vec<FileInfo> = Vec::new();
        let mut i: usize = 0;
        while i < p.file_infos.len()
            invariant
                i <= p.file_infos.len(),
                file_infos@.len() == i,
                forall|j: int|
                    0 <= j < i ==> file_infos@[j] == file_info_of(#[trigger] p.file_infos@[j]),
            decreases p.file_infos.len() - i,
        {
            file_infos.push(
                FileInfo {
                    path: p.file_infos[i].path.clone(),
                    display_name: p.file_infos[i].display_name.clone(),
                },
            );
            i = i + 1;
        }
        assert(file_infos@ =~= p.file_infos@.map_values(
            |proto: FileInfoProto| file_info_of(proto),
        ));
        CreatePendingFiles {
            file_infos,
            target_filerequest_id: FylesId(p.target_file_request_id),
        }
    }
}

impl vstd::std_specs::convert::FromSpecImpl<CreatePendingFilesProto> for CreatePendingFiles {
    open spec fn obeys_from_spec() -> bool {
        false
    }

    open spec fn from_spec(p: CreatePendingFilesProto) -> Self {
        arbitrary()
    }
}

// Received files

/// What clients see of a received file. Its size is shown as a signed number of the same bits.
pub open spec fn shows_received_file(proto: ReceivedFileProto, file: ReceivedFile) -> bool {
    &&& proto.id == file.id.0
    &&& proto.contact_id == (match file.contact_id {
        Some(id) => Some(id.0),
        None => None,
    })
    &&& proto.filerequest_id == file.filerequest_id.0
    &&& proto.file_name == file.file_name
    &&& proto.file_path@ == (match file.file_path {
        Some(path) => path@,
        None => Seq::<char>::empty(),
    })
    &&& proto.size == file.file_size_bytes as i64
    &&& proto.received_at_ms == (match file.received_at_ms {
        Some(at) => at,
        None => 0,
    })
}

impl From<ReceivedFile> for ReceivedFileProto {
    fn from(file: ReceivedFile) -> (r: Self)
        ensures
            shows_received_file(r, file),
    {
        proof {
            reveal_strlit("");
        }
        let proto = ReceivedFileProto {
            id: file.id.0,
            contact_id: match file.contact_id {
                Some(id) => Some(id.0),
                None => None,
            },
            filerequest_id: file.filerequest_id.0,
            file_name: file.file_name,
            file_path: match file.file_path {
                Some(path) => path,
                None => "".to_owned(),
            },
            size: #[verifier::truncate]
            (file.file_size_bytes as i64),
            received_at_ms: match file.received_at_ms {
                Some(at) => at,
                None => 0,
            },
        };
        assert(file.file_path is None ==> proto.file_path@ =~= Seq::<char>::empty());
        proto
    }
}

impl vstd::std_specs::convert::FromSpecImpl<ReceivedFile> for ReceivedFileProto {
    open spec fn obeys_from_spec() -> bool {
        false
    }

    open spec fn from_spec(file: ReceivedFile) -> Self {
        arbitrary()
    }
}

impl crate::domain_models::ReceiveStatusView {
    /// The status that clients are told. Of an unknown status they hear that it failed.
    pub open spec fn proto(self) -> ReceiveStatusProto {
        match self {
            crate::domain_models::ReceiveStatusView::Receiving =>
                ReceiveStatusProto::ReceiveStatusReceiving,
            crate::domain_models::ReceiveStatusView::Interrupted =>
                ReceiveStatusProto::ReceiveStatusInterrupted,
            crate::domain_models::ReceiveStatusView::Completed =>
                ReceiveStatusProto::ReceiveStatusCompleted,
            crate::domain_models::ReceiveStatusView::Failed =>
                ReceiveStatusProto::ReceiveStatusFailed,
            crate::domain_models::ReceiveStatusView::Unknown(_) =>
                ReceiveStatusProto::ReceiveStatusFailed,
        }
    }
}

impl From<&ReceiveStatus> for ReceiveStatusProto {
    fn from(status: &ReceiveStatus) -> (r: Self) {
        match status {
            ReceiveStatus::Receiving => ReceiveStatusProto::ReceiveStatusReceiving,
            ReceiveStatus::Interrupted => ReceiveStatusProto::ReceiveStatusInterrupted,
            ReceiveStatus::Completed => ReceiveStatusProto::ReceiveStatusCompleted,
            ReceiveStatus::Failed => ReceiveStatusProto::ReceiveStatusFailed,
            ReceiveStatus::Unknown(_) => ReceiveStatusProto::ReceiveStatusFailed,
        }
    }
}

impl vstd::std_specs::convert::FromSpecImpl<&ReceiveStatus> for ReceiveStatusProto {
    open spec fn obeys_from_spec() -> bool {
        true
    }

    open spec fn from_spec(status: &ReceiveStatus) -> Self {
        status@.proto()
    }
}

// Keys

/// Why bytes are no public keys.
#[derive(Debug)]
pub enum PublicKeyDeserializationError {
    PublicDilithium(DilithiumDecodeError),
    PublicEd25519(PublicEd25519DeserializationError),
}

impl PublicKeyDeserializationError {
    pub open spec fn text(self) -> Seq<char> {
        match self {
            PublicKeyDeserializationError::PublicDilithium(_) =>
                "Failed to deserialize public dilithium key. Wrong key length?"@,
            PublicKeyDeserializationError::PublicEd25519(error) => error.text(),
        }
    }

    pub fn to_text(&self) -> (r: String)
        ensures
            r@ == self.text(),
    {
        match self {
            PublicKeyDeserializationError::PublicDilithium(_) =>
                "Failed to deserialize public dilithium key. Wrong key length?".to_owned(),
            PublicKeyDeserializationError::PublicEd25519(error) => error.to_text(),
        }
    }
}

/// Why public keys have no bytes.
#[derive(Debug)]
pub enum PublicKeySerializationError {
    PublicDilithium(DilithiumEncodeError),
}

impl PublicKeySerializationError {
    pub open spec fn text(self) -> Seq<char> {
        match self {
            PublicKeySerializationError::PublicDilithium(_) =>
                "Failed to serialize public dilithium key. Wrong key length?"@,
        }
    }

    pub fn to_text(&self) -> (r: String)
        ensures
            r@ == self.text(),
    {
        match self {
            PublicKeySerializationError::PublicDilithium(_) =>
                "Failed to serialize public dilithium key. Wrong key length?".to_owned(),
        }
    }
}

/// Why bytes are no private keys.
#[derive(Debug)]
pub enum PrivateKeyDeserializationError {
    PrivateDilithium(DilithiumDecodeError),
    PrivateEd25519(PrivateEd25519DeserializationError),
}

impl PrivateKeyDeserializationError {
    pub open spec fn text(self) -> Seq<char> {
        match self {
            PrivateKeyDeserializationError::PrivateDilithium(_) =>
                "Failed to deserialize private dilithium key. Wrong key length?"@,
            PrivateKeyDeserializationError::PrivateEd25519(error) => error.text(),
        }
    }

    pub fn to_text(&self) -> (r: String)
        ensures
            r@ == self.text(),
    {
        match self {
            PrivateKeyDeserializationError::PrivateDilithium(_) =>
                "Failed to deserialize private dilithium key. Wrong key length?".to_owned(),
            PrivateKeyDeserializationError::PrivateEd25519(error) => error.to_text(),
        }
    }
}

/// Why private keys have no bytes.
#[derive(Debug)]
pub enum PrivateKeySerializationError {
    PrivateDilithium(DilithiumEncodeError),
}

impl PrivateKeySerializationError {
    pub open spec fn text(self) -> Seq<char> {
        match self {
            PrivateKeySerializationError::PrivateDilithium(_) =>
                "Failed to deserialize private dilithium key. Wrong key length?"@,
        }
    }

    pub fn to_text(&self) -> (r: String)
        ensures
            r@ == self.text(),
    {
        match self {
            PrivateKeySerializationError::PrivateDilithium(_) =>
                "Failed to deserialize private dilithium key. Wrong key length?".to_owned(),
        }
    }
}

/// Why a message describes no contact.
#[derive(Debug)]
pub enum SelfContactDeserializationError {
    Proto3FuckMissingKey(&'static str),
    PrivateKeyDeserialization(PrivateKeyDeserializationError),
    PublicKeyDeserialization(PublicKeyDeserializationError),
}

impl SelfContactDeserializationError {
    pub open spec fn text(self) -> Seq<char> {
        match self {
            SelfContactDeserializationError::Proto3FuckMissingKey(key) =>
                "Proto3 does not have required keys. No compiler support. Missing key: \""@ + key@
                + "\""@,
            SelfContactDeserializationError::PrivateKeyDeserialization(_) =>
                "Could not deserialize a private key"@,
            SelfContactDeserializationError::PublicKeyDeserialization(_) =>
                "Could not deserialize a public key"@,
        }
    }

    pub fn to_text(&self) -> (r: String)
        ensures
            r@ == self.text(),
    {
        match self {
            SelfContactDeserializationError::Proto3FuckMissingKey(key) =>
                "Proto3 does not have required keys. No compiler support. Missing key: \"".to_owned().concat(
                key,
            ).concat("\""),
            SelfContactDeserializationError::PrivateKeyDeserialization(_) =>
                "Could not deserialize a private key".to_owned(),
            SelfContactDeserializationError::PublicKeyDeserialization(_) =>
                "Could not deserialize a public key".to_owned(),
        }
    }
}

/// Why no message describes a contact.
#[derive(Debug)]
pub enum SelfContactSerializationError {
    PrivateKeySerialization(PrivateKeySerializationError),
    PublicKeySerialization(PublicKeySerializationError),
}

impl SelfContactSerializationError {
    pub open spec fn text(self) -> Seq<char> {
        match self {
            SelfContactSerializationError::PrivateKeySerialization(_) =>
                "Could not deserialize a private key"@,
            SelfContactSerializationError::PublicKeySerialization(_) =>
                "Could not deserialize a public key"@,
        }
    }

    pub fn to_text(&self) -> (r: String)
        ensures
            r@ == self.text(),
    {
        match self {
            SelfContactSerializationError::PrivateKeySerialization(_) =>
                "Could not deserialize a private key".to_owned(),
            SelfContactSerializationError::PublicKeySerialization(_) =>
                "Could not deserialize a public key".to_owned(),
        }
    }
}

/// The public keys that the bytes hold. The dilithium key may be followed by more bytes.
pub open spec fn decoded_public_keys(proto: crate::crypto::PublicKeysView) -> Result<
    crate::crypto::PublicKeysView,
    PublicKeyDeserializationError,
> {
    if proto.dilithium.len() < DILITHIUM_PUBLIC_KEY_LENGTH {
        Err(
            PublicKeyDeserializationError::PublicDilithium(
                DilithiumDecodeError { got: proto.dilithium.len() as usize },
            ),
        )
    } else if proto.ed25519.len() != ED25519_KEY_LENGTH {
        Err(
            PublicKeyDeserializationError::PublicEd25519(
                PublicEd25519DeserializationError::PublicEd25519Length {
                    got: proto.ed25519.len() as usize,
                    expected: ED25519_KEY_LENGTH,
                },
            ),
        )
    } else if !crate::crypto::is_ed25519_point(proto.ed25519) {
        Err(
            PublicKeyDeserializationError::PublicEd25519(
                PublicEd25519DeserializationError::PublicEd25519Format,
            ),
        )
    } else {
        Ok(
            crate::crypto::PublicKeysView {
                dilithium: proto.dilithium.take(DILITHIUM_PUBLIC_KEY_LENGTH as int),
                ed25519: proto.ed25519,
            },
        )
    }
}

/// The private keys that the bytes hold. The dilithium key may be followed by more bytes.
pub open spec fn decoded_private_keys(proto: crate::crypto::PrivateKeysView) -> Result<
    crate::crypto::PrivateKeysView,
    PrivateKeyDeserializationError,
> {
    if proto.dilithium.len() < DILITHIUM_SECRET_KEY_LENGTH {
        Err(
            PrivateKeyDeserializationError::PrivateDilithium(
                DilithiumDecodeError { got: proto.dilithium.len() as usize },
            ),
        )
    } else if proto.ed25519.len() != ED25519_KEY_LENGTH {
        Err(
            PrivateKeyDeserializationError::PrivateEd25519(
                PrivateEd25519DeserializationError::PrivateEd25519Length {
                    got: proto.ed25519.len() as usize,
                    expected: ED25519_KEY_LENGTH,
                },
            ),
        )
    } else {
        Ok(
            crate::crypto::PrivateKeysView {
                dilithium: proto.dilithium.take(DILITHIUM_SECRET_KEY_LENGTH as int),
                ed25519: proto.ed25519,
            },
        )
    }
}

/// The keys that the message holds: the private ones are looked for first.
pub open spec fn decoded_keys(proto: crate::wire::ContactKeysProtoView) -> Result<
    crate::crypto::KeysView,
    SelfContactDeserializationError,
> {
    match proto.private_keys {
        None => Err(SelfContactDeserializationError::Proto3FuckMissingKey("private_keys")),
        Some(private_proto) => match decoded_private_keys(private_proto) {
            Err(error) => Err(SelfContactDeserializationError::PrivateKeyDeserialization(error)),
            Ok(private) => match proto.public_keys {
                None => Err(SelfContactDeserializationError::Proto3FuckMissingKey("public_keys")),
                Some(public_proto) => match decoded_public_keys(public_proto) {
                    Err(error) => Err(
                        SelfContactDeserializationError::PublicKeyDeserialization(error),
                    ),
                    Ok(public) => Ok(crate::crypto::KeysView { private, public }),
                },
            },
        },
    }
}

/// The own contact that the message describes.
pub open spec fn decoded_self_contact(proto: crate::wire::SelfContactProtoView) -> Result<
    crate::domain_models::SelfContactView,
    SelfContactDeserializationError,
> {
    match proto.keys {
        None => Err(SelfContactDeserializationError::Proto3FuckMissingKey("keys")),
        Some(keys_proto) => match decoded_keys(keys_proto) {
            Err(error) => Err(error),
            Ok(keys) => Ok(
                crate::domain_models::SelfContactView { id: proto.id, name: proto.name, keys },
            ),
        },
    }
}

/// The contact that the message shares.
pub open spec fn decoded_shared_contact(proto: crate::wire::SelfContactPublicProtoView) -> Result<
    crate::domain_models::ContactView,
    SelfContactDeserializationError,
> {
    match proto.public_keys {
        None => Err(SelfContactDeserializationError::Proto3FuckMissingKey("public_keys")),
        Some(keys_proto) => match decoded_public_keys(keys_proto) {
            Err(error) => Err(SelfContactDeserializationError::PublicKeyDeserialization(error)),
            Ok(public_keys) => Ok(
                crate::domain_models::ContactView {
                    id: proto.contact_id,
                    name: proto.name,
                    public_keys,
                },
            ),
        },
    }
}

/// Whether a conversion came out as it should.
pub open spec fn agrees<T: View, E>(got: Result<T, E>, expected: Result<T::V, E>) -> bool {
    match got {
        Ok(value) => expected matches Ok(view) && value@ == view,
        Err(error) => expected matches Err(e) && error == e,
    }
}

impl TryFrom<ContactPublicKeysProto> for ContactPublicKeys {
    type Error = PublicKeyDeserializationError;

    fn try_from(proto: ContactPublicKeysProto) -> (r: Result<Self, PublicKeyDeserializationError>)
        ensures
            agrees(r, decoded_public_keys(proto@)),
    {
        let dilithium = match deserialize_dilithium_public_key(proto.dilithium) {
            Ok(key) => key,
            Err(error) => return Err(PublicKeyDeserializationError::PublicDilithium(error)),
        };
        match deserialize_ed25519_public_key(proto.ed25519) {
            Ok(ed25519) => Ok(ContactPublicKeys { dilithium, ed25519 }),
            Err(error) => Err(PublicKeyDeserializationError::PublicEd25519(error)),
        }
    }
}

impl vstd::std_specs::convert::TryFromSpecImpl<ContactPublicKeysProto> for ContactPublicKeys {
    open spec fn obeys_try_from_spec() -> bool {
        false
    }

    open spec fn try_from_spec(
        proto: ContactPublicKeysProto,
    ) -> Result<Self, PublicKeyDeserializationError> {
        arbitrary()
    }
}

impl TryFrom<ContactPrivateKeysProto> for ContactPrivateKeys {
    type Error = PrivateKeyDeserializationError;

    fn try_from(proto: ContactPrivateKeysProto) -> (r: Result<Self, PrivateKeyDeserializationError>)
        ensures
            agrees(r, decoded_private_keys(proto@)),
    {
        let dilithium = match deserialize_dilithium_private_key(proto.dilithium) {
            Ok(key) => key,
            Err(error) => return Err(PrivateKeyDeserializationError::PrivateDilithium(error)),
        };
        match deserialize_ed25519_private_key(proto.ed25519) {
            Ok(ed25519) => Ok(ContactPrivateKeys { dilithium, ed25519 }),
            Err(error) => Err(PrivateKeyDeserializationError::PrivateEd25519(error)),
        }
    }
}

impl vstd::std_specs::convert::TryFromSpecImpl<ContactPrivateKeysProto> for ContactPrivateKeys {
    open spec fn obeys_try_from_spec() -> bool {
        false
    }

    open spec fn try_from_spec(
        proto: ContactPrivateKeysProto,
    ) -> Result<Self, PrivateKeyDeserializationError> {
        arbitrary()
    }
}

impl TryFrom<ContactKeysProto> for ContactKeys {
    type Error = SelfContactDeserializationError;

    fn try_from(proto: ContactKeysProto) -> (r: Result<Self, SelfContactDeserializationError>)
        ensures
            agrees(r, decoded_keys(proto@)),
    {
        let private_proto = match proto.private_keys {
            Some(keys) => keys,
            None => return Err(
                SelfContactDeserializationError::Proto3FuckMissingKey("private_keys"),
            ),
        };
        let private = match ContactPrivateKeys::try_from(private_proto) {
            Ok(keys) => keys,
            Err(error) => return Err(
                SelfContactDeserializationError::PrivateKeyDeserialization(error),
            ),
        };
        let public_proto = match proto.public_keys {
            Some(keys) => keys,
            None => return Err(
                SelfContactDeserializationError::Proto3FuckMissingKey("public_keys"),
            ),
        };
        match ContactPublicKeys::try_from(public_proto) {
            Ok(public) => Ok(ContactKeys { private, public }),
            Err(error) => Err(SelfContactDeserializationError::PublicKeyDeserialization(error)),
        }
    }
}

impl vstd::std_specs::convert::TryFromSpecImpl<ContactKeysProto> for ContactKeys {
    open spec fn obeys_try_from_spec() -> bool {
        false
    }

    open spec fn try_from_spec(
        proto: ContactKeysProto,
    ) -> Result<Self, SelfContactDeserializationError> {
        arbitrary()
    }
}

impl TryFrom<SelfContactProto> for SelfContact {
    type Error = SelfContactDeserializationError;

    fn try_from(value: SelfContactProto) -> (r: Result<Self, SelfContactDeserializationError>)
        ensures
            agrees(r, decoded_self_contact(value@)),
    {
        match value.keys {
            Some(keys_proto) => match ContactKeys::try_from(keys_proto) {
                Ok(keys) => Ok(SelfContact { id: ContactId(value.id), name: value.name, keys }),
                Err(error) => Err(error),
            },
            None => Err(SelfContactDeserializationError::Proto3FuckMissingKey("keys")),
        }
    }
}

impl vstd::std_specs::convert::TryFromSpecImpl<SelfContactProto> for SelfContact {
    open spec fn obeys_try_from_spec() -> bool {
        false
    }

    open spec fn try_from_spec(
        value: SelfContactProto,
    ) -> Result<Self, SelfContactDeserializationError> {
        arbitrary()
    }
}

impl TryFrom<SelfContactPublicProto> for Contact {
    type Error = SelfContactDeserializationError;

    fn try_from(proto: SelfContactPublicProto) -> (r: Result<Self, SelfContactDeserializationError>)
        ensures
            agrees(r, decoded_shared_contact(proto@)),
    {
        match proto.public_keys {
            Some(keys_proto) => match ContactPublicKeys::try_from(keys_proto) {
                Ok(public_keys) => Ok(
                    Contact { id: ContactId(proto.contact_id), name: proto.name, public_keys },
                ),
                Err(error) => Err(SelfContactDeserializationError::PublicKeyDeserialization(error)),
            },
            None => Err(SelfContactDeserializationError::Proto3FuckMissingKey("public_keys")),
        }
    }
}

impl vstd::std_specs::convert::TryFromSpecImpl<SelfContactPublicProto> for Contact {
    open spec fn obeys_try_from_spec() -> bool {
        false
    }

    open spec fn try_from_spec(
        proto: SelfContactPublicProto,
    ) -> Result<Self, SelfContactDeserializationError> {
        arbitrary()
    }
}

/// Whether these can be the keys of a contact.
pub open spec fn are_public_keys(keys: crate::crypto::PublicKeysView) -> bool {
    &&& keys.dilithium.len() == DILITHIUM_PUBLIC_KEY_LENGTH
    &&& keys.ed25519.len() == ED25519_KEY_LENGTH
    &&& crate::crypto::is_ed25519_point(keys.ed25519)
}

/// Whether these can be the keys that a contact keeps to itself.
pub open spec fn are_private_keys(keys: crate::crypto::PrivateKeysView) -> bool {
    &&& keys.dilithium.len() == DILITHIUM_SECRET_KEY_LENGTH
    &&& keys.ed25519.len() == ED25519_KEY_LENGTH
}

impl TryFrom<ContactPublicKeys> for ContactPublicKeysProto {
    type Error = PublicKeySerializationError;

    fn try_from(value: ContactPublicKeys) -> (r: Result<Self, PublicKeySerializationError>)
        ensures
            r matches Ok(proto) && proto@ == value@ && are_public_keys(value@),
    {
        let dilithium = match serialize_dilithium_public_key(&value.dilithium) {
            Ok(bytes) => bytes,
            Err(error) => return Err(PublicKeySerializationError::PublicDilithium(error)),
        };
        Ok(
            ContactPublicKeysProto {
                dilithium,
                ed25519: serialize_ed25519_public_key(&value.ed25519),
            },
        )
    }
}

impl vstd::std_specs::convert::TryFromSpecImpl<ContactPublicKeys> for ContactPublicKeysProto {
    open spec fn obeys_try_from_spec() -> bool {
        false
    }

    open spec fn try_from_spec(
        value: ContactPublicKeys,
    ) -> Result<Self, PublicKeySerializationError> {
        arbitrary()
    }
}

impl TryFrom<ContactPrivateKeys> for ContactPrivateKeysProto {
    type Error = PrivateKeySerializationError;

    fn try_from(value: ContactPrivateKeys) -> (r: Result<Self, PrivateKeySerializationError>)
        ensures
            r matches Ok(proto) && proto@ == value@ && are_private_keys(value@),
    {
        let dilithium = match serialize_dilithium_private_key(&value.dilithium) {
            Ok(bytes) => bytes,
            Err(error) => return Err(PrivateKeySerializationError::PrivateDilithium(error)),
        };
        Ok(
            ContactPrivateKeysProto {
                dilithium,
                ed25519: serialize_ed25519_private_key(&value.ed25519),
            },
        )
    }
}

impl vstd::std_specs::convert::TryFromSpecImpl<ContactPrivateKeys> for ContactPrivateKeysProto {
    open spec fn obeys_try_from_spec() -> bool {
        false
    }

    open spec fn try_from_spec(
        value: ContactPrivateKeys,
    ) -> Result<Self, PrivateKeySerializationError> {
        arbitrary()
    }
}

/// The message that holds the keys.
pub open spec fn encoded_keys(keys: crate::crypto::KeysView) -> crate::wire::ContactKeysProtoView {
    crate::wire::ContactKeysProtoView {
        private_keys: Some(keys.private),
        public_keys: Some(keys.public),
    }
}

/// The message that describes one's own contact.
pub open spec fn encoded_self_contact(
    contact: crate::domain_models::SelfContactView,
) -> crate::wire::SelfContactProtoView {
    crate::wire::SelfContactProtoView {
        id: contact.id,
        name: contact.name,
        keys: Some(encoded_keys(contact.keys)),
    }
}

/// The message that shares a contact.
pub open spec fn encoded_shared_contact(
    contact: crate::domain_models::ContactView,
) -> crate::wire::SelfContactPublicProtoView {
    crate::wire::SelfContactPublicProtoView {
        name: contact.name,
        contact_id: contact.id,
        public_keys: Some(contact.public_keys),
    }
}

impl TryFrom<ContactKeys> for ContactKeysProto {
    type Error = SelfContactSerializationError;

    fn try_from(value: ContactKeys) -> (r: Result<Self, SelfContactSerializationError>)
        ensures
            r matches Ok(proto) && proto@ == encoded_keys(value@)
                && are_private_keys(value@.private)
                && are_public_keys(value@.public),
    {
        let private_keys = match ContactPrivateKeysProto::try_from(value.private) {
            Ok(keys) => keys,
            Err(error) => return Err(SelfContactSerializationError::PrivateKeySerialization(error)),
        };
        let public_keys = match ContactPublicKeysProto::try_from(value.public) {
            Ok(keys) => keys,
            Err(error) => return Err(SelfContactSerializationError::PublicKeySerialization(error)),
        };
        Ok(ContactKeysProto { private_keys: Some(private_keys), public_keys: Some(public_keys) })
    }
}

impl vstd::std_specs::convert::TryFromSpecImpl<ContactKeys> for ContactKeysProto {
    open spec fn obeys_try_from_spec() -> bool {
        false
    }

    open spec fn try_from_spec(value: ContactKeys) -> Result<Self, SelfContactSerializationError> {
        arbitrary()
    }
}

impl TryFrom<SelfContact> for SelfContactProto {
    type Error = SelfContactSerializationError;

    fn try_from(value: SelfContact) -> (r: Result<Self, SelfContactSerializationError>)
        ensures
            r matches Ok(proto) && proto@ == encoded_self_contact(value@) && are_private_keys(
                value@.keys.private,
            ) && are_public_keys(value@.keys.public),
    {
        match ContactKeysProto::try_from(value.keys) {
            Ok(keys) => Ok(
                SelfContactProto { id: value.id.0, name: value.name, keys: Some(keys) },
            ),
            Err(error) => Err(error),
        }
    }
}

impl vstd::std_specs::convert::TryFromSpecImpl<SelfContact> for SelfContactProto {
    open spec fn obeys_try_from_spec() -> bool {
        false
    }

    open spec fn try_from_spec(value: SelfContact) -> Result<Self, SelfContactSerializationError> {
        arbitrary()
    }
}

impl TryFrom<Contact> for SelfContactPublicProto {
    type Error = PublicKeySerializationError;

    fn try_from(contact: Contact) -> (r: Result<Self, PublicKeySerializationError>)
        ensures
            r matches Ok(proto) && proto@ == encoded_shared_contact(contact@) && are_public_keys(
                contact@.public_keys,
            ),
    {
        match ContactPublicKeysProto::try_from(contact.public_keys) {
            Ok(public_keys) => Ok(
                SelfContactPublicProto {
                    name: contact.name,
                    contact_id: contact.id.0,
                    public_keys: Some(public_keys),
                },
            ),
            Err(error) => Err(error),
        }
    }
}

impl vstd::std_specs::convert::TryFromSpecImpl<Contact> for SelfContactPublicProto {
    open spec fn obeys_try_from_spec() -> bool {
        false
    }

    open spec fn try_from_spec(contact: Contact) -> Result<Self, PublicKeySerializationError> {
        arbitrary()
    }
}

/// The message that describes one's own contact gives that contact back.
pub proof fn law_self_contact_proto_round_trip(contact: crate::domain_models::SelfContactView)
    requires
        are_private_keys(contact.keys.private),
        are_public_keys(contact.keys.public),
    ensures
        decoded_self_contact(encoded_self_contact(contact)) == Ok::<
            crate::domain_models::SelfContactView,
            SelfContactDeserializationError,
        >(contact),
{
    assert(contact.keys.private.dilithium.take(DILITHIUM_SECRET_KEY_LENGTH as int)
        =~= contact.keys.private.dilithium);
    assert(contact.keys.public.dilithium.take(DILITHIUM_PUBLIC_KEY_LENGTH as int)
        =~= contact.keys.public.dilithium);
}

/// The message that shares a contact gives that contact back.
pub proof fn law_shared_contact_round_trip(contact: crate::domain_models::ContactView)
    requires
        are_public_keys(contact.public_keys),
    ensures
        decoded_shared_contact(encoded_shared_contact(contact)) == Ok::<
            crate::domain_models::ContactView,
            SelfContactDeserializationError,
        >(contact),
{
    assert(contact.public_keys.dilithium.take(DILITHIUM_PUBLIC_KEY_LENGTH as int)
        =~= contact.public_keys.dilithium);
}

// Messages that are pushed to clients

impl ServerMessage {
    pub fn received_self_contact_invite_over_network() -> (r: Self)
        ensures
            r == (ServerMessage {
                message: Some(
                    Message::ReceivedSelfContactInviteOverNetwork(
                        ReceivedSelfContactInviteOverNetwork {  },
                    ),
                ),
            }),
    {
        ServerMessage {
            message: Some(
                Message::ReceivedSelfContactInviteOverNetwork(
                    ReceivedSelfContactInviteOverNetwork {  },
                ),
            ),
        }
    }

    pub fn self_contact_invite_accepted_over_network() -> (r: Self)
        ensures
            r == (ServerMessage {
                message: Some(
                    Message::SelfContactInviteAcceptedOverNetwork(
                        SelfContactInviteAcceptedOverNetwork {  },
                    ),
                ),
            }),
    {
        ServerMessage {
            message: Some(
                Message::SelfContactInviteAcceptedOverNetwork(
                    SelfContactInviteAcceptedOverNetwork {  },
                ),
            ),
        }
    }

    pub fn contact_share_accepted_over_network() -> (r: Self)
        ensures
            r == (ServerMessage {
                message: Some(
                    Message::ReceivedContactShareOverNetwork(ReceivedContactShareOverNetwork {  }),
                ),
            }),
    {
        ServerMessage {
            message: Some(
                Message::ReceivedContactShareOverNetwork(ReceivedContactShareOverNetwork {  }),
            ),
        }
    }

    pub fn database_restored() -> (r: Self)
        ensures
            r == (ServerMessage {
                message: Some(Message::DatabaseRestoredFromBackup(DatabaseRestoredFromBackup {  })),
            }),
    {
        ServerMessage {
            message: Some(Message::DatabaseRestoredFromBackup(DatabaseRestoredFromBackup {  })),
        }
    }

    /// Whether the message tells the status of a file to send.
    pub open spec fn reports_pending_file(
        self,
        pending_file_id: Seq<char>,
        status: crate::domain_models::SendStatusView,
        target_filerequest_id: Seq<char>,
    ) -> bool {
        &&& self.message matches Some(Message::PendingFileStatusChanged(change))
        &&& change.pending_file_id@ == pending_file_id
        &&& change.new_status == status.proto()
        &&& change.target_file_request_id@ == target_filerequest_id
        &&& change.interruption_reasons@.len() == 0
        &&& match status.transfer_data() {
            Some(data) => {
                &&& change.progress_bytes == Some(data.progress_bytes)
                &&& change.file_size_bytes == Some(data.file_size_bytes)
                &&& change.transfer_id matches Some(transfer_id)
                &&& transfer_id@ == data.transfer_id
            },
            None => change.progress_bytes is None && change.file_size_bytes is None
                && change.transfer_id is None,
        }
    }

    pub fn pending_file_status_changed(
        pending_file_id: &str,
        status: &SendStatus,
        target_filerequest_id: &str,
    ) -> (r: Self)
        ensures
            r.reports_pending_file(pending_file_id@, status@, target_filerequest_id@),
    {
        let transfer_data = status.transfer_data();
        ServerMessage {
            message: Some(
                Message::PendingFileStatusChanged(
                    PendingFileStatusChanged {
                        pending_file_id: pending_file_id.to_owned(),
                        new_status: SendStatusProto::from(status),
                        progress_bytes: match transfer_data {
                            Some(data) => Some(data.progress_bytes),
                            None => None,
                        },
                        transfer_id: match transfer_data {
                            Some(data) => Some(data.transfer_id.0.clone()),
                            None => None,
                        },
                        file_size_bytes: match transfer_data {
                            Some(data) => Some(data.file_size_bytes),
                            None => None,
                        },
                        target_file_request_id: target_filerequest_id.to_owned(),
                        interruption_reasons: Vec::new(),
                    },
                ),
            ),
        }
    }

    /// The message that tells the status of a received file.
    pub open spec fn received_file_report(rf: ReceivedFile) -> ServerMessage {
        ServerMessage {
            message: Some(
                Message::ReceivedFileStatusChanged(
                    ReceivedFileStatusChanged {
                        transfer_id: match rf.transfer_id {
                            Some(id) => Some(id.0),
                            None => None,
                        },
                        filerequest_id: rf.filerequest_id.0,
                        new_status: rf.status@.proto(),
                        progress_bytes: rf.progress_bytes,
                        file_size_bytes: rf.file_size_bytes,
                        file_name: rf.file_name,
                    },
                ),
            ),
        }
    }

    pub fn received_file_status_changed(rf: &ReceivedFile) -> (r: Self)
        ensures
            r == ServerMessage::received_file_report(*rf),
    {
        ServerMessage {
            message: Some(
                Message::ReceivedFileStatusChanged(
                    ReceivedFileStatusChanged {
                        transfer_id: match &rf.transfer_id {
                            Some(id) => Some(id.0.clone()),
                            None => None,
                        },
                        filerequest_id: rf.filerequest_id.0.clone(),
                        new_status: ReceiveStatusProto::from(&rf.status),
                        progress_bytes: rf.progress_bytes,
                        file_size_bytes: rf.file_size_bytes,
                        file_name: rf.file_name.clone(),
                    },
                ),
            ),
        }
    }
}

} // verus!
