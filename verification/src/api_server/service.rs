//! What clients may ask for over the interface, and how they are answered.
use vstd::prelude::*;

use crate::brain::action::BrainAction;
use crate::brain::action_client::ClientAction;
use crate::brain::error::FilerequestError;
use crate::brain::exchange::{Answer, Response};
use crate::brain::types::{ContactShareChallenge, SelfContactInviteChallenge};
use crate::domain_models::{
    clone_strings, Contact, ContactId, CreateFilerequest, CreatePendingFiles,
    CreateRemoteFilerequest, DisplayContact, Filerequest, FilerequestAccess, FylesId,
    PeerIdWrapper, PendingFile, ReceivedFile, RemoteFilerequest, SelfContact,
};
use crate::domain_proto_conversion::strings_to_ids;
use crate::io_controller::Uri;
use crate::p2p::NodeStatusInfo;
use crate::wire::{
    AccessProto, ContactProto, CreatePendingFilesProto, CreateRemoteFileRequestProto,
    FileInfoProto, FileRequestProto, PendingFileProto, ReceivedFileProto, RemoteFileRequestProto,
    SelfContactProto, SelfContactPublicProto, Status,
};

verus! {

/// What clients may ask for.
#[allow(inconsistent_fields)]
#[derive(Debug)]
pub enum ApiRequest {
    GetFileRequest { id: String },
    CreateFileRequest { title: String, description: String, access: Option<AccessProto> },
    GetVersion,
    Shutdown,
    UpdateFileRequest { file_request: Option<FileRequestProto> },
    DeleteFileRequest { id: String },
    GetAllFileRequests,
    GetContactName { id: String },
    GetContactNames { ids: Vec<String> },
    GetContact { id: String },
    GetAllContacts,
    UpdateContact { contact: Option<ContactProto> },
    DeleteContact { id: String },
    UpdateSelfContactName { name: String },
    WaitForReady { ticket: u64 },
    GetFullSelfContact,
    UpdateIdentity { self_contact: Option<SelfContactProto> },
    GetSelfContactDisplay,
    SharePublicSelfContact,
    RegisterContact { sharable_contact: Option<SelfContactPublicProto> },
    StoreRemoteFileRequest { remote_file_request: Option<CreateRemoteFileRequestProto> },
    GetRemoteFileRequest { id: String },
    ListRemoteFileRequests { contact_id: String },
    GetAllRemoteFileRequests,
    DeleteRemoteFileRequest { id: String },
    StorePendingFile { pending_files: CreatePendingFilesProto },
    GetPendingFile { id: String },
    ListPendingFiles { target_file_request_id: String },
    GetAllPendingFiles,
    DeletePendingFile { id: String },
    UpdateRemoteFileRequest { remote_file_request: Option<RemoteFileRequestProto> },
    GetNodePeerId,
    ListReceivedFiles { remote_file_request_id: String },
    DeleteReceivedFile { id: String },
    GetSelfContactInviteChallenge,
    UnregisterSelfContactInviteChallenge { challenge: Vec<u8> },
    UseSelfContactInvite { challenge: Vec<u8>, peer_id: String },
    GetContactShareChallenge,
    UnregisterContactShareChallenge { challenge: Vec<u8> },
    UseContactShareChallenge { challenge: Vec<u8>, peer_id: String },
    BackupData,
    RestoreData { backup_file_path: String },
    UpdateSettings { settings: Vec<u8> },
    GetSettings,
    GetNodeStatus,
    HealthCheck,
}

/// What the node tells of itself.
#[derive(Debug)]
pub struct NodeStatus {
    pub is_running: bool,
    pub error_message: String,
    pub peer_id: String,
    pub multiaddrs: Vec<String>,
    pub version: String,
    pub start_timestamp: u64,
    pub uptime_seconds: u64,
    pub connected_peers: u64,
    pub known_peers: u64,
    pub bandwidth_in_bytes: u64,
    pub bandwidth_out_bytes: u64,
    pub memory_usage_bytes: u64,
    pub timestamp: u64,
}

/// What clients are answered.
#[allow(inconsistent_fields)]
#[derive(Debug)]
pub enum ApiResponse {
    FileRequest(FileRequestProto),
    FileRequests(Vec<FileRequestProto>),
    Version(String),
    Success(bool),
    Name(String),
    Names(Vec<(String, String)>),
    Contact(ContactProto),
    Contacts(Vec<ContactProto>),
    Ready { successfully_started: bool },
    SelfContact(SelfContactProto),
    SharableContact(SelfContactPublicProto),
    Id(String),
    Ids(Vec<String>),
    RemoteFileRequest(RemoteFileRequestProto),
    RemoteFileRequests(Vec<RemoteFileRequestProto>),
    PendingFile(PendingFileProto),
    PendingFiles(Vec<PendingFileProto>),
    PeerId(String),
    ReceivedFiles(Vec<ReceivedFileProto>),
    Challenge(Vec<u8>),
    Nothing,
    Settings(Vec<u8>),
    NodeStatus(NodeStatus),
    Health { is_healthy: bool, message: String },
}

/// What a request waits for, with what is needed to answer it.
#[allow(inconsistent_fields)]
#[derive(Debug)]
pub enum Awaited {
    FileRequest,
    CreatedFileRequest { title: String, description: String, access: Option<AccessProto> },
    UpdatedFileRequest { file_request: FileRequestProto },
    FileRequests,
    Shutdown,
    /// That it was done.
    Done,
    Name,
    Names,
    Contact,
    Contacts,
    Ready,
    FullSelfContact,
    SelfContactDisplay,
    SharableContact,
    Id,
    Ids,
    RemoteFileRequest,
    RemoteFileRequests,
    RemoteUpdate,
    /// That a peer's file request was deleted.
    RemoteDeletion,
    PendingFile,
    PendingFiles,
    PeerId,
    ReceivedFiles,
    ReceivedFileDeletion,
    InviteChallenge,
    ShareChallenge,
    /// An answer that says nothing.
    Nothing,
    Backup,
    SettingsUpdate,
    Settings,
    NodeStatus,
}

/// A request that was understood.
#[derive(Debug)]
pub enum Begun {
    Answered(ApiResponse),
    /// The action is to be handled, and what comes of it is awaited.
    Dispatch(ClientAction, Awaited),
}

/// What became of an action.
#[derive(Debug)]
pub enum Delivery {
    /// Nobody handles actions any more.
    NotSent,
    /// The action was dropped without an answer.
    NoAnswer,
    Answered(Response),
}

/// Why a request is refused before it is handled, if it is.
pub open spec fn refusal(request: ApiRequest) -> Option<Seq<char>> {
    match request {
        ApiRequest::CreateFileRequest { access, .. } => match access {
            Some(access) if access@ is Some => None,
            _ => Some("Missing access type"@),
        },
        ApiRequest::UpdateFileRequest { file_request } => match file_request {
            None => Some("Missing file_request"@),
            Some(proto) => if proto@.filerequest() is Some {
                None
            } else {
                Some("Missing access type"@)
            },
        },
        ApiRequest::UpdateContact { contact } => if contact is Some {
            None
        } else {
            Some("Missing contact"@)
        },
        ApiRequest::UpdateIdentity { self_contact } => match self_contact {
            None => Some("Missing contact in UpdateIdentityRequest"@),
            Some(proto) => match crate::domain_proto_conversion::decoded_self_contact(proto@) {
                Ok(_) => None,
                Err(error) => Some(error.text()),
            },
        },
        ApiRequest::RegisterContact { sharable_contact } => match sharable_contact {
            None => Some("Missing sharable_contact"@),
            Some(proto) => match crate::domain_proto_conversion::decoded_shared_contact(proto@) {
                Ok(_) => None,
                Err(error) => Some(error.text()),
            },
        },
        ApiRequest::StoreRemoteFileRequest { remote_file_request } => if remote_file_request
            is Some {
            None
        } else {
            Some("Missing remote file request"@)
        },
        ApiRequest::UpdateRemoteFileRequest { remote_file_request } => if remote_file_request
            is Some {
            None
        } else {
            Some("Missing remote file request"@)
        },
        _ => None,
    }
}

/// Whether the request is answered without being handled, and how.
pub open spec fn is_answered_directly(
    request: ApiRequest,
    version: Seq<char>,
    response: ApiResponse,
) -> bool {
    match request {
        ApiRequest::GetVersion => response matches ApiResponse::Version(text) && text@ == version,
        ApiRequest::HealthCheck => response matches ApiResponse::Health { is_healthy, message }
            && is_healthy && message@ == "OK"@,
        _ => false,
    }
}

/// Whether the action is the one that the request stands for, and what is then waited for.
pub open spec fn dispatches(request: ApiRequest, action: ClientAction, awaited: Awaited) -> bool {
    match request {
        ApiRequest::GetFileRequest { id } => action == ClientAction::ReadFilerequest(FylesId(id))
            && awaited is FileRequest,
        ApiRequest::CreateFileRequest {
            title,
            description,
            access,
        } => action matches ClientAction::CreateFilerequest(filerequest)
            && awaited
            matches Awaited::CreatedFileRequest { title: t, description: d, access: a }
                && t@ == title@ && d@ == description@
            && crate::domain_models::opt_view(a) == crate::domain_models::opt_view(access)
            && filerequest.title == title && filerequest.description == description
            && filerequest.is_active
                && crate::domain_models::opt_view(access) == Some(Some(filerequest.access@)),
        ApiRequest::GetVersion => false,
        ApiRequest::Shutdown => action is Shutdown && awaited is Shutdown,
        ApiRequest::UpdateFileRequest {
            file_request,
        } => action matches ClientAction::UpdateFilerequest(filerequest)
            && awaited
            matches Awaited::UpdatedFileRequest { file_request: echoed }
                && file_request matches Some(proto)
            && proto@.filerequest() == Some(filerequest@) && echoed@ == proto@,
        ApiRequest::DeleteFileRequest { id } => action == ClientAction::DeleteFilerequest(
            FylesId(id),
        )
            && awaited is Done,
        ApiRequest::GetAllFileRequests => action is ListFilerequests && awaited is FileRequests,
        ApiRequest::GetContactName { id } => action == ClientAction::GetContactName(ContactId(id))
            && awaited is Name,
        ApiRequest::GetContactNames { ids } => action matches ClientAction::GetContactNames(
            contact_ids,
        )
            && crate::domain_models::views(contact_ids@) == crate::domain_models::views(ids@)
                && awaited is Names,
        ApiRequest::GetContact { id } => action == ClientAction::GetContact(ContactId(id))
            && awaited is Contact,
        ApiRequest::GetAllContacts => action is ListContacts && awaited is Contacts,
        ApiRequest::UpdateContact { contact } => contact matches Some(proto)
            && action == ClientAction::UpdateContact(
            DisplayContact { id: ContactId(proto.id), name: proto.name },
        ) && awaited is Done,
        ApiRequest::DeleteContact { id } => action == ClientAction::DeleteContact(ContactId(id))
            && awaited is Done,
        ApiRequest::UpdateSelfContactName {
            name,
        } => action == ClientAction::UpdateSelfContactName(name)
            && awaited is Done,
        ApiRequest::WaitForReady { ticket } => action == ClientAction::WaitForReady(ticket)
            && awaited is Ready,
        ApiRequest::GetFullSelfContact => action is GetFullSelfContact
            && awaited is FullSelfContact,
        ApiRequest::UpdateIdentity {
            self_contact,
        } => action matches ClientAction::UpdateIdentity(contact)
            && self_contact matches Some(proto)
            && crate::domain_proto_conversion::decoded_self_contact(proto@) matches Ok(decoded)
                && contact@ == decoded && awaited is Done,
        ApiRequest::GetSelfContactDisplay => action is GetSelfContactDisplay
            && awaited is SelfContactDisplay,
        ApiRequest::SharePublicSelfContact => action is SharePublicSelfContact
            && awaited is SharableContact,
        ApiRequest::RegisterContact {
            sharable_contact,
        } => action matches ClientAction::RegisterContact(contact)
            && sharable_contact matches Some(proto)
            && crate::domain_proto_conversion::decoded_shared_contact(proto@) matches Ok(decoded)
                && contact@ == decoded && awaited is Done,
        ApiRequest::StoreRemoteFileRequest {
            remote_file_request,
        } => remote_file_request matches Some(proto)
            && action == ClientAction::CreateRemoteFilerequest(
            CreateRemoteFilerequest {
                peer_id: PeerIdWrapper(proto.peer_id),
                filerequest_id: proto.file_request_id,
                name: proto.name,
                contact_id: ContactId(proto.contact_id),
            },
        ) && awaited is Id,
        ApiRequest::GetRemoteFileRequest { id } => action == ClientAction::GetRemoteFilerequest(
            FylesId(id),
        )
            && awaited is RemoteFileRequest,
        ApiRequest::ListRemoteFileRequests {
            contact_id,
        } => action == ClientAction::GetRemoteFilerequestsByContact(
            ContactId(contact_id),
        )
            && awaited is RemoteFileRequests,
        ApiRequest::GetAllRemoteFileRequests => action is GetAllRemoteFilerequests
            && awaited is RemoteFileRequests,
        ApiRequest::DeleteRemoteFileRequest {
            id,
        } => action == ClientAction::DeleteRemoteFilerequest(
            FylesId(id),
        )
            && awaited is RemoteDeletion,
        ApiRequest::StorePendingFile {
            pending_files,
        } => action matches ClientAction::CreatePendingFiles(files)
            && files.target_filerequest_id.0 == pending_files.target_file_request_id
            && files.file_infos@ == pending_files.file_infos@.map_values(
                |proto: FileInfoProto| crate::domain_proto_conversion::file_info_of(proto),
            )
            && awaited is Ids,
        ApiRequest::GetPendingFile { id } => action == ClientAction::GetPendingFile(FylesId(id))
            && awaited is PendingFile,
        ApiRequest::ListPendingFiles {
            target_file_request_id,
        } => action == ClientAction::GetPendingFiles(
            FylesId(target_file_request_id),
        )
            && awaited is PendingFiles,
        ApiRequest::GetAllPendingFiles => action is GetAllPendingFiles && awaited is PendingFiles,
        ApiRequest::DeletePendingFile { id } => action == ClientAction::DeletePendingFile(
            FylesId(id),
        )
            && awaited is Done,
        ApiRequest::UpdateRemoteFileRequest {
            remote_file_request,
        } => remote_file_request matches Some(proto)
            && action == ClientAction::UpdateRemoteFilerequest(
            FylesId(proto.id),
            proto.name,
        ) && awaited is RemoteUpdate,
        ApiRequest::GetNodePeerId => action is GetNodePeerId && awaited is PeerId,
        ApiRequest::ListReceivedFiles {
            remote_file_request_id,
        } => action == ClientAction::ListReceivedFilesForRequest(
            FylesId(remote_file_request_id),
        )
            && awaited is ReceivedFiles,
        ApiRequest::DeleteReceivedFile { id } => action == ClientAction::DeleteReceivedFile(
            FylesId(id),
        )
            && awaited is ReceivedFileDeletion,
        ApiRequest::GetSelfContactInviteChallenge => action is RegisterSelfContactInviteChallenge
            && awaited is InviteChallenge,
        ApiRequest::UnregisterSelfContactInviteChallenge {
            challenge,
        } => action == ClientAction::UnregisterSelfContactInviteChallenge(
            SelfContactInviteChallenge(challenge),
        )
            && awaited is Nothing,
        ApiRequest::UseSelfContactInvite {
            challenge,
            peer_id,
        } => action == ClientAction::UseSelfContactInviteChallenge(
            SelfContactInviteChallenge(challenge),
            PeerIdWrapper(peer_id),
        )
            && awaited is Nothing,
        ApiRequest::GetContactShareChallenge => action is RegisterContactShareChallenge
            && awaited is ShareChallenge,
        ApiRequest::UnregisterContactShareChallenge {
            challenge,
        } => action == ClientAction::UnregisterContactShareChallenge(
            ContactShareChallenge(challenge),
        )
            && awaited is Nothing,
        ApiRequest::UseContactShareChallenge {
            challenge,
            peer_id,
        } => action == ClientAction::UseContactShareChallenge(
            ContactShareChallenge(challenge),
            PeerIdWrapper(peer_id),
        )
            && awaited is Nothing,
        ApiRequest::BackupData => action is BackupData && awaited is Backup,
        ApiRequest::RestoreData { backup_file_path } => action == ClientAction::RestoreData(
            Uri(backup_file_path),
        )
            && awaited is Backup,
        ApiRequest::UpdateSettings { settings } => action == ClientAction::UpdateSettings(settings)
            && awaited is SettingsUpdate,
        ApiRequest::GetSettings => action is GetSettings && awaited is Settings,
        ApiRequest::GetNodeStatus => action is GetNodeStatus && awaited is NodeStatus,
        ApiRequest::HealthCheck => false,
    }
}

fn dispatch(action: ClientAction, awaited: Awaited) -> (r: Result<Begun, Status>)
    ensures
        r matches Ok(begun) && begun == Begun::Dispatch(action, awaited),
{
    Ok(Begun::Dispatch(action, awaited))
}

/// What a client sends on its stream of messages.
#[derive(Debug)]
pub enum ClientMessage {
    StoreRemoteFileRequest(CreateRemoteFileRequestProto),
}

/// What a message from a client stands for. Nobody waits for what comes of it.
pub fn action_of_message(message: ClientMessage) -> (r: BrainAction)
    ensures
        message matches ClientMessage::StoreRemoteFileRequest(proto) && r == BrainAction::Client(
            ClientAction::CreateRemoteFilerequest(
                CreateRemoteFilerequest {
                    peer_id: PeerIdWrapper(proto.peer_id),
                    filerequest_id: proto.file_request_id,
                    name: proto.name,
                    contact_id: ContactId(proto.contact_id),
                },
            ),
        ),
{
    match message {
        ClientMessage::StoreRemoteFileRequest(proto) => BrainAction::Client(
            ClientAction::CreateRemoteFilerequest(CreateRemoteFilerequest::from(proto)),
        ),
    }
}

/// Begins to serve a request: says which action it stands for, or why it is refused. `version` is
/// that of the program.
pub fn begin(request: ApiRequest, version: &str) -> (r: Result<Begun, Status>)
    ensures
        match r {
            Ok(Begun::Answered(response)) => is_answered_directly(request, version@, response),
            Ok(Begun::Dispatch(action, awaited)) => refusal(request) is None && dispatches(
                request,
                action,
                awaited,
            ),
            Err(status) => refusal(request) matches Some(message) && status.is_invalid_argument(
                message,
            ),
        },
{
    match request {
        ApiRequest::GetFileRequest { id } => dispatch(
            ClientAction::ReadFilerequest(FylesId(id)),
            Awaited::FileRequest,
        ),
        ApiRequest::CreateFileRequest { title, description, access } => {
            let echoed = match &access {
                Some(access) => Some(access.clone()),
                None => None,
            };
            match FilerequestAccess::try_from(access) {
                Ok(granted) => dispatch(
                    ClientAction::CreateFilerequest(
                        CreateFilerequest {
                            title: title.clone(),
                            description: description.clone(),
                            is_active: true,
                            access: granted,
                        },
                    ),
                    Awaited::CreatedFileRequest { title, description, access: echoed },
                ),
                Err(status) => Err(status),
            }
        },
        ApiRequest::GetVersion => Ok(Begun::Answered(ApiResponse::Version(version.to_owned()))),
        ApiRequest::Shutdown => dispatch(ClientAction::Shutdown, Awaited::Shutdown),
        ApiRequest::UpdateFileRequest { file_request } => match file_request {
            Some(proto) => {
                let echoed = proto.clone();
                match Filerequest::try_from(proto) {
                    Ok(filerequest) => dispatch(
                        ClientAction::UpdateFilerequest(filerequest),
                        Awaited::UpdatedFileRequest { file_request: echoed },
                    ),
                    Err(status) => Err(status),
                }
            },
            None => Err(Status::invalid_argument("Missing file_request".to_owned())),
        },
        ApiRequest::DeleteFileRequest { id } => dispatch(
            ClientAction::DeleteFilerequest(FylesId(id)),
            Awaited::Done,
        ),
        ApiRequest::GetAllFileRequests => dispatch(
            ClientAction::ListFilerequests,
            Awaited::FileRequests,
        ),
        ApiRequest::GetContactName { id } => dispatch(
            ClientAction::GetContactName(ContactId(id)),
            Awaited::Name,
        ),
        ApiRequest::GetContactNames { ids } => dispatch(
            ClientAction::GetContactNames(strings_to_ids(ids)),
            Awaited::Names,
        ),
        ApiRequest::GetContact { id } => dispatch(
            ClientAction::GetContact(ContactId(id)),
            Awaited::Contact,
        ),
        ApiRequest::GetAllContacts => dispatch(ClientAction::ListContacts, Awaited::Contacts),
        ApiRequest::UpdateContact { contact } => match contact {
            Some(proto) => dispatch(
                ClientAction::UpdateContact(DisplayContact::from(proto)),
                Awaited::Done,
            ),
            None => Err(Status::invalid_argument("Missing contact".to_owned())),
        },
        ApiRequest::DeleteContact { id } => dispatch(
            ClientAction::DeleteContact(ContactId(id)),
            Awaited::Done,
        ),
        ApiRequest::UpdateSelfContactName { name } => dispatch(
            ClientAction::UpdateSelfContactName(name),
            Awaited::Done,
        ),
        ApiRequest::WaitForReady { ticket } => dispatch(
            ClientAction::WaitForReady(ticket),
            Awaited::Ready,
        ),
        ApiRequest::GetFullSelfContact => dispatch(
            ClientAction::GetFullSelfContact,
            Awaited::FullSelfContact,
        ),
        ApiRequest::UpdateIdentity { self_contact } => match self_contact {
            Some(proto) => match SelfContact::try_from(proto) {
                Ok(contact) => dispatch(ClientAction::UpdateIdentity(contact), Awaited::Done),
                Err(error) => Err(Status::invalid_argument(error.to_text())),
            },
            None => Err(
                Status::invalid_argument("Missing contact in UpdateIdentityRequest".to_owned()),
            ),
        },
        ApiRequest::GetSelfContactDisplay => dispatch(
            ClientAction::GetSelfContactDisplay,
            Awaited::SelfContactDisplay,
        ),
        ApiRequest::SharePublicSelfContact => dispatch(
            ClientAction::SharePublicSelfContact,
            Awaited::SharableContact,
        ),
        ApiRequest::RegisterContact { sharable_contact } => match sharable_contact {
            Some(proto) => match Contact::try_from(proto) {
                Ok(contact) => dispatch(ClientAction::RegisterContact(contact), Awaited::Done),
                Err(error) => Err(Status::invalid_argument(error.to_text())),
            },
            None => Err(Status::invalid_argument("Missing sharable_contact".to_owned())),
        },
        ApiRequest::StoreRemoteFileRequest { remote_file_request } => match remote_file_request {
            Some(proto) => dispatch(
                ClientAction::CreateRemoteFilerequest(CreateRemoteFilerequest::from(proto)),
                Awaited::Id,
            ),
            None => Err(Status::invalid_argument("Missing remote file request".to_owned())),
        },
        ApiRequest::GetRemoteFileRequest { id } => dispatch(
            ClientAction::GetRemoteFilerequest(FylesId(id)),
            Awaited::RemoteFileRequest,
        ),
        ApiRequest::ListRemoteFileRequests { contact_id } => dispatch(
            ClientAction::GetRemoteFilerequestsByContact(ContactId(contact_id)),
            Awaited::RemoteFileRequests,
        ),
        ApiRequest::GetAllRemoteFileRequests => dispatch(
            ClientAction::GetAllRemoteFilerequests,
            Awaited::RemoteFileRequests,
        ),
        ApiRequest::DeleteRemoteFileRequest { id } => dispatch(
            ClientAction::DeleteRemoteFilerequest(FylesId(id)),
            Awaited::RemoteDeletion,
        ),
        ApiRequest::StorePendingFile { pending_files } => dispatch(
            ClientAction::CreatePendingFiles(CreatePendingFiles::from(pending_files)),
            Awaited::Ids,
        ),
        ApiRequest::GetPendingFile { id } => dispatch(
            ClientAction::GetPendingFile(FylesId(id)),
            Awaited::PendingFile,
        ),
        ApiRequest::ListPendingFiles { target_file_request_id } => dispatch(
            ClientAction::GetPendingFiles(FylesId(target_file_request_id)),
            Awaited::PendingFiles,
        ),
        ApiRequest::GetAllPendingFiles => dispatch(
            ClientAction::GetAllPendingFiles,
            Awaited::PendingFiles,
        ),
        ApiRequest::DeletePendingFile { id } => dispatch(
            ClientAction::DeletePendingFile(FylesId(id)),
            Awaited::Done,
        ),
        ApiRequest::UpdateRemoteFileRequest { remote_file_request } => match remote_file_request {
            Some(proto) => dispatch(
                ClientAction::UpdateRemoteFilerequest(FylesId(proto.id), proto.name),
                Awaited::RemoteUpdate,
            ),
            None => Err(Status::invalid_argument("Missing remote file request".to_owned())),
        },
        ApiRequest::GetNodePeerId => dispatch(ClientAction::GetNodePeerId, Awaited::PeerId),
        ApiRequest::ListReceivedFiles { remote_file_request_id } => dispatch(
            ClientAction::ListReceivedFilesForRequest(FylesId(remote_file_request_id)),
            Awaited::ReceivedFiles,
        ),
        ApiRequest::DeleteReceivedFile { id } => dispatch(
            ClientAction::DeleteReceivedFile(FylesId(id)),
            Awaited::ReceivedFileDeletion,
        ),
        ApiRequest::GetSelfContactInviteChallenge => dispatch(
            ClientAction::RegisterSelfContactInviteChallenge,
            Awaited::InviteChallenge,
        ),
        ApiRequest::UnregisterSelfContactInviteChallenge { challenge } => dispatch(
            ClientAction::UnregisterSelfContactInviteChallenge(
                SelfContactInviteChallenge(challenge),
            ),
            Awaited::Nothing,
        ),
        ApiRequest::UseSelfContactInvite { challenge, peer_id } => dispatch(
            ClientAction::UseSelfContactInviteChallenge(
                SelfContactInviteChallenge(challenge),
                PeerIdWrapper(peer_id),
            ),
            Awaited::Nothing,
        ),
        ApiRequest::GetContactShareChallenge => dispatch(
            ClientAction::RegisterContactShareChallenge,
            Awaited::ShareChallenge,
        ),
        ApiRequest::UnregisterContactShareChallenge { challenge } => dispatch(
            ClientAction::UnregisterContactShareChallenge(ContactShareChallenge(challenge)),
            Awaited::Nothing,
        ),
        ApiRequest::UseContactShareChallenge { challenge, peer_id } => dispatch(
            ClientAction::UseContactShareChallenge(
                ContactShareChallenge(challenge),
                PeerIdWrapper(peer_id),
            ),
            Awaited::Nothing,
        ),
        ApiRequest::BackupData => dispatch(ClientAction::BackupData, Awaited::Backup),
        ApiRequest::RestoreData { backup_file_path } => dispatch(
            ClientAction::RestoreData(Uri(backup_file_path)),
            Awaited::Backup,
        ),
        ApiRequest::UpdateSettings { settings } => dispatch(
            ClientAction::UpdateSettings(settings),
            Awaited::SettingsUpdate,
        ),
        ApiRequest::GetSettings => dispatch(ClientAction::GetSettings, Awaited::Settings),
        ApiRequest::GetNodeStatus => dispatch(ClientAction::GetNodeStatus, Awaited::NodeStatus),
        ApiRequest::HealthCheck => Ok(
            Begun::Answered(ApiResponse::Health { is_healthy: true, message: "OK".to_owned() }),
        ),
    }
}

fn show_filerequests(items: &Vec<Filerequest>) -> (r: Vec<FileRequestProto>)
    ensures
        r@.len() == items@.len(),
        forall|i: int| 0 <= i < items@.len() ==> (#[trigger] r@[i])@ == items@[i]@.proto(),
{
    let mut shown: Vec<FileRequestProto> = Vec::new();
    let mut i: usize = 0;
    while i < items.len()
        invariant
            i <= items@.len(),
            shown@.len() == i,
            forall|j: int| 0 <= j < i ==> (#[trigger] shown@[j])@ == items@[j]@.proto(),
        decreases items@.len() - i,
    {
        shown.push(FileRequestProto::from(&items[i]));
        i = i + 1;
    }
    shown
}

fn show_contacts(items: &Vec<DisplayContact>) -> (r: Vec<ContactProto>)
    ensures
        r@.len() == items@.len(),
        forall|i: int| 0 <= i < items@.len() ==> shows_contact(#[trigger] r@[i], items@[i]),
{
    let mut shown: Vec<ContactProto> = Vec::new();
    let mut i: usize = 0;
    while i < items.len()
        invariant
            i <= items@.len(),
            shown@.len() == i,
            forall|j: int| 0 <= j < i ==> shows_contact(#[trigger] shown@[j], items@[j]),
        decreases items@.len() - i,
    {
        shown.push(show_contact(&items[i]));
        i = i + 1;
    }
    shown
}

fn show_remote_filerequests(items: &Vec<RemoteFilerequest>) -> (r: Vec<RemoteFileRequestProto>)
    ensures
        r@.len() == items@.len(),
        forall|i: int| 0 <= i < items@.len() ==> shows_remote(#[trigger] r@[i], items@[i]),
{
    let mut shown: Vec<RemoteFileRequestProto> = Vec::new();
    let mut i: usize = 0;
    while i < items.len()
        invariant
            i <= items@.len(),
            shown@.len() == i,
            forall|j: int| 0 <= j < i ==> shows_remote(#[trigger] shown@[j], items@[j]),
        decreases items@.len() - i,
    {
        shown.push(RemoteFileRequestProto::from(items[i].clone()));
        i = i + 1;
    }
    shown
}

fn show_pending_files(items: &Vec<PendingFile>) -> (r: Vec<PendingFileProto>)
    ensures
        r@.len() == items@.len(),
        forall|i: int| 0 <= i < items@.len()
            ==> crate::domain_proto_conversion::shows_pending_file(#[trigger] r@[i], items@[i]@),
{
    let mut shown: Vec<PendingFileProto> = Vec::new();
    let mut i: usize = 0;
    while i < items.len()
        invariant
            i <= items@.len(),
            shown@.len() == i,
            forall|j: int| 0 <= j < i
                ==> crate::domain_proto_conversion::shows_pending_file(
                    #[trigger] shown@[j],
                    items@[j]@,
                ),
        decreases items@.len() - i,
    {
        shown.push(PendingFileProto::from(&items[i]));
        i = i + 1;
    }
    shown
}

fn show_received_files(items: &Vec<ReceivedFile>) -> (r: Vec<ReceivedFileProto>)
    ensures
        r@.len() == items@.len(),
        forall|i: int| 0 <= i < items@.len()
            ==> crate::domain_proto_conversion::shows_received_file(#[trigger] r@[i], items@[i]),
{
    let mut shown: Vec<ReceivedFileProto> = Vec::new();
    let mut i: usize = 0;
    while i < items.len()
        invariant
            i <= items@.len(),
            shown@.len() == i,
            forall|j: int| 0 <= j < i
                ==> crate::domain_proto_conversion::shows_received_file(
                    #[trigger] shown@[j],
                    items@[j],
                ),
        decreases items@.len() - i,
    {
        shown.push(ReceivedFileProto::from(items[i].clone()));
        i = i + 1;
    }
    shown
}

fn show_names(names: &Vec<(ContactId, String)>) -> (r: Vec<(String, String)>)
    ensures
        shows_names(r@, names@),
{
    let mut shown: Vec<(String, String)> = Vec::new();
    let mut i: usize = 0;
    while i < names.len()
        invariant
            i <= names@.len(),
            shown@.len() == i,
            forall|j: int|
                0 <= j < i ==> (#[trigger] shown@[j]).0@ == names@[j].0@ && shown@[j].1@
                    == names@[j].1@,
        decreases names@.len() - i,
    {
        shown.push((names[i].0.0.clone(), names[i].1.clone()));
        i = i + 1;
    }
    shown
}

fn show_ids(ids: &Vec<FylesId>) -> (r: Vec<String>)
    ensures
        crate::domain_models::views(r@) == crate::domain_models::views(ids@),
{
    let mut shown: Vec<String> = Vec::new();
    let mut i: usize = 0;
    while i < ids.len()
        invariant
            i <= ids@.len(),
            shown@.len() == i,
            forall|j: int| 0 <= j < i ==> (#[trigger] shown@[j])@ == ids@[j]@,
        decreases ids@.len() - i,
    {
        shown.push(ids[i].0.clone());
        i = i + 1;
    }
    assert(crate::domain_models::views(shown@) =~= crate::domain_models::views(ids@));
    shown
}

pub open spec fn shows_names(
    shown: Seq<(String, String)>,
    names: Seq<(ContactId, String)>,
) -> bool {
    shown.len() == names.len() && forall|i: int|
        0 <= i < names.len() ==> (#[trigger] shown[i]).0@ == names[i].0@ && shown[i].1@
            == names[i].1@
}

pub open spec fn shows_contact(proto: ContactProto, contact: DisplayContact) -> bool {
    proto.id@ == contact.id@ && proto.name@ == contact.name@
}

pub open spec fn shows_remote(proto: RemoteFileRequestProto, request: RemoteFilerequest) -> bool {
    proto == (RemoteFileRequestProto {
        id: request.id.0,
        peer_id: request.peer_id.0,
        file_request_id: request.filerequest_id.0,
        name: request.name,
        contact_id: request.contact_id.0,
    })
}

fn show_contact(contact: &DisplayContact) -> (r: ContactProto)
    ensures
        shows_contact(r, *contact),
{
    ContactProto { id: contact.id.0.clone(), name: contact.name.clone() }
}

/// What clients are told of the node. Much of it is not known.
pub open spec fn shows_node(
    status: NodeStatus,
    node: crate::p2p::NodeStatusInfoView,
    now_ms: u64,
) -> bool {
    &&& status.is_running
    &&& status.error_message@ == ""@
    &&& status.peer_id@ == node.peer_id
    &&& crate::domain_models::views(status.multiaddrs@) == node.external_addresses
    &&& status.version@ == "0.0.1_rust"@
    &&& status.start_timestamp == node.start_timestamp as u64
    &&& status.connected_peers == node.connected_peers
    &&& status.uptime_seconds == 0 && status.known_peers == 0 && status.bandwidth_in_bytes == 0
        && status.bandwidth_out_bytes == 0 && status.memory_usage_bytes == 0
    &&& status.timestamp == now_ms
}

fn show_node(node: &NodeStatusInfo, now_ms: u64) -> (r: NodeStatus)
    ensures
        shows_node(r, node@, now_ms),
{
    NodeStatus {
        is_running: true,
        error_message: "".to_owned(),
        peer_id: node.peer_id.0.clone(),
        multiaddrs: clone_strings(&node.external_addresses),
        version: "0.0.1_rust".to_owned(),
        start_timestamp: #[verifier::truncate]
        (node.start_timestamp as u64),
        uptime_seconds: 0,
        connected_peers: node.connected_peers as u64,
        known_peers: 0,
        bandwidth_in_bytes: 0,
        bandwidth_out_bytes: 0,
        memory_usage_bytes: 0,
        timestamp: now_ms,
    }
}

impl Awaited {
    /// What clients are told when nobody handles the action. The full contact is only asked for
    /// while somebody does.
    pub open spec fn when_not_sent(self) -> Option<Seq<char>> {
        match self {
            Awaited::FullSelfContact => None,
            Awaited::Backup => None,
            Awaited::Shutdown => Some("Failed to send shutdown action"@),
            Awaited::SettingsUpdate => Some("Failed to send update_settings action"@),
            Awaited::Settings => Some("Failed to send get_settings action"@),
            Awaited::ReceivedFiles => Some("dispatch failed"@),
            Awaited::ReceivedFileDeletion => Some("dispatch failed"@),
            Awaited::NodeStatus => Some("Failed to request node status"@),
            _ => Some("Failed to send action"@),
        }
    }

    /// What clients are told when the action was dropped without an answer.
    pub open spec fn when_unanswered(self) -> Option<Seq<char>> {
        match self {
            Awaited::FullSelfContact => None,
            Awaited::Backup => None,
            Awaited::Ready => Some("Too many requests"@),
            Awaited::ReceivedFiles => Some("no response"@),
            Awaited::ReceivedFileDeletion => Some("no response"@),
            Awaited::NodeStatus => Some("Failed to get node status"@),
            _ => Some("Failed to receive response"@),
        }
    }

    /// Whether the response is of the kind that is waited for.
    pub open spec fn understands(self, response: Response) -> bool {
        match self {
            Awaited::FileRequest => response matches Response::Answer(answer)
                && answer is Filerequest,
            Awaited::CreatedFileRequest { .. } => response matches Response::Answer(answer)
                && answer is Id,
            Awaited::UpdatedFileRequest { .. } => response matches Response::Answer(answer)
                && answer is Unit,
            Awaited::FileRequests => response matches Response::Answer(answer)
                && answer is Filerequests,
            Awaited::Shutdown => response matches Response::Answer(answer) && answer is Flag,
            Awaited::Done => response matches Response::Answer(answer) && answer is Unit,
            Awaited::Name => response matches Response::Answer(answer) && answer is Text,
            Awaited::Names => response matches Response::Answer(answer) && answer is Names,
            Awaited::Contact => response matches Response::Answer(answer) && answer is Contact,
            Awaited::Contacts => response matches Response::Answer(answer)
                && answer is DisplayContacts,
            Awaited::Ready => response is Ready,
            Awaited::FullSelfContact => response matches Response::Answer(answer)
                && answer is SelfContact,
            Awaited::SelfContactDisplay => response matches Response::Answer(answer)
                && answer is DisplayContact,
            Awaited::SharableContact => response matches Response::Answer(answer)
                && answer is Contact,
            Awaited::Id => response matches Response::Answer(answer) && answer is Id,
            Awaited::Ids => response matches Response::Answer(answer) && answer is Ids,
            Awaited::RemoteFileRequest => response matches Response::Answer(answer)
                && answer is RemoteFilerequest,
            Awaited::RemoteFileRequests => response matches Response::Answer(answer)
                && answer is RemoteFilerequests,
            Awaited::RemoteUpdate => response matches Response::Answer(answer) && answer is Unit,
            Awaited::RemoteDeletion => response matches Response::Answer(answer) && answer is Flag,
            Awaited::PendingFile => response matches Response::Answer(answer)
                && answer is PendingFile,
            Awaited::PendingFiles => response matches Response::Answer(answer)
                && answer is PendingFiles,
            Awaited::PeerId => response matches Response::Answer(answer) && answer is Text,
            Awaited::ReceivedFiles => response matches Response::Answer(answer)
                && answer is ReceivedFiles,
            Awaited::ReceivedFileDeletion => response matches Response::Answer(answer)
                && answer is Unit,
            Awaited::InviteChallenge => response is SelfContactInviteChallenge,
            Awaited::ShareChallenge => response is ContactShareChallenge,
            Awaited::Nothing => response is Done,
            Awaited::Backup => response matches Response::Answer(answer) && answer is Unit,
            Awaited::SettingsUpdate => response matches Response::Answer(answer) && answer is Unit,
            Awaited::Settings => response matches Response::Answer(answer) && answer is Settings,
            Awaited::NodeStatus => response matches Response::Answer(answer)
                && answer is NodeStatus,
        }
    }

    /// Whether clients can be told what became of the action. What is certain to be answered is
    /// not given up.
    pub open spec fn can_finish(self, delivery: Delivery) -> bool {
        match delivery {
            Delivery::NotSent => !(self is FullSelfContact),
            Delivery::NoAnswer => !(self is FullSelfContact) && !(self is Backup),
            Delivery::Answered(response) => self.understands(response),
        }
    }

    fn has_understood(&self, response: &Response) -> (r: bool)
        ensures
            r == self.understands(*response),
    {
        match self {
            Awaited::FileRequest => matches!(response, Response::Answer(Answer::Filerequest(_))),
            Awaited::CreatedFileRequest { .. } => matches!(response, Response::Answer(Answer::Id(_))),
            Awaited::UpdatedFileRequest { .. } => matches!(response, Response::Answer(Answer::Unit(_))),
            Awaited::FileRequests => matches!(response, Response::Answer(Answer::Filerequests(_))),
            Awaited::Shutdown => matches!(response, Response::Answer(Answer::Flag(_))),
            Awaited::Done => matches!(response, Response::Answer(Answer::Unit(_))),
            Awaited::Name => matches!(response, Response::Answer(Answer::Text(_))),
            Awaited::Names => matches!(response, Response::Answer(Answer::Names(_))),
            Awaited::Contact => matches!(response, Response::Answer(Answer::Contact(_))),
            Awaited::Contacts => matches!(response, Response::Answer(Answer::DisplayContacts(_))),
            Awaited::Ready => matches!(response, Response::Ready(_)),
            Awaited::FullSelfContact => matches!(response, Response::Answer(Answer::SelfContact(_))),
            Awaited::SelfContactDisplay => matches!(response, Response::Answer(Answer::DisplayContact(_))),
            Awaited::SharableContact => matches!(response, Response::Answer(Answer::Contact(_))),
            Awaited::Id => matches!(response, Response::Answer(Answer::Id(_))),
            Awaited::Ids => matches!(response, Response::Answer(Answer::Ids(_))),
            Awaited::RemoteFileRequest => matches!(response, Response::Answer(Answer::RemoteFilerequest(_))),
            Awaited::RemoteFileRequests => matches!(response, Response::Answer(Answer::RemoteFilerequests(_))),
            Awaited::RemoteUpdate => matches!(response, Response::Answer(Answer::Unit(_))),
            Awaited::RemoteDeletion => matches!(response, Response::Answer(Answer::Flag(_))),
            Awaited::PendingFile => matches!(response, Response::Answer(Answer::PendingFile(_))),
            Awaited::PendingFiles => matches!(response, Response::Answer(Answer::PendingFiles(_))),
            Awaited::PeerId => matches!(response, Response::Answer(Answer::Text(_))),
            Awaited::ReceivedFiles => matches!(response, Response::Answer(Answer::ReceivedFiles(_))),
            Awaited::ReceivedFileDeletion => matches!(response, Response::Answer(Answer::Unit(_))),
            Awaited::InviteChallenge => matches!(response, Response::SelfContactInviteChallenge(_)),
            Awaited::ShareChallenge => matches!(response, Response::ContactShareChallenge(_)),
            Awaited::Nothing => matches!(response, Response::Done),
            Awaited::Backup => matches!(response, Response::Answer(Answer::Unit(_))),
            Awaited::SettingsUpdate => matches!(response, Response::Answer(Answer::Unit(_))),
            Awaited::Settings => matches!(response, Response::Answer(Answer::Settings(_))),
            Awaited::NodeStatus => matches!(response, Response::Answer(Answer::NodeStatus(_))),
        }
    }

    /// Whether clients can be told what became of the action.
    pub fn is_finished_by(&self, delivery: &Delivery) -> (r: bool)
        ensures
            r == self.can_finish(*delivery),
    {
        match delivery {
            Delivery::NotSent => !matches!(self, Awaited::FullSelfContact),
            Delivery::NoAnswer => !matches!(self, Awaited::FullSelfContact)
                && !matches!(self, Awaited::Backup),
            Delivery::Answered(response) => self.has_understood(response),
        }
    }
}

pub open spec fn fails_with(r: Result<ApiResponse, Status>, error: FilerequestError) -> bool {
    r matches Err(status) && status.is_internal(error.text())
}

/// Whether `r` is what clients are told of the response.
pub open spec fn answers(
    awaited: Awaited,
    response: Response,
    now_ms: u64,
    r: Result<ApiResponse, Status>,
) -> bool {
    match (awaited, response) {
        (Awaited::FileRequest, Response::Answer(Answer::Filerequest(result))) => match result {
            Ok(filerequest) => r matches Ok(ApiResponse::FileRequest(proto))
                && proto@ == filerequest@.proto(),
            Err(error) => fails_with(r, error),
        },
        (Awaited::CreatedFileRequest { title, description, access }, Response::Answer(Answer::Id(result))) =>
            match result {
            Ok(id) => r matches Ok(ApiResponse::FileRequest(proto))
                && proto@ == (crate::wire::FileRequestProtoView {
                id: id@,
                title: title@,
                description: description@,
                is_active: true,
                access: crate::domain_models::opt_view(access),
            }),
            Err(error) => fails_with(r, error),
        },
        (Awaited::UpdatedFileRequest { file_request }, Response::Answer(Answer::Unit(result))) =>
            match result {
            Ok(_) => r matches Ok(ApiResponse::FileRequest(proto)) && proto == file_request,
            Err(error) => fails_with(r, error),
        },
        (Awaited::FileRequests, Response::Answer(Answer::Filerequests(result))) => match result {
            Ok(filerequests) => r matches Ok(ApiResponse::FileRequests(protos))
                && protos@.len() == filerequests@.len() && forall|i: int|
                0 <= i < filerequests@.len()
                    ==> (#[trigger] protos@[i])@ == filerequests@[i]@.proto(),
            Err(error) => fails_with(r, error),
        },
        (Awaited::Shutdown, Response::Answer(Answer::Flag(result))) => match result {
            Ok(_) => r == Ok::<_, Status>(ApiResponse::Success(true)),
            Err(error) => fails_with(r, error),
        },
        (Awaited::Done, Response::Answer(Answer::Unit(result))) => match result {
            Ok(_) => r == Ok::<_, Status>(ApiResponse::Success(true)),
            Err(error) => fails_with(r, error),
        },
        (Awaited::Name, Response::Answer(Answer::Text(result))) => match result {
            Ok(name) => r matches Ok(ApiResponse::Name(text)) && text@ == name@,
            Err(error) => fails_with(r, error),
        },
        (Awaited::Names, Response::Answer(Answer::Names(result))) => match result {
            Ok(names) => r matches Ok(ApiResponse::Names(shown)) && shows_names(shown@, names@),
            Err(error) => fails_with(r, error),
        },
        (Awaited::Contact, Response::Answer(Answer::Contact(result))) => match result {
            Ok(contact) => r matches Ok(ApiResponse::Contact(proto)) && proto.id@ == contact@.id
                && proto.name@ == contact@.name,
            Err(error) => fails_with(r, error),
        },
        (Awaited::Contacts, Response::Answer(Answer::DisplayContacts(result))) => match result {
            Ok(contacts) => r matches Ok(ApiResponse::Contacts(protos))
                && protos@.len() == contacts@.len() && forall|i: int|
                0 <= i < contacts@.len() ==> shows_contact(#[trigger] protos@[i], contacts@[i]),
            Err(error) => fails_with(r, error),
        },
        (Awaited::Ready, Response::Ready(successfully_started)) => r == Ok::<_, Status>(
            ApiResponse::Ready { successfully_started },
        ),
        (Awaited::FullSelfContact, Response::Answer(Answer::SelfContact(result))) => match result {
            Ok(contact) => r matches Ok(ApiResponse::SelfContact(proto)) && proto@
                == crate::domain_proto_conversion::encoded_self_contact(contact@),
            Err(_) => r matches Err(status) && status.is_internal("Unable to get SelfContact"@),
        },
        (Awaited::SelfContactDisplay, Response::Answer(Answer::DisplayContact(result))) =>
            match result {
            Ok(contact) => r matches Ok(ApiResponse::Contact(proto))
                && shows_contact(proto, contact),
            Err(error) => fails_with(r, error),
        },
        (Awaited::SharableContact, Response::Answer(Answer::Contact(result))) => match result {
            Ok(contact) => r matches Ok(ApiResponse::SharableContact(proto))
                && proto@ == crate::domain_proto_conversion::encoded_shared_contact(contact@),
            Err(error) => fails_with(r, error),
        },
        (Awaited::Id, Response::Answer(Answer::Id(result))) => match result {
            Ok(id) => r matches Ok(ApiResponse::Id(text)) && text@ == id@,
            Err(error) => fails_with(r, error),
        },
        (Awaited::Ids, Response::Answer(Answer::Ids(result))) => match result {
            Ok(ids) => r matches Ok(ApiResponse::Ids(texts))
                && crate::domain_models::views(texts@) == crate::domain_models::views(ids@),
            Err(error) => fails_with(r, error),
        },
        (Awaited::RemoteFileRequest, Response::Answer(Answer::RemoteFilerequest(result))) =>
            match result {
            Ok(request) => r matches Ok(ApiResponse::RemoteFileRequest(proto))
                && shows_remote(proto, request),
            Err(error) => fails_with(r, error),
        },
        (Awaited::RemoteFileRequests, Response::Answer(Answer::RemoteFilerequests(result))) =>
            match result {
            Ok(requests) => r matches Ok(ApiResponse::RemoteFileRequests(protos))
                && protos@.len() == requests@.len() && forall|i: int|
                0 <= i < requests@.len() ==> shows_remote(#[trigger] protos@[i], requests@[i]),
            Err(error) => fails_with(r, error),
        },
        (Awaited::RemoteUpdate, Response::Answer(Answer::Unit(result))) => r == Ok::<_, Status>(
            ApiResponse::Success(result is Ok),
        ),
        (Awaited::RemoteDeletion, Response::Answer(Answer::Flag(result))) => match result {
            Ok(_) => r == Ok::<_, Status>(ApiResponse::Success(true)),
            Err(error) => fails_with(r, error),
        },
        (Awaited::PendingFile, Response::Answer(Answer::PendingFile(result))) => match result {
            Ok(file) => r matches Ok(ApiResponse::PendingFile(proto))
                && crate::domain_proto_conversion::shows_pending_file(proto, file@),
            Err(error) => fails_with(r, error),
        },
        (Awaited::PendingFiles, Response::Answer(Answer::PendingFiles(result))) => match result {
            Ok(files) => r matches Ok(ApiResponse::PendingFiles(protos))
                && protos@.len() == files@.len() && forall|i: int|
                0 <= i < files@.len()
                    ==> crate::domain_proto_conversion::shows_pending_file(
                        #[trigger] protos@[i],
                        files@[i]@,
                    ),
            Err(error) => fails_with(r, error),
        },
        (Awaited::PeerId, Response::Answer(Answer::Text(result))) => match result {
            Ok(peer_id) => r matches Ok(ApiResponse::PeerId(text)) && text@ == peer_id@,
            Err(error) => fails_with(r, error),
        },
        (Awaited::ReceivedFiles, Response::Answer(Answer::ReceivedFiles(result))) => match result {
            Ok(files) => r matches Ok(ApiResponse::ReceivedFiles(protos))
                && protos@.len() == files@.len() && forall|i: int|
                0 <= i < files@.len()
                    ==> crate::domain_proto_conversion::shows_received_file(
                        #[trigger] protos@[i],
                        files@[i],
                    ),
            Err(error) => fails_with(r, error),
        },
        (Awaited::ReceivedFileDeletion, Response::Answer(Answer::Unit(result))) => match result {
            Ok(_) => r == Ok::<_, Status>(ApiResponse::Success(true)),
            Err(error) => fails_with(r, error),
        },
        (Awaited::InviteChallenge, Response::SelfContactInviteChallenge(challenge)) => r
            matches Ok(ApiResponse::Challenge(bytes)) && bytes@ == challenge@,
        (Awaited::ShareChallenge, Response::ContactShareChallenge(challenge)) => r
            matches Ok(ApiResponse::Challenge(bytes)) && bytes@ == challenge@,
        (Awaited::Nothing, Response::Done) => r == Ok::<_, Status>(ApiResponse::Nothing),
        (Awaited::Backup, Response::Answer(Answer::Unit(result))) => r == Ok::<_, Status>(
            ApiResponse::Success(result is Ok),
        ),
        (Awaited::SettingsUpdate, Response::Answer(Answer::Unit(result))) => match result {
            Ok(_) => r == Ok::<_, Status>(ApiResponse::Success(true)),
            Err(error) => fails_with(r, error),
        },
        (Awaited::Settings, Response::Answer(Answer::Settings(result))) => match result {
            Ok(settings) => r matches Ok(ApiResponse::Settings(bytes)) && bytes@ == settings@,
            Err(error) => fails_with(r, error),
        },
        (Awaited::NodeStatus, Response::Answer(Answer::NodeStatus(result))) => match result {
            Ok(node) => r matches Ok(ApiResponse::NodeStatus(status))
                && shows_node(status, node@, now_ms),
            Err(error) => fails_with(r, error),
        },
        _ => false,
    }
}

fn failed(error: &FilerequestError) -> (r: Result<ApiResponse, Status>)
    ensures
        fails_with(r, *error),
{
    Err(Status::internal(error.to_text()))
}

fn not_understood() -> (r: Result<ApiResponse, Status>)
    ensures
        r is Err,
{
    Err(Status::internal("Failed to receive response".to_owned()))
}

fn answer(awaited: Awaited, response: Response, now_ms: u64) -> (r: Result<ApiResponse, Status>)
    requires
        awaited.understands(response),
    ensures
        answers(awaited, response, now_ms, r),
{
    match (awaited, response) {
        (Awaited::FileRequest, Response::Answer(Answer::Filerequest(result))) => match result {
            Ok(filerequest) => Ok(ApiResponse::FileRequest(FileRequestProto::from(&filerequest))),
            Err(error) => failed(&error),
        },
        (Awaited::CreatedFileRequest { title, description, access }, Response::Answer(Answer::Id(result))) =>
            match result {
            Ok(id) => Ok(
                ApiResponse::FileRequest(
                    FileRequestProto { id: id.0, title, description, is_active: true, access },
                ),
            ),
            Err(error) => failed(&error),
        },
        (Awaited::UpdatedFileRequest { file_request }, Response::Answer(Answer::Unit(result))) =>
            match result {
            Ok(_) => Ok(ApiResponse::FileRequest(file_request)),
            Err(error) => failed(&error),
        },
        (Awaited::FileRequests, Response::Answer(Answer::Filerequests(result))) => match result {
            Ok(filerequests) => Ok(ApiResponse::FileRequests(show_filerequests(&filerequests))),
            Err(error) => failed(&error),
        },
        (Awaited::Shutdown, Response::Answer(Answer::Flag(result))) => match result {
            Ok(_) => Ok(ApiResponse::Success(true)),
            Err(error) => failed(&error),
        },
        (Awaited::Done, Response::Answer(Answer::Unit(result))) => match result {
            Ok(_) => Ok(ApiResponse::Success(true)),
            Err(error) => failed(&error),
        },
        (Awaited::Name, Response::Answer(Answer::Text(result))) => match result {
            Ok(name) => Ok(ApiResponse::Name(name)),
            Err(error) => failed(&error),
        },
        (Awaited::Names, Response::Answer(Answer::Names(result))) => match result {
            Ok(names) => Ok(ApiResponse::Names(show_names(&names))),
            Err(error) => failed(&error),
        },
        (Awaited::Contact, Response::Answer(Answer::Contact(result))) => match result {
            Ok(contact) => Ok(ApiResponse::Contact(ContactProto::from(&contact))),
            Err(error) => failed(&error),
        },
        (Awaited::Contacts, Response::Answer(Answer::DisplayContacts(result))) => match result {
            Ok(contacts) => Ok(ApiResponse::Contacts(show_contacts(&contacts))),
            Err(error) => failed(&error),
        },
        (Awaited::Ready, Response::Ready(successfully_started)) => Ok(
            ApiResponse::Ready { successfully_started },
        ),
        (Awaited::FullSelfContact, Response::Answer(Answer::SelfContact(result))) => match result {
            Ok(contact) => match SelfContactProto::try_from(contact) {
                Ok(proto) => Ok(ApiResponse::SelfContact(proto)),
                Err(_) => Err(Status::internal("Unable to serialize SelfContact".to_owned())),
            },
            Err(_) => Err(Status::internal("Unable to get SelfContact".to_owned())),
        },
        (Awaited::SelfContactDisplay, Response::Answer(Answer::DisplayContact(result))) =>
            match result {
            Ok(contact) => Ok(ApiResponse::Contact(show_contact(&contact))),
            Err(error) => failed(&error),
        },
        (Awaited::SharableContact, Response::Answer(Answer::Contact(result))) => match result {
            Ok(contact) => match SelfContactPublicProto::try_from(contact) {
                Ok(proto) => Ok(ApiResponse::SharableContact(proto)),
                Err(_) => Err(Status::internal("Failed to serialize SelfContact".to_owned())),
            },
            Err(error) => failed(&error),
        },
        (Awaited::Id, Response::Answer(Answer::Id(result))) => match result {
            Ok(id) => Ok(ApiResponse::Id(id.0)),
            Err(error) => failed(&error),
        },
        (Awaited::Ids, Response::Answer(Answer::Ids(result))) => match result {
            Ok(ids) => Ok(ApiResponse::Ids(show_ids(&ids))),
            Err(error) => failed(&error),
        },
        (Awaited::RemoteFileRequest, Response::Answer(Answer::RemoteFilerequest(result))) =>
            match result {
            Ok(request) => Ok(
                ApiResponse::RemoteFileRequest(RemoteFileRequestProto::from(request)),
            ),
            Err(error) => failed(&error),
        },
        (Awaited::RemoteFileRequests, Response::Answer(Answer::RemoteFilerequests(result))) =>
            match result {
            Ok(requests) => Ok(
                ApiResponse::RemoteFileRequests(show_remote_filerequests(&requests)),
            ),
            Err(error) => failed(&error),
        },
        (Awaited::RemoteUpdate, Response::Answer(Answer::Unit(result))) => Ok(
            ApiResponse::Success(result.is_ok()),
        ),
        (Awaited::RemoteDeletion, Response::Answer(Answer::Flag(result))) => match result {
            Ok(_) => Ok(ApiResponse::Success(true)),
            Err(error) => failed(&error),
        },
        (Awaited::PendingFile, Response::Answer(Answer::PendingFile(result))) => match result {
            Ok(file) => Ok(ApiResponse::PendingFile(PendingFileProto::from(&file))),
            Err(error) => failed(&error),
        },
        (Awaited::PendingFiles, Response::Answer(Answer::PendingFiles(result))) => match result {
            Ok(files) => Ok(ApiResponse::PendingFiles(show_pending_files(&files))),
            Err(error) => failed(&error),
        },
        (Awaited::PeerId, Response::Answer(Answer::Text(result))) => match result {
            Ok(peer_id) => Ok(ApiResponse::PeerId(peer_id)),
            Err(error) => failed(&error),
        },
        (Awaited::ReceivedFiles, Response::Answer(Answer::ReceivedFiles(result))) => match result {
            Ok(files) => Ok(ApiResponse::ReceivedFiles(show_received_files(&files))),
            Err(error) => failed(&error),
        },
        (Awaited::ReceivedFileDeletion, Response::Answer(Answer::Unit(result))) => match result {
            Ok(_) => Ok(ApiResponse::Success(true)),
            Err(error) => failed(&error),
        },
        (Awaited::InviteChallenge, Response::SelfContactInviteChallenge(challenge)) => Ok(
            ApiResponse::Challenge(challenge.0),
        ),
        (Awaited::ShareChallenge, Response::ContactShareChallenge(challenge)) => Ok(
            ApiResponse::Challenge(challenge.0),
        ),
        (Awaited::Nothing, Response::Done) => Ok(ApiResponse::Nothing),
        (Awaited::Backup, Response::Answer(Answer::Unit(result))) => Ok(
            ApiResponse::Success(result.is_ok()),
        ),
        (Awaited::SettingsUpdate, Response::Answer(Answer::Unit(result))) => match result {
            Ok(_) => Ok(ApiResponse::Success(true)),
            Err(error) => failed(&error),
        },
        (Awaited::Settings, Response::Answer(Answer::Settings(result))) => match result {
            Ok(settings) => Ok(ApiResponse::Settings(settings)),
            Err(error) => failed(&error),
        },
        (Awaited::NodeStatus, Response::Answer(Answer::NodeStatus(result))) => match result {
            Ok(node) => Ok(ApiResponse::NodeStatus(show_node(&node, now_ms))),
            Err(error) => failed(&error),
        },
        _ => not_understood(),
    }
}

/// Tells a client what became of its request. `now_ms` is the current time.
pub fn finish(awaited: Awaited, delivery: Delivery, now_ms: u64) -> (r: Result<ApiResponse, Status>)
    requires
        awaited.can_finish(delivery),
    ensures
        match delivery {
            Delivery::NotSent => match awaited.when_not_sent() {
                Some(message) => r matches Err(status) && status.is_internal(message),
                None => r == Ok::<_, Status>(ApiResponse::Success(false)),
            },
            Delivery::NoAnswer => r matches Err(status) && (if awaited is Ready {
                status.is_resource_exhausted("Too many requests"@)
            } else {
                awaited.when_unanswered() matches Some(message) && status.is_internal(message)
            }),
            Delivery::Answered(response) => answers(awaited, response, now_ms, r),
        },
{
    match delivery {
        Delivery::NotSent => match awaited {
            Awaited::Backup => Ok(ApiResponse::Success(false)),
            Awaited::Shutdown => Err(Status::internal("Failed to send shutdown action".to_owned())),
            Awaited::SettingsUpdate => Err(
                Status::internal("Failed to send update_settings action".to_owned()),
            ),
            Awaited::Settings => Err(
                Status::internal("Failed to send get_settings action".to_owned()),
            ),
            Awaited::ReceivedFiles => Err(Status::internal("dispatch failed".to_owned())),
            Awaited::ReceivedFileDeletion => Err(Status::internal("dispatch failed".to_owned())),
            Awaited::NodeStatus => Err(
                Status::internal("Failed to request node status".to_owned()),
            ),
            _ => Err(Status::internal("Failed to send action".to_owned())),
        },
        Delivery::NoAnswer => match awaited {
            Awaited::Ready => Err(Status::resource_exhausted("Too many requests".to_owned())),
            Awaited::ReceivedFiles => Err(Status::internal("no response".to_owned())),
            Awaited::ReceivedFileDeletion => Err(Status::internal("no response".to_owned())),
            Awaited::NodeStatus => Err(Status::internal("Failed to get node status".to_owned())),
            _ => Err(Status::internal("Failed to receive response".to_owned())),
        },
        Delivery::Answered(response) => answer(awaited, response, now_ms),
    }
}

} // verus!
