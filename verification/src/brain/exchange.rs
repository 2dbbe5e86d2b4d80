//! What the service asks of its store, its network node and its host, and what they answer.
use vstd::prelude::*;

use crate::brain::action_p2p::FilerequestContinueResponse;
use crate::brain::error::{map_db, FilerequestError, FilerequestResult};
use crate::brain::types::{ContactShareChallenge, SelfContactInviteChallenge};
use crate::crypto::{ContactKeys, ContactPublicKeys};
use crate::db::{DbError, NodeInfo};
use crate::domain_models::{
    CompleteReceivedFile, Contact, ContactId, CreateFilerequest, CreateIncomingFile,
    CreatePendingFiles, CreateRemoteFilerequest, DisplayContact, Filerequest, FylesId,
    PeerIdWrapper, PendingFile, ReceiveStatus, ReceivedFile, RemoteFilerequest, SelfContact,
    SendStatus,
};
use crate::filerequest_drive_handler::FilerequestDriveHandler;
use crate::io_controller::{FileNamespace, Uri};
use crate::notification::Notification;
use crate::p2p::{
    FileToSend, KeypairGenerationError, NodeKeyPairBinary, NodeStatusInfo, P2pResult,
};
use crate::wire::ServerMessage;

verus! {

/// An answer, or why there is none.
#[derive(Debug)]
pub enum Answer<E> {
    Unit(Result<(), E>),
    Flag(Result<bool, E>),
    Id(Result<FylesId, E>),
    Ids(Result<Vec<FylesId>, E>),
    Text(Result<String, E>),
    Names(Result<Vec<(ContactId, String)>, E>),
    Filerequest(Result<Filerequest, E>),
    Filerequests(Result<Vec<Filerequest>, E>),
    Contact(Result<Contact, E>),
    DisplayContact(Result<DisplayContact, E>),
    DisplayContacts(Result<Vec<DisplayContact>, E>),
    SelfContact(Result<SelfContact, E>),
    RemoteFilerequest(Result<RemoteFilerequest, E>),
    RemoteFilerequests(Result<Vec<RemoteFilerequest>, E>),
    PendingFile(Result<PendingFile, E>),
    PendingFiles(Result<Vec<PendingFile>, E>),
    ReceivedFile(Result<ReceivedFile, E>),
    ReceivedFiles(Result<Vec<ReceivedFile>, E>),
    NodeInfo(Result<NodeInfo, E>),
    NodeStatus(Result<NodeStatusInfo, E>),
    PublicKeys(Result<Option<ContactPublicKeys>, E>),
    Settings(Result<Vec<u8>, E>),
    Count(Result<usize, E>),
}

/// What the store answers.
pub type DbReply = Answer<DbError>;

/// What the store answered, handed on.
pub open spec fn relayed(reply: DbReply) -> Answer<FilerequestError> {
    match reply {
        Answer::Unit(result) => Answer::Unit(crate::brain::error::of_db(result)),
        Answer::Flag(result) => Answer::Flag(crate::brain::error::of_db(result)),
        Answer::Id(result) => Answer::Id(crate::brain::error::of_db(result)),
        Answer::Ids(result) => Answer::Ids(crate::brain::error::of_db(result)),
        Answer::Text(result) => Answer::Text(crate::brain::error::of_db(result)),
        Answer::Names(result) => Answer::Names(crate::brain::error::of_db(result)),
        Answer::Filerequest(result) => Answer::Filerequest(crate::brain::error::of_db(result)),
        Answer::Filerequests(result) => Answer::Filerequests(crate::brain::error::of_db(result)),
        Answer::Contact(result) => Answer::Contact(crate::brain::error::of_db(result)),
        Answer::DisplayContact(result) => Answer::DisplayContact(
            crate::brain::error::of_db(result),
        ),
        Answer::DisplayContacts(result) => Answer::DisplayContacts(
            crate::brain::error::of_db(result),
        ),
        Answer::SelfContact(result) => Answer::SelfContact(crate::brain::error::of_db(result)),
        Answer::RemoteFilerequest(result) => Answer::RemoteFilerequest(
            crate::brain::error::of_db(result),
        ),
        Answer::RemoteFilerequests(result) => Answer::RemoteFilerequests(
            crate::brain::error::of_db(result),
        ),
        Answer::PendingFile(result) => Answer::PendingFile(crate::brain::error::of_db(result)),
        Answer::PendingFiles(result) => Answer::PendingFiles(crate::brain::error::of_db(result)),
        Answer::ReceivedFile(result) => Answer::ReceivedFile(crate::brain::error::of_db(result)),
        Answer::ReceivedFiles(result) => Answer::ReceivedFiles(crate::brain::error::of_db(result)),
        Answer::NodeInfo(result) => Answer::NodeInfo(crate::brain::error::of_db(result)),
        Answer::NodeStatus(result) => Answer::NodeStatus(crate::brain::error::of_db(result)),
        Answer::PublicKeys(result) => Answer::PublicKeys(crate::brain::error::of_db(result)),
        Answer::Settings(result) => Answer::Settings(crate::brain::error::of_db(result)),
        Answer::Count(result) => Answer::Count(crate::brain::error::of_db(result)),
    }
}

pub fn relay(reply: DbReply) -> (r: Answer<FilerequestError>)
    ensures
        r == relayed(reply),
{
    match reply {
        Answer::Unit(result) => Answer::Unit(map_db(result)),
        Answer::Flag(result) => Answer::Flag(map_db(result)),
        Answer::Id(result) => Answer::Id(map_db(result)),
        Answer::Ids(result) => Answer::Ids(map_db(result)),
        Answer::Text(result) => Answer::Text(map_db(result)),
        Answer::Names(result) => Answer::Names(map_db(result)),
        Answer::Filerequest(result) => Answer::Filerequest(map_db(result)),
        Answer::Filerequests(result) => Answer::Filerequests(map_db(result)),
        Answer::Contact(result) => Answer::Contact(map_db(result)),
        Answer::DisplayContact(result) => Answer::DisplayContact(map_db(result)),
        Answer::DisplayContacts(result) => Answer::DisplayContacts(map_db(result)),
        Answer::SelfContact(result) => Answer::SelfContact(map_db(result)),
        Answer::RemoteFilerequest(result) => Answer::RemoteFilerequest(map_db(result)),
        Answer::RemoteFilerequests(result) => Answer::RemoteFilerequests(map_db(result)),
        Answer::PendingFile(result) => Answer::PendingFile(map_db(result)),
        Answer::PendingFiles(result) => Answer::PendingFiles(map_db(result)),
        Answer::ReceivedFile(result) => Answer::ReceivedFile(map_db(result)),
        Answer::ReceivedFiles(result) => Answer::ReceivedFiles(map_db(result)),
        Answer::NodeInfo(result) => Answer::NodeInfo(map_db(result)),
        Answer::NodeStatus(result) => Answer::NodeStatus(map_db(result)),
        Answer::PublicKeys(result) => Answer::PublicKeys(map_db(result)),
        Answer::Settings(result) => Answer::Settings(map_db(result)),
        Answer::Count(result) => Answer::Count(map_db(result)),
    }
}

/// What the store is asked to do.
#[allow(inconsistent_fields)]
#[derive(Debug)]
pub enum DbCommand {
    GetFilerequest(FylesId),
    GetFilerequests,
    CreateFilerequest(CreateFilerequest),
    UpdateFilerequest(Filerequest),
    DeleteFilerequest(FylesId),
    GetContactName(ContactId),
    GetContactNames(Vec<ContactId>),
    GetContact(ContactId),
    GetContacts,
    UpdateContact(DisplayContact),
    DeleteContact(ContactId),
    GetContactPublicKeys(ContactId),
    RegisterContact(Contact),
    StoreNodeKeys(NodeInfo),
    GetNodeKeys,
    GetRemoteFilerequest(FylesId),
    GetRemoteFilerequestsByContact(ContactId),
    GetAllRemoteFilerequests,
    CreateRemoteFilerequest(CreateRemoteFilerequest),
    UpdateRemoteFilerequest { id: FylesId, name: String },
    DeleteRemoteFilerequest(FylesId),
    CreatePendingFiles(CreatePendingFiles),
    GetPendingFile(FylesId),
    GetPendingFiles(FylesId),
    GetAllPendingFiles,
    UpdatePendingFileStatus { id: FylesId, status: SendStatus, retry_count: Option<usize> },
    DeletePendingFile(FylesId),
    AddInterruptionReason { id: FylesId, reason: String },
    CountNonTerminalPendingFilesForPath(FylesId),
    CreateIncomingFile(CreateIncomingFile),
    UpdateReceivedFileStatus { transfer_id: FylesId, status: ReceiveStatus, progress_bytes: u64 },
    GetReceivedFileByTransferId(FylesId),
    CompleteReceivedFile(CompleteReceivedFile),
    ListReceivedFiles(FylesId),
    DeleteReceivedFile(FylesId),
    GetStaleReceivedFiles { older_than_ms: i64 },
    GetSelfContact,
    GetSelfContactForDisplay,
    UpdateSelfContactName(String),
    UpdateIdentity(SelfContact),
    GetSharablePublicSelfContact,
    GetSettings,
    StoreSettings(Vec<u8>),
    /// Write the store to the backup file that the host opened last.
    BackupDatabase,
    /// Replace the store by the backup that the host opened last.
    RestoreDatabase,
}

impl DbCommand {
    /// Whether the reply is of the kind that the command is answered with.
    pub open spec fn is_answered_by(self, reply: DbReply) -> bool {
        match self {
            DbCommand::GetFilerequest(_) => reply is Filerequest,
            DbCommand::GetFilerequests => reply is Filerequests,
            DbCommand::CreateFilerequest(_) => reply is Id,
            DbCommand::UpdateFilerequest(_) => reply is Unit,
            DbCommand::DeleteFilerequest(_) => reply is Unit,
            DbCommand::GetContactName(_) => reply is Text,
            DbCommand::GetContactNames(_) => reply is Names,
            DbCommand::GetContact(_) => reply is Contact,
            DbCommand::GetContacts => reply is DisplayContacts,
            DbCommand::UpdateContact(_) => reply is Unit,
            DbCommand::DeleteContact(_) => reply is Unit,
            DbCommand::GetContactPublicKeys(_) => reply is PublicKeys,
            DbCommand::RegisterContact(_) => reply is Unit,
            DbCommand::StoreNodeKeys(_) => reply is Unit,
            DbCommand::GetNodeKeys => reply is NodeInfo,
            DbCommand::GetRemoteFilerequest(_) => reply is RemoteFilerequest,
            DbCommand::GetRemoteFilerequestsByContact(_) => reply is RemoteFilerequests,
            DbCommand::GetAllRemoteFilerequests => reply is RemoteFilerequests,
            DbCommand::CreateRemoteFilerequest(_) => reply is Id,
            DbCommand::UpdateRemoteFilerequest { .. } => reply is Unit,
            DbCommand::DeleteRemoteFilerequest(_) => reply is Unit,
            DbCommand::CreatePendingFiles(_) => reply is Ids,
            DbCommand::GetPendingFile(_) => reply is PendingFile,
            DbCommand::GetPendingFiles(_) => reply is PendingFiles,
            DbCommand::GetAllPendingFiles => reply is PendingFiles,
            DbCommand::UpdatePendingFileStatus { .. } => reply is Id,
            DbCommand::DeletePendingFile(_) => reply is Unit,
            DbCommand::AddInterruptionReason { .. } => reply is Unit,
            DbCommand::CountNonTerminalPendingFilesForPath(_) => reply is Count,
            DbCommand::CreateIncomingFile(_) => reply is Id,
            DbCommand::UpdateReceivedFileStatus { .. } => reply is Unit,
            DbCommand::GetReceivedFileByTransferId(_) => reply is ReceivedFile,
            DbCommand::CompleteReceivedFile(_) => reply is Id,
            DbCommand::ListReceivedFiles(_) => reply is ReceivedFiles,
            DbCommand::DeleteReceivedFile(_) => reply is Unit,
            DbCommand::GetStaleReceivedFiles { .. } => reply is ReceivedFiles,
            DbCommand::GetSelfContact => reply is SelfContact,
            DbCommand::GetSelfContactForDisplay => reply is DisplayContact,
            DbCommand::UpdateSelfContactName(_) => reply is Unit,
            DbCommand::UpdateIdentity(_) => reply is Unit,
            DbCommand::GetSharablePublicSelfContact => reply is Contact,
            DbCommand::GetSettings => reply is Settings,
            DbCommand::StoreSettings(_) => reply is Unit,
            DbCommand::BackupDatabase => reply is Unit,
            DbCommand::RestoreDatabase => reply is Unit,
        }
    }
}

/// What the network node is asked to do.
#[derive(Debug)]
pub enum NetworkCommand {
    SendFiles(Vec<FileToSend>),
    InitialFilesToSend(Vec<FileToSend>),
    GetNodeInfo,
    CancelFile(FylesId),
    CancelFilesForRemoteFilerequest { target_filerequest_id: FylesId, peer_id: PeerIdWrapper },
    GenerateKeypair,
    DisplayKeypair(NodeKeyPairBinary),
    UpdateIdentity { contact_id: ContactId, keys: ContactKeys },
    UseSelfContactInvite { invite_code: SelfContactInviteChallenge, peer_id: PeerIdWrapper },
    UseContactShareChallenge { share_code: ContactShareChallenge, peer_id: PeerIdWrapper },
    /// Settings in a form that only the network node understands.
    ApplySettings(Vec<u8>),
}

/// What the network node answers.
#[derive(Debug)]
pub enum NetworkReply {
    Done(P2pResult<()>),
    Status(P2pResult<NodeStatusInfo>),
    Cancelled(P2pResult<bool>),
    Keypair(Result<NodeKeyPairBinary, KeypairGenerationError>),
    Shown(Result<String, String>),
    Nothing,
}

impl NetworkCommand {
    /// Whether the reply is of the kind that the command is answered with.
    pub open spec fn is_answered_by(self, reply: NetworkReply) -> bool {
        match self {
            NetworkCommand::SendFiles(_) => reply is Done,
            NetworkCommand::InitialFilesToSend(_) => reply is Done,
            NetworkCommand::GetNodeInfo => reply is Status,
            NetworkCommand::CancelFile(_) => reply is Cancelled,
            NetworkCommand::CancelFilesForRemoteFilerequest { .. } => reply is Cancelled,
            NetworkCommand::GenerateKeypair => reply is Keypair,
            NetworkCommand::DisplayKeypair(_) => reply is Shown,
            NetworkCommand::UpdateIdentity { .. } => reply is Nothing,
            NetworkCommand::UseSelfContactInvite { .. } => reply is Nothing,
            NetworkCommand::UseContactShareChallenge { .. } => reply is Nothing,
            NetworkCommand::ApplySettings(_) => reply is Done,
        }
    }
}

/// What the host is asked to do. Files that it opens stay with it.
#[derive(Debug)]
pub enum HostCommand {
    /// Will typically create a directory.
    CreateFilerequestResource(FileNamespace),
    RenameResource { from: FileNamespace, to: FileNamespace },
    /// Open a file to write a backup of the store to.
    OpenBackupFile,
    AccessFileForReading(Uri),
    RemoveSourceFileIfTemporary(String),
}

/// Whether the host did it.
pub type HostReply = Result<(), String>;

/// What the service waits for.
#[derive(Debug)]
pub enum Query {
    Db(DbCommand),
    Network(NetworkCommand),
    Host(HostCommand),
}

#[derive(Debug)]
pub enum Reply {
    Db(DbReply),
    Network(NetworkReply),
    Host(HostReply),
}

impl Query {
    /// Whether the reply is of the kind that the query is answered with.
    pub open spec fn is_answered_by(self, reply: Reply) -> bool {
        match (self, reply) {
            (Query::Db(command), Reply::Db(reply)) => command.is_answered_by(reply),
            (Query::Network(command), Reply::Network(reply)) => command.is_answered_by(reply),
            (Query::Host(_), Reply::Host(_)) => true,
            _ => false,
        }
    }
}

/// The answer to an action.
#[derive(Debug)]
pub enum Response {
    Answer(Answer<FilerequestError>),
    Ready(bool),
    SelfContactInviteChallenge(SelfContactInviteChallenge),
    ContactShareChallenge(ContactShareChallenge),
    Done,
    FileDrop(Option<FilerequestDriveHandler>),
    Continuation(Option<FilerequestContinueResponse>),
    NodeInfo(FilerequestResult<(NodeInfo, Vec<u8>)>),
    PublicKeys(Option<ContactPublicKeys>),
    ContactKnown(Result<bool, String>),
    /// The file that the host opened last is the one that was asked for.
    OpenedFile(Result<(), ()>),
    SelfContact(Option<SelfContact>),
    Contact(Option<Contact>),
}

/// What the service does without waiting.
#[derive(Debug)]
pub enum Effect {
    Respond(Response),
    Push(ServerMessage),
    Notify(Notification),
    /// Tell those who wait that the node is ready.
    AnswerWaiters(Vec<u64>),
    /// Tell nothing to one who waits.
    DropWaiter(u64),
}

} // verus!
