//! Where the handling of an action stands while it waits.
use vstd::prelude::*;

use crate::bounded_list::BoundedList;
use crate::brain::action_p2p::FilerequestContinueRequest;
use crate::brain::exchange::{Answer, Effect, NetworkReply, Query, Reply, Response};
use crate::crypto::{copy_bytes, ContactKeys};
use crate::db::{DatabaseResult, DbError, NodeInfo};
use crate::domain_models::{
    ContactId, CreateIncomingFile, CreatePendingFiles, FileInfo, Filerequest, FylesId,
    ReceivedFile, RemoteFilerequest, SendStatus,
};
use crate::filerequest_drive_handler::path_separator;
use crate::p2p::FileToSend;
use crate::ttlmap::TtlSet;
use crate::util::duration_ext::{Duration, DurationExt};
use crate::wire::ServerMessage;

verus! {

/// What follows once the new status of a file to send is stored and told.
#[derive(Clone, Copy, Debug, PartialEq, Eq, Structural)]
pub enum AfterStatus {
    Nothing,
    /// The source of the file is removed if it is temporary and no longer needed.
    CleanUp,
    /// The same, and whoever asked for the file is told that there is none.
    CleanUpAndRefuse,
}

/// What an action waits for, with what has to be remembered meanwhile.
#[allow(inconsistent_fields)]
#[derive(Debug)]
pub enum BrainState {
    /// The answer of the store is the answer to the client.
    Relay,
    /// The answer of the network node is the answer to the client.
    RelayStatus,
    /// A file request is being stored; its directory is next.
    FilerequestStored { title: String },
    /// The directory of a new file request is being created.
    DirectoryCreated { id: FylesId },
    /// A file request without a directory is being deleted again.
    CreationRolledBack,
    /// The file request that is to be changed is being read.
    FilerequestRead { update: Filerequest },
    /// The directory of a file request is being renamed.
    DirectoryRenamed { update: Filerequest },
    /// The file request of another that is to be deleted is being read.
    RemoteRequestRead { id: FylesId },
    /// The files for a file request that is to be deleted are being cancelled.
    FilesCancelled { id: FylesId },
    /// The file request of another is being deleted.
    RemoteRequestDeleted,
    /// The file request that files are for is being read.
    TargetRead { files: CreatePendingFiles },
    /// Files to send are being stored.
    FilesStored { remote: RemoteFilerequest, file_infos: Vec<FileInfo> },
    /// New files to send are being handed to the network node.
    FilesHandedOver { ids: Vec<FylesId> },
    /// The file that is to be deleted is being read.
    PendingFileRead { id: FylesId },
    /// The transfer of a file that is to be deleted is being cancelled.
    PendingFileCancelled { id: FylesId },
    /// A file that the network node does not know is being deleted.
    OrphanDeleted,
    /// The keys of the node are being read to tell its identifier.
    KeysRead,
    /// The network node tells the identifier that belongs to its keys.
    KeypairDisplayed,
    /// A new identity is being stored; the network node is told in any case.
    IdentityStored { contact_id: ContactId, keys: ContactKeys },
    /// The network node is being told of a new identity.
    IdentityAnnounced { stored: DatabaseResult<()> },
    /// The host opens a file for a backup.
    BackupFileOpened,
    /// The host opens a backup.
    BackupAccessed,
    /// The store is being replaced by a backup.
    DatabaseRestored,
    /// The network node applies settings, which are stored only if it accepts them.
    SettingsApplied { settings: Vec<u8> },
    /// The network node offers a challenge to another device.
    ChallengeUsed,
    /// The file request that somebody wants to drop a file for is being read.
    DropRequestRead { contact_id: Option<ContactId> },
    /// Somebody who is not admitted may drop a file if it is the owner of the node.
    DropSelfRead { filerequest: Filerequest, contact_id: ContactId },
    /// The transfer that a peer wants to continue is being read.
    TransferRead { request: FilerequestContinueRequest },
    /// The file request of a transfer that a peer wants to continue is being read.
    ContinuationRead {
        request: FilerequestContinueRequest,
        received: DatabaseResult<ReceivedFile>,
    },
    /// The keys of the node are being read for the network node.
    OwnKeysRead,
    /// The settings are being read for the network node; without them it starts with none.
    OwnSettingsRead { keys: DatabaseResult<NodeInfo> },
    /// The network node generates its first keys.
    KeypairGenerated { settings: Vec<u8> },
    /// The first keys of the node are being stored.
    KeysStored { info: NodeInfo, settings: Vec<u8> },
    /// The node has started; the file requests of others are being read.
    StartRemotesRead,
    /// The node has started; the files to send are being read.
    StartFilesRead { remotes: Vec<RemoteFilerequest> },
    /// The files that were being sent when the node stopped are marked as interrupted, one by one.
    FilesReset { files: Vec<FileToSend>, resets: Vec<(FylesId, SendStatus)>, done: usize },
    /// The files to continue are being handed to the network node.
    StartHandedOver,
    /// The new status of a file to send is being stored.
    StatusStored { id: FylesId, status: SendStatus, reason: Option<String>, then_do: AfterStatus },
    /// Why a transfer was interrupted is being stored.
    ReasonStored { id: FylesId, status: SendStatus, target: FylesId },
    /// A file that is done with is being read; its source may have to go.
    CleanupFileRead { id: FylesId, refuse: bool },
    /// The other files with the same source that are still to be sent are being counted.
    CleanupCounted { path: String, refuse: bool },
    /// The host removes the source of a file if it was temporary.
    CleanupDone { refuse: bool },
    /// A received file is being marked as complete.
    ReceivedCompleted { transfer_id: FylesId },
    /// A received file is being read to tell of it.
    ReceivedFetched { completed: DatabaseResult<FylesId> },
    /// The name of the sender of a received file is being read.
    SenderNamed { file: ReceivedFile },
    /// The file request of a received file is being read.
    ReceivedTitled { file: ReceivedFile, contact_name: Option<String> },
    /// A file that is about to be received is being stored.
    IncomingStored { incoming: CreateIncomingFile },
    /// The progress of a file that is being received is being stored.
    ReceiveStatusStored { transfer_id: FylesId },
    /// A file that is being received is being read to tell of it.
    ReceiveStatusFetched,
    /// A received file that is to be deleted is being read.
    ReceivedToDelete,
    /// A received file is being deleted.
    ReceivedDeleted,
    /// The keys of a contact are being read.
    PublicKeysRead { contact_id: ContactId },
    /// The contact may be another device of the same owner.
    OwnPublicKeysRead { contact_id: ContactId },
    /// Whoever has a name is known.
    ContactNameRead,
    /// The host opens a file to send; where it cannot, the file has failed.
    FileOpened { id: FylesId },
    /// A device that was invited is given the identity of the node.
    InviteConfirmed,
    /// A device that was told the contact share challenge is given the contact of the node.
    ShareConfirmed,
    /// An identity that another device offered is being stored.
    NewIdentityStored { contact_id: ContactId, keys: ContactKeys },
    /// The network node is being told of an identity that another device offered.
    NewIdentityAnnounced,
    /// A contact that was shared is being stored.
    ContactRegistered,
}

impl BrainState {
    /// Whether the reply is of the kind that is waited for.
    pub open spec fn takes(self, reply: Reply) -> bool {
        match (self, reply) {
            (BrainState::Relay, Reply::Db(_)) => true,
            (BrainState::RelayStatus, Reply::Network(NetworkReply::Status(_))) => true,
            (BrainState::FilerequestStored { .. }, Reply::Db(Answer::Id(_))) => true,
            (BrainState::DirectoryCreated { .. }, Reply::Host(_)) => true,
            (BrainState::CreationRolledBack, Reply::Db(Answer::Unit(_))) => true,
            (BrainState::FilerequestRead { .. }, Reply::Db(Answer::Filerequest(_))) => true,
            (BrainState::DirectoryRenamed { .. }, Reply::Host(_)) => true,
            (BrainState::RemoteRequestRead { .. }, Reply::Db(Answer::RemoteFilerequest(_))) => true,
            (BrainState::FilesCancelled { .. }, Reply::Network(NetworkReply::Cancelled(_))) => true,
            (BrainState::RemoteRequestDeleted, Reply::Db(Answer::Unit(_))) => true,
            (BrainState::TargetRead { .. }, Reply::Db(Answer::RemoteFilerequest(_))) => true,
            (BrainState::FilesStored { .. }, Reply::Db(Answer::Ids(_))) => true,
            (BrainState::FilesHandedOver { .. }, Reply::Network(NetworkReply::Done(_))) => true,
            (BrainState::PendingFileRead { .. }, Reply::Db(Answer::PendingFile(_))) => true,
            (BrainState::PendingFileCancelled { .. }, Reply::Network(NetworkReply::Cancelled(_))) =>
                true,
            (BrainState::OrphanDeleted, Reply::Db(Answer::Unit(_))) => true,
            (BrainState::KeysRead, Reply::Db(Answer::NodeInfo(_))) => true,
            (BrainState::KeypairDisplayed, Reply::Network(NetworkReply::Shown(_))) => true,
            (BrainState::IdentityStored { .. }, Reply::Db(Answer::Unit(_))) => true,
            (BrainState::IdentityAnnounced { .. }, Reply::Network(NetworkReply::Nothing)) => true,
            (BrainState::BackupFileOpened, Reply::Host(_)) => true,
            (BrainState::BackupAccessed, Reply::Host(_)) => true,
            (BrainState::DatabaseRestored, Reply::Db(Answer::Unit(_))) => true,
            (BrainState::SettingsApplied { .. }, Reply::Network(NetworkReply::Done(_))) => true,
            (BrainState::ChallengeUsed, Reply::Network(NetworkReply::Nothing)) => true,
            (BrainState::DropRequestRead { .. }, Reply::Db(Answer::Filerequest(_))) => true,
            (BrainState::DropSelfRead { .. }, Reply::Db(Answer::SelfContact(_))) => true,
            (BrainState::TransferRead { .. }, Reply::Db(Answer::ReceivedFile(_))) => true,
            (BrainState::ContinuationRead { .. }, Reply::Db(Answer::Filerequest(_))) => true,
            (BrainState::OwnKeysRead, Reply::Db(Answer::NodeInfo(_))) => true,
            (BrainState::OwnSettingsRead { .. }, Reply::Db(Answer::Settings(_))) => true,
            (BrainState::KeypairGenerated { .. }, Reply::Network(NetworkReply::Keypair(_))) => true,
            (BrainState::KeysStored { .. }, Reply::Db(Answer::Unit(_))) => true,
            (BrainState::StartRemotesRead, Reply::Db(Answer::RemoteFilerequests(_))) => true,
            (BrainState::StartFilesRead { .. }, Reply::Db(Answer::PendingFiles(_))) => true,
            (BrainState::FilesReset { .. }, Reply::Db(Answer::Id(_))) => true,
            (BrainState::StartHandedOver, Reply::Network(NetworkReply::Done(_))) => true,
            (BrainState::StatusStored { .. }, Reply::Db(Answer::Id(_))) => true,
            (BrainState::ReasonStored { .. }, Reply::Db(Answer::Unit(_))) => true,
            (BrainState::CleanupFileRead { .. }, Reply::Db(Answer::PendingFile(_))) => true,
            (BrainState::CleanupCounted { .. }, Reply::Db(Answer::Count(_))) => true,
            (BrainState::CleanupDone { .. }, Reply::Host(_)) => true,
            (BrainState::ReceivedCompleted { .. }, Reply::Db(Answer::Id(_))) => true,
            (BrainState::ReceivedFetched { .. }, Reply::Db(Answer::ReceivedFile(_))) => true,
            (BrainState::SenderNamed { .. }, Reply::Db(Answer::Text(_))) => true,
            (BrainState::ReceivedTitled { .. }, Reply::Db(Answer::Filerequest(_))) => true,
            (BrainState::IncomingStored { .. }, Reply::Db(Answer::Id(_))) => true,
            (BrainState::ReceiveStatusStored { .. }, Reply::Db(Answer::Unit(_))) => true,
            (BrainState::ReceiveStatusFetched, Reply::Db(Answer::ReceivedFile(_))) => true,
            (BrainState::ReceivedToDelete, Reply::Db(Answer::ReceivedFile(_))) => true,
            (BrainState::ReceivedDeleted, Reply::Db(Answer::Unit(_))) => true,
            (BrainState::PublicKeysRead { .. }, Reply::Db(Answer::PublicKeys(_))) => true,
            (BrainState::OwnPublicKeysRead { .. }, Reply::Db(Answer::SelfContact(_))) => true,
            (BrainState::ContactNameRead, Reply::Db(Answer::Text(_))) => true,
            (BrainState::FileOpened { .. }, Reply::Host(_)) => true,
            (BrainState::InviteConfirmed, Reply::Db(Answer::SelfContact(_))) => true,
            (BrainState::ShareConfirmed, Reply::Db(Answer::Contact(_))) => true,
            (BrainState::NewIdentityStored { .. }, Reply::Db(Answer::Unit(_))) => true,
            (BrainState::NewIdentityAnnounced, Reply::Network(NetworkReply::Nothing)) => true,
            (BrainState::ContactRegistered, Reply::Db(Answer::Unit(_))) => true,
            _ => false,
        }
    }

    /// Whether the handling can go on with the reply. What is essential for operation has to
    /// succeed: the node's keys, what is sent at the start, and the status of its files.
    pub open spec fn expects(self, reply: Reply) -> bool {
        match (self, reply) {
            (BrainState::Relay, Reply::Db(_)) => true,
            (BrainState::RelayStatus, Reply::Network(NetworkReply::Status(_))) => true,
            (BrainState::FilerequestStored { .. }, Reply::Db(Answer::Id(_))) => true,
            (BrainState::DirectoryCreated { .. }, Reply::Host(_)) => true,
            (BrainState::CreationRolledBack, Reply::Db(Answer::Unit(_))) => true,
            (BrainState::FilerequestRead { .. }, Reply::Db(Answer::Filerequest(_))) => true,
            (BrainState::DirectoryRenamed { .. }, Reply::Host(_)) => true,
            (BrainState::RemoteRequestRead { .. }, Reply::Db(Answer::RemoteFilerequest(_))) => true,
            (BrainState::FilesCancelled { .. }, Reply::Network(NetworkReply::Cancelled(_))) => true,
            (BrainState::RemoteRequestDeleted, Reply::Db(Answer::Unit(_))) => true,
            (BrainState::TargetRead { .. }, Reply::Db(Answer::RemoteFilerequest(_))) => true,
            (BrainState::FilesStored { .. }, Reply::Db(Answer::Ids(_))) => true,
            (BrainState::FilesHandedOver { .. }, Reply::Network(NetworkReply::Done(Ok(_)))) => true,
            (BrainState::PendingFileRead { .. }, Reply::Db(Answer::PendingFile(_))) => true,
            (BrainState::PendingFileCancelled { .. }, Reply::Network(NetworkReply::Cancelled(_))) =>
                true,
            (BrainState::OrphanDeleted, Reply::Db(Answer::Unit(_))) => true,
            (BrainState::KeysRead, Reply::Db(Answer::NodeInfo(_))) => true,
            (BrainState::KeypairDisplayed, Reply::Network(NetworkReply::Shown(_))) => true,
            (BrainState::IdentityStored { .. }, Reply::Db(Answer::Unit(_))) => true,
            (BrainState::IdentityAnnounced { .. }, Reply::Network(NetworkReply::Nothing)) => true,
            (BrainState::BackupFileOpened, Reply::Host(_)) => true,
            (BrainState::BackupAccessed, Reply::Host(_)) => true,
            (BrainState::DatabaseRestored, Reply::Db(Answer::Unit(_))) => true,
            (BrainState::SettingsApplied { .. }, Reply::Network(NetworkReply::Done(_))) => true,
            (BrainState::ChallengeUsed, Reply::Network(NetworkReply::Nothing)) => true,
            (BrainState::DropRequestRead { .. }, Reply::Db(Answer::Filerequest(_))) => true,
            (BrainState::DropSelfRead { .. }, Reply::Db(Answer::SelfContact(_))) => true,
            (BrainState::TransferRead { .. }, Reply::Db(Answer::ReceivedFile(_))) => true,
            (BrainState::ContinuationRead { .. }, Reply::Db(Answer::Filerequest(_))) => true,
            (BrainState::OwnKeysRead, Reply::Db(Answer::NodeInfo(_))) => true,
            (BrainState::OwnSettingsRead { keys: Ok(_) }, Reply::Db(Answer::Settings(_))) => true,
            (BrainState::OwnSettingsRead { keys: Err(DbError::DataNotYetInitialized) }, Reply::Db(Answer::Settings(_))) =>
                true,
            (BrainState::KeypairGenerated { .. }, Reply::Network(NetworkReply::Keypair(Ok(_)))) =>
                true,
            (BrainState::KeysStored { .. }, Reply::Db(Answer::Unit(Ok(_)))) => true,
            (BrainState::StartRemotesRead, Reply::Db(Answer::RemoteFilerequests(Ok(_)))) => true,
            (BrainState::StartFilesRead { .. }, Reply::Db(Answer::PendingFiles(Ok(_)))) => true,
            (BrainState::FilesReset { .. }, Reply::Db(Answer::Id(Ok(_)))) => true,
            (BrainState::StartHandedOver, Reply::Network(NetworkReply::Done(_))) => true,
            (BrainState::StatusStored { .. }, Reply::Db(Answer::Id(Ok(_)))) => true,
            (BrainState::ReasonStored { .. }, Reply::Db(Answer::Unit(_))) => true,
            (BrainState::CleanupFileRead { .. }, Reply::Db(Answer::PendingFile(_))) => true,
            (BrainState::CleanupCounted { .. }, Reply::Db(Answer::Count(_))) => true,
            (BrainState::CleanupDone { .. }, Reply::Host(_)) => true,
            (BrainState::ReceivedCompleted { .. }, Reply::Db(Answer::Id(_))) => true,
            (BrainState::ReceivedFetched { .. }, Reply::Db(Answer::ReceivedFile(_))) => true,
            (BrainState::SenderNamed { .. }, Reply::Db(Answer::Text(_))) => true,
            (BrainState::ReceivedTitled { .. }, Reply::Db(Answer::Filerequest(_))) => true,
            (BrainState::IncomingStored { .. }, Reply::Db(Answer::Id(_))) => true,
            (BrainState::ReceiveStatusStored { .. }, Reply::Db(Answer::Unit(_))) => true,
            (BrainState::ReceiveStatusFetched, Reply::Db(Answer::ReceivedFile(_))) => true,
            (BrainState::ReceivedToDelete, Reply::Db(Answer::ReceivedFile(_))) => true,
            (BrainState::ReceivedDeleted, Reply::Db(Answer::Unit(_))) => true,
            (BrainState::PublicKeysRead { .. }, Reply::Db(Answer::PublicKeys(_))) => true,
            (BrainState::OwnPublicKeysRead { .. }, Reply::Db(Answer::SelfContact(_))) => true,
            (BrainState::ContactNameRead, Reply::Db(Answer::Text(_))) => true,
            (BrainState::FileOpened { .. }, Reply::Host(_)) => true,
            (BrainState::InviteConfirmed, Reply::Db(Answer::SelfContact(_))) => true,
            (BrainState::ShareConfirmed, Reply::Db(Answer::Contact(_))) => true,
            (BrainState::NewIdentityStored { .. }, Reply::Db(Answer::Unit(_))) => true,
            (BrainState::NewIdentityAnnounced, Reply::Network(NetworkReply::Nothing)) => true,
            (BrainState::ContactRegistered, Reply::Db(Answer::Unit(_))) => true,
            _ => false,
        }
    }

    /// Tells whether the handling can go on with the reply.
    pub fn is_expected(&self, reply: &Reply) -> (r: bool)
        ensures
            r == self.expects(*reply),
    {
        match (self, reply) {
            (BrainState::Relay, Reply::Db(_)) => true,
            (BrainState::RelayStatus, Reply::Network(NetworkReply::Status(_))) => true,
            (BrainState::FilerequestStored { .. }, Reply::Db(Answer::Id(_))) => true,
            (BrainState::DirectoryCreated { .. }, Reply::Host(_)) => true,
            (BrainState::CreationRolledBack, Reply::Db(Answer::Unit(_))) => true,
            (BrainState::FilerequestRead { .. }, Reply::Db(Answer::Filerequest(_))) => true,
            (BrainState::DirectoryRenamed { .. }, Reply::Host(_)) => true,
            (BrainState::RemoteRequestRead { .. }, Reply::Db(Answer::RemoteFilerequest(_))) => true,
            (BrainState::FilesCancelled { .. }, Reply::Network(NetworkReply::Cancelled(_))) => true,
            (BrainState::RemoteRequestDeleted, Reply::Db(Answer::Unit(_))) => true,
            (BrainState::TargetRead { .. }, Reply::Db(Answer::RemoteFilerequest(_))) => true,
            (BrainState::FilesStored { .. }, Reply::Db(Answer::Ids(_))) => true,
            (BrainState::FilesHandedOver { .. }, Reply::Network(NetworkReply::Done(Ok(_)))) => true,
            (BrainState::PendingFileRead { .. }, Reply::Db(Answer::PendingFile(_))) => true,
            (BrainState::PendingFileCancelled { .. }, Reply::Network(NetworkReply::Cancelled(_))) =>
                true,
            (BrainState::OrphanDeleted, Reply::Db(Answer::Unit(_))) => true,
            (BrainState::KeysRead, Reply::Db(Answer::NodeInfo(_))) => true,
            (BrainState::KeypairDisplayed, Reply::Network(NetworkReply::Shown(_))) => true,
            (BrainState::IdentityStored { .. }, Reply::Db(Answer::Unit(_))) => true,
            (BrainState::IdentityAnnounced { .. }, Reply::Network(NetworkReply::Nothing)) => true,
            (BrainState::BackupFileOpened, Reply::Host(_)) => true,
            (BrainState::BackupAccessed, Reply::Host(_)) => true,
            (BrainState::DatabaseRestored, Reply::Db(Answer::Unit(_))) => true,
            (BrainState::SettingsApplied { .. }, Reply::Network(NetworkReply::Done(_))) => true,
            (BrainState::ChallengeUsed, Reply::Network(NetworkReply::Nothing)) => true,
            (BrainState::DropRequestRead { .. }, Reply::Db(Answer::Filerequest(_))) => true,
            (BrainState::DropSelfRead { .. }, Reply::Db(Answer::SelfContact(_))) => true,
            (BrainState::TransferRead { .. }, Reply::Db(Answer::ReceivedFile(_))) => true,
            (BrainState::ContinuationRead { .. }, Reply::Db(Answer::Filerequest(_))) => true,
            (BrainState::OwnKeysRead, Reply::Db(Answer::NodeInfo(_))) => true,
            (BrainState::OwnSettingsRead { keys: Ok(_) }, Reply::Db(Answer::Settings(_))) => true,
            (BrainState::OwnSettingsRead { keys: Err(DbError::DataNotYetInitialized) }, Reply::Db(Answer::Settings(_))) =>
                true,
            (BrainState::KeypairGenerated { .. }, Reply::Network(NetworkReply::Keypair(Ok(_)))) =>
                true,
            (BrainState::KeysStored { .. }, Reply::Db(Answer::Unit(Ok(_)))) => true,
            (BrainState::StartRemotesRead, Reply::Db(Answer::RemoteFilerequests(Ok(_)))) => true,
            (BrainState::StartFilesRead { .. }, Reply::Db(Answer::PendingFiles(Ok(_)))) => true,
            (BrainState::FilesReset { .. }, Reply::Db(Answer::Id(Ok(_)))) => true,
            (BrainState::StartHandedOver, Reply::Network(NetworkReply::Done(_))) => true,
            (BrainState::StatusStored { .. }, Reply::Db(Answer::Id(Ok(_)))) => true,
            (BrainState::ReasonStored { .. }, Reply::Db(Answer::Unit(_))) => true,
            (BrainState::CleanupFileRead { .. }, Reply::Db(Answer::PendingFile(_))) => true,
            (BrainState::CleanupCounted { .. }, Reply::Db(Answer::Count(_))) => true,
            (BrainState::CleanupDone { .. }, Reply::Host(_)) => true,
            (BrainState::ReceivedCompleted { .. }, Reply::Db(Answer::Id(_))) => true,
            (BrainState::ReceivedFetched { .. }, Reply::Db(Answer::ReceivedFile(_))) => true,
            (BrainState::SenderNamed { .. }, Reply::Db(Answer::Text(_))) => true,
            (BrainState::ReceivedTitled { .. }, Reply::Db(Answer::Filerequest(_))) => true,
            (BrainState::IncomingStored { .. }, Reply::Db(Answer::Id(_))) => true,
            (BrainState::ReceiveStatusStored { .. }, Reply::Db(Answer::Unit(_))) => true,
            (BrainState::ReceiveStatusFetched, Reply::Db(Answer::ReceivedFile(_))) => true,
            (BrainState::ReceivedToDelete, Reply::Db(Answer::ReceivedFile(_))) => true,
            (BrainState::ReceivedDeleted, Reply::Db(Answer::Unit(_))) => true,
            (BrainState::PublicKeysRead { .. }, Reply::Db(Answer::PublicKeys(_))) => true,
            (BrainState::OwnPublicKeysRead { .. }, Reply::Db(Answer::SelfContact(_))) => true,
            (BrainState::ContactNameRead, Reply::Db(Answer::Text(_))) => true,
            (BrainState::FileOpened { .. }, Reply::Host(_)) => true,
            (BrainState::InviteConfirmed, Reply::Db(Answer::SelfContact(_))) => true,
            (BrainState::ShareConfirmed, Reply::Db(Answer::Contact(_))) => true,
            (BrainState::NewIdentityStored { .. }, Reply::Db(Answer::Unit(_))) => true,
            (BrainState::NewIdentityAnnounced, Reply::Network(NetworkReply::Nothing)) => true,
            (BrainState::ContactRegistered, Reply::Db(Answer::Unit(_))) => true,
            _ => false,
        }
    }
}

/// What comes next.
#[derive(Debug)]
pub enum Next {
    Done,
    Await(Query, BrainState),
}

/// What is done now, in order, and what comes next.
#[derive(Debug)]
pub struct Step {
    pub effects: Vec<Effect>,
    pub next: Next,
}

/// Whether every answer to the query is of the kind that the state waits for.
pub open spec fn fits(query: Query, state: BrainState) -> bool {
    forall|reply: Reply| #[trigger] query.is_answered_by(reply) ==> state.takes(reply)
}

impl Step {
    /// What is asked for is what is waited for.
    pub open spec fn is_consistent(self) -> bool {
        match self.next {
            Next::Await(query, state) => fits(query, state),
            Next::Done => true,
        }
    }

    pub open spec fn ends(self) -> bool {
        self.effects@ == Seq::<Effect>::empty() && self.next is Done
    }

    pub open spec fn responds(self, response: Response) -> bool {
        self.effects@ == seq![Effect::Respond(response)] && self.next is Done
    }

    pub open spec fn pushes(self, message: ServerMessage) -> bool {
        self.effects@ == seq![Effect::Push(message)] && self.next is Done
    }

    pub open spec fn asks(self, query: Query, state: BrainState) -> bool {
        self.effects@ == Seq::<Effect>::empty() && self.next == Next::Await(query, state)
    }

    pub open spec fn ends_cleanup(self, refuse: bool) -> bool {
        if refuse {
            self.responds(Response::OpenedFile(Err(())))
        } else {
            self.ends()
        }
    }

    /// Whether the client is told that the creation failed, and why.
    pub open spec fn responds_with_id_error(self, message: Seq<char>) -> bool {
        &&& self.next is Done
        &&& self.effects@.len() == 1
        &&& self.effects@[0] matches Effect::Respond(Response::Answer(Answer::Id(Err(error))))
        &&& error.is_generic(message)
    }

    /// Whether the client is told that it was not done, and why.
    pub open spec fn responds_with_unit_error(self, message: Seq<char>) -> bool {
        &&& self.next is Done
        &&& self.effects@.len() == 1
        &&& self.effects@[0] matches Effect::Respond(Response::Answer(Answer::Unit(Err(error))))
        &&& error.is_generic(message)
    }

    /// Whether the client is told that it was not valid, and why.
    pub open spec fn responds_with_validation_error(self, message: Seq<char>) -> bool {
        &&& self.next is Done
        &&& self.effects@.len() == 1
        &&& self.effects@[0] matches Effect::Respond(Response::Answer(Answer::Unit(Err(error))))
        &&& error.is_validation(message)
    }

    /// Whether a file may be dropped into the directory of the request.
    pub open spec fn grants_drop(
        self,
        filerequest: crate::domain_models::FilerequestView,
        separator: char,
    ) -> bool {
        &&& self.next is Done
        &&& self.effects@.len() == 1
        &&& self.effects@[0] matches Effect::Respond(Response::FileDrop(Some(handler)))
        &&& handler.dir_name() == crate::filerequest_drive_handler::safe_dir_name(
            filerequest,
            separator,
        )
        &&& handler.id() == filerequest.id
        &&& handler.separator() == separator
    }

    /// Whether the transfer of the file may be continued.
    pub open spec fn grants_continuation(
        self,
        filerequest: crate::domain_models::FilerequestView,
        file: ReceivedFile,
        separator: char,
    ) -> bool {
        &&& self.next is Done
        &&& self.effects@.len() == 1
        &&& self.effects@[0] matches Effect::Respond(Response::Continuation(Some(continuation)))
        &&& continuation.drive_handler.dir_name()
            == crate::filerequest_drive_handler::safe_dir_name(filerequest, separator)
        &&& continuation.drive_handler.id() == filerequest.id
        &&& continuation.drive_handler.separator() == separator
        &&& continuation.file_name == file.file_name
        &&& continuation.file_size_bytes == file.file_size_bytes
        &&& continuation.started_at_ms == file.started_at_ms
    }

    pub fn end() -> (r: Self)
        ensures
            r.ends(),
            r.is_consistent(),
    {
        Step { effects: Vec::new(), next: Next::Done }
    }

    pub fn act(effect: Effect) -> (r: Self)
        ensures
            r.effects@ == seq![effect],
            r.next is Done,
            r.is_consistent(),
    {
        let effects = vec![effect];
        assert(effects@ =~= seq![effect]);
        Step { effects, next: Next::Done }
    }

    pub fn respond(response: Response) -> (r: Self)
        ensures
            r.responds(response),
            r.is_consistent(),
    {
        Step::act(Effect::Respond(response))
    }

    pub fn push(message: ServerMessage) -> (r: Self)
        ensures
            r.pushes(message),
            r.is_consistent(),
    {
        Step::act(Effect::Push(message))
    }

    pub fn ask(query: Query, state: BrainState) -> (r: Self)
        requires
            fits(query, state),
        ensures
            r.asks(query, state),
            r.is_consistent(),
    {
        Step { effects: Vec::new(), next: Next::Await(query, state) }
    }

    pub fn after(effects: Vec<Effect>, query: Query, state: BrainState) -> (r: Self)
        requires
            fits(query, state),
        ensures
            r.effects@ == effects@,
            r.next == Next::Await(query, state),
            r.is_consistent(),
    {
        Step { effects, next: Next::Await(query, state) }
    }

    pub fn push_and_ask(message: ServerMessage, query: Query, state: BrainState) -> (r: Self)
        requires
            fits(query, state),
        ensures
            r.effects@ == seq![Effect::Push(message)],
            r.next == Next::Await(query, state),
            r.is_consistent(),
    {
        let effects = vec![Effect::Push(message)];
        assert(effects@ =~= seq![Effect::Push(message)]);
        Step { effects, next: Next::Await(query, state) }
    }

    pub fn end_cleanup(refuse: bool) -> (r: Self)
        ensures
            r.ends_cleanup(refuse),
            r.is_consistent(),
    {
        if refuse {
            Step::respond(Response::OpenedFile(Err(())))
        } else {
            Step::end()
        }
    }
}

/// Those who wait until the node is ready.
pub ghost struct WaitingView {
    pub tickets: Seq<u64>,
    pub room: nat,
}

pub ghost struct EphemeralView {
    pub successfully_started: bool,
    /// Nobody waits any more once the node is ready.
    pub waiting: Option<WaitingView>,
    /// Each invite, with how long it lives, in nanoseconds.
    pub invites: Map<Seq<u8>, nat>,
    pub invite_ttl: Duration,
    /// Each shared challenge, with how long it lives, in nanoseconds.
    pub shares: Map<Seq<u8>, nat>,
    pub share_ttl: Duration,
    pub separator: char,
}

/// How many clients may wait until the node is ready.
pub const MAX_WAITING: usize = 25;

/// How one who wants to wait until the node is ready is served.
#[derive(Clone, Copy, Debug, PartialEq, Eq, Structural)]
pub enum Waiting {
    Queued,
    NoRoom,
    Over(bool),
}

/// What the service knows only while it runs.
pub struct EphemeralBrainData {
    successfully_started: bool,
    queued_wait_for_ready_requests: Option<BoundedList<u64>>,
    self_contact_invite_challenges: TtlSet,
    contact_share_challenges: TtlSet,
    separator: char,
}

impl View for EphemeralBrainData {
    type V = EphemeralView;

    closed spec fn view(&self) -> EphemeralView {
        EphemeralView {
            successfully_started: self.successfully_started,
            waiting: match self.queued_wait_for_ready_requests {
                Some(queue) => Some(WaitingView { tickets: queue@, room: queue.bound() }),
                None => None,
            },
            invites: self.self_contact_invite_challenges@,
            invite_ttl: self.self_contact_invite_challenges.ttl(),
            shares: self.contact_share_challenges@,
            share_ttl: self.contact_share_challenges.ttl(),
            separator: self.separator,
        }
    }
}

impl EphemeralBrainData {
    /// Whether an invite can count as valid, or not: it counts until it expires.
    pub closed spec fn tells_invite(&self, challenge: Seq<u8>, valid: bool) -> bool {
        self.self_contact_invite_challenges.tells(challenge, valid)
    }

    /// Whether a shared challenge can count as valid, or not: it counts until it expires.
    pub closed spec fn tells_share(&self, challenge: Seq<u8>, valid: bool) -> bool {
        self.contact_share_challenges.tells(challenge, valid)
    }

    /// Only invites and shared challenges that have expired are forgotten on the way.
    pub open spec fn forgets_expired(self, after: Self) -> bool {
        &&& forall|c: Seq<u8>|
            self@.invites.contains_key(c) && !#[trigger] after@.invites.contains_key(c)
                ==> self.tells_invite(c, false)
        &&& forall|c: Seq<u8>|
            self@.shares.contains_key(c) && !#[trigger] after@.shares.contains_key(c)
                ==> self.tells_share(c, false)
    }

    /// For paths with the given separator.
    pub fn with_separator(separator: char) -> (r: Self)
        ensures
            !r@.successfully_started,
            r@.waiting == Some(
                WaitingView { tickets: Seq::<u64>::empty(), room: MAX_WAITING as nat },
            ),
            r@.invites == Map::<Seq<u8>, nat>::empty(),
            r@.invite_ttl.total_nanos() == 60_000_000_000,
            r@.shares == Map::<Seq<u8>, nat>::empty(),
            r@.share_ttl.total_nanos() == 120_000_000_000,
            r@.separator == separator,
    {
        EphemeralBrainData {
            successfully_started: false,
            queued_wait_for_ready_requests: Some(BoundedList::new(MAX_WAITING)),
            self_contact_invite_challenges: TtlSet::new(1u64.minutes()),
            contact_share_challenges: TtlSet::new(2u64.minutes()),
            separator,
        }
    }

    /// For the paths of this machine.
    pub fn new() -> (r: Self)
        ensures
            !r@.successfully_started,
            r@.waiting == Some(
                WaitingView { tickets: Seq::<u64>::empty(), room: MAX_WAITING as nat },
            ),
            r@.invites == Map::<Seq<u8>, nat>::empty(),
            r@.invite_ttl.total_nanos() == 60_000_000_000,
            r@.shares == Map::<Seq<u8>, nat>::empty(),
            r@.share_ttl.total_nanos() == 120_000_000_000,
            crate::filerequest_drive_handler::can_be_main_separator(r@.separator),
    {
        Self::with_separator(path_separator())
    }

    pub fn separator(&self) -> (r: char)
        ensures
            r == self@.separator,
    {
        self.separator
    }

    /// Queues one who waits until the node is ready.
    pub fn wait(&mut self, ticket: u64) -> (r: Waiting)
        ensures
            match old(self)@.waiting {
                Some(waiting) => if waiting.tickets.len() < waiting.room {
                    &&& r == Waiting::Queued
                    &&& final(self)@ == (EphemeralView {
                        waiting: Some(
                            WaitingView { tickets: waiting.tickets.push(ticket), ..waiting },
                        ),
                        ..old(self)@
                    })
                } else {
                    r == Waiting::NoRoom && final(self)@ == old(self)@
                },
                None => r == Waiting::Over(old(self)@.successfully_started) && final(self)@ == old(
                    self,
                )@,
            },
    {
        let mut queue: Option<BoundedList<u64>> = None;
        std::mem::swap(&mut self.queued_wait_for_ready_requests, &mut queue);
        match queue {
            Some(mut list) => {
                let pushed = list.push(ticket);
                self.queued_wait_for_ready_requests = Some(list);
                match pushed {
                    Ok(()) => Waiting::Queued,
                    Err(_) => Waiting::NoRoom,
                }
            },
            None => Waiting::Over(self.successfully_started),
        }
    }

    /// The node is ready. Returns those who waited for that.
    pub fn become_ready(&mut self) -> (r: Vec<u64>)
        ensures
            final(self)@ == (EphemeralView {
                successfully_started: true,
                waiting: None,
                ..old(self)@
            }),
            r@ == (match old(self)@.waiting {
                Some(waiting) => waiting.tickets,
                None => Seq::<u64>::empty(),
            }),
    {
        self.successfully_started = true;
        let mut queue: Option<BoundedList<u64>> = None;
        std::mem::swap(&mut self.queued_wait_for_ready_requests, &mut queue);
        match queue {
            Some(list) => list.into_items(),
            None => Vec::new(),
        }
    }

    pub fn add_invite(&mut self, challenge: &Vec<u8>)
        ensures
            final(self)@ == (EphemeralView { invites: final(self)@.invites, ..old(self)@ }),
            final(self)@.invites.contains_key(challenge@),
            final(self)@.invites.submap_of(
                old(self)@.invites.insert(challenge@, old(self)@.invite_ttl.total_nanos()),
            ),
            old(self).forgets_expired(*final(self)),
    {
        self.self_contact_invite_challenges.insert(copy_bytes(challenge));
    }

    /// Forgets an invite and returns whether it was valid until now.
    pub fn drop_invite(&mut self, challenge: &Vec<u8>) -> (r: bool)
        ensures
            final(self)@ == (EphemeralView {
                invites: old(self)@.invites.remove(challenge@),
                ..old(self)@
            }),
            r ==> old(self)@.invites.contains_key(challenge@),
            old(self).tells_invite(challenge@, r),
    {
        self.self_contact_invite_challenges.remove(challenge)
    }

    pub fn add_share(&mut self, challenge: &Vec<u8>)
        ensures
            final(self)@ == (EphemeralView { shares: final(self)@.shares, ..old(self)@ }),
            final(self)@.shares.contains_key(challenge@),
            final(self)@.shares.submap_of(
                old(self)@.shares.insert(challenge@, old(self)@.share_ttl.total_nanos()),
            ),
            old(self).forgets_expired(*final(self)),
    {
        self.contact_share_challenges.insert(copy_bytes(challenge));
    }

    pub fn drop_share(&mut self, challenge: &Vec<u8>)
        ensures
            final(self)@ == (EphemeralView {
                shares: old(self)@.shares.remove(challenge@),
                ..old(self)@
            }),
    {
        let _ = self.contact_share_challenges.remove(challenge);
    }

    /// Whether the challenge was shared and is still valid.
    pub fn has_share(&self, challenge: &Vec<u8>) -> (r: bool)
        ensures
            r ==> self@.shares.contains_key(challenge@),
            self.tells_share(challenge@, r),
    {
        self.contact_share_challenges.contains(challenge)
    }
}

} // verus!
