//! What clients ask for.
use vstd::prelude::*;

use crate::brain::types::{ContactShareChallenge, SelfContactInviteChallenge};
use crate::domain_models::{
    Contact, ContactId, CreateFilerequest, CreatePendingFiles, CreateRemoteFilerequest,
    DisplayContact, Filerequest, FylesId, PeerIdWrapper, SelfContact,
};
use crate::io_controller::Uri;

verus! {

#[derive(Debug)]
pub enum ClientAction {
    /// To be answered once the node is ready. The ticket tells who waits.
    WaitForReady(u64),

    // Filerequest operations
    CreateFilerequest(CreateFilerequest),
    ReadFilerequest(FylesId),
    UpdateFilerequest(Filerequest),
    DeleteFilerequest(FylesId),
    ListFilerequests,

    // Contact operations
    GetContactName(ContactId),
    GetContactNames(Vec<ContactId>),
    GetContact(ContactId),
    GetFullSelfContact,
    ListContacts,
    UpdateContact(DisplayContact),
    DeleteContact(ContactId),

    // System operations
    Shutdown,

    // P2P operations
    GetNodeStatus,
    GetNodePeerId,

    // Remote filerequest actions
    CreateRemoteFilerequest(CreateRemoteFilerequest),
    GetRemoteFilerequest(FylesId),
    GetRemoteFilerequestsByContact(ContactId),
    GetAllRemoteFilerequests,
    DeleteRemoteFilerequest(FylesId),
    UpdateRemoteFilerequest(FylesId, String),

    // Pending file actions
    CreatePendingFiles(CreatePendingFiles),
    GetPendingFile(FylesId),
    GetPendingFiles(FylesId),
    GetAllPendingFiles,
    DeletePendingFile(FylesId),

    // Received file actions
    ListReceivedFilesForRequest(FylesId),
    DeleteReceivedFile(FylesId),

    // Own contact
    UpdateSelfContactName(String),
    UpdateIdentity(SelfContact),
    GetSelfContactDisplay,
    SharePublicSelfContact,
    RegisterContact(Contact),

    // Challenges
    RegisterSelfContactInviteChallenge,
    UnregisterSelfContactInviteChallenge(SelfContactInviteChallenge),
    UseSelfContactInviteChallenge(SelfContactInviteChallenge, PeerIdWrapper),
    RegisterContactShareChallenge,
    UnregisterContactShareChallenge(ContactShareChallenge),
    UseContactShareChallenge(ContactShareChallenge, PeerIdWrapper),

    // Backups and settings
    BackupData,
    RestoreData(Uri),
    UpdateSettings(Vec<u8>),
    GetSettings,
}

} // verus!
