//! What the network node tells and asks for.
use vstd::prelude::*;

use crate::brain::types::{ContactShareChallenge, SelfContactInviteChallenge};
use crate::domain_models::{
    CompleteReceivedFile, Contact, ContactId, CreateIncomingFile, FylesId, ReceiveStatus,
    SelfContact, SendStatus,
};
use crate::filerequest_drive_handler::FilerequestDriveHandler;
use crate::io_controller::Uri;

verus! {

#[derive(Debug)]
pub struct OpenFileForReadingRequest {
    pub uri: Uri,
    pub id: FylesId,
    pub byte_offset: u64,
}

#[derive(Debug)]
pub struct FilerequestAccessRequest {
    pub filerequest_id: FylesId,
    pub contact_id: Option<ContactId>,
}

#[derive(Debug)]
pub struct FilerequestContinueRequest {
    pub filerequest_id: FylesId,
    pub contact_id: Option<ContactId>,
    pub peer_id: String,
    pub transfer_id: FylesId,
}

#[derive(Debug)]
pub struct FilerequestContinueResponse {
    pub drive_handler: FilerequestDriveHandler,
    pub file_name: String,
    pub file_size_bytes: u64,
    /// Milliseconds since UNIX epoch when the transfer was first started (from DB).
    pub started_at_ms: i64,
}

#[allow(inconsistent_fields)]
#[derive(Debug)]
pub enum NetworkNodeAction {
    RequestFileDrop(FilerequestAccessRequest),
    RequestFileTransferContinuation(FilerequestContinueRequest),
    GetNodeInfo,
    Ready,
    FileSending { pending_file_id: FylesId, status: SendStatus },
    /// Sent whenever a pending file ceased to be sending while not being done
    FileSendReset {
        pending_file_id: FylesId,
        status: SendStatus,
        retry_count: Option<usize>,
        reason: Option<String>,
    },
    FileSent { pending_file_id: FylesId },
    FileRejected { pending_file_id: FylesId },
    FileFailed { pending_file_id: FylesId },
    FileMissing { pending_file_id: FylesId },
    FileIoError { file: FylesId },
    StoreReceivedFile(CompleteReceivedFile),
    /// Persist a new receiver-side in-progress file entry and notify the frontend.
    CreateIncomingFile(CreateIncomingFile),
    /// Update the status / progress of an in-progress receive and push to frontend.
    UpdateReceivedFileStatus {
        transfer_id: FylesId,
        status: ReceiveStatus,
        progress_bytes: u64,
    },
    /// Remove a completed/failed received file entry from the table.
    DeleteReceivedFile { transfer_id: FylesId },
    GetContactPublicKeys(ContactId),
    IsContactKnown(ContactId),
    OpenFileForReading(OpenFileForReadingRequest),
    ValidateSelfContactInviteChallenge(SelfContactInviteChallenge),
    UpdateIdentity(SelfContact),
    AnsweredSelfContactInvite,
    RejectedSelfContactInvite,
    SelfContactInviteGotRejected,
    ValidateContactShareChallenge(ContactShareChallenge),
    CreateContact(Contact),
    AnsweredContactShare,
    RejectedContactShare,
    ContactShareGotRejected,
}

} // verus!
