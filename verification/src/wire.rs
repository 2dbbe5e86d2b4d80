//! The messages that clients and the service exchange.
use vstd::prelude::*;

use crate::domain_models::clone_strings;

verus! {

/// How a refused request is classified.
#[derive(Clone, Copy, Debug, PartialEq, Eq, Structural)]
pub enum Code {
    InvalidArgument,
    ResourceExhausted,
    Internal,
    Unauthenticated,
}

/// Why a request was refused.
#[derive(Debug)]
pub struct Status {
    pub code: Code,
    pub message: String,
}

impl Status {
    pub open spec fn is_invalid_argument(self, message: Seq<char>) -> bool {
        self.code == Code::InvalidArgument && self.message@ == message
    }

    pub open spec fn is_internal(self, message: Seq<char>) -> bool {
        self.code == Code::Internal && self.message@ == message
    }

    pub open spec fn is_unauthenticated(self, message: Seq<char>) -> bool {
        self.code == Code::Unauthenticated && self.message@ == message
    }

    pub open spec fn is_resource_exhausted(self, message: Seq<char>) -> bool {
        self.code == Code::ResourceExhausted && self.message@ == message
    }

    pub fn invalid_argument(message: String) -> (r: Self)
        ensures
            r == (Status { code: Code::InvalidArgument, message }),
    {
        Status { code: Code::InvalidArgument, message }
    }

    pub fn internal(message: String) -> (r: Self)
        ensures
            r == (Status { code: Code::Internal, message }),
    {
        Status { code: Code::Internal, message }
    }

    pub fn unauthenticated(message: String) -> (r: Self)
        ensures
            r == (Status { code: Code::Unauthenticated, message }),
    {
        Status { code: Code::Unauthenticated, message }
    }

    pub fn resource_exhausted(message: String) -> (r: Self)
        ensures
            r == (Status { code: Code::ResourceExhausted, message }),
    {
        Status { code: Code::ResourceExhausted, message }
    }
}

/// How far a file to send has got.
#[derive(Clone, Copy, Debug, PartialEq, Eq, Structural)]
pub enum SendStatusProto {
    Pending,
    Prepared,
    Sending,
    Interrupted,
    PendingSent,
    Success,
    Rejected,
    Failed,
}

/// How far a file to receive has got.
#[derive(Clone, Copy, Debug, PartialEq, Eq, Structural)]
pub enum ReceiveStatusProto {
    ReceiveStatusReceiving,
    ReceiveStatusInterrupted,
    ReceiveStatusCompleted,
    ReceiveStatusFailed,
}

/// Open to everybody.
#[derive(Debug)]
pub struct PublicProto {}

/// Open to some contacts.
#[derive(Debug)]
pub struct SpecificUsersProto {
    pub contact_ids: Vec<String>,
}

/// The kinds of access.
#[derive(Debug)]
pub enum Access {
    Public(PublicProto),
    Audience(SpecificUsersProto),
}

/// Who may drop files.
#[derive(Debug)]
pub struct AccessProto {
    pub access: Option<Access>,
}

impl View for AccessProto {
    type V = Option<crate::domain_models::AccessView>;

    open spec fn view(&self) -> Option<crate::domain_models::AccessView> {
        match self.access {
            Some(Access::Public(_)) => Some(crate::domain_models::AccessView::Public),
            Some(Access::Audience(users)) => Some(
                crate::domain_models::AccessView::Audience {
                    contact_ids: crate::domain_models::views(users.contact_ids@),
                },
            ),
            None => None,
        }
    }
}

impl Clone for AccessProto {
    fn clone(&self) -> (r: Self)
        ensures
            r@ == self@,
    {
        AccessProto {
            access: match &self.access {
                Some(Access::Public(_)) => Some(Access::Public(PublicProto {  })),
                Some(Access::Audience(users)) => Some(
                    Access::Audience(
                        SpecificUsersProto { contact_ids: clone_strings(&users.contact_ids) },
                    ),
                ),
                None => None,
            },
        }
    }
}

/// A contact, as it is shown.
#[derive(Debug)]
pub struct ContactProto {
    pub id: String,
    pub name: String,
}

/// A file request of the service.
#[derive(Debug)]
pub struct FileRequestProto {
    pub id: String,
    pub title: String,
    pub description: String,
    pub is_active: bool,
    pub access: Option<AccessProto>,
}

pub ghost struct FileRequestProtoView {
    pub id: Seq<char>,
    pub title: Seq<char>,
    pub description: Seq<char>,
    pub is_active: bool,
    pub access: Option<Option<crate::domain_models::AccessView>>,
}

impl View for FileRequestProto {
    type V = FileRequestProtoView;

    open spec fn view(&self) -> FileRequestProtoView {
        FileRequestProtoView {
            id: self.id@,
            title: self.title@,
            description: self.description@,
            is_active: self.is_active,
            access: crate::domain_models::opt_view(self.access),
        }
    }
}

impl Clone for FileRequestProto {
    fn clone(&self) -> (r: Self)
        ensures
            r@ == self@,
    {
        FileRequestProto {
            id: self.id.clone(),
            title: self.title.clone(),
            description: self.description.clone(),
            is_active: self.is_active,
            access: match &self.access {
                Some(access) => Some(access.clone()),
                None => None,
            },
        }
    }
}

/// A file request of somebody else.
#[derive(Debug)]
pub struct RemoteFileRequestProto {
    pub id: String,
    pub peer_id: String,
    pub file_request_id: String,
    pub name: String,
    pub contact_id: String,
}

/// What a new file request of somebody else is made of.
#[derive(Debug)]
pub struct CreateRemoteFileRequestProto {
    pub peer_id: String,
    pub file_request_id: String,
    pub name: String,
    pub contact_id: String,
}

/// A file to send.
#[derive(Debug)]
pub struct FileInfoProto {
    pub path: String,
    pub display_name: Option<String>,
}

/// Files to send for one request.
#[derive(Debug)]
pub struct CreatePendingFilesProto {
    pub file_infos: Vec<FileInfoProto>,
    pub target_file_request_id: String,
}

/// What is known of a transfer.
#[derive(Debug)]
pub struct TransferDataProto {
    pub progress_bytes: u64,
    pub transfer_id: String,
    pub file_size_bytes: u64,
}

/// A file that is to be sent, or was.
#[derive(Debug)]
pub struct PendingFileProto {
    pub id: String,
    pub file_path: String,
    pub target_file_request_id: String,
    pub send_status: SendStatusProto,
    pub transfer_data: Option<TransferDataProto>,
    pub display_name: Option<String>,
    pub interruption_reasons: Vec<String>,
}

pub ghost struct PendingFileProtoView {
    pub id: Seq<char>,
    pub file_path: Seq<char>,
    pub target_file_request_id: Seq<char>,
    pub send_status: SendStatusProto,
    pub transfer_data: Option<TransferDataProto>,
    pub display_name: Option<Seq<char>>,
    pub interruption_reasons: Seq<Seq<char>>,
}

impl View for PendingFileProto {
    type V = PendingFileProtoView;

    open spec fn view(&self) -> PendingFileProtoView {
        PendingFileProtoView {
            id: self.id@,
            file_path: self.file_path@,
            target_file_request_id: self.target_file_request_id@,
            send_status: self.send_status,
            transfer_data: self.transfer_data,
            display_name: crate::domain_models::opt_view(self.display_name),
            interruption_reasons: crate::domain_models::views(self.interruption_reasons@),
        }
    }
}

/// A file that was received.
#[derive(Debug)]
pub struct ReceivedFileProto {
    pub id: String,
    pub contact_id: Option<String>,
    pub filerequest_id: String,
    pub file_name: String,
    pub file_path: String,
    pub size: i64,
    pub received_at_ms: i64,
}

/// The keys that others know of a contact.
#[derive(Debug)]
pub struct ContactPublicKeysProto {
    pub dilithium: Vec<u8>,
    pub ed25519: Vec<u8>,
}

impl View for ContactPublicKeysProto {
    type V = crate::crypto::PublicKeysView;

    open spec fn view(&self) -> crate::crypto::PublicKeysView {
        crate::crypto::PublicKeysView { dilithium: self.dilithium@, ed25519: self.ed25519@ }
    }
}

/// The keys that a contact keeps to itself.
#[derive(Debug)]
pub struct ContactPrivateKeysProto {
    pub dilithium: Vec<u8>,
    pub ed25519: Vec<u8>,
}

impl View for ContactPrivateKeysProto {
    type V = crate::crypto::PrivateKeysView;

    open spec fn view(&self) -> crate::crypto::PrivateKeysView {
        crate::crypto::PrivateKeysView { dilithium: self.dilithium@, ed25519: self.ed25519@ }
    }
}

/// All keys of one's own contact.
#[derive(Debug)]
pub struct ContactKeysProto {
    pub private_keys: Option<ContactPrivateKeysProto>,
    pub public_keys: Option<ContactPublicKeysProto>,
}

pub ghost struct ContactKeysProtoView {
    pub private_keys: Option<crate::crypto::PrivateKeysView>,
    pub public_keys: Option<crate::crypto::PublicKeysView>,
}

impl View for ContactKeysProto {
    type V = ContactKeysProtoView;

    open spec fn view(&self) -> ContactKeysProtoView {
        ContactKeysProtoView {
            private_keys: crate::domain_models::opt_view(self.private_keys),
            public_keys: crate::domain_models::opt_view(self.public_keys),
        }
    }
}

/// One's own contact.
#[derive(Debug)]
pub struct SelfContactProto {
    pub id: String,
    pub name: String,
    pub keys: Option<ContactKeysProto>,
}

pub ghost struct SelfContactProtoView {
    pub id: Seq<char>,
    pub name: Seq<char>,
    pub keys: Option<ContactKeysProtoView>,
}

impl View for SelfContactProto {
    type V = SelfContactProtoView;

    open spec fn view(&self) -> SelfContactProtoView {
        SelfContactProtoView {
            id: self.id@,
            name: self.name@,
            keys: crate::domain_models::opt_view(self.keys),
        }
    }
}

/// One's own contact, as it is shared.
#[derive(Debug)]
pub struct SelfContactPublicProto {
    pub name: String,
    pub contact_id: String,
    pub public_keys: Option<ContactPublicKeysProto>,
}

pub ghost struct SelfContactPublicProtoView {
    pub name: Seq<char>,
    pub contact_id: Seq<char>,
    pub public_keys: Option<crate::crypto::PublicKeysView>,
}

impl View for SelfContactPublicProto {
    type V = SelfContactPublicProtoView;

    open spec fn view(&self) -> SelfContactPublicProtoView {
        SelfContactPublicProtoView {
            name: self.name@,
            contact_id: self.contact_id@,
            public_keys: crate::domain_models::opt_view(self.public_keys),
        }
    }
}

/// The node took over an identity that another device of its owner offered.
#[derive(Debug)]
pub struct ReceivedSelfContactInviteOverNetwork {}

/// Another device took over the identity of the node.
#[derive(Debug)]
pub struct SelfContactInviteAcceptedOverNetwork {}

/// The node learned of a contact.
#[derive(Debug)]
pub struct ReceivedContactShareOverNetwork {}

/// The store was replaced by a backup.
#[derive(Debug)]
pub struct DatabaseRestoredFromBackup {}

/// A file to send got further.
#[derive(Debug)]
pub struct PendingFileStatusChanged {
    pub pending_file_id: String,
    pub new_status: SendStatusProto,
    pub progress_bytes: Option<u64>,
    pub transfer_id: Option<String>,
    pub file_size_bytes: Option<u64>,
    pub target_file_request_id: String,
    pub interruption_reasons: Vec<String>,
}

/// A file to receive got further.
#[derive(Debug)]
pub struct ReceivedFileStatusChanged {
    pub transfer_id: Option<String>,
    pub filerequest_id: String,
    pub new_status: ReceiveStatusProto,
    pub progress_bytes: u64,
    pub file_size_bytes: u64,
    pub file_name: String,
}

/// What the service tells its clients unasked.
#[derive(Debug)]
pub enum Message {
    ReceivedSelfContactInviteOverNetwork(ReceivedSelfContactInviteOverNetwork),
    SelfContactInviteAcceptedOverNetwork(SelfContactInviteAcceptedOverNetwork),
    ReceivedContactShareOverNetwork(ReceivedContactShareOverNetwork),
    DatabaseRestoredFromBackup(DatabaseRestoredFromBackup),
    PendingFileStatusChanged(PendingFileStatusChanged),
    ReceivedFileStatusChanged(ReceivedFileStatusChanged),
}

/// A message that is pushed to every client.
#[derive(Debug)]
pub struct ServerMessage {
    pub message: Option<Message>,
}

} // verus!
