//! What the service and its network node exchange.
use vstd::prelude::*;

use crate::domain_models::{clone_strings, ContactId, FylesId, PeerIdWrapper, SendStatus};

verus! {

pub type P2pResult<T> = Result<T, P2pError>;

pub type NodeKeyPairBinary = Vec<u8>;

/// What the network node tells of itself.
#[derive(Debug)]
pub struct NodeStatusInfo {
    pub peer_id: PeerIdWrapper,
    pub external_addresses: Vec<String>,
    pub internal_addresses: Vec<String>,
    pub connected_peers: usize,
    pub start_timestamp: u128,
}

pub ghost struct NodeStatusInfoView {
    pub peer_id: Seq<char>,
    pub external_addresses: Seq<Seq<char>>,
    pub internal_addresses: Seq<Seq<char>>,
    pub connected_peers: usize,
    pub start_timestamp: u128,
}

impl View for NodeStatusInfo {
    type V = NodeStatusInfoView;

    open spec fn view(&self) -> NodeStatusInfoView {
        NodeStatusInfoView {
            peer_id: self.peer_id@,
            external_addresses: crate::domain_models::views(self.external_addresses@),
            internal_addresses: crate::domain_models::views(self.internal_addresses@),
            connected_peers: self.connected_peers,
            start_timestamp: self.start_timestamp,
        }
    }
}

impl Clone for NodeStatusInfo {
    fn clone(&self) -> (r: Self)
        ensures
            r@ == self@,
    {
        NodeStatusInfo {
            peer_id: self.peer_id.clone(),
            external_addresses: clone_strings(&self.external_addresses),
            internal_addresses: clone_strings(&self.internal_addresses),
            connected_peers: self.connected_peers,
            start_timestamp: self.start_timestamp,
        }
    }
}

/// Very similar to `PendingFile`, but the target filerequest id has been resolved to the external
/// id.
#[derive(Debug)]
pub struct FileToSend {
    pub id: FylesId,
    pub peer_id: PeerIdWrapper,
    pub contact_id: ContactId,
    pub filerequest_id: FylesId,
    pub file_path: String,
    pub retry_count: usize,
    pub status: SendStatus,
}

pub ghost struct FileToSendView {
    pub id: Seq<char>,
    pub peer_id: Seq<char>,
    pub contact_id: Seq<char>,
    pub filerequest_id: Seq<char>,
    pub file_path: Seq<char>,
    pub retry_count: usize,
    pub status: crate::domain_models::SendStatusView,
}

impl View for FileToSend {
    type V = FileToSendView;

    open spec fn view(&self) -> FileToSendView {
        FileToSendView {
            id: self.id@,
            peer_id: self.peer_id@,
            contact_id: self.contact_id@,
            filerequest_id: self.filerequest_id@,
            file_path: self.file_path@,
            retry_count: self.retry_count,
            status: self.status@,
        }
    }
}

/// Why a node has no new key pair.
#[derive(Clone, Copy, Debug, PartialEq, Eq, Structural)]
pub enum KeypairGenerationError {
    SerializationError,
}

impl KeypairGenerationError {
    pub fn to_text(&self) -> (r: String)
        ensures
            r@ == "Error during key serialization"@,
    {
        "Error during key serialization".to_owned()
    }
}

/// Why the network node could not do what it was asked for. Underlying errors are kept as their
/// texts.
#[allow(inconsistent_fields)]
#[derive(Debug)]
pub enum P2pError {
    FileNotAccepted { filerequest_id: FylesId, source: Option<String> },
    NetworkError { msg: String, source: String },
    InternalCommunicationError { msg: String, source: String },
    UnspecifiedError(String),
}

impl P2pError {
    pub open spec fn text(self) -> Seq<char> {
        match self {
            P2pError::FileNotAccepted { filerequest_id, .. } =>
                "File not accepted for filerequest_id: "@ + filerequest_id@,
            P2pError::NetworkError { msg, source } => "Network error: \""@ + msg@ + "\": "@
                + source@,
            P2pError::InternalCommunicationError { msg, source } =>
                "Internal communication error: \""@ + msg@ + "\": "@ + source@,
            P2pError::UnspecifiedError(source) => "Unspecified internal error: "@ + source@,
        }
    }

    pub fn to_text(&self) -> (r: String)
        ensures
            r@ == self.text(),
    {
        match self {
            P2pError::FileNotAccepted { filerequest_id, .. } =>
                "File not accepted for filerequest_id: ".to_owned().concat(
                filerequest_id.0.as_str(),
            ),
            P2pError::NetworkError { msg, source } => "Network error: \"".to_owned().concat(
                msg.as_str(),
            ).concat("\": ").concat(source.as_str()),
            P2pError::InternalCommunicationError { msg, source } =>
                "Internal communication error: \"".to_owned().concat(msg.as_str()).concat(
                "\": ",
            ).concat(source.as_str()),
            P2pError::UnspecifiedError(source) => "Unspecified internal error: ".to_owned().concat(
                source.as_str(),
            ),
        }
    }
}

} // verus!
