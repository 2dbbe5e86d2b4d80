//! A network node without a network.
use vstd::prelude::*;

use crate::brain::types::{ContactShareChallenge, SelfContactInviteChallenge};
use crate::crypto::ContactKeys;
use crate::domain_models::{ContactId, FylesId, PeerIdWrapper};
use crate::p2p::{FileToSend, KeypairGenerationError, NodeStatusInfo, P2pResult};
use crate::util::util::generate_random_bytes;

verus! {

/// What `String::from_utf8_lossy` makes of bytes.
pub uninterp spec fn lossy_text(bytes: Seq<u8>) -> Seq<char>;

/// `String::from_utf8_lossy`: the text that the bytes encode in UTF-8, with a replacement for what
/// encodes none.
#[verifier::external_body]
fn from_utf8_lossy(bytes: &Vec<u8>) -> (r: String)
    ensures
        r@ == lossy_text(bytes@),
{
    String::from_utf8_lossy(bytes).into_owned()
}

/// Keeps what it is to send, and tells what it was told to tell.
pub struct MockP2pNode {
    send_file_calls: Vec<Vec<FileToSend>>,
    node_info: NodeStatusInfo,
}

impl MockP2pNode {
    /// The lists of files that the node was given to send.
    pub closed spec fn sent(&self) -> Seq<Seq<FileToSend>> {
        self.send_file_calls@.map_values(|call: Vec<FileToSend>| call@)
    }

    pub closed spec fn info(&self) -> crate::p2p::NodeStatusInfoView {
        self.node_info@
    }

    pub fn new(node_info: NodeStatusInfo) -> (r: Self)
        ensures
            r.sent() == Seq::<Seq<FileToSend>>::empty(),
            r.info() == node_info@,
    {
        let r = MockP2pNode { send_file_calls: Vec::new(), node_info };
        assert(r.sent() =~= Seq::<Seq<FileToSend>>::empty());
        r
    }

    pub fn display_keypair(&self, binary: &Vec<u8>) -> (r: Result<String, String>)
        ensures
            r matches Ok(text) && text@ == lossy_text(binary@),
    {
        Ok(from_utf8_lossy(binary))
    }

    pub fn send_files(&mut self, files_to_send: Vec<FileToSend>) -> (r: P2pResult<()>)
        ensures
            r is Ok,
            final(self).sent() == old(self).sent().push(files_to_send@),
            final(self).info() == old(self).info(),
    {
        self.send_file_calls.push(files_to_send);
        assert(self.sent() =~= old(self).sent().push(files_to_send@));
        Ok(())
    }

    pub fn initial_files_to_send(&mut self, files: Vec<FileToSend>) -> (r: P2pResult<()>)
        ensures
            r is Ok,
            final(self).sent() == old(self).sent().push(files@),
            final(self).info() == old(self).info(),
    {
        self.send_files(files)
    }

    pub fn get_node_info(&self) -> (r: P2pResult<NodeStatusInfo>)
        ensures
            r matches Ok(info) && info@ == self.info(),
    {
        Ok(self.node_info.clone())
    }

    pub fn cancel_file(&self, _id: FylesId) -> (r: P2pResult<bool>)
        ensures
            r == Ok::<bool, crate::p2p::P2pError>(true),
    {
        Ok(true)
    }

    pub fn cancel_files_for_remote_filerequest(&self, _id: FylesId, _peer_id: PeerIdWrapper) -> (r:
        P2pResult<bool>)
        ensures
            r == Ok::<bool, crate::p2p::P2pError>(true),
    {
        Ok(true)
    }

    pub fn generate_keypair(&self) -> (r: Result<Vec<u8>, KeypairGenerationError>)
        ensures
            r matches Ok(key_pair) && key_pair@.len() == 32 && crate::util::util::are_drawn(
                key_pair@,
            ),
    {
        Ok(generate_random_bytes(32))
    }

    /// Does nothing.
    pub fn update_identity(&self, _contact_id: ContactId, _keys: ContactKeys) {
    }

    /// Does nothing.
    pub fn use_self_contact_invite(
        &self,
        _invite_code: SelfContactInviteChallenge,
        _peer_id: PeerIdWrapper,
    ) {
    }

    /// Does nothing.
    pub fn use_contact_share_challenge(
        &self,
        _share_code: ContactShareChallenge,
        _peer_id: PeerIdWrapper,
    ) {
    }

    pub fn apply_settings(&self, _settings: &[u8]) -> (r: P2pResult<()>)
        ensures
            r is Ok,
    {
        Ok(())
    }

    /// The lists of files that the node was given to send.
    pub fn send_file_calls(&self) -> (r: &Vec<Vec<FileToSend>>)
        ensures
            r@.map_values(|call: Vec<FileToSend>| call@) == self.sent(),
    {
        &self.send_file_calls
    }
}

} // verus!
