use fyles_core::api_server::service::{
    action_of_message, begin, finish, ApiRequest, ApiResponse, Awaited, Begun, ClientMessage,
    Delivery,
};
use fyles_core::brain::action::BrainAction;
use fyles_core::brain::action_client::ClientAction;
use fyles_core::brain::action_p2p::{
    FilerequestAccessRequest, FilerequestContinueRequest, NetworkNodeAction,
};
use fyles_core::brain::error::FilerequestError;
use fyles_core::brain::exchange::{
    Answer, DbCommand, DbReply, Effect, HostCommand, HostReply, NetworkCommand, NetworkReply,
    Query, Reply, Response,
};
use fyles_core::brain::handle_action::{handle_action, resume};
use fyles_core::brain::state::{EphemeralBrainData, Next};
use fyles_core::brain::types::{ContactShareChallenge, SelfContactInviteChallenge};
use fyles_core::domain_models::{
    CompleteReceivedFile, Contact, ContactId, CreateFilerequest, CreateIncomingFile,
    CreatePendingFiles, CreateRemoteFilerequest, FileInfo, FilerequestAccess, FylesId,
    PeerIdWrapper, ReceiveStatus, SendStatus,
};
use fyles_core::io_controller::Uri;
use fyles_core::mocks::db::MockDb;
use fyles_core::mocks::p2p::MockP2pNode;
use fyles_core::notification::Notification;
use fyles_core::p2p::NodeStatusInfo;
use fyles_core::wire::{Code, CreateRemoteFileRequestProto, Message, ServerMessage};

fn carry_out(db: &mut MockDb, command: DbCommand) -> DbReply {
    match command {
        DbCommand::GetFilerequest(id) => Answer::Filerequest(db.get_filerequest(&id)),
        DbCommand::GetFilerequests => Answer::Filerequests(db.get_filerequests()),
        DbCommand::CreateFilerequest(filerequest) => {
            Answer::Id(db.create_filerequest(&filerequest))
        }
        DbCommand::UpdateFilerequest(filerequest) => {
            Answer::Unit(db.update_filerequest(&filerequest))
        }
        DbCommand::DeleteFilerequest(id) => Answer::Unit(db.delete_filerequest(&id)),
        DbCommand::GetContactName(id) => Answer::Text(db.get_contact_name(&id)),
        DbCommand::GetContactNames(ids) => Answer::Names(db.get_contact_names(&ids)),
        DbCommand::GetContact(id) => Answer::Contact(db.get_contact(&id)),
        DbCommand::GetContacts => Answer::DisplayContacts(db.get_contacts()),
        DbCommand::UpdateContact(contact) => Answer::Unit(db.update_contact(&contact)),
        DbCommand::DeleteContact(id) => Answer::Unit(db.delete_contact(&id)),
        DbCommand::GetContactPublicKeys(id) => {
            Answer::PublicKeys(db.get_contact_public_keys(id))
        }
        DbCommand::RegisterContact(contact) => Answer::Unit(db.register_contact(contact)),
        DbCommand::StoreNodeKeys(info) => Answer::Unit(db.store_node_keys(info)),
        DbCommand::GetNodeKeys => Answer::NodeInfo(db.get_node_keys()),
        DbCommand::GetRemoteFilerequest(id) => {
            Answer::RemoteFilerequest(db.get_remote_filerequest(&id))
        }
        DbCommand::GetRemoteFilerequestsByContact(id) => {
            Answer::RemoteFilerequests(db.get_remote_filerequests_by_contact(&id))
        }
        DbCommand::GetAllRemoteFilerequests => {
            Answer::RemoteFilerequests(db.get_all_remote_filerequests())
        }
        DbCommand::CreateRemoteFilerequest(request) => {
            Answer::Id(db.create_remote_filerequest(&request))
        }
        DbCommand::UpdateRemoteFilerequest { id, name } => {
            Answer::Unit(db.update_remote_filerequest(id, name))
        }
        DbCommand::DeleteRemoteFilerequest(id) => {
            Answer::Unit(db.delete_remote_filerequest(&id))
        }
        DbCommand::CreatePendingFiles(files) => {
            Answer::Ids(db.create_pending_files(&files))
        }
        DbCommand::GetPendingFile(id) => Answer::PendingFile(db.get_pending_file(&id)),
        DbCommand::GetPendingFiles(id) => Answer::PendingFiles(db.get_pending_files(&id)),
        DbCommand::GetAllPendingFiles => Answer::PendingFiles(db.get_all_pending_files()),
        DbCommand::UpdatePendingFileStatus {
            id,
            status,
            retry_count,
        } => Answer::Id(db.handle_update_pending_file_status(&id, &status, retry_count)),
        DbCommand::DeletePendingFile(id) => Answer::Unit(db.delete_pending_file(&id)),
        DbCommand::AddInterruptionReason { id, reason } => {
            Answer::Unit(db.add_interruption_reason(&id, reason))
        }
        DbCommand::CountNonTerminalPendingFilesForPath(id) => {
            Answer::Count(db.count_non_terminal_pending_files_for_path(&id))
        }
        DbCommand::CreateIncomingFile(file) => Answer::Id(db.create_incoming_file(&file)),
        DbCommand::UpdateReceivedFileStatus {
            transfer_id,
            status,
            progress_bytes,
        } => Answer::Unit(db.update_received_file_status(
            &transfer_id,
            &status,
            progress_bytes,
        )),
        DbCommand::GetReceivedFileByTransferId(id) => {
            Answer::ReceivedFile(db.get_received_file_by_transfer_id(&id))
        }
        DbCommand::CompleteReceivedFile(file) => {
            Answer::Id(db.complete_received_file(&file))
        }
        DbCommand::ListReceivedFiles(id) => {
            Answer::ReceivedFiles(db.list_received_files(&id))
        }
        DbCommand::DeleteReceivedFile(id) => Answer::Unit(db.delete_received_file(&id)),
        DbCommand::GetStaleReceivedFiles { older_than_ms } => {
            Answer::ReceivedFiles(db.get_stale_received_files(older_than_ms))
        }
        DbCommand::GetSelfContact => Answer::SelfContact(db.get_self_contact()),
        DbCommand::GetSelfContactForDisplay => {
            Answer::DisplayContact(db.get_self_contact_for_display())
        }
        DbCommand::UpdateSelfContactName(name) => {
            Answer::Unit(db.update_self_contact_name(name))
        }
        DbCommand::UpdateIdentity(contact) => Answer::Unit(db.update_identity(contact)),
        DbCommand::GetSharablePublicSelfContact => {
            Answer::Contact(db.get_sharable_public_self_contact())
        }
        DbCommand::GetSettings => Answer::Settings(db.get_settings()),
        DbCommand::StoreSettings(settings) => Answer::Unit(db.store_settings(settings)),
        DbCommand::BackupDatabase | DbCommand::RestoreDatabase => Answer::Unit(Ok(())),
    }
}

/// The service with everything it talks to in memory.
struct Service {
    ephemeral: EphemeralBrainData,
    db: MockDb,
    node: MockP2pNode,
    host_is_broken: bool,
    host_calls: Vec<HostCommand>,
    pushed: Vec<ServerMessage>,
    notified: Vec<Notification>,
    answered_waiters: Vec<u64>,
    dropped_waiters: Vec<u64>,
}

impl Service {
    fn new() -> Self {
        Service {
            ephemeral: EphemeralBrainData::with_separator('/'),
            db: MockDb::new(),
            node: MockP2pNode::new(NodeStatusInfo {
                peer_id: PeerIdWrapper::for_test(),
                external_addresses: vec!["/ip4/127.0.0.1/tcp/8080".to_string()],
                internal_addresses: vec!["/ip4/127.0.0.1/tcp/8080".to_string()],
                connected_peers: 0,
                start_timestamp: 0,
            }),
            host_is_broken: false,
            host_calls: Vec::new(),
            pushed: Vec::new(),
            notified: Vec::new(),
            answered_waiters: Vec::new(),
            dropped_waiters: Vec::new(),
        }
    }

    fn ask_node(&mut self, command: NetworkCommand) -> NetworkReply {
        match command {
            NetworkCommand::SendFiles(files) => NetworkReply::Done(self.node.send_files(files)),
            NetworkCommand::InitialFilesToSend(files) => {
                NetworkReply::Done(self.node.initial_files_to_send(files))
            }
            NetworkCommand::GetNodeInfo => NetworkReply::Status(self.node.get_node_info()),
            NetworkCommand::CancelFile(id) => NetworkReply::Cancelled(self.node.cancel_file(id)),
            NetworkCommand::CancelFilesForRemoteFilerequest {
                target_filerequest_id,
                peer_id,
            } => NetworkReply::Cancelled(
                self.node
                    .cancel_files_for_remote_filerequest(target_filerequest_id, peer_id),
            ),
            NetworkCommand::GenerateKeypair => NetworkReply::Keypair(self.node.generate_keypair()),
            NetworkCommand::DisplayKeypair(binary) => {
                NetworkReply::Shown(self.node.display_keypair(&binary))
            }
            NetworkCommand::UpdateIdentity { contact_id, keys } => {
                self.node.update_identity(contact_id, keys);
                NetworkReply::Nothing
            }
            NetworkCommand::UseSelfContactInvite {
                invite_code,
                peer_id,
            } => {
                self.node.use_self_contact_invite(invite_code, peer_id);
                NetworkReply::Nothing
            }
            NetworkCommand::UseContactShareChallenge {
                share_code,
                peer_id,
            } => {
                self.node.use_contact_share_challenge(share_code, peer_id);
                NetworkReply::Nothing
            }
            NetworkCommand::ApplySettings(settings) => {
                NetworkReply::Done(self.node.apply_settings(&settings))
            }
        }
    }

    fn ask_host(&mut self, command: HostCommand) -> HostReply {
        self.host_calls.push(command);
        if self.host_is_broken {
            Err("the disk is gone".to_string())
        } else {
            Ok(())
        }
    }

    /// Handles an action to its end and gives what was responded.
    fn handle(&mut self, action: BrainAction) -> Option<Response> {
        let mut responses = Vec::new();
        let mut step = handle_action(&mut self.ephemeral, action);
        loop {
            for effect in step.effects {
                match effect {
                    Effect::Respond(response) => responses.push(response),
                    Effect::Push(message) => self.pushed.push(message),
                    Effect::Notify(notification) => self.notified.push(notification),
                    Effect::AnswerWaiters(mut tickets) => {
                        self.answered_waiters.append(&mut tickets)
                    }
                    Effect::DropWaiter(ticket) => self.dropped_waiters.push(ticket),
                }
            }
            match step.next {
                Next::Done => break,
                Next::Await(query, state) => {
                    let reply = match query {
                        Query::Db(command) => Reply::Db(carry_out(&mut self.db, command)),
                        Query::Network(command) => Reply::Network(self.ask_node(command)),
                        Query::Host(command) => Reply::Host(self.ask_host(command)),
                    };
                    assert!(state.is_expected(&reply));
                    step = resume(&mut self.ephemeral, state, reply);
                }
            }
        }
        assert!(responses.len() <= 1);
        responses.pop()
    }

    fn client(&mut self, action: ClientAction) -> Response {
        self.handle(BrainAction::Client(action)).unwrap()
    }

    fn node(&mut self, action: NetworkNodeAction) -> Option<Response> {
        self.handle(BrainAction::NetworkNode(action))
    }

    /// Serves a request of the interface to its end.
    fn serve(&mut self, request: ApiRequest) -> Result<ApiResponse, fyles_core::wire::Status> {
        match begin(request, "1.2.3") {
            Err(status) => Err(status),
            Ok(Begun::Answered(response)) => Ok(response),
            Ok(Begun::Dispatch(action, awaited)) => {
                let delivery = match self.handle(BrainAction::Client(action)) {
                    Some(response) => Delivery::Answered(response),
                    None => Delivery::NoAnswer,
                };
                assert!(awaited.is_finished_by(&delivery), "{:?} {:?}", awaited, delivery);
                finish(awaited, delivery, 5_000)
            }
        }
    }

    fn create_filerequest(&mut self, access: FilerequestAccess, is_active: bool) -> FylesId {
        let created = self.client(ClientAction::CreateFilerequest(CreateFilerequest {
            title: "Test Request".to_string(),
            description: "Test Description".to_string(),
            is_active,
            access,
        }));
        match created {
            Response::Answer(Answer::Id(Ok(id))) => id,
            other => panic!("Failed to create filerequest: {:?}", other),
        }
    }

    fn remote_request(&mut self) -> FylesId {
        let created = self.client(ClientAction::CreateRemoteFilerequest(
            CreateRemoteFilerequest {
                peer_id: PeerIdWrapper::for_test(),
                filerequest_id: "remote".to_string(),
                name: "Their request".to_string(),
                contact_id: ContactId::from("friend"),
            },
        ));
        match created {
            Response::Answer(Answer::Id(Ok(id))) => id,
            other => panic!("{:?}", other),
        }
    }

    fn pending_file(&mut self, target: &FylesId, path: &str) -> FylesId {
        let created = self.client(ClientAction::CreatePendingFiles(CreatePendingFiles {
            target_filerequest_id: target.clone(),
            file_infos: vec![FileInfo {
                path: path.to_string(),

                display_name: Some("a file".to_string()),
            }],
        }));
        match created {
            Response::Answer(Answer::Ids(Ok(ids))) => ids[0].clone(),
            other => panic!("{:?}", other),
        }
    }
}

#[test]
fn test_create_and_get_filerequest() {
    let mut service = Service::new();

    // First create a filerequest
    let created_id = match service.client(ClientAction::CreateFilerequest(CreateFilerequest {
        title: "Test Request".to_string(),
        description: "Test Description".to_string(),
        is_active: true,
        access: FilerequestAccess::Public,
    })) {
        Response::Answer(Answer::Id(Ok(id))) => id,
        e => panic!("Failed to create filerequest: {:?}", e),
    };

    // Now try to get the created filerequest and verify it
    match service.client(ClientAction::ReadFilerequest(created_id)) {
        Response::Answer(Answer::Filerequest(Ok(filerequest))) => {
            assert_eq!(filerequest.title, "Test Request");
            assert_eq!(filerequest.description, "Test Description");
            assert!(filerequest.is_active);
        }
        e => panic!("Failed to get filerequest: {:?}", e),
    }

    // Request all filerequests and verify the list
    match service.client(ClientAction::ListFilerequests) {
        Response::Answer(Answer::Filerequests(Ok(filerequests))) => {
            assert_eq!(filerequests.len(), 1);
            assert_eq!(filerequests[0].title, "Test Request");
            assert_eq!(filerequests[0].description, "Test Description");
            assert!(filerequests[0].is_active);
        }
        e => panic!("Failed to list filerequests: {:?}", e),
    }
}

#[test]
fn test_get_node_status() {
    let mut service = Service::new();

    match service.client(ClientAction::GetNodeStatus) {
        Response::Answer(Answer::NodeStatus(Ok(node_info))) => {
            assert_eq!(node_info.external_addresses[0], "/ip4/127.0.0.1/tcp/8080");
            assert_eq!(node_info.connected_peers, 0);
        }
        e => panic!("Failed to get node status: {:?}", e),
    }
}

#[test]
fn test_store_received_file() {
    let mut service = Service::new();

    // Create test data first
    let filerequest = service.create_filerequest(FilerequestAccess::Public, true);

    // First, create an incoming file (simulates starting a transfer)
    let contact_id = ContactId::new();
    let transfer_id = FylesId::new();
    let incoming = CreateIncomingFile {
        contact_id: Some(contact_id.clone()),
        filerequest_id: filerequest.clone(),
        transfer_id: transfer_id.clone(),
        peer_id: "test-peer-id".to_string(),
        file_name: "test.txt".to_string(),
        file_size_bytes: 1234,
        started_at_ms: 1_700_000_000_000,
    };
    let created = service.node(NetworkNodeAction::CreateIncomingFile(incoming));
    assert!(matches!(created, Some(Response::Answer(Answer::Id(Ok(_))))));

    // Now complete the transfer and verify that the file was stored
    let stored = service.node(NetworkNodeAction::StoreReceivedFile(CompleteReceivedFile {
        transfer_id: transfer_id.clone(),
        file_path: "/tmp/test.txt".to_string(),
        received_at_ms: 1_700_000_001_000,
    }));
    let result_id = match stored {
        Some(Response::Answer(Answer::Id(Ok(id)))) => id,
        other => panic!("{:?}", other),
    };

    // Now verify the file can be retrieved
    let listed = service.client(ClientAction::ListReceivedFilesForRequest(filerequest.clone()));
    let mut files = match listed {
        Response::Answer(Answer::ReceivedFiles(Ok(files))) => files,
        other => panic!("{:?}", other),
    };
    assert_eq!(files.len(), 1);
    assert_eq!(files[0].id.0, result_id.0);
    assert_eq!(files[0].file_name, "test.txt");
    assert_eq!(files[0].contact_id.take().unwrap().0, contact_id.0);

    // The owner is notified
    match &service.notified[..] {
        [Notification::FileReceived {
            contact_name,
            filerequest_name,
            file_name,
            file_size,
        }] => {
            assert_eq!(*contact_name, None);
            assert_eq!(filerequest_name, "Test Request");
            assert_eq!(file_name, "test.txt");
            assert_eq!(*file_size, 1234);
        }
        other => panic!("{:?}", other),
    }
}

fn drop_request(filerequest_id: &FylesId, contact: Option<&str>) -> NetworkNodeAction {
    NetworkNodeAction::RequestFileDrop(FilerequestAccessRequest {
        filerequest_id: filerequest_id.clone(),
        contact_id: contact.map(ContactId::from),
    })
}

fn is_let_in(response: Option<Response>) -> bool {
    match response {
        Some(Response::FileDrop(handler)) => handler.is_some(),
        other => panic!("{:?}", other),
    }
}

#[test]
fn files_are_dropped_only_with_permission() {
    let mut service = Service::new();
    let public = service.create_filerequest(FilerequestAccess::Public, true);
    let closed = service.create_filerequest(FilerequestAccess::Public, false);
    let audience = FilerequestAccess::Audience {
        contact_ids: vec![ContactId::from("friend")],
    };
    let limited = service.create_filerequest(audience, true);

    assert!(is_let_in(service.node(drop_request(&public, None))));
    assert!(!is_let_in(service.node(drop_request(&closed, None))));
    assert!(!is_let_in(service.node(drop_request(&limited, None))));
    assert!(is_let_in(service.node(drop_request(&limited, Some("friend")))));
    assert!(!is_let_in(service.node(drop_request(&limited, Some("stranger")))));
    assert!(!is_let_in(service.node(drop_request(&FylesId::from("unknown"), None))));
}

#[test]
fn transfers_are_continued_only_by_their_peer() {
    let mut service = Service::new();
    let filerequest = service.create_filerequest(FilerequestAccess::Public, true);
    service.node(NetworkNodeAction::CreateIncomingFile(CreateIncomingFile {
        contact_id: None,
        filerequest_id: filerequest.clone(),
        transfer_id: FylesId::from("transfer"),
        peer_id: "peer".to_string(),
        file_name: "notes.txt".to_string(),
        file_size_bytes: 99,
        started_at_ms: 77,
    }));
    let request = |peer: &str, transfer: &str| {
        NetworkNodeAction::RequestFileTransferContinuation(FilerequestContinueRequest {
            filerequest_id: filerequest.clone(),
            contact_id: None,
            peer_id: peer.to_string(),
            transfer_id: FylesId::from(transfer),
        })
    };
    match service.node(request("peer", "transfer")) {
        Some(Response::Continuation(Some(continuation))) => {
            assert_eq!(continuation.file_name, "notes.txt");
            assert_eq!(continuation.file_size_bytes, 99);
            assert_eq!(continuation.started_at_ms, 77);
        }
        other => panic!("{:?}", other),
    }
    assert!(matches!(
        service.node(request("another", "transfer")),
        Some(Response::Continuation(None))
    ));
    assert!(matches!(
        service.node(request("peer", "another")),
        Some(Response::Continuation(None))
    ));
}

#[test]
fn invites_are_used_once() {
    let mut service = Service::new();
    service.node(NetworkNodeAction::GetNodeInfo);
    let challenge = match service.client(ClientAction::RegisterSelfContactInviteChallenge) {
        Response::SelfContactInviteChallenge(challenge) => challenge.0,
        other => panic!("{:?}", other),
    };
    assert_eq!(challenge.len(), 32);
    let mut present = |bytes: &Vec<u8>| {
        service.node(NetworkNodeAction::ValidateSelfContactInviteChallenge(
            SelfContactInviteChallenge(bytes.clone()),
        ))
    };
    assert!(matches!(present(&vec![0; 32]), Some(Response::SelfContact(None))));
    assert!(matches!(present(&challenge), Some(Response::SelfContact(Some(_)))));
    assert!(matches!(present(&challenge), Some(Response::SelfContact(None))));
}

#[test]
fn withdrawn_challenges_are_refused() {
    let mut service = Service::new();
    service.node(NetworkNodeAction::GetNodeInfo);
    let share = match service.client(ClientAction::RegisterContactShareChallenge) {
        Response::ContactShareChallenge(challenge) => challenge.0,
        other => panic!("{:?}", other),
    };
    let shared = service.node(NetworkNodeAction::ValidateContactShareChallenge(
        ContactShareChallenge(share.clone()),
    ));
    assert!(matches!(shared, Some(Response::Contact(Some(_)))));
    service.client(ClientAction::UnregisterContactShareChallenge(
        ContactShareChallenge(share.clone()),
    ));
    let refused = service.node(NetworkNodeAction::ValidateContactShareChallenge(
        ContactShareChallenge(share),
    ));
    assert!(matches!(refused, Some(Response::Contact(None))));
}

#[test]
fn waiting_clients_are_answered() {
    let mut service = Service::new();
    assert!(service
        .handle(BrainAction::Client(ClientAction::WaitForReady(7)))
        .is_none());
    assert!(service.answered_waiters.is_empty());
    service.node(NetworkNodeAction::Ready);
    assert_eq!(service.answered_waiters, vec![7]);
    assert!(matches!(
        service.client(ClientAction::WaitForReady(8)),
        Response::Ready(true)
    ));
}

#[test]
fn only_so_many_clients_wait() {
    let mut service = Service::new();
    for ticket in 0..26 {
        service.handle(BrainAction::Client(ClientAction::WaitForReady(ticket)));
    }
    assert_eq!(service.dropped_waiters, vec![25]);
    service.node(NetworkNodeAction::Ready);
    assert_eq!(service.answered_waiters, (0..25).collect::<Vec<u64>>());
}

#[test]
fn start_continues_unfinished_files() {
    let mut service = Service::new();
    let target = service.remote_request();
    let unfinished = service.pending_file(&target, "/tmp/a");
    let finished = service.pending_file(&target, "/tmp/b");
    service.node(NetworkNodeAction::FileSent {
        pending_file_id: finished,
    });
    service.node(NetworkNodeAction::Ready);
    let calls = service.node.send_file_calls();
    let started = calls.last().unwrap();
    assert_eq!(started.len(), 1);
    assert_eq!(started[0].id.0, unfinished.0);
    assert_eq!(started[0].file_path, "/tmp/a");
    assert_eq!(started[0].contact_id.0, "friend");
}

#[test]
fn failed_creation_is_rolled_back() {
    let mut service = Service::new();
    service.host_is_broken = true;
    let created = service.client(ClientAction::CreateFilerequest(CreateFilerequest {
        title: "Test Request".to_string(),
        description: "Test Description".to_string(),
        is_active: true,
        access: FilerequestAccess::Public,
    }));
    assert!(matches!(
        created,
        Response::Answer(Answer::Id(Err(FilerequestError::GenericError { msg, source: None })))
            if msg == "Unable to create Filerequest because directory cannot be created"
    ));
    match service.client(ClientAction::ListFilerequests) {
        Response::Answer(Answer::Filerequests(Ok(filerequests))) => {
            assert!(filerequests.is_empty())
        }
        other => panic!("{:?}", other),
    }
}

#[test]
fn sources_in_use_are_kept() {
    let mut service = Service::new();
    let target = service.remote_request();
    let first = service.pending_file(&target, "/tmp/shared");
    let second = service.pending_file(&target, "/tmp/shared");
    service.node(NetworkNodeAction::FileSent {
        pending_file_id: first,
    });
    let removals = |service: &Service| {
        service
            .host_calls
            .iter()
            .filter(|call| {
                matches!(call, HostCommand::RemoveSourceFileIfTemporary(path)
                    if path == "/tmp/shared")
            })
            .count()
    };
    assert_eq!(removals(&service), 0);
    service.node(NetworkNodeAction::FileRejected {
        pending_file_id: second,
    });
    assert_eq!(removals(&service), 1);
}

#[test]
fn clients_hear_of_the_status_of_files() {
    let mut service = Service::new();
    let target = service.remote_request();
    let file = service.pending_file(&target, "/tmp/a");
    service.pushed.clear();
    service.node(NetworkNodeAction::FileFailed {
        pending_file_id: file.clone(),
    });
    match &service.pushed[0].message {
        Some(Message::PendingFileStatusChanged(change)) => {
            assert_eq!(change.pending_file_id, file.0);
            assert_eq!(change.target_file_request_id, target.0);
        }
        other => panic!("{:?}", other),
    }
    match service.client(ClientAction::GetPendingFile(file)) {
        Response::Answer(Answer::PendingFile(Ok(file))) => {
            assert!(matches!(file.status, SendStatus::Failed))
        }
        other => panic!("{:?}", other),
    }
}

#[test]
fn clients_hear_of_progress_of_received_files() {
    let mut service = Service::new();
    let filerequest = service.create_filerequest(FilerequestAccess::Public, true);
    service.node(NetworkNodeAction::CreateIncomingFile(CreateIncomingFile {
        contact_id: None,
        filerequest_id: filerequest.clone(),
        transfer_id: FylesId::from("transfer"),
        peer_id: "peer".to_string(),
        file_name: "notes.txt".to_string(),
        file_size_bytes: 99,
        started_at_ms: 77,
    }));
    service.pushed.clear();
    service.node(NetworkNodeAction::UpdateReceivedFileStatus {
        transfer_id: FylesId::from("transfer"),
        status: ReceiveStatus::Receiving,
        progress_bytes: 42,
    });
    match &service.pushed[0].message {
        Some(Message::ReceivedFileStatusChanged(change)) => {
            assert_eq!(change.progress_bytes, 42);
        }
        other => panic!("{:?}", other),
    }
}

#[test]
fn requests_of_clients_are_served() {
    let mut service = Service::new();
    assert!(matches!(
        service.serve(ApiRequest::GetVersion),
        Ok(ApiResponse::Version(version)) if version == "1.2.3"
    ));
    assert!(matches!(
        service.serve(ApiRequest::HealthCheck),
        Ok(ApiResponse::Health { is_healthy: true, message }) if message == "OK"
    ));
    let refused = service
        .serve(ApiRequest::CreateFileRequest {
            title: "Photos".to_string(),
            description: String::new(),
            access: None,
        })
        .unwrap_err();
    assert_eq!(refused.message, "Missing access type");
    assert!(matches!(refused.code, Code::InvalidArgument));
    let missing = service
        .serve(ApiRequest::StoreRemoteFileRequest {
            remote_file_request: None,
        })
        .unwrap_err();
    assert_eq!(missing.message, "Missing remote file request");
    let stored = service.serve(ApiRequest::StoreRemoteFileRequest {
        remote_file_request: Some(remote_proto()),
    });
    let id = match stored {
        Ok(ApiResponse::Id(id)) => id,
        other => panic!("{:?}", other),
    };
    match service.serve(ApiRequest::GetRemoteFileRequest { id }) {
        Ok(ApiResponse::RemoteFileRequest(request)) => {
            assert_eq!(request.name, "Their request");
            assert_eq!(request.contact_id, "friend");
        }
        other => panic!("{:?}", other),
    }
    match service.serve(ApiRequest::GetNodeStatus) {
        Ok(ApiResponse::NodeStatus(status)) => {
            assert!(status.is_running);
            assert_eq!(status.connected_peers, 0);
            assert_eq!(status.timestamp, 5_000);
            assert_eq!(status.version, "0.0.1_rust");
        }
        other => panic!("{:?}", other),
    }
    assert!(service
        .serve(ApiRequest::GetFileRequest {
            id: "unknown".to_string()
        })
        .is_err());
}

#[test]
fn undelivered_requests_are_answered_with_errors() {
    assert!(finish(Awaited::FileRequests, Delivery::NotSent, 0).is_err());
    assert!(finish(Awaited::FileRequests, Delivery::NoAnswer, 0).is_err());
}

fn remote_proto() -> CreateRemoteFileRequestProto {
    CreateRemoteFileRequestProto {
        peer_id: "peer".to_string(),
        file_request_id: "remote".to_string(),
        name: "Their request".to_string(),
        contact_id: "friend".to_string(),
    }
}

#[test]
fn messages_of_clients_are_handled() {
    let mut service = Service::new();
    let action = action_of_message(ClientMessage::StoreRemoteFileRequest(remote_proto()));
    service.handle(action);
    match service.client(ClientAction::GetAllRemoteFilerequests) {
        Response::Answer(Answer::RemoteFilerequests(Ok(requests))) => {
            assert_eq!(requests.len(), 1);
            assert_eq!(requests[0].filerequest_id.0, "remote");
        }
        other => panic!("{:?}", other),
    }
}

#[test]
fn backups_go_through_the_host() {
    let mut service = Service::new();
    service.client(ClientAction::BackupData);
    assert!(matches!(service.host_calls[0], HostCommand::OpenBackupFile));
    service.client(ClientAction::RestoreData(Uri("/tmp/backup".to_string())));
    assert!(matches!(
        &service.host_calls[1],
        HostCommand::AccessFileForReading(uri) if uri.0 == "/tmp/backup"
    ));
}

#[test]
fn contacts_are_registered_and_known() {
    let mut service = Service::new();
    let contact = Contact::for_test();
    let id = contact.id.clone();
    let before = service.node(NetworkNodeAction::IsContactKnown(id.clone()));
    assert!(matches!(before, Some(Response::ContactKnown(Ok(false)))));
    let registered = service.client(ClientAction::RegisterContact(contact));
    assert!(matches!(registered, Response::Answer(Answer::Unit(Ok(())))));
    let known = service.node(NetworkNodeAction::IsContactKnown(id));
    assert!(matches!(known, Some(Response::ContactKnown(Ok(true)))));
    let unknown = service.node(NetworkNodeAction::IsContactKnown(ContactId::from("nobody")));
    assert!(matches!(unknown, Some(Response::ContactKnown(Ok(false)))));
}

#[test]
fn remote_requests_are_deleted() {
    let mut service = Service::new();
    let id = service.remote_request().0;
    let deleted = service.serve(ApiRequest::DeleteRemoteFileRequest { id: id.clone() });
    assert!(matches!(deleted, Ok(ApiResponse::Success(true))));
    assert!(service.serve(ApiRequest::GetRemoteFileRequest { id: id.clone() }).is_err());
    let missing = service.db.get_remote_filerequest(&FylesId(id.clone())).unwrap_err();
    let gone = service.serve(ApiRequest::DeleteRemoteFileRequest { id }).unwrap_err();
    assert!(matches!(gone.code, Code::Internal));
    assert_eq!(gone.message, FilerequestError::DatabaseError(missing).to_text());
}

#[test]
fn every_request_is_answered_with_what_it_waits_for() {
    let mut service = Service::new();
    let filerequest = service.create_filerequest(FilerequestAccess::Public, true).0;
    let remote = service.remote_request();
    let file = service.pending_file(&remote, "/tmp/a.txt").0;
    let text = |text: &str| text.to_string();
    let requests = vec![
        ApiRequest::GetFileRequest { id: filerequest.clone() },
        ApiRequest::Shutdown,
        ApiRequest::GetAllFileRequests,
        ApiRequest::DeleteFileRequest { id: filerequest },
        ApiRequest::GetContactName { id: text("nobody") },
        ApiRequest::GetContactNames { ids: vec![text("nobody")] },
        ApiRequest::GetContact { id: text("nobody") },
        ApiRequest::GetAllContacts,
        ApiRequest::DeleteContact { id: text("nobody") },
        ApiRequest::UpdateSelfContactName { name: text("Me") },
        ApiRequest::GetFullSelfContact,
        ApiRequest::GetSelfContactDisplay,
        ApiRequest::SharePublicSelfContact,
        ApiRequest::ListRemoteFileRequests { contact_id: text("friend") },
        ApiRequest::GetAllRemoteFileRequests,
        ApiRequest::GetPendingFile { id: file.clone() },
        ApiRequest::ListPendingFiles { target_file_request_id: remote.0.clone() },
        ApiRequest::GetAllPendingFiles,
        ApiRequest::DeletePendingFile { id: file },
        ApiRequest::DeleteRemoteFileRequest { id: remote.0.clone() },
        ApiRequest::GetNodePeerId,
        ApiRequest::ListReceivedFiles { remote_file_request_id: remote.0 },
        ApiRequest::DeleteReceivedFile { id: text("nothing") },
        ApiRequest::GetSelfContactInviteChallenge,
        ApiRequest::UnregisterSelfContactInviteChallenge { challenge: vec![1] },
        ApiRequest::UseSelfContactInvite { challenge: vec![1], peer_id: text("peer") },
        ApiRequest::GetContactShareChallenge,
        ApiRequest::UnregisterContactShareChallenge { challenge: vec![1] },
        ApiRequest::UseContactShareChallenge { challenge: vec![1], peer_id: text("peer") },
        ApiRequest::BackupData,
        ApiRequest::RestoreData { backup_file_path: text("/tmp/backup") },
        ApiRequest::UpdateSettings { settings: vec![7] },
        ApiRequest::GetSettings,
        ApiRequest::GetNodeStatus,
    ];
    for request in requests {
        let _ = service.serve(request);
    }
}

#[test]
fn answers_are_those_that_are_waited_for() {
    let done = || Delivery::Answered(Response::Done);
    assert!(Awaited::Nothing.is_finished_by(&done()));
    assert!(!Awaited::Ready.is_finished_by(&done()));
    assert!(Awaited::Ready.is_finished_by(&Delivery::Answered(Response::Ready(true))));
    assert!(Awaited::Backup.is_finished_by(&Delivery::NotSent));
    assert!(!Awaited::Backup.is_finished_by(&Delivery::NoAnswer));
    assert!(!Awaited::FullSelfContact.is_finished_by(&Delivery::NotSent));
}
