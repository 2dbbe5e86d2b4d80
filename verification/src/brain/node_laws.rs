//! What the network node can rely on, by what it tells or asks for.
use vstd::prelude::*;

use crate::brain::action_p2p::{
    FilerequestAccessRequest, FilerequestContinueRequest, FilerequestContinueResponse,
    NetworkNodeAction, OpenFileForReadingRequest,
};
use crate::brain::error::FilerequestError;
use crate::brain::exchange::{
    Answer, DbCommand, Effect, HostCommand, NetworkCommand, NetworkReply, Query, Reply, Response,
};
use crate::brain::state::Next;
use crate::brain::types::{ContactShareChallenge, SelfContactInviteChallenge};
use crate::crypto::ContactPublicKeys;
use crate::db::{DbError, NodeInfo};
use crate::domain_models::{
    CompleteReceivedFile, Contact, ContactId, CreateIncomingFile, Filerequest, FilerequestAccess,
    FylesId, InProgressSendStatus, PendingFile, ReceiveStatus, ReceivedFile, SelfContact, SendStatus,
};
use crate::filerequest_drive_handler::FilerequestDriveHandler;
use crate::notification::Notification;
use crate::wire::{Message, ReceiveStatusProto, SendStatusProto, ServerMessage};

verus! {

/// Whether the file request is open to whoever asks: it is active, and public or for that contact.
pub open spec fn is_open_to(filerequest: Filerequest, contact_id: Option<ContactId>) -> bool {
    &&& filerequest.is_active
    &&& match filerequest.access {
        FilerequestAccess::Public => true,
        FilerequestAccess::Audience { contact_ids } => contact_id matches Some(contact)
            && exists|i: int| 0 <= i < contact_ids@.len() && (#[trigger] contact_ids@[i])@
            == contact@,
    }
}

proof fn lemma_admitted(filerequest: Filerequest, contact_id: Option<ContactId>)
    ensures
        filerequest.access@.admits(crate::domain_models::opt_view(contact_id)) <==> (match
            filerequest.access {
            FilerequestAccess::Public => true,
            FilerequestAccess::Audience { contact_ids } => contact_id matches Some(contact)
                && exists|i: int| 0 <= i < contact_ids@.len() && (#[trigger] contact_ids@[i])@
                == contact@,
        }),
{
    if let FilerequestAccess::Audience { contact_ids } = filerequest.access {
        let views = crate::domain_models::views(contact_ids@);
        assert(forall|i: int|
            0 <= i < contact_ids@.len() ==> views[i] == (#[trigger] contact_ids@[i])@);
        if let Some(contact) = contact_id {
            if views.contains(contact@) {
                let i = choose|i: int| 0 <= i < views.len() && views[i] == contact@;
                assert(contact_ids@[i]@ == contact@);
            }
            if exists|i: int|
                0 <= i < contact_ids@.len() && (#[trigger] contact_ids@[i])@ == contact@ {
                let i = choose|i: int|
                    0 <= i < contact_ids@.len() && (#[trigger] contact_ids@[i])@ == contact@;
                assert(views[i] == contact@);
            }
        }
    }
}

/// A file may be dropped for a request exactly where the store knows the request that was named and
/// it is open to the contact, or it is active and the contact is that of the node's owner. It then
/// goes into the directory of that request. Nobody else is asked anything.
#[verifier::rlimit(50)]
pub proof fn law_files_go_to_the_request_that_was_named(
    request: FilerequestAccessRequest,
    handling: crate::api_server::laws::Handling,
)
    requires
        handling.is_of_node(NetworkNodeAction::RequestFileDrop(request)),
        handling.is_over(),
    ensures
        forall|handler: FilerequestDriveHandler| #[trigger]
            handling.responded(Response::FileDrop(Some(handler))) ==> exists|
                filerequest: Filerequest,
            |
                {
                    &&& #[trigger] handling.got(
                        Query::Db(DbCommand::GetFilerequest(request.filerequest_id)),
                        Reply::Db(Answer::Filerequest(Ok(filerequest))),
                    )
                    &&& filerequest.is_active
                    &&& handler.id() == filerequest.id@
                    &&& handler.dir_name() == crate::filerequest_drive_handler::dir_name_for(
                        filerequest.id@,
                        filerequest.title@,
                        handler.separator(),
                    )
                    &&& is_open_to(filerequest, request.contact_id) || exists|own: SelfContact|
                        {
                            &&& #[trigger] handling.got(
                                Query::Db(DbCommand::GetSelfContact),
                                Reply::Db(Answer::SelfContact(Ok(own))),
                            )
                            &&& request.contact_id matches Some(contact)
                            &&& own.id@ == contact@
                        }
                },
        forall|filerequest: Filerequest|
            #[trigger] handling.got(
                Query::Db(DbCommand::GetFilerequest(request.filerequest_id)),
                Reply::Db(Answer::Filerequest(Ok(filerequest))),
            ) && is_open_to(filerequest, request.contact_id) ==> !handling.responded(
                Response::FileDrop(None),
            ),
        forall|filerequest: Filerequest, own: SelfContact|
            #[trigger] handling.got(
                Query::Db(DbCommand::GetFilerequest(request.filerequest_id)),
                Reply::Db(Answer::Filerequest(Ok(filerequest))),
            ) && filerequest.is_active && #[trigger] handling.got(
                Query::Db(DbCommand::GetSelfContact),
                Reply::Db(Answer::SelfContact(Ok(own))),
            ) && (request.contact_id matches Some(contact) && own.id@ == contact@)
                ==> !handling.responded(Response::FileDrop(None)),
        exists|granted: Option<FilerequestDriveHandler>| #[trigger]
            handling.responded(Response::FileDrop(granted)),
        forall|query: Query| #[trigger]
            handling.asked(query) ==> {
                ||| query == Query::Db(DbCommand::GetFilerequest(request.filerequest_id))
                ||| query == Query::Db(DbCommand::GetSelfContact)
            },
{
    crate::brain::flows::lemma_first_steps(handling);
    crate::brain::flows::lemma_short_handling(handling);
    if let Reply::Db(Answer::Filerequest(Ok(filerequest))) = handling.replies[0] {
        lemma_admitted(filerequest, request.contact_id);
        assert(handling.got(
            Query::Db(DbCommand::GetFilerequest(request.filerequest_id)),
            Reply::Db(Answer::Filerequest(Ok(filerequest))),
        ));
        if handling.steps.len() > 2 {
            if let Reply::Db(Answer::SelfContact(Ok(own))) = handling.replies[1] {
                assert(handling.got(
                    Query::Db(DbCommand::GetSelfContact),
                    Reply::Db(Answer::SelfContact(Ok(own))),
                ));
            }
        }
    }
    if let Effect::Respond(Response::FileDrop(granted)) = handling.steps.last().effects@[0] {
        assert(handling.does(Effect::Respond(Response::FileDrop(granted))));
        assert(handling.responded(Response::FileDrop(granted)));
    }
}

/// A transfer may be continued exactly where the store knows the transfer and the request that were
/// named, the request is open to the contact, and the peer and the contact are those that the
/// transfer was started with. It then goes on with the file that was begun.
#[verifier::rlimit(50)]
pub proof fn law_transfers_go_on_where_they_stopped(
    request: FilerequestContinueRequest,
    received: ReceivedFile,
    filerequest: Filerequest,
    handling: crate::api_server::laws::Handling,
)
    requires
        handling.is_of_node(NetworkNodeAction::RequestFileTransferContinuation(request)),
        handling.is_over(),
        handling.got(
            Query::Db(DbCommand::GetReceivedFileByTransferId(request.transfer_id)),
            Reply::Db(Answer::ReceivedFile(Ok(received))),
        ),
        handling.got(
            Query::Db(DbCommand::GetFilerequest(request.filerequest_id)),
            Reply::Db(Answer::Filerequest(Ok(filerequest))),
        ),
    ensures
        forall|continuation: FilerequestContinueResponse| #[trigger]
            handling.responded(Response::Continuation(Some(continuation))) ==> {
                &&& continuation.file_name@ == received.file_name@
                &&& continuation.file_size_bytes == received.file_size_bytes
                &&& continuation.started_at_ms == received.started_at_ms
                &&& continuation.drive_handler.id() == filerequest.id@
                &&& continuation.drive_handler.dir_name()
                    == crate::filerequest_drive_handler::dir_name_for(
                    filerequest.id@,
                    filerequest.title@,
                    continuation.drive_handler.separator(),
                )
            },
        handling.responded(Response::Continuation(None)) <==> !({
            &&& is_open_to(filerequest, request.contact_id)
            &&& received.peer_id@ == request.peer_id@
            &&& match (received.contact_id, request.contact_id) {
                (Some(a), Some(b)) => a@ == b@,
                (None, None) => true,
                _ => false,
            }
        }),
        exists|continuation: Option<FilerequestContinueResponse>| #[trigger]
            handling.responded(Response::Continuation(continuation)),
{
    crate::brain::flows::lemma_first_steps(handling);
    crate::brain::flows::lemma_short_handling(handling);
    lemma_admitted(filerequest, request.contact_id);
    if let Effect::Respond(Response::Continuation(continuation)) =
        handling.steps.last().effects@[0] {
        assert(handling.does(Effect::Respond(Response::Continuation(continuation))));
        assert(handling.responded(Response::Continuation(continuation)));
    }
}

/// A transfer is not continued where the store does not know it or its request, and nothing but the
/// two is ever asked for.
#[verifier::rlimit(50)]
pub proof fn law_unknown_transfers_are_not_continued(
    request: FilerequestContinueRequest,
    handling: crate::api_server::laws::Handling,
)
    requires
        handling.is_of_node(NetworkNodeAction::RequestFileTransferContinuation(request)),
        handling.is_over(),
    ensures
        forall|error: DbError| #[trigger]
            handling.got(
                Query::Db(DbCommand::GetReceivedFileByTransferId(request.transfer_id)),
                Reply::Db(Answer::ReceivedFile(Err(error))),
            ) ==> handling.responded(Response::Continuation(None)),
        forall|error: DbError| #[trigger]
            handling.got(
                Query::Db(DbCommand::GetFilerequest(request.filerequest_id)),
                Reply::Db(Answer::Filerequest(Err(error))),
            ) ==> handling.responded(Response::Continuation(None)),
        forall|query: Query| #[trigger]
            handling.asked(query) <==> {
                ||| query == Query::Db(DbCommand::GetReceivedFileByTransferId(request.transfer_id))
                ||| query == Query::Db(DbCommand::GetFilerequest(request.filerequest_id))
            },
{
    crate::brain::flows::lemma_first_steps(handling);
    crate::brain::flows::lemma_short_handling(handling);
}

/// The network node is told the keys that are stored. Only where there are none yet it generates
/// them, and they are stored before they are told, with a new identity.
#[verifier::rlimit(50)]
pub proof fn law_the_node_keeps_its_keys(handling: crate::api_server::laws::Handling)
    requires
        handling.is_of_node(NetworkNodeAction::GetNodeInfo),
        handling.is_over(),
    ensures
        forall|info: NodeInfo, settings: Vec<u8>| #[trigger]
            handling.responded(Response::NodeInfo(Ok((info, settings)))) ==> {
                ||| handling.got(
                    Query::Db(DbCommand::GetNodeKeys),
                    Reply::Db(Answer::NodeInfo(Ok(info))),
                )
                ||| {
                    &&& handling.got(
                        Query::Network(NetworkCommand::GenerateKeypair),
                        Reply::Network(NetworkReply::Keypair(Ok(info.node_key_pair))),
                    )
                    &&& exists|stored: NodeInfo|
                        {
                            &&& #[trigger] handling.got(
                                Query::Db(DbCommand::StoreNodeKeys(stored)),
                                Reply::Db(Answer::Unit(Ok(()))),
                            )
                            &&& stored.node_key_pair@ == info.node_key_pair@
                            &&& stored.self_contact_id@ == info.self_contact_id@
                            &&& stored.self_contact_keys@ == info.self_contact_keys@
                        }
                    &&& crate::domain_models::is_uuid(info.self_contact_id@)
                    &&& crate::crypto::are_new_keys(info.self_contact_keys@)
                }
            },
        forall|info: NodeInfo, settings: Vec<u8>, stored: Vec<u8>| #[trigger]
            handling.responded(Response::NodeInfo(Ok((info, settings)))) && #[trigger] handling.got(
                Query::Db(DbCommand::GetSettings),
                Reply::Db(Answer::Settings(Ok(stored))),
            ) ==> settings@ == stored@,
        forall|info: NodeInfo, settings: Vec<u8>, error: DbError| #[trigger]
            handling.responded(Response::NodeInfo(Ok((info, settings)))) && #[trigger] handling.got(
                Query::Db(DbCommand::GetSettings),
                Reply::Db(Answer::Settings(Err(error))),
            ) ==> settings@.len() == 0,
        handling.asked(Query::Network(NetworkCommand::GenerateKeypair)) <==> handling.got(
            Query::Db(DbCommand::GetNodeKeys),
            Reply::Db(Answer::NodeInfo(Err(DbError::DataNotYetInitialized))),
        ),
        exists|info: NodeInfo, settings: Vec<u8>| #[trigger]
            handling.responded(Response::NodeInfo(Ok((info, settings)))),
        forall|query: Query| #[trigger]
            handling.asked(query) ==> {
                ||| query == Query::Db(DbCommand::GetNodeKeys)
                ||| query == Query::Db(DbCommand::GetSettings)
                ||| query == Query::Network(NetworkCommand::GenerateKeypair)
                ||| query matches Query::Db(DbCommand::StoreNodeKeys(_))
            },
{
    crate::brain::flows::lemma_first_steps(handling);
    crate::brain::flows::lemma_short_handling(handling);
    if let Effect::Respond(Response::NodeInfo(Ok((info, settings)))) =
        handling.steps.last().effects@[0] {
        assert(handling.does(Effect::Respond(Response::NodeInfo(Ok((info, settings))))));
        assert(handling.responded(Response::NodeInfo(Ok((info, settings)))));
        if handling.steps.len() > 4 {
            if let Next::Await(Query::Db(DbCommand::StoreNodeKeys(stored)), _) =
                handling.steps[3].next {
                assert(stored@ == info@);
                assert(handling.got(
                    Query::Db(DbCommand::StoreNodeKeys(stored)),
                    Reply::Db(Answer::Unit(Ok(()))),
                ));
            }
        }
    }
}

/// Whether clients are shown this for the status. Of one that is not recognized they hear that it is
/// pending.
pub open spec fn is_shown_as(status: SendStatus, shown: SendStatusProto) -> bool {
    match status {
        SendStatus::Pending => shown == SendStatusProto::Pending,
        SendStatus::InProgress(progress) => match progress.status {
            InProgressSendStatus::Prepared => shown == SendStatusProto::Prepared,
            InProgressSendStatus::Sending => shown == SendStatusProto::Sending,
            InProgressSendStatus::Interrupted => shown == SendStatusProto::Interrupted,
            InProgressSendStatus::PendingSent => shown == SendStatusProto::PendingSent,
        },
        SendStatus::Sent => shown == SendStatusProto::Success,
        SendStatus::Rejected => shown == SendStatusProto::Rejected,
        SendStatus::Failed => shown == SendStatusProto::Failed,
        SendStatus::Unknown(_) => shown == SendStatusProto::Pending,
    }
}

/// Whether the message tells of the file, with its status and how far it got, for the request.
pub open spec fn tells_of_file(
    message: ServerMessage,
    id: FylesId,
    status: SendStatus,
    target: FylesId,
) -> bool {
    &&& message.message matches Some(Message::PendingFileStatusChanged(change))
    &&& change.pending_file_id@ == id@
    &&& change.target_file_request_id@ == target@
    &&& is_shown_as(status, change.new_status)
    &&& match status {
        SendStatus::InProgress(progress) => {
            &&& change.progress_bytes == Some(progress.transfer_data.progress_bytes)
            &&& change.file_size_bytes == Some(progress.transfer_data.file_size_bytes)
            &&& change.transfer_id matches Some(transfer_id)
            &&& transfer_id@ == progress.transfer_data.transfer_id@
        },
        _ => {
            &&& change.progress_bytes is None
            &&& change.file_size_bytes is None
            &&& change.transfer_id is None
        },
    }
}

/// Whether the network node tells of the file that it has come to this status.
pub open spec fn comes_to(
    action: NetworkNodeAction,
    id: FylesId,
    status: SendStatus,
    retry_count: Option<usize>,
    reason: Option<String>,
) -> bool {
    match action {
        NetworkNodeAction::FileSending { pending_file_id, status: reached } => {
            &&& pending_file_id == id && reached == status
            &&& retry_count is None && reason is None
        },
        NetworkNodeAction::FileSendReset {
            pending_file_id,
            status: reached,
            retry_count: tries,
            reason: why,
        } => pending_file_id == id && reached == status && tries == retry_count && why == reason,
        NetworkNodeAction::FileSent { pending_file_id } => {
            &&& pending_file_id == id && status is Sent
            &&& retry_count is None && reason is None
        },
        NetworkNodeAction::FileRejected { pending_file_id } => {
            &&& pending_file_id == id && status is Rejected
            &&& retry_count is None && reason is None
        },
        NetworkNodeAction::FileFailed { pending_file_id } => {
            &&& pending_file_id == id && status is Failed
            &&& retry_count is None && reason is None
        },
        NetworkNodeAction::FileMissing { pending_file_id } => {
            &&& pending_file_id == id && status is Failed
            &&& retry_count is None && reason is None
        },
        NetworkNodeAction::FileIoError { file } => {
            &&& file == id && status is Failed
            &&& retry_count is None && reason is None
        },
        _ => false,
    }
}

/// Whatever the network node tells of a file that is being sent is stored of that file, and clients
/// are told the same, for the request that the store names. Why a transfer was interrupted is
/// stored with it.
#[verifier::rlimit(50)]
pub proof fn law_what_becomes_of_files_is_stored_and_told(
    action: NetworkNodeAction,
    id: FylesId,
    status: SendStatus,
    retry_count: Option<usize>,
    reason: Option<String>,
    target: FylesId,
    handling: crate::api_server::laws::Handling,
)
    requires
        handling.is_of_node(action),
        handling.is_over(),
        comes_to(action, id, status, retry_count, reason),
        handling.got(
            Query::Db(DbCommand::UpdatePendingFileStatus { id, status, retry_count }),
            Reply::Db(Answer::Id(Ok(target))),
        ),
    ensures
        exists|message: ServerMessage| #[trigger] handling.does(Effect::Push(message)),
        forall|message: ServerMessage| #[trigger]
            handling.does(Effect::Push(message)) ==> tells_of_file(message, id, status, target),
        forall|why: String| #[trigger]
            handling.asked(Query::Db(DbCommand::AddInterruptionReason { id, reason: why }))
                <==> reason == Some(why),
{
    crate::brain::flows::lemma_first_steps(handling);
    crate::brain::flows::lemma_short_handling(handling);
    let pushed = if reason is Some {
        handling.steps[2].effects@[0]
    } else {
        handling.steps[1].effects@[0]
    };
    if let Effect::Push(message) = pushed {
        assert(message.reports_pending_file(id@, status@, target@));
        assert(handling.does(Effect::Push(message)));
    }
}

/// The status of a file is stored first and once, and exactly as the network node tells it. A file
/// that is done with is looked up again, and its source is removed exactly where no other file that
/// is still to be sent has it; of one that is not done with, the source is left alone.
#[verifier::rlimit(50)]
pub proof fn law_sources_are_removed_once_they_are_not_needed(
    action: NetworkNodeAction,
    id: FylesId,
    status: SendStatus,
    retry_count: Option<usize>,
    reason: Option<String>,
    handling: crate::api_server::laws::Handling,
)
    requires
        handling.is_of_node(action),
        handling.is_over(),
        comes_to(action, id, status, retry_count, reason),
    ensures
        handling.asks_at(
            0,
            Query::Db(DbCommand::UpdatePendingFileStatus { id, status, retry_count }),
        ),
        forall|query: Query| #[trigger]
            handling.asked(query) ==> match query {
                Query::Db(DbCommand::UpdatePendingFileStatus { .. }) => query == Query::Db(
                    DbCommand::UpdatePendingFileStatus { id, status, retry_count },
                ),
                Query::Db(DbCommand::AddInterruptionReason { id: other, .. }) => other == id
                    && reason is Some,
                Query::Db(DbCommand::GetPendingFile(other)) => other == id
                    && !(action is FileSending) && !(action is FileSendReset),
                Query::Db(DbCommand::CountNonTerminalPendingFilesForPath(other)) => other == id
                    && !(action is FileSending) && !(action is FileSendReset),
                Query::Host(HostCommand::RemoveSourceFileIfTemporary(_)) => !(action is FileSending)
                    && !(action is FileSendReset),
                _ => false,
            },
        !(action is FileSending) && !(action is FileSendReset) ==> handling.asked(
            Query::Db(DbCommand::GetPendingFile(id)),
        ),
        forall|file: PendingFile|
            #[trigger] handling.got(
                Query::Db(DbCommand::GetPendingFile(id)),
                Reply::Db(Answer::PendingFile(Ok(file))),
            ) ==> {
                &&& handling.asked(Query::Db(DbCommand::CountNonTerminalPendingFilesForPath(id)))
                &&& forall|path: String| #[trigger]
                    handling.asked(Query::Host(HostCommand::RemoveSourceFileIfTemporary(path)))
                        <==> {
                        &&& path == file.file_path
                        &&& handling.got(
                            Query::Db(DbCommand::CountNonTerminalPendingFilesForPath(id)),
                            Reply::Db(Answer::Count(Ok(0))),
                        )
                    }
            },
        forall|path: String| #[trigger]
            handling.asked(Query::Host(HostCommand::RemoveSourceFileIfTemporary(path)))
                ==> exists|file: PendingFile| #[trigger]
                handling.got(
                    Query::Db(DbCommand::GetPendingFile(id)),
                    Reply::Db(Answer::PendingFile(Ok(file))),
                ),
        forall|response: Response| !#[trigger] handling.responded(response),
{
    crate::brain::flows::lemma_first_steps(handling);
    crate::brain::flows::lemma_short_handling(handling);
    if handling.steps.len() > 2 {
        if let Reply::Db(Answer::PendingFile(Ok(file))) = handling.replies[1] {
            assert(handling.got(handling.steps[1].next->Await_0, handling.replies[1]));
        }
    }
}

/// A file that is to be sent is opened under the path that was named. Where the host cannot open it,
/// it has failed: that is stored of the file, and whoever asked is told that there is none.
#[verifier::rlimit(50)]
pub proof fn law_files_that_cannot_be_opened_have_failed(
    request: OpenFileForReadingRequest,
    handling: crate::api_server::laws::Handling,
)
    requires
        handling.is_of_node(NetworkNodeAction::OpenFileForReading(request)),
        handling.is_over(),
    ensures
        handling.asks_at(0, Query::Host(HostCommand::AccessFileForReading(request.uri))),
        handling.responded(Response::OpenedFile(Ok(()))) <==> handling.got(
            Query::Host(HostCommand::AccessFileForReading(request.uri)),
            Reply::Host(Ok(())),
        ),
        handling.responded(Response::OpenedFile(Err(()))) <==> !handling.responded(
            Response::OpenedFile(Ok(())),
        ),
        handling.responded(Response::OpenedFile(Err(()))) <==> handling.asked(
            Query::Db(
                DbCommand::UpdatePendingFileStatus {
                    id: request.id,
                    status: SendStatus::Failed,
                    retry_count: None,
                },
            ),
        ),
        forall|query: Query| #[trigger]
            handling.asked(query) ==> match query {
                Query::Host(HostCommand::AccessFileForReading(uri)) => uri == request.uri,
                Query::Db(DbCommand::UpdatePendingFileStatus { id, status, retry_count }) => id
                    == request.id && status is Failed && retry_count is None,
                Query::Db(DbCommand::GetPendingFile(id)) => id == request.id,
                Query::Db(DbCommand::CountNonTerminalPendingFilesForPath(id)) => id == request.id,
                Query::Host(HostCommand::RemoveSourceFileIfTemporary(path)) => exists|
                    file: PendingFile,
                |
                    {
                        &&& #[trigger] handling.got(
                            Query::Db(DbCommand::GetPendingFile(request.id)),
                            Reply::Db(Answer::PendingFile(Ok(file))),
                        )
                        &&& path == file.file_path
                        &&& handling.got(
                            Query::Db(DbCommand::CountNonTerminalPendingFilesForPath(request.id)),
                            Reply::Db(Answer::Count(Ok(0))),
                        )
                    },
                _ => false,
            },
        forall|target: FylesId, message: ServerMessage| #[trigger]
            handling.got(
                Query::Db(
                    DbCommand::UpdatePendingFileStatus {
                        id: request.id,
                        status: SendStatus::Failed,
                        retry_count: None,
                    },
                ),
                Reply::Db(Answer::Id(Ok(target))),
            ) && #[trigger] handling.does(Effect::Push(message)) ==> tells_of_file(
                message,
                request.id,
                SendStatus::Failed,
                target,
            ),
{
    crate::brain::flows::lemma_first_steps(handling);
    crate::brain::flows::lemma_short_handling(handling);
    if handling.steps.len() > 3 {
        if let Reply::Db(Answer::PendingFile(Ok(file))) = handling.replies[2] {
            assert(handling.got(
                Query::Db(DbCommand::GetPendingFile(request.id)),
                Reply::Db(Answer::PendingFile(Ok(file))),
            ));
        }
    }
}

/// Whether the message tells of the received file: what it is called, how far it got and for which
/// request it is.
pub open spec fn tells_of_received(message: ServerMessage, file: ReceivedFile) -> bool {
    &&& message.message matches Some(Message::ReceivedFileStatusChanged(change))
    &&& change.filerequest_id@ == file.filerequest_id@
    &&& change.file_name@ == file.file_name@
    &&& change.file_size_bytes == file.file_size_bytes
    &&& change.progress_bytes == file.progress_bytes
    &&& match file.status {
        ReceiveStatus::Receiving => change.new_status == ReceiveStatusProto::ReceiveStatusReceiving,
        ReceiveStatus::Interrupted => change.new_status
            == ReceiveStatusProto::ReceiveStatusInterrupted,
        ReceiveStatus::Completed => change.new_status == ReceiveStatusProto::ReceiveStatusCompleted,
        ReceiveStatus::Failed => change.new_status == ReceiveStatusProto::ReceiveStatusFailed,
        ReceiveStatus::Unknown(_) => change.new_status == ReceiveStatusProto::ReceiveStatusFailed,
    }
    &&& match (file.transfer_id, change.transfer_id) {
        (Some(id), Some(told)) => told@ == id@,
        (None, None) => true,
        _ => false,
    }
}

/// A received file is stored as complete, exactly as the network node tells it, and the node is told
/// what the store makes of it. Clients are told of the file as it is stored then.
#[verifier::rlimit(50)]
pub proof fn law_received_files_are_completed(
    completed: CompleteReceivedFile,
    handling: crate::api_server::laws::Handling,
)
    requires
        handling.is_of_node(NetworkNodeAction::StoreReceivedFile(completed)),
        handling.is_over(),
    ensures
        handling.asks_at(0, Query::Db(DbCommand::CompleteReceivedFile(completed))),
        handling.asks_at(
            1,
            Query::Db(DbCommand::GetReceivedFileByTransferId(completed.transfer_id)),
        ),
        forall|id: FylesId|
            #![trigger handling.answered(Answer::Id(Ok(id)))]
            #![trigger handling.got(Query::Db(DbCommand::CompleteReceivedFile(completed)), Reply::Db(Answer::Id(Ok(id))))]
            handling.answered(Answer::Id(Ok(id))) <==> handling.got(
                Query::Db(DbCommand::CompleteReceivedFile(completed)),
                Reply::Db(Answer::Id(Ok(id))),
            ),
        forall|error: DbError| #[trigger]
            handling.got(
                Query::Db(DbCommand::CompleteReceivedFile(completed)),
                Reply::Db(Answer::Id(Err(error))),
            ) ==> handling.answered(Answer::Id(Err(FilerequestError::DatabaseError(error)))),
        forall|file: ReceivedFile| #[trigger]
            handling.got(
                Query::Db(DbCommand::GetReceivedFileByTransferId(completed.transfer_id)),
                Reply::Db(Answer::ReceivedFile(Ok(file))),
            ) ==> {
                &&& exists|message: ServerMessage| #[trigger] handling.does(Effect::Push(message))
                &&& forall|message: ServerMessage| #[trigger]
                    handling.does(Effect::Push(message)) ==> tells_of_received(message, file)
            },
{
    crate::brain::flows::lemma_first_steps(handling);
    crate::brain::flows::lemma_short_handling(handling);
    if let Effect::Push(message) = handling.steps[2].effects@[0] {
        assert(handling.does(Effect::Push(message)));
    }
}

/// Whether the user is notified of the received file: by its name and size, the title of its
/// request, and the name of the sender where the store knows it.
pub open spec fn notifies_of(
    notification: Notification,
    file: ReceivedFile,
    title: Seq<char>,
    sender: Option<Seq<char>>,
) -> bool {
    match notification {
        Notification::FileReceived { contact_name, filerequest_name, file_name, file_size } => {
            &&& file_name@ == file.file_name@
            &&& file_size == file.file_size_bytes
            &&& filerequest_name@ == title
            &&& crate::domain_models::opt_view(contact_name) == sender
        },
    }
}

/// The user is notified of a received file exactly where the store knows the file and its request:
/// by the name of the contact that sent it, where the store knows that, and the title of the
/// request. Nothing but these is asked for.
#[verifier::rlimit(50)]
pub proof fn law_the_user_is_notified_of_received_files(
    completed: CompleteReceivedFile,
    file: ReceivedFile,
    handling: crate::api_server::laws::Handling,
)
    requires
        handling.is_of_node(NetworkNodeAction::StoreReceivedFile(completed)),
        handling.is_over(),
        handling.got(
            Query::Db(DbCommand::GetReceivedFileByTransferId(completed.transfer_id)),
            Reply::Db(Answer::ReceivedFile(Ok(file))),
        ),
    ensures
        forall|filerequest: Filerequest| #[trigger]
            handling.got(
                Query::Db(DbCommand::GetFilerequest(file.filerequest_id)),
                Reply::Db(Answer::Filerequest(Ok(filerequest))),
            ) ==> {
                &&& exists|notification: Notification| #[trigger]
                    handling.does(Effect::Notify(notification))
                &&& forall|notification: Notification| #[trigger]
                    handling.does(Effect::Notify(notification)) ==> {
                        ||| file.contact_id is None && notifies_of(
                            notification,
                            file,
                            filerequest.title@,
                            None,
                        )
                        ||| exists|name: String|
                            {
                                &&& #[trigger] handling.got(
                                    Query::Db(DbCommand::GetContactName(file.contact_id->0)),
                                    Reply::Db(Answer::Text(Ok(name))),
                                )
                                &&& notifies_of(
                                    notification,
                                    file,
                                    filerequest.title@,
                                    Some(name@),
                                )
                            }
                        ||| exists|error: DbError|
                            {
                                &&& #[trigger] handling.got(
                                    Query::Db(DbCommand::GetContactName(file.contact_id->0)),
                                    Reply::Db(Answer::Text(Err(error))),
                                )
                                &&& notifies_of(notification, file, filerequest.title@, None)
                            }
                    }
            },
        forall|error: DbError, notification: Notification| #[trigger]
            handling.got(
                Query::Db(DbCommand::GetFilerequest(file.filerequest_id)),
                Reply::Db(Answer::Filerequest(Err(error))),
            ) ==> !#[trigger] handling.does(Effect::Notify(notification)),
        handling.asked(Query::Db(DbCommand::GetFilerequest(file.filerequest_id))),
        forall|query: Query| #[trigger]
            handling.asked(query) ==> {
                ||| query == Query::Db(DbCommand::CompleteReceivedFile(completed))
                ||| query == Query::Db(
                    DbCommand::GetReceivedFileByTransferId(completed.transfer_id),
                )
                ||| query == Query::Db(DbCommand::GetFilerequest(file.filerequest_id))
                ||| file.contact_id matches Some(contact) && query == Query::Db(
                    DbCommand::GetContactName(contact),
                )
            },
{
    crate::brain::flows::lemma_first_steps(handling);
    crate::brain::flows::lemma_short_handling(handling);
    let last = handling.steps.last();
    if last.effects@.len() > 0 {
        if let Effect::Notify(notification) = last.effects@[0] {
            assert(handling.does(Effect::Notify(notification)));
        }
    }
    if file.contact_id is Some {
        match handling.replies[2] {
            Reply::Db(Answer::Text(Ok(name))) => {
                assert(handling.got(
                    Query::Db(DbCommand::GetContactName(file.contact_id->0)),
                    Reply::Db(Answer::Text(Ok(name))),
                ));
            },
            Reply::Db(Answer::Text(Err(error))) => {
                assert(handling.got(
                    Query::Db(DbCommand::GetContactName(file.contact_id->0)),
                    Reply::Db(Answer::Text(Err(error))),
                ));
            },
            _ => {},
        }
    }
}

/// A file that is about to be received is stored exactly as the network node tells it. Where that
/// succeeds, the node is told its id and clients are told that it is being received, and that
/// nothing of it is there yet.
#[verifier::rlimit(50)]
pub proof fn law_incoming_files_are_stored_and_told(
    incoming: CreateIncomingFile,
    handling: crate::api_server::laws::Handling,
)
    requires
        handling.is_of_node(NetworkNodeAction::CreateIncomingFile(incoming)),
        handling.is_over(),
    ensures
        forall|query: Query| #[trigger]
            handling.asked(query) <==> query == Query::Db(DbCommand::CreateIncomingFile(incoming)),
        forall|id: FylesId|
            #![trigger handling.answered(Answer::Id(Ok(id)))]
            #![trigger handling.got(Query::Db(DbCommand::CreateIncomingFile(incoming)), Reply::Db(Answer::Id(Ok(id))))]
            handling.answered(Answer::Id(Ok(id))) <==> handling.got(
                Query::Db(DbCommand::CreateIncomingFile(incoming)),
                Reply::Db(Answer::Id(Ok(id))),
            ),
        forall|error: DbError| #[trigger]
            handling.got(
                Query::Db(DbCommand::CreateIncomingFile(incoming)),
                Reply::Db(Answer::Id(Err(error))),
            ) ==> handling.answered(Answer::Id(Err(FilerequestError::DatabaseError(error)))),
        forall|id: FylesId| #[trigger]
            handling.got(
                Query::Db(DbCommand::CreateIncomingFile(incoming)),
                Reply::Db(Answer::Id(Ok(id))),
            ) ==> exists|message: ServerMessage| #[trigger] handling.does(Effect::Push(message)),
        forall|message: ServerMessage| #[trigger]
            handling.does(Effect::Push(message)) ==> {
                &&& message.message matches Some(Message::ReceivedFileStatusChanged(change))
                &&& change.filerequest_id@ == incoming.filerequest_id@
                &&& change.file_name@ == incoming.file_name@
                &&& change.file_size_bytes == incoming.file_size_bytes
                &&& change.progress_bytes == 0
                &&& change.new_status == ReceiveStatusProto::ReceiveStatusReceiving
                &&& change.transfer_id matches Some(transfer_id)
                &&& transfer_id@ == incoming.transfer_id@
            },
{
    crate::brain::flows::lemma_first_steps(handling);
    crate::brain::flows::lemma_short_handling(handling);
    if let Effect::Push(message) = handling.steps[1].effects@[0] {
        assert(handling.does(Effect::Push(message)));
    }
}

/// How far a file that is being received got is stored of that transfer, exactly as the network node
/// tells it, and clients are told of the file as it is stored then.
#[verifier::rlimit(50)]
pub proof fn law_progress_is_stored_and_told(
    transfer_id: FylesId,
    status: ReceiveStatus,
    progress_bytes: u64,
    handling: crate::api_server::laws::Handling,
)
    requires
        handling.is_of_node(
            NetworkNodeAction::UpdateReceivedFileStatus { transfer_id, status, progress_bytes },
        ),
        handling.is_over(),
    ensures
        handling.asks_at(
            0,
            Query::Db(
                DbCommand::UpdateReceivedFileStatus { transfer_id, status, progress_bytes },
            ),
        ),
        handling.asks_at(1, Query::Db(DbCommand::GetReceivedFileByTransferId(transfer_id))),
        handling.steps.len() == 3,
        forall|file: ReceivedFile| #[trigger]
            handling.got(
                Query::Db(DbCommand::GetReceivedFileByTransferId(transfer_id)),
                Reply::Db(Answer::ReceivedFile(Ok(file))),
            ) ==> exists|message: ServerMessage| #[trigger]
                handling.does(Effect::Push(message)) && tells_of_received(message, file),
        forall|message: ServerMessage| #[trigger]
            handling.does(Effect::Push(message)) ==> exists|file: ReceivedFile| #[trigger]
                handling.got(
                    Query::Db(DbCommand::GetReceivedFileByTransferId(transfer_id)),
                    Reply::Db(Answer::ReceivedFile(Ok(file))),
                ) && tells_of_received(message, file),
{
    crate::brain::flows::lemma_first_steps(handling);
    crate::brain::flows::lemma_short_handling(handling);
    if let Reply::Db(Answer::ReceivedFile(Ok(file))) = handling.replies[1] {
        assert(handling.got(
            Query::Db(DbCommand::GetReceivedFileByTransferId(transfer_id)),
            Reply::Db(Answer::ReceivedFile(Ok(file))),
        ));
        if let Effect::Push(message) = handling.steps[2].effects@[0] {
            assert(handling.does(Effect::Push(message)));
            assert(tells_of_received(message, file));
        }
    }
}

/// The entry of a received file that is dropped is the one that belongs to the transfer, and no
/// other is.
#[verifier::rlimit(50)]
pub proof fn law_the_entry_of_the_transfer_is_dropped(
    transfer_id: FylesId,
    handling: crate::api_server::laws::Handling,
)
    requires
        handling.is_of_node(NetworkNodeAction::DeleteReceivedFile { transfer_id }),
        handling.is_over(),
    ensures
        handling.asks_at(0, Query::Db(DbCommand::GetReceivedFileByTransferId(transfer_id))),
        forall|file: ReceivedFile| #[trigger]
            handling.got(
                Query::Db(DbCommand::GetReceivedFileByTransferId(transfer_id)),
                Reply::Db(Answer::ReceivedFile(Ok(file))),
            ) ==> handling.asked(Query::Db(DbCommand::DeleteReceivedFile(file.id))),
        forall|query: Query| #[trigger]
            handling.asked(query) ==> {
                ||| query == Query::Db(DbCommand::GetReceivedFileByTransferId(transfer_id))
                ||| exists|file: ReceivedFile| #[trigger]
                    handling.got(
                        Query::Db(DbCommand::GetReceivedFileByTransferId(transfer_id)),
                        Reply::Db(Answer::ReceivedFile(Ok(file))),
                    ) && query == Query::Db(DbCommand::DeleteReceivedFile(file.id))
            },
        forall|effect: Effect| !#[trigger] handling.does(effect),
{
    crate::brain::flows::lemma_first_steps(handling);
    crate::brain::flows::lemma_short_handling(handling);
    if let Reply::Db(Answer::ReceivedFile(Ok(file))) = handling.replies[0] {
        assert(handling.got(
            Query::Db(DbCommand::GetReceivedFileByTransferId(transfer_id)),
            Reply::Db(Answer::ReceivedFile(Ok(file))),
        ));
    }
}

/// The keys of a contact are those that the store has of it; where it has none, they are those of
/// the node's owner if that is the contact, and else there are none.
#[verifier::rlimit(50)]
pub proof fn law_keys_are_those_of_the_contact(
    contact_id: ContactId,
    handling: crate::api_server::laws::Handling,
)
    requires
        handling.is_of_node(NetworkNodeAction::GetContactPublicKeys(contact_id)),
        handling.is_over(),
    ensures
        forall|keys: ContactPublicKeys| #[trigger]
            handling.responded(Response::PublicKeys(Some(keys))) ==> {
                ||| handling.got(
                    Query::Db(DbCommand::GetContactPublicKeys(contact_id)),
                    Reply::Db(Answer::PublicKeys(Ok(Some(keys)))),
                )
                ||| exists|own: SelfContact|
                    {
                        &&& #[trigger] handling.got(
                            Query::Db(DbCommand::GetSelfContact),
                            Reply::Db(Answer::SelfContact(Ok(own))),
                        )
                        &&& own.id@ == contact_id@
                        &&& keys == own.keys.public
                    }
            },
        forall|keys: ContactPublicKeys| #[trigger]
            handling.got(
                Query::Db(DbCommand::GetContactPublicKeys(contact_id)),
                Reply::Db(Answer::PublicKeys(Ok(Some(keys)))),
            ) ==> handling.responded(Response::PublicKeys(Some(keys))),
        forall|own: SelfContact| #[trigger]
            handling.got(
                Query::Db(DbCommand::GetSelfContact),
                Reply::Db(Answer::SelfContact(Ok(own))),
            ) && own.id@ == contact_id@ ==> handling.responded(
                Response::PublicKeys(Some(own.keys.public)),
            ),
        handling.asked(Query::Db(DbCommand::GetSelfContact)) <==> !exists|
            keys: ContactPublicKeys,
        | #[trigger]
            handling.got(
                Query::Db(DbCommand::GetContactPublicKeys(contact_id)),
                Reply::Db(Answer::PublicKeys(Ok(Some(keys)))),
            ),
        exists|keys: Option<ContactPublicKeys>| #[trigger]
            handling.responded(Response::PublicKeys(keys)),
        forall|query: Query| #[trigger]
            handling.asked(query) ==> {
                ||| query == Query::Db(DbCommand::GetContactPublicKeys(contact_id))
                ||| query == Query::Db(DbCommand::GetSelfContact)
            },
{
    crate::brain::flows::lemma_first_steps(handling);
    crate::brain::flows::lemma_short_handling(handling);
    if let Reply::Db(Answer::PublicKeys(Ok(Some(keys)))) = handling.replies[0] {
        assert(handling.got(
            Query::Db(DbCommand::GetContactPublicKeys(contact_id)),
            Reply::Db(Answer::PublicKeys(Ok(Some(keys)))),
        ));
    }
    if handling.steps.len() > 2 {
        if let Reply::Db(Answer::SelfContact(Ok(own))) = handling.replies[1] {
            assert(handling.got(
                Query::Db(DbCommand::GetSelfContact),
                Reply::Db(Answer::SelfContact(Ok(own))),
            ));
        }
    }
    if let Effect::Respond(Response::PublicKeys(keys)) = handling.steps.last().effects@[0] {
        assert(handling.does(Effect::Respond(Response::PublicKeys(keys))));
        assert(handling.responded(Response::PublicKeys(keys)));
    }
}

/// A contact is known exactly where the store has a name for it, and not known where the store says
/// that there is none.
#[verifier::rlimit(50)]
pub proof fn law_contacts_with_a_name_are_known(
    contact_id: ContactId,
    handling: crate::api_server::laws::Handling,
)
    requires
        handling.is_of_node(NetworkNodeAction::IsContactKnown(contact_id)),
        handling.is_over(),
    ensures
        forall|query: Query| #[trigger]
            handling.asked(query) <==> query == Query::Db(DbCommand::GetContactName(contact_id)),
        handling.responded(Response::ContactKnown(Ok(true))) <==> exists|name: String| #[trigger]
            handling.got(
                Query::Db(DbCommand::GetContactName(contact_id)),
                Reply::Db(Answer::Text(Ok(name))),
            ),
        handling.responded(Response::ContactKnown(Ok(false))) <==> exists|message: String|
            #[trigger]
            handling.got(
                Query::Db(DbCommand::GetContactName(contact_id)),
                Reply::Db(Answer::Text(Err(DbError::NotFound { message }))),
            ),
{
    crate::brain::flows::lemma_first_steps(handling);
    crate::brain::flows::lemma_short_handling(handling);
    match handling.replies[0] {
        Reply::Db(Answer::Text(Ok(name))) => {
            assert(handling.got(
                Query::Db(DbCommand::GetContactName(contact_id)),
                Reply::Db(Answer::Text(Ok(name))),
            ));
        },
        Reply::Db(Answer::Text(Err(DbError::NotFound { message }))) => {
            assert(handling.got(
                Query::Db(DbCommand::GetContactName(contact_id)),
                Reply::Db(Answer::Text(Err(DbError::NotFound { message }))),
            ));
        },
        _ => {},
    }
}

/// An identity that another device offers is stored as it is; where that succeeds, the network node
/// is told the same identity and clients hear of it, and where it does not, nothing more happens.
#[verifier::rlimit(50)]
pub proof fn law_offered_identities_are_stored_before_they_are_used(
    identity: SelfContact,
    handling: crate::api_server::laws::Handling,
)
    requires
        handling.is_of_node(NetworkNodeAction::UpdateIdentity(identity)),
        handling.is_over(),
    ensures
        forall|query: Query| #[trigger]
            handling.asked(query) ==> match query {
                Query::Db(DbCommand::UpdateIdentity(stored)) => stored@ == identity@,
                Query::Network(NetworkCommand::UpdateIdentity { contact_id, keys }) => contact_id
                    == identity.id && keys == identity.keys,
                _ => false,
            },
        handling.asked(
            Query::Network(
                NetworkCommand::UpdateIdentity { contact_id: identity.id, keys: identity.keys },
            ),
        ) <==> exists|stored: SelfContact| #[trigger]
            handling.got(
                Query::Db(DbCommand::UpdateIdentity(stored)),
                Reply::Db(Answer::Unit(Ok(()))),
            ),
        handling.asked(
            Query::Network(
                NetworkCommand::UpdateIdentity { contact_id: identity.id, keys: identity.keys },
            ),
        ) <==> exists|message: ServerMessage| #[trigger] handling.does(Effect::Push(message)),
        forall|message: ServerMessage| #[trigger]
            handling.does(Effect::Push(message)) ==> message.message matches Some(
                Message::ReceivedSelfContactInviteOverNetwork(_),
            ),
{
    crate::brain::flows::lemma_first_steps(handling);
    crate::brain::flows::lemma_short_handling(handling);
    if let Next::Await(Query::Db(DbCommand::UpdateIdentity(stored)), _) = handling.steps[0].next {
        if handling.replies[0] == Reply::Db(Answer::Unit(Ok(()))) {
            assert(handling.got(
                Query::Db(DbCommand::UpdateIdentity(stored)),
                Reply::Db(Answer::Unit(Ok(()))),
            ));
            if let Effect::Push(message) = handling.steps[2].effects@[0] {
                assert(handling.does(Effect::Push(message)));
            }
        }
    }
}

/// A contact that was shared is stored as it is, and clients hear of it exactly where that succeeds.
#[verifier::rlimit(50)]
pub proof fn law_shared_contacts_are_stored(
    contact: Contact,
    handling: crate::api_server::laws::Handling,
)
    requires
        handling.is_of_node(NetworkNodeAction::CreateContact(contact)),
        handling.is_over(),
    ensures
        forall|query: Query| #[trigger]
            handling.asked(query) <==> query == Query::Db(DbCommand::RegisterContact(contact)),
        handling.got(
            Query::Db(DbCommand::RegisterContact(contact)),
            Reply::Db(Answer::Unit(Ok(()))),
        ) <==> exists|message: ServerMessage| #[trigger] handling.does(Effect::Push(message)),
        forall|message: ServerMessage| #[trigger]
            handling.does(Effect::Push(message)) ==> message.message matches Some(
                Message::ReceivedContactShareOverNetwork(_),
            ),
{
    crate::brain::flows::lemma_first_steps(handling);
    crate::brain::flows::lemma_short_handling(handling);
    if handling.replies[0] == Reply::Db(Answer::Unit(Ok(()))) {
        if let Effect::Push(message) = handling.steps[1].effects@[0] {
            assert(handling.does(Effect::Push(message)));
        }
    }
}

/// Whoever presents an invite that is valid is given the identity that the store has of the node's
/// owner, and whoever presents another is given none; the same goes for a challenge and the contact
/// that the store shares.
#[verifier::rlimit(50)]
pub proof fn law_challenges_are_answered_from_the_store(
    invite: SelfContactInviteChallenge,
    share: ContactShareChallenge,
    on_invite: crate::api_server::laws::Handling,
    on_share: crate::api_server::laws::Handling,
)
    requires
        on_invite.is_of_node(NetworkNodeAction::ValidateSelfContactInviteChallenge(invite)),
        on_share.is_of_node(NetworkNodeAction::ValidateContactShareChallenge(share)),
        on_invite.is_over(),
        on_share.is_over(),
    ensures
        forall|own: SelfContact|
            #![trigger on_invite.responded(Response::SelfContact(Some(own)))]
            #![trigger on_invite.got(Query::Db(DbCommand::GetSelfContact), Reply::Db(Answer::SelfContact(Ok(own))))]
            on_invite.responded(Response::SelfContact(Some(own))) <==> on_invite.got(
                Query::Db(DbCommand::GetSelfContact),
                Reply::Db(Answer::SelfContact(Ok(own))),
            ),
        forall|contact: Contact|
            #![trigger on_share.responded(Response::Contact(Some(contact)))]
            #![trigger on_share.got(Query::Db(DbCommand::GetSharablePublicSelfContact), Reply::Db(Answer::Contact(Ok(contact))))]
            on_share.responded(Response::Contact(Some(contact))) <==> on_share.got(
                Query::Db(DbCommand::GetSharablePublicSelfContact),
                Reply::Db(Answer::Contact(Ok(contact))),
            ),
        !on_invite.asked(Query::Db(DbCommand::GetSelfContact)) ==> on_invite.responded(
            Response::SelfContact(None),
        ),
        !on_share.asked(Query::Db(DbCommand::GetSharablePublicSelfContact)) ==> on_share.responded(
            Response::Contact(None),
        ),
        forall|query: Query| #[trigger]
            on_invite.asked(query) ==> query == Query::Db(DbCommand::GetSelfContact),
        forall|query: Query| #[trigger]
            on_share.asked(query) ==> query == Query::Db(DbCommand::GetSharablePublicSelfContact),
{
    crate::brain::flows::lemma_first_steps(on_invite);
    crate::brain::flows::lemma_first_steps(on_share);
    crate::brain::flows::lemma_short_handling(on_invite);
    crate::brain::flows::lemma_short_handling(on_share);
}

/// Clients hear that an invite was accepted, and of the other answers to challenges they hear
/// nothing. Nobody is asked anything on that account.
#[verifier::rlimit(50)]
pub proof fn law_clients_hear_of_accepted_invites(
    action: NetworkNodeAction,
    handling: crate::api_server::laws::Handling,
)
    requires
        handling.is_of_node(action),
        action is AnsweredSelfContactInvite || action is RejectedSelfContactInvite
            || action is SelfContactInviteGotRejected || action is AnsweredContactShare
            || action is RejectedContactShare || action is ContactShareGotRejected,
    ensures
        forall|query: Query| !#[trigger] handling.asked(query),
        action is AnsweredSelfContactInvite <==> exists|message: ServerMessage| #[trigger]
            handling.does(Effect::Push(message)),
        forall|message: ServerMessage| #[trigger]
            handling.does(Effect::Push(message)) ==> message.message matches Some(
                Message::SelfContactInviteAcceptedOverNetwork(_),
            ),
{
    crate::brain::flows::lemma_first_steps(handling);
    crate::brain::flows::lemma_short_handling(handling);
    if action is AnsweredSelfContactInvite {
        if let Effect::Push(message) = handling.steps[0].effects@[0] {
            assert(handling.does(Effect::Push(message)));
        }
    }
}

} // verus!
