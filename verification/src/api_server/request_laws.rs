//! What a client is told, and what has happened then, by what it asks for.
use vstd::prelude::*;

use crate::api_server::service::{ApiRequest, ApiResponse, Awaited, Begun};
use crate::brain::action_client::ClientAction;
use crate::brain::error::FilerequestError;
use crate::brain::exchange::{
    Answer, DbCommand, DbReply, Effect, NetworkCommand, NetworkReply, Query, Reply, Response,
};
use crate::brain::state::Next;
use crate::brain::types::{ContactShareChallenge, SelfContactInviteChallenge};
use crate::db::NodeInfo;
use crate::domain_models::{
    Contact, ContactId, CreateFilerequest, CreatePendingFiles, CreateRemoteFilerequest,
    DisplayContact, Filerequest, FilerequestAccess, FylesId, PeerIdWrapper, PendingFile, ReceivedFile, RemoteFilerequest,
    SelfContact,
};
use crate::p2p::NodeStatusInfo;
use crate::wire::{
    Access, AccessProto, Code, FileRequestProto, PendingFileProto, ReceivedFileProto,
    RemoteFileRequestProto, Status,
};

verus! {

/// Whether this is what a client is told of its request, after the action was handled like that.
pub open spec fn is_served(
    request: ApiRequest,
    action: ClientAction,
    awaited: Awaited,
    handling: crate::api_server::laws::Handling,
    response: Response,
    now_ms: u64,
    told: Result<ApiResponse, Status>,
) -> bool {
    &&& crate::api_server::service::dispatches(request, action, awaited)
    &&& handling.is_of(action)
    &&& handling.is_over()
    &&& handling.responded(response)
    &&& crate::api_server::service::answers(awaited, response, now_ms, told)
}

/// There is one response to the action of a client.
proof fn lemma_one_response(
    request: ApiRequest,
    action: ClientAction,
    awaited: Awaited,
    handling: crate::api_server::laws::Handling,
    first: Response,
    second: Response,
)
    requires
        crate::api_server::service::dispatches(request, action, awaited),
        !(action is WaitForReady),
        handling.is_of(action),
        handling.is_over(),
        handling.responded(first),
        handling.responded(second),
    ensures
        first == second,
{
    lemma_response_comes_last(request, action, awaited, handling, first);
    lemma_response_comes_last(request, action, awaited, handling, second);
}

proof fn lemma_response_comes_last(
    request: ApiRequest,
    action: ClientAction,
    awaited: Awaited,
    handling: crate::api_server::laws::Handling,
    response: Response,
)
    requires
        crate::api_server::service::dispatches(request, action, awaited),
        !(action is WaitForReady),
        handling.is_of(action),
        handling.is_over(),
        handling.responded(response),
    ensures
        handling.steps.last().effects@[0] == Effect::Respond(response),
{
    let (i, k) = choose|i: int, k: int|
        0 <= i < handling.steps.len() && 0 <= k < handling.steps[i].effects@.len()
            && #[trigger] handling.steps[i].effects@[k] == Effect::Respond(response);
    crate::brain::client_laws::law_clients_are_answered_once(request, action, awaited, handling, i);
    if i < handling.replies.len() {
        assert(handling.goes_on(i));
    }
}

/// What the store answered to the one thing that it was asked for is what the client is told.
proof fn lemma_told(
    request: ApiRequest,
    action: ClientAction,
    awaited: Awaited,
    handling: crate::api_server::laws::Handling,
    response: Response,
    command: DbCommand,
) -> (reply: DbReply)
    requires
        crate::api_server::service::dispatches(request, action, awaited),
        !(action is WaitForReady),
        handling.is_of(action),
        handling.is_over(),
        handling.responded(response),
        crate::brain::client_laws::hands_on(handling, command),
    ensures
        handling.got(Query::Db(command), Reply::Db(reply)),
        response matches Response::Answer(answer) && crate::brain::flows::tells(reply, answer),
{
    let (reply, answer) = choose|reply: DbReply, answer: Answer<FilerequestError>|
        {
            &&& #[trigger] handling.got(Query::Db(command), Reply::Db(reply))
            &&& #[trigger] handling.answered(answer)
            &&& crate::brain::flows::tells(reply, answer)
        };
    lemma_one_response(
        request,
        action,
        awaited,
        handling,
        response,
        Response::Answer(answer),
    );
    reply
}

/// Whether the store did what it was asked for.
pub open spec fn was_done(
    handling: crate::api_server::laws::Handling,
    command: DbCommand,
) -> bool {
    handling.got(Query::Db(command), Reply::Db(Answer::Unit(Ok(()))))
}

/// A client that deletes something, or changes something in the store alone, is told that it was
/// done exactly where the store was asked for that, of what was named, and did it.
pub proof fn law_served_changes_are_made(
    request: ApiRequest,
    action: ClientAction,
    awaited: Awaited,
    handling: crate::api_server::laws::Handling,
    response: Response,
    now_ms: u64,
    told: Result<ApiResponse, Status>,
)
    requires
        is_served(request, action, awaited, handling, response, now_ms, told),
    ensures
        match request {
            ApiRequest::DeleteFileRequest { id } => told is Ok <==> was_done(
                handling,
                DbCommand::DeleteFilerequest(FylesId(id)),
            ),
            ApiRequest::UpdateContact { contact } => contact matches Some(contact) && (told is Ok
                <==> was_done(
                handling,
                DbCommand::UpdateContact(
                    DisplayContact { id: ContactId(contact.id), name: contact.name },
                ),
            )),
            ApiRequest::DeleteContact { id } => told is Ok <==> was_done(
                handling,
                DbCommand::DeleteContact(ContactId(id)),
            ),
            ApiRequest::UpdateSelfContactName { name } => told is Ok <==> was_done(
                handling,
                DbCommand::UpdateSelfContactName(name),
            ),
            ApiRequest::DeleteReceivedFile { id } => told is Ok <==> was_done(
                handling,
                DbCommand::DeleteReceivedFile(FylesId(id)),
            ),
            ApiRequest::DeleteRemoteFileRequest { id } => told is Ok <==> was_done(
                handling,
                DbCommand::DeleteRemoteFilerequest(FylesId(id)),
            ),
            ApiRequest::DeletePendingFile { id } => told is Ok ==> was_done(
                handling,
                DbCommand::DeletePendingFile(FylesId(id)),
            ),
            ApiRequest::UpdateRemoteFileRequest { remote_file_request } => remote_file_request
                matches Some(remote) && told is Ok && (told->Ok_0 == ApiResponse::Success(true)
                <==> was_done(
                handling,
                DbCommand::UpdateRemoteFilerequest { id: FylesId(remote.id), name: remote.name },
            )),
            ApiRequest::UpdateSettings { settings } => told is Ok <==> was_done(
                handling,
                DbCommand::StoreSettings(settings),
            ),
            ApiRequest::BackupData => told is Ok && (told->Ok_0 == ApiResponse::Success(true)
                <==> was_done(handling, DbCommand::BackupDatabase)),
            ApiRequest::RestoreData { .. } => told is Ok && (told->Ok_0 == ApiResponse::Success(
                true,
            ) <==> was_done(handling, DbCommand::RestoreDatabase)),
            _ => true,
        },
        match request {
            ApiRequest::DeleteFileRequest { .. } | ApiRequest::UpdateContact { .. }
            | ApiRequest::DeleteContact { .. } | ApiRequest::UpdateSelfContactName { .. }
            | ApiRequest::DeleteReceivedFile { .. } | ApiRequest::DeleteRemoteFileRequest { .. }
            | ApiRequest::DeletePendingFile { .. } | ApiRequest::UpdateSettings { .. } => told
                is Ok ==> told->Ok_0 == ApiResponse::Success(true),
            _ => true,
        },
{
    crate::brain::client_laws::law_the_answer_of_the_store_is_handed_on(action, handling);
    match request {
        ApiRequest::DeleteFileRequest { id } => {
            lemma_done(
                request,
                action,
                awaited,
                handling,
                response,
                DbCommand::DeleteFilerequest(FylesId(id)),
            );
        },
        ApiRequest::UpdateContact { contact } => {
            if let Some(contact) = contact {
                lemma_done(
                    request,
                    action,
                    awaited,
                    handling,
                    response,
                    DbCommand::UpdateContact(
                        DisplayContact { id: ContactId(contact.id), name: contact.name },
                    ),
                );
            }
        },
        ApiRequest::DeleteContact { id } => {
            lemma_done(
                request,
                action,
                awaited,
                handling,
                response,
                DbCommand::DeleteContact(ContactId(id)),
            );
        },
        ApiRequest::UpdateSelfContactName { name } => {
            lemma_done(
                request,
                action,
                awaited,
                handling,
                response,
                DbCommand::UpdateSelfContactName(name),
            );
        },
        ApiRequest::DeleteReceivedFile { id } => {
            lemma_done(
                request,
                action,
                awaited,
                handling,
                response,
                DbCommand::DeleteReceivedFile(FylesId(id)),
            );
        },
        ApiRequest::UpdateRemoteFileRequest { remote_file_request } => {
            if let Some(remote) = remote_file_request {
                lemma_done(
                    request,
                    action,
                    awaited,
                    handling,
                    response,
                    DbCommand::UpdateRemoteFilerequest {
                        id: FylesId(remote.id),
                        name: remote.name,
                    },
                );
            }
        },
        ApiRequest::DeleteRemoteFileRequest { id } => {
            crate::brain::client_laws::law_deleted_remote_requests_are_deleted(
                FylesId(id),
                handling,
            );
            lemma_response_comes_last(request, action, awaited, handling, response);
            if handling.answered(Answer::Flag(Ok(true))) {
                lemma_response_comes_last(
                    request,
                    action,
                    awaited,
                    handling,
                    Response::Answer(Answer::Flag(Ok(true))),
                );
            }
            if let Response::Answer(Answer::Flag(Ok(flag))) = response {
                assert(handling.answered(Answer::Flag(Ok(flag))));
            }
        },
        ApiRequest::DeletePendingFile { id } => {
            crate::brain::client_laws::law_deleted_files_are_deleted(FylesId(id), handling);
            lemma_plain_success(request, action, awaited, handling, response);
        },
        ApiRequest::UpdateSettings { settings } => {
            crate::brain::client_laws::law_settings_are_stored_once_they_are_accepted(
                settings,
                handling,
            );
            lemma_plain_success(request, action, awaited, handling, response);
        },
        ApiRequest::BackupData => {
            crate::brain::client_laws::law_backups_are_written(handling);
            lemma_plain_success(request, action, awaited, handling, response);
        },
        ApiRequest::RestoreData { backup_file_path } => {
            crate::brain::client_laws::law_backups_are_restored(
                crate::io_controller::Uri(backup_file_path),
                handling,
            );
            lemma_plain_success(request, action, awaited, handling, response);
        },
        _ => {},
    }
}

/// Whether an action succeeded is told by its one response.
proof fn lemma_plain_success(
    request: ApiRequest,
    action: ClientAction,
    awaited: Awaited,
    handling: crate::api_server::laws::Handling,
    response: Response,
)
    requires
        crate::api_server::service::dispatches(request, action, awaited),
        !(action is WaitForReady),
        handling.is_of(action),
        handling.is_over(),
        handling.responded(response),
    ensures
        handling.answered(Answer::Unit(Ok(()))) <==> (response matches Response::Answer(
            Answer::Unit(Ok(_)),
        )),
{
    if handling.answered(Answer::Unit(Ok(()))) {
        lemma_one_response(
            request,
            action,
            awaited,
            handling,
            response,
            Response::Answer(Answer::Unit(Ok(()))),
        );
    }
    if let Response::Answer(Answer::Unit(Ok(unit))) = response {
        assert(unit == ());
        assert(response == Response::Answer(Answer::<FilerequestError>::Unit(Ok(()))));
    }
}

/// Whether the store did what it was asked for is told by the one response.
proof fn lemma_done(
    request: ApiRequest,
    action: ClientAction,
    awaited: Awaited,
    handling: crate::api_server::laws::Handling,
    response: Response,
    command: DbCommand,
)
    requires
        crate::api_server::service::dispatches(request, action, awaited),
        !(action is WaitForReady),
        handling.is_of(action),
        handling.is_over(),
        handling.responded(response),
        crate::brain::client_laws::hands_on(handling, command),
        awaited.understands(response),
    ensures
        was_done(handling, command) <==> (response matches Response::Answer(Answer::Unit(Ok(_)))),
{
    let reply = lemma_told(request, action, awaited, handling, response, command);
    crate::brain::flows::lemma_first_steps(handling);
    if let Answer::Unit(Ok(unit)) = reply {
        assert(unit == ());
        assert(reply == DbReply::Unit(Ok(())));
    }
    lemma_one_reply(handling, command, reply);
}

/// Where the store is asked for one thing alone, it answers once.
proof fn lemma_one_reply(
    handling: crate::api_server::laws::Handling,
    command: DbCommand,
    reply: DbReply,
)
    requires
        crate::brain::client_laws::hands_on(handling, command),
        handling.got(Query::Db(command), Reply::Db(reply)),
    ensures
        was_done(handling, command) ==> reply == DbReply::Unit(Ok(())),
{
    if was_done(handling, command) {
        let done = Reply::Db(Answer::Unit(Ok(())));
        let i = choose|i: int|
            0 <= i < handling.replies.len() && handling.replies[i] == done
                && #[trigger] handling.asks_at(i, Query::Db(command));
        let j = choose|j: int|
            0 <= j < handling.replies.len() && handling.replies[j] == Reply::Db(reply)
                && #[trigger] handling.asks_at(j, Query::Db(command));
        assert(i == 0 && j == 0);
    }
}

/// Whether clients are shown who may drop files as it is stored.
pub open spec fn shows_access(shown: Option<AccessProto>, access: FilerequestAccess) -> bool {
    &&& shown matches Some(shown)
    &&& match (shown.access, access) {
        (Some(Access::Public(_)), FilerequestAccess::Public) => true,
        (Some(Access::Audience(users)), FilerequestAccess::Audience { contact_ids }) => {
            &&& users.contact_ids@.len() == contact_ids@.len()
            &&& forall|i: int|
                0 <= i < contact_ids@.len() ==> (#[trigger] users.contact_ids@[i])@
                    == contact_ids@[i]@
        },
        _ => false,
    }
}

/// Whether clients are shown the file request as it is stored.
pub open spec fn shows_filerequest(shown: FileRequestProto, filerequest: Filerequest) -> bool {
    &&& shown.id@ == filerequest.id@
    &&& shown.title@ == filerequest.title@
    &&& shown.description@ == filerequest.description@
    &&& shown.is_active == filerequest.is_active
    &&& shows_access(shown.access, filerequest.access)
}

proof fn lemma_shown_filerequest(shown: FileRequestProto, filerequest: Filerequest)
    requires
        shown@ == filerequest@.proto(),
    ensures
        shows_filerequest(shown, filerequest),
{
    if let Some(access) = shown.access {
        assert(access@ == Some(filerequest.access@));
        if let (
            Some(Access::Audience(users)),
            FilerequestAccess::Audience { contact_ids },
        ) = (access.access, filerequest.access) {
            let shown_ids = crate::domain_models::views(users.contact_ids@);
            let stored_ids = crate::domain_models::views(contact_ids@);
            assert(shown_ids == stored_ids);
            assert forall|i: int| 0 <= i < contact_ids@.len() implies (
            #[trigger] users.contact_ids@[i])@ == contact_ids@[i]@ by {
                assert(shown_ids[i] == stored_ids[i]);
            }
        }
    }
}

/// Whether clients are shown the file request of another as it is stored.
pub open spec fn shows_remote_request(
    shown: RemoteFileRequestProto,
    request: RemoteFilerequest,
) -> bool {
    &&& shown.id@ == request.id@
    &&& shown.peer_id@ == request.peer_id@
    &&& shown.file_request_id@ == request.filerequest_id@
    &&& shown.name@ == request.name@
    &&& shown.contact_id@ == request.contact_id@
}

/// Whether clients are shown the file to send as it is stored.
pub open spec fn shows_file(shown: PendingFileProto, file: PendingFile) -> bool {
    &&& shown.id@ == file.id@
    &&& shown.file_path@ == file.file_path@
    &&& shown.target_file_request_id@ == file.target_filerequest_id@
    &&& crate::brain::node_laws::is_shown_as(file.status, shown.send_status)
    &&& crate::domain_models::opt_view(shown.display_name) == crate::domain_models::opt_view(
        file.display_name,
    )
    &&& shown.interruption_reasons@.len() == file.interruption_reasons@.len()
    &&& forall|i: int|
        0 <= i < file.interruption_reasons@.len() ==> (#[trigger] shown.interruption_reasons@[i])@
            == file.interruption_reasons@[i]@
    &&& match file.status {
        crate::domain_models::SendStatus::InProgress(progress) => {
            &&& shown.transfer_data matches Some(data)
            &&& data.progress_bytes == progress.transfer_data.progress_bytes
            &&& data.file_size_bytes == progress.transfer_data.file_size_bytes
            &&& data.transfer_id@ == progress.transfer_data.transfer_id@
        },
        _ => shown.transfer_data is None,
    }
}

proof fn lemma_shown_file(shown: PendingFileProto, file: PendingFile)
    requires
        crate::domain_proto_conversion::shows_pending_file(shown, file@),
    ensures
        shows_file(shown, file),
{
    let shown_reasons = crate::domain_models::views(shown.interruption_reasons@);
    let reasons = crate::domain_models::views(file.interruption_reasons@);
    assert(shown_reasons == reasons);
    assert(shown_reasons.len() == reasons.len());
    assert forall|i: int| 0 <= i < file.interruption_reasons@.len() implies (
    #[trigger] shown.interruption_reasons@[i])@ == file.interruption_reasons@[i]@ by {
        assert(shown_reasons[i] == reasons[i]);
    }
}

/// Whether clients are shown the received file as it is stored. Of one that is not there yet they
/// see no path and no time.
pub open spec fn shows_received(shown: ReceivedFileProto, file: ReceivedFile) -> bool {
    &&& shown.id@ == file.id@
    &&& crate::domain_models::opt_view(shown.contact_id) == crate::domain_models::opt_view(
        file.contact_id,
    )
    &&& shown.filerequest_id@ == file.filerequest_id@
    &&& shown.file_name@ == file.file_name@
    &&& match file.file_path {
        Some(path) => shown.file_path@ == path@,
        None => shown.file_path@.len() == 0,
    }
    &&& file.file_size_bytes <= i64::MAX ==> shown.size == file.file_size_bytes
    &&& match file.received_at_ms {
        Some(at) => shown.received_at_ms == at,
        None => shown.received_at_ms == 0,
    }
}

/// A client that reads one thing is shown what the store has under the id that was named, as it is
/// stored.
pub proof fn law_served_reads_show_what_is_stored(
    request: ApiRequest,
    action: ClientAction,
    awaited: Awaited,
    handling: crate::api_server::laws::Handling,
    response: Response,
    now_ms: u64,
    shown: ApiResponse,
)
    requires
        is_served(request, action, awaited, handling, response, now_ms, Ok(shown)),
    ensures
        match request {
            ApiRequest::GetFileRequest { id } => exists|stored: Filerequest|
                {
                    &&& #[trigger] handling.got(
                        Query::Db(DbCommand::GetFilerequest(FylesId(id))),
                        Reply::Db(Answer::Filerequest(Ok(stored))),
                    )
                    &&& shown matches ApiResponse::FileRequest(proto)
                    &&& shows_filerequest(proto, stored)
                },
            ApiRequest::GetContactName { id } => exists|stored: String|
                {
                    &&& #[trigger] handling.got(
                        Query::Db(DbCommand::GetContactName(ContactId(id))),
                        Reply::Db(Answer::Text(Ok(stored))),
                    )
                    &&& shown matches ApiResponse::Name(name)
                    &&& name@ == stored@
                },
            ApiRequest::GetContact { id } => exists|stored: Contact|
                {
                    &&& #[trigger] handling.got(
                        Query::Db(DbCommand::GetContact(ContactId(id))),
                        Reply::Db(Answer::Contact(Ok(stored))),
                    )
                    &&& shown matches ApiResponse::Contact(proto)
                    &&& proto.id@ == stored.id@
                    &&& proto.name@ == stored.name@
                },
            ApiRequest::GetRemoteFileRequest { id } => exists|stored: RemoteFilerequest|
                {
                    &&& #[trigger] handling.got(
                        Query::Db(DbCommand::GetRemoteFilerequest(FylesId(id))),
                        Reply::Db(Answer::RemoteFilerequest(Ok(stored))),
                    )
                    &&& shown matches ApiResponse::RemoteFileRequest(proto)
                    &&& shows_remote_request(proto, stored)
                },
            ApiRequest::GetPendingFile { id } => exists|stored: PendingFile|
                {
                    &&& #[trigger] handling.got(
                        Query::Db(DbCommand::GetPendingFile(FylesId(id))),
                        Reply::Db(Answer::PendingFile(Ok(stored))),
                    )
                    &&& shown matches ApiResponse::PendingFile(proto)
                    &&& shows_file(proto, stored)
                },
            ApiRequest::GetSelfContactDisplay => exists|stored: DisplayContact|
                {
                    &&& #[trigger] handling.got(
                        Query::Db(DbCommand::GetSelfContactForDisplay),
                        Reply::Db(Answer::DisplayContact(Ok(stored))),
                    )
                    &&& shown matches ApiResponse::Contact(proto)
                    &&& proto.id@ == stored.id@
                    &&& proto.name@ == stored.name@
                },
            ApiRequest::GetSettings => exists|stored: Vec<u8>|
                {
                    &&& #[trigger] handling.got(
                        Query::Db(DbCommand::GetSettings),
                        Reply::Db(Answer::Settings(Ok(stored))),
                    )
                    &&& shown matches ApiResponse::Settings(settings)
                    &&& settings@ == stored@
                },
            _ => true,
        },
{
    crate::brain::client_laws::law_the_answer_of_the_store_is_handed_on(action, handling);
    match request {
        ApiRequest::GetFileRequest { id } => {
            let command = DbCommand::GetFilerequest(FylesId(id));
            let reply = lemma_told(request, action, awaited, handling, response, command);
            if let (
                Answer::Filerequest(Ok(stored)),
                ApiResponse::FileRequest(proto),
            ) = (reply, shown) {
                lemma_shown_filerequest(proto, stored);
                assert(handling.got(
                    Query::Db(command),
                    Reply::Db(Answer::Filerequest(Ok(stored))),
                ));
            }
        },
        ApiRequest::GetContactName { id } => {
            let command = DbCommand::GetContactName(ContactId(id));
            let reply = lemma_told(request, action, awaited, handling, response, command);
            if let Answer::Text(Ok(stored)) = reply {
                assert(handling.got(Query::Db(command), Reply::Db(Answer::Text(Ok(stored)))));
            }
        },
        ApiRequest::GetContact { id } => {
            let command = DbCommand::GetContact(ContactId(id));
            let reply = lemma_told(request, action, awaited, handling, response, command);
            if let Answer::Contact(Ok(stored)) = reply {
                assert(handling.got(Query::Db(command), Reply::Db(Answer::Contact(Ok(stored)))));
            }
        },
        ApiRequest::GetRemoteFileRequest { id } => {
            let command = DbCommand::GetRemoteFilerequest(FylesId(id));
            let reply = lemma_told(request, action, awaited, handling, response, command);
            if let Answer::RemoteFilerequest(Ok(stored)) = reply {
                assert(handling.got(
                    Query::Db(command),
                    Reply::Db(Answer::RemoteFilerequest(Ok(stored))),
                ));
            }
        },
        ApiRequest::GetPendingFile { id } => {
            let command = DbCommand::GetPendingFile(FylesId(id));
            let reply = lemma_told(request, action, awaited, handling, response, command);
            if let (
                Answer::PendingFile(Ok(stored)),
                ApiResponse::PendingFile(proto),
            ) = (reply, shown) {
                lemma_shown_file(proto, stored);
                assert(handling.got(
                    Query::Db(command),
                    Reply::Db(Answer::PendingFile(Ok(stored))),
                ));
            }
        },
        ApiRequest::GetSelfContactDisplay => {
            let command = DbCommand::GetSelfContactForDisplay;
            let reply = lemma_told(request, action, awaited, handling, response, command);
            if let Answer::DisplayContact(Ok(stored)) = reply {
                assert(handling.got(
                    Query::Db(command),
                    Reply::Db(Answer::DisplayContact(Ok(stored))),
                ));
            }
        },
        ApiRequest::GetSettings => {
            let command = DbCommand::GetSettings;
            let reply = lemma_told(request, action, awaited, handling, response, command);
            if let Answer::Settings(Ok(stored)) = reply {
                assert(handling.got(Query::Db(command), Reply::Db(Answer::Settings(Ok(stored)))));
            }
        },
        _ => {},
    }
}

/// A client that lists things is shown all that the store has of them, one for one and in its order,
/// each as it is stored.
pub proof fn law_served_lists_show_all_that_is_stored(
    request: ApiRequest,
    action: ClientAction,
    awaited: Awaited,
    handling: crate::api_server::laws::Handling,
    response: Response,
    now_ms: u64,
    shown: ApiResponse,
)
    requires
        is_served(request, action, awaited, handling, response, now_ms, Ok(shown)),
    ensures
        match request {
            ApiRequest::GetAllFileRequests => exists|stored: Vec<Filerequest>|
                {
                    &&& #[trigger] handling.got(
                        Query::Db(DbCommand::GetFilerequests),
                        Reply::Db(Answer::Filerequests(Ok(stored))),
                    )
                    &&& shown matches ApiResponse::FileRequests(protos)
                    &&& protos@.len() == stored@.len()
                    &&& forall|i: int|
                        0 <= i < stored@.len() ==> shows_filerequest(
                            #[trigger] protos@[i],
                            stored@[i],
                        )
                },
            ApiRequest::GetAllContacts => exists|stored: Vec<DisplayContact>|
                {
                    &&& #[trigger] handling.got(
                        Query::Db(DbCommand::GetContacts),
                        Reply::Db(Answer::DisplayContacts(Ok(stored))),
                    )
                    &&& shown matches ApiResponse::Contacts(protos)
                    &&& protos@.len() == stored@.len()
                    &&& forall|i: int|
                        0 <= i < stored@.len() ==> (#[trigger] protos@[i]).id@ == stored@[i].id@
                            && protos@[i].name@ == stored@[i].name@
                },
            ApiRequest::ListRemoteFileRequests { contact_id } => exists|
                stored: Vec<RemoteFilerequest>,
            |
                {
                    &&& #[trigger] handling.got(
                        Query::Db(DbCommand::GetRemoteFilerequestsByContact(ContactId(contact_id))),
                        Reply::Db(Answer::RemoteFilerequests(Ok(stored))),
                    )
                    &&& shows_all_remotes(shown, stored@)
                },
            ApiRequest::GetAllRemoteFileRequests => exists|stored: Vec<RemoteFilerequest>|
                {
                    &&& #[trigger] handling.got(
                        Query::Db(DbCommand::GetAllRemoteFilerequests),
                        Reply::Db(Answer::RemoteFilerequests(Ok(stored))),
                    )
                    &&& shows_all_remotes(shown, stored@)
                },
            ApiRequest::ListPendingFiles { target_file_request_id } => exists|
                stored: Vec<PendingFile>,
            |
                {
                    &&& #[trigger] handling.got(
                        Query::Db(DbCommand::GetPendingFiles(FylesId(target_file_request_id))),
                        Reply::Db(Answer::PendingFiles(Ok(stored))),
                    )
                    &&& shows_all_files(shown, stored@)
                },
            ApiRequest::GetAllPendingFiles => exists|stored: Vec<PendingFile>|
                {
                    &&& #[trigger] handling.got(
                        Query::Db(DbCommand::GetAllPendingFiles),
                        Reply::Db(Answer::PendingFiles(Ok(stored))),
                    )
                    &&& shows_all_files(shown, stored@)
                },
            ApiRequest::ListReceivedFiles { remote_file_request_id } => exists|
                stored: Vec<ReceivedFile>,
            |
                {
                    &&& #[trigger] handling.got(
                        Query::Db(DbCommand::ListReceivedFiles(FylesId(remote_file_request_id))),
                        Reply::Db(Answer::ReceivedFiles(Ok(stored))),
                    )
                    &&& shown matches ApiResponse::ReceivedFiles(protos)
                    &&& protos@.len() == stored@.len()
                    &&& forall|i: int|
                        0 <= i < stored@.len() ==> shows_received(
                            #[trigger] protos@[i],
                            stored@[i],
                        )
                },
            _ => true,
        },
{
    crate::brain::client_laws::law_the_answer_of_the_store_is_handed_on(action, handling);
    match request {
        ApiRequest::GetAllFileRequests => {
            let command = DbCommand::GetFilerequests;
            let reply = lemma_told(request, action, awaited, handling, response, command);
            if let (
                Answer::Filerequests(Ok(stored)),
                ApiResponse::FileRequests(protos),
            ) = (reply, shown) {
                assert(handling.got(
                    Query::Db(command),
                    Reply::Db(Answer::Filerequests(Ok(stored))),
                ));
                assert forall|i: int| 0 <= i < stored@.len() implies shows_filerequest(
                    #[trigger] protos@[i],
                    stored@[i],
                ) by {
                    lemma_shown_filerequest(protos@[i], stored@[i]);
                }
            }
        },
        ApiRequest::GetAllContacts => {
            let command = DbCommand::GetContacts;
            let reply = lemma_told(request, action, awaited, handling, response, command);
            if let Answer::DisplayContacts(Ok(stored)) = reply {
                assert(handling.got(
                    Query::Db(command),
                    Reply::Db(Answer::DisplayContacts(Ok(stored))),
                ));
            }
        },
        ApiRequest::ListRemoteFileRequests { contact_id } => {
            let command = DbCommand::GetRemoteFilerequestsByContact(ContactId(contact_id));
            let reply = lemma_told(request, action, awaited, handling, response, command);
            if let Answer::RemoteFilerequests(Ok(stored)) = reply {
                assert(handling.got(
                    Query::Db(command),
                    Reply::Db(Answer::RemoteFilerequests(Ok(stored))),
                ));
            }
        },
        ApiRequest::GetAllRemoteFileRequests => {
            let command = DbCommand::GetAllRemoteFilerequests;
            let reply = lemma_told(request, action, awaited, handling, response, command);
            if let Answer::RemoteFilerequests(Ok(stored)) = reply {
                assert(handling.got(
                    Query::Db(command),
                    Reply::Db(Answer::RemoteFilerequests(Ok(stored))),
                ));
            }
        },
        ApiRequest::ListPendingFiles { target_file_request_id } => {
            let command = DbCommand::GetPendingFiles(FylesId(target_file_request_id));
            let reply = lemma_told(request, action, awaited, handling, response, command);
            if let Answer::PendingFiles(Ok(stored)) = reply {
                assert(handling.got(
                    Query::Db(command),
                    Reply::Db(Answer::PendingFiles(Ok(stored))),
                ));
                lemma_shown_files(shown, stored@);
            }
        },
        ApiRequest::GetAllPendingFiles => {
            let command = DbCommand::GetAllPendingFiles;
            let reply = lemma_told(request, action, awaited, handling, response, command);
            if let Answer::PendingFiles(Ok(stored)) = reply {
                assert(handling.got(
                    Query::Db(command),
                    Reply::Db(Answer::PendingFiles(Ok(stored))),
                ));
                lemma_shown_files(shown, stored@);
            }
        },
        ApiRequest::ListReceivedFiles { remote_file_request_id } => {
            let command = DbCommand::ListReceivedFiles(FylesId(remote_file_request_id));
            let reply = lemma_told(request, action, awaited, handling, response, command);
            if let Answer::ReceivedFiles(Ok(stored)) = reply {
                assert(handling.got(
                    Query::Db(command),
                    Reply::Db(Answer::ReceivedFiles(Ok(stored))),
                ));
            }
        },
        _ => {},
    }
}

pub open spec fn shows_all_remotes(shown: ApiResponse, stored: Seq<RemoteFilerequest>) -> bool {
    &&& shown matches ApiResponse::RemoteFileRequests(protos)
    &&& protos@.len() == stored.len()
    &&& forall|i: int|
        0 <= i < stored.len() ==> shows_remote_request(#[trigger] protos@[i], stored[i])
}

pub open spec fn shows_all_files(shown: ApiResponse, stored: Seq<PendingFile>) -> bool {
    &&& shown matches ApiResponse::PendingFiles(protos)
    &&& protos@.len() == stored.len()
    &&& forall|i: int| 0 <= i < stored.len() ==> shows_file(#[trigger] protos@[i], stored[i])
}

proof fn lemma_shown_files(shown: ApiResponse, stored: Seq<PendingFile>)
    requires
        shown matches ApiResponse::PendingFiles(protos) && protos@.len() == stored.len()
            && forall|i: int|
            0 <= i < stored.len() ==> crate::domain_proto_conversion::shows_pending_file(
                #[trigger] protos@[i],
                stored[i]@,
            ),
    ensures
        shows_all_files(shown, stored),
{
    if let ApiResponse::PendingFiles(protos) = shown {
        assert forall|i: int| 0 <= i < stored.len() implies shows_file(
            #[trigger] protos@[i],
            stored[i],
        ) by {
            lemma_shown_file(protos@[i], stored[i]);
        }
    }
}

/// A client that creates a file request is shown it with the id that the store gave it, and as it
/// asked for it; one that changes a file request is shown it as it asked for it, and the store has
/// made that change; one that adds the file request of another is told the id that the store gave
/// it.
pub proof fn law_served_requests_are_stored_as_asked(
    request: ApiRequest,
    action: ClientAction,
    awaited: Awaited,
    handling: crate::api_server::laws::Handling,
    response: Response,
    now_ms: u64,
    shown: ApiResponse,
)
    requires
        is_served(request, action, awaited, handling, response, now_ms, Ok(shown)),
    ensures
        match request {
            ApiRequest::CreateFileRequest { title, description, access } => exists|
                new: CreateFilerequest,
                id: FylesId,
            |
                {
                    &&& #[trigger] handling.got(
                        Query::Db(DbCommand::CreateFilerequest(new)),
                        Reply::Db(Answer::Id(Ok(id))),
                    )
                    &&& new.title@ == title@
                    &&& new.description@ == description@
                    &&& new.is_active
                    &&& access matches Some(access) && access@ == Some(new.access@)
                    &&& shown matches ApiResponse::FileRequest(proto)
                    &&& proto.id@ == id@
                    &&& proto.title@ == title@
                    &&& proto.description@ == description@
                    &&& proto.is_active
                },
            ApiRequest::UpdateFileRequest { file_request } => exists|update: Filerequest|
                {
                    &&& #[trigger] handling.got(
                        Query::Db(DbCommand::UpdateFilerequest(update)),
                        Reply::Db(Answer::Unit(Ok(()))),
                    )
                    &&& file_request matches Some(asked)
                    &&& update.id@ == asked.id@
                    &&& update.title@ == asked.title@
                    &&& update.description@ == asked.description@
                    &&& update.is_active == asked.is_active
                    &&& shown matches ApiResponse::FileRequest(proto)
                    &&& proto.id@ == asked.id@
                    &&& proto.title@ == asked.title@
                    &&& proto.description@ == asked.description@
                    &&& proto.is_active == asked.is_active
                },
            ApiRequest::StoreRemoteFileRequest { remote_file_request } => exists|
                new: CreateRemoteFilerequest,
                id: FylesId,
            |
                {
                    &&& #[trigger] handling.got(
                        Query::Db(DbCommand::CreateRemoteFilerequest(new)),
                        Reply::Db(Answer::Id(Ok(id))),
                    )
                    &&& remote_file_request matches Some(asked)
                    &&& new.peer_id@ == asked.peer_id@
                    &&& new.filerequest_id@ == asked.file_request_id@
                    &&& new.name@ == asked.name@
                    &&& new.contact_id@ == asked.contact_id@
                    &&& shown matches ApiResponse::Id(text)
                    &&& text@ == id@
                },
            ApiRequest::RegisterContact { sharable_contact } => exists|contact: Contact|
                {
                    &&& #[trigger] handling.got(
                        Query::Db(DbCommand::RegisterContact(contact)),
                        Reply::Db(Answer::Unit(Ok(()))),
                    )
                    &&& sharable_contact matches Some(asked)
                    &&& contact.id@ == asked.contact_id@
                    &&& contact.name@ == asked.name@
                    &&& shown == ApiResponse::Success(true)
                },
            _ => true,
        },
{
    crate::brain::client_laws::law_the_answer_of_the_store_is_handed_on(action, handling);
    match (request, action) {
        (ApiRequest::CreateFileRequest { .. }, ClientAction::CreateFilerequest(new)) => {
            if let Response::Answer(Answer::Id(Ok(id))) = response {
                crate::brain::client_laws::law_created_filerequests_have_directories(
                    new,
                    handling,
                );
                assert(handling.answered(Answer::Id(Ok(id))));
                assert(handling.got(
                    Query::Db(DbCommand::CreateFilerequest(new)),
                    Reply::Db(Answer::Id(Ok(id))),
                ));
            }
        },
        (ApiRequest::UpdateFileRequest { file_request }, ClientAction::UpdateFilerequest(update)) => {
            crate::brain::client_laws::law_updated_filerequests_are_stored(update, handling);
            lemma_plain_success(request, action, awaited, handling, response);
            assert(handling.got(
                Query::Db(DbCommand::UpdateFilerequest(update)),
                Reply::Db(Answer::Unit(Ok(()))),
            ));
        },
        (
            ApiRequest::StoreRemoteFileRequest { .. },
            ClientAction::CreateRemoteFilerequest(new),
        ) => {
            let command = DbCommand::CreateRemoteFilerequest(new);
            let reply = lemma_told(request, action, awaited, handling, response, command);
            if let Answer::Id(Ok(id)) = reply {
                assert(handling.got(Query::Db(command), Reply::Db(Answer::Id(Ok(id)))));
            }
        },
        (ApiRequest::RegisterContact { .. }, ClientAction::RegisterContact(contact)) => {
            lemma_done(
                request,
                action,
                awaited,
                handling,
                response,
                DbCommand::RegisterContact(contact),
            );
            assert(handling.got(
                Query::Db(DbCommand::RegisterContact(contact)),
                Reply::Db(Answer::Unit(Ok(()))),
            ));
        },
        _ => {},
    }
}

/// Files that a client adds are stored one for one, each with the path and the name that was asked
/// for in its place, for the request that was named; the client is told the ids that the store gave
/// them, in the same order.
pub proof fn law_served_files_are_added_one_for_one(
    request: ApiRequest,
    action: ClientAction,
    awaited: Awaited,
    handling: crate::api_server::laws::Handling,
    response: Response,
    now_ms: u64,
    shown: ApiResponse,
)
    requires
        is_served(request, action, awaited, handling, response, now_ms, Ok(shown)),
    ensures
        request matches ApiRequest::StorePendingFile { pending_files } ==> exists|
            files: CreatePendingFiles,
            ids: Vec<FylesId>,
        |
            {
                &&& #[trigger] handling.got(
                    Query::Db(DbCommand::CreatePendingFiles(files)),
                    Reply::Db(Answer::Ids(Ok(ids))),
                )
                &&& files.target_filerequest_id@ == pending_files.target_file_request_id@
                &&& files.file_infos@.len() == pending_files.file_infos@.len()
                &&& forall|i: int|
                    0 <= i < files.file_infos@.len() ==> {
                        &&& (#[trigger] files.file_infos@[i]).path@
                            == pending_files.file_infos@[i].path@
                        &&& crate::domain_models::opt_view(files.file_infos@[i].display_name)
                            == crate::domain_models::opt_view(
                            pending_files.file_infos@[i].display_name,
                        )
                    }
                &&& shown matches ApiResponse::Ids(texts)
                &&& texts@.len() == ids@.len()
                &&& forall|i: int| 0 <= i < ids@.len() ==> (#[trigger] texts@[i])@ == ids@[i]@
            },
{
    if let (
        ApiRequest::StorePendingFile { pending_files },
        ClientAction::CreatePendingFiles(files),
        Response::Answer(Answer::Ids(Ok(ids))),
        ApiResponse::Ids(texts),
    ) = (request, action, response, shown) {
        crate::brain::client_laws::law_new_files_are_stored_as_asked(files, handling);
        assert(handling.answered(Answer::Ids(Ok(ids))));
        assert(handling.got(
            Query::Db(DbCommand::CreatePendingFiles(files)),
            Reply::Db(Answer::Ids(Ok(ids))),
        ));
        let shown_ids = crate::domain_models::views(texts@);
        let stored_ids = crate::domain_models::views(ids@);
        assert(shown_ids == stored_ids);
        assert(shown_ids.len() == stored_ids.len());
        assert forall|i: int| 0 <= i < ids@.len() implies (#[trigger] texts@[i])@ == ids@[i]@ by {
            assert(shown_ids[i] == stored_ids[i]);
        }
    }
}

/// A client is shown the names of contacts as the store gives them for the ids that were named, the
/// node as it tells of itself, its identifier as it belongs to the stored keys, and its owner as
/// stored.
pub proof fn law_served_identities_are_those_that_are_stored(
    request: ApiRequest,
    action: ClientAction,
    awaited: Awaited,
    handling: crate::api_server::laws::Handling,
    response: Response,
    now_ms: u64,
    shown: ApiResponse,
)
    requires
        is_served(request, action, awaited, handling, response, now_ms, Ok(shown)),
    ensures
        match request {
            ApiRequest::GetContactNames { ids } => exists|
                asked: Vec<ContactId>,
                stored: Vec<(ContactId, String)>,
            |
                {
                    &&& #[trigger] handling.got(
                        Query::Db(DbCommand::GetContactNames(asked)),
                        Reply::Db(Answer::Names(Ok(stored))),
                    )
                    &&& asked@.len() == ids@.len()
                    &&& forall|i: int| 0 <= i < ids@.len() ==> (#[trigger] asked@[i])@ == ids@[i]@
                    &&& shown matches ApiResponse::Names(names)
                    &&& names@.len() == stored@.len()
                    &&& forall|i: int|
                        0 <= i < stored@.len() ==> (#[trigger] names@[i]).0@ == stored@[i].0@
                            && names@[i].1@ == stored@[i].1@
                },
            ApiRequest::GetNodePeerId => exists|info: NodeInfo, peer_id: String|
                {
                    &&& #[trigger] handling.got(
                        Query::Network(NetworkCommand::DisplayKeypair(info.node_key_pair)),
                        Reply::Network(NetworkReply::Shown(Ok(peer_id))),
                    )
                    &&& handling.got(
                        Query::Db(DbCommand::GetNodeKeys),
                        Reply::Db(Answer::NodeInfo(Ok(info))),
                    )
                    &&& shown matches ApiResponse::PeerId(text)
                    &&& text@ == peer_id@
                },
            ApiRequest::GetNodeStatus => exists|node: NodeStatusInfo|
                {
                    &&& #[trigger] handling.got(
                        Query::Network(NetworkCommand::GetNodeInfo),
                        Reply::Network(NetworkReply::Status(Ok(node))),
                    )
                    &&& shown matches ApiResponse::NodeStatus(status)
                    &&& status.is_running
                    &&& status.peer_id@ == node.peer_id@
                    &&& status.connected_peers == node.connected_peers
                    &&& status.timestamp == now_ms
                    &&& status.multiaddrs@.len() == node.external_addresses@.len()
                    &&& forall|i: int|
                        0 <= i < status.multiaddrs@.len() ==> (#[trigger] status.multiaddrs@[i])@
                            == node.external_addresses@[i]@
                    &&& node.start_timestamp <= u64::MAX ==> status.start_timestamp
                        == node.start_timestamp
                },
            ApiRequest::SharePublicSelfContact => exists|stored: Contact|
                {
                    &&& #[trigger] handling.got(
                        Query::Db(DbCommand::GetSharablePublicSelfContact),
                        Reply::Db(Answer::Contact(Ok(stored))),
                    )
                    &&& shown matches ApiResponse::SharableContact(proto)
                    &&& proto.contact_id@ == stored.id@
                    &&& proto.name@ == stored.name@
                    &&& proto@.public_keys == Some(stored.public_keys@)
                },
            ApiRequest::GetFullSelfContact => exists|stored: SelfContact|
                {
                    &&& #[trigger] handling.got(
                        Query::Db(DbCommand::GetSelfContact),
                        Reply::Db(Answer::SelfContact(Ok(stored))),
                    )
                    &&& shown matches ApiResponse::SelfContact(proto)
                    &&& proto.id@ == stored.id@
                    &&& proto.name@ == stored.name@
                },
            _ => true,
        },
{
    crate::brain::client_laws::law_the_answer_of_the_store_is_handed_on(action, handling);
    match (request, action) {
        (ApiRequest::GetContactNames { ids }, ClientAction::GetContactNames(asked)) => {
            let command = DbCommand::GetContactNames(asked);
            let reply = lemma_told(request, action, awaited, handling, response, command);
            if let Answer::Names(Ok(stored)) = reply {
                assert(handling.got(Query::Db(command), Reply::Db(Answer::Names(Ok(stored)))));
            }
            let asked_views = crate::domain_models::views(asked@);
            let views = crate::domain_models::views(ids@);
            assert(asked_views == views);
            assert(asked_views.len() == views.len());
            assert forall|i: int| 0 <= i < ids@.len() implies (#[trigger] asked@[i])@
                == ids@[i]@ by {
                assert(asked_views[i] == views[i]);
            }
        },
        (ApiRequest::GetNodePeerId, _) => {
            crate::brain::client_laws::law_the_node_is_known_by_its_stored_keys(handling);
            if let Response::Answer(Answer::Text(Ok(peer_id))) = response {
                assert(handling.answered(Answer::Text(Ok(peer_id))));
            }
        },
        (ApiRequest::GetNodeStatus, _) => {
            crate::brain::client_laws::law_the_status_is_that_of_the_network_node(handling);
            if let (
                Response::Answer(Answer::NodeStatus(Ok(node))),
                ApiResponse::NodeStatus(status),
            ) = (response, shown) {
                assert(handling.answered(Answer::NodeStatus(Ok(node))));
                let shown_views = crate::domain_models::views(status.multiaddrs@);
                let views = crate::domain_models::views(node.external_addresses@);
                assert(shown_views == views);
                assert(shown_views.len() == views.len());
                assert forall|i: int| 0 <= i < status.multiaddrs@.len() implies (
                #[trigger] status.multiaddrs@[i])@ == node.external_addresses@[i]@ by {
                    assert(shown_views[i] == views[i]);
                }
            }
        },
        (ApiRequest::SharePublicSelfContact, _) => {
            let command = DbCommand::GetSharablePublicSelfContact;
            let reply = lemma_told(request, action, awaited, handling, response, command);
            if let Answer::Contact(Ok(stored)) = reply {
                assert(handling.got(Query::Db(command), Reply::Db(Answer::Contact(Ok(stored)))));
            }
        },
        (ApiRequest::GetFullSelfContact, _) => {
            let command = DbCommand::GetSelfContact;
            let reply = lemma_told(request, action, awaited, handling, response, command);
            if let Answer::SelfContact(Ok(stored)) = reply {
                assert(handling.got(Query::Db(command), Reply::Db(Answer::SelfContact(Ok(stored)))));
            }
        },
        _ => {},
    }
}

/// A challenge that a client is given is handed out as it is; one that it uses or withdraws is the
/// one that it names, with the peer that it names.
pub proof fn law_served_challenges_are_those_that_are_named(
    request: ApiRequest,
    action: ClientAction,
    awaited: Awaited,
    handling: crate::api_server::laws::Handling,
    response: Response,
    now_ms: u64,
    told: Result<ApiResponse, Status>,
)
    requires
        is_served(request, action, awaited, handling, response, now_ms, told),
    ensures
        match request {
            ApiRequest::GetSelfContactInviteChallenge => {
                &&& action is RegisterSelfContactInviteChallenge
                &&& told matches Ok(ApiResponse::Challenge(shown))
                &&& response matches Response::SelfContactInviteChallenge(given)
                &&& shown@ == given@
            },
            ApiRequest::GetContactShareChallenge => {
                &&& action is RegisterContactShareChallenge
                &&& told matches Ok(ApiResponse::Challenge(shown))
                &&& response matches Response::ContactShareChallenge(given)
                &&& shown@ == given@
            },
            ApiRequest::UnregisterSelfContactInviteChallenge { challenge } => {
                &&& action matches ClientAction::UnregisterSelfContactInviteChallenge(withdrawn)
                &&& withdrawn@ == challenge@
                &&& told == Ok::<_, Status>(ApiResponse::Nothing)
            },
            ApiRequest::UnregisterContactShareChallenge { challenge } => {
                &&& action matches ClientAction::UnregisterContactShareChallenge(withdrawn)
                &&& withdrawn@ == challenge@
                &&& told == Ok::<_, Status>(ApiResponse::Nothing)
            },
            ApiRequest::UseSelfContactInvite { challenge, peer_id } => {
                &&& handling.asked(
                    Query::Network(
                        NetworkCommand::UseSelfContactInvite {
                            invite_code: SelfContactInviteChallenge(challenge),
                            peer_id: PeerIdWrapper(peer_id),
                        },
                    ),
                )
                &&& told == Ok::<_, Status>(ApiResponse::Nothing)
            },
            ApiRequest::UseContactShareChallenge { challenge, peer_id } => {
                &&& handling.asked(
                    Query::Network(
                        NetworkCommand::UseContactShareChallenge {
                            share_code: ContactShareChallenge(challenge),
                            peer_id: PeerIdWrapper(peer_id),
                        },
                    ),
                )
                &&& told == Ok::<_, Status>(ApiResponse::Nothing)
            },
            ApiRequest::Shutdown => action is Shutdown && told == Ok::<_, Status>(
                ApiResponse::Success(true),
            ),
            _ => true,
        },
{
    match request {
        ApiRequest::UseSelfContactInvite { .. } | ApiRequest::UseContactShareChallenge { .. } => {
            if let Next::Await(query, _) = handling.steps[0].next {
                assert(handling.asks_at(0, query));
            }
        },
        ApiRequest::Shutdown => {
            crate::brain::client_laws::law_shutdown_is_granted(handling);
            lemma_one_response(
                request,
                action,
                awaited,
                handling,
                response,
                Response::Answer(Answer::Flag(Ok(true))),
            );
        },
        _ => {},
    }
}

/// Where the store or the network node refuses what a client asks for, the client is told why: the
/// text of the error, and no success.
pub proof fn law_errors_are_told(
    request: ApiRequest,
    action: ClientAction,
    awaited: Awaited,
    handling: crate::api_server::laws::Handling,
    response: Response,
    now_ms: u64,
    told: Result<ApiResponse, Status>,
    error: FilerequestError,
)
    requires
        is_served(request, action, awaited, handling, response, now_ms, told),
        response matches Response::Answer(answer) && fails_by(answer, error),
        !(request is GetFullSelfContact),
        !(request is BackupData || request is RestoreData || request is UpdateRemoteFileRequest),
    ensures
        told matches Err(status) && status.code == Code::Internal && status.message@
            == error.text(),
{
}

/// Whether the answer is that it failed, and why.
pub open spec fn fails_by(answer: Answer<FilerequestError>, error: FilerequestError) -> bool {
    match answer {
        Answer::Unit(Err(cause)) => cause == error,
        Answer::Flag(Err(cause)) => cause == error,
        Answer::Id(Err(cause)) => cause == error,
        Answer::Ids(Err(cause)) => cause == error,
        Answer::Text(Err(cause)) => cause == error,
        Answer::Names(Err(cause)) => cause == error,
        Answer::Filerequest(Err(cause)) => cause == error,
        Answer::Filerequests(Err(cause)) => cause == error,
        Answer::Contact(Err(cause)) => cause == error,
        Answer::DisplayContact(Err(cause)) => cause == error,
        Answer::DisplayContacts(Err(cause)) => cause == error,
        Answer::RemoteFilerequest(Err(cause)) => cause == error,
        Answer::RemoteFilerequests(Err(cause)) => cause == error,
        Answer::PendingFile(Err(cause)) => cause == error,
        Answer::PendingFiles(Err(cause)) => cause == error,
        Answer::ReceivedFiles(Err(cause)) => cause == error,
        Answer::NodeStatus(Err(cause)) => cause == error,
        Answer::Settings(Err(cause)) => cause == error,
        _ => false,
    }
}

/// A request is refused before anything is done exactly where something is missing of it: who may
/// drop files, the contact, the keys that are readable, or the file request.
pub proof fn law_incomplete_requests_are_refused(request: ApiRequest)
    ensures
        crate::api_server::service::refusal(request) is Some <==> match request {
            ApiRequest::CreateFileRequest { access, .. } => !(access matches Some(access)
                && access.access is Some),
            ApiRequest::UpdateFileRequest { file_request } => !(file_request matches Some(proto)
                && proto.access matches Some(access) && access.access is Some),
            ApiRequest::UpdateContact { contact } => contact is None,
            ApiRequest::UpdateIdentity { self_contact } => !(self_contact matches Some(proto)
                && crate::domain_proto_conversion::decoded_self_contact(proto@) is Ok),
            ApiRequest::RegisterContact { sharable_contact } => !(sharable_contact matches Some(
                proto,
            ) && crate::domain_proto_conversion::decoded_shared_contact(proto@) is Ok),
            ApiRequest::StoreRemoteFileRequest { remote_file_request } => remote_file_request
                is None,
            ApiRequest::UpdateRemoteFileRequest { remote_file_request } => remote_file_request
                is None,
            _ => false,
        },
{
}

/// Only the version and the health are told without anybody being asked, and nothing else is done
/// for a request than what it asks for: the action is of its kind.
pub proof fn law_requests_are_what_they_say(
    request: ApiRequest,
    action: ClientAction,
    awaited: Awaited,
)
    requires
        crate::api_server::service::dispatches(request, action, awaited),
    ensures
        !(request is GetVersion) && !(request is HealthCheck),
        request is GetFileRequest <==> action is ReadFilerequest,
        request is CreateFileRequest <==> action is CreateFilerequest,
        request is UpdateFileRequest <==> action is UpdateFilerequest,
        request is DeleteFileRequest <==> action is DeleteFilerequest,
        request is GetAllFileRequests <==> action is ListFilerequests,
        request is GetContactName <==> action is GetContactName,
        request is GetContactNames <==> action is GetContactNames,
        request is GetContact <==> action is GetContact,
        request is GetAllContacts <==> action is ListContacts,
        request is UpdateContact <==> action is UpdateContact,
        request is DeleteContact <==> action is DeleteContact,
        request is RegisterContact <==> action is RegisterContact,
        request is GetFullSelfContact <==> action is GetFullSelfContact,
        request is GetSelfContactDisplay <==> action is GetSelfContactDisplay,
        request is SharePublicSelfContact <==> action is SharePublicSelfContact,
        request is UpdateSelfContactName <==> action is UpdateSelfContactName,
        request is UpdateIdentity <==> action is UpdateIdentity,
        request is StoreRemoteFileRequest <==> action is CreateRemoteFilerequest,
        request is GetRemoteFileRequest <==> action is GetRemoteFilerequest,
        request is ListRemoteFileRequests <==> action is GetRemoteFilerequestsByContact,
        request is GetAllRemoteFileRequests <==> action is GetAllRemoteFilerequests,
        request is UpdateRemoteFileRequest <==> action is UpdateRemoteFilerequest,
        request is DeleteRemoteFileRequest <==> action is DeleteRemoteFilerequest,
        request is StorePendingFile <==> action is CreatePendingFiles,
        request is GetPendingFile <==> action is GetPendingFile,
        request is ListPendingFiles <==> action is GetPendingFiles,
        request is GetAllPendingFiles <==> action is GetAllPendingFiles,
        request is DeletePendingFile <==> action is DeletePendingFile,
        request is ListReceivedFiles <==> action is ListReceivedFilesForRequest,
        request is DeleteReceivedFile <==> action is DeleteReceivedFile,
        request is WaitForReady <==> action is WaitForReady,
        request is BackupData <==> action is BackupData,
        request is RestoreData <==> action is RestoreData,
        request is UpdateSettings <==> action is UpdateSettings,
        request is GetSettings <==> action is GetSettings,
        request is GetNodeStatus <==> action is GetNodeStatus,
        request is GetNodePeerId <==> action is GetNodePeerId,
        request is Shutdown <==> action is Shutdown,
        request matches ApiRequest::RestoreData { backup_file_path } ==> (action
            matches ClientAction::RestoreData(uri) && uri.0@ == backup_file_path@),
        request matches ApiRequest::WaitForReady { ticket } ==> action
            == ClientAction::WaitForReady(ticket),
        request matches ApiRequest::UpdateIdentity { self_contact } ==> (action
            matches ClientAction::UpdateIdentity(contact) && self_contact matches Some(proto)
            && contact.id@ == proto.id@ && contact.name@ == proto.name@),
{
}

/// A request whose action nobody handles, or whose action is dropped without an answer, is answered
/// with an error and never as if it had been done; only of a backup that could not be asked for the
/// client is told that it was not made.
pub proof fn law_undelivered_requests_fail(
    awaited: Awaited,
    now_ms: u64,
    not_sent: Result<ApiResponse, Status>,
    unanswered: Result<ApiResponse, Status>,
)
    requires
        !(awaited is FullSelfContact),
        call_ensures(
            crate::api_server::service::finish,
            (awaited, crate::api_server::service::Delivery::NotSent, now_ms),
            not_sent,
        ),
        !(awaited is Backup) ==> call_ensures(
            crate::api_server::service::finish,
            (awaited, crate::api_server::service::Delivery::NoAnswer, now_ms),
            unanswered,
        ),
    ensures
        awaited is Backup ==> not_sent == Ok::<_, Status>(ApiResponse::Success(false)),
        !(awaited is Backup) ==> {
            &&& not_sent matches Err(status) && status.code == Code::Internal
            &&& unanswered matches Err(status) && status.code == (if awaited is Ready {
                Code::ResourceExhausted
            } else {
                Code::Internal
            })
        },
{
}

/// What a client is told of the version is that of the program, and of its health that it is well;
/// nobody is asked for either.
pub proof fn law_the_version_is_that_of_the_program(
    version: &str,
    on_version: Result<Begun, Status>,
    on_health: Result<Begun, Status>,
)
    requires
        call_ensures(
            crate::api_server::service::begin,
            (ApiRequest::GetVersion, version),
            on_version,
        ),
        call_ensures(
            crate::api_server::service::begin,
            (ApiRequest::HealthCheck, version),
            on_health,
        ),
    ensures
        on_version matches Ok(Begun::Answered(ApiResponse::Version(text))) && text@ == version@,
        on_health matches Ok(Begun::Answered(ApiResponse::Health { is_healthy, .. })) && is_healthy,
{
}

/// A request that is begun stands for the action that it says, or is answered at once, or is refused
/// where something is missing; and one that is finished is answered with what came of the action.
pub proof fn law_requests_are_served(
    request: ApiRequest,
    version: &str,
    begun: Result<Begun, Status>,
    awaited: Awaited,
    response: Response,
    now_ms: u64,
    told: Result<ApiResponse, Status>,
)
    requires
        call_ensures(crate::api_server::service::begin, (request, version), begun),
        call_ensures(
            crate::api_server::service::finish,
            (awaited, crate::api_server::service::Delivery::Answered(response), now_ms),
            told,
        ),
    ensures
        match begun {
            Ok(Begun::Dispatch(action, awaited)) => crate::api_server::service::dispatches(
                request,
                action,
                awaited,
            ),
            Ok(Begun::Answered(_)) => request is GetVersion || request is HealthCheck,
            Err(status) => crate::api_server::service::refusal(request) is Some && status.code
                == Code::InvalidArgument,
        },
        crate::api_server::service::answers(awaited, response, now_ms, told),
{
}

} // verus!
