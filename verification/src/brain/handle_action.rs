//! What follows from an action, and from what the service was waiting for.
use vstd::prelude::*;

use crate::brain::action::BrainAction;
use crate::brain::action_client::ClientAction;
use crate::brain::action_p2p::{
    FilerequestContinueRequest, FilerequestContinueResponse, NetworkNodeAction,
};
use crate::brain::error::{map_db, map_p2p, FilerequestError};
use crate::brain::exchange::{
    relay, Answer, DbCommand, DbReply, Effect, HostCommand, HostReply, NetworkCommand,
    NetworkReply, Query, Reply, Response,
};
use crate::brain::state::{AfterStatus, BrainState, EphemeralBrainData, Next, Step, Waiting};
use crate::brain::types::{ContactShareChallenge, SelfContactInviteChallenge};
use crate::crypto::{copy_bytes, ContactKeys, ContactPublicKeys};
use crate::db::{DatabaseResult, DbError, NodeInfo};
use crate::domain_models::{
    clone_file_infos, Contact, ContactId, CreateIncomingFile, CreatePendingFiles, FileInfo,
    Filerequest, FylesId, InProgress, InProgressSendStatus, PendingFile, ReceiveStatus,
    ReceivedFile, RemoteFilerequest, SelfContact, SendStatus,
};
use crate::filerequest_drive_handler::FilerequestDriveHandler;
use crate::io_controller::FileNamespace;
use crate::notification::Notification;
use crate::p2p::{
    FileToSend, KeypairGenerationError, NodeKeyPairBinary, NodeStatusInfo, P2pResult,
};
use crate::text::str_eq;
use crate::util::util::{generate_byte_challenge, CHALLENGE_LENGTH};
use crate::wire::{
    DatabaseRestoredFromBackup, Message, ReceivedContactShareOverNetwork,
    ReceivedSelfContactInviteOverNetwork, SelfContactInviteAcceptedOverNetwork, ServerMessage,
};

verus! {

// What the node has to send

/// The file request with the given id; the last one of them where several have it.
pub open spec fn remote_of(remotes: Seq<RemoteFilerequest>, id: Seq<char>) -> Option<
    RemoteFilerequest,
>
    decreases remotes.len(),
{
    if remotes.len() == 0 {
        None
    } else if remotes.last().id@ == id {
        Some(remotes.last())
    } else {
        remote_of(remotes.drop_last(), id)
    }
}

fn find_remote(remotes: &Vec<RemoteFilerequest>, id: &FylesId) -> (r: Option<usize>)
    ensures
        match r {
            Some(i) => i < remotes@.len() && remote_of(remotes@, id@) == Some(remotes@[i as int]),
            None => remote_of(remotes@, id@) is None,
        },
{
    let mut i: usize = remotes.len();
    assert(remotes@.take(i as int) =~= remotes@);
    while i > 0
        invariant
            i <= remotes@.len(),
            remote_of(remotes@, id@) == remote_of(remotes@.take(i as int), id@),
        decreases i,
    {
        assert(remotes@.take(i as int).drop_last() =~= remotes@.take(i - 1));
        if remotes[i - 1].id.same(id) {
            return Some(i - 1);
        }
        i = i - 1;
    }
    None
}

/// A file that was being sent when the node stopped counts as interrupted.
pub open spec fn interrupted(
    status: crate::domain_models::SendStatusView,
) -> crate::domain_models::SendStatusView {
    match status {
        crate::domain_models::SendStatusView::InProgress {
            status: InProgressSendStatus::Sending,
            transfer_data,
        } => crate::domain_models::SendStatusView::InProgress {
            status: InProgressSendStatus::Interrupted,
            transfer_data,
        },
        _ => status,
    }
}

/// What is left to do of a file when the node starts: nothing where it is done with, or where the
/// file request that it is for is not known.
pub open spec fn continued(file: PendingFile, remotes: Seq<RemoteFilerequest>) -> Option<
    crate::p2p::FileToSendView,
> {
    match remote_of(remotes, file.target_filerequest_id@) {
        Some(remote) => if file.status@.is_unfinished() {
            Some(
                crate::p2p::FileToSendView {
                    id: file.id@,
                    peer_id: remote.peer_id@,
                    contact_id: remote.contact_id@,
                    filerequest_id: remote.filerequest_id@,
                    file_path: file.file_path@,
                    retry_count: file.retry_count,
                    status: interrupted(file.status@),
                },
            )
        } else {
            None
        },
        None => None,
    }
}

/// The files that the network node goes on with when the node starts.
pub open spec fn files_to_continue(
    pending: Seq<PendingFile>,
    remotes: Seq<RemoteFilerequest>,
) -> Seq<crate::p2p::FileToSendView>
    decreases pending.len(),
{
    if pending.len() == 0 {
        Seq::empty()
    } else {
        let before = files_to_continue(pending.drop_last(), remotes);
        match continued(pending.last(), remotes) {
            Some(file) => before.push(file),
            None => before,
        }
    }
}

/// The files among them whose status changes, with their new status.
pub open spec fn files_to_reset(
    pending: Seq<PendingFile>,
    remotes: Seq<RemoteFilerequest>,
) -> Seq<(Seq<char>, crate::domain_models::SendStatusView)>
    decreases pending.len(),
{
    if pending.len() == 0 {
        Seq::empty()
    } else {
        let before = files_to_reset(pending.drop_last(), remotes);
        match continued(pending.last(), remotes) {
            Some(file) => if file.status != pending.last().status@ {
                before.push((file.id, file.status))
            } else {
                before
            },
            None => before,
        }
    }
}

pub open spec fn reset_views(resets: Seq<(FylesId, SendStatus)>) -> Seq<
    (Seq<char>, crate::domain_models::SendStatusView),
> {
    resets.map_values(|reset: (FylesId, SendStatus)| (reset.0@, reset.1@))
}

/// The status after a restart, and whether it is another one.
fn interrupt(status: &SendStatus) -> (r: (SendStatus, bool))
    ensures
        r.0@ == interrupted(status@),
        r.1 == (interrupted(status@) != status@),
{
    match status {
        SendStatus::InProgress(in_progress) => match in_progress.status {
            InProgressSendStatus::Sending => (
                SendStatus::InProgress(
                    InProgress {
                        status: InProgressSendStatus::Interrupted,
                        transfer_data: in_progress.transfer_data.clone(),
                    },
                ),
                true,
            ),
            _ => (status.clone(), false),
        },
        _ => (status.clone(), false),
    }
}

fn list_files_to_continue(pending: &Vec<PendingFile>, remotes: &Vec<RemoteFilerequest>) -> (r: (
    Vec<FileToSend>,
    Vec<(FylesId, SendStatus)>,
))
    ensures
        crate::domain_models::views(r.0@) == files_to_continue(pending@, remotes@),
        reset_views(r.1@) == files_to_reset(pending@, remotes@),
{
    let mut files: Vec<FileToSend> = Vec::new();
    let mut resets: Vec<(FylesId, SendStatus)> = Vec::new();
    let mut i: usize = 0;
    assert(crate::domain_models::views(files@) =~= files_to_continue(pending@.take(0), remotes@));
    assert(reset_views(resets@) =~= files_to_reset(pending@.take(0), remotes@));
    while i < pending.len()
        invariant
            i <= pending@.len(),
            crate::domain_models::views(files@) == files_to_continue(
                pending@.take(i as int),
                remotes@,
            ),
            reset_views(resets@) == files_to_reset(pending@.take(i as int), remotes@),
        decreases pending@.len() - i,
    {
        let ghost files_before = files@;
        let ghost resets_before = resets@;
        let file = &pending[i];
        assert(pending@.take(i + 1).drop_last() =~= pending@.take(i as int));
        assert(pending@.take(i + 1).last() == *file);
        let found = find_remote(remotes, &file.target_filerequest_id);
        if let Some(at) = found {
            if file.status.is_unfinished() {
                let remote = &remotes[at];
                let (status, changed) = interrupt(&file.status);
                if changed {
                    resets.push((file.id.clone(), status.clone()));
                    assert(reset_views(resets@) =~= reset_views(resets_before).push(
                        (file.id@, status@),
                    ));
                }
                let next = FileToSend {
                    id: file.id.clone(),
                    peer_id: remote.peer_id.clone(),
                    contact_id: remote.contact_id.clone(),
                    filerequest_id: remote.filerequest_id.clone(),
                    file_path: file.file_path.clone(),
                    retry_count: file.retry_count,
                    status,
                };
                assert(continued(*file, remotes@) == Some(next@));
                files.push(next);
                assert(crate::domain_models::views(files@) =~= crate::domain_models::views(
                    files_before,
                ).push(next@));
            }
        }
        i = i + 1;
    }
    assert(pending@.take(i as int) =~= pending@);
    (files, resets)
}

/// Files that were just stored, as the network node gets them.
pub open spec fn new_files_to_send(
    remote: RemoteFilerequest,
    ids: Seq<Seq<char>>,
    file_infos: Seq<FileInfo>,
) -> Seq<crate::p2p::FileToSendView> {
    let count = if ids.len() < file_infos.len() {
        ids.len()
    } else {
        file_infos.len()
    };
    Seq::new(
        count,
        |i: int|
            crate::p2p::FileToSendView {
                id: ids[i],
                peer_id: remote.peer_id@,
                contact_id: remote.contact_id@,
                filerequest_id: remote.filerequest_id@,
                file_path: file_infos[i].path@,
                retry_count: 0,
                status: crate::domain_models::SendStatusView::Pending,
            },
    )
}

fn list_new_files(remote: &RemoteFilerequest, ids: &Vec<FylesId>, file_infos: &Vec<FileInfo>) -> (r:
    Vec<FileToSend>)
    ensures
        crate::domain_models::views(r@) == new_files_to_send(
            *remote,
            crate::domain_models::views(ids@),
            file_infos@,
        ),
{
    let ghost meant = new_files_to_send(*remote, crate::domain_models::views(ids@), file_infos@);
    let mut files: Vec<FileToSend> = Vec::new();
    let mut i: usize = 0;
    while i < ids.len() && i < file_infos.len()
        invariant
            i <= ids@.len(),
            i <= file_infos@.len(),
            files@.len() == i,
            meant == new_files_to_send(*remote, crate::domain_models::views(ids@), file_infos@),
            forall|j: int| 0 <= j < i ==> (#[trigger] files@[j])@ == meant[j],
        decreases ids@.len() - i,
    {
        files.push(
            FileToSend {
                id: ids[i].clone(),
                peer_id: remote.peer_id.clone(),
                contact_id: remote.contact_id.clone(),
                filerequest_id: remote.filerequest_id.clone(),
                file_path: file_infos[i].path.clone(),
                retry_count: 0,
                status: SendStatus::Pending,
            },
        );
        i = i + 1;
    }
    assert(crate::domain_models::views(files@) =~= meant);
    files
}

// Decisions

/// Whether a transfer may be continued: the request is active and open to whoever asks, and it is
/// the same peer with the same contact that started the transfer.
pub open spec fn may_continue(
    filerequest: crate::domain_models::FilerequestView,
    file: crate::domain_models::ReceivedFileView,
    request: FilerequestContinueRequest,
) -> bool {
    &&& filerequest.is_active
    &&& filerequest.access.admits(crate::domain_models::opt_view(request.contact_id))
    &&& file.peer_id == request.peer_id@
    &&& file.contact_id == crate::domain_models::opt_view(request.contact_id)
}

fn same_contact(a: &Option<ContactId>, b: &Option<ContactId>) -> (r: bool)
    ensures
        r == (crate::domain_models::opt_view(*a) == crate::domain_models::opt_view(*b)),
{
    match (a, b) {
        (Some(a), Some(b)) => a.same(b),
        (None, None) => true,
        _ => false,
    }
}

/// The settings, or none where they cannot be read.
pub open spec fn settings_or_none(result: DatabaseResult<Vec<u8>>) -> Seq<u8> {
    match result {
        Ok(settings) => settings@,
        Err(_) => Seq::empty(),
    }
}

/// The record of a file that is about to be received.
pub open spec fn new_received_file(id: FylesId, incoming: CreateIncomingFile) -> ReceivedFile {
    ReceivedFile {
        id,
        filerequest_id: incoming.filerequest_id,
        transfer_id: Some(incoming.transfer_id),
        contact_id: incoming.contact_id,
        peer_id: incoming.peer_id,
        file_name: incoming.file_name,
        file_path: None,
        file_size_bytes: incoming.file_size_bytes,
        progress_bytes: 0,
        status: ReceiveStatus::Receiving,
        started_at_ms: incoming.started_at_ms,
        received_at_ms: None,
    }
}

/// The node is ready: those who waited are told, and the network node gets its files.
pub open spec fn hands_over(
    before: crate::brain::state::EphemeralView,
    after: crate::brain::state::EphemeralView,
    files: Seq<crate::p2p::FileToSendView>,
    step: Step,
) -> bool {
    &&& after == crate::brain::state::EphemeralView {
        successfully_started: true,
        waiting: None,
        ..before
    }
    &&& step.effects@.len() == 1
    &&& step.effects@[0] matches Effect::AnswerWaiters(tickets)
    &&& tickets@ == match before.waiting {
        Some(waiting) => waiting.tickets,
        None => Seq::<u64>::empty(),
    }
    &&& step.next matches Next::Await(query, state)
    &&& query matches Query::Network(NetworkCommand::InitialFilesToSend(list))
    &&& crate::domain_models::views(list@) == files
    &&& state == BrainState::StartHandedOver
}

/// Marks the next file as interrupted, or hands over the files if none is left to mark.
fn start_or_reset(
    ephemeral: &mut EphemeralBrainData,
    files: Vec<FileToSend>,
    resets: Vec<(FylesId, SendStatus)>,
    at: usize,
) -> (r: Step)
    ensures
        r.is_consistent(),
        at < resets@.len() ==> {
            &&& final(ephemeral)@ == old(ephemeral)@
            &&& r.asks(
                Query::Db(
                    DbCommand::UpdatePendingFileStatus {
                        id: resets@[at as int].0,
                        status: resets@[at as int].1,
                        retry_count: None,
                    },
                ),
                BrainState::FilesReset { files, resets, done: at },
            )
        },
        at >= resets@.len() ==> hands_over(
            old(ephemeral)@,
            final(ephemeral)@,
            crate::domain_models::views(files@),
            r,
        ),
{
    if at < resets.len() {
        let id = resets[at].0.clone();
        let status = resets[at].1.clone();
        return Step::ask(
            Query::Db(DbCommand::UpdatePendingFileStatus { id, status, retry_count: None }),
            BrainState::FilesReset { files, resets, done: at },
        );
    }
    let tickets = ephemeral.become_ready();
    Step::after(
        vec![Effect::AnswerWaiters(tickets)],
        Query::Network(NetworkCommand::InitialFilesToSend(files)),
        BrainState::StartHandedOver,
    )
}

/// The new status of a file to send is stored before anything else happens.
pub open spec fn status_is_stored(
    id: FylesId,
    status: SendStatus,
    retry_count: Option<usize>,
    reason: Option<String>,
    then_do: AfterStatus,
    step: Step,
) -> bool {
    step.asks(
        Query::Db(DbCommand::UpdatePendingFileStatus { id, status, retry_count }),
        BrainState::StatusStored { id, status, reason, then_do },
    )
}

fn store_status(
    id: FylesId,
    status: SendStatus,
    retry_count: Option<usize>,
    reason: Option<String>,
    then_do: AfterStatus,
) -> (r: Step)
    ensures
        status_is_stored(id, status, retry_count, reason, then_do, r),
        r.is_consistent(),
{
    Step::ask(
        Query::Db(
            DbCommand::UpdatePendingFileStatus {
                id: id.clone(),
                status: status.clone(),
                retry_count,
            },
        ),
        BrainState::StatusStored { id, status, reason, then_do },
    )
}

/// A device that knows a valid invite is given the identity of the node; any other one is not.
pub open spec fn invite_is_checked(confirmed: bool, step: Step) -> bool {
    if confirmed {
        step.asks(Query::Db(DbCommand::GetSelfContact), BrainState::InviteConfirmed)
    } else {
        step.responds(Response::SelfContact(None))
    }
}

/// What follows from whether an invite is valid.
pub fn check_invite(confirmed: bool) -> (r: Step)
    ensures
        invite_is_checked(confirmed, r),
        r.is_consistent(),
{
    if confirmed {
        Step::ask(Query::Db(DbCommand::GetSelfContact), BrainState::InviteConfirmed)
    } else {
        Step::respond(Response::SelfContact(None))
    }
}

/// A device that knows a valid challenge is given the contact of the node; any other one is not.
pub open spec fn share_is_checked(confirmed: bool, step: Step) -> bool {
    if confirmed {
        step.asks(Query::Db(DbCommand::GetSharablePublicSelfContact), BrainState::ShareConfirmed)
    } else {
        step.responds(Response::Contact(None))
    }
}

/// What follows from whether a contact share challenge is valid.
pub fn check_share(confirmed: bool) -> (r: Step)
    ensures
        share_is_checked(confirmed, r),
        r.is_consistent(),
{
    if confirmed {
        Step::ask(Query::Db(DbCommand::GetSharablePublicSelfContact), BrainState::ShareConfirmed)
    } else {
        Step::respond(Response::Contact(None))
    }
}

// What follows from a reply

/// The answer of the store is the answer to the client.
pub open spec fn after_relay(reply: DbReply, step: Step) -> bool {
    step.responds(Response::Answer(crate::brain::exchange::relayed(reply)))
}

fn on_relay(reply: DbReply) -> (r: Step)
    ensures
        after_relay(reply, r),
        r.is_consistent(),
{
    Step::respond(Response::Answer(relay(reply)))
}

/// The answer of the network node is the answer to the client.
pub open spec fn after_relay_status(result: P2pResult<NodeStatusInfo>, step: Step) -> bool {
    step.responds(Response::Answer(Answer::NodeStatus(crate::brain::error::of_p2p(result))))
}

fn on_relay_status(result: P2pResult<NodeStatusInfo>) -> (r: Step)
    ensures
        after_relay_status(result, r),
        r.is_consistent(),
{
    Step::respond(Response::Answer(Answer::NodeStatus(map_p2p(result))))
}

/// A file request is being stored; its directory is next.
pub open spec fn after_filerequest_stored(
    title: String,
    result: DatabaseResult<FylesId>,
    separator: char,
    step: Step,
) -> bool {
    match result {
        Err(error) => step.responds(
            Response::Answer(Answer::Id(Err(FilerequestError::DatabaseError(error)))),
        ),
        Ok(id) => {
            &&& step.effects@ == Seq::<Effect>::empty()
            &&& step.next matches Next::Await(query, state)
            &&& query matches Query::Host(HostCommand::CreateFilerequestResource(directory))
            &&& directory@ == (crate::io_controller::NamespaceView {
                names: seq![
                    crate::filerequest_drive_handler::dir_name_for(id@, title@, separator),
                ],
                is_file: false,
            })
            &&& state == BrainState::DirectoryCreated { id }
        },
    }
}

fn on_filerequest_stored(
    title: String,
    result: DatabaseResult<FylesId>,
    separator: char,
) -> (r: Step)
    ensures
        after_filerequest_stored(title, result, separator, r),
        r.is_consistent(),
{
    match result {
        Err(error) => Step::respond(
            Response::Answer(Answer::Id(Err(FilerequestError::DatabaseError(error)))),
        ),
        Ok(id) => {
            let directory = FilerequestDriveHandler::name_for(&id, &title, separator);
            Step::ask(
                Query::Host(
                    HostCommand::CreateFilerequestResource(FileNamespace::directory(directory)),
                ),
                BrainState::DirectoryCreated { id },
            )
        },
    }
}

/// The directory of a new file request is being created.
pub open spec fn after_directory_created(id: FylesId, result: HostReply, step: Step) -> bool {
    match result {
        Ok(()) => step.responds(Response::Answer(Answer::Id(Ok(id)))),
        Err(_) => step.asks(
            Query::Db(DbCommand::DeleteFilerequest(id)),
            BrainState::CreationRolledBack,
        ),
    }
}

fn on_directory_created(id: FylesId, result: HostReply) -> (r: Step)
    ensures
        after_directory_created(id, result, r),
        r.is_consistent(),
{
    match result {
        Ok(()) => Step::respond(Response::Answer(Answer::Id(Ok(id)))),
        Err(_) => Step::ask(
            Query::Db(DbCommand::DeleteFilerequest(id)),
            BrainState::CreationRolledBack,
        ),
    }
}

/// A file request without a directory is being deleted again.
pub open spec fn after_creation_rolled_back(result: DatabaseResult<()>, step: Step) -> bool {
    step.responds_with_id_error(
        "Unable to create Filerequest because directory cannot be created"@,
    )
}

fn on_creation_rolled_back(result: DatabaseResult<()>) -> (r: Step)
    ensures
        after_creation_rolled_back(result, r),
        r.is_consistent(),
{
    let msg = "Unable to create Filerequest because directory cannot be created".to_owned();
    Step::respond(
        Response::Answer(Answer::Id(Err(FilerequestError::GenericError { msg, source: None }))),
    )
}

/// The file request that is to be changed is being read.
pub open spec fn after_filerequest_read(
    update: Filerequest,
    result: DatabaseResult<Filerequest>,
    separator: char,
    step: Step,
) -> bool {
    match result {
        Err(error) => step.responds(
            Response::Answer(Answer::Unit(Err(FilerequestError::DatabaseError(error)))),
        ),
        Ok(filerequest) => if filerequest.title@ == update.title@ {
            step.asks(Query::Db(DbCommand::UpdateFilerequest(update)), BrainState::Relay)
        } else if crate::filerequest_drive_handler::sanitized(
            update.title@,
            crate::filerequest_drive_handler::is_windows(separator),
        ).len() == 0 {
            step.responds_with_unit_error(
                "Unable to rename Filerequest because directory cannot be renamed"@,
            )
        } else {
            &&& step.effects@ == Seq::<Effect>::empty()
            &&& step.next matches Next::Await(query, state)
            &&& query matches Query::Host(HostCommand::RenameResource { from, to })
            &&& from@ == (crate::io_controller::NamespaceView {
                names: seq![
                    crate::filerequest_drive_handler::safe_dir_name(filerequest@, separator),
                ],
                is_file: false,
            })
            &&& to@ == (crate::io_controller::NamespaceView {
                names: seq![
                    crate::filerequest_drive_handler::dir_name_for(
                        filerequest.id@,
                        update.title@,
                        separator,
                    ),
                ],
                is_file: false,
            })
            &&& state == BrainState::DirectoryRenamed { update }
        },
    }
}

fn on_filerequest_read(
    update: Filerequest,
    result: DatabaseResult<Filerequest>,
    separator: char,
) -> (r: Step)
    ensures
        after_filerequest_read(update, result, separator, r),
        r.is_consistent(),
{
    let filerequest = match result {
        Ok(filerequest) => filerequest,
        Err(error) => return Step::respond(
            Response::Answer(Answer::Unit(Err(FilerequestError::DatabaseError(error)))),
        ),
    };
    if filerequest.title == update.title {
        return Step::ask(Query::Db(DbCommand::UpdateFilerequest(update)), BrainState::Relay);
    }
    let handler = FilerequestDriveHandler::with_separator(&filerequest, separator);
    match handler.rename_filerquest(&update.title) {
        Ok((from, to)) => Step::ask(
            Query::Host(HostCommand::RenameResource { from, to }),
            BrainState::DirectoryRenamed { update },
        ),
        Err(()) => {
            let msg = "Unable to rename Filerequest because directory cannot be renamed".to_owned();
            Step::respond(
                Response::Answer(
                    Answer::Unit(Err(FilerequestError::GenericError { msg, source: None })),
                ),
            )
        },
    }
}

/// The directory of a file request is being renamed.
pub open spec fn after_directory_renamed(
    update: Filerequest,
    result: HostReply,
    step: Step,
) -> bool {
    match result {
        Ok(()) => step.asks(
            Query::Db(DbCommand::UpdateFilerequest(update)),
            BrainState::Relay,
        ),
        Err(_) => step.responds_with_unit_error(
            "Unable to rename Filerequest because directory cannot be renamed"@,
        ),
    }
}

fn on_directory_renamed(update: Filerequest, result: HostReply) -> (r: Step)
    ensures
        after_directory_renamed(update, result, r),
        r.is_consistent(),
{
    match result {
        Ok(()) => Step::ask(Query::Db(DbCommand::UpdateFilerequest(update)), BrainState::Relay),
        Err(_) => {
            let msg = "Unable to rename Filerequest because directory cannot be renamed".to_owned();
            Step::respond(
                Response::Answer(
                    Answer::Unit(Err(FilerequestError::GenericError { msg, source: None })),
                ),
            )
        },
    }
}

/// The file request of another that is to be deleted is being read.
pub open spec fn after_remote_request_read(
    id: FylesId,
    result: DatabaseResult<RemoteFilerequest>,
    step: Step,
) -> bool {
    match result {
        Err(error) => step.responds(
            Response::Answer(Answer::Flag(Err(FilerequestError::DatabaseError(error)))),
        ),
        Ok(remote) => step.asks(
            Query::Network(
                NetworkCommand::CancelFilesForRemoteFilerequest {
                    target_filerequest_id: remote.filerequest_id,
                    peer_id: remote.peer_id,
                },
            ),
            BrainState::FilesCancelled { id },
        ),
    }
}

fn on_remote_request_read(id: FylesId, result: DatabaseResult<RemoteFilerequest>) -> (r: Step)
    ensures
        after_remote_request_read(id, result, r),
        r.is_consistent(),
{
    match result {
        Err(error) => Step::respond(
            Response::Answer(Answer::Flag(Err(FilerequestError::DatabaseError(error)))),
        ),
        Ok(remote) => Step::ask(
            Query::Network(
                NetworkCommand::CancelFilesForRemoteFilerequest {
                    target_filerequest_id: remote.filerequest_id,
                    peer_id: remote.peer_id,
                },
            ),
            BrainState::FilesCancelled { id },
        ),
    }
}

/// The files for a file request that is to be deleted are being cancelled.
pub open spec fn after_files_cancelled(id: FylesId, result: P2pResult<bool>, step: Step) -> bool {
    match result {
        Err(error) => step.responds(
            Response::Answer(Answer::Flag(Err(FilerequestError::P2pNodeError(error)))),
        ),
        Ok(_) => step.asks(
            Query::Db(DbCommand::DeleteRemoteFilerequest(id)),
            BrainState::RemoteRequestDeleted,
        ),
    }
}

fn on_files_cancelled(id: FylesId, result: P2pResult<bool>) -> (r: Step)
    ensures
        after_files_cancelled(id, result, r),
        r.is_consistent(),
{
    match result {
        Err(error) => Step::respond(
            Response::Answer(Answer::Flag(Err(FilerequestError::P2pNodeError(error)))),
        ),
        Ok(_) => Step::ask(
            Query::Db(DbCommand::DeleteRemoteFilerequest(id)),
            BrainState::RemoteRequestDeleted,
        ),
    }
}

/// The file request of another is being deleted.
pub open spec fn after_remote_request_deleted(result: DatabaseResult<()>, step: Step) -> bool {
    match result {
        Err(error) => step.responds(
            Response::Answer(Answer::Flag(Err(FilerequestError::DatabaseError(error)))),
        ),
        Ok(()) => step.responds(Response::Answer(Answer::Flag(Ok(true)))),
    }
}

fn on_remote_request_deleted(result: DatabaseResult<()>) -> (r: Step)
    ensures
        after_remote_request_deleted(result, r),
        r.is_consistent(),
{
    match result {
        Err(error) => Step::respond(
            Response::Answer(Answer::Flag(Err(FilerequestError::DatabaseError(error)))),
        ),
        Ok(()) => Step::respond(Response::Answer(Answer::Flag(Ok(true)))),
    }
}

/// The file request that files are for is being read.
pub open spec fn after_target_read(
    files: CreatePendingFiles,
    result: DatabaseResult<RemoteFilerequest>,
    step: Step,
) -> bool {
    match result {
        Err(_) => {
            &&& step.next is Done
            &&& step.effects@.len() == 1
            &&& step.effects@[0] matches Effect::Respond(Response::Answer(Answer::Ids(Err(error))))
            &&& error matches FilerequestError::InputError(message)
            &&& message@ == "No filerequest known with id "@ + files.target_filerequest_id@
        },
        Ok(remote) => {
            &&& step.effects@ == Seq::<Effect>::empty()
            &&& step.next matches Next::Await(query, state)
            &&& query == Query::Db(DbCommand::CreatePendingFiles(files))
            &&& state matches BrainState::FilesStored { remote: kept, file_infos }
            &&& kept == remote
            &&& file_infos@ == files.file_infos@
        },
    }
}

fn on_target_read(files: CreatePendingFiles, result: DatabaseResult<RemoteFilerequest>) -> (r: Step)
    ensures
        after_target_read(files, result, r),
        r.is_consistent(),
{
    match result {
        Err(_) => {
            let message = "No filerequest known with id ".to_owned().concat(
                files.target_filerequest_id.0.as_str(),
            );
            Step::respond(
                Response::Answer(Answer::Ids(Err(FilerequestError::InputError(message)))),
            )
        },
        Ok(remote) => {
            let file_infos = clone_file_infos(&files.file_infos);
            Step::ask(
                Query::Db(DbCommand::CreatePendingFiles(files)),
                BrainState::FilesStored { remote, file_infos },
            )
        },
    }
}

/// Files to send are being stored.
pub open spec fn after_files_stored(
    remote: RemoteFilerequest,
    file_infos: Vec<FileInfo>,
    result: DatabaseResult<Vec<FylesId>>,
    step: Step,
) -> bool {
    match result {
        Err(error) => step.responds(
            Response::Answer(Answer::Ids(Err(FilerequestError::DatabaseError(error)))),
        ),
        Ok(ids) => {
            &&& step.effects@ == Seq::<Effect>::empty()
            &&& step.next matches Next::Await(query, state)
            &&& query matches Query::Network(NetworkCommand::SendFiles(files))
            &&& crate::domain_models::views(files@) == new_files_to_send(
                remote,
                crate::domain_models::views(ids@),
                file_infos@,
            )
            &&& state == BrainState::FilesHandedOver { ids }
        },
    }
}

fn on_files_stored(
    remote: RemoteFilerequest,
    file_infos: Vec<FileInfo>,
    result: DatabaseResult<Vec<FylesId>>,
) -> (r: Step)
    ensures
        after_files_stored(remote, file_infos, result, r),
        r.is_consistent(),
{
    match result {
        Err(error) => Step::respond(
            Response::Answer(Answer::Ids(Err(FilerequestError::DatabaseError(error)))),
        ),
        Ok(ids) => {
            let files = list_new_files(&remote, &ids, &file_infos);
            Step::ask(
                Query::Network(NetworkCommand::SendFiles(files)),
                BrainState::FilesHandedOver { ids },
            )
        },
    }
}

/// New files to send are being handed to the network node.
pub open spec fn after_files_handed_over(
    ids: Vec<FylesId>,
    result: P2pResult<()>,
    step: Step,
) -> bool {
    step.responds(Response::Answer(Answer::Ids(Ok(ids))))
}

fn on_files_handed_over(ids: Vec<FylesId>, result: P2pResult<()>) -> (r: Step)
    requires
        result is Ok,
    ensures
        after_files_handed_over(ids, result, r),
        r.is_consistent(),
{
    Step::respond(Response::Answer(Answer::Ids(Ok(ids))))
}

/// The file that is to be deleted is being read.
pub open spec fn after_pending_file_read(
    id: FylesId,
    result: DatabaseResult<PendingFile>,
    step: Step,
) -> bool {
    match result {
        Err(error) => step.responds(
            Response::Answer(Answer::Unit(Err(FilerequestError::DatabaseError(error)))),
        ),
        Ok(file) => if file.status@.is_unfinished() {
            step.asks(
                Query::Network(NetworkCommand::CancelFile(id)),
                BrainState::PendingFileCancelled { id },
            )
        } else {
            step.asks(Query::Db(DbCommand::DeletePendingFile(id)), BrainState::Relay)
        },
    }
}

fn on_pending_file_read(id: FylesId, result: DatabaseResult<PendingFile>) -> (r: Step)
    ensures
        after_pending_file_read(id, result, r),
        r.is_consistent(),
{
    match result {
        Err(error) => Step::respond(
            Response::Answer(Answer::Unit(Err(FilerequestError::DatabaseError(error)))),
        ),
        Ok(file) => if file.status.is_unfinished() {
            Step::ask(
                Query::Network(NetworkCommand::CancelFile(id.clone())),
                BrainState::PendingFileCancelled { id },
            )
        } else {
            Step::ask(Query::Db(DbCommand::DeletePendingFile(id)), BrainState::Relay)
        },
    }
}

/// The transfer of a file that is to be deleted is being cancelled.
pub open spec fn after_pending_file_cancelled(
    id: FylesId,
    result: P2pResult<bool>,
    step: Step,
) -> bool {
    match result {
        Ok(true) => step.asks(Query::Db(DbCommand::DeletePendingFile(id)), BrainState::Relay),
        Ok(false) => step.asks(
            Query::Db(DbCommand::DeletePendingFile(id)),
            BrainState::OrphanDeleted,
        ),
        Err(error) => step.responds_with_validation_error(
            "Failed to cancel file transfer: "@ + error.text(),
        ),
    }
}

fn on_pending_file_cancelled(id: FylesId, result: P2pResult<bool>) -> (r: Step)
    ensures
        after_pending_file_cancelled(id, result, r),
        r.is_consistent(),
{
    match result {
        Ok(true) => Step::ask(Query::Db(DbCommand::DeletePendingFile(id)), BrainState::Relay),
        Ok(false) => Step::ask(
            Query::Db(DbCommand::DeletePendingFile(id)),
            BrainState::OrphanDeleted,
        ),
        Err(error) => {
            let message = "Failed to cancel file transfer: ".to_owned().concat(
                error.to_text().as_str(),
            );
            Step::respond(
                Response::Answer(
                    Answer::Unit(
                        Err(FilerequestError::DatabaseError(DbError::Validation { message })),
                    ),
                ),
            )
        },
    }
}

/// A file that the network node does not know is being deleted.
pub open spec fn after_orphan_deleted(result: DatabaseResult<()>, step: Step) -> bool {
    step.responds_with_validation_error("File exists in DB but not in P2P node"@)
}

fn on_orphan_deleted(result: DatabaseResult<()>) -> (r: Step)
    ensures
        after_orphan_deleted(result, r),
        r.is_consistent(),
{
    let message = "File exists in DB but not in P2P node".to_owned();
    Step::respond(
        Response::Answer(
            Answer::Unit(Err(FilerequestError::DatabaseError(DbError::Validation { message }))),
        ),
    )
}

/// The keys of the node are being read to tell its identifier.
pub open spec fn after_keys_read(result: DatabaseResult<NodeInfo>, step: Step) -> bool {
    match result {
        Err(error) => step.responds(
            Response::Answer(Answer::Text(Err(FilerequestError::DatabaseError(error)))),
        ),
        Ok(keys) => step.asks(
            Query::Network(NetworkCommand::DisplayKeypair(keys.node_key_pair)),
            BrainState::KeypairDisplayed,
        ),
    }
}

fn on_keys_read(result: DatabaseResult<NodeInfo>) -> (r: Step)
    ensures
        after_keys_read(result, r),
        r.is_consistent(),
{
    match result {
        Err(error) => Step::respond(
            Response::Answer(Answer::Text(Err(FilerequestError::DatabaseError(error)))),
        ),
        Ok(keys) => Step::ask(
            Query::Network(NetworkCommand::DisplayKeypair(keys.node_key_pair)),
            BrainState::KeypairDisplayed,
        ),
    }
}

/// The network node tells the identifier that belongs to its keys.
pub open spec fn after_keypair_displayed(result: Result<String, String>, step: Step) -> bool {
    match result {
        Ok(peer_id) => step.responds(Response::Answer(Answer::Text(Ok(peer_id)))),
        Err(cause) => {
            &&& step.next is Done
            &&& step.effects@.len() == 1
            &&& step.effects@[0] matches Effect::Respond(Response::Answer(Answer::Text(Err(error))))
            &&& error matches FilerequestError::GenericError { msg, source }
            &&& msg@ == "Failed to extract peer Id"@
            &&& source == Some(cause)
        },
    }
}

fn on_keypair_displayed(result: Result<String, String>) -> (r: Step)
    ensures
        after_keypair_displayed(result, r),
        r.is_consistent(),
{
    match result {
        Ok(peer_id) => Step::respond(Response::Answer(Answer::Text(Ok(peer_id)))),
        Err(cause) => {
            let msg = "Failed to extract peer Id".to_owned();
            Step::respond(
                Response::Answer(
                    Answer::Text(
                        Err(FilerequestError::GenericError { msg, source: Some(cause) }),
                    ),
                ),
            )
        },
    }
}

/// A new identity is being stored; the network node is told in any case.
pub open spec fn after_identity_stored(
    contact_id: ContactId,
    keys: ContactKeys,
    result: DatabaseResult<()>,
    step: Step,
) -> bool {
    step.asks(
        Query::Network(NetworkCommand::UpdateIdentity { contact_id, keys }),
        BrainState::IdentityAnnounced { stored: result },
    )
}

fn on_identity_stored(
    contact_id: ContactId,
    keys: ContactKeys,
    result: DatabaseResult<()>,
) -> (r: Step)
    ensures
        after_identity_stored(contact_id, keys, result, r),
        r.is_consistent(),
{
    Step::ask(
        Query::Network(NetworkCommand::UpdateIdentity { contact_id, keys }),
        BrainState::IdentityAnnounced { stored: result },
    )
}

/// The network node is being told of a new identity.
pub open spec fn after_identity_announced(stored: DatabaseResult<()>, step: Step) -> bool {
    step.responds(Response::Answer(Answer::Unit(crate::brain::error::of_db(stored))))
}

fn on_identity_announced(stored: DatabaseResult<()>) -> (r: Step)
    ensures
        after_identity_announced(stored, r),
        r.is_consistent(),
{
    Step::respond(Response::Answer(Answer::Unit(map_db(stored))))
}

/// The host opens a file for a backup.
pub open spec fn after_backup_file_opened(result: HostReply, step: Step) -> bool {
    match result {
        Err(source) => step.responds(
            Response::Answer(Answer::Unit(Err(FilerequestError::HostError { source }))),
        ),
        Ok(()) => step.asks(Query::Db(DbCommand::BackupDatabase), BrainState::Relay),
    }
}

fn on_backup_file_opened(result: HostReply) -> (r: Step)
    ensures
        after_backup_file_opened(result, r),
        r.is_consistent(),
{
    match result {
        Err(source) => Step::respond(
            Response::Answer(Answer::Unit(Err(FilerequestError::HostError { source }))),
        ),
        Ok(()) => Step::ask(Query::Db(DbCommand::BackupDatabase), BrainState::Relay),
    }
}

/// The host opens a backup.
pub open spec fn after_backup_accessed(result: HostReply, step: Step) -> bool {
    match result {
        Err(source) => step.responds(
            Response::Answer(Answer::Unit(Err(FilerequestError::HostError { source }))),
        ),
        Ok(()) => step.asks(Query::Db(DbCommand::RestoreDatabase), BrainState::DatabaseRestored),
    }
}

fn on_backup_accessed(result: HostReply) -> (r: Step)
    ensures
        after_backup_accessed(result, r),
        r.is_consistent(),
{
    match result {
        Err(source) => Step::respond(
            Response::Answer(Answer::Unit(Err(FilerequestError::HostError { source }))),
        ),
        Ok(()) => Step::ask(Query::Db(DbCommand::RestoreDatabase), BrainState::DatabaseRestored),
    }
}

/// The store is being replaced by a backup.
pub open spec fn after_database_restored(result: DatabaseResult<()>, step: Step) -> bool {
    match result {
        Err(error) => step.responds(
            Response::Answer(Answer::Unit(Err(FilerequestError::DatabaseError(error)))),
        ),
        Ok(()) => {
            &&& step.next is Done
            &&& step.effects@ == seq![
                Effect::Respond(Response::Answer(Answer::Unit(Ok(())))),
                Effect::Push(
                    ServerMessage {
                        message: Some(
                            Message::DatabaseRestoredFromBackup(DatabaseRestoredFromBackup {  }),
                        ),
                    },
                ),
            ]
        },
    }
}

fn on_database_restored(result: DatabaseResult<()>) -> (r: Step)
    ensures
        after_database_restored(result, r),
        r.is_consistent(),
{
    match result {
        Err(error) => Step::respond(
            Response::Answer(Answer::Unit(Err(FilerequestError::DatabaseError(error)))),
        ),
        Ok(()) => Step {
            effects: vec![
                Effect::Respond(Response::Answer(Answer::Unit(Ok(())))),
                Effect::Push(ServerMessage::database_restored()),
            ],
            next: Next::Done,
        },
    }
}

/// The network node applies settings, which are stored only if it accepts them.
pub open spec fn after_settings_applied(
    settings: Vec<u8>,
    result: P2pResult<()>,
    step: Step,
) -> bool {
    match result {
        Err(error) => step.responds(
            Response::Answer(Answer::Unit(Err(FilerequestError::P2pNodeError(error)))),
        ),
        Ok(()) => step.asks(Query::Db(DbCommand::StoreSettings(settings)), BrainState::Relay),
    }
}

fn on_settings_applied(settings: Vec<u8>, result: P2pResult<()>) -> (r: Step)
    ensures
        after_settings_applied(settings, result, r),
        r.is_consistent(),
{
    match result {
        Err(error) => Step::respond(
            Response::Answer(Answer::Unit(Err(FilerequestError::P2pNodeError(error)))),
        ),
        Ok(()) => Step::ask(Query::Db(DbCommand::StoreSettings(settings)), BrainState::Relay),
    }
}

/// The network node offers a challenge to another device.
pub open spec fn after_challenge_used(step: Step) -> bool {
    step.responds(Response::Done)
}

fn on_challenge_used() -> (r: Step)
    ensures
        after_challenge_used(r),
        r.is_consistent(),
{
    Step::respond(Response::Done)
}

/// The file request that somebody wants to drop a file for is being read.
pub open spec fn after_drop_request_read(
    contact_id: Option<ContactId>,
    result: DatabaseResult<Filerequest>,
    separator: char,
    step: Step,
) -> bool {
    match result {
        Err(_) => step.responds(Response::FileDrop(None)),
        Ok(filerequest) => if !filerequest.is_active {
            step.responds(Response::FileDrop(None))
        } else if filerequest.access@.admits(crate::domain_models::opt_view(contact_id)) {
            step.grants_drop(filerequest@, separator)
        } else {
            match contact_id {
                None => step.responds(Response::FileDrop(None)),
                Some(contact_id) => step.asks(
                    Query::Db(DbCommand::GetSelfContact),
                    BrainState::DropSelfRead { filerequest, contact_id },
                ),
            }
        },
    }
}

fn on_drop_request_read(
    contact_id: Option<ContactId>,
    result: DatabaseResult<Filerequest>,
    separator: char,
) -> (r: Step)
    ensures
        after_drop_request_read(contact_id, result, separator, r),
        r.is_consistent(),
{
    let filerequest = match result {
        Ok(filerequest) => filerequest,
        Err(_) => return Step::respond(Response::FileDrop(None)),
    };
    if !filerequest.is_active {
        return Step::respond(Response::FileDrop(None));
    }
    if filerequest.access.is_accessible_by(contact_id.clone()) {
        let handler = FilerequestDriveHandler::with_separator(&filerequest, separator);
        return Step::respond(Response::FileDrop(Some(handler)));
    }
    match contact_id {
        None => Step::respond(Response::FileDrop(None)),
        Some(contact_id) => Step::ask(
            Query::Db(DbCommand::GetSelfContact),
            BrainState::DropSelfRead { filerequest, contact_id },
        ),
    }
}

/// Somebody who is not admitted may drop a file if it is the owner of the node.
pub open spec fn after_drop_self_read(
    filerequest: Filerequest,
    contact_id: ContactId,
    result: DatabaseResult<SelfContact>,
    separator: char,
    step: Step,
) -> bool {
    match result {
        Ok(own) => if own.id@ == contact_id@ {
            step.grants_drop(filerequest@, separator)
        } else {
            step.responds(Response::FileDrop(None))
        },
        Err(_) => step.responds(Response::FileDrop(None)),
    }
}

fn on_drop_self_read(
    filerequest: Filerequest,
    contact_id: ContactId,
    result: DatabaseResult<SelfContact>,
    separator: char,
) -> (r: Step)
    ensures
        after_drop_self_read(filerequest, contact_id, result, separator, r),
        r.is_consistent(),
{
    match result {
        Ok(own) => if own.id.same(&contact_id) {
            let handler = FilerequestDriveHandler::with_separator(&filerequest, separator);
            Step::respond(Response::FileDrop(Some(handler)))
        } else {
            Step::respond(Response::FileDrop(None))
        },
        Err(_) => Step::respond(Response::FileDrop(None)),
    }
}

/// The transfer that a peer wants to continue is being read.
pub open spec fn after_transfer_read(
    request: FilerequestContinueRequest,
    result: DatabaseResult<ReceivedFile>,
    step: Step,
) -> bool {
    step.asks(
        Query::Db(DbCommand::GetFilerequest(request.filerequest_id)),
        BrainState::ContinuationRead { request, received: result },
    )
}

fn on_transfer_read(
    request: FilerequestContinueRequest,
    result: DatabaseResult<ReceivedFile>,
) -> (r: Step)
    ensures
        after_transfer_read(request, result, r),
        r.is_consistent(),
{
    let filerequest_id = request.filerequest_id.clone();
    Step::ask(
        Query::Db(DbCommand::GetFilerequest(filerequest_id)),
        BrainState::ContinuationRead { request, received: result },
    )
}

/// The file request of a transfer that a peer wants to continue is being read.
pub open spec fn after_continuation_read(
    request: FilerequestContinueRequest,
    received: DatabaseResult<ReceivedFile>,
    result: DatabaseResult<Filerequest>,
    separator: char,
    step: Step,
) -> bool {
    match (result, received) {
        (Ok(filerequest), Ok(file)) => if may_continue(filerequest@, file@, request) {
            step.grants_continuation(filerequest@, file, separator)
        } else {
            step.responds(Response::Continuation(None))
        },
        _ => step.responds(Response::Continuation(None)),
    }
}

fn on_continuation_read(
    request: FilerequestContinueRequest,
    received: DatabaseResult<ReceivedFile>,
    result: DatabaseResult<Filerequest>,
    separator: char,
) -> (r: Step)
    ensures
        after_continuation_read(request, received, result, separator, r),
        r.is_consistent(),
{
    let (filerequest, file) = match (result, received) {
        (Ok(filerequest), Ok(file)) => (filerequest, file),
        _ => return Step::respond(Response::Continuation(None)),
    };
    if !filerequest.is_active {
        return Step::respond(Response::Continuation(None));
    }
    if !filerequest.access.is_accessible_by(request.contact_id.clone()) {
        return Step::respond(Response::Continuation(None));
    }
    if !str_eq(file.peer_id.as_str(), request.peer_id.as_str()) {
        return Step::respond(Response::Continuation(None));
    }
    if !same_contact(&file.contact_id, &request.contact_id) {
        return Step::respond(Response::Continuation(None));
    }
    let drive_handler = FilerequestDriveHandler::with_separator(&filerequest, separator);
    Step::respond(
        Response::Continuation(
            Some(
                FilerequestContinueResponse {
                    drive_handler,
                    file_name: file.file_name,
                    file_size_bytes: file.file_size_bytes,
                    started_at_ms: file.started_at_ms,
                },
            ),
        ),
    )
}

/// The keys of the node are being read for the network node.
pub open spec fn after_own_keys_read(result: DatabaseResult<NodeInfo>, step: Step) -> bool {
    step.asks(Query::Db(DbCommand::GetSettings), BrainState::OwnSettingsRead { keys: result })
}

fn on_own_keys_read(result: DatabaseResult<NodeInfo>) -> (r: Step)
    ensures
        after_own_keys_read(result, r),
        r.is_consistent(),
{
    Step::ask(Query::Db(DbCommand::GetSettings), BrainState::OwnSettingsRead { keys: result })
}

/// The settings are being read for the network node; without them it starts with none.
pub open spec fn after_own_settings_read(
    keys: DatabaseResult<NodeInfo>,
    result: DatabaseResult<Vec<u8>>,
    step: Step,
) -> bool {
    match keys {
        Ok(info) => {
            &&& step.next is Done
            &&& step.effects@.len() == 1
            &&& step.effects@[0] matches Effect::Respond(Response::NodeInfo(Ok(told)))
            &&& told.0 == info
            &&& told.1@ == settings_or_none(result)
        },
        Err(DbError::DataNotYetInitialized) => {
            &&& step.effects@ == Seq::<Effect>::empty()
            &&& step.next matches Next::Await(query, state)
            &&& query == Query::Network(NetworkCommand::GenerateKeypair)
            &&& state matches BrainState::KeypairGenerated { settings }
            &&& settings@ == settings_or_none(result)
        },
        Err(_) => false,
    }
}

fn on_own_settings_read(
    keys: DatabaseResult<NodeInfo>,
    result: DatabaseResult<Vec<u8>>,
) -> (r: Step)
    requires
        keys is Ok || keys == Err::<NodeInfo, DbError>(DbError::DataNotYetInitialized),
    ensures
        after_own_settings_read(keys, result, r),
        r.is_consistent(),
{
    let settings = match result {
        Ok(settings) => settings,
        Err(_) => Vec::new(),
    };
    match keys {
        Ok(info) => Step::respond(Response::NodeInfo(Ok((info, settings)))),
        Err(_) => Step::ask(
            Query::Network(NetworkCommand::GenerateKeypair),
            BrainState::KeypairGenerated { settings },
        ),
    }
}

/// The network node generates its first keys.
pub open spec fn after_keypair_generated(
    settings: Vec<u8>,
    result: Result<NodeKeyPairBinary, KeypairGenerationError>,
    step: Step,
) -> bool {
    match result {
        Ok(key_pair) => {
            &&& step.effects@ == Seq::<Effect>::empty()
            &&& step.next matches Next::Await(query, state)
            &&& query matches Query::Db(DbCommand::StoreNodeKeys(stored))
            &&& state matches BrainState::KeysStored { info, settings: kept }
            &&& stored@ == info@
            &&& info.node_key_pair == key_pair
            &&& crate::domain_models::is_uuid(info@.self_contact_id)
            &&& crate::domain_models::can_be_new_uuid(info@.self_contact_id)
            &&& crate::crypto::are_new_keys(info@.self_contact_keys)
            &&& kept == settings
        },
        Err(_) => false,
    }
}

fn on_keypair_generated(
    settings: Vec<u8>,
    result: Result<NodeKeyPairBinary, KeypairGenerationError>,
) -> (r: Step)
    requires
        result is Ok,
    ensures
        after_keypair_generated(settings, result, r),
        r.is_consistent(),
{
    match result {
        Ok(key_pair) => {
            let info = NodeInfo {
                node_key_pair: key_pair,
                self_contact_id: ContactId::new(),
                self_contact_keys: ContactKeys::new(),
            };
            Step::ask(
                Query::Db(DbCommand::StoreNodeKeys(info.clone())),
                BrainState::KeysStored { info, settings },
            )
        },
        Err(_) => Step::end(),
    }
}

/// The first keys of the node are being stored.
pub open spec fn after_keys_stored(
    info: NodeInfo,
    settings: Vec<u8>,
    result: DatabaseResult<()>,
    step: Step,
) -> bool {
    step.responds(Response::NodeInfo(Ok((info, settings))))
}

fn on_keys_stored(info: NodeInfo, settings: Vec<u8>, result: DatabaseResult<()>) -> (r: Step)
    requires
        result is Ok,
    ensures
        after_keys_stored(info, settings, result, r),
        r.is_consistent(),
{
    Step::respond(Response::NodeInfo(Ok((info, settings))))
}

/// The node has started; the file requests of others are being read.
pub open spec fn after_start_remotes_read(
    result: DatabaseResult<Vec<RemoteFilerequest>>,
    step: Step,
) -> bool {
    match result {
        Ok(remotes) => step.asks(
            Query::Db(DbCommand::GetAllPendingFiles),
            BrainState::StartFilesRead { remotes },
        ),
        Err(_) => false,
    }
}

fn on_start_remotes_read(result: DatabaseResult<Vec<RemoteFilerequest>>) -> (r: Step)
    requires
        result is Ok,
    ensures
        after_start_remotes_read(result, r),
        r.is_consistent(),
{
    match result {
        Ok(remotes) => Step::ask(
            Query::Db(DbCommand::GetAllPendingFiles),
            BrainState::StartFilesRead { remotes },
        ),
        Err(_) => Step::end(),
    }
}

/// The node has started; the files to send are being read.
pub open spec fn after_start_files_read(
    remotes: Vec<RemoteFilerequest>,
    result: DatabaseResult<Vec<PendingFile>>,
    before: crate::brain::state::EphemeralView,
    after: crate::brain::state::EphemeralView,
    step: Step,
) -> bool {
    match result {
        Ok(pending) => {
            let files = files_to_continue(pending@, remotes@);
            let resets = files_to_reset(pending@, remotes@);
            if resets.len() == 0 {
                hands_over(before, after, files, step)
            } else {
                &&& after == before
                &&& step.effects@ == Seq::<Effect>::empty()
                &&& step.next matches Next::Await(query, state)
                &&& query matches Query::Db(
                    DbCommand::UpdatePendingFileStatus { id, status, retry_count },
                )
                &&& (id@, status@) == resets[0]
                &&& retry_count is None
                &&& state matches BrainState::FilesReset { files: kept, resets: planned, done }
                &&& crate::domain_models::views(kept@) == files
                &&& reset_views(planned@) == resets
                &&& done == 0
            }
        },
        Err(_) => false,
    }
}

fn on_start_files_read(
    ephemeral: &mut EphemeralBrainData,
    remotes: Vec<RemoteFilerequest>,
    result: DatabaseResult<Vec<PendingFile>>,
) -> (r: Step)
    requires
        result is Ok,
    ensures
        after_start_files_read(remotes, result, old(ephemeral)@, final(ephemeral)@, r),
        r.is_consistent(),
{
    match result {
        Ok(pending) => {
            let (files, resets) = list_files_to_continue(&pending, &remotes);
            start_or_reset(ephemeral, files, resets, 0)
        },
        Err(_) => Step::end(),
    }
}

/// The files that were being sent when the node stopped are marked as interrupted, one by one.
pub open spec fn after_files_reset(
    files: Vec<FileToSend>,
    resets: Vec<(FylesId, SendStatus)>,
    done: usize,
    result: DatabaseResult<FylesId>,
    before: crate::brain::state::EphemeralView,
    after: crate::brain::state::EphemeralView,
    step: Step,
) -> bool {
    if done + 1 >= resets@.len() {
        hands_over(before, after, crate::domain_models::views(files@), step)
    } else {
        &&& after == before
        &&& step.effects@ == Seq::<Effect>::empty()
        &&& step.next matches Next::Await(query, state)
        &&& query == Query::Db(
            DbCommand::UpdatePendingFileStatus {
                id: resets@[done + 1].0,
                status: resets@[done + 1].1,
                retry_count: None,
            },
        )
        &&& state matches BrainState::FilesReset { files: kept, resets: planned, done: count }
        &&& kept@ == files@
        &&& planned@ == resets@
        &&& count == done + 1
    }
}

fn on_files_reset(
    ephemeral: &mut EphemeralBrainData,
    files: Vec<FileToSend>,
    resets: Vec<(FylesId, SendStatus)>,
    done: usize,
    result: DatabaseResult<FylesId>,
) -> (r: Step)
    requires
        result is Ok,
    ensures
        after_files_reset(files, resets, done, result, old(ephemeral)@, final(ephemeral)@, r),
        r.is_consistent(),
{
    if done >= resets.len() {
        return start_or_reset(ephemeral, files, resets, done);
    }
    start_or_reset(ephemeral, files, resets, done + 1)
}

/// The files to continue are being handed to the network node.
pub open spec fn after_start_handed_over(result: P2pResult<()>, step: Step) -> bool {
    step.ends()
}

fn on_start_handed_over(result: P2pResult<()>) -> (r: Step)
    ensures
        after_start_handed_over(result, r),
        r.is_consistent(),
{
    Step::end()
}

/// The new status of a file to send is being stored.
pub open spec fn after_status_stored(
    id: FylesId,
    status: SendStatus,
    reason: Option<String>,
    then_do: AfterStatus,
    result: DatabaseResult<FylesId>,
    step: Step,
) -> bool {
    match result {
        Ok(target) => match reason {
            Some(reason) => step.asks(
                Query::Db(DbCommand::AddInterruptionReason { id, reason }),
                BrainState::ReasonStored { id, status, target },
            ),
            None => {
                &&& step.effects@.len() == 1
                &&& step.effects@[0] matches Effect::Push(message)
                &&& message.reports_pending_file(id@, status@, target@)
                &&& step.next == match then_do {
                    AfterStatus::Nothing => Next::Done,
                    AfterStatus::CleanUp => Next::Await(
                        Query::Db(DbCommand::GetPendingFile(id)),
                        BrainState::CleanupFileRead { id, refuse: false },
                    ),
                    AfterStatus::CleanUpAndRefuse => Next::Await(
                        Query::Db(DbCommand::GetPendingFile(id)),
                        BrainState::CleanupFileRead { id, refuse: true },
                    ),
                }
            },
        },
        Err(_) => false,
    }
}

fn on_status_stored(
    id: FylesId,
    status: SendStatus,
    reason: Option<String>,
    then_do: AfterStatus,
    result: DatabaseResult<FylesId>,
) -> (r: Step)
    requires
        result is Ok,
    ensures
        after_status_stored(id, status, reason, then_do, result, r),
        r.is_consistent(),
{
    let target = match result {
        Ok(target) => target,
        Err(_) => return Step::end(),
    };
    match reason {
        Some(reason) => Step::ask(
            Query::Db(DbCommand::AddInterruptionReason { id: id.clone(), reason }),
            BrainState::ReasonStored { id, status, target },
        ),
        None => {
            let message = ServerMessage::pending_file_status_changed(
                id.0.as_str(),
                &status,
                target.0.as_str(),
            );
            match then_do {
                AfterStatus::Nothing => Step::push(message),
                AfterStatus::CleanUp => Step::push_and_ask(
                    message,
                    Query::Db(DbCommand::GetPendingFile(id.clone())),
                    BrainState::CleanupFileRead { id, refuse: false },
                ),
                AfterStatus::CleanUpAndRefuse => Step::push_and_ask(
                    message,
                    Query::Db(DbCommand::GetPendingFile(id.clone())),
                    BrainState::CleanupFileRead { id, refuse: true },
                ),
            }
        },
    }
}

/// Why a transfer was interrupted is being stored.
pub open spec fn after_reason_stored(
    id: FylesId,
    status: SendStatus,
    target: FylesId,
    result: DatabaseResult<()>,
    step: Step,
) -> bool {
    {
        &&& step.next is Done
        &&& step.effects@.len() == 1
        &&& step.effects@[0] matches Effect::Push(message)
        &&& message.reports_pending_file(id@, status@, target@)
    }
}

fn on_reason_stored(
    id: FylesId,
    status: SendStatus,
    target: FylesId,
    result: DatabaseResult<()>,
) -> (r: Step)
    ensures
        after_reason_stored(id, status, target, result, r),
        r.is_consistent(),
{
    Step::push(
        ServerMessage::pending_file_status_changed(id.0.as_str(), &status, target.0.as_str()),
    )
}

/// A file that is done with is being read; its source may have to go.
pub open spec fn after_cleanup_file_read(
    id: FylesId,
    refuse: bool,
    result: DatabaseResult<PendingFile>,
    step: Step,
) -> bool {
    match result {
        Ok(file) => step.asks(
            Query::Db(DbCommand::CountNonTerminalPendingFilesForPath(id)),
            BrainState::CleanupCounted { path: file.file_path, refuse },
        ),
        Err(_) => step.ends_cleanup(refuse),
    }
}

fn on_cleanup_file_read(id: FylesId, refuse: bool, result: DatabaseResult<PendingFile>) -> (r: Step)
    ensures
        after_cleanup_file_read(id, refuse, result, r),
        r.is_consistent(),
{
    match result {
        Ok(file) => Step::ask(
            Query::Db(DbCommand::CountNonTerminalPendingFilesForPath(id)),
            BrainState::CleanupCounted { path: file.file_path, refuse },
        ),
        Err(_) => Step::end_cleanup(refuse),
    }
}

/// The other files with the same source that are still to be sent are being counted.
pub open spec fn after_cleanup_counted(
    path: String,
    refuse: bool,
    result: DatabaseResult<usize>,
    step: Step,
) -> bool {
    match result {
        Ok(count) => if count == 0 {
            step.asks(
                Query::Host(HostCommand::RemoveSourceFileIfTemporary(path)),
                BrainState::CleanupDone { refuse },
            )
        } else {
            step.ends_cleanup(refuse)
        },
        Err(_) => step.ends_cleanup(refuse),
    }
}

fn on_cleanup_counted(path: String, refuse: bool, result: DatabaseResult<usize>) -> (r: Step)
    ensures
        after_cleanup_counted(path, refuse, result, r),
        r.is_consistent(),
{
    match result {
        Ok(count) => if count == 0 {
            Step::ask(
                Query::Host(HostCommand::RemoveSourceFileIfTemporary(path)),
                BrainState::CleanupDone { refuse },
            )
        } else {
            Step::end_cleanup(refuse)
        },
        Err(_) => Step::end_cleanup(refuse),
    }
}

/// The host removes the source of a file if it was temporary.
pub open spec fn after_cleanup_done(refuse: bool, result: HostReply, step: Step) -> bool {
    step.ends_cleanup(refuse)
}

fn on_cleanup_done(refuse: bool, result: HostReply) -> (r: Step)
    ensures
        after_cleanup_done(refuse, result, r),
        r.is_consistent(),
{
    Step::end_cleanup(refuse)
}

/// A received file is being marked as complete.
pub open spec fn after_received_completed(
    transfer_id: FylesId,
    result: DatabaseResult<FylesId>,
    step: Step,
) -> bool {
    step.asks(
        Query::Db(DbCommand::GetReceivedFileByTransferId(transfer_id)),
        BrainState::ReceivedFetched { completed: result },
    )
}

fn on_received_completed(transfer_id: FylesId, result: DatabaseResult<FylesId>) -> (r: Step)
    ensures
        after_received_completed(transfer_id, result, r),
        r.is_consistent(),
{
    Step::ask(
        Query::Db(DbCommand::GetReceivedFileByTransferId(transfer_id)),
        BrainState::ReceivedFetched { completed: result },
    )
}

/// A received file is being read to tell of it.
pub open spec fn after_received_fetched(
    completed: DatabaseResult<FylesId>,
    result: DatabaseResult<ReceivedFile>,
    step: Step,
) -> bool {
    match result {
        Ok(file) => {
            &&& step.effects@ == seq![
                Effect::Push(ServerMessage::received_file_report(file)),
                Effect::Respond(
                    Response::Answer(Answer::Id(crate::brain::error::of_db(completed))),
                ),
            ]
            &&& step.next == match file.contact_id {
                Some(contact_id) => Next::Await(
                    Query::Db(DbCommand::GetContactName(contact_id)),
                    BrainState::SenderNamed { file },
                ),
                None => Next::Await(
                    Query::Db(DbCommand::GetFilerequest(file.filerequest_id)),
                    BrainState::ReceivedTitled { file, contact_name: None },
                ),
            }
        },
        Err(_) => step.responds(
            Response::Answer(Answer::Id(crate::brain::error::of_db(completed))),
        ),
    }
}

fn on_received_fetched(
    completed: DatabaseResult<FylesId>,
    result: DatabaseResult<ReceivedFile>,
) -> (r: Step)
    ensures
        after_received_fetched(completed, result, r),
        r.is_consistent(),
{
    let answer = Response::Answer(Answer::Id(map_db(completed)));
    match result {
        Ok(file) => {
            let message = ServerMessage::received_file_status_changed(&file);
            let effects = vec![Effect::Push(message), Effect::Respond(answer)];
            match file.contact_id.clone() {
                Some(contact_id) => Step::after(
                    effects,
                    Query::Db(DbCommand::GetContactName(contact_id)),
                    BrainState::SenderNamed { file },
                ),
                None => {
                    let filerequest_id = file.filerequest_id.clone();
                    Step::after(
                        effects,
                        Query::Db(DbCommand::GetFilerequest(filerequest_id)),
                        BrainState::ReceivedTitled { file, contact_name: None },
                    )
                },
            }
        },
        Err(_) => Step::respond(answer),
    }
}

/// The name of the sender of a received file is being read.
pub open spec fn after_sender_named(
    file: ReceivedFile,
    result: DatabaseResult<String>,
    step: Step,
) -> bool {
    step.asks(
        Query::Db(DbCommand::GetFilerequest(file.filerequest_id)),
        BrainState::ReceivedTitled {
            file,
            contact_name: match result {
                Ok(name) => Some(name),
                Err(_) => None,
            },
        },
    )
}

fn on_sender_named(file: ReceivedFile, result: DatabaseResult<String>) -> (r: Step)
    ensures
        after_sender_named(file, result, r),
        r.is_consistent(),
{
    let contact_name = match result {
        Ok(name) => Some(name),
        Err(_) => None,
    };
    let filerequest_id = file.filerequest_id.clone();
    Step::ask(
        Query::Db(DbCommand::GetFilerequest(filerequest_id)),
        BrainState::ReceivedTitled { file, contact_name },
    )
}

/// The file request of a received file is being read.
pub open spec fn after_received_titled(
    file: ReceivedFile,
    contact_name: Option<String>,
    result: DatabaseResult<Filerequest>,
    step: Step,
) -> bool {
    match result {
        Ok(filerequest) => {
            &&& step.next is Done
            &&& step.effects@ == seq![
                Effect::Notify(
                    Notification::FileReceived {
                        contact_name,
                        filerequest_name: filerequest.title,
                        file_name: file.file_name,
                        file_size: file.file_size_bytes,
                    },
                ),
            ]
        },
        Err(_) => step.ends(),
    }
}

fn on_received_titled(
    file: ReceivedFile,
    contact_name: Option<String>,
    result: DatabaseResult<Filerequest>,
) -> (r: Step)
    ensures
        after_received_titled(file, contact_name, result, r),
        r.is_consistent(),
{
    match result {
        Ok(filerequest) => Step::act(
            Effect::Notify(
                Notification::FileReceived {
                    contact_name,
                    filerequest_name: filerequest.title,
                    file_name: file.file_name,
                    file_size: file.file_size_bytes,
                },
            ),
        ),
        Err(_) => Step::end(),
    }
}

/// A file that is about to be received is being stored.
pub open spec fn after_incoming_stored(
    incoming: CreateIncomingFile,
    result: DatabaseResult<FylesId>,
    step: Step,
) -> bool {
    match result {
        Ok(id) => {
            &&& step.next is Done
            &&& step.effects@ == seq![
                Effect::Push(ServerMessage::received_file_report(new_received_file(id, incoming))),
                Effect::Respond(Response::Answer(Answer::Id(Ok(id)))),
            ]
        },
        Err(error) => step.responds(
            Response::Answer(Answer::Id(Err(FilerequestError::DatabaseError(error)))),
        ),
    }
}

fn on_incoming_stored(incoming: CreateIncomingFile, result: DatabaseResult<FylesId>) -> (r: Step)
    ensures
        after_incoming_stored(incoming, result, r),
        r.is_consistent(),
{
    match result {
        Ok(id) => {
            let file = ReceivedFile {
                id: id.clone(),
                filerequest_id: incoming.filerequest_id,
                transfer_id: Some(incoming.transfer_id),
                contact_id: incoming.contact_id,
                peer_id: incoming.peer_id,
                file_name: incoming.file_name,
                file_path: None,
                file_size_bytes: incoming.file_size_bytes,
                progress_bytes: 0,
                status: ReceiveStatus::Receiving,
                started_at_ms: incoming.started_at_ms,
                received_at_ms: None,
            };
            let message = ServerMessage::received_file_status_changed(&file);
            Step {
                effects: vec![
                    Effect::Push(message),
                    Effect::Respond(Response::Answer(Answer::Id(Ok(id)))),
                ],
                next: Next::Done,
            }
        },
        Err(error) => Step::respond(
            Response::Answer(Answer::Id(Err(FilerequestError::DatabaseError(error)))),
        ),
    }
}

/// The progress of a file that is being received is being stored.
pub open spec fn after_receive_status_stored(
    transfer_id: FylesId,
    result: DatabaseResult<()>,
    step: Step,
) -> bool {
    step.asks(
        Query::Db(DbCommand::GetReceivedFileByTransferId(transfer_id)),
        BrainState::ReceiveStatusFetched,
    )
}

fn on_receive_status_stored(transfer_id: FylesId, result: DatabaseResult<()>) -> (r: Step)
    ensures
        after_receive_status_stored(transfer_id, result, r),
        r.is_consistent(),
{
    Step::ask(
        Query::Db(DbCommand::GetReceivedFileByTransferId(transfer_id)),
        BrainState::ReceiveStatusFetched,
    )
}

/// A file that is being received is being read to tell of it.
pub open spec fn after_receive_status_fetched(
    result: DatabaseResult<ReceivedFile>,
    step: Step,
) -> bool {
    match result {
        Ok(file) => step.pushes(ServerMessage::received_file_report(file)),
        Err(_) => step.ends(),
    }
}

fn on_receive_status_fetched(result: DatabaseResult<ReceivedFile>) -> (r: Step)
    ensures
        after_receive_status_fetched(result, r),
        r.is_consistent(),
{
    match result {
        Ok(file) => Step::push(ServerMessage::received_file_status_changed(&file)),
        Err(_) => Step::end(),
    }
}

/// A received file that is to be deleted is being read.
pub open spec fn after_received_to_delete(
    result: DatabaseResult<ReceivedFile>,
    step: Step,
) -> bool {
    match result {
        Ok(file) => step.asks(
            Query::Db(DbCommand::DeleteReceivedFile(file.id)),
            BrainState::ReceivedDeleted,
        ),
        Err(_) => step.ends(),
    }
}

fn on_received_to_delete(result: DatabaseResult<ReceivedFile>) -> (r: Step)
    ensures
        after_received_to_delete(result, r),
        r.is_consistent(),
{
    match result {
        Ok(file) => Step::ask(
            Query::Db(DbCommand::DeleteReceivedFile(file.id)),
            BrainState::ReceivedDeleted,
        ),
        Err(_) => Step::end(),
    }
}

/// A received file is being deleted.
pub open spec fn after_received_deleted(result: DatabaseResult<()>, step: Step) -> bool {
    step.ends()
}

fn on_received_deleted(result: DatabaseResult<()>) -> (r: Step)
    ensures
        after_received_deleted(result, r),
        r.is_consistent(),
{
    Step::end()
}

/// The keys of a contact are being read.
pub open spec fn after_public_keys_read(
    contact_id: ContactId,
    result: DatabaseResult<Option<ContactPublicKeys>>,
    step: Step,
) -> bool {
    match result {
        Ok(Some(keys)) => step.responds(Response::PublicKeys(Some(keys))),
        _ => step.asks(
            Query::Db(DbCommand::GetSelfContact),
            BrainState::OwnPublicKeysRead { contact_id },
        ),
    }
}

fn on_public_keys_read(
    contact_id: ContactId,
    result: DatabaseResult<Option<ContactPublicKeys>>,
) -> (r: Step)
    ensures
        after_public_keys_read(contact_id, result, r),
        r.is_consistent(),
{
    match result {
        Ok(Some(keys)) => Step::respond(Response::PublicKeys(Some(keys))),
        _ => Step::ask(
            Query::Db(DbCommand::GetSelfContact),
            BrainState::OwnPublicKeysRead { contact_id },
        ),
    }
}

/// The contact may be another device of the same owner.
pub open spec fn after_own_public_keys_read(
    contact_id: ContactId,
    result: DatabaseResult<SelfContact>,
    step: Step,
) -> bool {
    match result {
        Ok(own) => if own.id@ == contact_id@ {
            step.responds(Response::PublicKeys(Some(own.keys.public)))
        } else {
            step.responds(Response::PublicKeys(None))
        },
        Err(_) => step.responds(Response::PublicKeys(None)),
    }
}

fn on_own_public_keys_read(contact_id: ContactId, result: DatabaseResult<SelfContact>) -> (r: Step)
    ensures
        after_own_public_keys_read(contact_id, result, r),
        r.is_consistent(),
{
    match result {
        Ok(own) => if own.id.same(&contact_id) {
            Step::respond(Response::PublicKeys(Some(own.keys.public)))
        } else {
            Step::respond(Response::PublicKeys(None))
        },
        Err(_) => Step::respond(Response::PublicKeys(None)),
    }
}

/// Whoever has a name is known.
pub open spec fn after_contact_name_read(result: DatabaseResult<String>, step: Step) -> bool {
    match result {
        Ok(_) => step.responds(Response::ContactKnown(Ok(true))),
        Err(DbError::NotFound { .. }) => step.responds(Response::ContactKnown(Ok(false))),
        Err(_) => {
            &&& step.next is Done
            &&& step.effects@.len() == 1
            &&& step.effects@[0] matches Effect::Respond(Response::ContactKnown(Err(message)))
            &&& message@ == "Could not determine whether contact is known due to DB error"@
        },
    }
}

fn on_contact_name_read(result: DatabaseResult<String>) -> (r: Step)
    ensures
        after_contact_name_read(result, r),
        r.is_consistent(),
{
    match result {
        Ok(_) => Step::respond(Response::ContactKnown(Ok(true))),
        Err(DbError::NotFound { .. }) => Step::respond(Response::ContactKnown(Ok(false))),
        Err(_) => Step::respond(
            Response::ContactKnown(
                Err("Could not determine whether contact is known due to DB error".to_owned()),
            ),
        ),
    }
}

/// The host opens a file to send; where it cannot, the file has failed.
pub open spec fn after_file_opened(id: FylesId, result: HostReply, step: Step) -> bool {
    match result {
        Ok(()) => step.responds(Response::OpenedFile(Ok(()))),
        Err(_) => step.asks(
            Query::Db(
                DbCommand::UpdatePendingFileStatus {
                    id,
                    status: SendStatus::Failed,
                    retry_count: None,
                },
            ),
            BrainState::StatusStored {
                id,
                status: SendStatus::Failed,
                reason: None,
                then_do: AfterStatus::CleanUpAndRefuse,
            },
        ),
    }
}

fn on_file_opened(id: FylesId, result: HostReply) -> (r: Step)
    ensures
        after_file_opened(id, result, r),
        r.is_consistent(),
{
    match result {
        Ok(()) => Step::respond(Response::OpenedFile(Ok(()))),
        Err(_) => Step::ask(
            Query::Db(
                DbCommand::UpdatePendingFileStatus {
                    id: id.clone(),
                    status: SendStatus::Failed,
                    retry_count: None,
                },
            ),
            BrainState::StatusStored {
                id,
                status: SendStatus::Failed,
                reason: None,
                then_do: AfterStatus::CleanUpAndRefuse,
            },
        ),
    }
}

/// A device that was invited is given the identity of the node.
pub open spec fn after_invite_confirmed(result: DatabaseResult<SelfContact>, step: Step) -> bool {
    match result {
        Ok(own) => step.responds(Response::SelfContact(Some(own))),
        Err(_) => step.responds(Response::SelfContact(None)),
    }
}

fn on_invite_confirmed(result: DatabaseResult<SelfContact>) -> (r: Step)
    ensures
        after_invite_confirmed(result, r),
        r.is_consistent(),
{
    match result {
        Ok(own) => Step::respond(Response::SelfContact(Some(own))),
        Err(_) => Step::respond(Response::SelfContact(None)),
    }
}

/// A device that was told the contact share challenge is given the contact of the node.
pub open spec fn after_share_confirmed(result: DatabaseResult<Contact>, step: Step) -> bool {
    match result {
        Ok(contact) => step.responds(Response::Contact(Some(contact))),
        Err(_) => step.responds(Response::Contact(None)),
    }
}

fn on_share_confirmed(result: DatabaseResult<Contact>) -> (r: Step)
    ensures
        after_share_confirmed(result, r),
        r.is_consistent(),
{
    match result {
        Ok(contact) => Step::respond(Response::Contact(Some(contact))),
        Err(_) => Step::respond(Response::Contact(None)),
    }
}

/// An identity that another device offered is being stored.
pub open spec fn after_new_identity_stored(
    contact_id: ContactId,
    keys: ContactKeys,
    result: DatabaseResult<()>,
    step: Step,
) -> bool {
    match result {
        Ok(()) => step.asks(
            Query::Network(NetworkCommand::UpdateIdentity { contact_id, keys }),
            BrainState::NewIdentityAnnounced,
        ),
        Err(_) => step.ends(),
    }
}

fn on_new_identity_stored(
    contact_id: ContactId,
    keys: ContactKeys,
    result: DatabaseResult<()>,
) -> (r: Step)
    ensures
        after_new_identity_stored(contact_id, keys, result, r),
        r.is_consistent(),
{
    match result {
        Ok(()) => Step::ask(
            Query::Network(NetworkCommand::UpdateIdentity { contact_id, keys }),
            BrainState::NewIdentityAnnounced,
        ),
        Err(_) => Step::end(),
    }
}

/// The network node is being told of an identity that another device offered.
pub open spec fn after_new_identity_announced(step: Step) -> bool {
    step.pushes(
        ServerMessage {
            message: Some(
                Message::ReceivedSelfContactInviteOverNetwork(
                    ReceivedSelfContactInviteOverNetwork {  },
                ),
            ),
        },
    )
}

fn on_new_identity_announced() -> (r: Step)
    ensures
        after_new_identity_announced(r),
        r.is_consistent(),
{
    Step::push(ServerMessage::received_self_contact_invite_over_network())
}

/// A contact that was shared is being stored.
pub open spec fn after_contact_registered(result: DatabaseResult<()>, step: Step) -> bool {
    match result {
        Ok(()) => step.pushes(
            ServerMessage {
                message: Some(
                    Message::ReceivedContactShareOverNetwork(ReceivedContactShareOverNetwork {  }),
                ),
            },
        ),
        Err(_) => step.ends(),
    }
}

fn on_contact_registered(result: DatabaseResult<()>) -> (r: Step)
    ensures
        after_contact_registered(result, r),
        r.is_consistent(),
{
    match result {
        Ok(()) => Step::push(ServerMessage::contact_share_accepted_over_network()),
        Err(_) => Step::end(),
    }
}

/// What follows from the reply that was waited for.
pub open spec fn resumed(
    state: BrainState,
    reply: Reply,
    before: crate::brain::state::EphemeralView,
    after: crate::brain::state::EphemeralView,
    step: Step,
) -> bool {
    match (state, reply) {
        (BrainState::Relay, Reply::Db(reply)) => after == before && after_relay(reply, step),
        (BrainState::RelayStatus, Reply::Network(NetworkReply::Status(result))) => after == before
            && after_relay_status(result, step),
        (BrainState::FilerequestStored { title }, Reply::Db(Answer::Id(result))) => after == before
            && after_filerequest_stored(title, result, before.separator, step),
        (BrainState::DirectoryCreated { id }, Reply::Host(result)) => after == before
            && after_directory_created(id, result, step),
        (BrainState::CreationRolledBack, Reply::Db(Answer::Unit(result))) => after == before
            && after_creation_rolled_back(result, step),
        (BrainState::FilerequestRead { update }, Reply::Db(Answer::Filerequest(result))) =>
            after == before
            && after_filerequest_read(update, result, before.separator, step),
        (BrainState::DirectoryRenamed { update }, Reply::Host(result)) => after == before
            && after_directory_renamed(update, result, step),
        (BrainState::RemoteRequestRead { id }, Reply::Db(Answer::RemoteFilerequest(result))) =>
            after == before
            && after_remote_request_read(id, result, step),
        (BrainState::FilesCancelled { id }, Reply::Network(NetworkReply::Cancelled(result))) =>
            after == before
            && after_files_cancelled(id, result, step),
        (BrainState::RemoteRequestDeleted, Reply::Db(Answer::Unit(result))) => after == before
            && after_remote_request_deleted(result, step),
        (BrainState::TargetRead { files }, Reply::Db(Answer::RemoteFilerequest(result))) =>
            after == before
            && after_target_read(files, result, step),
        (BrainState::FilesStored { remote, file_infos }, Reply::Db(Answer::Ids(result))) =>
            after == before
            && after_files_stored(remote, file_infos, result, step),
        (BrainState::FilesHandedOver { ids }, Reply::Network(NetworkReply::Done(result))) =>
            after == before
            && after_files_handed_over(ids, result, step),
        (BrainState::PendingFileRead { id }, Reply::Db(Answer::PendingFile(result))) =>
            after == before
            && after_pending_file_read(id, result, step),
        (BrainState::PendingFileCancelled { id }, Reply::Network(NetworkReply::Cancelled(result))) =>
            after == before
            && after_pending_file_cancelled(id, result, step),
        (BrainState::OrphanDeleted, Reply::Db(Answer::Unit(result))) => after == before
            && after_orphan_deleted(result, step),
        (BrainState::KeysRead, Reply::Db(Answer::NodeInfo(result))) => after == before
            && after_keys_read(result, step),
        (BrainState::KeypairDisplayed, Reply::Network(NetworkReply::Shown(result))) =>
            after == before
            && after_keypair_displayed(result, step),
        (BrainState::IdentityStored { contact_id, keys }, Reply::Db(Answer::Unit(result))) =>
            after == before
            && after_identity_stored(contact_id, keys, result, step),
        (BrainState::IdentityAnnounced { stored }, Reply::Network(NetworkReply::Nothing)) =>
            after == before
            && after_identity_announced(stored, step),
        (BrainState::BackupFileOpened, Reply::Host(result)) => after == before
            && after_backup_file_opened(result, step),
        (BrainState::BackupAccessed, Reply::Host(result)) => after == before
            && after_backup_accessed(result, step),
        (BrainState::DatabaseRestored, Reply::Db(Answer::Unit(result))) => after == before
            && after_database_restored(result, step),
        (BrainState::SettingsApplied { settings }, Reply::Network(NetworkReply::Done(result))) =>
            after == before
            && after_settings_applied(settings, result, step),
        (BrainState::ChallengeUsed, Reply::Network(NetworkReply::Nothing)) => after == before
            && after_challenge_used(step),
        (BrainState::DropRequestRead { contact_id }, Reply::Db(Answer::Filerequest(result))) =>
            after == before
            && after_drop_request_read(contact_id, result, before.separator, step),
        (BrainState::DropSelfRead { filerequest, contact_id }, Reply::Db(Answer::SelfContact(result))) =>
            after == before
            && after_drop_self_read(filerequest, contact_id, result, before.separator, step),
        (BrainState::TransferRead { request }, Reply::Db(Answer::ReceivedFile(result))) =>
            after == before
            && after_transfer_read(request, result, step),
        (BrainState::ContinuationRead { request, received }, Reply::Db(Answer::Filerequest(result))) =>
            after == before
            && after_continuation_read(request, received, result, before.separator, step),
        (BrainState::OwnKeysRead, Reply::Db(Answer::NodeInfo(result))) => after == before
            && after_own_keys_read(result, step),
        (BrainState::OwnSettingsRead { keys }, Reply::Db(Answer::Settings(result))) =>
            after == before
            && after_own_settings_read(keys, result, step),
        (BrainState::KeypairGenerated { settings }, Reply::Network(NetworkReply::Keypair(result))) =>
            after == before
            && after_keypair_generated(settings, result, step),
        (BrainState::KeysStored { info, settings }, Reply::Db(Answer::Unit(result))) =>
            after == before
            && after_keys_stored(info, settings, result, step),
        (BrainState::StartRemotesRead, Reply::Db(Answer::RemoteFilerequests(result))) =>
            after == before
            && after_start_remotes_read(result, step),
        (BrainState::StartFilesRead { remotes }, Reply::Db(Answer::PendingFiles(result))) =>
            after_start_files_read(
            remotes,
            result,
            before,
            after,
            step,
        ),
        (BrainState::FilesReset { files, resets, done }, Reply::Db(Answer::Id(result))) =>
            after_files_reset(
            files,
            resets,
            done,
            result,
            before,
            after,
            step,
        ),
        (BrainState::StartHandedOver, Reply::Network(NetworkReply::Done(result))) => after == before
            && after_start_handed_over(result, step),
        (BrainState::StatusStored { id, status, reason, then_do }, Reply::Db(Answer::Id(result))) =>
            after == before
            && after_status_stored(id, status, reason, then_do, result, step),
        (BrainState::ReasonStored { id, status, target }, Reply::Db(Answer::Unit(result))) =>
            after == before
            && after_reason_stored(id, status, target, result, step),
        (BrainState::CleanupFileRead { id, refuse }, Reply::Db(Answer::PendingFile(result))) =>
            after == before
            && after_cleanup_file_read(id, refuse, result, step),
        (BrainState::CleanupCounted { path, refuse }, Reply::Db(Answer::Count(result))) =>
            after == before
            && after_cleanup_counted(path, refuse, result, step),
        (BrainState::CleanupDone { refuse }, Reply::Host(result)) => after == before
            && after_cleanup_done(refuse, result, step),
        (BrainState::ReceivedCompleted { transfer_id }, Reply::Db(Answer::Id(result))) =>
            after == before
            && after_received_completed(transfer_id, result, step),
        (BrainState::ReceivedFetched { completed }, Reply::Db(Answer::ReceivedFile(result))) =>
            after == before
            && after_received_fetched(completed, result, step),
        (BrainState::SenderNamed { file }, Reply::Db(Answer::Text(result))) => after == before
            && after_sender_named(file, result, step),
        (BrainState::ReceivedTitled { file, contact_name }, Reply::Db(Answer::Filerequest(result))) =>
            after == before
            && after_received_titled(file, contact_name, result, step),
        (BrainState::IncomingStored { incoming }, Reply::Db(Answer::Id(result))) => after == before
            && after_incoming_stored(incoming, result, step),
        (BrainState::ReceiveStatusStored { transfer_id }, Reply::Db(Answer::Unit(result))) =>
            after == before
            && after_receive_status_stored(transfer_id, result, step),
        (BrainState::ReceiveStatusFetched, Reply::Db(Answer::ReceivedFile(result))) =>
            after == before
            && after_receive_status_fetched(result, step),
        (BrainState::ReceivedToDelete, Reply::Db(Answer::ReceivedFile(result))) => after == before
            && after_received_to_delete(result, step),
        (BrainState::ReceivedDeleted, Reply::Db(Answer::Unit(result))) => after == before
            && after_received_deleted(result, step),
        (BrainState::PublicKeysRead { contact_id }, Reply::Db(Answer::PublicKeys(result))) =>
            after == before
            && after_public_keys_read(contact_id, result, step),
        (BrainState::OwnPublicKeysRead { contact_id }, Reply::Db(Answer::SelfContact(result))) =>
            after == before
            && after_own_public_keys_read(contact_id, result, step),
        (BrainState::ContactNameRead, Reply::Db(Answer::Text(result))) => after == before
            && after_contact_name_read(result, step),
        (BrainState::FileOpened { id }, Reply::Host(result)) => after == before
            && after_file_opened(id, result, step),
        (BrainState::InviteConfirmed, Reply::Db(Answer::SelfContact(result))) => after == before
            && after_invite_confirmed(result, step),
        (BrainState::ShareConfirmed, Reply::Db(Answer::Contact(result))) => after == before
            && after_share_confirmed(result, step),
        (BrainState::NewIdentityStored { contact_id, keys }, Reply::Db(Answer::Unit(result))) =>
            after == before
            && after_new_identity_stored(contact_id, keys, result, step),
        (BrainState::NewIdentityAnnounced, Reply::Network(NetworkReply::Nothing)) => after == before
            && after_new_identity_announced(step),
        (BrainState::ContactRegistered, Reply::Db(Answer::Unit(result))) => after == before
            && after_contact_registered(result, step),
        _ => false,
    }
}

/// Goes on with the handling of an action.
pub fn resume(ephemeral: &mut EphemeralBrainData, state: BrainState, reply: Reply) -> (r: Step)
    requires
        state.expects(reply),
    ensures
        resumed(state, reply, old(ephemeral)@, final(ephemeral)@, r),
        r.is_consistent(),
{
    match (state, reply) {
        (BrainState::Relay, Reply::Db(reply)) => on_relay(reply),
        (BrainState::RelayStatus, Reply::Network(NetworkReply::Status(result))) => on_relay_status(
            result,
        ),
        (BrainState::FilerequestStored { title }, Reply::Db(Answer::Id(result))) =>
            on_filerequest_stored(
            title,
            result,
            ephemeral.separator(),
        ),
        (BrainState::DirectoryCreated { id }, Reply::Host(result)) => on_directory_created(
            id,
            result,
        ),
        (BrainState::CreationRolledBack, Reply::Db(Answer::Unit(result))) =>
            on_creation_rolled_back(
            result,
        ),
        (BrainState::FilerequestRead { update }, Reply::Db(Answer::Filerequest(result))) =>
            on_filerequest_read(
            update,
            result,
            ephemeral.separator(),
        ),
        (BrainState::DirectoryRenamed { update }, Reply::Host(result)) => on_directory_renamed(
            update,
            result,
        ),
        (BrainState::RemoteRequestRead { id }, Reply::Db(Answer::RemoteFilerequest(result))) =>
            on_remote_request_read(
            id,
            result,
        ),
        (BrainState::FilesCancelled { id }, Reply::Network(NetworkReply::Cancelled(result))) =>
            on_files_cancelled(
            id,
            result,
        ),
        (BrainState::RemoteRequestDeleted, Reply::Db(Answer::Unit(result))) =>
            on_remote_request_deleted(
            result,
        ),
        (BrainState::TargetRead { files }, Reply::Db(Answer::RemoteFilerequest(result))) =>
            on_target_read(
            files,
            result,
        ),
        (BrainState::FilesStored { remote, file_infos }, Reply::Db(Answer::Ids(result))) =>
            on_files_stored(
            remote,
            file_infos,
            result,
        ),
        (BrainState::FilesHandedOver { ids }, Reply::Network(NetworkReply::Done(result))) =>
            on_files_handed_over(
            ids,
            result,
        ),
        (BrainState::PendingFileRead { id }, Reply::Db(Answer::PendingFile(result))) =>
            on_pending_file_read(
            id,
            result,
        ),
        (BrainState::PendingFileCancelled { id }, Reply::Network(NetworkReply::Cancelled(result))) =>
            on_pending_file_cancelled(
            id,
            result,
        ),
        (BrainState::OrphanDeleted, Reply::Db(Answer::Unit(result))) => on_orphan_deleted(result),
        (BrainState::KeysRead, Reply::Db(Answer::NodeInfo(result))) => on_keys_read(result),
        (BrainState::KeypairDisplayed, Reply::Network(NetworkReply::Shown(result))) =>
            on_keypair_displayed(
            result,
        ),
        (BrainState::IdentityStored { contact_id, keys }, Reply::Db(Answer::Unit(result))) =>
            on_identity_stored(
            contact_id,
            keys,
            result,
        ),
        (BrainState::IdentityAnnounced { stored }, Reply::Network(NetworkReply::Nothing)) =>
            on_identity_announced(
            stored,
        ),
        (BrainState::BackupFileOpened, Reply::Host(result)) => on_backup_file_opened(result),
        (BrainState::BackupAccessed, Reply::Host(result)) => on_backup_accessed(result),
        (BrainState::DatabaseRestored, Reply::Db(Answer::Unit(result))) => on_database_restored(
            result,
        ),
        (BrainState::SettingsApplied { settings }, Reply::Network(NetworkReply::Done(result))) =>
            on_settings_applied(
            settings,
            result,
        ),
        (BrainState::ChallengeUsed, Reply::Network(NetworkReply::Nothing)) => on_challenge_used(),
        (BrainState::DropRequestRead { contact_id }, Reply::Db(Answer::Filerequest(result))) =>
            on_drop_request_read(
            contact_id,
            result,
            ephemeral.separator(),
        ),
        (BrainState::DropSelfRead { filerequest, contact_id }, Reply::Db(Answer::SelfContact(result))) =>
            on_drop_self_read(
            filerequest,
            contact_id,
            result,
            ephemeral.separator(),
        ),
        (BrainState::TransferRead { request }, Reply::Db(Answer::ReceivedFile(result))) =>
            on_transfer_read(
            request,
            result,
        ),
        (BrainState::ContinuationRead { request, received }, Reply::Db(Answer::Filerequest(result))) =>
            on_continuation_read(
            request,
            received,
            result,
            ephemeral.separator(),
        ),
        (BrainState::OwnKeysRead, Reply::Db(Answer::NodeInfo(result))) => on_own_keys_read(result),
        (BrainState::OwnSettingsRead { keys }, Reply::Db(Answer::Settings(result))) =>
            on_own_settings_read(
            keys,
            result,
        ),
        (BrainState::KeypairGenerated { settings }, Reply::Network(NetworkReply::Keypair(result))) =>
            on_keypair_generated(
            settings,
            result,
        ),
        (BrainState::KeysStored { info, settings }, Reply::Db(Answer::Unit(result))) =>
            on_keys_stored(
            info,
            settings,
            result,
        ),
        (BrainState::StartRemotesRead, Reply::Db(Answer::RemoteFilerequests(result))) =>
            on_start_remotes_read(
            result,
        ),
        (BrainState::StartFilesRead { remotes }, Reply::Db(Answer::PendingFiles(result))) =>
            on_start_files_read(
            ephemeral,
            remotes,
            result,
        ),
        (BrainState::FilesReset { files, resets, done }, Reply::Db(Answer::Id(result))) =>
            on_files_reset(
            ephemeral,
            files,
            resets,
            done,
            result,
        ),
        (BrainState::StartHandedOver, Reply::Network(NetworkReply::Done(result))) =>
            on_start_handed_over(
            result,
        ),
        (BrainState::StatusStored { id, status, reason, then_do }, Reply::Db(Answer::Id(result))) =>
            on_status_stored(
            id,
            status,
            reason,
            then_do,
            result,
        ),
        (BrainState::ReasonStored { id, status, target }, Reply::Db(Answer::Unit(result))) =>
            on_reason_stored(
            id,
            status,
            target,
            result,
        ),
        (BrainState::CleanupFileRead { id, refuse }, Reply::Db(Answer::PendingFile(result))) =>
            on_cleanup_file_read(
            id,
            refuse,
            result,
        ),
        (BrainState::CleanupCounted { path, refuse }, Reply::Db(Answer::Count(result))) =>
            on_cleanup_counted(
            path,
            refuse,
            result,
        ),
        (BrainState::CleanupDone { refuse }, Reply::Host(result)) => on_cleanup_done(
            refuse,
            result,
        ),
        (BrainState::ReceivedCompleted { transfer_id }, Reply::Db(Answer::Id(result))) =>
            on_received_completed(
            transfer_id,
            result,
        ),
        (BrainState::ReceivedFetched { completed }, Reply::Db(Answer::ReceivedFile(result))) =>
            on_received_fetched(
            completed,
            result,
        ),
        (BrainState::SenderNamed { file }, Reply::Db(Answer::Text(result))) => on_sender_named(
            file,
            result,
        ),
        (BrainState::ReceivedTitled { file, contact_name }, Reply::Db(Answer::Filerequest(result))) =>
            on_received_titled(
            file,
            contact_name,
            result,
        ),
        (BrainState::IncomingStored { incoming }, Reply::Db(Answer::Id(result))) =>
            on_incoming_stored(
            incoming,
            result,
        ),
        (BrainState::ReceiveStatusStored { transfer_id }, Reply::Db(Answer::Unit(result))) =>
            on_receive_status_stored(
            transfer_id,
            result,
        ),
        (BrainState::ReceiveStatusFetched, Reply::Db(Answer::ReceivedFile(result))) =>
            on_receive_status_fetched(
            result,
        ),
        (BrainState::ReceivedToDelete, Reply::Db(Answer::ReceivedFile(result))) =>
            on_received_to_delete(
            result,
        ),
        (BrainState::ReceivedDeleted, Reply::Db(Answer::Unit(result))) => on_received_deleted(
            result,
        ),
        (BrainState::PublicKeysRead { contact_id }, Reply::Db(Answer::PublicKeys(result))) =>
            on_public_keys_read(
            contact_id,
            result,
        ),
        (BrainState::OwnPublicKeysRead { contact_id }, Reply::Db(Answer::SelfContact(result))) =>
            on_own_public_keys_read(
            contact_id,
            result,
        ),
        (BrainState::ContactNameRead, Reply::Db(Answer::Text(result))) => on_contact_name_read(
            result,
        ),
        (BrainState::FileOpened { id }, Reply::Host(result)) => on_file_opened(id, result),
        (BrainState::InviteConfirmed, Reply::Db(Answer::SelfContact(result))) =>
            on_invite_confirmed(
            result,
        ),
        (BrainState::ShareConfirmed, Reply::Db(Answer::Contact(result))) => on_share_confirmed(
            result,
        ),
        (BrainState::NewIdentityStored { contact_id, keys }, Reply::Db(Answer::Unit(result))) =>
            on_new_identity_stored(
            contact_id,
            keys,
            result,
        ),
        (BrainState::NewIdentityAnnounced, Reply::Network(NetworkReply::Nothing)) =>
            on_new_identity_announced(),
        (BrainState::ContactRegistered, Reply::Db(Answer::Unit(result))) => on_contact_registered(
            result,
        ),
        _ => {
            assert(false);
            Step::end()
        },
    }
}

// What follows from an action

/// What follows from what a client asks for.
pub open spec fn client_is_served(
    action: ClientAction,
    before: crate::brain::state::EphemeralView,
    after: crate::brain::state::EphemeralView,
    step: Step,
) -> bool {
    match action {
        ClientAction::WaitForReady(ticket) => match before.waiting {
            Some(waiting) => if waiting.tickets.len() < waiting.room {
                &&& after == crate::brain::state::EphemeralView {
                    waiting: Some(
                        crate::brain::state::WaitingView {
                            tickets: waiting.tickets.push(ticket),
                            ..waiting
                        },
                    ),
                    ..before
                }
                &&& step.ends()
            } else {
                &&& after == before
                &&& step.next is Done
                &&& step.effects@ == seq![Effect::DropWaiter(ticket)]
            },
            None => after == before && step.responds(Response::Ready(before.successfully_started)),
        },
        ClientAction::RegisterSelfContactInviteChallenge => {
            &&& step.next is Done
            &&& step.effects@.len() == 1
            &&& step.effects@[0] matches Effect::Respond(
                Response::SelfContactInviteChallenge(challenge),
            )
            &&& challenge@.len() == CHALLENGE_LENGTH
            &&& crate::util::util::are_drawn(challenge@)
            &&& after == crate::brain::state::EphemeralView { invites: after.invites, ..before }
            &&& after.invites.contains_key(challenge@)
            &&& after.invites.submap_of(
                before.invites.insert(challenge@, before.invite_ttl.total_nanos()),
            )
        },
        ClientAction::UnregisterSelfContactInviteChallenge(challenge) => {
            &&& after == crate::brain::state::EphemeralView {
                invites: before.invites.remove(challenge@),
                ..before
            }
            &&& step.responds(Response::Done)
        },
        ClientAction::RegisterContactShareChallenge => {
            &&& step.next is Done
            &&& step.effects@.len() == 1
            &&& step.effects@[0] matches Effect::Respond(
                Response::ContactShareChallenge(challenge),
            )
            &&& challenge@.len() == CHALLENGE_LENGTH
            &&& crate::util::util::are_drawn(challenge@)
            &&& after == crate::brain::state::EphemeralView { shares: after.shares, ..before }
            &&& after.shares.contains_key(challenge@)
            &&& after.shares.submap_of(
                before.shares.insert(challenge@, before.share_ttl.total_nanos()),
            )
        },
        ClientAction::UnregisterContactShareChallenge(challenge) => {
            &&& after == crate::brain::state::EphemeralView {
                shares: before.shares.remove(challenge@),
                ..before
            }
            &&& step.responds(Response::Done)
        },
        _ => after == before && client_is_served_directly(action, step),
    }
}

/// What follows from what a client asks for, where it touches nothing that the service remembers.
pub open spec fn client_is_served_directly(action: ClientAction, step: Step) -> bool {
    match action {
        ClientAction::CreateFilerequest(request) => step.asks(
            Query::Db(DbCommand::CreateFilerequest(request)),
            BrainState::FilerequestStored { title: request.title },
        ),
        ClientAction::UpdateFilerequest(update) => step.asks(
            Query::Db(DbCommand::GetFilerequest(update.id)),
            BrainState::FilerequestRead { update },
        ),
        ClientAction::DeleteFilerequest(id) => step.asks(
            Query::Db(DbCommand::DeleteFilerequest(id)),
            BrainState::Relay,
        ),
        ClientAction::ReadFilerequest(id) => step.asks(
            Query::Db(DbCommand::GetFilerequest(id)),
            BrainState::Relay,
        ),
        ClientAction::ListFilerequests => step.asks(
            Query::Db(DbCommand::GetFilerequests),
            BrainState::Relay,
        ),
        ClientAction::GetContactName(id) => step.asks(
            Query::Db(DbCommand::GetContactName(id)),
            BrainState::Relay,
        ),
        ClientAction::GetContactNames(ids) => step.asks(
            Query::Db(DbCommand::GetContactNames(ids)),
            BrainState::Relay,
        ),
        ClientAction::GetContact(id) => step.asks(
            Query::Db(DbCommand::GetContact(id)),
            BrainState::Relay,
        ),
        ClientAction::ListContacts => step.asks(
            Query::Db(DbCommand::GetContacts),
            BrainState::Relay,
        ),
        ClientAction::UpdateContact(contact) => step.asks(
            Query::Db(DbCommand::UpdateContact(contact)),
            BrainState::Relay,
        ),
        ClientAction::DeleteContact(id) => step.asks(
            Query::Db(DbCommand::DeleteContact(id)),
            BrainState::Relay,
        ),
        ClientAction::Shutdown => step.responds(Response::Answer(Answer::Flag(Ok(true)))),
        ClientAction::GetNodeStatus => step.asks(
            Query::Network(NetworkCommand::GetNodeInfo),
            BrainState::RelayStatus,
        ),
        ClientAction::CreateRemoteFilerequest(request) => step.asks(
            Query::Db(DbCommand::CreateRemoteFilerequest(request)),
            BrainState::Relay,
        ),
        ClientAction::GetRemoteFilerequest(id) => step.asks(
            Query::Db(DbCommand::GetRemoteFilerequest(id)),
            BrainState::Relay,
        ),
        ClientAction::GetRemoteFilerequestsByContact(id) => step.asks(
            Query::Db(DbCommand::GetRemoteFilerequestsByContact(id)),
            BrainState::Relay,
        ),
        ClientAction::GetAllRemoteFilerequests => step.asks(
            Query::Db(DbCommand::GetAllRemoteFilerequests),
            BrainState::Relay,
        ),
        ClientAction::DeleteRemoteFilerequest(id) => step.asks(
            Query::Db(DbCommand::GetRemoteFilerequest(id)),
            BrainState::RemoteRequestRead { id },
        ),
        ClientAction::UpdateRemoteFilerequest(id, name) => step.asks(
            Query::Db(DbCommand::UpdateRemoteFilerequest { id, name }),
            BrainState::Relay,
        ),
        ClientAction::CreatePendingFiles(files) => step.asks(
            Query::Db(DbCommand::GetRemoteFilerequest(files.target_filerequest_id)),
            BrainState::TargetRead { files },
        ),
        ClientAction::GetPendingFile(id) => step.asks(
            Query::Db(DbCommand::GetPendingFile(id)),
            BrainState::Relay,
        ),
        ClientAction::GetPendingFiles(id) => step.asks(
            Query::Db(DbCommand::GetPendingFiles(id)),
            BrainState::Relay,
        ),
        ClientAction::GetAllPendingFiles => step.asks(
            Query::Db(DbCommand::GetAllPendingFiles),
            BrainState::Relay,
        ),
        ClientAction::DeletePendingFile(id) => step.asks(
            Query::Db(DbCommand::GetPendingFile(id)),
            BrainState::PendingFileRead { id },
        ),
        ClientAction::GetNodePeerId => step.asks(
            Query::Db(DbCommand::GetNodeKeys),
            BrainState::KeysRead,
        ),
        ClientAction::ListReceivedFilesForRequest(id) => step.asks(
            Query::Db(DbCommand::ListReceivedFiles(id)),
            BrainState::Relay,
        ),
        ClientAction::DeleteReceivedFile(id) => step.asks(
            Query::Db(DbCommand::DeleteReceivedFile(id)),
            BrainState::Relay,
        ),
        ClientAction::UpdateSelfContactName(name) => step.asks(
            Query::Db(DbCommand::UpdateSelfContactName(name)),
            BrainState::Relay,
        ),
        ClientAction::GetFullSelfContact => step.asks(
            Query::Db(DbCommand::GetSelfContact),
            BrainState::Relay,
        ),
        ClientAction::UpdateIdentity(identity) => {
            &&& step.effects@ == Seq::<Effect>::empty()
            &&& step.next matches Next::Await(query, state)
            &&& query matches Query::Db(DbCommand::UpdateIdentity(stored))
            &&& stored@ == identity@
            &&& state == BrainState::IdentityStored {
                contact_id: identity.id,
                keys: identity.keys,
            }
        },
        ClientAction::GetSelfContactDisplay => step.asks(
            Query::Db(DbCommand::GetSelfContactForDisplay),
            BrainState::Relay,
        ),
        ClientAction::SharePublicSelfContact => step.asks(
            Query::Db(DbCommand::GetSharablePublicSelfContact),
            BrainState::Relay,
        ),
        ClientAction::RegisterContact(contact) => step.asks(
            Query::Db(DbCommand::RegisterContact(contact)),
            BrainState::Relay,
        ),
        ClientAction::UseSelfContactInviteChallenge(challenge, peer_id) => step.asks(
            Query::Network(
                NetworkCommand::UseSelfContactInvite { invite_code: challenge, peer_id },
            ),
            BrainState::ChallengeUsed,
        ),
        ClientAction::UseContactShareChallenge(challenge, peer_id) => step.asks(
            Query::Network(
                NetworkCommand::UseContactShareChallenge { share_code: challenge, peer_id },
            ),
            BrainState::ChallengeUsed,
        ),
        ClientAction::BackupData => step.asks(
            Query::Host(HostCommand::OpenBackupFile),
            BrainState::BackupFileOpened,
        ),
        ClientAction::RestoreData(uri) => step.asks(
            Query::Host(HostCommand::AccessFileForReading(uri)),
            BrainState::BackupAccessed,
        ),
        ClientAction::UpdateSettings(settings) => {
            &&& step.effects@ == Seq::<Effect>::empty()
            &&& step.next matches Next::Await(query, state)
            &&& query matches Query::Network(NetworkCommand::ApplySettings(applied))
            &&& applied@ == settings@
            &&& state == BrainState::SettingsApplied { settings }
        },
        ClientAction::GetSettings => step.asks(
            Query::Db(DbCommand::GetSettings),
            BrainState::Relay,
        ),
        _ => false,
    }
}

/// Whether a new challenge takes the place of none but those that have expired.
pub open spec fn challenges_are_kept(
    action: ClientAction,
    before: EphemeralBrainData,
    after: EphemeralBrainData,
) -> bool {
    match action {
        ClientAction::RegisterSelfContactInviteChallenge => before.forgets_expired(after),
        ClientAction::RegisterContactShareChallenge => before.forgets_expired(after),
        _ => true,
    }
}

/// Begins to handle what a client asks for.
pub fn handle_client_action(ephemeral: &mut EphemeralBrainData, action: ClientAction) -> (r: Step)
    ensures
        client_is_served(action, old(ephemeral)@, final(ephemeral)@, r),
        challenges_are_kept(action, *old(ephemeral), *final(ephemeral)),
        r.is_consistent(),
{
    match action {
        ClientAction::WaitForReady(ticket) => match ephemeral.wait(ticket) {
            Waiting::Queued => Step::end(),
            Waiting::NoRoom => Step::act(Effect::DropWaiter(ticket)),
            Waiting::Over(started) => Step::respond(Response::Ready(started)),
        },
        ClientAction::RegisterSelfContactInviteChallenge => {
            let challenge = SelfContactInviteChallenge::from(generate_byte_challenge());
            ephemeral.add_invite(&challenge.0);
            Step::respond(Response::SelfContactInviteChallenge(challenge))
        },
        ClientAction::UnregisterSelfContactInviteChallenge(challenge) => {
            let _ = ephemeral.drop_invite(&challenge.0);
            Step::respond(Response::Done)
        },
        ClientAction::RegisterContactShareChallenge => {
            let challenge = ContactShareChallenge::from(generate_byte_challenge());
            ephemeral.add_share(&challenge.0);
            Step::respond(Response::ContactShareChallenge(challenge))
        },
        ClientAction::UnregisterContactShareChallenge(challenge) => {
            ephemeral.drop_share(&challenge.0);
            Step::respond(Response::Done)
        },
        action => serve_directly(action),
    }
}

fn serve_directly(action: ClientAction) -> (r: Step)
    requires
        !(action is WaitForReady),
        !(action is RegisterSelfContactInviteChallenge),
        !(action is UnregisterSelfContactInviteChallenge),
        !(action is RegisterContactShareChallenge),
        !(action is UnregisterContactShareChallenge),
    ensures
        client_is_served_directly(action, r),
        r.is_consistent(),
{
    match action {
        ClientAction::CreateFilerequest(request) => {
            let title = request.title.clone();
            Step::ask(
                Query::Db(DbCommand::CreateFilerequest(request)),
                BrainState::FilerequestStored { title },
            )
        },
        ClientAction::UpdateFilerequest(update) => {
            let id = update.id.clone();
            Step::ask(
                Query::Db(DbCommand::GetFilerequest(id)),
                BrainState::FilerequestRead { update },
            )
        },
        ClientAction::DeleteFilerequest(id) => Step::ask(
            Query::Db(DbCommand::DeleteFilerequest(id)),
            BrainState::Relay,
        ),
        ClientAction::ReadFilerequest(id) => Step::ask(
            Query::Db(DbCommand::GetFilerequest(id)),
            BrainState::Relay,
        ),
        ClientAction::ListFilerequests => Step::ask(
            Query::Db(DbCommand::GetFilerequests),
            BrainState::Relay,
        ),
        ClientAction::GetContactName(id) => Step::ask(
            Query::Db(DbCommand::GetContactName(id)),
            BrainState::Relay,
        ),
        ClientAction::GetContactNames(ids) => Step::ask(
            Query::Db(DbCommand::GetContactNames(ids)),
            BrainState::Relay,
        ),
        ClientAction::GetContact(id) => Step::ask(
            Query::Db(DbCommand::GetContact(id)),
            BrainState::Relay,
        ),
        ClientAction::ListContacts => Step::ask(
            Query::Db(DbCommand::GetContacts),
            BrainState::Relay,
        ),
        ClientAction::UpdateContact(contact) => Step::ask(
            Query::Db(DbCommand::UpdateContact(contact)),
            BrainState::Relay,
        ),
        ClientAction::DeleteContact(id) => Step::ask(
            Query::Db(DbCommand::DeleteContact(id)),
            BrainState::Relay,
        ),
        ClientAction::Shutdown => Step::respond(Response::Answer(Answer::Flag(Ok(true)))),
        ClientAction::GetNodeStatus => Step::ask(
            Query::Network(NetworkCommand::GetNodeInfo),
            BrainState::RelayStatus,
        ),
        ClientAction::CreateRemoteFilerequest(request) => Step::ask(
            Query::Db(DbCommand::CreateRemoteFilerequest(request)),
            BrainState::Relay,
        ),
        ClientAction::GetRemoteFilerequest(id) => Step::ask(
            Query::Db(DbCommand::GetRemoteFilerequest(id)),
            BrainState::Relay,
        ),
        ClientAction::GetRemoteFilerequestsByContact(id) => Step::ask(
            Query::Db(DbCommand::GetRemoteFilerequestsByContact(id)),
            BrainState::Relay,
        ),
        ClientAction::GetAllRemoteFilerequests => Step::ask(
            Query::Db(DbCommand::GetAllRemoteFilerequests),
            BrainState::Relay,
        ),
        ClientAction::DeleteRemoteFilerequest(id) => Step::ask(
            Query::Db(DbCommand::GetRemoteFilerequest(id.clone())),
            BrainState::RemoteRequestRead { id },
        ),
        ClientAction::UpdateRemoteFilerequest(id, name) => Step::ask(
            Query::Db(DbCommand::UpdateRemoteFilerequest { id, name }),
            BrainState::Relay,
        ),
        ClientAction::CreatePendingFiles(files) => {
            let id = files.target_filerequest_id.clone();
            Step::ask(
                Query::Db(DbCommand::GetRemoteFilerequest(id)),
                BrainState::TargetRead { files },
            )
        },
        ClientAction::GetPendingFile(id) => Step::ask(
            Query::Db(DbCommand::GetPendingFile(id)),
            BrainState::Relay,
        ),
        ClientAction::GetPendingFiles(id) => Step::ask(
            Query::Db(DbCommand::GetPendingFiles(id)),
            BrainState::Relay,
        ),
        ClientAction::GetAllPendingFiles => Step::ask(
            Query::Db(DbCommand::GetAllPendingFiles),
            BrainState::Relay,
        ),
        ClientAction::DeletePendingFile(id) => Step::ask(
            Query::Db(DbCommand::GetPendingFile(id.clone())),
            BrainState::PendingFileRead { id },
        ),
        ClientAction::GetNodePeerId => Step::ask(
            Query::Db(DbCommand::GetNodeKeys),
            BrainState::KeysRead,
        ),
        ClientAction::ListReceivedFilesForRequest(id) => Step::ask(
            Query::Db(DbCommand::ListReceivedFiles(id)),
            BrainState::Relay,
        ),
        ClientAction::DeleteReceivedFile(id) => Step::ask(
            Query::Db(DbCommand::DeleteReceivedFile(id)),
            BrainState::Relay,
        ),
        ClientAction::UpdateSelfContactName(name) => Step::ask(
            Query::Db(DbCommand::UpdateSelfContactName(name)),
            BrainState::Relay,
        ),
        ClientAction::GetFullSelfContact => Step::ask(
            Query::Db(DbCommand::GetSelfContact),
            BrainState::Relay,
        ),
        ClientAction::UpdateIdentity(identity) => {
            let stored = identity.clone();
            Step::ask(
                Query::Db(DbCommand::UpdateIdentity(stored)),
                BrainState::IdentityStored { contact_id: identity.id, keys: identity.keys },
            )
        },
        ClientAction::GetSelfContactDisplay => Step::ask(
            Query::Db(DbCommand::GetSelfContactForDisplay),
            BrainState::Relay,
        ),
        ClientAction::SharePublicSelfContact => Step::ask(
            Query::Db(DbCommand::GetSharablePublicSelfContact),
            BrainState::Relay,
        ),
        ClientAction::RegisterContact(contact) => Step::ask(
            Query::Db(DbCommand::RegisterContact(contact)),
            BrainState::Relay,
        ),
        ClientAction::UseSelfContactInviteChallenge(challenge, peer_id) => Step::ask(
            Query::Network(
                NetworkCommand::UseSelfContactInvite { invite_code: challenge, peer_id },
            ),
            BrainState::ChallengeUsed,
        ),
        ClientAction::UseContactShareChallenge(challenge, peer_id) => Step::ask(
            Query::Network(
                NetworkCommand::UseContactShareChallenge { share_code: challenge, peer_id },
            ),
            BrainState::ChallengeUsed,
        ),
        ClientAction::BackupData => Step::ask(
            Query::Host(HostCommand::OpenBackupFile),
            BrainState::BackupFileOpened,
        ),
        ClientAction::RestoreData(uri) => Step::ask(
            Query::Host(HostCommand::AccessFileForReading(uri)),
            BrainState::BackupAccessed,
        ),
        ClientAction::UpdateSettings(settings) => {
            let applied = copy_bytes(&settings);
            Step::ask(
                Query::Network(NetworkCommand::ApplySettings(applied)),
                BrainState::SettingsApplied { settings },
            )
        },
        ClientAction::GetSettings => Step::ask(
            Query::Db(DbCommand::GetSettings),
            BrainState::Relay,
        ),
        _ => {
            assert(false);
            Step::end()
        },
    }
}

/// What follows from what the network node tells or asks for.
pub open spec fn node_is_served(
    action: NetworkNodeAction,
    before: crate::brain::state::EphemeralView,
    after: crate::brain::state::EphemeralView,
    step: Step,
) -> bool {
    match action {
        NetworkNodeAction::ValidateSelfContactInviteChallenge(challenge) => {
            &&& after == crate::brain::state::EphemeralView {
                invites: before.invites.remove(challenge@),
                ..before
            }
            &&& invite_is_checked(false, step) || (
            before.invites.contains_key(challenge@) && invite_is_checked(true, step))
        },
        NetworkNodeAction::ValidateContactShareChallenge(challenge) => {
            &&& after == before
            &&& share_is_checked(false, step) || (
            before.shares.contains_key(challenge@) && share_is_checked(true, step))
        },
        _ => after == before && node_is_served_directly(action, step),
    }
}

/// What follows from what the network node tells or asks for, where it touches nothing that the
/// service remembers.
pub open spec fn node_is_served_directly(action: NetworkNodeAction, step: Step) -> bool {
    match action {
        NetworkNodeAction::RequestFileDrop(request) => step.asks(
            Query::Db(DbCommand::GetFilerequest(request.filerequest_id)),
            BrainState::DropRequestRead { contact_id: request.contact_id },
        ),
        NetworkNodeAction::RequestFileTransferContinuation(request) => step.asks(
            Query::Db(DbCommand::GetReceivedFileByTransferId(request.transfer_id)),
            BrainState::TransferRead { request },
        ),
        NetworkNodeAction::GetNodeInfo => step.asks(
            Query::Db(DbCommand::GetNodeKeys),
            BrainState::OwnKeysRead,
        ),
        NetworkNodeAction::Ready => step.asks(
            Query::Db(DbCommand::GetAllRemoteFilerequests),
            BrainState::StartRemotesRead,
        ),
        NetworkNodeAction::FileSent { pending_file_id } => status_is_stored(
            pending_file_id,
            SendStatus::Sent,
            None,
            None,
            AfterStatus::CleanUp,
            step,
        ),
        NetworkNodeAction::FileSending { pending_file_id, status } => status_is_stored(
            pending_file_id,
            status,
            None,
            None,
            AfterStatus::Nothing,
            step,
        ),
        NetworkNodeAction::FileSendReset {
            pending_file_id,
            status,
            retry_count,
            reason,
        } => status_is_stored(
            pending_file_id,
            status,
            retry_count,
            reason,
            AfterStatus::Nothing,
            step,
        ),
        NetworkNodeAction::FileRejected { pending_file_id } => status_is_stored(
            pending_file_id,
            SendStatus::Rejected,
            None,
            None,
            AfterStatus::CleanUp,
            step,
        ),
        NetworkNodeAction::FileFailed { pending_file_id } => status_is_stored(
            pending_file_id,
            SendStatus::Failed,
            None,
            None,
            AfterStatus::CleanUp,
            step,
        ),
        NetworkNodeAction::FileMissing { pending_file_id } => status_is_stored(
            pending_file_id,
            SendStatus::Failed,
            None,
            None,
            AfterStatus::CleanUp,
            step,
        ),
        NetworkNodeAction::FileIoError { file } => status_is_stored(
            file,
            SendStatus::Failed,
            None,
            None,
            AfterStatus::CleanUp,
            step,
        ),
        NetworkNodeAction::StoreReceivedFile(completed) => step.asks(
            Query::Db(DbCommand::CompleteReceivedFile(completed)),
            BrainState::ReceivedCompleted { transfer_id: completed.transfer_id },
        ),
        NetworkNodeAction::CreateIncomingFile(incoming) => step.asks(
            Query::Db(DbCommand::CreateIncomingFile(incoming)),
            BrainState::IncomingStored { incoming },
        ),
        NetworkNodeAction::UpdateReceivedFileStatus {
            transfer_id,
            status,
            progress_bytes,
        } => step.asks(
            Query::Db(
                DbCommand::UpdateReceivedFileStatus { transfer_id, status, progress_bytes },
            ),
            BrainState::ReceiveStatusStored { transfer_id },
        ),
        NetworkNodeAction::DeleteReceivedFile { transfer_id } => step.asks(
            Query::Db(DbCommand::GetReceivedFileByTransferId(transfer_id)),
            BrainState::ReceivedToDelete,
        ),
        NetworkNodeAction::GetContactPublicKeys(contact_id) => step.asks(
            Query::Db(DbCommand::GetContactPublicKeys(contact_id)),
            BrainState::PublicKeysRead { contact_id },
        ),
        NetworkNodeAction::IsContactKnown(contact_id) => step.asks(
            Query::Db(DbCommand::GetContactName(contact_id)),
            BrainState::ContactNameRead,
        ),
        NetworkNodeAction::OpenFileForReading(request) => step.asks(
            Query::Host(HostCommand::AccessFileForReading(request.uri)),
            BrainState::FileOpened { id: request.id },
        ),
        NetworkNodeAction::UpdateIdentity(identity) => {
            &&& step.effects@ == Seq::<Effect>::empty()
            &&& step.next matches Next::Await(query, state)
            &&& query matches Query::Db(DbCommand::UpdateIdentity(stored))
            &&& stored@ == identity@
            &&& state == BrainState::NewIdentityStored {
                contact_id: identity.id,
                keys: identity.keys,
            }
        },
        NetworkNodeAction::AnsweredSelfContactInvite => step.pushes(
            ServerMessage {
                message: Some(
                    Message::SelfContactInviteAcceptedOverNetwork(
                        SelfContactInviteAcceptedOverNetwork {  },
                    ),
                ),
            },
        ),
        NetworkNodeAction::RejectedSelfContactInvite => step.ends(),
        NetworkNodeAction::SelfContactInviteGotRejected => step.ends(),
        NetworkNodeAction::CreateContact(contact) => step.asks(
            Query::Db(DbCommand::RegisterContact(contact)),
            BrainState::ContactRegistered,
        ),
        NetworkNodeAction::AnsweredContactShare => step.ends(),
        NetworkNodeAction::RejectedContactShare => step.ends(),
        NetworkNodeAction::ContactShareGotRejected => step.ends(),
        _ => false,
    }
}

/// Whether a challenge is confirmed as the service tells of it, which depends on the time where it
/// knows the challenge.
pub open spec fn challenge_is_decided(
    action: NetworkNodeAction,
    before: EphemeralBrainData,
    step: Step,
) -> bool {
    match action {
        NetworkNodeAction::ValidateSelfContactInviteChallenge(challenge) => {
            ||| before.tells_invite(challenge@, true) && invite_is_checked(true, step)
            ||| before.tells_invite(challenge@, false) && invite_is_checked(false, step)
        },
        NetworkNodeAction::ValidateContactShareChallenge(challenge) => {
            ||| before.tells_share(challenge@, true) && share_is_checked(true, step)
            ||| before.tells_share(challenge@, false) && share_is_checked(false, step)
        },
        _ => true,
    }
}

/// Begins to handle what the network node tells or asks for.
pub fn handle_p2p_action(ephemeral: &mut EphemeralBrainData, action: NetworkNodeAction) -> (r: Step)
    ensures
        node_is_served(action, old(ephemeral)@, final(ephemeral)@, r),
        challenge_is_decided(action, *old(ephemeral), r),
        r.is_consistent(),
{
    match action {
        NetworkNodeAction::ValidateSelfContactInviteChallenge(challenge) => {
            let confirmed = ephemeral.drop_invite(&challenge.0);
            check_invite(confirmed)
        },
        NetworkNodeAction::ValidateContactShareChallenge(challenge) => {
            let confirmed = ephemeral.has_share(&challenge.0);
            check_share(confirmed)
        },
        action => serve_node_directly(action),
    }
}

fn serve_node_directly(action: NetworkNodeAction) -> (r: Step)
    requires
        !(action is ValidateSelfContactInviteChallenge),
        !(action is ValidateContactShareChallenge),
    ensures
        node_is_served_directly(action, r),
        r.is_consistent(),
{
    match action {
        NetworkNodeAction::RequestFileDrop(request) => Step::ask(
            Query::Db(DbCommand::GetFilerequest(request.filerequest_id)),
            BrainState::DropRequestRead { contact_id: request.contact_id },
        ),
        NetworkNodeAction::RequestFileTransferContinuation(request) => {
            let transfer_id = request.transfer_id.clone();
            Step::ask(
                Query::Db(DbCommand::GetReceivedFileByTransferId(transfer_id)),
                BrainState::TransferRead { request },
            )
        },
        NetworkNodeAction::GetNodeInfo => Step::ask(
            Query::Db(DbCommand::GetNodeKeys),
            BrainState::OwnKeysRead,
        ),
        NetworkNodeAction::Ready => Step::ask(
            Query::Db(DbCommand::GetAllRemoteFilerequests),
            BrainState::StartRemotesRead,
        ),
        NetworkNodeAction::FileSent { pending_file_id } => store_status(
            pending_file_id,
            SendStatus::Sent,
            None,
            None,
            AfterStatus::CleanUp,
        ),
        NetworkNodeAction::FileSending { pending_file_id, status } => store_status(
            pending_file_id,
            status,
            None,
            None,
            AfterStatus::Nothing,
        ),
        NetworkNodeAction::FileSendReset {
            pending_file_id,
            status,
            retry_count,
            reason,
        } => store_status(
            pending_file_id,
            status,
            retry_count,
            reason,
            AfterStatus::Nothing,
        ),
        NetworkNodeAction::FileRejected { pending_file_id } => store_status(
            pending_file_id,
            SendStatus::Rejected,
            None,
            None,
            AfterStatus::CleanUp,
        ),
        NetworkNodeAction::FileFailed { pending_file_id } => store_status(
            pending_file_id,
            SendStatus::Failed,
            None,
            None,
            AfterStatus::CleanUp,
        ),
        NetworkNodeAction::FileMissing { pending_file_id } => store_status(
            pending_file_id,
            SendStatus::Failed,
            None,
            None,
            AfterStatus::CleanUp,
        ),
        NetworkNodeAction::FileIoError { file } => store_status(
            file,
            SendStatus::Failed,
            None,
            None,
            AfterStatus::CleanUp,
        ),
        NetworkNodeAction::StoreReceivedFile(completed) => {
            let transfer_id = completed.transfer_id.clone();
            Step::ask(
                Query::Db(DbCommand::CompleteReceivedFile(completed)),
                BrainState::ReceivedCompleted { transfer_id },
            )
        },
        NetworkNodeAction::CreateIncomingFile(incoming) => Step::ask(
            Query::Db(DbCommand::CreateIncomingFile(incoming.clone())),
            BrainState::IncomingStored { incoming },
        ),
        NetworkNodeAction::UpdateReceivedFileStatus {
            transfer_id,
            status,
            progress_bytes,
        } => Step::ask(
            Query::Db(
                DbCommand::UpdateReceivedFileStatus {
                    transfer_id: transfer_id.clone(),
                    status,
                    progress_bytes,
                },
            ),
            BrainState::ReceiveStatusStored { transfer_id },
        ),
        NetworkNodeAction::DeleteReceivedFile { transfer_id } => Step::ask(
            Query::Db(DbCommand::GetReceivedFileByTransferId(transfer_id)),
            BrainState::ReceivedToDelete,
        ),
        NetworkNodeAction::GetContactPublicKeys(contact_id) => Step::ask(
            Query::Db(DbCommand::GetContactPublicKeys(contact_id.clone())),
            BrainState::PublicKeysRead { contact_id },
        ),
        NetworkNodeAction::IsContactKnown(contact_id) => Step::ask(
            Query::Db(DbCommand::GetContactName(contact_id)),
            BrainState::ContactNameRead,
        ),
        NetworkNodeAction::OpenFileForReading(request) => Step::ask(
            Query::Host(HostCommand::AccessFileForReading(request.uri)),
            BrainState::FileOpened { id: request.id },
        ),
        NetworkNodeAction::UpdateIdentity(identity) => {
            let stored = identity.clone();
            Step::ask(
                Query::Db(DbCommand::UpdateIdentity(stored)),
                BrainState::NewIdentityStored { contact_id: identity.id, keys: identity.keys },
            )
        },
        NetworkNodeAction::AnsweredSelfContactInvite => Step::push(
            ServerMessage::self_contact_invite_accepted_over_network(),
        ),
        NetworkNodeAction::RejectedSelfContactInvite => Step::end(),
        NetworkNodeAction::SelfContactInviteGotRejected => Step::end(),
        NetworkNodeAction::CreateContact(contact) => Step::ask(
            Query::Db(DbCommand::RegisterContact(contact)),
            BrainState::ContactRegistered,
        ),
        NetworkNodeAction::AnsweredContactShare => Step::end(),
        NetworkNodeAction::RejectedContactShare => Step::end(),
        NetworkNodeAction::ContactShareGotRejected => Step::end(),
        _ => {
            assert(false);
            Step::end()
        },
    }
}

/// Begins to handle an action.
pub fn handle_action(ephemeral: &mut EphemeralBrainData, action: BrainAction) -> (r: Step)
    ensures
        match action {
            BrainAction::Client(action) => client_is_served(
                action,
                old(ephemeral)@,
                final(ephemeral)@,
                r,
            ) && challenges_are_kept(action, *old(ephemeral), *final(ephemeral)),
            BrainAction::NetworkNode(action) => node_is_served(
                action,
                old(ephemeral)@,
                final(ephemeral)@,
                r,
            ) && challenge_is_decided(action, *old(ephemeral), r),
        },
        r.is_consistent(),
{
    match action {
        BrainAction::Client(action) => handle_client_action(ephemeral, action),
        BrainAction::NetworkNode(action) => handle_p2p_action(ephemeral, action),
    }
}

} // verus!
