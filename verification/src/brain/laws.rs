//! What holds of the service whatever it is asked and told.
use vstd::prelude::*;

use crate::brain::action_client::ClientAction;
use crate::brain::action_p2p::{FilerequestContinueRequest, NetworkNodeAction};
use crate::brain::exchange::{Answer, DbCommand, Effect, HostReply, Query, Response};
use crate::brain::state::{AfterStatus, BrainState, Next, Step};
use crate::brain::types::{ContactShareChallenge, SelfContactInviteChallenge};
use crate::db::DatabaseResult;
use crate::domain_models::{
    ContactId, Filerequest, FylesId, InProgressSendStatus, PendingFile, ReceivedFile,
    RemoteFilerequest, SelfContact, SendStatus,
};

verus! {

/// Whether whoever asked may drop a file.
pub open spec fn lets_drop(step: Step) -> bool {
    &&& step.effects@.len() == 1
    &&& step.effects@[0] matches Effect::Respond(Response::FileDrop(Some(_)))
}

/// Whether whoever asked may continue a transfer.
pub open spec fn lets_continue(step: Step) -> bool {
    &&& step.effects@.len() == 1
    &&& step.effects@[0] matches Effect::Respond(Response::Continuation(Some(_)))
}

/// Whether the contact may drop files for the request: it is active, and the contact is admitted
/// or is that of the node's owner.
pub open spec fn may_drop(
    filerequest: DatabaseResult<Filerequest>,
    contact_id: Option<ContactId>,
    own: DatabaseResult<SelfContact>,
) -> bool {
    &&& filerequest matches Ok(filerequest)
    &&& filerequest.is_active
    &&& {
        ||| filerequest.access@.admits(crate::domain_models::opt_view(contact_id))
        ||| own matches Ok(own) && contact_id matches Some(contact_id) && own.id@ == contact_id@
    }
}

/// A file may be dropped exactly where the request is active and the contact is admitted or is
/// that of the node's owner; `own` is what the store answers if it is asked who that is.
pub proof fn law_files_are_dropped_only_with_permission(
    contact_id: Option<ContactId>,
    filerequest: DatabaseResult<Filerequest>,
    own: DatabaseResult<SelfContact>,
    separator: char,
    first: Step,
    second: Step,
)
    requires
        crate::brain::handle_action::after_drop_request_read(
            contact_id,
            filerequest,
            separator,
            first,
        ),
        first.next matches Next::Await(query, state) ==> {
            &&& state matches BrainState::DropSelfRead { filerequest, contact_id }
            &&& crate::brain::handle_action::after_drop_self_read(
                filerequest,
                contact_id,
                own,
                separator,
                second,
            )
        },
    ensures
        lets_drop(first) || (first.next is Await && lets_drop(second)) <==> may_drop(
            filerequest,
            contact_id,
            own,
        ),
{
}

/// A transfer may be continued exactly where the store knows both the request and the transfer,
/// the request is active and open to the contact, and it is the peer and the contact that the
/// transfer was started with.
pub proof fn law_transfers_are_continued_only_by_their_peer(
    request: FilerequestContinueRequest,
    received: DatabaseResult<ReceivedFile>,
    filerequest: DatabaseResult<Filerequest>,
    separator: char,
    first: Step,
    second: Step,
)
    requires
        crate::brain::handle_action::after_transfer_read(request, received, first),
        first.next matches Next::Await(query, state) && state matches BrainState::ContinuationRead {
            request,
            received,
        } && crate::brain::handle_action::after_continuation_read(
            request,
            received,
            filerequest,
            separator,
            second,
        ),
    ensures
        first.next matches Next::Await(query, _) && query == Query::Db(
            DbCommand::GetFilerequest(request.filerequest_id),
        ),
        lets_continue(second) <==> {
            &&& filerequest matches Ok(filerequest)
            &&& received matches Ok(received)
            &&& crate::brain::handle_action::may_continue(filerequest@, received@, request)
        },
{
}

/// An invite is valid at most once: once a device has presented it, or it was withdrawn, nobody
/// is given the identity of the node for it.
pub proof fn law_invites_are_used_once(
    challenge: SelfContactInviteChallenge,
    before: crate::brain::state::EphemeralView,
    between: crate::brain::state::EphemeralView,
    after: crate::brain::state::EphemeralView,
    first: Step,
    second: Step,
)
    requires
        crate::brain::handle_action::node_is_served(
            NetworkNodeAction::ValidateSelfContactInviteChallenge(challenge),
            before,
            between,
            first,
        ) || crate::brain::handle_action::client_is_served(
            ClientAction::UnregisterSelfContactInviteChallenge(challenge),
            before,
            between,
            first,
        ),
        crate::brain::handle_action::node_is_served(
            NetworkNodeAction::ValidateSelfContactInviteChallenge(challenge),
            between,
            after,
            second,
        ),
    ensures
        second.responds(Response::SelfContact(None)),
{
}

/// The identity of the node is asked for only for a challenge that was registered and not yet
/// used; its contact only for a challenge that was registered and not withdrawn.
pub proof fn law_unknown_challenges_are_refused(
    invite: SelfContactInviteChallenge,
    share: ContactShareChallenge,
    before: crate::brain::state::EphemeralView,
    after_invite: crate::brain::state::EphemeralView,
    after_share: crate::brain::state::EphemeralView,
    on_invite: Step,
    on_share: Step,
)
    requires
        crate::brain::handle_action::node_is_served(
            NetworkNodeAction::ValidateSelfContactInviteChallenge(invite),
            before,
            after_invite,
            on_invite,
        ),
        crate::brain::handle_action::node_is_served(
            NetworkNodeAction::ValidateContactShareChallenge(share),
            before,
            after_share,
            on_share,
        ),
    ensures
        !before.invites.contains_key(invite@) ==> on_invite.responds(Response::SelfContact(None)),
        !before.shares.contains_key(share@) ==> on_share.responds(Response::Contact(None)),
{
}

/// Whoever was queued while the node started is told when it is ready.
pub proof fn law_waiting_clients_are_answered(
    ticket: u64,
    before: crate::brain::state::EphemeralView,
    queued: crate::brain::state::EphemeralView,
    ready: crate::brain::state::EphemeralView,
    files: Seq<crate::p2p::FileToSendView>,
    first: Step,
    second: Step,
)
    requires
        crate::brain::handle_action::client_is_served(
            ClientAction::WaitForReady(ticket),
            before,
            queued,
            first,
        ),
        first.ends(),
        crate::brain::handle_action::hands_over(queued, ready, files, second),
    ensures
        second.effects@[0] matches Effect::AnswerWaiters(tickets) && tickets@.contains(ticket),
        ready.successfully_started,
        ready.waiting is None,
{
    if let Some(waiting) = before.waiting {
        assert(first.effects@.len() == 0);
        assert(waiting.tickets.len() < waiting.room) by {
            if waiting.tickets.len() >= waiting.room {
                assert(seq![Effect::DropWaiter(ticket)].len() == 1);
            }
        }
        let tickets = waiting.tickets.push(ticket);
        assert(tickets[tickets.len() - 1] == ticket);
    } else {
        assert(seq![
            Effect::Respond(Response::Ready(before.successfully_started)),
        ].len() == 1);
    }
}

/// When the node starts, it goes on with exactly the files that are not done with and whose file
/// request is known, and it counts none of them as being sent.
pub proof fn law_start_continues_unfinished_files(
    pending: Seq<PendingFile>,
    remotes: Seq<RemoteFilerequest>,
)
    ensures
        forall|k: int|
            0 <= k < crate::brain::handle_action::files_to_continue(pending, remotes).len()
                ==> exists|i: int|
                0 <= i < pending.len() && pending[i].status@.is_unfinished()
                    && crate::brain::handle_action::continued(#[trigger] pending[i], remotes)
                    == Some(
                    #[trigger] crate::brain::handle_action::files_to_continue(pending, remotes)[k],
                ),
        forall|i: int|
            0 <= i < pending.len() && #[trigger] pending[i].status@.is_unfinished()
                && crate::brain::handle_action::remote_of(
                remotes,
                pending[i].target_filerequest_id@,
            ) is Some ==> crate::brain::handle_action::files_to_continue(
                pending,
                remotes,
            ).contains(crate::brain::handle_action::continued(pending[i], remotes)->0),
        forall|k: int|
            0 <= k < crate::brain::handle_action::files_to_continue(pending, remotes).len()
                ==> !((
            #[trigger] crate::brain::handle_action::files_to_continue(
                pending,
                remotes,
            )[k]).status matches crate::domain_models::SendStatusView::InProgress {
                status: InProgressSendStatus::Sending,
                ..
            }),
    decreases pending.len(),
{
    let files = crate::brain::handle_action::files_to_continue(pending, remotes);
    if pending.len() > 0 {
        let fewer = pending.drop_last();
        let before = crate::brain::handle_action::files_to_continue(fewer, remotes);
        law_start_continues_unfinished_files(fewer, remotes);
        let last = crate::brain::handle_action::continued(pending.last(), remotes);
        assert forall|k: int| 0 <= k < files.len() implies exists|i: int|
            0 <= i < pending.len() && pending[i].status@.is_unfinished()
                && crate::brain::handle_action::continued(#[trigger] pending[i], remotes) == Some(
                #[trigger] files[k],
            ) by {
            if k < before.len() {
                let i = choose|i: int|
                    0 <= i < fewer.len() && fewer[i].status@.is_unfinished()
                        && crate::brain::handle_action::continued(#[trigger] fewer[i], remotes)
                        == Some(before[k]);
                assert(pending[i] == fewer[i]);
                assert(files[k] == before[k]);
            } else {
                let i = pending.len() - 1;
                assert(pending[i] == pending.last());
            }
        }
        assert forall|i: int|
            0 <= i < pending.len() && #[trigger] pending[i].status@.is_unfinished()
                && crate::brain::handle_action::remote_of(
                remotes,
                pending[i].target_filerequest_id@,
            ) is Some implies files.contains(
            crate::brain::handle_action::continued(pending[i], remotes)->0,
        ) by {
            let wanted = crate::brain::handle_action::continued(pending[i], remotes)->0;
            if i < fewer.len() {
                assert(fewer[i] == pending[i]);
                assert(fewer[i].status@.is_unfinished());
                let k = choose|k: int| 0 <= k < before.len() && before[k] == wanted;
                assert(files[k] == wanted);
            } else {
                assert(files[files.len() - 1] == wanted);
            }
        }
        assert forall|k: int| 0 <= k < files.len() implies !((
        #[trigger] files[k]).status matches crate::domain_models::SendStatusView::InProgress {
            status: InProgressSendStatus::Sending,
            ..
        }) by {
            if k < before.len() {
                assert(files[k] == before[k]);
            }
        }
    }
}

/// Where the directory of a new file request cannot be made, the request is deleted again and the
/// client is told that it was not created.
pub proof fn law_failed_creation_is_rolled_back(
    title: String,
    id: FylesId,
    separator: char,
    made: HostReply,
    deleted: DatabaseResult<()>,
    first: Step,
    second: Step,
    third: Step,
)
    requires
        made is Err,
        crate::brain::handle_action::after_filerequest_stored(title, Ok(id), separator, first),
        crate::brain::handle_action::after_directory_created(id, made, second),
        crate::brain::handle_action::after_creation_rolled_back(deleted, third),
    ensures
        first.next matches Next::Await(_, state) && state == (BrainState::DirectoryCreated {
            id,
        }),
        second.asks(Query::Db(DbCommand::DeleteFilerequest(id)), BrainState::CreationRolledBack),
        third.effects@[0] matches Effect::Respond(Response::Answer(Answer::Id(Err(_)))),
{
}

/// The source of a file is removed only once no other file that is still to be sent needs it.
pub proof fn law_sources_in_use_are_kept(
    path: String,
    refuse: bool,
    count: DatabaseResult<usize>,
    step: Step,
)
    requires
        crate::brain::handle_action::after_cleanup_counted(path, refuse, count, step),
    ensures
        step.next is Await <==> (count matches Ok(others) && others == 0),
        step.next matches Next::Await(query, _) ==> query == Query::Host(
            crate::brain::exchange::HostCommand::RemoveSourceFileIfTemporary(path),
        ),
{
}

/// Whatever becomes of a file to send, its new status is stored before clients hear of it, and
/// they hear what was stored.
pub proof fn law_clients_hear_of_stored_status_only(
    id: FylesId,
    status: SendStatus,
    retry_count: Option<usize>,
    then_do: AfterStatus,
    target: FylesId,
    first: Step,
    second: Step,
)
    requires
        crate::brain::handle_action::status_is_stored(
            id,
            status,
            retry_count,
            None,
            then_do,
            first,
        ),
        crate::brain::handle_action::after_status_stored(
            id,
            status,
            None,
            then_do,
            Ok(target),
            second,
        ),
    ensures
        first.effects@.len() == 0,
        first.next matches Next::Await(query, _) && query == Query::Db(
            (DbCommand::UpdatePendingFileStatus { id, status, retry_count }),
        ),
        second.effects@.len() == 1,
        second.effects@[0] matches Effect::Push(message) && message.reports_pending_file(
            id@,
            status@,
            target@,
        ),
{
}

} // verus!
