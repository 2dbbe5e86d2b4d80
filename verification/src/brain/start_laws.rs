//! What the network node goes on with when the node starts.
use vstd::prelude::*;

use crate::brain::action_p2p::NetworkNodeAction;
use crate::brain::exchange::{Answer, DbCommand, NetworkCommand, Query, Reply};
use crate::brain::state::{BrainState, Next};
use crate::domain_models::{
    FylesId, InProgressSendStatus, PendingFile, RemoteFilerequest, SendStatus,
};
use crate::p2p::FileToSend;

verus! {

/// Whether the file request is the one that the file is for; the last one of them where several
/// have its id.
pub open spec fn is_target(
    file: PendingFile,
    remotes: Seq<RemoteFilerequest>,
    j: int,
) -> bool {
    &&& 0 <= j < remotes.len()
    &&& remotes[j].id@ == file.target_filerequest_id@
    &&& forall|later: int|
        j < later < remotes.len() ==> (#[trigger] remotes[later]).id@
            != file.target_filerequest_id@
}

/// Whether there is something left to do of the file: it may still be sent, and the file request
/// that it is for is known.
pub open spec fn is_left(file: PendingFile, remotes: Seq<RemoteFilerequest>) -> bool {
    &&& file.status is Pending || file.status is InProgress
    &&& exists|j: int| #[trigger] is_target(file, remotes, j)
}

/// Whether the file was being sent when the node stopped.
pub open spec fn was_being_sent(file: PendingFile) -> bool {
    file.status matches SendStatus::InProgress(progress) && progress.status
        == InProgressSendStatus::Sending
}

/// Whether the status is that of the file after a restart: as it was, but interrupted where the file
/// was being sent, and got as far as it had.
pub open spec fn is_restarted(
    file: PendingFile,
    status: crate::domain_models::SendStatusView,
) -> bool {
    if was_being_sent(file) {
        &&& file.status matches SendStatus::InProgress(progress)
        &&& status matches crate::domain_models::SendStatusView::InProgress {
            status,
            transfer_data,
        }
        &&& status == InProgressSendStatus::Interrupted
        &&& transfer_data == progress.transfer_data@
    } else {
        status == file.status@
    }
}

/// Whether the network node gets the file as it is stored, for the peer and under the id by which
/// the peer knows its file request.
pub open spec fn is_handed_over(
    file: PendingFile,
    remotes: Seq<RemoteFilerequest>,
    sent: crate::p2p::FileToSendView,
) -> bool {
    exists|j: int|
        {
            &&& #[trigger] is_target(file, remotes, j)
            &&& sent.id == file.id@
            &&& sent.file_path == file.file_path@
            &&& sent.retry_count == file.retry_count
            &&& sent.peer_id == remotes[j].peer_id@
            &&& sent.contact_id == remotes[j].contact_id@
            &&& sent.filerequest_id == remotes[j].filerequest_id@
            &&& is_restarted(file, sent.status)
        }
}

/// Whether the places are those of all files that something is left to do of, in order.
pub open spec fn are_all_left(
    pending: Seq<PendingFile>,
    remotes: Seq<RemoteFilerequest>,
    places: Seq<int>,
) -> bool {
    &&& forall|k: int|
        0 <= k < places.len() ==> 0 <= #[trigger] places[k] < pending.len() && is_left(
            pending[places[k]],
            remotes,
        )
    &&& forall|k: int, l: int|
        0 <= k < l < places.len() ==> #[trigger] places[k] < #[trigger] places[l]
    &&& forall|i: int|
        0 <= i < pending.len() && is_left(#[trigger] pending[i], remotes) ==> places.contains(i)
}

proof fn lemma_target(file: PendingFile, remotes: Seq<RemoteFilerequest>)
    ensures
        match crate::brain::handle_action::remote_of(remotes, file.target_filerequest_id@) {
            Some(remote) => exists|j: int| #[trigger] is_target(file, remotes, j) && remotes[j]
                == remote,
            None => forall|j: int| !#[trigger] is_target(file, remotes, j),
        },
    decreases remotes.len(),
{
    let id = file.target_filerequest_id@;
    if remotes.len() > 0 {
        let fewer = remotes.drop_last();
        if remotes.last().id@ == id {
            assert(is_target(file, remotes, remotes.len() - 1));
        } else {
            lemma_target(file, fewer);
            match crate::brain::handle_action::remote_of(fewer, id) {
                Some(remote) => {
                    let j = choose|j: int| #[trigger] is_target(file, fewer, j) && fewer[j]
                        == remote;
                    assert forall|later: int| j < later < remotes.len() implies (
                    #[trigger] remotes[later]).id@ != id by {
                        if later < fewer.len() {
                            assert(fewer[later] == remotes[later]);
                        }
                    }
                    assert(is_target(file, remotes, j));
                },
                None => {
                    assert forall|j: int| !#[trigger] is_target(file, remotes, j) by {
                        if is_target(file, remotes, j) {
                            assert forall|later: int| j < later < fewer.len() implies (
                            #[trigger] fewer[later]).id@ != id by {
                                assert(fewer[later] == remotes[later]);
                            }
                            assert(is_target(file, fewer, j));
                        }
                    }
                },
            }
        }
    }
}

/// The places of the files that something is left to do of.
spec fn places_left(pending: Seq<PendingFile>, remotes: Seq<RemoteFilerequest>) -> Seq<int>
    decreases pending.len(),
{
    if pending.len() == 0 {
        Seq::empty()
    } else {
        let before = places_left(pending.drop_last(), remotes);
        if is_left(pending.last(), remotes) {
            before.push(pending.len() - 1)
        } else {
            before
        }
    }
}

/// The files that the network node goes on with are those that something is left to do of, all of
/// them, each once and in order, and it gets each as it is stored: with its id, path and number of
/// tries, for the peer and contact of its file request and under the id by which the peer knows it.
pub proof fn law_unfinished_files_are_handed_over(
    pending: Seq<PendingFile>,
    remotes: Seq<RemoteFilerequest>,
)
    ensures
        exists|places: Seq<int>|
            {
                let files = crate::brain::handle_action::files_to_continue(pending, remotes);
                &&& #[trigger] are_all_left(pending, remotes, places)
                &&& places.len() == files.len()
                &&& forall|k: int|
                    0 <= k < files.len() ==> is_handed_over(
                        pending[places[k]],
                        remotes,
                        #[trigger] files[k],
                    )
            },
{
    lemma_files_are_handed_over(pending, remotes);
    assert(are_all_left(pending, remotes, places_left(pending, remotes)));
}

proof fn lemma_files_are_handed_over(pending: Seq<PendingFile>, remotes: Seq<RemoteFilerequest>)
    ensures
        are_all_left(pending, remotes, places_left(pending, remotes)),
        places_left(pending, remotes).len() == crate::brain::handle_action::files_to_continue(
            pending,
            remotes,
        ).len(),
        forall|k: int|
            0 <= k < places_left(pending, remotes).len() ==> is_handed_over(
                pending[places_left(pending, remotes)[k]],
                remotes,
                #[trigger] crate::brain::handle_action::files_to_continue(pending, remotes)[k],
            ),
    decreases pending.len(),
{
    let places = places_left(pending, remotes);
    let files = crate::brain::handle_action::files_to_continue(pending, remotes);
    if pending.len() > 0 {
        let fewer = pending.drop_last();
        let last = pending.last();
        let before = places_left(fewer, remotes);
        let files_before = crate::brain::handle_action::files_to_continue(fewer, remotes);
        lemma_files_are_handed_over(fewer, remotes);
        lemma_target(last, remotes);
        assert(is_left(last, remotes) <==> crate::brain::handle_action::continued(
            last,
            remotes,
        ) is Some);
        assert forall|k: int| 0 <= k < places.len() implies 0 <= #[trigger] places[k]
            < pending.len() && is_left(pending[places[k]], remotes) by {
            if k < before.len() {
                assert(before[k] == places[k]);
                assert(fewer[before[k]] == pending[places[k]]);
            }
        }
        assert forall|k: int, l: int| 0 <= k < l < places.len() implies #[trigger] places[k]
            < #[trigger] places[l] by {
            assert(before[k] == places[k]);
            if l < before.len() {
                assert(before[l] == places[l]);
            }
        }
        assert forall|i: int|
            0 <= i < pending.len() && is_left(
                #[trigger] pending[i],
                remotes,
            ) implies places.contains(i) by {
            if i < fewer.len() {
                assert(fewer[i] == pending[i]);
                let k = choose|k: int| 0 <= k < before.len() && before[k] == i;
                assert(places[k] == i);
            } else {
                assert(places[places.len() - 1] == i);
            }
        }
        assert forall|k: int| 0 <= k < places.len() implies is_handed_over(
            pending[places[k]],
            remotes,
            #[trigger] files[k],
        ) by {
            if k < before.len() {
                assert(before[k] == places[k]);
                assert(files_before[k] == files[k]);
                assert(fewer[before[k]] == pending[places[k]]);
            } else {
                let remote = crate::brain::handle_action::remote_of(
                    remotes,
                    last.target_filerequest_id@,
                )->0;
                let j = choose|j: int| #[trigger] is_target(last, remotes, j) && remotes[j]
                    == remote;
                assert(is_target(last, remotes, j));
                assert(is_restarted(last, files[k].status));
            }
        }
    }
}

/// Only files that were being sent change their status, among those that something is left to do of;
/// they count as interrupted from now on.
pub proof fn law_only_files_that_were_being_sent_are_interrupted(
    pending: Seq<PendingFile>,
    remotes: Seq<RemoteFilerequest>,
    k: int,
)
    requires
        0 <= k < crate::brain::handle_action::files_to_reset(pending, remotes).len(),
    ensures
        exists|i: int| #[trigger]
            is_interrupted_at(
                pending,
                remotes,
                crate::brain::handle_action::files_to_reset(pending, remotes)[k],
                i,
            ),
    decreases pending.len(),
{
    let resets = crate::brain::handle_action::files_to_reset(pending, remotes);
    let fewer = pending.drop_last();
    let before = crate::brain::handle_action::files_to_reset(fewer, remotes);
    if k < before.len() {
        law_only_files_that_were_being_sent_are_interrupted(fewer, remotes, k);
        assert(before[k] == resets[k]);
        let i = choose|i: int| #[trigger] is_interrupted_at(fewer, remotes, before[k], i);
        assert(pending[i] == fewer[i]);
        assert(is_interrupted_at(pending, remotes, resets[k], i));
    } else {
        lemma_interrupted(pending.last(), remotes);
        assert(is_interrupted_at(pending, remotes, resets[k], pending.len() - 1));
    }
}

proof fn lemma_interrupted(file: PendingFile, remotes: Seq<RemoteFilerequest>)
    ensures
        is_left(file, remotes) <==> crate::brain::handle_action::continued(file, remotes) is Some,
        is_left(file, remotes) ==> {
            let next = crate::brain::handle_action::continued(file, remotes)->0;
            &&& next.status != file.status@ <==> was_being_sent(file)
            &&& next.id == file.id@
            &&& is_restarted(file, next.status)
        },
{
    lemma_target(file, remotes);
}

/// Every file that was being sent changes its status, among those that something is left to do of.
pub proof fn law_all_files_that_were_being_sent_are_interrupted(
    pending: Seq<PendingFile>,
    remotes: Seq<RemoteFilerequest>,
    i: int,
)
    requires
        0 <= i < pending.len(),
        is_left(pending[i], remotes),
        was_being_sent(pending[i]),
    ensures
        exists|k: int|
            0 <= k < crate::brain::handle_action::files_to_reset(pending, remotes).len()
                && is_interrupted_at(
                pending,
                remotes,
                #[trigger] crate::brain::handle_action::files_to_reset(pending, remotes)[k],
                i,
            ),
    decreases pending.len(),
{
    let resets = crate::brain::handle_action::files_to_reset(pending, remotes);
    let fewer = pending.drop_last();
    let before = crate::brain::handle_action::files_to_reset(fewer, remotes);
    if i < fewer.len() {
        assert(fewer[i] == pending[i]);
        law_all_files_that_were_being_sent_are_interrupted(fewer, remotes, i);
        let k = choose|k: int|
            0 <= k < before.len() && is_interrupted_at(fewer, remotes, #[trigger] before[k], i);
        assert(resets[k] == before[k]);
        assert(is_interrupted_at(pending, remotes, resets[k], i));
    } else {
        lemma_interrupted(pending.last(), remotes);
        assert(is_interrupted_at(pending, remotes, resets[resets.len() - 1], i));
    }
}

/// Whether this is the new status of the file at the place, which was being sent.
pub open spec fn is_interrupted_at(
    pending: Seq<PendingFile>,
    remotes: Seq<RemoteFilerequest>,
    reset: (Seq<char>, crate::domain_models::SendStatusView),
    i: int,
) -> bool {
    &&& 0 <= i < pending.len()
    &&& is_left(pending[i], remotes)
    &&& was_being_sent(pending[i])
    &&& reset.0 == pending[i].id@
    &&& is_restarted(pending[i], reset.1)
}

proof fn lemma_start_step(
    handling: crate::api_server::laws::Handling,
    remotes: Vec<RemoteFilerequest>,
    pending: Vec<PendingFile>,
    n: int,
)
    requires
        handling.is_of_node(NetworkNodeAction::Ready),
        handling.replies[0] == Reply::Db(Answer::RemoteFilerequests(Ok(remotes))),
        handling.replies[1] == Reply::Db(Answer::PendingFiles(Ok(pending))),
        2 <= n < handling.steps.len(),
    ensures
        ({
            let files = crate::brain::handle_action::files_to_continue(pending@, remotes@);
            let resets = crate::brain::handle_action::files_to_reset(pending@, remotes@);
            &&& n <= resets.len() + 3
            &&& n < resets.len() + 2 ==> {
                &&& handling.steps[n].effects@.len() == 0
                &&& handling.steps[n].next matches Next::Await(query, state)
                &&& query matches Query::Db(
                    DbCommand::UpdatePendingFileStatus { id, status, retry_count },
                )
                &&& (id@, status@) == resets[n - 2]
                &&& retry_count is None
                &&& state matches BrainState::FilesReset { files: kept, resets: planned, done }
                &&& crate::domain_models::views(kept@) == files
                &&& crate::brain::handle_action::reset_views(planned@) == resets
                &&& done == n - 2
            }
            &&& n == resets.len() + 2 ==> {
                &&& handling.steps[n].effects@.len() == 1
                &&& handling.steps[n].effects@[0] is AnswerWaiters
                &&& handling.steps[n].next matches Next::Await(query, state)
                &&& query matches Query::Network(NetworkCommand::InitialFilesToSend(list))
                &&& crate::domain_models::views(list@) == files
                &&& state is StartHandedOver
            }
            &&& n == resets.len() + 3 ==> handling.steps[n].ends()
        }),
    decreases n,
{
    assert(handling.goes_on(n - 1));
    if n == 2 {
        assert(handling.goes_on(0));
    } else {
        lemma_start_step(handling, remotes, pending, n - 1);
        let resets = crate::brain::handle_action::files_to_reset(pending@, remotes@);
        if n - 1 < resets.len() + 2 {
            if let Next::Await(_, BrainState::FilesReset { resets: planned, .. }) =
                handling.steps[n - 1].next {
                let views = crate::brain::handle_action::reset_views(planned@);
                assert(views.len() == planned@.len());
                if n - 2 < planned@.len() {
                    assert(views[n - 2] == (planned@[n - 2].0@, planned@[n - 2].1@));
                }
            }
        }
    }
}

/// How long a handling of the start is, and what comes first.
proof fn lemma_start_shape(
    handling: crate::api_server::laws::Handling,
    remotes: Vec<RemoteFilerequest>,
    pending: Vec<PendingFile>,
)
    requires
        handling.is_of_node(NetworkNodeAction::Ready),
        handling.is_over(),
        handling.got(
            Query::Db(DbCommand::GetAllRemoteFilerequests),
            Reply::Db(Answer::RemoteFilerequests(Ok(remotes))),
        ),
        handling.got(
            Query::Db(DbCommand::GetAllPendingFiles),
            Reply::Db(Answer::PendingFiles(Ok(pending))),
        ),
    ensures
        handling.replies[0] == Reply::Db(Answer::RemoteFilerequests(Ok(remotes))),
        handling.replies[1] == Reply::Db(Answer::PendingFiles(Ok(pending))),
        handling.steps.len() == crate::brain::handle_action::files_to_reset(
            pending@,
            remotes@,
        ).len() + 4,
        handling.steps[0].effects@.len() == 0,
        handling.steps[1].effects@.len() == 0,
        handling.steps[0].next matches Next::Await(query, _) && query == Query::Db(
            DbCommand::GetAllRemoteFilerequests,
        ),
        handling.steps[1].next matches Next::Await(query, _) && query == Query::Db(
            DbCommand::GetAllPendingFiles,
        ),
{
    assert(handling.steps[0].next is Await);
    assert(handling.replies.len() > 0);
    assert(handling.goes_on(0));
    assert(handling.steps[1].next is Await);
    assert(handling.replies.len() > 1);
    assert(handling.goes_on(1));
    let (first, second) = match (handling.replies[0], handling.replies[1]) {
        (
            Reply::Db(Answer::RemoteFilerequests(Ok(first))),
            Reply::Db(Answer::PendingFiles(Ok(second))),
        ) => (first, second),
        _ => (remotes, pending),
    };
    assert forall|n: int| 2 <= n < handling.steps.len() implies {
        &&& !handling.asks_at(n, Query::Db(DbCommand::GetAllRemoteFilerequests))
        &&& !handling.asks_at(n, Query::Db(DbCommand::GetAllPendingFiles))
    } by {
        lemma_start_step(handling, first, second, n);
    }
    let i = choose|i: int|
        0 <= i < handling.replies.len() && handling.replies[i] == Reply::Db(
            Answer::RemoteFilerequests(Ok(remotes)),
        ) && #[trigger] handling.asks_at(i, Query::Db(DbCommand::GetAllRemoteFilerequests));
    assert(i == 0);
    let j = choose|j: int|
        0 <= j < handling.replies.len() && handling.replies[j] == Reply::Db(
            Answer::PendingFiles(Ok(pending)),
        ) && #[trigger] handling.asks_at(j, Query::Db(DbCommand::GetAllPendingFiles));
    assert(j == 1);
    let last = handling.steps.len() - 1;
    assert(last >= 2);
    lemma_start_step(handling, remotes, pending, last);
}

proof fn lemma_start_files(
    remotes: Vec<RemoteFilerequest>,
    pending: Vec<PendingFile>,
    handling: crate::api_server::laws::Handling,
)
    requires
        handling.is_of_node(NetworkNodeAction::Ready),
        handling.is_over(),
        handling.got(
            Query::Db(DbCommand::GetAllRemoteFilerequests),
            Reply::Db(Answer::RemoteFilerequests(Ok(remotes))),
        ),
        handling.got(
            Query::Db(DbCommand::GetAllPendingFiles),
            Reply::Db(Answer::PendingFiles(Ok(pending))),
        ),
    ensures
        exists|files: Vec<FileToSend>| #[trigger]
            handling.asked(Query::Network(NetworkCommand::InitialFilesToSend(files))),
        forall|files: Vec<FileToSend>| #[trigger]
            handling.asked(Query::Network(NetworkCommand::InitialFilesToSend(files))) ==> exists|
                places: Seq<int>,
            |
                {
                    &&& #[trigger] are_all_left(pending@, remotes@, places)
                    &&& places.len() == files@.len()
                    &&& forall|k: int|
                        0 <= k < files@.len() ==> is_handed_over(
                            pending@[places[k]],
                            remotes@,
                            (#[trigger] files@[k])@,
                        )
                },
{
    let files = crate::brain::handle_action::files_to_continue(pending@, remotes@);
    let resets = crate::brain::handle_action::files_to_reset(pending@, remotes@);
    let over = (resets.len() + 2) as int;
    lemma_start_shape(handling, remotes, pending);
    lemma_start_step(handling, remotes, pending, over);
    law_unfinished_files_are_handed_over(pending@, remotes@);
    if let Next::Await(Query::Network(NetworkCommand::InitialFilesToSend(list)), _) =
        handling.steps[over].next {
        let query = Query::Network(NetworkCommand::InitialFilesToSend(list));
        assert(handling.asks_at(over, query));
        assert(handling.asked(query));
    }
    assert forall|list: Vec<FileToSend>| #[trigger]
        handling.asked(
            Query::Network(NetworkCommand::InitialFilesToSend(list)),
        ) implies exists|places: Seq<int>|
        {
            &&& #[trigger] are_all_left(pending@, remotes@, places)
            &&& places.len() == list@.len()
            &&& forall|k: int|
                0 <= k < list@.len() ==> is_handed_over(
                    pending@[places[k]],
                    remotes@,
                    (#[trigger] list@[k])@,
                )
        } by {
        let query = Query::Network(NetworkCommand::InitialFilesToSend(list));
        let n = choose|n: int| #[trigger] handling.asks_at(n, query);
        if n >= 2 {
            lemma_start_step(handling, remotes, pending, n);
        }
        let views = crate::domain_models::views(list@);
        assert(views == files);
        assert(views.len() == list@.len());
        let places = choose|places: Seq<int>|
            {
                &&& #[trigger] are_all_left(pending@, remotes@, places)
                &&& places.len() == files.len()
                &&& forall|k: int|
                    0 <= k < files.len() ==> is_handed_over(
                        pending@[places[k]],
                        remotes@,
                        #[trigger] files[k],
                    )
            };
        assert forall|k: int| 0 <= k < list@.len() implies is_handed_over(
            pending@[places[k]],
            remotes@,
            (#[trigger] list@[k])@,
        ) by {
            assert(views[k] == list@[k]@);
            assert(files[k] == list@[k]@);
        }
    }
}

/// When the node starts, only files that were being sent are stored with another status: as
/// interrupted, got as far as they had. Their number of tries stays.
pub proof fn law_the_start_interrupts_only_what_was_being_sent(
    remotes: Vec<RemoteFilerequest>,
    pending: Vec<PendingFile>,
    handling: crate::api_server::laws::Handling,
)
    requires
        handling.is_of_node(NetworkNodeAction::Ready),
        handling.is_over(),
        handling.got(
            Query::Db(DbCommand::GetAllRemoteFilerequests),
            Reply::Db(Answer::RemoteFilerequests(Ok(remotes))),
        ),
        handling.got(
            Query::Db(DbCommand::GetAllPendingFiles),
            Reply::Db(Answer::PendingFiles(Ok(pending))),
        ),
    ensures
        forall|id: FylesId, status: SendStatus, retry_count: Option<usize>| #[trigger]
            handling.asked(
                Query::Db(DbCommand::UpdatePendingFileStatus { id, status, retry_count }),
            ) ==> retry_count is None && exists|i: int| #[trigger]
                is_interrupted_at(pending@, remotes@, (id@, status@), i),
{
    let resets = crate::brain::handle_action::files_to_reset(pending@, remotes@);
    lemma_start_shape(handling, remotes, pending);
    assert forall|id: FylesId, status: SendStatus, retry_count: Option<usize>| #[trigger]
        handling.asked(
            Query::Db(DbCommand::UpdatePendingFileStatus { id, status, retry_count }),
        ) implies retry_count is None && exists|i: int| #[trigger]
        is_interrupted_at(pending@, remotes@, (id@, status@), i) by {
        let query = Query::Db(DbCommand::UpdatePendingFileStatus { id, status, retry_count });
        let n = choose|n: int| #[trigger] handling.asks_at(n, query);
        if n >= 2 {
            lemma_start_step(handling, remotes, pending, n);
        }
        assert(resets[n - 2] == (id@, status@));
        law_only_files_that_were_being_sent_are_interrupted(pending@, remotes@, n - 2);
    }
}

/// When the node starts, every file that was being sent and that something is left to do of is
/// stored as interrupted.
pub proof fn law_the_start_interrupts_all_that_was_being_sent(
    remotes: Vec<RemoteFilerequest>,
    pending: Vec<PendingFile>,
    handling: crate::api_server::laws::Handling,
)
    requires
        handling.is_of_node(NetworkNodeAction::Ready),
        handling.is_over(),
        handling.got(
            Query::Db(DbCommand::GetAllRemoteFilerequests),
            Reply::Db(Answer::RemoteFilerequests(Ok(remotes))),
        ),
        handling.got(
            Query::Db(DbCommand::GetAllPendingFiles),
            Reply::Db(Answer::PendingFiles(Ok(pending))),
        ),
    ensures
        forall|i: int|
            0 <= i < pending@.len() && is_left(#[trigger] pending@[i], remotes@)
                && was_being_sent(pending@[i]) ==> exists|id: FylesId, status: SendStatus|
                {
                    &&& #[trigger] handling.asked(
                        Query::Db(
                            DbCommand::UpdatePendingFileStatus { id, status, retry_count: None },
                        ),
                    )
                    &&& is_interrupted_at(pending@, remotes@, (id@, status@), i)
                },
{
    let resets = crate::brain::handle_action::files_to_reset(pending@, remotes@);
    lemma_start_shape(handling, remotes, pending);
    assert forall|i: int|
        0 <= i < pending@.len() && is_left(#[trigger] pending@[i], remotes@) && was_being_sent(
            pending@[i],
        ) implies exists|id: FylesId, status: SendStatus|
        {
            &&& #[trigger] handling.asked(
                Query::Db(DbCommand::UpdatePendingFileStatus { id, status, retry_count: None }),
            )
            &&& is_interrupted_at(pending@, remotes@, (id@, status@), i)
        } by {
        law_all_files_that_were_being_sent_are_interrupted(pending@, remotes@, i);
        let k = choose|k: int|
            0 <= k < resets.len() && is_interrupted_at(
                pending@,
                remotes@,
                #[trigger] resets[k],
                i,
            );
        lemma_start_step(handling, remotes, pending, k + 2);
        if let Next::Await(
            Query::Db(DbCommand::UpdatePendingFileStatus { id, status, retry_count }),
            _,
        ) = handling.steps[k + 2].next {
            let none: Option<usize> = None;
            assert(retry_count == none);
            let query = Query::Db(
                DbCommand::UpdatePendingFileStatus { id, status, retry_count: none },
            );
            assert(handling.asks_at(k + 2, query));
            assert(handling.asked(query));
            assert(is_interrupted_at(pending@, remotes@, (id@, status@), i));
        }
    }
}

/// When the node starts, all files that are not done with and whose file request is known are handed
/// to the network node, once, each as it is stored and under the id by which the peer knows its
/// request. But for what is stored before, nothing else is asked for, and those who wait are told
/// only when the files are handed over.
pub proof fn law_the_start_goes_on_with_what_is_left(
    remotes: Vec<RemoteFilerequest>,
    pending: Vec<PendingFile>,
    handling: crate::api_server::laws::Handling,
)
    requires
        handling.is_of_node(NetworkNodeAction::Ready),
        handling.is_over(),
        handling.got(
            Query::Db(DbCommand::GetAllRemoteFilerequests),
            Reply::Db(Answer::RemoteFilerequests(Ok(remotes))),
        ),
        handling.got(
            Query::Db(DbCommand::GetAllPendingFiles),
            Reply::Db(Answer::PendingFiles(Ok(pending))),
        ),
    ensures
        exists|files: Vec<FileToSend>| #[trigger]
            handling.asked(Query::Network(NetworkCommand::InitialFilesToSend(files))),
        forall|files: Vec<FileToSend>| #[trigger]
            handling.asked(Query::Network(NetworkCommand::InitialFilesToSend(files))) ==> exists|
                places: Seq<int>,
            |
                {
                    &&& #[trigger] are_all_left(pending@, remotes@, places)
                    &&& places.len() == files@.len()
                    &&& forall|k: int|
                        0 <= k < files@.len() ==> is_handed_over(
                            pending@[places[k]],
                            remotes@,
                            (#[trigger] files@[k])@,
                        )
                },
        forall|query: Query| #[trigger]
            handling.asked(query) ==> {
                ||| query == Query::Db(DbCommand::GetAllRemoteFilerequests)
                ||| query == Query::Db(DbCommand::GetAllPendingFiles)
                ||| query matches Query::Db(DbCommand::UpdatePendingFileStatus { .. })
                ||| query matches Query::Network(NetworkCommand::InitialFilesToSend(_))
            },
        forall|n: int, k: int|
            0 <= n < handling.steps.len() && 0 <= k < handling.steps[n].effects@.len() ==> {
                &&& #[trigger] handling.steps[n].effects@[k] is AnswerWaiters
                &&& handling.steps[n].next matches Next::Await(query, _)
                &&& query matches Query::Network(NetworkCommand::InitialFilesToSend(_))
            },
{
    lemma_start_shape(handling, remotes, pending);
    lemma_start_files(remotes, pending, handling);
    assert forall|query: Query| #[trigger] handling.asked(query) implies {
        ||| query == Query::Db(DbCommand::GetAllRemoteFilerequests)
        ||| query == Query::Db(DbCommand::GetAllPendingFiles)
        ||| query matches Query::Db(DbCommand::UpdatePendingFileStatus { .. })
        ||| query matches Query::Network(NetworkCommand::InitialFilesToSend(_))
    } by {
        let n = choose|n: int| #[trigger] handling.asks_at(n, query);
        if n >= 2 {
            lemma_start_step(handling, remotes, pending, n);
        }
    }
    assert forall|n: int, k: int|
        0 <= n < handling.steps.len() && 0 <= k < handling.steps[n].effects@.len() implies {
        &&& #[trigger] handling.steps[n].effects@[k] is AnswerWaiters
        &&& handling.steps[n].next matches Next::Await(query, _)
        &&& query matches Query::Network(NetworkCommand::InitialFilesToSend(_))
    } by {
        if n >= 2 {
            lemma_start_step(handling, remotes, pending, n);
        }
    }
}

} // verus!
