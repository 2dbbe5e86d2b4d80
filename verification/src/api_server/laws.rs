//! What clients can rely on whatever they ask for.
use vstd::prelude::*;

use crate::api_server::service::{ApiRequest, Awaited, Delivery};
use crate::brain::action_client::ClientAction;
use crate::brain::exchange::{DbReply, Effect, Query, Reply, Response};
use crate::brain::state::{BrainState, Next, Step};

verus! {

/// Whether all that can come of the query in the state is of the kind that is waited for, now or
/// later.
pub open spec fn leads_to(awaited: Awaited, query: Query, state: BrainState) -> bool {
    match state {
        BrainState::Relay => query matches Query::Db(command) && forall|reply: DbReply| #[trigger]
            command.is_answered_by(reply) ==> awaited.understands(
                Response::Answer(crate::brain::exchange::relayed(reply)),
            ),
        BrainState::RelayStatus => awaited is NodeStatus,
        BrainState::FilerequestStored { .. } => awaited is CreatedFileRequest,
        BrainState::DirectoryCreated { .. } => awaited is CreatedFileRequest,
        BrainState::CreationRolledBack => awaited is CreatedFileRequest,
        BrainState::FilerequestRead { .. } => awaited is UpdatedFileRequest,
        BrainState::DirectoryRenamed { .. } => awaited is UpdatedFileRequest,
        BrainState::RemoteRequestRead { .. } => awaited is RemoteDeletion,
        BrainState::FilesCancelled { .. } => awaited is RemoteDeletion,
        BrainState::RemoteRequestDeleted => awaited is RemoteDeletion,
        BrainState::TargetRead { .. } => awaited is Ids,
        BrainState::FilesStored { .. } => awaited is Ids,
        BrainState::FilesHandedOver { .. } => awaited is Ids,
        BrainState::PendingFileRead { .. } => awaited is Done,
        BrainState::PendingFileCancelled { .. } => awaited is Done,
        BrainState::OrphanDeleted => awaited is Done,
        BrainState::KeysRead => awaited is PeerId,
        BrainState::KeypairDisplayed => awaited is PeerId,
        BrainState::IdentityStored { .. } => awaited is Done,
        BrainState::IdentityAnnounced { .. } => awaited is Done,
        BrainState::BackupFileOpened => awaited is Backup,
        BrainState::BackupAccessed => awaited is Backup,
        BrainState::DatabaseRestored => awaited is Backup,
        BrainState::SettingsApplied { .. } => awaited is SettingsUpdate,
        BrainState::ChallengeUsed => awaited is Nothing,
        _ => false,
    }
}

/// Whether the client can be told whatever the step responds, and is not left without a response
/// where nothing follows. Whoever waits for the node may have to wait on, or be told nothing.
pub open spec fn serves(awaited: Awaited, step: Step) -> bool {
    &&& forall|i: int|
        0 <= i < step.effects@.len() ==> (#[trigger] step.effects@[i] matches Effect::Respond(
            response,
        ) ==> awaited.can_finish(Delivery::Answered(response)))
    &&& match step.next {
        Next::Await(query, state) => leads_to(awaited, query, state),
        Next::Done => awaited is Ready || exists|i: int|
            0 <= i < step.effects@.len() && #[trigger] step.effects@[i] is Respond,
    }
}

/// What is responded at once to the action that a request stands for is of the kind that the
/// request waits for, and so is whatever can come of what is asked first.
pub proof fn law_requests_are_begun(
    request: ApiRequest,
    action: ClientAction,
    awaited: Awaited,
    before: crate::brain::state::EphemeralView,
    after: crate::brain::state::EphemeralView,
    step: Step,
)
    requires
        crate::api_server::service::dispatches(request, action, awaited),
        crate::brain::handle_action::client_is_served(action, before, after, step),
    ensures
        serves(awaited, step),
{
}

/// In every state that a request can lead to, what is responded is of the kind that the request
/// waits for, and so is whatever can come of what is asked next.
pub proof fn law_requests_are_carried_on(
    awaited: Awaited,
    query: Query,
    state: BrainState,
    reply: Reply,
    before: crate::brain::state::EphemeralView,
    after: crate::brain::state::EphemeralView,
    step: Step,
)
    requires
        leads_to(awaited, query, state),
        query.is_answered_by(reply),
        crate::brain::handle_action::resumed(state, reply, before, after, step),
    ensures
        serves(awaited, step),
{
}

/// The handling of one action: a step, the reply to what it asks, the next step, and so on. Other
/// actions can be handled in between, so that what the service remembers may change.
pub ghost struct Handling {
    pub steps: Seq<Step>,
    pub replies: Seq<Reply>,
}

impl Handling {
    /// Whether the step can follow on the one before and the reply to it.
    pub open spec fn goes_on(self, i: int) -> bool {
        &&& self.steps[i].next matches Next::Await(query, state)
        &&& query.is_answered_by(self.replies[i])
        &&& exists|
            before: crate::brain::state::EphemeralView,
            after: crate::brain::state::EphemeralView,
        | #[trigger]
            crate::brain::handle_action::resumed(
                state,
                self.replies[i],
                before,
                after,
                self.steps[i + 1],
            )
    }

    /// Whether the action can be handled in these steps.
    pub open spec fn is_of(self, action: ClientAction) -> bool {
        &&& self.steps.len() > 0
        &&& self.replies.len() + 1 == self.steps.len()
        &&& exists|
            before: crate::brain::state::EphemeralView,
            after: crate::brain::state::EphemeralView,
        | #[trigger]
            crate::brain::handle_action::client_is_served(action, before, after, self.steps[0])
        &&& forall|i: int| 0 <= i < self.replies.len() ==> #[trigger] self.goes_on(i)
    }
}

/// Whatever the service responds to the action that a request stands for, at once or after any
/// number of replies, is of the kind that the request waits for; and where nothing more follows,
/// there is a response.
pub proof fn law_every_response_is_understood(
    request: ApiRequest,
    action: ClientAction,
    awaited: Awaited,
    handling: Handling,
    n: int,
)
    requires
        crate::api_server::service::dispatches(request, action, awaited),
        handling.is_of(action),
        0 <= n < handling.steps.len(),
    ensures
        serves(awaited, handling.steps[n]),
    decreases n,
{
    if n == 0 {
        let (before, after) = choose|
            before: crate::brain::state::EphemeralView,
            after: crate::brain::state::EphemeralView,
        | #[trigger]
            crate::brain::handle_action::client_is_served(action, before, after, handling.steps[0]);
        law_requests_are_begun(request, action, awaited, before, after, handling.steps[0]);
    } else {
        law_every_response_is_understood(request, action, awaited, handling, n - 1);
        assert(handling.goes_on(n - 1));
        if let Next::Await(query, state) = handling.steps[n - 1].next {
            let reply = handling.replies[n - 1];
            let (before, after) = choose|
                before: crate::brain::state::EphemeralView,
                after: crate::brain::state::EphemeralView,
            | #[trigger]
                crate::brain::handle_action::resumed(
                    state,
                    reply,
                    before,
                    after,
                    handling.steps[n],
                );
            law_requests_are_carried_on(
                awaited,
                query,
                state,
                reply,
                before,
                after,
                handling.steps[n],
            );
        }
    }
}

} // verus!
