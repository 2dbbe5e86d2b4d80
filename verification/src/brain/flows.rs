//! What is asked, answered and told while an action is handled, from its beginning to its end.
use vstd::prelude::*;

use crate::brain::action::BrainAction;
use crate::brain::action_p2p::NetworkNodeAction;
use crate::brain::error::FilerequestError;
use crate::brain::exchange::{Answer, DbReply, Effect, NetworkReply, Query, Reply, Response};
use crate::brain::state::{BrainState, EphemeralBrainData, Next, Step};
use crate::db::DatabaseResult;

verus! {

impl crate::api_server::laws::Handling {
    /// Whether what the network node tells or asks for can be handled in these steps.
    pub open spec fn is_of_node(self, action: NetworkNodeAction) -> bool {
        &&& self.steps.len() > 0
        &&& self.replies.len() + 1 == self.steps.len()
        &&& exists|
            before: crate::brain::state::EphemeralView,
            after: crate::brain::state::EphemeralView,
        | #[trigger]
            crate::brain::handle_action::node_is_served(action, before, after, self.steps[0])
        &&& forall|i: int| 0 <= i < self.replies.len() ==> #[trigger] self.goes_on(i)
    }

    /// Whether nothing more follows, and all that is essential for operation succeeded.
    pub open spec fn is_over(self) -> bool {
        &&& self.steps.last().next is Done
        &&& forall|i: int|
            0 <= i < self.replies.len() ==> (self.steps[i].next matches Next::Await(_, state)
                ==> state.expects(#[trigger] self.replies[i]))
    }

    /// Whether this is asked for after so many replies.
    pub open spec fn asks_at(self, i: int, query: Query) -> bool {
        0 <= i < self.steps.len() && (self.steps[i].next matches Next::Await(asked, _) && asked
            == query)
    }

    /// Whether this is asked for at all.
    pub open spec fn asked(self, query: Query) -> bool {
        exists|i: int| #[trigger] self.asks_at(i, query)
    }

    /// Whether this is asked for and answered like that.
    pub open spec fn got(self, query: Query, reply: Reply) -> bool {
        exists|i: int|
            0 <= i < self.replies.len() && self.replies[i] == reply && #[trigger] self.asks_at(
                i,
                query,
            )
    }

    /// Whether this is done on the way.
    pub open spec fn does(self, effect: Effect) -> bool {
        exists|i: int, k: int|
            0 <= i < self.steps.len() && 0 <= k < self.steps[i].effects@.len()
                && #[trigger] self.steps[i].effects@[k] == effect
    }

    pub open spec fn responded(self, response: Response) -> bool {
        self.does(Effect::Respond(response))
    }

    pub open spec fn answered(self, answer: Answer<FilerequestError>) -> bool {
        self.responded(Response::Answer(answer))
    }
}

/// Whether there is nothing to a success that says nothing.
pub open spec fn is_plainly_done(reply: Reply) -> bool {
    match reply {
        Reply::Db(Answer::Unit(Ok(_))) => reply == Reply::Db(Answer::Unit(Ok(()))),
        Reply::Host(Ok(_)) => reply == Reply::Host(Ok(())),
        Reply::Network(NetworkReply::Done(Ok(_))) => reply == Reply::Network(
            NetworkReply::Done(Ok(())),
        ),
        _ => true,
    }
}

/// The first few steps of a handling follow on each other.
pub proof fn lemma_first_steps(handling: crate::api_server::laws::Handling)
    requires
        handling.replies.len() + 1 == handling.steps.len(),
        forall|i: int| 0 <= i < handling.replies.len() ==> #[trigger] handling.goes_on(i),
    ensures
        handling.steps.len() > 1 ==> handling.goes_on(0),
        handling.steps.len() > 2 ==> handling.goes_on(1),
        handling.steps.len() > 3 ==> handling.goes_on(2),
        handling.steps.len() > 4 ==> handling.goes_on(3),
        handling.steps.len() > 5 ==> handling.goes_on(4),
        handling.steps.len() > 6 ==> handling.goes_on(5),
        forall|i: int|
            #![trigger handling.replies[i]]
            is_plainly_done(handling.replies[i]),
{
    assert forall|i: int| #![trigger handling.replies[i]] is_plainly_done(handling.replies[i]) by {
        match handling.replies[i] {
            Reply::Db(Answer::Unit(Ok(unit))) => {
                assert(unit == ());
            },
            Reply::Host(Ok(unit)) => {
                assert(unit == ());
            },
            Reply::Network(NetworkReply::Done(Ok(unit))) => {
                assert(unit == ());
            },
            _ => {},
        }
    }
}

impl crate::api_server::laws::Handling {
    /// Whether this is done in the step.
    pub open spec fn does_at(self, i: int, effect: Effect) -> bool {
        &&& 0 <= i < self.steps.len()
        &&& {
            ||| self.steps[i].effects@.len() > 0 && self.steps[i].effects@[0] == effect
            ||| self.steps[i].effects@.len() > 1 && self.steps[i].effects@[1] == effect
        }
    }

    /// Whether this is asked for in the step and answered like that.
    pub open spec fn got_at(self, i: int, query: Query, reply: Reply) -> bool {
        i < self.replies.len() && self.asks_at(i, query) && self.replies[i] == reply
    }
}

/// What happens in a handling of a few steps happens in one of them.
pub proof fn lemma_short_handling(handling: crate::api_server::laws::Handling)
    requires
        0 < handling.steps.len() <= 6,
        handling.replies.len() + 1 == handling.steps.len(),
        forall|i: int|
            0 <= i < handling.steps.len() ==> (#[trigger] handling.steps[i]).effects@.len() <= 2,
    ensures
        forall|query: Query| #[trigger]
            handling.asked(query) <==> {
                ||| handling.asks_at(0, query)
                ||| handling.asks_at(1, query)
                ||| handling.asks_at(2, query)
                ||| handling.asks_at(3, query)
                ||| handling.asks_at(4, query)
                ||| handling.asks_at(5, query)
            },
        forall|query: Query, reply: Reply| #[trigger]
            handling.got(query, reply) <==> {
                ||| handling.got_at(0, query, reply)
                ||| handling.got_at(1, query, reply)
                ||| handling.got_at(2, query, reply)
                ||| handling.got_at(3, query, reply)
                ||| handling.got_at(4, query, reply)
            },
        forall|effect: Effect| #[trigger]
            handling.does(effect) <==> {
                ||| handling.does_at(0, effect)
                ||| handling.does_at(1, effect)
                ||| handling.does_at(2, effect)
                ||| handling.does_at(3, effect)
                ||| handling.does_at(4, effect)
                ||| handling.does_at(5, effect)
            },
{
    assert forall|query: Query| #[trigger] handling.asked(query) implies {
        ||| handling.asks_at(0, query)
        ||| handling.asks_at(1, query)
        ||| handling.asks_at(2, query)
        ||| handling.asks_at(3, query)
        ||| handling.asks_at(4, query)
        ||| handling.asks_at(5, query)
    } by {
        let i = choose|i: int| #[trigger] handling.asks_at(i, query);
        assert(i == 0 || i == 1 || i == 2 || i == 3 || i == 4 || i == 5);
    }
    assert forall|query: Query, reply: Reply| #[trigger] handling.got(query, reply) implies {
        ||| handling.got_at(0, query, reply)
        ||| handling.got_at(1, query, reply)
        ||| handling.got_at(2, query, reply)
        ||| handling.got_at(3, query, reply)
        ||| handling.got_at(4, query, reply)
    } by {
        let i = choose|i: int|
            0 <= i < handling.replies.len() && handling.replies[i] == reply
                && #[trigger] handling.asks_at(i, query);
        assert(i == 0 || i == 1 || i == 2 || i == 3 || i == 4);
    }
    assert forall|effect: Effect| #[trigger] handling.does(effect) implies {
        ||| handling.does_at(0, effect)
        ||| handling.does_at(1, effect)
        ||| handling.does_at(2, effect)
        ||| handling.does_at(3, effect)
        ||| handling.does_at(4, effect)
        ||| handling.does_at(5, effect)
    } by {
        let (i, k) = choose|i: int, k: int|
            0 <= i < handling.steps.len() && 0 <= k < handling.steps[i].effects@.len()
                && #[trigger] handling.steps[i].effects@[k] == effect;
        assert(handling.steps[i].effects@.len() <= 2);
        assert(k == 0 || k == 1);
        assert(handling.does_at(i, effect));
        assert(i == 0 || i == 1 || i == 2 || i == 3 || i == 4 || i == 5);
    }
    assert forall|effect: Effect, i: int| #[trigger] handling.does_at(
        i,
        effect,
    ) implies handling.does(effect) by {
        if handling.steps[i].effects@[0] != effect {
            assert(handling.steps[i].effects@[1] == effect);
        }
    }
}

/// Whether the one outcome is the other, with an error of the store named as such.
pub open spec fn is_outcome<T>(
    stored: DatabaseResult<T>,
    told: Result<T, FilerequestError>,
) -> bool {
    match (stored, told) {
        (Ok(value), Ok(same)) => value == same,
        (Err(error), Err(FilerequestError::DatabaseError(same))) => error == same,
        _ => false,
    }
}

/// Whether the answer tells what the store answered, no more and no less.
pub open spec fn tells(reply: DbReply, answer: Answer<FilerequestError>) -> bool {
    match (reply, answer) {
        (Answer::Unit(stored), Answer::Unit(told)) => is_outcome(stored, told),
        (Answer::Flag(stored), Answer::Flag(told)) => is_outcome(stored, told),
        (Answer::Id(stored), Answer::Id(told)) => is_outcome(stored, told),
        (Answer::Ids(stored), Answer::Ids(told)) => is_outcome(stored, told),
        (Answer::Text(stored), Answer::Text(told)) => is_outcome(stored, told),
        (Answer::Names(stored), Answer::Names(told)) => is_outcome(stored, told),
        (Answer::Filerequest(stored), Answer::Filerequest(told)) => is_outcome(stored, told),
        (Answer::Filerequests(stored), Answer::Filerequests(told)) => is_outcome(stored, told),
        (Answer::Contact(stored), Answer::Contact(told)) => is_outcome(stored, told),
        (Answer::DisplayContact(stored), Answer::DisplayContact(told)) => is_outcome(stored, told),
        (Answer::DisplayContacts(stored), Answer::DisplayContacts(told)) => is_outcome(
            stored,
            told,
        ),
        (Answer::SelfContact(stored), Answer::SelfContact(told)) => is_outcome(stored, told),
        (Answer::RemoteFilerequest(stored), Answer::RemoteFilerequest(told)) => is_outcome(
            stored,
            told,
        ),
        (Answer::RemoteFilerequests(stored), Answer::RemoteFilerequests(told)) => is_outcome(
            stored,
            told,
        ),
        (Answer::PendingFile(stored), Answer::PendingFile(told)) => is_outcome(stored, told),
        (Answer::PendingFiles(stored), Answer::PendingFiles(told)) => is_outcome(stored, told),
        (Answer::ReceivedFile(stored), Answer::ReceivedFile(told)) => is_outcome(stored, told),
        (Answer::ReceivedFiles(stored), Answer::ReceivedFiles(told)) => is_outcome(stored, told),
        (Answer::NodeInfo(stored), Answer::NodeInfo(told)) => is_outcome(stored, told),
        (Answer::NodeStatus(stored), Answer::NodeStatus(told)) => is_outcome(stored, told),
        (Answer::PublicKeys(stored), Answer::PublicKeys(told)) => is_outcome(stored, told),
        (Answer::Settings(stored), Answer::Settings(told)) => is_outcome(stored, told),
        (Answer::Count(stored), Answer::Count(told)) => is_outcome(stored, told),
        _ => false,
    }
}

/// The first step that the service takes for an action is one that a handling of it can begin with.
pub proof fn law_the_service_begins_a_handling(
    ephemeral: &mut EphemeralBrainData,
    action: BrainAction,
    step: Step,
)
    requires
        call_ensures(crate::brain::handle_action::handle_action, (ephemeral, action), step),
    ensures
        step.is_consistent(),
        match action {
            BrainAction::Client(action) => crate::brain::handle_action::client_is_served(
                action,
                old(ephemeral)@,
                final(ephemeral)@,
                step,
            ),
            BrainAction::NetworkNode(action) => crate::brain::handle_action::node_is_served(
                action,
                old(ephemeral)@,
                final(ephemeral)@,
                step,
            ),
        },
{
}

/// Every further step that the service takes is one that a handling can go on with, and what it asks
/// for then is what it waits for.
pub proof fn law_the_service_carries_a_handling_on(
    ephemeral: &mut EphemeralBrainData,
    state: BrainState,
    reply: Reply,
    step: Step,
)
    requires
        call_ensures(crate::brain::handle_action::resume, (ephemeral, state, reply), step),
    ensures
        step.is_consistent(),
        crate::brain::handle_action::resumed(
            state,
            reply,
            old(ephemeral)@,
            final(ephemeral)@,
            step,
        ),
{
}

} // verus!
