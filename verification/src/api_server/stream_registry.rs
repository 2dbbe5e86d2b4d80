//! Which clients are told what happens.
use std::collections::HashMap;
use vstd::prelude::*;
use vstd::std_specs::hash::*;
use vstd::std_specs::iter::IteratorSpec;

verus! {

broadcast use group_hash_axioms;

/// Names the connection to a client.
pub type StreamId = u128;

/// What becomes of the stream of messages from a client.
#[derive(Clone, Copy, Debug, PartialEq, Eq, Structural)]
pub enum StreamCommand {
    Add(StreamId),
    Remove(StreamId),
}

/// The connections to clients, each with what takes the messages for the client.
pub struct StreamRegistryInner<S> {
    out_streams: HashMap<StreamId, S>,
}

impl<S> View for StreamRegistryInner<S> {
    type V = Map<StreamId, S>;

    closed spec fn view(&self) -> Map<StreamId, S> {
        self.out_streams@
    }
}

impl<S> StreamRegistryInner<S> {
    pub fn new() -> (r: Self)
        ensures
            r@ == Map::<StreamId, S>::empty(),
    {
        StreamRegistryInner { out_streams: HashMap::new() }
    }

    /// A client has connected. Its messages are listened to, and it is told what happens.
    pub fn new_connection(&mut self, id: StreamId, sender: S) -> (r: StreamCommand)
        ensures
            final(self)@ == old(self)@.insert(id, sender),
            r == StreamCommand::Add(id),
    {
        self.out_streams.insert(id, sender);
        StreamCommand::Add(id)
    }

    /// A client has gone.
    pub fn unregister_stream(&mut self, id: StreamId) -> (r: StreamCommand)
        ensures
            final(self)@ == old(self)@.remove(id),
            r == StreamCommand::Remove(id),
    {
        self.out_streams.remove(&id);
        StreamCommand::Remove(id)
    }

    /// What takes the next message: everything that is connected, once.
    pub fn recipients<'a>(&'a self) -> (r: Vec<(StreamId, &'a S)>)
        ensures
            r@.len() == self@.dom().len(),
            forall|i: int|
                0 <= i < r@.len() ==> self@.contains_key((#[trigger] r@[i]).0) && self@[r@[i].0]
                    == *r@[i].1,
            forall|i: int, j: int|
                0 <= i < j < r@.len() ==> (#[trigger] r@[i]).0 != (#[trigger] r@[j]).0,
            forall|id: StreamId|
                self@.contains_key(id) ==> exists|i: int|
                    0 <= i < r@.len() && (#[trigger] r@[i]).0 == id,
    {
        let mut recipients: Vec<(StreamId, &'a S)> = Vec::new();
        let connections = self.out_streams.iter();
        let ghost all = connections.remaining();
        for entry in entries: connections
            invariant
                entries.seq() == all,
                recipients@.len() == entries.index(),
                forall|i: int|
                    0 <= i < recipients@.len() ==> (#[trigger] recipients@[i]).0
                        == *entries.seq()[i].0 && recipients@[i].1 == entries.seq()[i].1,
        {
            recipients.push((*entry.0, entry.1));
        }
        proof {
            assert(recipients@.len() == all.len());
            assert forall|i: int, j: int| 0 <= i < j < recipients@.len() implies (
            #[trigger] recipients@[i]).0 != (#[trigger] recipients@[j]).0 by {
                assert(self@[*all[i].0] == *all[i].1);
                assert(self@[*all[j].0] == *all[j].1);
                assert(all[i] != all[j]);
            }
            assert forall|id: StreamId| self@.contains_key(id) implies exists|i: int|
                0 <= i < recipients@.len() && (#[trigger] recipients@[i]).0 == id by {
                assert(all.contains((&id, &self@[id])));
                let i = choose|i: int| 0 <= i < all.len() && all[i] == (&id, &self@[id]);
                assert(recipients@[i].0 == id);
            }
        }
        recipients
    }
}

/// Which streams of messages from clients are listened to.
pub struct IncomingStreams {
    ids: Vec<StreamId>,
}

/// What can happen next.
#[derive(Clone, Copy, Debug, PartialEq, Eq, Structural)]
pub enum Listening {
    /// Nobody is connected, so only a command can come.
    Commands,
    CommandsAndMessages,
}

impl View for IncomingStreams {
    type V = Set<StreamId>;

    closed spec fn view(&self) -> Set<StreamId> {
        self.ids@.to_set()
    }
}

/// The streams that are listened to after a command.
pub open spec fn commanded(streams: Set<StreamId>, command: StreamCommand) -> Set<StreamId> {
    match command {
        StreamCommand::Add(id) => streams.insert(id),
        StreamCommand::Remove(id) => streams.remove(id),
    }
}

impl IncomingStreams {
    pub fn new() -> (r: Self)
        ensures
            r@ == Set::<StreamId>::empty(),
    {
        let streams = IncomingStreams { ids: Vec::new() };
        assert(streams@ =~= Set::empty());
        streams
    }

    pub fn handle_command(&mut self, command: StreamCommand)
        ensures
            final(self)@ == commanded(old(self)@, command),
    {
        match command {
            StreamCommand::Add(id) => {
                let ghost before = self.ids@;
                self.ids.push(id);
                proof {
                    assert forall|x: StreamId| #[trigger]
                        self.ids@.contains(x) <==> before.contains(x) || x == id by {
                        assert(self.ids@[before.len() as int] == id);
                        if before.contains(x) {
                            let i = choose|i: int| 0 <= i < before.len() && before[i] == x;
                            assert(self.ids@[i] == x);
                        }
                    }
                    assert(self@ =~= old(self)@.insert(id));
                }
            },
            StreamCommand::Remove(id) => {
                let ghost before = self.ids@;
                let mut kept: Vec<StreamId> = Vec::new();
                for i in 0..self.ids.len()
                    invariant
                        self.ids@ == before,
                        forall|x: StreamId| #[trigger]
                            kept@.contains(x) <==> before.take(i as int).contains(x) && x != id,
                {
                    let other = self.ids[i];
                    let ghost kept_before = kept@;
                    assert(before.take(i + 1) =~= before.take(i as int).push(other));
                    if other != id {
                        kept.push(other);
                        proof {
                            assert forall|x: StreamId| #[trigger]
                                kept@.contains(x) <==> kept_before.contains(x) || x == other by {
                                assert(kept@[kept_before.len() as int] == other);
                                if kept_before.contains(x) {
                                    let k = choose|k: int|
                                        0 <= k < kept_before.len() && kept_before[k] == x;
                                    assert(kept@[k] == x);
                                }
                            }
                        }
                    }
                    proof {
                        let front = before.take(i as int);
                        assert forall|x: StreamId| front.push(
                            other,
                        ).contains(x) <==> front.contains(
                            x,
                        ) || x == other by {
                            assert(front.push(other)[front.len() as int] == other);
                            if front.contains(x) {
                                let k = choose|k: int| 0 <= k < front.len() && front[k] == x;
                                assert(front.push(other)[k] == x);
                            }
                        }
                    }
                }
                assert(before.take(before.len() as int) =~= before);
                self.ids = kept;
                assert(self@ =~= old(self)@.remove(id));
            },
        }
    }

    /// What is waited for.
    pub fn listening(&self) -> (r: Listening)
        ensures
            r == (if self@ == Set::<StreamId>::empty() {
                Listening::Commands
            } else {
                Listening::CommandsAndMessages
            }),
    {
        if self.ids.len() == 0 {
            assert(self@ =~= Set::empty());
            Listening::Commands
        } else {
            assert(self@.contains(self.ids@[0]));
            Listening::CommandsAndMessages
        }
    }
}

/// Where the commands of the registry are followed, those that are told what happens are those
/// that are listened to.
pub proof fn law_both_sides_of_a_connection_go_together<S>(
    out_streams: Map<StreamId, S>,
    in_streams: Set<StreamId>,
    id: StreamId,
    sender: S,
)
    requires
        out_streams.dom() == in_streams,
    ensures
        out_streams.insert(id, sender).dom() == commanded(in_streams, StreamCommand::Add(id)),
        out_streams.remove(id).dom() == commanded(in_streams, StreamCommand::Remove(id)),
{
    assert(out_streams.insert(id, sender).dom() =~= in_streams.insert(id));
    assert(out_streams.remove(id).dom() =~= in_streams.remove(id));
}

/// Whoever has connected is told what happens by what takes its messages, and nobody else's
/// connection is touched.
pub proof fn law_connected_clients_are_told<S>(
    registry: &mut StreamRegistryInner<S>,
    id: StreamId,
    sender: S,
    command: StreamCommand,
)
    requires
        call_ensures(StreamRegistryInner::<S>::new_connection, (registry, id, sender), command),
    ensures
        command == StreamCommand::Add(id),
        final(registry)@.contains_key(id),
        final(registry)@[id] == sender,
        forall|other: StreamId|
            other != id ==> (#[trigger] final(registry)@.contains_key(other)
                <==> old(registry)@.contains_key(other)),
        forall|other: StreamId|
            other != id && old(registry)@.contains_key(other)
                ==> #[trigger] final(registry)@[other] == old(registry)@[other],
{
}

/// Whoever has gone is not told anything any more, and everybody else is.
pub proof fn law_clients_that_have_gone_are_not_told<S>(
    registry: &mut StreamRegistryInner<S>,
    id: StreamId,
    command: StreamCommand,
)
    requires
        call_ensures(StreamRegistryInner::<S>::unregister_stream, (registry, id), command),
    ensures
        command == StreamCommand::Remove(id),
        !final(registry)@.contains_key(id),
        forall|other: StreamId|
            other != id ==> (#[trigger] final(registry)@.contains_key(other)
                <==> old(registry)@.contains_key(other)),
        forall|other: StreamId|
            other != id && old(registry)@.contains_key(other)
                ==> #[trigger] final(registry)@[other] == old(registry)@[other],
{
}

/// A message goes to everybody who is connected, once, and to nobody else.
pub proof fn law_messages_go_to_everybody_once<S>(
    registry: &StreamRegistryInner<S>,
    recipients: Vec<(StreamId, &S)>,
    id: StreamId,
)
    requires
        call_ensures(StreamRegistryInner::<S>::recipients, (registry,), recipients),
    ensures
        registry@.contains_key(id) <==> exists|i: int|
            0 <= i < recipients@.len() && (#[trigger] recipients@[i]).0 == id,
        forall|i: int, j: int|
            0 <= i < recipients@.len() && 0 <= j < recipients@.len() && (
            #[trigger] recipients@[i]).0 == id && (#[trigger] recipients@[j]).0 == id ==> i == j,
        forall|i: int|
            0 <= i < recipients@.len() && (#[trigger] recipients@[i]).0 == id
                ==> *recipients@[i].1 == registry@[id],
{
}

} // verus!
