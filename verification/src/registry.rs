//! The client registry: which connection is reached through which channel.
//!
//! The registry holds, for each connection id, the sending half of the
//! channel on which that connection's outbound messages are queued. Sending
//! never waits. Whether a message is taken depends on the other end of the
//! channel alone: a channel whose receiver is gone takes nothing.
use std::collections::HashMap;
use vstd::prelude::*;
use vstd::std_specs::iter::IteratorSpec;

verus! {

broadcast use vstd::std_specs::hash::group_hash_axioms;

/// The sending half of an unbounded channel of `tokio`.
#[verifier::external_type_specification]
#[verifier::external_body]
#[verifier::reject_recursive_types(T)]
pub struct ExUnboundedSender<T>(tokio::sync::mpsc::UnboundedSender<T>);

/// The channel of one connection.
pub type Outbox = tokio::sync::mpsc::UnboundedSender<String>;

/// Queues a text on a channel with `UnboundedSender::send`, and says
/// whether the channel took it.
///
/// Nothing is claimed of the answer: the channel takes the text unless its
/// receiver was closed or dropped, and that is the other end's doing.
#[verifier::external_body]
pub(crate) fn push_text(outbox: &Outbox, text: String) -> (taken: bool) {
    outbox.send(text).is_ok()
}

/// Makes another handle to the same channel with `UnboundedSender::clone`.
#[verifier::external_body]
pub(crate) fn another(outbox: &Outbox) -> (handle: Outbox) {
    outbox.clone()
}

/// The clients of a registry: the channel of each under its id.
pub type Clients = Map<u128, Outbox>;

/// The ids of a list of targets.
pub open spec fn client_ids(targets: Seq<(u128, Outbox)>) -> Seq<u128> {
    targets.map_values(|c: (u128, Outbox)| c.0)
}

/// Whether a client has the id `id`.
pub open spec fn knows(clients: Clients, id: u128) -> bool {
    clients.contains_key(id)
}

/// The clients after `id` was registered with `outbox`: a channel that was
/// registered for the id before is replaced.
pub open spec fn registered(clients: Clients, id: u128, outbox: Outbox) -> Clients {
    clients.insert(id, outbox)
}

/// The clients without the one with the id `id`.
pub open spec fn unregistered(clients: Clients, id: u128) -> Clients {
    clients.remove(id)
}

/// Unregistering an id a second time changes nothing.
pub proof fn law_unregister_twice(clients: Clients, id: u128)
    ensures
        unregistered(unregistered(clients, id), id) == unregistered(clients, id),
        !knows(unregistered(clients, id), id),
{
    assert(clients.remove(id).remove(id) =~= clients.remove(id));
}

/// Unregistering an id that no client has changes nothing.
pub proof fn law_unregister_unknown(clients: Clients, id: u128)
    requires
        !knows(clients, id),
    ensures
        unregistered(clients, id) == clients,
{
    assert(clients.remove(id) =~= clients);
}

/// The registry of connected clients.
pub struct WsBroadcaster {
    pub clients: HashMap<u128, Outbox>,
}

impl WsBroadcaster {
    /// A registry without clients.
    pub fn new() -> (registry: WsBroadcaster)
        ensures
            registry.clients@ == Map::<u128, Outbox>::empty(),
    {
        WsBroadcaster { clients: HashMap::new() }
    }

    /// Registers `tx` as the channel of `client_id`; a channel registered
    /// for that id before is replaced.
    pub fn add_client(&mut self, client_id: u128, tx: Outbox)
        ensures
            final(self).clients@ == registered(old(self).clients@, client_id, tx),
            knows(final(self).clients@, client_id),
    {
        self.clients.insert(client_id, tx);
    }

    /// Removes the client `client_id`; a registry that has no such client
    /// stays as it is.
    pub fn remove_client(&mut self, client_id: &u128)
        ensures
            final(self).clients@ == unregistered(old(self).clients@, *client_id),
            !knows(final(self).clients@, *client_id),
            !knows(old(self).clients@, *client_id) ==> final(self).clients@ == old(self).clients@,
    {
        self.clients.remove(client_id);
        proof {
            if !knows(old(self).clients@, *client_id) {
                law_unregister_unknown(old(self).clients@, *client_id);
            }
        }
    }

    /// The channel on which the client `client_id` is reached.
    pub fn outbox_of(&self, client_id: &u128) -> (outbox: Option<&Outbox>)
        ensures
            match outbox {
                Some(o) => knows(self.clients@, *client_id) && *o == self.clients@[*client_id],
                None => !knows(self.clients@, *client_id),
            },
    {
        self.clients.get(client_id)
    }

    /// Queues `message` for the client `client_id`, on the channel that
    /// `outbox_of` names. Answers `false` where the registry has no such
    /// client, and where its channel took nothing: the peer is gone, and
    /// sending again will not help.
    pub fn send_to(&self, client_id: &u128, message: String) -> (taken: bool)
        ensures
            !knows(self.clients@, *client_id) ==> !taken,
    {
        match self.outbox_of(client_id) {
            Some(outbox) => push_text(outbox, message),
            None => false,
        }
    }

    /// Another handle to the channel of each client, for sending without
    /// holding the registry: each client once, in no order that is
    /// promised.
    pub fn handles(&self) -> (list: Vec<(u128, Outbox)>)
        ensures
            client_ids(list@).no_duplicates(),
            client_ids(list@).to_set() == self.clients@.dom(),
            list.len() == self.clients@.dom().len(),
    {
        let mut list: Vec<(u128, Outbox)> = Vec::new();
        for pair in it: self.clients.iter()
            invariant
                it.seq() == vstd::std_specs::hash::spec_hash_map_iter(&self.clients).remaining(),
                it.seq().no_duplicates(),
                list.len() == it.index(),
                forall|k: int| 0 <= k < list.len() ==> (#[trigger] list@[k]).0 == *it.seq()[k].0,
        {
            list.push((*pair.0, another(pair.1)));
        }
        proof {
            let pairs = vstd::std_specs::hash::spec_hash_map_iter(&self.clients).remaining();
            let ids = client_ids(list@);
            assert forall|a: int, b: int| 0 <= a < ids.len() && 0 <= b < ids.len() && a != b implies ids[a]
                != ids[b] by {
                if ids[a] == ids[b] {
                    assert(self.clients@.contains_key(*pairs[a].0));
                    assert(self.clients@[*pairs[a].0] == *pairs[a].1);
                    assert(self.clients@.contains_key(*pairs[b].0));
                    assert(self.clients@[*pairs[b].0] == *pairs[b].1);
                    assert(pairs[a] == pairs[b]);
                }
            }
            assert forall|id: u128| ids.to_set().contains(id) <==> self.clients@.dom().contains(
                id,
            ) by {
                if ids.to_set().contains(id) {
                    let k = choose|k: int| 0 <= k < ids.len() && ids[k] == id;
                    assert(self.clients@.contains_key(*pairs[k].0));
                }
                if self.clients@.contains_key(id) {
                    let tx = self.clients@[id];
                    assert(pairs.contains((&id, &tx)));
                    let k = choose|k: int| 0 <= k < pairs.len() && pairs[k] == (&id, &tx);
                    assert(ids[k] == id);
                }
            }
            assert(ids.to_set() =~= self.clients@.dom());
        }
        list
    }

    /// Queues `message` for each of `targets` but `except`, and says for
    /// each target whether its channel refused the message.
    pub fn deliver(targets: &Vec<(u128, Outbox)>, except: Option<u128>, message: &str) -> (refused: Vec<
        bool,
    >)
        ensures
            refused.len() == targets.len(),
            forall|i: int|
                0 <= i < targets.len() && except == Some(targets@[i].0) ==> !(#[trigger] refused@[i]),
    {
        let mut refused: Vec<bool> = Vec::new();
        let mut i: usize = 0;
        while i < targets.len()
            invariant
                0 <= i <= targets.len(),
                refused.len() == i,
                forall|k: int| 0 <= k < i && except == Some(targets@[k].0) ==> !(#[trigger] refused@[k]),
            decreases targets.len() - i,
        {
            let skip = match except {
                Some(id) => id == targets[i].0,
                None => false,
            };
            if skip {
                refused.push(false);
            } else {
                let taken = push_text(&targets[i].1, message.to_owned());
                refused.push(!taken);
            }
            i += 1;
        }
        refused
    }

    /// Removes the clients among `targets` that `refused` marks, and says
    /// how many targets were marked.
    pub fn drop_refused(&mut self, targets: &Vec<(u128, Outbox)>, refused: &Vec<bool>) -> (marked: usize)
        requires
            refused.len() == targets.len(),
        ensures
            final(self).clients@ == old(self).clients@.remove_keys(
                marked_ids(targets@, refused@, targets.len() as int),
            ),
            marked <= targets.len(),
    {
        let mut marked: usize = 0;
        let mut i: usize = 0;
        assert(self.clients@ =~= old(self).clients@.remove_keys(marked_ids(targets@, refused@, 0)));
        while i < targets.len()
            invariant
                0 <= i <= targets.len(),
                refused.len() == targets.len(),
                marked <= i,
                self.clients@ == old(self).clients@.remove_keys(
                    marked_ids(targets@, refused@, i as int),
                ),
            decreases targets.len() - i,
        {
            if refused[i] {
                self.clients.remove(&targets[i].0);
                marked += 1;
            }
            assert(self.clients@ =~= old(self).clients@.remove_keys(
                marked_ids(targets@, refused@, i as int + 1),
            ));
            i += 1;
        }
        marked
    }

    /// Queues `message` for every client, and removes the clients whose
    /// channel refused it. Every client that stays keeps its channel.
    pub fn broadcast(&mut self, message: String)
        ensures
            exists|refused: Set<u128>| final(self).clients@ == #[trigger] old(self).clients@.remove_keys(refused),
            forall|id: u128|
                knows(final(self).clients@, id) ==> knows(old(self).clients@, id)
                    && final(self).clients@[id] == old(self).clients@[id],
    {
        let targets = self.handles();
        let refused = WsBroadcaster::deliver(&targets, None, message.as_str());
        self.drop_refused(&targets, &refused);
    }

    /// Queues `message` for every client but `sender_id`. No client is
    /// removed, whatever its channel does.
    pub fn broadcast_except(&self, sender_id: &u128, message: String) {
        let targets = self.handles();
        let _ = WsBroadcaster::deliver(&targets, Some(*sender_id), message.as_str());
    }

    /// The ids of the clients: each once, in no order that is promised.
    pub fn get_client_ids(&self) -> (ids: Vec<u128>)
        ensures
            ids@.no_duplicates(),
            ids@.to_set() == self.clients@.dom(),
            ids.len() == self.clients@.dom().len(),
    {
        let targets = self.handles();
        let mut ids: Vec<u128> = Vec::new();
        let mut i: usize = 0;
        while i < targets.len()
            invariant
                0 <= i <= targets.len(),
                ids@ == client_ids(targets@).take(i as int),
            decreases targets.len() - i,
        {
            ids.push(targets[i].0);
            assert(ids@ =~= client_ids(targets@).take(i as int + 1));
            i += 1;
        }
        assert(client_ids(targets@).take(i as int) =~= client_ids(targets@));
        ids
    }
}

/// The ids of the first `n` targets that `refused` marks.
pub open spec fn marked_ids(targets: Seq<(u128, Outbox)>, refused: Seq<bool>, n: int) -> Set<u128> {
    Set::new(|id: u128| exists|i: int| 0 <= i < n && refused[i] && (#[trigger] targets[i]).0 == id)
}

} // verus!
