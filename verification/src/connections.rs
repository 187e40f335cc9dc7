//! The connection set: the sessions that are connected, each with the
//! sending end of its outbound queue, kept in a `DashMap`.

use dashmap::DashMap;
use std::collections::hash_map::RandomState;
use tokio::sync::mpsc::UnboundedSender;
use tokio_tungstenite::tungstenite::Message;
use vstd::prelude::*;

verus! {

#[verifier::external_type_specification]
#[verifier::external_body]
#[verifier::reject_recursive_types(T)]
pub struct ExUnboundedSender<T>(UnboundedSender<T>);

#[verifier::external_type_specification]
#[verifier::external_body]
pub struct ExMessage(Message);

/// The sending end of a session's outbound queue.
pub type Outbound = UnboundedSender<Message>;

/// The entries that a map of outbound queues holds: each identity with the
/// sender entered under it. A copy of a sender is the same sender: it feeds
/// the same queue.
pub uninterp spec fn senders(map: DashMap<String, Outbound, RandomState>) -> Map<Seq<char>, Outbound>;

/// `DashMap::new`: a map that holds nothing.
#[verifier::external_body]
fn senders_new() -> (map: DashMap<String, Outbound>)
    ensures
        senders(map) == (Map::<Seq<char>, Outbound>::empty()),
{
    DashMap::new()
}

/// `DashMap::insert`: afterwards `id` holds `outbound`, whether or not it
/// held a sender before, and every other entry is as it was.
#[verifier::external_body]
fn senders_insert(map: &mut DashMap<String, Outbound>, id: String, outbound: Outbound)
    ensures
        senders(*final(map)) == senders(*old(map)).insert(id@, outbound),
{
    map.insert(id, outbound);
}

/// `DashMap::remove`: afterwards the map holds no entry under `id`, and
/// every other entry is as it was.
#[verifier::external_body]
fn senders_remove(map: &mut DashMap<String, Outbound>, id: &str)
    ensures
        senders(*final(map)) == senders(*old(map)).remove(id@),
{
    map.remove(id);
}

/// `DashMap::get`, with a copy taken of the sender found: the sender that
/// the map holds under `id`, where it holds one.
#[verifier::external_body]
fn senders_get(map: &DashMap<String, Outbound>, id: &str) -> (found: Option<Outbound>)
    ensures
        found == senders(*map).get(id@),
{
    map.get(id).map(|entry| entry.value().clone())
}

/// The sessions that are connected: the identity of each, with the sending
/// end of its outbound queue.
pub struct ConnectionSet {
    map: DashMap<String, Outbound>,
}

impl View for ConnectionSet {
    type V = Map<Seq<char>, Outbound>;

    closed spec fn view(&self) -> Map<Seq<char>, Outbound> {
        senders(self.map)
    }
}

impl ConnectionSet {
    /// A set with no session in it.
    pub fn new() -> (set: ConnectionSet)
        ensures
            set@ == (Map::<Seq<char>, Outbound>::empty()),
    {
        ConnectionSet { map: senders_new() }
    }

    /// Enters the session `id` with the sending end of its queue, in place
    /// of what `id` held.
    pub fn insert(&mut self, id: String, outbound: Outbound)
        ensures
            final(self)@ == old(self)@.insert(id@, outbound),
    {
        senders_insert(&mut self.map, id, outbound);
    }

    /// Takes the session `id` out, if it is in.
    pub fn remove(&mut self, id: &str)
        ensures
            final(self)@ == old(self)@.remove(id@),
    {
        senders_remove(&mut self.map, id);
    }

    /// The sending end of the queue of session `id`, if the session is in.
    pub fn get(&self, id: &str) -> (found: Option<Outbound>)
        ensures
            found == self@.get(id@),
    {
        senders_get(&self.map, id)
    }
}

} // verus!
