//! The presence directory: which user is reachable over which connection.

use std::collections::HashMap;
use vstd::prelude::*;

verus! {

broadcast use vstd::std_specs::hash::group_hash_axioms;

/// Identifies one live connection and thereby its outbound channel.
pub type ConnId = u64;

/// Maps each online user to the connection that currently speaks for them.
///
/// A user has at most one entry. Registering a user who already has one
/// replaces it: the last writer wins.
pub struct PresenceDirectory {
    online: HashMap<i32, ConnId>,
}

impl View for PresenceDirectory {
    type V = Map<i32, ConnId>;

    closed spec fn view(&self) -> Map<i32, ConnId> {
        self.online@
    }
}

impl PresenceDirectory {
    /// An empty directory: nobody is online.
    pub fn new() -> (dir: Self)
        ensures
            dir@ == Map::<i32, ConnId>::empty(),
    {
        PresenceDirectory { online: HashMap::new() }
    }

    /// Records that `user_id` is reachable over `conn`, replacing any earlier entry.
    pub fn register(&mut self, user_id: i32, conn: ConnId)
        ensures
            final(self)@ == old(self)@.insert(user_id, conn),
    {
        self.online.insert(user_id, conn);
    }

    /// Forgets `user_id`, whichever connection its entry named.
    pub fn unregister(&mut self, user_id: i32)
        ensures
            final(self)@ == old(self)@.remove(user_id),
    {
        self.online.remove(&user_id);
    }

    /// The connection that speaks for `user_id`, if the user is online.
    pub fn lookup(&self, user_id: i32) -> (conn: Option<ConnId>)
        ensures
            conn == (if self@.contains_key(user_id) {
                Some(self@[user_id])
            } else {
                None
            }),
    {
        match self.online.get(&user_id) {
            Some(c) => Some(*c),
            None => None,
        }
    }

    /// Whether `user_id` has an entry.
    pub fn is_online(&self, user_id: i32) -> (online: bool)
        ensures
            online == self@.contains_key(user_id),
    {
        self.online.contains_key(&user_id)
    }
}

/// Whether the directory agrees with the set of live connections, that is
/// the connections that have completed authentication and not yet
/// disconnected, each with its user: a user is online exactly if it has a
/// live connection, and then the directory names that connection.
pub open spec fn agrees(online: Map<i32, ConnId>, live: Set<(i32, ConnId)>) -> bool {
    &&& forall|user_id: i32| #[trigger] online.contains_key(user_id) ==> live.contains((user_id, online[user_id]))
    &&& forall|user_id: i32, conn: ConnId| #[trigger]
        live.contains((user_id, conn)) ==> online.contains_key(user_id) && online[user_id] == conn
}

/// Law: while the directory agrees with the live connections, a user is
/// online if and only if exactly one live connection is that user's.
pub proof fn law_online_iff_one_live_connection(online: Map<i32, ConnId>, live: Set<(i32, ConnId)>, user_id: i32)
    requires
        agrees(online, live),
    ensures
        online.contains_key(user_id) <==> exists|conn: ConnId|
            {
                &&& #[trigger] live.contains((user_id, conn))
                &&& forall|other: ConnId| live.contains((user_id, other)) ==> other == conn
            },
{
    if online.contains_key(user_id) {
        assert(live.contains((user_id, online[user_id])));
    }
}

/// Law: the empty directory agrees with no connection being live.
pub proof fn law_presence_at_start()
    ensures
        agrees(Map::<i32, ConnId>::empty(), Set::<(i32, ConnId)>::empty()),
{
}

/// Law: registering a connection that has completed authentication keeps
/// the directory in agreement, provided that the user has no other live
/// connection at that moment.
pub proof fn law_presence_after_register(online: Map<i32, ConnId>, live: Set<(i32, ConnId)>, user_id: i32, conn: ConnId)
    requires
        agrees(online, live),
        forall|other: ConnId| !live.contains((user_id, other)),
    ensures
        agrees(online.insert(user_id, conn), live.insert((user_id, conn))),
{
}

/// Law: unregistering the user of a live connection that disconnects keeps
/// the directory in agreement.
pub proof fn law_presence_after_unregister(
    online: Map<i32, ConnId>,
    live: Set<(i32, ConnId)>,
    user_id: i32,
    conn: ConnId,
)
    requires
        agrees(online, live),
        live.contains((user_id, conn)),
    ensures
        agrees(online.remove(user_id), live.remove((user_id, conn))),
{
}

} // verus!
