//! The live room registry: who is joined to which room right now.

use crate::presence::ConnId;
use crate::records::RoomId;
use std::collections::HashMap;
use vstd::prelude::*;
use vstd::std_specs::hash::{spec_hash_map_iter, spec_keys_iter};
use vstd::std_specs::iter::IteratorSpec;

verus! {

broadcast use vstd::std_specs::hash::group_hash_axioms;

/// A joined member's way out: the connection its envelopes are pushed to.
#[derive(Debug, Clone, Copy, PartialEq, Eq, Structural)]
pub struct Client {
    pub sender: ConnId,
}

/// The members of one live room, keyed by user.
pub struct Room {
    pub clients: HashMap<i32, Client>,
}

/// One entry of a room's roster: a member and the connection that joined.
pub type Seat = (i32, ConnId);

/// Whether `roster` lists exactly the members of `members` other than
/// `exclude`, each once and each with its own connection.
pub open spec fn is_roster(roster: Seq<Seat>, members: Map<i32, Client>, exclude: Option<i32>) -> bool {
    &&& forall|i: int|
        0 <= i < roster.len() ==> {
            &&& members.contains_key(#[trigger] roster[i].0)
            &&& members[roster[i].0].sender == roster[i].1
            &&& exclude != Some(roster[i].0)
        }
    &&& forall|i: int, j: int|
        0 <= i < j < roster.len() ==> (#[trigger] roster[i]).0 != (#[trigger] roster[j]).0
    &&& forall|u: i32|
        #[trigger] members.contains_key(u) && exclude != Some(u) ==> exists|i: int|
            0 <= i < roster.len() && (#[trigger] roster[i]).0 == u
}

/// The roster entry that one step of a walk over a room's members stands for.
pub open spec fn seat_of(entry: (&i32, &Client)) -> Seat {
    (*entry.0, entry.1.sender)
}

impl Default for Room {
    fn default() -> (room: Self)
        ensures
            room.clients@ == Map::<i32, Client>::empty(),
    {
        Room::new()
    }
}

impl Room {
    /// A room nobody has joined.
    pub fn new() -> (room: Self)
        ensures
            room.clients@ == Map::<i32, Client>::empty(),
    {
        Room { clients: HashMap::new() }
    }

    /// The members other than `exclude`, each with its connection, in no
    /// particular order.
    pub fn roster(&self, exclude: Option<i32>) -> (roster: Vec<Seat>)
        ensures
            is_roster(roster@, self.clients@, exclude),
    {
        let mut out: Vec<Seat> = Vec::new();
        let ghost mut picked: Seq<int> = Seq::empty();
        for pair in iter: self.clients.iter()
            invariant
                iter.seq() == spec_hash_map_iter(&self.clients).remaining(),
                picked.len() == out@.len(),
                forall|k: int|
                    0 <= k < picked.len() ==> {
                        &&& 0 <= #[trigger] picked[k] < iter.index()
                        &&& out@[k] == seat_of(iter.seq()[picked[k]])
                        &&& exclude != Some(out@[k].0)
                    },
                forall|k: int, l: int| 0 <= k < l < picked.len() ==> #[trigger] picked[k] < #[trigger] picked[l],
                forall|j: int|
                    0 <= j < iter.index() && exclude != Some(seat_of(iter.seq()[j]).0) ==> #[trigger] picked.contains(j),
        {
            let (user, client) = pair;
            assert(iter.seq()[iter.index()] == pair);
            let keep = match exclude {
                Some(skipped) => skipped != *user,
                None => true,
            };
            if keep {
                let ghost earlier = out@;
                out.push((*user, client.sender));
                proof {
                    let before = picked;
                    picked = picked.push(iter.index());
                    assert forall|k: int| 0 <= k < picked.len() implies {
                        &&& 0 <= #[trigger] picked[k] < iter.index() + 1
                        &&& out@[k] == seat_of(iter.seq()[picked[k]])
                        &&& exclude != Some(out@[k].0)
                    } by {
                        if k < before.len() {
                            assert(picked[k] == before[k]);
                            assert(out@[k] == earlier[k]);
                        }
                    }
                    assert forall|j: int|
                        0 <= j < iter.index() + 1 && exclude != Some(seat_of(iter.seq()[j]).0) implies #[trigger] picked.contains(j) by {
                        if j < iter.index() {
                            assert(before.contains(j));
                            let k = choose|k: int| 0 <= k < before.len() && before[k] == j;
                            assert(picked[k] == j);
                        } else {
                            assert(picked[before.len() as int] == j);
                        }
                    }
                }
            }
        }
        proof {
            let seq = spec_hash_map_iter(&self.clients).remaining();
            let members = self.clients@;
            assert forall|i: int| 0 <= i < out@.len() implies {
                &&& members.contains_key(#[trigger] out@[i].0)
                &&& members[out@[i].0].sender == out@[i].1
                &&& exclude != Some(out@[i].0)
            } by {
                assert(members.contains_key(*seq[picked[i]].0));
            }
            assert forall|i: int, j: int| 0 <= i < j < out@.len() implies (#[trigger] out@[i]).0 != (#[trigger] out@[j]).0 by {
                let a = picked[i];
                let b = picked[j];
                assert(members.contains_key(*seq[a].0));
                assert(members.contains_key(*seq[b].0));
                if out@[i].0 == out@[j].0 {
                    assert(*seq[a].1 == *seq[b].1);
                    assert(seq[a] == seq[b]);
                }
            }
            assert forall|u: i32| #[trigger] members.contains_key(u) && exclude != Some(u) implies exists|i: int|
                0 <= i < out@.len() && (#[trigger] out@[i]).0 == u by {
                assert(seq.contains((&u, &members[u])));
                let j = choose|j: int| 0 <= j < seq.len() && seq[j] == (&u, &members[u]);
                assert(seat_of(seq[j]).0 == u);
                assert(picked.contains(j));
                let k = choose|k: int| 0 <= k < picked.len() && picked[k] == j;
                assert(out@[k].0 == u);
            }
        }
        out
    }
}

/// The live rooms as plain data: for each room, its members and their connections.
pub type LiveRooms = Map<RoomId, Map<i32, Client>>;

/// The members of `room_id`; nobody, if the room is not live.
pub open spec fn members_in(live: LiveRooms, room_id: RoomId) -> Map<i32, Client> {
    if live.contains_key(room_id) {
        live[room_id]
    } else {
        Map::empty()
    }
}

/// Whether every live room has at least one member.
pub open spec fn no_empty_room(live: LiveRooms) -> bool {
    forall|room_id: RoomId| #[trigger] live.contains_key(room_id) ==> !live[room_id].is_empty()
}

/// The live rooms once `user_id` has joined `room_id` over `conn`.
pub open spec fn after_join(live: LiveRooms, room_id: RoomId, user_id: i32, conn: ConnId) -> LiveRooms {
    live.insert(room_id, members_in(live, room_id).insert(user_id, Client { sender: conn }))
}

/// The live rooms once `user_id` has left `room_id`: a room left without
/// members is dropped.
pub open spec fn after_leave(live: LiveRooms, room_id: RoomId, user_id: i32) -> LiveRooms {
    let rest = members_in(live, room_id).remove(user_id);
    if rest.is_empty() {
        live.remove(room_id)
    } else {
        live.insert(room_id, rest)
    }
}

/// The live rooms once `user_id` has left those of `rooms` that it was in:
/// a room left without members is dropped.
pub open spec fn without_user_in(live: LiveRooms, user_id: i32, rooms: Set<RoomId>) -> LiveRooms {
    Map::new(
        |room_id: RoomId|
            live.contains_key(room_id) && (rooms.contains(room_id) ==> !live[room_id].remove(user_id).is_empty()),
        |room_id: RoomId|
            if rooms.contains(room_id) {
                live[room_id].remove(user_id)
            } else {
                live[room_id]
            },
    )
}

/// The live rooms once `user_id` has left every room.
pub open spec fn without_user(live: LiveRooms, user_id: i32) -> LiveRooms {
    without_user_in(live, user_id, Set::full())
}

/// Whether `user_id` is a member of no live room.
pub open spec fn holds_nowhere(live: LiveRooms, user_id: i32) -> bool {
    forall|room_id: RoomId| #[trigger] live.contains_key(room_id) ==> !live[room_id].contains_key(user_id)
}

/// The rooms that have members right now.
///
/// The registry is transient: it starts empty and knows only who is joined at
/// the moment. A room is present exactly while it has a member.
pub struct RoomRegistry {
    rooms: HashMap<RoomId, Room>,
}

impl View for RoomRegistry {
    type V = LiveRooms;

    closed spec fn view(&self) -> LiveRooms {
        Map::new(|room_id: RoomId| self.rooms@.contains_key(room_id), |room_id: RoomId| self.rooms@[room_id].clients@)
    }
}

impl RoomRegistry {
    #[verifier::type_invariant]
    spec fn populated(&self) -> bool {
        forall|room_id: RoomId| #[trigger] self.rooms@.contains_key(room_id) ==> !self.rooms@[room_id].clients@.is_empty()
    }

    /// A registry without live rooms.
    pub fn new() -> (registry: Self)
        ensures
            registry@ == LiveRooms::empty(),
    {
        let registry = RoomRegistry { rooms: HashMap::new() };
        assert(registry@ =~= LiveRooms::empty());
        registry
    }

    /// Adds `user_id` to `room_id`, or replaces the connection it joined with.
    pub fn join(&mut self, room_id: RoomId, user_id: i32, conn: ConnId)
        ensures
            final(self)@ == after_join(old(self)@, room_id, user_id, conn),
            no_empty_room(final(self)@),
    {
        proof {
            use_type_invariant(&*self);
        }
        let mut rooms: HashMap<RoomId, Room> = HashMap::new();
        std::mem::swap(&mut self.rooms, &mut rooms);
        let mut room = match rooms.remove(&room_id) {
            Some(room) => room,
            None => Room::new(),
        };
        room.clients.insert(user_id, Client { sender: conn });
        assert(room.clients@.contains_key(user_id));
        rooms.insert(room_id, room);
        self.rooms = rooms;
        assert(self@ =~= after_join(old(self)@, room_id, user_id, conn));
    }

    /// Removes `user_id` from `room_id`; the room goes with its last member.
    pub fn leave(&mut self, room_id: RoomId, user_id: i32)
        ensures
            final(self)@ == after_leave(old(self)@, room_id, user_id),
            no_empty_room(final(self)@),
    {
        proof {
            use_type_invariant(&*self);
        }
        let mut rooms: HashMap<RoomId, Room> = HashMap::new();
        std::mem::swap(&mut self.rooms, &mut rooms);
        match rooms.remove(&room_id) {
            Some(room) => {
                let mut room = room;
                room.clients.remove(&user_id);
                if !room.clients.is_empty() {
                    rooms.insert(room_id, room);
                }
            },
            None => {},
        }
        self.rooms = rooms;
        assert(self@ =~= after_leave(old(self)@, room_id, user_id));
    }

    /// The live rooms, each once or more, in no particular order.
    fn room_ids(&self) -> (ids: Vec<RoomId>)
        ensures
            forall|room_id: RoomId| #[trigger] self@.contains_key(room_id) ==> ids@.contains(room_id),
    {
        let mut ids: Vec<RoomId> = Vec::new();
        for key in iter: self.rooms.keys()
            invariant
                iter.seq() == spec_keys_iter(&self.rooms).remaining(),
                ids@.len() == iter.index(),
                forall|j: int| 0 <= j < ids@.len() ==> #[trigger] ids@[j] == *iter.seq()[j],
        {
            assert(iter.seq()[iter.index()] == key);
            ids.push(*key);
        }
        proof {
            let keys = spec_keys_iter(&self.rooms).remaining();
            assert forall|room_id: RoomId| #[trigger] self@.contains_key(room_id) implies ids@.contains(room_id) by {
                assert(keys.unref().to_set().contains(room_id));
                let j = choose|j: int| 0 <= j < keys.unref().len() && keys.unref()[j] == room_id;
                assert(ids@[j] == room_id);
            }
        }
        ids
    }

    /// Removes `user_id` from every room it is in; a room goes with its
    /// last member.
    pub fn evict(&mut self, user_id: i32)
        ensures
            final(self)@ == without_user(old(self)@, user_id),
            holds_nowhere(final(self)@, user_id),
            no_empty_room(final(self)@),
    {
        let ids = self.room_ids();
        let ghost done: Set<RoomId> = Set::empty();
        let mut i: usize = 0;
        assert(self@ =~= without_user_in(old(self)@, user_id, done));
        while i < ids.len()
            invariant
                i <= ids.len(),
                forall|j: int| 0 <= j < i ==> done.contains(#[trigger] ids@[j]),
                self@ == without_user_in(old(self)@, user_id, done),
                forall|room_id: RoomId| #[trigger] old(self)@.contains_key(room_id) ==> ids@.contains(room_id),
            decreases ids.len() - i,
        {
            let ghost before = self@;
            self.leave(ids[i], user_id);
            proof {
                let next = done.insert(ids@[i as int]);
                assert(self@ =~= without_user_in(old(self)@, user_id, next)) by {
                    assert forall|room_id: RoomId| #[trigger]
                        self@.contains_key(room_id) == without_user_in(
                            old(self)@,
                            user_id,
                            next,
                        ).contains_key(room_id) by {
                        assert(before.contains_key(room_id) == without_user_in(
                            old(self)@,
                            user_id,
                            done,
                        ).contains_key(room_id));
                    }
                    assert forall|room_id: RoomId| #[trigger] self@.contains_key(room_id) implies self@[room_id]
                        =~= without_user_in(old(self)@, user_id, next)[room_id] by {
                        assert(before.contains_key(room_id));
                    }
                }
                done = next;
            }
            i = i + 1;
        }
        proof {
            assert(self@ =~= without_user(old(self)@, user_id)) by {
                assert forall|room_id: RoomId| #[trigger] old(self)@.contains_key(room_id) implies done.contains(
                    room_id,
                ) by {
                    let j = choose|j: int| 0 <= j < ids@.len() && ids@[j] == room_id;
                    assert(done.contains(ids@[j]));
                }
            }
            use_type_invariant(&*self);
        }
    }

    /// Whether `room_id` has a member right now.
    pub fn is_live(&self, room_id: RoomId) -> (live: bool)
        ensures
            live == self@.contains_key(room_id),
            live == !members_in(self@, room_id).is_empty(),
    {
        proof {
            use_type_invariant(self);
        }
        self.rooms.contains_key(&room_id)
    }

    /// The members of `room_id` other than `exclude`, each with the connection
    /// it joined over, in no particular order.
    pub fn roster(&self, room_id: RoomId, exclude: Option<i32>) -> (roster: Vec<Seat>)
        ensures
            is_roster(roster@, members_in(self@, room_id), exclude),
    {
        match self.rooms.get(&room_id) {
            Some(room) => room.roster(exclude),
            None => Vec::new(),
        }
    }

    /// The users joined to `room_id`, each once, in no particular order.
    pub fn members_of(&self, room_id: RoomId) -> (users: Vec<i32>)
        ensures
            users@.no_duplicates(),
            users@.to_set() == members_in(self@, room_id).dom(),
    {
        let seats = self.roster(room_id, None);
        let mut users: Vec<i32> = Vec::new();
        let mut i: usize = 0;
        while i < seats.len()
            invariant
                i <= seats.len(),
                users@.len() == i,
                forall|k: int| 0 <= k < i ==> #[trigger] users@[k] == seats@[k].0,
            decreases seats.len() - i,
        {
            users.push(seats[i].0);
            i = i + 1;
        }
        proof {
            let members = members_in(self@, room_id);
            assert forall|u: i32| users@.to_set().contains(u) <==> members.dom().contains(u) by {
                if users@.to_set().contains(u) {
                    let k = choose|k: int| 0 <= k < users@.len() && users@[k] == u;
                    assert(members.contains_key(seats@[k].0));
                }
                if members.contains_key(u) {
                    let k = choose|k: int| 0 <= k < seats@.len() && (#[trigger] seats@[k]).0 == u;
                    assert(users@[k] == u);
                }
            }
            assert(users@.to_set() =~= members.dom());
            assert forall|a: int, b: int| 0 <= a < users@.len() && 0 <= b < users@.len() && a != b implies users@[a] != users@[b] by {
                if a < b {
                    assert(seats@[a].0 != seats@[b].0);
                } else {
                    assert(seats@[b].0 != seats@[a].0);
                }
            }
        }
        users
    }
}

/// Law: as long as no live room is empty, a room is absent from the
/// registry if and only if it has no member.
pub proof fn law_absent_iff_empty(live: LiveRooms, room_id: RoomId)
    requires
        no_empty_room(live),
    ensures
        !live.contains_key(room_id) <==> members_in(live, room_id).is_empty(),
{
    assert(Map::<i32, Client>::empty().is_empty());
}

/// Law: joining a room leaves no live room empty.
pub proof fn law_join_leaves_no_room_empty(live: LiveRooms, room_id: RoomId, user_id: i32, conn: ConnId)
    requires
        no_empty_room(live),
    ensures
        no_empty_room(after_join(live, room_id, user_id, conn)),
        members_in(after_join(live, room_id, user_id, conn), room_id).contains_key(user_id),
{
    let joined = after_join(live, room_id, user_id, conn);
    assert(joined[room_id].contains_key(user_id));
    assert forall|r: RoomId| #[trigger] joined.contains_key(r) implies !joined[r].is_empty() by {
        if r == room_id {
            assert(joined[r].dom().contains(user_id));
        } else {
            assert(live.contains_key(r));
        }
    }
}

/// Law: leaving a room leaves no live room empty: the room goes with its
/// last member. Whoever else was in the room still is.
pub proof fn law_leave_leaves_no_room_empty(live: LiveRooms, room_id: RoomId, user_id: i32)
    requires
        no_empty_room(live),
    ensures
        no_empty_room(after_leave(live, room_id, user_id)),
        members_in(after_leave(live, room_id, user_id), room_id) =~= members_in(live, room_id).remove(user_id),
{
    let left = after_leave(live, room_id, user_id);
    assert forall|r: RoomId| #[trigger] left.contains_key(r) implies !left[r].is_empty() by {
        if r != room_id {
            assert(live.contains_key(r));
        }
    }
}

/// Law: a roster reaches every member but the excluded one, over the
/// connection that the member joined with, and it reaches nobody else.
pub proof fn law_roster_is_complete(roster: Seq<Seat>, members: Map<i32, Client>, exclude: Option<i32>, user_id: i32)
    requires
        is_roster(roster, members, exclude),
    ensures
        members.contains_key(user_id) && exclude != Some(user_id) ==> roster.contains(
            (user_id, members[user_id].sender),
        ),
        forall|conn: ConnId| #[trigger]
            roster.contains((user_id, conn)) ==> members.contains_key(user_id) && exclude != Some(user_id)
                && members[user_id].sender == conn,
{
    if members.contains_key(user_id) && exclude != Some(user_id) {
        let i = choose|i: int| 0 <= i < roster.len() && (#[trigger] roster[i]).0 == user_id;
        assert(roster[i] == (user_id, members[user_id].sender));
    }
    assert forall|conn: ConnId| #[trigger] roster.contains((user_id, conn)) implies members.contains_key(user_id)
        && exclude != Some(user_id) && members[user_id].sender == conn by {
        let i = choose|i: int| 0 <= i < roster.len() && roster[i] == (user_id, conn);
        assert(members.contains_key(roster[i].0));
    }
}

/// Law: once a user has left every room, no live room holds the user, no
/// live room is empty, and whoever else was in a room still is, over the
/// same connection.
pub proof fn law_eviction_removes_one_user_only(live: LiveRooms, user_id: i32, room_id: RoomId, other: i32)
    requires
        no_empty_room(live),
    ensures
        holds_nowhere(without_user(live, user_id), user_id),
        no_empty_room(without_user(live, user_id)),
        other != user_id && members_in(live, room_id).contains_key(other) ==> {
            &&& members_in(without_user(live, user_id), room_id).contains_key(other)
            &&& members_in(without_user(live, user_id), room_id)[other] == members_in(live, room_id)[other]
        },
{
    if other != user_id && members_in(live, room_id).contains_key(other) {
        assert(live[room_id].remove(user_id).contains_key(other));
    }
}

} // verus!
