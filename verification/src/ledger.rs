//! What the storage scripts achieve, stated against a model of storage.
//!
//! The model holds the rows that the friendship and room operations read
//! and write. It says which replies a store that works gives to each call,
//! and what the call does to the rows. A store may fail any call; it never
//! answers untruthfully. Against every such store the laws of this module
//! hold of the scripts in [`crate::db`].

use crate::db::{accept_script, message_script, private_room_script, reject_script, request_script, unfriend_script};
use crate::records::ChatMessage;
use crate::storage::{ran, RequestStatus, Step, StoreCall, StoreError, StoreReply};
use vstd::prelude::*;

verus! {

/// A friend request row.
pub struct Request {
    pub from_user_id: i32,
    pub to_user_id: i32,
    pub status: RequestStatus,
}

/// The rows of durable storage that friendships and private rooms rest on.
pub struct Tables {
    /// For each room, whether it is private.
    pub rooms: Map<i64, bool>,
    /// Which user takes part in which room.
    pub participants: Set<(i64, i32)>,
    /// For each message, the room it was sent to.
    pub messages: Map<i64, i64>,
    /// The identifier of the newest message. Each new message gets a larger one.
    pub last_message: i64,
    pub requests: Map<i32, Request>,
    /// The identifiers that rooms have had so far. None is given twice.
    pub spent_rooms: Set<i64>,
}

/// Durable storage: its rows, and the rows as they were when the open
/// transaction began.
pub struct Ledger {
    pub now: Tables,
    pub saved: Option<Tables>,
}

/// Whether `room_id` is a private room in which both users take part.
pub open spec fn shared(tables: Tables, room_id: i64, user1_id: i32, user2_id: i32) -> bool {
    &&& tables.rooms.contains_key(room_id)
    &&& tables.rooms[room_id]
    &&& tables.participants.contains((room_id, user1_id))
    &&& tables.participants.contains((room_id, user2_id))
}

/// Whether the two users share no private room.
pub open spec fn nowhere_shared(tables: Tables, user1_id: i32, user2_id: i32) -> bool {
    forall|room_id: i64| !#[trigger] shared(tables, room_id, user1_id, user2_id)
}

/// Whether no message was sent to `room_id`.
pub open spec fn empty_room(tables: Tables, room_id: i64) -> bool {
    forall|m: i64| #[trigger] tables.messages.contains_key(m) ==> tables.messages[m] != room_id
}

/// Whether `request_id` is a request from `from_user_id` to `to_user_id`.
pub open spec fn links(tables: Tables, request_id: i32, from_user_id: i32, to_user_id: i32) -> bool {
    &&& tables.requests.contains_key(request_id)
    &&& tables.requests[request_id].from_user_id == from_user_id
    &&& tables.requests[request_id].to_user_id == to_user_id
}

/// Whether there is a request from `from_user_id` to `to_user_id`.
pub open spec fn requested(tables: Tables, from_user_id: i32, to_user_id: i32) -> bool {
    exists|request_id: i32| #[trigger] links(tables, request_id, from_user_id, to_user_id)
}

/// Whether `request_id` is an accepted request between the two users, in
/// either direction.
pub open spec fn befriends(tables: Tables, request_id: i32, user1_id: i32, user2_id: i32) -> bool {
    &&& tables.requests.contains_key(request_id)
    &&& tables.requests[request_id].status == RequestStatus::Accepted
    &&& (links(tables, request_id, user1_id, user2_id) || links(tables, request_id, user2_id, user1_id))
}

/// Whether the rows respect what the schema and the operations maintain:
/// two different users share at most one private room, every participant
/// row and every message belongs to a room, no room has an identifier that
/// was never given out, no message is newer than the newest, and there is
/// at most one request per ordered pair of users.
pub open spec fn sound(tables: Tables) -> bool {
    &&& forall|r1: i64, r2: i64, a: i32, b: i32|
        a != b && #[trigger] shared(tables, r1, a, b) && #[trigger] shared(tables, r2, a, b) ==> r1 == r2
    &&& forall|r: i64, u: i32| #[trigger] tables.participants.contains((r, u)) ==> tables.rooms.contains_key(r)
    &&& forall|r: i64| #[trigger] tables.rooms.contains_key(r) ==> tables.spent_rooms.contains(r)
    &&& forall|m: i64| #[trigger]
        tables.messages.contains_key(m) ==> tables.rooms.contains_key(tables.messages[m]) && m
            <= tables.last_message
    &&& forall|q1: i32, q2: i32, a: i32, b: i32|
        #[trigger] links(tables, q1, a, b) && #[trigger] links(tables, q2, a, b) ==> q1 == q2
}

/// Whether the ledger is at rest: its rows are sound and no transaction is open.
pub open spec fn at_rest(ledger: Ledger) -> bool {
    sound(ledger.now) && ledger.saved is None
}

/// An identifier that no request has.
pub open spec fn spare_request(tables: Tables) -> i32 {
    choose|id: i32| !tables.requests.contains_key(id)
}

/// The rows once the room, its participant rows and its messages are deleted.
pub open spec fn without_room(tables: Tables, room_id: i64) -> Tables {
    Tables {
        rooms: tables.rooms.remove(room_id),
        participants: tables.participants.filter(|p: (i64, i32)| p.0 != room_id),
        messages: tables.messages.remove_keys(
            Set::new(|m: i64| tables.messages.contains_key(m) && tables.messages[m] == room_id),
        ),
        ..tables
    }
}

/// The rows once the accepted requests between the two users are deleted.
pub open spec fn without_friendship(tables: Tables, user1_id: i32, user2_id: i32) -> Tables {
    Tables {
        requests: tables.requests.remove_keys(Set::new(|q: i32| befriends(tables, q, user1_id, user2_id))),
        ..tables
    }
}

/// What a call that was answered by `reply` does to the rows.
pub open spec fn rows_after(tables: Tables, call: StoreCall, reply: StoreReply) -> Tables {
    match (call, reply) {
        (_, StoreReply::Failed(_)) => tables,
        (StoreCall::InsertPrivateRoom, StoreReply::RowId(room_id)) => Tables {
            rooms: tables.rooms.insert(room_id, true),
            spent_rooms: tables.spent_rooms.insert(room_id),
            ..tables
        },
        (StoreCall::InsertParticipant { room_id, user_id }, _) => Tables {
            participants: tables.participants.insert((room_id, user_id)),
            ..tables
        },
        (StoreCall::DeleteRoom(room_id), _) => without_room(tables, room_id),
        (StoreCall::InsertMessage { room_id, .. }, StoreReply::RowId(message_id)) => Tables {
            messages: tables.messages.insert(message_id, room_id),
            last_message: message_id,
            ..tables
        },
        (StoreCall::InsertRequestIfAbsent { from_user_id, to_user_id }, _) => if requested(
            tables,
            from_user_id,
            to_user_id,
        ) {
            tables
        } else {
            Tables {
                requests: tables.requests.insert(
                    spare_request(tables),
                    Request { from_user_id, to_user_id, status: RequestStatus::Pending },
                ),
                ..tables
            }
        },
        (StoreCall::SetRequestStatus { request_id, status }, _) => if tables.requests.contains_key(request_id)
            && tables.requests[request_id].status == RequestStatus::Pending {
            Tables {
                requests: tables.requests.insert(request_id, Request { status, ..tables.requests[request_id] }),
                ..tables
            }
        } else {
            tables
        },
        (StoreCall::DeleteAcceptedRequests { user1_id, user2_id }, _) => without_friendship(tables, user1_id, user2_id),
        _ => tables,
    }
}

/// What a call that was answered by `reply` does to the ledger.
pub open spec fn after(ledger: Ledger, call: StoreCall, reply: StoreReply) -> Ledger {
    match (call, reply) {
        (_, StoreReply::Failed(_)) => ledger,
        (StoreCall::Begin, _) => Ledger { now: ledger.now, saved: Some(ledger.now) },
        (StoreCall::Commit, _) => Ledger { now: ledger.now, saved: None },
        (StoreCall::Rollback, _) => Ledger { now: settled(ledger), saved: None },
        _ => Ledger { now: rows_after(ledger.now, call, reply), saved: ledger.saved },
    }
}

/// Whether `reply` is an answer that a working store may give to `call`.
/// A failure is always possible. An answer that is no failure is true of
/// the rows, and respects the constraints of the schema.
pub open spec fn faithful(ledger: Ledger, call: StoreCall, reply: StoreReply) -> bool {
    let tables = ledger.now;
    if reply is Failed {
        true
    } else {
        match call {
        StoreCall::Begin => ran(reply) && ledger.saved is None,
        StoreCall::Commit => ran(reply) && ledger.saved is Some,
        StoreCall::Rollback => ran(reply),
        StoreCall::FindPrivateRoom { user1_id, user2_id } => {
            &&& reply matches StoreReply::RoomId(found)
            &&& match found {
                Some(room_id) => shared(tables, room_id, user1_id, user2_id),
                None => nowhere_shared(tables, user1_id, user2_id),
            }
        },
        StoreCall::InsertPrivateRoom => reply matches StoreReply::RowId(room_id) && !tables.spent_rooms.contains(
            room_id,
        ),
        StoreCall::InsertParticipant { room_id, user_id } => {
            &&& ran(reply)
            &&& tables.rooms.contains_key(room_id)
            &&& !tables.participants.contains((room_id, user_id))
        },
        StoreCall::DeleteRoom(_) => ran(reply),
        StoreCall::InsertMessage { room_id, .. } => {
            &&& reply matches StoreReply::RowId(message_id)
            &&& message_id > tables.last_message
            &&& tables.rooms.contains_key(room_id)
        },
        StoreCall::MessageById(message_id) => {
            &&& reply matches StoreReply::Message(message)
            &&& tables.messages.contains_key(message_id)
            &&& message.id == message_id
            &&& message.room_id == tables.messages[message_id]
        },
        StoreCall::InsertRequestIfAbsent { from_user_id, to_user_id } => {
            &&& ran(reply)
            &&& requested(tables, from_user_id, to_user_id) || !tables.requests.contains_key(spare_request(tables))
        },
        StoreCall::RequestByPair { from_user_id, to_user_id } => {
            &&& reply matches StoreReply::Request(info)
            &&& links(tables, info.id, from_user_id, to_user_id)
            &&& info.from_user_id == from_user_id
            &&& info.to_user_id == to_user_id
            &&& info.status@ == tables.requests[info.id].status.label()
        },
        StoreCall::PendingRequestById(request_id) => {
            &&& reply matches StoreReply::Ends(from_user_id, to_user_id)
            &&& links(tables, request_id, from_user_id, to_user_id)
            &&& tables.requests[request_id].status == RequestStatus::Pending
        },
        StoreCall::RequestSender(request_id) => reply matches StoreReply::Sender(sender) && sender == (
        if tables.requests.contains_key(request_id) {
            Some(tables.requests[request_id].from_user_id)
        } else {
            None
        }),
        StoreCall::SetRequestStatus { .. } => ran(reply),
        StoreCall::DeleteAcceptedRequests { .. } => ran(reply),
        _ => true,
    }
    }
}

/// The call that a script makes next, if it makes one.
pub open spec fn call_of<T>(step: Step<T>) -> Option<StoreCall> {
    match step {
        Step::Call(call) => Some(call),
        Step::Done(_) => None,
    }
}

/// The ledger after the first `count` replies of a run of `script` that
/// began at `start`.
pub open spec fn ledger_after(
    script: spec_fn(Seq<StoreReply>) -> Option<StoreCall>,
    start: Ledger,
    replies: Seq<StoreReply>,
    count: nat,
) -> Ledger
    decreases count,
{
    if count == 0 {
        start
    } else {
        let before = ledger_after(script, start, replies, (count - 1) as nat);
        match script(replies.take(count - 1)) {
            Some(call) => after(before, call, replies[count - 1]),
            None => before,
        }
    }
}

/// Whether `replies` is a run of `script` against a working store that
/// began at `start`: each reply answers the call that the script made after
/// the replies before it, and is faithful to the ledger at that point.
pub open spec fn is_run(
    script: spec_fn(Seq<StoreReply>) -> Option<StoreCall>,
    start: Ledger,
    replies: Seq<StoreReply>,
) -> bool {
    forall|i: nat|
        i < replies.len() ==> {
            &&& #[trigger] script(replies.take(i as int)) matches Some(call)
            &&& faithful(ledger_after(script, start, replies, i), call, replies[i as int])
        }
}

/// The rows that are left once a transaction that is still open is undone.
pub open spec fn settled(ledger: Ledger) -> Tables {
    match ledger.saved {
        Some(saved) => saved,
        None => ledger.now,
    }
}

/// The rows that a run leaves behind.
pub open spec fn outcome(
    script: spec_fn(Seq<StoreReply>) -> Option<StoreCall>,
    start: Ledger,
    replies: Seq<StoreReply>,
) -> Tables {
    settled(ledger_after(script, start, replies, replies.len()))
}

/// The calls of the script that finds or creates the private room of two users.
pub open spec fn private_room_calls(user1_id: i32, user2_id: i32) -> spec_fn(Seq<StoreReply>) -> Option<StoreCall> {
    |replies: Seq<StoreReply>| call_of(private_room_script(user1_id, user2_id, replies))
}

/// In a run, reply `i` answers the call that the script made after the
/// replies before it, is faithful to the ledger at that point, and takes
/// the ledger one call on.
proof fn lemma_run_step(
    script: spec_fn(Seq<StoreReply>) -> Option<StoreCall>,
    start: Ledger,
    replies: Seq<StoreReply>,
    i: nat,
)
    requires
        is_run(script, start, replies),
        i < replies.len(),
    ensures
        script(replies.take(i as int)) is Some,
        faithful(ledger_after(script, start, replies, i), script(replies.take(i as int))->0, replies[i as int]),
        ledger_after(script, start, replies, i + 1) == after(
            ledger_after(script, start, replies, i),
            script(replies.take(i as int))->0,
            replies[i as int],
        ),
{
    assert(script(replies.take(i as int)) is Some);
    reveal_with_fuel(ledger_after, 2);
}

/// The rows once a private room for exactly the two users is added.
pub open spec fn with_private_room(tables: Tables, room_id: i64, user1_id: i32, user2_id: i32) -> Tables {
    Tables {
        rooms: tables.rooms.insert(room_id, true),
        participants: tables.participants.insert((room_id, user1_id)).insert((room_id, user2_id)),
        spent_rooms: tables.spent_rooms.insert(room_id),
        ..tables
    }
}

/// Adding a private room with a fresh identifier for two different users
/// who share none keeps the rows sound and makes that room the one they share.
proof fn lemma_room_added(before: Tables, room_id: i64, user1_id: i32, user2_id: i32)
    requires
        sound(before),
        user1_id != user2_id,
        nowhere_shared(before, user1_id, user2_id),
        !before.spent_rooms.contains(room_id),
    ensures
        sound(with_private_room(before, room_id, user1_id, user2_id)),
        shared(with_private_room(before, room_id, user1_id, user2_id), room_id, user1_id, user2_id),
        forall|r: i64|
            shared(with_private_room(before, room_id, user1_id, user2_id), r, user1_id, user2_id) ==> r == room_id,
{
    let grown = with_private_room(before, room_id, user1_id, user2_id);
    assert(!before.rooms.contains_key(room_id));
    assert forall|r: i64, u: i32| #[trigger] grown.participants.contains((r, u)) && r == room_id implies u
        == user1_id || u == user2_id by {
        if before.participants.contains((r, u)) {
            assert(before.rooms.contains_key(r));
        }
    }
    assert forall|r: i64, x: i32, y: i32| r != room_id && #[trigger] shared(grown, r, x, y) implies shared(
        before,
        r,
        x,
        y,
    ) by {}
    assert forall|r1: i64, r2: i64, x: i32, y: i32|
        x != y && #[trigger] shared(grown, r1, x, y) && #[trigger] shared(grown, r2, x, y) implies r1 == r2 by {
        if r1 == room_id && r2 != room_id {
            assert(shared(before, r2, x, y));
            assert(grown.participants.contains((r1, x)));
            assert(grown.participants.contains((r1, y)));
            assert(shared(before, r2, user1_id, user2_id) || shared(before, r2, user2_id, user1_id));
            assert(false);
        } else if r1 != room_id && r2 == room_id {
            assert(shared(before, r1, x, y));
            assert(grown.participants.contains((r2, x)));
            assert(grown.participants.contains((r2, y)));
            assert(shared(before, r1, user1_id, user2_id) || shared(before, r1, user2_id, user1_id));
            assert(false);
        } else if r1 != room_id {
            assert(shared(before, r1, x, y));
            assert(shared(before, r2, x, y));
        }
    }
    assert forall|q1: i32, q2: i32, x: i32, y: i32|
        #[trigger] links(grown, q1, x, y) && #[trigger] links(grown, q2, x, y) implies q1 == q2 by {
        assert(links(before, q1, x, y));
        assert(links(before, q2, x, y));
    }
    assert(shared(grown, room_id, user1_id, user2_id));
    assert forall|r: i64| shared(grown, r, user1_id, user2_id) implies r == room_id by {
        assert(shared(grown, room_id, user1_id, user2_id));
    }
}

/// Law: finding or creating the private room of two different users, run
/// against a store at rest, yields a private room that both take part in,
/// and afterwards that room is the only private room they share. If they
/// shared one before, the rows are as they were. If they shared none, the
/// room is new, under an identifier that no room has had before, it holds
/// no message, and nothing else changes. In any case the rows stay sound.
pub proof fn law_private_room_is_the_one(
    user1_id: i32,
    user2_id: i32,
    start: Ledger,
    replies: Seq<StoreReply>,
    room_id: i64,
)
    requires
        at_rest(start),
        user1_id != user2_id,
        is_run(private_room_calls(user1_id, user2_id), start, replies),
        private_room_script(user1_id, user2_id, replies) == Step::Done(Ok::<i64, StoreError>(room_id)),
    ensures
        sound(outcome(private_room_calls(user1_id, user2_id), start, replies)),
        shared(outcome(private_room_calls(user1_id, user2_id), start, replies), room_id, user1_id, user2_id),
        forall|r: i64|
            shared(outcome(private_room_calls(user1_id, user2_id), start, replies), r, user1_id, user2_id) ==> r
                == room_id,
        !nowhere_shared(start.now, user1_id, user2_id) ==> outcome(
            private_room_calls(user1_id, user2_id),
            start,
            replies,
        ) == start.now,
        nowhere_shared(start.now, user1_id, user2_id) ==> {
            &&& !start.now.spent_rooms.contains(room_id)
            &&& outcome(private_room_calls(user1_id, user2_id), start, replies) == with_private_room(
                start.now,
                room_id,
                user1_id,
                user2_id,
            )
            &&& empty_room(outcome(private_room_calls(user1_id, user2_id), start, replies), room_id)
        },
{
    let calls = private_room_calls(user1_id, user2_id);
    assert(replies.len() >= 3);
    lemma_run_step(calls, start, replies, 0);
    lemma_run_step(calls, start, replies, 1);
    lemma_run_step(calls, start, replies, 2);
    let l1 = ledger_after(calls, start, replies, 1);
    let l2 = ledger_after(calls, start, replies, 2);
    let l3 = ledger_after(calls, start, replies, 3);
    assert(calls(replies.take(0)) == Some(StoreCall::Begin));
    assert(calls(replies.take(1)) == Some(StoreCall::FindPrivateRoom { user1_id, user2_id }));
    assert(l1 == Ledger { now: start.now, saved: Some(start.now) });
    assert(l2 == l1);
    match replies[1] {
        StoreReply::RoomId(Some(found)) => {
            assert(replies.len() == 3);
            assert(found == room_id);
            assert(calls(replies.take(2)) == Some(StoreCall::Commit));
            assert(l3 == Ledger { now: start.now, saved: None });
            let end = outcome(calls, start, replies);
            assert(end == start.now);
            assert forall|r: i64| shared(end, r, user1_id, user2_id) implies r == room_id by {
                assert(shared(end, room_id, user1_id, user2_id));
            }
        },
        StoreReply::RoomId(None) => {
            assert(replies.len() == 6);
            lemma_run_step(calls, start, replies, 3);
            lemma_run_step(calls, start, replies, 4);
            lemma_run_step(calls, start, replies, 5);
            assert(calls(replies.take(2)) == Some(StoreCall::InsertPrivateRoom));
            assert(calls(replies.take(3)) == Some(StoreCall::InsertParticipant { room_id, user_id: user1_id }));
            assert(calls(replies.take(4)) == Some(StoreCall::InsertParticipant { room_id, user_id: user2_id }));
            assert(calls(replies.take(5)) == Some(StoreCall::Commit));
            let before = start.now;
            let end = outcome(calls, start, replies);
            assert(faithful(l1, StoreCall::FindPrivateRoom { user1_id, user2_id }, replies[1]));
            assert(nowhere_shared(before, user1_id, user2_id));
            let grown = with_private_room(before, room_id, user1_id, user2_id);
            assert(end =~= grown) by {
                assert(end.participants =~= grown.participants);
            }
            lemma_room_added(before, room_id, user1_id, user2_id);
        },
        _ => {
            assert(false);
        },
    }
}

/// Law: asking twice for the private room of two different users yields
/// the same room both times, and the second time changes nothing.
pub proof fn law_private_room_repeats(
    user1_id: i32,
    user2_id: i32,
    start: Ledger,
    first: Seq<StoreReply>,
    first_room: i64,
    second: Seq<StoreReply>,
    second_room: i64,
)
    requires
        at_rest(start),
        user1_id != user2_id,
        is_run(private_room_calls(user1_id, user2_id), start, first),
        private_room_script(user1_id, user2_id, first) == Step::Done(Ok::<i64, StoreError>(first_room)),
        is_run(
            private_room_calls(user1_id, user2_id),
            Ledger { now: outcome(private_room_calls(user1_id, user2_id), start, first), saved: None },
            second,
        ),
        private_room_script(user1_id, user2_id, second) == Step::Done(Ok::<i64, StoreError>(second_room)),
    ensures
        second_room == first_room,
        outcome(
            private_room_calls(user1_id, user2_id),
            Ledger { now: outcome(private_room_calls(user1_id, user2_id), start, first), saved: None },
            second,
        ) == outcome(private_room_calls(user1_id, user2_id), start, first),
{
    let calls = private_room_calls(user1_id, user2_id);
    law_private_room_is_the_one(user1_id, user2_id, start, first, first_room);
    let middle = Ledger { now: outcome(calls, start, first), saved: None };
    law_private_room_is_the_one(user1_id, user2_id, middle, second, second_room);
    assert(shared(middle.now, first_room, user1_id, user2_id));
}

/// The calls of the script that sends a friend request.
pub open spec fn request_calls(from_user_id: i32, to_user_id: i32) -> spec_fn(Seq<StoreReply>) -> Option<StoreCall> {
    |replies: Seq<StoreReply>| call_of(request_script(from_user_id, to_user_id, replies))
}

/// The calls of the script that accepts a friend request.
pub open spec fn accept_calls(request_id: i32) -> spec_fn(Seq<StoreReply>) -> Option<StoreCall> {
    |replies: Seq<StoreReply>| call_of(accept_script(request_id, replies))
}

/// The calls of the script that deletes a friendship.
pub open spec fn unfriend_calls(user1_id: i32, user2_id: i32) -> spec_fn(Seq<StoreReply>) -> Option<StoreCall> {
    |replies: Seq<StoreReply>| call_of(unfriend_script(user1_id, user2_id, replies))
}

/// Law: sending a friend request is idempotent. The request that comes
/// back is the one that storage holds for the pair, with the status it has
/// there. If the pair had a request already, pending, accepted or rejected,
/// that request comes back and no row changes. If it had none, the only
/// change is the new request, which is pending.
pub proof fn law_friend_request_idempotent(
    from_user_id: i32,
    to_user_id: i32,
    start: Ledger,
    replies: Seq<StoreReply>,
    info: crate::records::FriendRequestInfo,
)
    requires
        at_rest(start),
        is_run(request_calls(from_user_id, to_user_id), start, replies),
        request_script(from_user_id, to_user_id, replies) == Step::Done(
            Ok::<crate::records::FriendRequestInfo, StoreError>(info),
        ),
    ensures
        sound(outcome(request_calls(from_user_id, to_user_id), start, replies)),
        links(outcome(request_calls(from_user_id, to_user_id), start, replies), info.id, from_user_id, to_user_id),
        info.status@ == outcome(request_calls(from_user_id, to_user_id), start, replies).requests[info.id].status.label(),
        requested(start.now, from_user_id, to_user_id) ==> {
            &&& outcome(request_calls(from_user_id, to_user_id), start, replies) == start.now
            &&& links(start.now, info.id, from_user_id, to_user_id)
        },
        !requested(start.now, from_user_id, to_user_id) ==> {
            &&& !start.now.requests.contains_key(info.id)
            &&& info.status@ == RequestStatus::Pending.label()
            &&& outcome(request_calls(from_user_id, to_user_id), start, replies) == (Tables {
                requests: start.now.requests.insert(
                    info.id,
                    Request { from_user_id, to_user_id, status: RequestStatus::Pending },
                ),
                ..start.now
            })
        },
{
    let calls = request_calls(from_user_id, to_user_id);
    assert(replies.len() == 2);
    lemma_run_step(calls, start, replies, 0);
    lemma_run_step(calls, start, replies, 1);
    assert(calls(replies.take(0)) == Some(StoreCall::InsertRequestIfAbsent { from_user_id, to_user_id }));
    assert(calls(replies.take(1)) == Some(StoreCall::RequestByPair { from_user_id, to_user_id }));
    let l1 = ledger_after(calls, start, replies, 1);
    let l2 = ledger_after(calls, start, replies, 2);
    assert(l2 == l1);
    let end = outcome(calls, start, replies);
    assert(end == l1.now);
    assert(faithful(l1, StoreCall::RequestByPair { from_user_id, to_user_id }, replies[1]));
    if requested(start.now, from_user_id, to_user_id) {
        assert(end == start.now);
    } else {
        let fresh = spare_request(start.now);
        assert(!start.now.requests.contains_key(fresh));
        assert(end.requests == start.now.requests.insert(
            fresh,
            Request { from_user_id, to_user_id, status: RequestStatus::Pending },
        ));
        if info.id != fresh {
            assert(links(start.now, info.id, from_user_id, to_user_id));
        }
        assert forall|q1: i32, q2: i32, x: i32, y: i32|
            #[trigger] links(end, q1, x, y) && #[trigger] links(end, q2, x, y) implies q1 == q2 by {
            if q1 != fresh {
                assert(links(start.now, q1, x, y));
            }
            if q2 != fresh {
                assert(links(start.now, q2, x, y));
            }
        }
        assert forall|r: i64, x: i32, y: i32| #[trigger] shared(end, r, x, y) implies shared(start.now, r, x, y) by {}
        assert(sound(end));
    }
}

/// Changing the status of a request keeps the rows sound and touches no room.
proof fn lemma_status_set(before: Tables, request_id: i32, status: RequestStatus)
    requires
        sound(before),
    ensures
        sound(rows_after(before, StoreCall::SetRequestStatus { request_id, status }, StoreReply::Ack)),
        forall|r: i64, x: i32, y: i32|
            shared(rows_after(before, StoreCall::SetRequestStatus { request_id, status }, StoreReply::Ack), r, x, y)
                == shared(before, r, x, y),
{
    let changed = rows_after(before, StoreCall::SetRequestStatus { request_id, status }, StoreReply::Ack);
    assert forall|q1: i32, q2: i32, x: i32, y: i32|
        #[trigger] links(changed, q1, x, y) && #[trigger] links(changed, q2, x, y) implies q1 == q2 by {
        assert(links(before, q1, x, y));
        assert(links(before, q2, x, y));
    }
    assert forall|r1: i64, r2: i64, a: i32, b: i32|
        a != b && #[trigger] shared(changed, r1, a, b) && #[trigger] shared(changed, r2, a, b) implies r1 == r2 by {
        assert(shared(before, r1, a, b));
        assert(shared(before, r2, a, b));
    }
}

/// Law: accepting a friend request succeeds only on a request that is
/// pending. It yields the request's sender, leaves the request accepted,
/// and changes nothing else but this: the two users, if they are two, share
/// exactly one private room afterwards.
pub proof fn law_accept_transition(
    request_id: i32,
    start: Ledger,
    replies: Seq<StoreReply>,
    sender: Option<i32>,
)
    requires
        at_rest(start),
        is_run(accept_calls(request_id), start, replies),
        accept_script(request_id, replies) == Step::Done(Ok::<Option<i32>, StoreError>(sender)),
        forall|user_id: i32| !links(start.now, request_id, user_id, user_id),
    ensures
        start.now.requests.contains_key(request_id),
        start.now.requests[request_id].status == RequestStatus::Pending,
        sender == Some(start.now.requests[request_id].from_user_id),
        sound(outcome(accept_calls(request_id), start, replies)),
        outcome(accept_calls(request_id), start, replies).requests == start.now.requests.insert(
            request_id,
            Request { status: RequestStatus::Accepted, ..start.now.requests[request_id] },
        ),
        exists|room_id: i64|
            {
                &&& #[trigger] shared(
                    outcome(accept_calls(request_id), start, replies),
                    room_id,
                    start.now.requests[request_id].from_user_id,
                    start.now.requests[request_id].to_user_id,
                )
                &&& forall|r: i64|
                    shared(
                        outcome(accept_calls(request_id), start, replies),
                        r,
                        start.now.requests[request_id].from_user_id,
                        start.now.requests[request_id].to_user_id,
                    ) ==> r == room_id
            },
{
    let calls = accept_calls(request_id);
    assert(replies.len() >= 5);
    lemma_run_step(calls, start, replies, 0);
    lemma_run_step(calls, start, replies, 1);
    lemma_run_step(calls, start, replies, 2);
    lemma_run_step(calls, start, replies, 3);
    lemma_run_step(calls, start, replies, 4);
    let from = replies[1]->Ends_0;
    let to = replies[1]->Ends_1;
    assert(calls(replies.take(0)) == Some(StoreCall::Begin));
    assert(calls(replies.take(1)) == Some(StoreCall::PendingRequestById(request_id)));
    assert(calls(replies.take(2)) == Some(
        StoreCall::SetRequestStatus { request_id, status: RequestStatus::Accepted },
    ));
    assert(calls(replies.take(3)) == Some(StoreCall::FindPrivateRoom { user1_id: from, user2_id: to }));
    let l1 = ledger_after(calls, start, replies, 1);
    let l2 = ledger_after(calls, start, replies, 2);
    let l3 = ledger_after(calls, start, replies, 3);
    let l4 = ledger_after(calls, start, replies, 4);
    assert(l1 == Ledger { now: start.now, saved: Some(start.now) });
    assert(l2 == l1);
    assert(faithful(l1, StoreCall::PendingRequestById(request_id), replies[1]));
    assert(links(start.now, request_id, from, to));
    assert(from != to);
    let marked = rows_after(
        start.now,
        StoreCall::SetRequestStatus { request_id, status: RequestStatus::Accepted },
        StoreReply::Ack,
    );
    lemma_status_set(start.now, request_id, RequestStatus::Accepted);
    assert(l3.now == marked);
    assert(l4 == l3);
    assert(faithful(l3, StoreCall::FindPrivateRoom { user1_id: from, user2_id: to }, replies[3]));
    let end = outcome(calls, start, replies);
    match replies[3] {
        StoreReply::RoomId(Some(found)) => {
            assert(replies.len() == 5);
            assert(calls(replies.take(4)) == Some(StoreCall::Commit));
            assert(end == marked);
            assert(shared(end, found, from, to));
            assert forall|r: i64| shared(end, r, from, to) implies r == found by {
                assert(shared(end, found, from, to));
            }
        },
        StoreReply::RoomId(None) => {
            assert(replies.len() == 8);
            lemma_run_step(calls, start, replies, 5);
            lemma_run_step(calls, start, replies, 6);
            lemma_run_step(calls, start, replies, 7);
            let room_id = replies[4]->RowId_0;
            assert(calls(replies.take(4)) == Some(StoreCall::InsertPrivateRoom));
            assert(calls(replies.take(5)) == Some(StoreCall::InsertParticipant { room_id, user_id: from }));
            assert(calls(replies.take(6)) == Some(StoreCall::InsertParticipant { room_id, user_id: to }));
            assert(calls(replies.take(7)) == Some(StoreCall::Commit));
            assert(nowhere_shared(marked, from, to));
            let grown = with_private_room(marked, room_id, from, to);
            assert(end =~= grown) by {
                assert(end.participants =~= grown.participants);
            }
            lemma_room_added(marked, room_id, from, to);
            assert(shared(end, room_id, from, to));
        },
        _ => {
            assert(false);
        },
    }
}

/// Law: a request that is not pending cannot be accepted. Together with
/// [`law_accept_transition`] this means that no request is accepted twice.
pub proof fn law_accept_needs_pending(request_id: i32, start: Ledger, replies: Seq<StoreReply>)
    requires
        is_run(accept_calls(request_id), start, replies),
        !(start.now.requests.contains_key(request_id) && start.now.requests[request_id].status
            == RequestStatus::Pending),
    ensures
        !(accept_script(request_id, replies) matches Step::Done(Ok(_))),
{
    let calls = accept_calls(request_id);
    if accept_script(request_id, replies) matches Step::Done(Ok(_)) {
        assert(replies.len() >= 2);
        lemma_run_step(calls, start, replies, 0);
        lemma_run_step(calls, start, replies, 1);
        assert(calls(replies.take(0)) == Some(StoreCall::Begin));
        assert(calls(replies.take(1)) == Some(StoreCall::PendingRequestById(request_id)));
        let l1 = ledger_after(calls, start, replies, 1);
        assert(l1.now == start.now);
        assert(faithful(l1, StoreCall::PendingRequestById(request_id), replies[1]));
        assert(false);
    }
}

/// Deleting a room keeps the rows sound.
proof fn lemma_room_deleted(before: Tables, room_id: i64)
    requires
        sound(before),
    ensures
        sound(without_room(before, room_id)),
        forall|r: i64, x: i32, y: i32|
            shared(without_room(before, room_id), r, x, y) == (r != room_id && shared(before, r, x, y)),
{
    let left = without_room(before, room_id);
    assert forall|r: i64, x: i32, y: i32| shared(left, r, x, y) == (r != room_id && shared(before, r, x, y)) by {}
    assert forall|r1: i64, r2: i64, a: i32, b: i32|
        a != b && #[trigger] shared(left, r1, a, b) && #[trigger] shared(left, r2, a, b) implies r1 == r2 by {
        assert(shared(before, r1, a, b));
        assert(shared(before, r2, a, b));
    }
    assert forall|q1: i32, q2: i32, x: i32, y: i32|
        #[trigger] links(left, q1, x, y) && #[trigger] links(left, q2, x, y) implies q1 == q2 by {
        assert(links(before, q1, x, y));
        assert(links(before, q2, x, y));
    }
}

/// Deleting the accepted requests between two users keeps the rows sound.
proof fn lemma_friendship_deleted(before: Tables, user1_id: i32, user2_id: i32)
    requires
        sound(before),
    ensures
        sound(without_friendship(before, user1_id, user2_id)),
        forall|q: i32| !befriends(without_friendship(before, user1_id, user2_id), q, user1_id, user2_id),
        forall|r: i64, x: i32, y: i32|
            shared(without_friendship(before, user1_id, user2_id), r, x, y) == shared(before, r, x, y),
{
    let left = without_friendship(before, user1_id, user2_id);
    assert forall|q: i32| !befriends(left, q, user1_id, user2_id) by {
        if befriends(left, q, user1_id, user2_id) {
            assert(befriends(before, q, user1_id, user2_id));
        }
    }
    assert forall|r1: i64, r2: i64, a: i32, b: i32|
        a != b && #[trigger] shared(left, r1, a, b) && #[trigger] shared(left, r2, a, b) implies r1 == r2 by {
        assert(shared(before, r1, a, b));
        assert(shared(before, r2, a, b));
    }
    assert forall|q1: i32, q2: i32, x: i32, y: i32|
        #[trigger] links(left, q1, x, y) && #[trigger] links(left, q2, x, y) implies q1 == q2 by {
        assert(links(before, q1, x, y));
        assert(links(before, q2, x, y));
    }
}

/// Law: deleting the friendship of two different users leaves them without
/// a shared private room and without an accepted request in either
/// direction. The room they shared is gone with its participant rows and
/// its messages; no other room and no other message is touched, and no
/// room identifier becomes available again.
pub proof fn law_unfriend(user1_id: i32, user2_id: i32, start: Ledger, replies: Seq<StoreReply>)
    requires
        at_rest(start),
        user1_id != user2_id,
        is_run(unfriend_calls(user1_id, user2_id), start, replies),
        unfriend_script(user1_id, user2_id, replies) == Step::Done(Ok::<(), StoreError>(())),
    ensures
        sound(outcome(unfriend_calls(user1_id, user2_id), start, replies)),
        nowhere_shared(outcome(unfriend_calls(user1_id, user2_id), start, replies), user1_id, user2_id),
        forall|q: i32| !befriends(outcome(unfriend_calls(user1_id, user2_id), start, replies), q, user1_id, user2_id),
        outcome(unfriend_calls(user1_id, user2_id), start, replies).spent_rooms == start.now.spent_rooms,
        forall|room_id: i64|
            !shared(start.now, room_id, user1_id, user2_id) ==> {
                &&& outcome(unfriend_calls(user1_id, user2_id), start, replies).rooms.contains_key(room_id)
                    == start.now.rooms.contains_key(room_id)
                &&& forall|m: i64|
                    start.now.messages.contains_key(m) && start.now.messages[m] == room_id ==> outcome(
                        unfriend_calls(user1_id, user2_id),
                        start,
                        replies,
                    ).messages.contains_key(m)
            },
        forall|m: i64|
            #[trigger] outcome(unfriend_calls(user1_id, user2_id), start, replies).messages.contains_key(m) ==> {
                &&& start.now.messages.contains_key(m)
                &&& !shared(start.now, start.now.messages[m], user1_id, user2_id)
            },
{
    let calls = unfriend_calls(user1_id, user2_id);
    assert(replies.len() >= 4);
    lemma_run_step(calls, start, replies, 0);
    lemma_run_step(calls, start, replies, 1);
    lemma_run_step(calls, start, replies, 2);
    lemma_run_step(calls, start, replies, 3);
    assert(calls(replies.take(0)) == Some(StoreCall::Begin));
    assert(calls(replies.take(1)) == Some(StoreCall::FindPrivateRoom { user1_id, user2_id }));
    let l1 = ledger_after(calls, start, replies, 1);
    let l2 = ledger_after(calls, start, replies, 2);
    assert(l1 == Ledger { now: start.now, saved: Some(start.now) });
    assert(l2 == l1);
    assert(faithful(l1, StoreCall::FindPrivateRoom { user1_id, user2_id }, replies[1]));
    let end = outcome(calls, start, replies);
    match replies[1] {
        StoreReply::RoomId(Some(found)) => {
            assert(replies.len() == 5);
            lemma_run_step(calls, start, replies, 4);
            assert(calls(replies.take(2)) == Some(StoreCall::DeleteRoom(found)));
            assert(calls(replies.take(3)) == Some(StoreCall::DeleteAcceptedRequests { user1_id, user2_id }));
            assert(calls(replies.take(4)) == Some(StoreCall::Commit));
            let emptied = without_room(start.now, found);
            lemma_room_deleted(start.now, found);
            lemma_friendship_deleted(emptied, user1_id, user2_id);
            assert(end == without_friendship(emptied, user1_id, user2_id));
            assert forall|r: i64| !#[trigger] shared(end, r, user1_id, user2_id) by {
                if shared(end, r, user1_id, user2_id) {
                    assert(shared(start.now, r, user1_id, user2_id));
                    assert(shared(start.now, found, user1_id, user2_id));
                }
            }
            assert forall|room_id: i64| !shared(start.now, room_id, user1_id, user2_id) implies room_id != found by {}
        },
        StoreReply::RoomId(None) => {
            assert(replies.len() == 4);
            assert(calls(replies.take(2)) == Some(StoreCall::DeleteAcceptedRequests { user1_id, user2_id }));
            assert(calls(replies.take(3)) == Some(StoreCall::Commit));
            lemma_friendship_deleted(start.now, user1_id, user2_id);
            assert(end == without_friendship(start.now, user1_id, user2_id));
            assert(nowhere_shared(start.now, user1_id, user2_id));
            assert forall|r: i64| !#[trigger] shared(end, r, user1_id, user2_id) by {
                assert(!shared(start.now, r, user1_id, user2_id));
            }
        },
        _ => {
            assert(false);
        },
    }
}

/// Law: the private room that two users get after their friendship was
/// deleted is a new one. Its identifier was never a room's before, so it
/// is not the room that was deleted, and it holds no message.
pub proof fn law_room_after_unfriend_is_new(
    user1_id: i32,
    user2_id: i32,
    start: Ledger,
    parting: Seq<StoreReply>,
    meeting: Seq<StoreReply>,
    room_id: i64,
)
    requires
        at_rest(start),
        user1_id != user2_id,
        is_run(unfriend_calls(user1_id, user2_id), start, parting),
        unfriend_script(user1_id, user2_id, parting) == Step::Done(Ok::<(), StoreError>(())),
        is_run(
            private_room_calls(user1_id, user2_id),
            Ledger { now: outcome(unfriend_calls(user1_id, user2_id), start, parting), saved: None },
            meeting,
        ),
        private_room_script(user1_id, user2_id, meeting) == Step::Done(Ok::<i64, StoreError>(room_id)),
    ensures
        !start.now.spent_rooms.contains(room_id),
        !start.now.rooms.contains_key(room_id),
        empty_room(
            outcome(
                private_room_calls(user1_id, user2_id),
                Ledger { now: outcome(unfriend_calls(user1_id, user2_id), start, parting), saved: None },
                meeting,
            ),
            room_id,
        ),
{
    law_unfriend(user1_id, user2_id, start, parting);
    let between = Ledger { now: outcome(unfriend_calls(user1_id, user2_id), start, parting), saved: None };
    law_private_room_is_the_one(user1_id, user2_id, between, meeting, room_id);
}

/// Whether `script` is one transaction: it begins by opening it, never
/// opens another, stops if it cannot open it, and stops once the
/// transaction is committed or rolled back.
pub open spec fn transactional(script: spec_fn(Seq<StoreReply>) -> Option<StoreCall>) -> bool {
    &&& script(Seq::<StoreReply>::empty()) == Some(StoreCall::Begin)
    &&& forall|replies: Seq<StoreReply>, reply: StoreReply| #![trigger script(replies.push(reply))]
        {
            &&& script(replies.push(reply)) != Some(StoreCall::Begin)
            &&& replies.len() == 0 && !ran(reply) ==> script(replies.push(reply)) is None
            &&& script(replies) == Some(StoreCall::Commit) && ran(reply) ==> script(replies.push(reply)) is None
            &&& script(replies) == Some(StoreCall::Rollback) ==> script(replies.push(reply)) is None
        }
}

/// While a transactional script goes on, its transaction is open, and what
/// it would be rolled back to are the rows it began with.
proof fn lemma_transaction_stays_open(
    script: spec_fn(Seq<StoreReply>) -> Option<StoreCall>,
    start: Ledger,
    replies: Seq<StoreReply>,
    count: nat,
)
    requires
        transactional(script),
        start.saved is None,
        is_run(script, start, replies),
        1 <= count < replies.len(),
    ensures
        ledger_after(script, start, replies, count).saved == Some(start.now),
    decreases count,
{
    let before = (count - 1) as nat;
    lemma_run_step(script, start, replies, before);
    lemma_run_step(script, start, replies, count);
    assert(replies.take(before as int).push(replies[before as int]) =~= replies.take(count as int));
    let call = script(replies.take(before as int))->0;
    let reply = replies[before as int];
    if count == 1 {
        assert(replies.take(0) =~= Seq::<StoreReply>::empty());
        assert(call == StoreCall::Begin);
    } else {
        lemma_transaction_stays_open(script, start, replies, before);
    }
}

/// A run of a transactional script against a store at rest leaves the rows
/// as they were, unless its last call was a commit that went through.
proof fn lemma_transaction_is_atomic(
    script: spec_fn(Seq<StoreReply>) -> Option<StoreCall>,
    start: Ledger,
    replies: Seq<StoreReply>,
)
    requires
        transactional(script),
        start.saved is None,
        is_run(script, start, replies),
        !(replies.len() >= 1 && script(replies.drop_last()) == Some(StoreCall::Commit) && ran(replies.last())),
    ensures
        outcome(script, start, replies) == start.now,
{
    if replies.len() >= 1 {
        let last = (replies.len() - 1) as nat;
        lemma_run_step(script, start, replies, last);
        assert(replies.take(last as int) =~= replies.drop_last());
        if last == 0 {
            assert(replies.take(0) =~= Seq::<StoreReply>::empty());
        } else {
            lemma_transaction_stays_open(script, start, replies, last);
        }
    }
}

/// The script that finds or creates a private room is one transaction.
proof fn lemma_private_room_is_transactional(user1_id: i32, user2_id: i32)
    ensures
        transactional(private_room_calls(user1_id, user2_id)),
{
    let script = private_room_calls(user1_id, user2_id);
    assert forall|replies: Seq<StoreReply>, reply: StoreReply| #![trigger script(replies.push(reply))]
        {
            &&& script(replies.push(reply)) != Some(StoreCall::Begin)
            &&& replies.len() == 0 && !ran(reply) ==> script(replies.push(reply)) is None
            &&& script(replies) == Some(StoreCall::Commit) && ran(reply) ==> script(replies.push(reply)) is None
            &&& script(replies) == Some(StoreCall::Rollback) ==> script(replies.push(reply)) is None
        } by {
        let longer = replies.push(reply);
        assert(forall|i: int| 0 <= i < replies.len() ==> longer[i] == replies[i]);
        assert(longer[replies.len() as int] == reply);
    }
}

/// The script that accepts a friend request is one transaction.
proof fn lemma_accept_is_transactional(request_id: i32)
    ensures
        transactional(accept_calls(request_id)),
{
    let script = accept_calls(request_id);
    assert forall|replies: Seq<StoreReply>, reply: StoreReply| #![trigger script(replies.push(reply))]
        {
            &&& script(replies.push(reply)) != Some(StoreCall::Begin)
            &&& replies.len() == 0 && !ran(reply) ==> script(replies.push(reply)) is None
            &&& script(replies) == Some(StoreCall::Commit) && ran(reply) ==> script(replies.push(reply)) is None
            &&& script(replies) == Some(StoreCall::Rollback) ==> script(replies.push(reply)) is None
        } by {
        let longer = replies.push(reply);
        assert(forall|i: int| 0 <= i < replies.len() ==> longer[i] == replies[i]);
        assert(longer[replies.len() as int] == reply);
    }
}

/// The script that deletes a friendship is one transaction.
proof fn lemma_unfriend_is_transactional(user1_id: i32, user2_id: i32)
    ensures
        transactional(unfriend_calls(user1_id, user2_id)),
{
    let script = unfriend_calls(user1_id, user2_id);
    assert forall|replies: Seq<StoreReply>, reply: StoreReply| #![trigger script(replies.push(reply))]
        {
            &&& script(replies.push(reply)) != Some(StoreCall::Begin)
            &&& replies.len() == 0 && !ran(reply) ==> script(replies.push(reply)) is None
            &&& script(replies) == Some(StoreCall::Commit) && ran(reply) ==> script(replies.push(reply)) is None
            &&& script(replies) == Some(StoreCall::Rollback) ==> script(replies.push(reply)) is None
        } by {
        let longer = replies.push(reply);
        assert(forall|i: int| 0 <= i < replies.len() ==> longer[i] == replies[i]);
        assert(longer[replies.len() as int] == reply);
    }
}

/// A run of the private-room script that ends in an error did not end
/// with a commit that went through.
proof fn lemma_failed_private_room_not_committed(user1_id: i32, user2_id: i32, replies: Seq<StoreReply>)
    requires
        replies.len() >= 1,
        private_room_script(user1_id, user2_id, replies) matches Step::Done(Err(_)),
    ensures
        !(private_room_calls(user1_id, user2_id)(replies.drop_last()) == Some(StoreCall::Commit) && ran(
            replies.last(),
        )),
{
    let shorter = replies.drop_last();
    assert(forall|i: int| 0 <= i < shorter.len() ==> shorter[i] == replies[i]);
}

/// A run of the accept script that ends in an error did not end with a
/// commit that went through.
proof fn lemma_failed_accept_not_committed(request_id: i32, replies: Seq<StoreReply>)
    requires
        replies.len() >= 1,
        accept_script(request_id, replies) matches Step::Done(Err(_)),
    ensures
        !(accept_calls(request_id)(replies.drop_last()) == Some(StoreCall::Commit) && ran(replies.last())),
{
    let shorter = replies.drop_last();
    assert(forall|i: int| 0 <= i < shorter.len() ==> shorter[i] == replies[i]);
}

/// A run of the unfriend script that ends in an error did not end with a
/// commit that went through.
proof fn lemma_failed_unfriend_not_committed(user1_id: i32, user2_id: i32, replies: Seq<StoreReply>)
    requires
        replies.len() >= 1,
        unfriend_script(user1_id, user2_id, replies) matches Step::Done(Err(_)),
    ensures
        !(unfriend_calls(user1_id, user2_id)(replies.drop_last()) == Some(StoreCall::Commit) && ran(replies.last())),
{
    let shorter = replies.drop_last();
    assert(forall|i: int| 0 <= i < shorter.len() ==> shorter[i] == replies[i]);
}

/// Law: finding or creating a private room is all or nothing. A run that
/// ends in an error, wherever it failed, leaves the rows as they were.
pub proof fn law_failed_private_room_changes_nothing(
    user1_id: i32,
    user2_id: i32,
    start: Ledger,
    replies: Seq<StoreReply>,
)
    requires
        start.saved is None,
        is_run(private_room_calls(user1_id, user2_id), start, replies),
        private_room_script(user1_id, user2_id, replies) matches Step::Done(Err(_)),
    ensures
        outcome(private_room_calls(user1_id, user2_id), start, replies) == start.now,
{
    if replies.len() >= 1 {
        lemma_failed_private_room_not_committed(user1_id, user2_id, replies);
    }
    lemma_private_room_is_transactional(user1_id, user2_id);
    lemma_transaction_is_atomic(private_room_calls(user1_id, user2_id), start, replies);
}

/// Law: accepting a friend request is all or nothing. A run that ends in
/// an error leaves the request as it was and creates no room.
pub proof fn law_failed_accept_changes_nothing(request_id: i32, start: Ledger, replies: Seq<StoreReply>)
    requires
        start.saved is None,
        is_run(accept_calls(request_id), start, replies),
        accept_script(request_id, replies) matches Step::Done(Err(_)),
    ensures
        outcome(accept_calls(request_id), start, replies) == start.now,
{
    if replies.len() >= 1 {
        lemma_failed_accept_not_committed(request_id, replies);
    }
    lemma_accept_is_transactional(request_id);
    lemma_transaction_is_atomic(accept_calls(request_id), start, replies);
}

/// Law: deleting a friendship is all or nothing. A run that ends in an
/// error deletes neither the room nor the requests.
pub proof fn law_failed_unfriend_changes_nothing(
    user1_id: i32,
    user2_id: i32,
    start: Ledger,
    replies: Seq<StoreReply>,
)
    requires
        start.saved is None,
        is_run(unfriend_calls(user1_id, user2_id), start, replies),
        unfriend_script(user1_id, user2_id, replies) matches Step::Done(Err(_)),
    ensures
        outcome(unfriend_calls(user1_id, user2_id), start, replies) == start.now,
{
    if replies.len() >= 1 {
        lemma_failed_unfriend_not_committed(user1_id, user2_id, replies);
    }
    lemma_unfriend_is_transactional(user1_id, user2_id);
    lemma_transaction_is_atomic(unfriend_calls(user1_id, user2_id), start, replies);
}

/// The calls of the script that rejects a friend request.
pub open spec fn reject_calls(request_id: i32) -> spec_fn(Seq<StoreReply>) -> Option<StoreCall> {
    |replies: Seq<StoreReply>| call_of(reject_script(request_id, replies))
}

/// Law: rejecting a friend request yields its sender if the request
/// exists, and turns a pending request into a rejected one. A request that
/// is accepted or rejected already keeps its status, and a request that
/// does not exist is not created. No other row changes.
pub proof fn law_reject_transition(request_id: i32, start: Ledger, replies: Seq<StoreReply>, sender: Option<i32>)
    requires
        at_rest(start),
        is_run(reject_calls(request_id), start, replies),
        reject_script(request_id, replies) == Step::Done(Ok::<Option<i32>, StoreError>(sender)),
    ensures
        sound(outcome(reject_calls(request_id), start, replies)),
        sender == (if start.now.requests.contains_key(request_id) {
            Some(start.now.requests[request_id].from_user_id)
        } else {
            None
        }),
        outcome(reject_calls(request_id), start, replies) == (if start.now.requests.contains_key(request_id)
            && start.now.requests[request_id].status == RequestStatus::Pending {
            Tables {
                requests: start.now.requests.insert(
                    request_id,
                    Request { status: RequestStatus::Rejected, ..start.now.requests[request_id] },
                ),
                ..start.now
            }
        } else {
            start.now
        }),
{
    let calls = reject_calls(request_id);
    assert(replies.len() == 2);
    lemma_run_step(calls, start, replies, 0);
    lemma_run_step(calls, start, replies, 1);
    assert(calls(replies.take(0)) == Some(StoreCall::RequestSender(request_id)));
    assert(calls(replies.take(1)) == Some(
        StoreCall::SetRequestStatus { request_id, status: RequestStatus::Rejected },
    ));
    let l1 = ledger_after(calls, start, replies, 1);
    assert(l1 == start);
    assert(faithful(start, StoreCall::RequestSender(request_id), replies[0]));
    lemma_status_set(start.now, request_id, RequestStatus::Rejected);
}

/// Law: rejecting leaves a request that is not pending as it is. An
/// accepted request stays accepted, so the friendship and its room stay.
pub proof fn law_reject_keeps_settled_requests(
    request_id: i32,
    start: Ledger,
    replies: Seq<StoreReply>,
    sender: Option<i32>,
)
    requires
        at_rest(start),
        is_run(reject_calls(request_id), start, replies),
        reject_script(request_id, replies) == Step::Done(Ok::<Option<i32>, StoreError>(sender)),
        start.now.requests.contains_key(request_id),
        start.now.requests[request_id].status != RequestStatus::Pending,
    ensures
        outcome(reject_calls(request_id), start, replies) == start.now,
{
    law_reject_transition(request_id, start, replies, sender);
}

/// The calls of the script that stores a chat message.
pub open spec fn message_calls(room_id: i64, sender_username: String, content: String) -> spec_fn(
    Seq<StoreReply>,
) -> Option<StoreCall> {
    |replies: Seq<StoreReply>| call_of(message_script(room_id, sender_username, content, replies))
}

/// Law: storing a chat message adds one message to the room it was sent
/// to, under an identifier larger than that of every message before it, and
/// changes nothing else.
pub proof fn law_message_is_the_newest(
    room_id: i64,
    sender_username: String,
    content: String,
    start: Ledger,
    replies: Seq<StoreReply>,
    message: ChatMessage,
)
    requires
        at_rest(start),
        is_run(message_calls(room_id, sender_username, content), start, replies),
        message_script(room_id, sender_username, content, replies) == Step::Done(
            Ok::<ChatMessage, StoreError>(message),
        ),
    ensures
        message.room_id == room_id,
        message.id > start.now.last_message,
        forall|m: i64| start.now.messages.contains_key(m) ==> m < message.id,
        sound(outcome(message_calls(room_id, sender_username, content), start, replies)),
        outcome(message_calls(room_id, sender_username, content), start, replies) == (Tables {
            messages: start.now.messages.insert(message.id as i64, room_id),
            last_message: message.id as i64,
            ..start.now
        }),
{
    let calls = message_calls(room_id, sender_username, content);
    assert(replies.len() == 2);
    lemma_run_step(calls, start, replies, 0);
    lemma_run_step(calls, start, replies, 1);
    assert(calls(replies.take(0)) == Some(StoreCall::InsertMessage { room_id, sender_username, content }));
    let message_id = replies[0]->RowId_0;
    assert(calls(replies.take(1)) == Some(StoreCall::MessageById(message_id)));
    let l1 = ledger_after(calls, start, replies, 1);
    assert(faithful(start, StoreCall::InsertMessage { room_id, sender_username, content }, replies[0]));
    assert(faithful(l1, StoreCall::MessageById(message_id), replies[1]));
    let end = outcome(calls, start, replies);
    assert(end == l1.now);
    assert forall|r1: i64, r2: i64, a: i32, b: i32|
        a != b && #[trigger] shared(end, r1, a, b) && #[trigger] shared(end, r2, a, b) implies r1 == r2 by {
        assert(shared(start.now, r1, a, b));
        assert(shared(start.now, r2, a, b));
    }
    assert forall|q1: i32, q2: i32, x: i32, y: i32|
        #[trigger] links(end, q1, x, y) && #[trigger] links(end, q2, x, y) implies q1 == q2 by {
        assert(links(start.now, q1, x, y));
        assert(links(start.now, q2, x, y));
    }
}

/// Law: of two chat messages stored one after the other, the later one has
/// the larger identifier.
pub proof fn law_message_ids_increase(
    start: Ledger,
    first_room: i64,
    first_sender: String,
    first_content: String,
    first_replies: Seq<StoreReply>,
    first: ChatMessage,
    second_room: i64,
    second_sender: String,
    second_content: String,
    second_replies: Seq<StoreReply>,
    second: ChatMessage,
)
    requires
        at_rest(start),
        is_run(message_calls(first_room, first_sender, first_content), start, first_replies),
        message_script(first_room, first_sender, first_content, first_replies) == Step::Done(
            Ok::<ChatMessage, StoreError>(first),
        ),
        is_run(
            message_calls(second_room, second_sender, second_content),
            Ledger {
                now: outcome(message_calls(first_room, first_sender, first_content), start, first_replies),
                saved: None,
            },
            second_replies,
        ),
        message_script(second_room, second_sender, second_content, second_replies) == Step::Done(
            Ok::<ChatMessage, StoreError>(second),
        ),
    ensures
        first.id < second.id,
{
    law_message_is_the_newest(first_room, first_sender, first_content, start, first_replies, first);
    let between = Ledger {
        now: outcome(message_calls(first_room, first_sender, first_content), start, first_replies),
        saved: None,
    };
    law_message_is_the_newest(second_room, second_sender, second_content, between, second_replies, second);
}

} // verus!
