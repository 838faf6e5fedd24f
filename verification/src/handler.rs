//! The dispatcher: what an authenticated client's request leads to.
//!
//! A request is handled in turns. [`handle_message`] takes the first turn
//! when the envelope arrives. Wherever storage has to be asked, the turn
//! ends with a [`Task`] on the agenda; the host runs the task's storage
//! operation and [`resume`] takes the next turn with the answer. Each turn
//! yields the envelopes to deliver, in order.

use crate::db::{DbAnswer, DbRequest};
use crate::presence::ConnId;
use crate::protocol::{
    send_ws_message_to, envelope_to, is_admin_only, kind_named, op_kind, payload_of, Delivery, Frame, InvitationPayload,
    OpKind, RequestPayload, ResponseKind, ResponsePayload, VoiceChatInvitationPayload, WsRequestMessage,
    WsResponseMessage,
};
use crate::records::{Config, FriendInfo, RoomId, User};
use crate::rooms::{after_join, is_roster, members_in, Client, Seat};
use crate::state::{AppState, Hub};
use crate::storage::StoreError;
use crate::text::same_text;
use vstd::prelude::*;

verus! {

/// Work that waits for an answer from storage.
#[derive(Debug, PartialEq, Eq)]
#[allow(inconsistent_fields)]
pub enum Task {
    /// Push the room list of `user_id` to `to`.
    PushRooms { user_id: i32, to: ConnId },
    /// Push the pending friend requests of `user_id` to `to`.
    PushRequests { user_id: i32, to: ConnId },
    /// Push the friend list of `user_id` to `to`.
    PushFriends { user_id: i32, to: ConnId },
    /// Push the message history of `room_id` to `to`.
    History { room_id: RoomId, to: ConnId },
    /// Deliver this once everything before it on the agenda is done. Storage
    /// is not asked.
    Emit(Delivery),
    /// Store a chat message and pass it on to the room.
    Chat { room_id: RoomId, content: String },
    /// Open the private room shared with a friend.
    QuickChat { friend_id: i32 },
    /// Find the user a friend request is meant for.
    FriendLookup { username: String },
    /// Send the friend request.
    FriendSend { username: String, target_id: i32 },
    Accept { request_id: i32 },
    /// Tell the acceptor whose request was accepted.
    Accepted { sender_id: i32 },
    /// Tell the sender, who is online at `to`, that the request was accepted.
    NotifySender { sender_id: i32, to: ConnId },
    Reject { request_id: i32 },
    /// Tell the rejector whose request was rejected.
    Rejected { sender_id: i32 },
    Unfriend { friend_id: i32 },
    /// Refresh the views of a former friend who is online at `to`.
    RefreshPeer { user_id: i32, to: ConnId },
    /// Send the list of all users; if `lenient`, an empty list stands in
    /// for a list that cannot be read.
    AdminUsers { lenient: bool },
    /// Send the list of all rooms; if `lenient`, an empty list stands in
    /// for a list that cannot be read.
    AdminRooms { lenient: bool },
    AdminCreateUser { username: String, password: String, role: String },
    AdminDeleteUser { user_id: i32 },
    AdminDeleteRoom { room_id: i64 },
    ChangePort { port: u16 },
}

/// What one turn yields.
#[derive(Debug, PartialEq, Eq)]
pub struct Progress {
    /// What to deliver now, in this order.
    pub outbox: Vec<Delivery>,
    /// What to do next, in this order, before anything that was waiting already.
    pub agenda: Vec<Task>,
    /// Bring the server down, after waiting this many milliseconds.
    pub shutdown: Option<u64>,
}

/// How long a server that changes its port waits before it goes down, so
/// that the confirmation can still be sent.
pub const PORT_CHANGE_GRACE_MS: u64 = 100;

/// Whether the turn yields nothing at all.
pub open spec fn quiet(progress: Progress) -> bool {
    &&& progress.outbox@.len() == 0
    &&& progress.agenda@.len() == 0
    &&& progress.shutdown is None
}

/// Whether `delivery` carries exactly this envelope to exactly `conn`.
pub open spec fn carries(delivery: Delivery, conn: ConnId, kind: ResponseKind, payload: ResponsePayload) -> bool {
    envelope_to(delivery, conn, kind) && payload_of(delivery) == payload
}

/// Whether `delivery` carries an envelope of `kind` to `conn` whose payload
/// is the bare text `text`.
pub open spec fn says(delivery: Delivery, conn: ConnId, kind: ResponseKind, text: Seq<char>) -> bool {
    &&& envelope_to(delivery, conn, kind)
    &&& payload_of(delivery) matches ResponsePayload::Text(said)
    &&& said@ == text
}

/// Whether `delivery` carries an envelope of `kind` to `conn` that reports
/// the error `text`.
pub open spec fn reports(delivery: Delivery, conn: ConnId, kind: ResponseKind, text: Seq<char>) -> bool {
    &&& envelope_to(delivery, conn, kind)
    &&& payload_of(delivery) matches ResponsePayload::Error { error }
    &&& error@ == text
}

/// Whether `delivery` carries an envelope of `kind` to `conn` that names
/// the user `name` as its origin.
pub open spec fn credits(delivery: Delivery, conn: ConnId, kind: ResponseKind, name: Seq<char>) -> bool {
    &&& envelope_to(delivery, conn, kind)
    &&& payload_of(delivery) matches ResponsePayload::FromUsername { from_username }
    &&& from_username@ == name
}

/// The connections of a roster, in the roster's order.
pub open spec fn conns_of(roster: Seq<Seat>) -> Seq<ConnId> {
    Seq::new(roster.len(), |i: int| roster[i].1)
}

/// Whether `to` names the connection of every member in `members` other
/// than `exclude`, once per member.
pub open spec fn reaches(to: Seq<ConnId>, members: Map<i32, Client>, exclude: Option<i32>) -> bool {
    exists|roster: Seq<Seat>| #[trigger] is_roster(roster, members, exclude) && to == conns_of(roster)
}

fn nothing() -> (progress: Progress)
    ensures
        quiet(progress),
{
    Progress { outbox: Vec::new(), agenda: Vec::new(), shutdown: None }
}

fn just(delivery: Delivery) -> (progress: Progress)
    ensures
        delivers_only(progress),
        progress.outbox@[0] == delivery,
{
    let mut outbox: Vec<Delivery> = Vec::new();
    outbox.push(delivery);
    Progress { outbox, agenda: Vec::new(), shutdown: None }
}

fn note(conn: ConnId, kind: ResponseKind, text: &str) -> (delivery: Delivery)
    ensures
        says(delivery, conn, kind, text@),
{
    send_ws_message_to(conn, kind, ResponsePayload::Text(String::from_str(text)))
}

fn complaint(conn: ConnId, kind: ResponseKind, text: &str) -> (delivery: Delivery)
    ensures
        reports(delivery, conn, kind, text@),
{
    send_ws_message_to(conn, kind, ResponsePayload::Error { error: String::from_str(text) })
}

fn failure(conn: ConnId, kind: ResponseKind, error: StoreError) -> (delivery: Delivery)
    ensures
        reports(delivery, conn, kind, error.text()),
{
    send_ws_message_to(conn, kind, ResponsePayload::Error { error: error.describe() })
}

fn credit(conn: ConnId, kind: ResponseKind, name: String) -> (delivery: Delivery)
    ensures
        credits(delivery, conn, kind, name@),
{
    send_ws_message_to(conn, kind, ResponsePayload::FromUsername { from_username: name })
}

/// The connections of a roster, in the roster's order.
fn conns(roster: &Vec<Seat>) -> (to: Vec<ConnId>)
    ensures
        to@ == conns_of(roster@),
{
    let mut to: Vec<ConnId> = Vec::new();
    let mut i: usize = 0;
    while i < roster.len()
        invariant
            i <= roster.len(),
            to@.len() == i,
            forall|k: int| 0 <= k < i ==> #[trigger] to@[k] == roster@[k].1,
        decreases roster.len() - i,
    {
        to.push(roster[i].1);
        i = i + 1;
    }
    assert(to@ =~= conns_of(roster@));
    to
}

/// A friend list: each friend with the presence it has in `online`.
pub open spec fn friend_infos(friends: Seq<User>, online: Map<i32, ConnId>) -> Seq<FriendInfo> {
    Seq::new(
        friends.len(),
        |i: int|
            FriendInfo {
                id: friends[i]._id,
                username: friends[i].username,
                is_online: online.contains_key(friends[i]._id),
            },
    )
}

fn friend_list(friends: Vec<User>, state: &AppState) -> (list: Vec<FriendInfo>)
    ensures
        list@ == friend_infos(friends@, state.online_users@),
{
    let mut friends = friends;
    let ghost all = friends@;
    let mut list: Vec<FriendInfo> = Vec::new();
    while friends.len() > 0
        invariant
            friends@ == all.subrange(0, friends@.len() as int),
            list@.len() == all.len() - friends@.len(),
            forall|i: int| 0 <= i < list@.len() ==> #[trigger] list@[i] == friend_infos(all, state.online_users@)[friends@.len() + i],
        decreases friends@.len(),
    {
        let ghost before = list@;
        match friends.pop() {
            Some(friend) => {
                let is_online = state.online_users.is_online(friend._id);
                list.insert(0, FriendInfo { id: friend._id, username: friend.username, is_online });
                assert forall|i: int| 0 <= i < list@.len() implies #[trigger] list@[i] == friend_infos(
                    all,
                    state.online_users@,
                )[friends@.len() + i] by {
                    if i > 0 {
                        assert(list@[i] == before[i - 1]);
                    }
                }
            },
            None => {
                assert(false);
            },
        }
    }
    assert(list@ =~= friend_infos(all, state.online_users@));
    list
}

/// Whether the turn yields one delivery and nothing else.
pub open spec fn delivers_only(progress: Progress) -> bool {
    &&& progress.outbox@.len() == 1
    &&& progress.agenda@.len() == 0
    &&& progress.shutdown is None
}

/// What answering `PushRooms` yields: the room list for `to`, or nothing if
/// it could not be read.
pub open spec fn rooms_pushed(to: ConnId, answer: Result<DbAnswer, StoreError>, progress: Progress) -> bool {
    match answer {
        Ok(DbAnswer::Rooms(rooms)) => delivers_only(progress) && carries(
            progress.outbox@[0],
            to,
            ResponseKind::ChatList,
            ResponsePayload::Rooms(rooms),
        ),
        _ => quiet(progress),
    }
}

/// What answering `PushRequests` yields: the pending requests for `to`, or
/// nothing if they could not be read.
pub open spec fn requests_pushed(to: ConnId, answer: Result<DbAnswer, StoreError>, progress: Progress) -> bool {
    match answer {
        Ok(DbAnswer::Requests(requests)) => delivers_only(progress) && carries(
            progress.outbox@[0],
            to,
            ResponseKind::FriendRequests,
            ResponsePayload::Requests(requests),
        ),
        _ => quiet(progress),
    }
}

/// What answering `PushFriends` yields: the friend list for `to`, each
/// friend marked with the presence it has at that moment, or nothing if the
/// friends could not be read.
pub open spec fn friends_pushed(
    to: ConnId,
    answer: Result<DbAnswer, StoreError>,
    online: Map<i32, ConnId>,
    progress: Progress,
) -> bool {
    match answer {
        Ok(DbAnswer::Users(friends)) => {
            &&& delivers_only(progress)
            &&& envelope_to(progress.outbox@[0], to, ResponseKind::FriendList)
            &&& payload_of(progress.outbox@[0]) matches ResponsePayload::Friends(list)
            &&& list@ == friend_infos(friends@, online)
        },
        _ => quiet(progress),
    }
}

/// What answering `History` yields: the room's messages for `to`, or
/// nothing if they could not be read.
pub open spec fn history_pushed(to: ConnId, answer: Result<DbAnswer, StoreError>, progress: Progress) -> bool {
    match answer {
        Ok(DbAnswer::Messages(messages)) => delivers_only(progress) && carries(
            progress.outbox@[0],
            to,
            ResponseKind::MessageHistory,
            ResponsePayload::Messages(messages),
        ),
        _ => quiet(progress),
    }
}

fn push_rooms(to: ConnId, answer: Result<DbAnswer, StoreError>) -> (progress: Progress)
    ensures
        rooms_pushed(to, answer, progress),
{
    match answer {
        Ok(DbAnswer::Rooms(rooms)) => {
            let d = send_ws_message_to(to, ResponseKind::ChatList, ResponsePayload::Rooms(rooms));
            just(d)
        },
        _ => nothing(),
    }
}

fn push_requests(to: ConnId, answer: Result<DbAnswer, StoreError>) -> (progress: Progress)
    ensures
        requests_pushed(to, answer, progress),
{
    match answer {
        Ok(DbAnswer::Requests(requests)) => {
            let d = send_ws_message_to(to, ResponseKind::FriendRequests, ResponsePayload::Requests(requests));
            just(d)
        },
        _ => nothing(),
    }
}

fn push_friends(to: ConnId, answer: Result<DbAnswer, StoreError>, state: &AppState) -> (progress: Progress)
    ensures
        friends_pushed(to, answer, state.online_users@, progress),
{
    match answer {
        Ok(DbAnswer::Users(friends)) => {
            let list = friend_list(friends, state);
            let d = send_ws_message_to(to, ResponseKind::FriendList, ResponsePayload::Friends(list));
            just(d)
        },
        _ => nothing(),
    }
}

fn push_history(to: ConnId, answer: Result<DbAnswer, StoreError>) -> (progress: Progress)
    ensures
        history_pushed(to, answer, progress),
{
    match answer {
        Ok(DbAnswer::Messages(messages)) => {
            let d = send_ws_message_to(to, ResponseKind::MessageHistory, ResponsePayload::Messages(messages));
            just(d)
        },
        _ => nothing(),
    }
}

/// What a client is told when the user it wants to befriend cannot be
/// found or is the client itself.
pub const NO_SUCH_FRIEND: &'static str = "User not found, or you cannot send a request to yourself.";

/// What a client is told when it asks for a friendship that exists.
pub const ALREADY_FRIENDS: &'static str = "You are already friends with this user.";

/// What a client is told when its earlier request was turned down.
pub const REQUEST_CLOSED: &'static str = "Cannot send friend request at this time.";

/// What an administrator is told when the users cannot be listed.
pub const USERS_UNREADABLE: &'static str = "Failed to retrieve users.";

/// What an administrator is told when the rooms cannot be listed.
pub const ROOMS_UNREADABLE: &'static str = "Failed to retrieve rooms.";

/// The confirmations of the administrative changes.
pub const USER_CREATED: &'static str = "User created successfully.";

pub const USER_DELETED: &'static str = "User deleted successfully.";

pub const ROOM_DELETED: &'static str = "Room deleted successfully.";

/// The role that may invoke the administrative operations.
pub const ADMIN_ROLE: &'static str = "admin";

/// What answering `Chat` yields: the stored message goes to every member
/// of the room, the sender included, if the room is live. A message that
/// could not be stored goes nowhere.
pub open spec fn chat_passed_on(
    room_id: RoomId,
    answer: Result<DbAnswer, StoreError>,
    hub: Hub,
    progress: Progress,
) -> bool {
    match answer {
        Ok(DbAnswer::Message(message)) => if hub.rooms.contains_key(room_id) {
            &&& delivers_only(progress)
            &&& reaches(progress.outbox@[0].to@, members_in(hub.rooms, room_id), None)
            &&& progress.outbox@[0].frame == Frame::Text(
                WsResponseMessage { kind: ResponseKind::NewChatMessage, payload: ResponsePayload::Message(message) },
            )
        } else {
            quiet(progress)
        },
        _ => quiet(progress),
    }
}

fn chat_pass_on(room_id: RoomId, answer: Result<DbAnswer, StoreError>, state: &AppState) -> (progress: Progress)
    ensures
        chat_passed_on(room_id, answer, state@, progress),
{
    match answer {
        Ok(DbAnswer::Message(message)) => {
            if state.rooms.is_live(room_id) {
                let roster = state.rooms.roster(room_id, None);
                let to = conns(&roster);
                assert(reaches(to@, members_in(state.rooms@, room_id), None)) by {
                    assert(is_roster(roster@, members_in(state.rooms@, room_id), None));
                }
                just(
                    Delivery {
                        to,
                        frame: Frame::Text(
                            WsResponseMessage {
                                kind: ResponseKind::NewChatMessage,
                                payload: ResponsePayload::Message(message),
                            },
                        ),
                    },
                )
            } else {
                nothing()
            }
        },
        _ => nothing(),
    }
}

/// Whether nothing of the shared state, nor the room the session is in, changed.
pub open spec fn untouched(before: Hub, room_before: Option<RoomId>, after: Hub, room_after: Option<RoomId>) -> bool {
    before == after && room_before == room_after
}

/// Whether the turn delivers nothing and puts exactly `tasks` on the agenda.
pub open spec fn asks(progress: Progress, tasks: Seq<Task>) -> bool {
    &&& progress.outbox@.len() == 0
    &&& progress.agenda@ == tasks
    &&& progress.shutdown is None
}

/// What entering a room yields: the session is joined to the room and has
/// it as its current room, the client is told so, and the room's history
/// is on the agenda.
pub open spec fn entered(
    room_id: RoomId,
    user: User,
    own_tx: ConnId,
    before: Hub,
    after: Hub,
    room_after: Option<RoomId>,
    progress: Progress,
) -> bool {
    &&& after == (Hub { rooms: after_join(before.rooms, room_id, user._id, own_tx), ..before })
    &&& room_after == Some(room_id)
    &&& progress.outbox@.len() == 1
    &&& carries(progress.outbox@[0], own_tx, ResponseKind::JoinOk, ResponsePayload::Joined { room_id })
    &&& progress.agenda@.len() >= 1
    &&& progress.agenda@[0] == (Task::History { room_id, to: own_tx })
    &&& progress.shutdown is None
}

fn enter(room_id: RoomId, state: &mut AppState, user: &User, current_room_id: &mut Option<RoomId>, own_tx: ConnId) -> (progress: Progress)
    ensures
        entered(room_id, *user, own_tx, old(state)@, final(state)@, *final(current_room_id), progress),
        progress.agenda@.len() == 1,
{
    state.rooms.join(room_id, user._id, own_tx);
    *current_room_id = Some(room_id);
    let mut outbox: Vec<Delivery> = Vec::new();
    outbox.push(send_ws_message_to(own_tx, ResponseKind::JoinOk, ResponsePayload::Joined { room_id }));
    let mut agenda: Vec<Task> = Vec::new();
    agenda.push(Task::History { room_id, to: own_tx });
    Progress { outbox, agenda, shutdown: None }
}

/// What answering `QuickChat` yields: the session enters the private room,
/// and a friend who is online is invited to it once the history has gone out.
pub open spec fn quick_chat_opened(
    friend_id: i32,
    answer: Result<DbAnswer, StoreError>,
    user: User,
    own_tx: ConnId,
    before: Hub,
    room_before: Option<RoomId>,
    after: Hub,
    room_after: Option<RoomId>,
    progress: Progress,
) -> bool {
    match answer {
        Ok(DbAnswer::RoomId(room_id)) => {
            &&& entered(room_id, user, own_tx, before, after, room_after, progress)
            &&& if before.online.contains_key(friend_id) {
                &&& progress.agenda@.len() == 2
                &&& progress.agenda@[1] matches Task::Emit(invitation)
                &&& carries(
                    invitation,
                    before.online[friend_id],
                    ResponseKind::Invitation,
                    ResponsePayload::Invitation(InvitationPayload { from_username: user.username, room_id }),
                )
            } else {
                progress.agenda@.len() == 1
            }
        },
        _ => untouched(before, room_before, after, room_after) && quiet(progress),
    }
}

fn quick_chat_open(
    friend_id: i32,
    answer: Result<DbAnswer, StoreError>,
    state: &mut AppState,
    user: &User,
    current_room_id: &mut Option<RoomId>,
    own_tx: ConnId,
) -> (progress: Progress)
    ensures
        quick_chat_opened(
            friend_id,
            answer,
            *user,
            own_tx,
            old(state)@,
            *old(current_room_id),
            final(state)@,
            *final(current_room_id),
            progress,
        ),
{
    match answer {
        Ok(DbAnswer::RoomId(room_id)) => {
            let friend = state.online_users.lookup(friend_id);
            let mut progress = enter(room_id, state, user, current_room_id, own_tx);
            match friend {
                Some(conn) => {
                    let invitation = send_ws_message_to(
                        conn,
                        ResponseKind::Invitation,
                        ResponsePayload::Invitation(InvitationPayload { from_username: user.username.clone(), room_id }),
                    );
                    progress.agenda.push(Task::Emit(invitation));
                },
                None => {},
            }
            progress
        },
        _ => nothing(),
    }
}

/// What answering `FriendLookup` yields: the request goes on to a user who
/// exists and is not the requester; otherwise the requester is told that it
/// cannot be sent.
pub open spec fn friend_found(
    username: String,
    answer: Result<DbAnswer, StoreError>,
    user: User,
    own_tx: ConnId,
    progress: Progress,
) -> bool {
    match answer {
        Ok(DbAnswer::User(target)) if target._id != user._id => asks(
            progress,
            seq![Task::FriendSend { username, target_id: target._id }],
        ),
        _ => delivers_only(progress) && reports(
            progress.outbox@[0],
            own_tx,
            ResponseKind::FriendRequestFail,
            NO_SUCH_FRIEND@,
        ),
    }
}

fn friend_find(username: String, answer: Result<DbAnswer, StoreError>, user: &User, own_tx: ConnId) -> (progress: Progress)
    ensures
        friend_found(username, answer, *user, own_tx, progress),
{
    let target = match answer {
        Ok(DbAnswer::User(target)) => Some(target._id),
        _ => None,
    };
    match target {
        Some(target_id) if target_id != user._id => {
            let mut agenda: Vec<Task> = Vec::new();
            agenda.push(Task::FriendSend { username, target_id });
            Progress { outbox: Vec::new(), agenda, shutdown: None }
        },
        _ => just(complaint(own_tx, ResponseKind::FriendRequestFail, NO_SUCH_FRIEND)),
    }
}

/// What answering `FriendSend` yields, by the status of the request that
/// storage holds for the pair. Pending: the requester is told that the
/// request is sent, and the receiver, if online, gets the request. Accepted:
/// the requester is told that the two are friends already. Anything else:
/// the requester is told that no request can be sent now. If storage
/// failed, the requester is told why.
pub open spec fn request_sent(
    username: String,
    answer: Result<DbAnswer, StoreError>,
    online: Map<i32, ConnId>,
    own_tx: ConnId,
    progress: Progress,
) -> bool {
    match answer {
        Ok(DbAnswer::Request(info)) => if info.status@ == "pending"@ {
            &&& progress.agenda@.len() == 0
            &&& progress.shutdown is None
            &&& progress.outbox@.len() == (if online.contains_key(info.to_user_id) {
                2int
            } else {
                1int
            })
            &&& carries(
                progress.outbox@[0],
                own_tx,
                ResponseKind::FriendRequestSent,
                ResponsePayload::Username { username },
            )
            &&& online.contains_key(info.to_user_id) ==> carries(
                progress.outbox@[1],
                online[info.to_user_id],
                ResponseKind::NewFriendRequest,
                ResponsePayload::Request(info),
            )
        } else if info.status@ == "accepted"@ {
            delivers_only(progress) && reports(
                progress.outbox@[0],
                own_tx,
                ResponseKind::FriendRequestFail,
                ALREADY_FRIENDS@,
            )
        } else {
            delivers_only(progress) && reports(
                progress.outbox@[0],
                own_tx,
                ResponseKind::FriendRequestFail,
                REQUEST_CLOSED@,
            )
        },
        Ok(_) => delivers_only(progress) && reports(
            progress.outbox@[0],
            own_tx,
            ResponseKind::FriendRequestFail,
            StoreError::Unexpected.text(),
        ),
        Err(error) => delivers_only(progress) && reports(
            progress.outbox@[0],
            own_tx,
            ResponseKind::FriendRequestFail,
            error.text(),
        ),
    }
}

fn request_send(username: String, answer: Result<DbAnswer, StoreError>, state: &AppState, own_tx: ConnId) -> (progress: Progress)
    ensures
        request_sent(username, answer, state.online_users@, own_tx, progress),
{
    match answer {
        Ok(DbAnswer::Request(info)) => {
            if same_text(info.status.as_str(), "pending") {
                let receiver = state.online_users.lookup(info.to_user_id);
                let mut outbox: Vec<Delivery> = Vec::new();
                outbox.push(
                    send_ws_message_to(own_tx, ResponseKind::FriendRequestSent, ResponsePayload::Username { username }),
                );
                match receiver {
                    Some(conn) => {
                        outbox.push(send_ws_message_to(conn, ResponseKind::NewFriendRequest, ResponsePayload::Request(info)));
                    },
                    None => {},
                }
                Progress { outbox, agenda: Vec::new(), shutdown: None }
            } else if same_text(info.status.as_str(), "accepted") {
                just(complaint(own_tx, ResponseKind::FriendRequestFail, ALREADY_FRIENDS))
            } else {
                just(complaint(own_tx, ResponseKind::FriendRequestFail, REQUEST_CLOSED))
            }
        },
        Ok(_) => just(failure(own_tx, ResponseKind::FriendRequestFail, StoreError::Unexpected)),
        Err(error) => just(failure(own_tx, ResponseKind::FriendRequestFail, error)),
    }
}

/// What answering `Accept` or `Reject` yields: on to `next` if the request
/// had a sender, nothing if there was no such request, and a failure
/// envelope if storage refused.
pub open spec fn responded(
    answer: Result<DbAnswer, StoreError>,
    own_tx: ConnId,
    next: spec_fn(i32) -> Task,
    progress: Progress,
) -> bool {
    match answer {
        Ok(DbAnswer::Sender(Some(sender_id))) => asks(progress, seq![next(sender_id)]),
        Err(error) => delivers_only(progress) && reports(
            progress.outbox@[0],
            own_tx,
            ResponseKind::FriendRequestFail,
            error.text(),
        ),
        _ => quiet(progress),
    }
}

fn respond(answer: Result<DbAnswer, StoreError>, own_tx: ConnId, accept: bool) -> (progress: Progress)
    ensures
        accept ==> responded(answer, own_tx, |sender_id: i32| Task::Accepted { sender_id }, progress),
        !accept ==> responded(answer, own_tx, |sender_id: i32| Task::Rejected { sender_id }, progress),
{
    match answer {
        Ok(DbAnswer::Sender(Some(sender_id))) => {
            let mut agenda: Vec<Task> = Vec::new();
            if accept {
                agenda.push(Task::Accepted { sender_id });
            } else {
                agenda.push(Task::Rejected { sender_id });
            }
            Progress { outbox: Vec::new(), agenda, shutdown: None }
        },
        Err(error) => just(failure(own_tx, ResponseKind::FriendRequestFail, error)),
        _ => nothing(),
    }
}

/// The name of the user that a lookup found; empty if it found none.
pub open spec fn name_in(answer: Result<DbAnswer, StoreError>) -> Seq<char> {
    match answer {
        Ok(DbAnswer::User(found)) => found.username@,
        _ => Seq::empty(),
    }
}

fn name_of(answer: Result<DbAnswer, StoreError>) -> (name: String)
    ensures
        name@ == name_in(answer),
{
    match answer {
        Ok(DbAnswer::User(found)) => found.username,
        _ => String::new(),
    }
}

/// What answering `Accepted` yields: the acceptor is told whose request it
/// accepted and gets its rooms, requests and friends afresh; the sender, if
/// online, is notified after that.
pub open spec fn acceptance_told(
    sender_id: i32,
    answer: Result<DbAnswer, StoreError>,
    online: Map<i32, ConnId>,
    user: User,
    own_tx: ConnId,
    progress: Progress,
) -> bool {
    &&& progress.outbox@.len() == 1
    &&& credits(progress.outbox@[0], own_tx, ResponseKind::FriendRequestAccepted, name_in(answer))
    &&& progress.shutdown is None
    &&& progress.agenda@ == if online.contains_key(sender_id) {
        seq![
            Task::PushRooms { user_id: user._id, to: own_tx },
            Task::PushRequests { user_id: user._id, to: own_tx },
            Task::PushFriends { user_id: user._id, to: own_tx },
            Task::NotifySender { sender_id, to: online[sender_id] },
        ]
    } else {
        seq![
            Task::PushRooms { user_id: user._id, to: own_tx },
            Task::PushRequests { user_id: user._id, to: own_tx },
            Task::PushFriends { user_id: user._id, to: own_tx },
        ]
    }
}

fn tell_acceptance(sender_id: i32, answer: Result<DbAnswer, StoreError>, state: &AppState, user: &User, own_tx: ConnId) -> (progress: Progress)
    ensures
        acceptance_told(sender_id, answer, state.online_users@, *user, own_tx, progress),
{
    let mut outbox: Vec<Delivery> = Vec::new();
    outbox.push(credit(own_tx, ResponseKind::FriendRequestAccepted, name_of(answer)));
    let mut agenda: Vec<Task> = Vec::new();
    agenda.push(Task::PushRooms { user_id: user._id, to: own_tx });
    agenda.push(Task::PushRequests { user_id: user._id, to: own_tx });
    agenda.push(Task::PushFriends { user_id: user._id, to: own_tx });
    match state.online_users.lookup(sender_id) {
        Some(to) => {
            agenda.push(Task::NotifySender { sender_id, to });
        },
        None => {},
    }
    let progress = Progress { outbox, agenda, shutdown: None };
    assert(progress.agenda@ =~= if state.online_users@.contains_key(sender_id) {
        seq![
            Task::PushRooms { user_id: user._id, to: own_tx },
            Task::PushRequests { user_id: user._id, to: own_tx },
            Task::PushFriends { user_id: user._id, to: own_tx },
            Task::NotifySender { sender_id, to: state.online_users@[sender_id] },
        ]
    } else {
        seq![
            Task::PushRooms { user_id: user._id, to: own_tx },
            Task::PushRequests { user_id: user._id, to: own_tx },
            Task::PushFriends { user_id: user._id, to: own_tx },
        ]
    });
    progress
}

/// What answering `NotifySender` yields: the sender is told who accepted
/// and gets its rooms and friends afresh. A sender who cannot be read from
/// storage is told nothing.
pub open spec fn sender_notified(
    to: ConnId,
    answer: Result<DbAnswer, StoreError>,
    user: User,
    progress: Progress,
) -> bool {
    match answer {
        Ok(DbAnswer::User(sender)) => {
            &&& progress.outbox@.len() == 1
            &&& credits(progress.outbox@[0], to, ResponseKind::FriendRequestAccepted, user.username@)
            &&& progress.shutdown is None
            &&& progress.agenda@ == seq![
                Task::PushRooms { user_id: sender._id, to },
                Task::PushFriends { user_id: sender._id, to },
            ]
        },
        _ => quiet(progress),
    }
}

fn notify_sender(to: ConnId, answer: Result<DbAnswer, StoreError>, user: &User) -> (progress: Progress)
    ensures
        sender_notified(to, answer, *user, progress),
{
    match answer {
        Ok(DbAnswer::User(sender)) => {
            let mut outbox: Vec<Delivery> = Vec::new();
            outbox.push(credit(to, ResponseKind::FriendRequestAccepted, user.username.clone()));
            let mut agenda: Vec<Task> = Vec::new();
            agenda.push(Task::PushRooms { user_id: sender._id, to });
            agenda.push(Task::PushFriends { user_id: sender._id, to });
            let progress = Progress { outbox, agenda, shutdown: None };
            assert(progress.agenda@ =~= seq![
                Task::PushRooms { user_id: sender._id, to },
                Task::PushFriends { user_id: sender._id, to },
            ]);
            progress
        },
        _ => nothing(),
    }
}

/// What answering `Rejected` yields: the rejector is told whose request it
/// rejected and gets its pending requests afresh; the sender, if online, is
/// told after that.
pub open spec fn rejection_told(
    sender_id: i32,
    answer: Result<DbAnswer, StoreError>,
    online: Map<i32, ConnId>,
    user: User,
    own_tx: ConnId,
    progress: Progress,
) -> bool {
    &&& progress.outbox@.len() == 1
    &&& credits(progress.outbox@[0], own_tx, ResponseKind::FriendRequestRejected, name_in(answer))
    &&& progress.shutdown is None
    &&& progress.agenda@.len() >= 1
    &&& progress.agenda@[0] == (Task::PushRequests { user_id: user._id, to: own_tx })
    &&& if online.contains_key(sender_id) {
        &&& progress.agenda@.len() == 2
        &&& progress.agenda@[1] matches Task::Emit(notice)
        &&& credits(notice, online[sender_id], ResponseKind::FriendRequestRejected, user.username@)
    } else {
        progress.agenda@.len() == 1
    }
}

fn tell_rejection(sender_id: i32, answer: Result<DbAnswer, StoreError>, state: &AppState, user: &User, own_tx: ConnId) -> (progress: Progress)
    ensures
        rejection_told(sender_id, answer, state.online_users@, *user, own_tx, progress),
{
    let mut outbox: Vec<Delivery> = Vec::new();
    outbox.push(credit(own_tx, ResponseKind::FriendRequestRejected, name_of(answer)));
    let mut agenda: Vec<Task> = Vec::new();
    agenda.push(Task::PushRequests { user_id: user._id, to: own_tx });
    match state.online_users.lookup(sender_id) {
        Some(to) => {
            agenda.push(Task::Emit(credit(to, ResponseKind::FriendRequestRejected, user.username.clone())));
        },
        None => {},
    }
    Progress { outbox, agenda, shutdown: None }
}

/// What answering `Unfriend` yields: the user gets its friends and rooms
/// afresh, and so does the former friend if online. A failure yields nothing.
pub open spec fn unfriended(
    friend_id: i32,
    answer: Result<DbAnswer, StoreError>,
    online: Map<i32, ConnId>,
    user: User,
    own_tx: ConnId,
    progress: Progress,
) -> bool {
    match answer {
        Ok(_) => asks(
            progress,
            if online.contains_key(friend_id) {
                seq![
                    Task::PushFriends { user_id: user._id, to: own_tx },
                    Task::PushRooms { user_id: user._id, to: own_tx },
                    Task::RefreshPeer { user_id: friend_id, to: online[friend_id] },
                ]
            } else {
                seq![
                    Task::PushFriends { user_id: user._id, to: own_tx },
                    Task::PushRooms { user_id: user._id, to: own_tx },
                ]
            },
        ),
        Err(_) => quiet(progress),
    }
}

fn unfriend(friend_id: i32, answer: Result<DbAnswer, StoreError>, state: &AppState, user: &User, own_tx: ConnId) -> (progress: Progress)
    ensures
        unfriended(friend_id, answer, state.online_users@, *user, own_tx, progress),
{
    match answer {
        Ok(_) => {
            let mut agenda: Vec<Task> = Vec::new();
            agenda.push(Task::PushFriends { user_id: user._id, to: own_tx });
            agenda.push(Task::PushRooms { user_id: user._id, to: own_tx });
            match state.online_users.lookup(friend_id) {
                Some(to) => {
                    agenda.push(Task::RefreshPeer { user_id: friend_id, to });
                },
                None => {},
            }
            let progress = Progress { outbox: Vec::new(), agenda, shutdown: None };
            assert(progress.agenda@ =~= if state.online_users@.contains_key(friend_id) {
                seq![
                    Task::PushFriends { user_id: user._id, to: own_tx },
                    Task::PushRooms { user_id: user._id, to: own_tx },
                    Task::RefreshPeer { user_id: friend_id, to: state.online_users@[friend_id] },
                ]
            } else {
                seq![
                    Task::PushFriends { user_id: user._id, to: own_tx },
                    Task::PushRooms { user_id: user._id, to: own_tx },
                ]
            });
            progress
        },
        Err(_) => nothing(),
    }
}

/// What answering `RefreshPeer` yields: the former friend, if it still
/// exists, gets its friends and rooms afresh.
pub open spec fn peer_refreshed(user_id: i32, to: ConnId, answer: Result<DbAnswer, StoreError>, progress: Progress) -> bool {
    match answer {
        Ok(DbAnswer::User(_)) => asks(
            progress,
            seq![Task::PushFriends { user_id, to }, Task::PushRooms { user_id, to }],
        ),
        _ => quiet(progress),
    }
}

fn refresh_peer(user_id: i32, to: ConnId, answer: Result<DbAnswer, StoreError>) -> (progress: Progress)
    ensures
        peer_refreshed(user_id, to, answer, progress),
{
    match answer {
        Ok(DbAnswer::User(_)) => {
            let mut agenda: Vec<Task> = Vec::new();
            agenda.push(Task::PushFriends { user_id, to });
            agenda.push(Task::PushRooms { user_id, to });
            let progress = Progress { outbox: Vec::new(), agenda, shutdown: None };
            assert(progress.agenda@ =~= seq![Task::PushFriends { user_id, to }, Task::PushRooms { user_id, to }]);
            progress
        },
        _ => nothing(),
    }
}

/// What answering `AdminUsers` yields: the list of all users. If it cannot
/// be read, a lenient task sends an empty list and a strict one an error.
pub open spec fn users_listed(lenient: bool, answer: Result<DbAnswer, StoreError>, own_tx: ConnId, progress: Progress) -> bool {
    &&& delivers_only(progress)
    &&& match answer {
        Ok(DbAnswer::Users(users)) => carries(
            progress.outbox@[0],
            own_tx,
            ResponseKind::AdminAllUsers,
            ResponsePayload::Users(users),
        ),
        _ => if lenient {
            &&& envelope_to(progress.outbox@[0], own_tx, ResponseKind::AdminAllUsers)
            &&& payload_of(progress.outbox@[0]) matches ResponsePayload::Users(users)
            &&& users@.len() == 0
        } else {
            reports(progress.outbox@[0], own_tx, ResponseKind::AdminError, USERS_UNREADABLE@)
        },
    }
}

fn list_users(lenient: bool, answer: Result<DbAnswer, StoreError>, own_tx: ConnId) -> (progress: Progress)
    ensures
        users_listed(lenient, answer, own_tx, progress),
{
    match answer {
        Ok(DbAnswer::Users(users)) => just(
            send_ws_message_to(own_tx, ResponseKind::AdminAllUsers, ResponsePayload::Users(users)),
        ),
        _ => if lenient {
            just(send_ws_message_to(own_tx, ResponseKind::AdminAllUsers, ResponsePayload::Users(Vec::new())))
        } else {
            just(complaint(own_tx, ResponseKind::AdminError, USERS_UNREADABLE))
        },
    }
}

/// What answering `AdminRooms` yields: the list of all rooms. If it cannot
/// be read, a lenient task sends an empty list and a strict one an error.
pub open spec fn rooms_listed(lenient: bool, answer: Result<DbAnswer, StoreError>, own_tx: ConnId, progress: Progress) -> bool {
    &&& delivers_only(progress)
    &&& match answer {
        Ok(DbAnswer::AdminRooms(rooms)) => carries(
            progress.outbox@[0],
            own_tx,
            ResponseKind::AdminAllRooms,
            ResponsePayload::AdminRooms(rooms),
        ),
        _ => if lenient {
            &&& envelope_to(progress.outbox@[0], own_tx, ResponseKind::AdminAllRooms)
            &&& payload_of(progress.outbox@[0]) matches ResponsePayload::AdminRooms(rooms)
            &&& rooms@.len() == 0
        } else {
            reports(progress.outbox@[0], own_tx, ResponseKind::AdminError, ROOMS_UNREADABLE@)
        },
    }
}

fn list_rooms(lenient: bool, answer: Result<DbAnswer, StoreError>, own_tx: ConnId) -> (progress: Progress)
    ensures
        rooms_listed(lenient, answer, own_tx, progress),
{
    match answer {
        Ok(DbAnswer::AdminRooms(rooms)) => just(
            send_ws_message_to(own_tx, ResponseKind::AdminAllRooms, ResponsePayload::AdminRooms(rooms)),
        ),
        _ => if lenient {
            just(send_ws_message_to(own_tx, ResponseKind::AdminAllRooms, ResponsePayload::AdminRooms(Vec::new())))
        } else {
            just(complaint(own_tx, ResponseKind::AdminError, ROOMS_UNREADABLE))
        },
    }
}

/// What answering an administrative change yields: on success the
/// confirmation `done` of kind `ok`, with the list named by `refresh` sent
/// afresh next; on failure the error, in an envelope of kind `fail`.
pub open spec fn admin_changed(
    answer: Result<DbAnswer, StoreError>,
    own_tx: ConnId,
    ok: ResponseKind,
    done: Seq<char>,
    fail: ResponseKind,
    refresh: Task,
    progress: Progress,
) -> bool {
    match answer {
        Ok(_) => {
            &&& progress.outbox@.len() == 1
            &&& says(progress.outbox@[0], own_tx, ok, done)
            &&& progress.agenda@ == seq![refresh]
            &&& progress.shutdown is None
        },
        Err(error) => delivers_only(progress) && reports(progress.outbox@[0], own_tx, fail, error.text()),
    }
}

fn admin_change(
    answer: Result<DbAnswer, StoreError>,
    own_tx: ConnId,
    ok: ResponseKind,
    done: &str,
    fail: ResponseKind,
    refresh: Task,
) -> (progress: Progress)
    ensures
        admin_changed(answer, own_tx, ok, done@, fail, refresh, progress),
{
    match answer {
        Ok(_) => {
            let mut outbox: Vec<Delivery> = Vec::new();
            outbox.push(note(own_tx, ok, done));
            let mut agenda: Vec<Task> = Vec::new();
            agenda.push(refresh);
            Progress { outbox, agenda, shutdown: None }
        },
        Err(error) => just(failure(own_tx, fail, error)),
    }
}

/// What firing the shutdown signal yields: the server goes down after
/// `delay` milliseconds if this is the first time the signal fires, and
/// nothing happens otherwise. Either way the signal has fired afterwards.
pub open spec fn signalled(before: Hub, after: Hub, delay: u64, shutdown: Option<u64>) -> bool {
    &&& after == (Hub { armed: false, ..before })
    &&& shutdown == (if before.armed {
        Some(delay)
    } else {
        None
    })
}

fn signal(state: &mut AppState, delay: u64) -> (shutdown: Option<u64>)
    ensures
        signalled(old(state)@, final(state)@, delay, shutdown),
{
    if state.shutdown.trigger() {
        Some(delay)
    } else {
        None
    }
}

/// What answering `ChangePort` yields: once the configuration is written,
/// the client is told so and the server goes down after a short grace
/// period, to come up again on the new port. If it cannot be written, the
/// client is told why and the server stays up.
pub open spec fn port_changed(
    answer: Result<DbAnswer, StoreError>,
    own_tx: ConnId,
    before: Hub,
    after: Hub,
    progress: Progress,
) -> bool {
    &&& progress.outbox@.len() == 1
    &&& progress.agenda@.len() == 0
    &&& match answer {
        Ok(_) => {
            &&& carries(progress.outbox@[0], own_tx, ResponseKind::AdminChangePortOk, ResponsePayload::Empty)
            &&& signalled(before, after, PORT_CHANGE_GRACE_MS, progress.shutdown)
        },
        Err(error) => {
            &&& reports(progress.outbox@[0], own_tx, ResponseKind::AdminChangePortFail, error.text())
            &&& after == before
            &&& progress.shutdown is None
        },
    }
}

fn change_port(answer: Result<DbAnswer, StoreError>, state: &mut AppState, own_tx: ConnId) -> (progress: Progress)
    ensures
        port_changed(answer, own_tx, old(state)@, final(state)@, progress),
{
    match answer {
        Ok(_) => {
            let mut outbox: Vec<Delivery> = Vec::new();
            outbox.push(send_ws_message_to(own_tx, ResponseKind::AdminChangePortOk, ResponsePayload::Empty));
            let shutdown = signal(state, PORT_CHANGE_GRACE_MS);
            Progress { outbox, agenda: Vec::new(), shutdown }
        },
        Err(error) => just(failure(own_tx, ResponseKind::AdminChangePortFail, error)),
    }
}

/// The storage operation that `task` waits for on behalf of `user`; `None`
/// for a task that asks nothing.
pub open spec fn wanted(task: Task, user: User) -> Option<DbRequest> {
    match task {
        Task::PushRooms { user_id, to } => Some(DbRequest::GetUserRooms(user_id)),
        Task::PushRequests { user_id, to } => Some(DbRequest::GetFriendRequests(user_id)),
        Task::PushFriends { user_id, to } => Some(DbRequest::GetFriends(user_id)),
        Task::History { room_id, to } => Some(DbRequest::GetMessagesForRoom(room_id)),
        Task::Emit(_) => None,
        Task::Chat { room_id, content } => Some(
            DbRequest::CreateMessage { room_id, sender_username: user.username, content },
        ),
        Task::QuickChat { friend_id } => Some(
            DbRequest::GetOrCreatePrivateRoom { user1_id: user._id, user2_id: friend_id },
        ),
        Task::FriendLookup { username } => Some(DbRequest::GetUserByUsername(username)),
        Task::FriendSend { username, target_id } => Some(
            DbRequest::SendFriendRequest { from_user_id: user._id, to_user_id: target_id },
        ),
        Task::Accept { request_id } => Some(DbRequest::AcceptFriendRequest(request_id)),
        Task::Accepted { sender_id } => Some(DbRequest::GetUserById(sender_id)),
        Task::NotifySender { sender_id, to } => Some(DbRequest::GetUserById(sender_id)),
        Task::Reject { request_id } => Some(DbRequest::RejectFriendRequest(request_id)),
        Task::Rejected { sender_id } => Some(DbRequest::GetUserById(sender_id)),
        Task::Unfriend { friend_id } => Some(DbRequest::DeleteFriend { user1_id: user._id, user2_id: friend_id }),
        Task::RefreshPeer { user_id, to } => Some(DbRequest::GetUserById(user_id)),
        Task::AdminUsers { lenient } => Some(DbRequest::GetAllUsers),
        Task::AdminRooms { lenient } => Some(DbRequest::GetAllRooms),
        Task::AdminCreateUser { username, password, role } => Some(
            DbRequest::CreateUser { username, password, role: Some(role) },
        ),
        Task::AdminDeleteUser { user_id } => Some(DbRequest::DeleteUser(user_id)),
        Task::AdminDeleteRoom { room_id } => Some(DbRequest::DeleteRoom(room_id)),
        Task::ChangePort { port } => Some(DbRequest::SaveConfig(Config { port })),
    }
}

/// The storage operation that `task` waits for on behalf of `user`, if it
/// waits for one.
pub fn request_of(task: &Task, user: &User) -> (request: Option<DbRequest>)
    ensures
        request == wanted(*task, *user),
{
    match task {
        Task::PushRooms { user_id, to } => Some(DbRequest::GetUserRooms(*user_id)),
        Task::PushRequests { user_id, to } => Some(DbRequest::GetFriendRequests(*user_id)),
        Task::PushFriends { user_id, to } => Some(DbRequest::GetFriends(*user_id)),
        Task::History { room_id, to } => Some(DbRequest::GetMessagesForRoom(*room_id)),
        Task::Emit(_) => None,
        Task::Chat { room_id, content } => Some(
            DbRequest::CreateMessage {
                room_id: *room_id,
                sender_username: user.username.clone(),
                content: content.clone(),
            },
        ),
        Task::QuickChat { friend_id } => Some(
            DbRequest::GetOrCreatePrivateRoom { user1_id: user._id, user2_id: *friend_id },
        ),
        Task::FriendLookup { username } => Some(DbRequest::GetUserByUsername(username.clone())),
        Task::FriendSend { username, target_id } => Some(
            DbRequest::SendFriendRequest { from_user_id: user._id, to_user_id: *target_id },
        ),
        Task::Accept { request_id } => Some(DbRequest::AcceptFriendRequest(*request_id)),
        Task::Accepted { sender_id } => Some(DbRequest::GetUserById(*sender_id)),
        Task::NotifySender { sender_id, to } => Some(DbRequest::GetUserById(*sender_id)),
        Task::Reject { request_id } => Some(DbRequest::RejectFriendRequest(*request_id)),
        Task::Rejected { sender_id } => Some(DbRequest::GetUserById(*sender_id)),
        Task::Unfriend { friend_id } => Some(DbRequest::DeleteFriend { user1_id: user._id, user2_id: *friend_id }),
        Task::RefreshPeer { user_id, to } => Some(DbRequest::GetUserById(*user_id)),
        Task::AdminUsers { lenient } => Some(DbRequest::GetAllUsers),
        Task::AdminRooms { lenient } => Some(DbRequest::GetAllRooms),
        Task::AdminCreateUser { username, password, role } => Some(
            DbRequest::CreateUser { username: username.clone(), password: password.clone(), role: Some(role.clone()) },
        ),
        Task::AdminDeleteUser { user_id } => Some(DbRequest::DeleteUser(*user_id)),
        Task::AdminDeleteRoom { room_id } => Some(DbRequest::DeleteRoom(*room_id)),
        Task::ChangePort { port } => Some(DbRequest::SaveConfig(Config { port: *port })),
    }
}

/// Whether `progress`, with the state after the turn, is what `task` comes
/// to once storage has given `answer`.
pub open spec fn resumed(
    task: Task,
    answer: Result<DbAnswer, StoreError>,
    user: User,
    own_tx: ConnId,
    before: Hub,
    room_before: Option<RoomId>,
    after: Hub,
    room_after: Option<RoomId>,
    progress: Progress,
) -> bool {
    match task {
        Task::QuickChat { friend_id } => quick_chat_opened(
            friend_id,
            answer,
            user,
            own_tx,
            before,
            room_before,
            after,
            room_after,
            progress,
        ),
        Task::ChangePort { port } => room_after == room_before && port_changed(
            answer,
            own_tx,
            before,
            after,
            progress,
        ),
        _ => untouched(before, room_before, after, room_after) && match task {
            Task::QuickChat { friend_id } => false,
            Task::ChangePort { port } => false,
            Task::PushRooms { user_id, to } => rooms_pushed(to, answer, progress),
            Task::PushRequests { user_id, to } => requests_pushed(to, answer, progress),
            Task::PushFriends { user_id, to } => friends_pushed(to, answer, before.online, progress),
            Task::History { room_id, to } => history_pushed(to, answer, progress),
            Task::Emit(delivery) => delivers_only(progress) && progress.outbox@[0] == delivery,
            Task::Chat { room_id, content } => chat_passed_on(room_id, answer, before, progress),
            Task::FriendLookup { username } => friend_found(username, answer, user, own_tx, progress),
            Task::FriendSend { username, target_id } => request_sent(
                username,
                answer,
                before.online,
                own_tx,
                progress,
            ),
            Task::Accept { request_id } => responded(
                answer,
                own_tx,
                |sender_id: i32| Task::Accepted { sender_id },
                progress,
            ),
            Task::Accepted { sender_id } => acceptance_told(
                sender_id,
                answer,
                before.online,
                user,
                own_tx,
                progress,
            ),
            Task::NotifySender { sender_id, to } => sender_notified(to, answer, user, progress),
            Task::Reject { request_id } => responded(
                answer,
                own_tx,
                |sender_id: i32| Task::Rejected { sender_id },
                progress,
            ),
            Task::Rejected { sender_id } => rejection_told(
                sender_id,
                answer,
                before.online,
                user,
                own_tx,
                progress,
            ),
            Task::Unfriend { friend_id } => unfriended(friend_id, answer, before.online, user, own_tx, progress),
            Task::RefreshPeer { user_id, to } => peer_refreshed(user_id, to, answer, progress),
            Task::AdminUsers { lenient } => users_listed(lenient, answer, own_tx, progress),
            Task::AdminRooms { lenient } => rooms_listed(lenient, answer, own_tx, progress),
            Task::AdminCreateUser { username, password, role } => admin_changed(
                answer,
                own_tx,
                ResponseKind::AdminCreateUserOk,
                USER_CREATED@,
                ResponseKind::AdminCreateUserFail,
                Task::AdminUsers { lenient: true },
                progress,
            ),
            Task::AdminDeleteUser { user_id } => admin_changed(
                answer,
                own_tx,
                ResponseKind::AdminGenericOk,
                USER_DELETED@,
                ResponseKind::AdminError,
                Task::AdminUsers { lenient: true },
                progress,
            ),
            Task::AdminDeleteRoom { room_id } => admin_changed(
                answer,
                own_tx,
                ResponseKind::AdminGenericOk,
                ROOM_DELETED@,
                ResponseKind::AdminError,
                Task::AdminRooms { lenient: true },
                progress,
            ),
        },
    }
}

/// Takes the turn that follows a task's storage operation.
///
/// `answer` is the outcome of the operation that [`request_of`] named for
/// `task`; for a task that names none, the answer is ignored.
pub fn resume(
    task: Task,
    answer: Result<DbAnswer, StoreError>,
    state: &mut AppState,
    user: &User,
    current_room_id: &mut Option<RoomId>,
    own_tx: ConnId,
) -> (progress: Progress)
    ensures
        resumed(
            task,
            answer,
            *user,
            own_tx,
            old(state)@,
            *old(current_room_id),
            final(state)@,
            *final(current_room_id),
            progress,
        ),
{
    match task {
        Task::PushRooms { user_id, to } => push_rooms(to, answer),
        Task::PushRequests { user_id, to } => push_requests(to, answer),
        Task::PushFriends { user_id, to } => push_friends(to, answer, state),
        Task::History { room_id, to } => push_history(to, answer),
        Task::Emit(delivery) => just(delivery),
        Task::Chat { room_id, content } => chat_pass_on(room_id, answer, state),
        Task::QuickChat { friend_id } => quick_chat_open(friend_id, answer, state, user, current_room_id, own_tx),
        Task::FriendLookup { username } => friend_find(username, answer, user, own_tx),
        Task::FriendSend { username, target_id } => request_send(username, answer, state, own_tx),
        Task::Accept { request_id } => respond(answer, own_tx, true),
        Task::Accepted { sender_id } => tell_acceptance(sender_id, answer, state, user, own_tx),
        Task::NotifySender { sender_id, to } => notify_sender(to, answer, user),
        Task::Reject { request_id } => respond(answer, own_tx, false),
        Task::Rejected { sender_id } => tell_rejection(sender_id, answer, state, user, own_tx),
        Task::Unfriend { friend_id } => unfriend(friend_id, answer, state, user, own_tx),
        Task::RefreshPeer { user_id, to } => refresh_peer(user_id, to, answer),
        Task::AdminUsers { lenient } => list_users(lenient, answer, own_tx),
        Task::AdminRooms { lenient } => list_rooms(lenient, answer, own_tx),
        Task::AdminCreateUser { username, password, role } => admin_change(
            answer,
            own_tx,
            ResponseKind::AdminCreateUserOk,
            USER_CREATED,
            ResponseKind::AdminCreateUserFail,
            Task::AdminUsers { lenient: true },
        ),
        Task::AdminDeleteUser { user_id } => admin_change(
            answer,
            own_tx,
            ResponseKind::AdminGenericOk,
            USER_DELETED,
            ResponseKind::AdminError,
            Task::AdminUsers { lenient: true },
        ),
        Task::AdminDeleteRoom { room_id } => admin_change(
            answer,
            own_tx,
            ResponseKind::AdminGenericOk,
            ROOM_DELETED,
            ResponseKind::AdminError,
            Task::AdminRooms { lenient: true },
        ),
        Task::ChangePort { port } => change_port(answer, state, own_tx),
    }
}

/// The presence connections of those on `roster` who are online, in the
/// roster's order.
pub open spec fn online_conns(roster: Seq<Seat>, online: Map<i32, ConnId>) -> Seq<ConnId>
    decreases roster.len(),
{
    if roster.len() == 0 {
        Seq::empty()
    } else {
        let rest = online_conns(roster.drop_last(), online);
        if online.contains_key(roster.last().0) {
            rest.push(online[roster.last().0])
        } else {
            rest
        }
    }
}

fn online_among(roster: &Vec<Seat>, state: &AppState) -> (to: Vec<ConnId>)
    ensures
        to@ == online_conns(roster@, state.online_users@),
{
    let mut to: Vec<ConnId> = Vec::new();
    let mut i: usize = 0;
    while i < roster.len()
        invariant
            i <= roster.len(),
            to@ == online_conns(roster@.subrange(0, i as int), state.online_users@),
        decreases roster.len() - i,
    {
        proof {
            assert(roster@.subrange(0, i + 1).drop_last() =~= roster@.subrange(0, i as int));
        }
        match state.online_users.lookup(roster[i].0) {
            Some(conn) => {
                to.push(conn);
            },
            None => {},
        }
        i = i + 1;
    }
    proof {
        assert(roster@.subrange(0, roster@.len() as int) =~= roster@);
    }
    to
}

/// Whether `to` names, for every member in `members` other than `exclude`
/// who is online, the connection that speaks for that member, once per member.
pub open spec fn reaches_online(
    to: Seq<ConnId>,
    members: Map<i32, Client>,
    exclude: Option<i32>,
    online: Map<i32, ConnId>,
) -> bool {
    exists|roster: Seq<Seat>| #[trigger] is_roster(roster, members, exclude) && to == online_conns(roster, online)
}

/// What asking for a voice chat yields: an invitation in the user's name to
/// every other member of the current room who is online, sent to the
/// connection that the presence directory has for that member. Outside a
/// room nothing happens.
pub open spec fn voice_chat_requested(user: User, hub: Hub, room: Option<RoomId>, progress: Progress) -> bool {
    match room {
        Some(room_id) => {
            &&& delivers_only(progress)
            &&& reaches_online(
                progress.outbox@[0].to@,
                members_in(hub.rooms, room_id),
                Some(user._id),
                hub.online,
            )
            &&& progress.outbox@[0].frame == Frame::Text(
                WsResponseMessage {
                    kind: ResponseKind::VoiceChatInvitation,
                    payload: ResponsePayload::VoiceChatInvitation(
                        VoiceChatInvitationPayload { from_username: user.username },
                    ),
                },
            )
        },
        None => quiet(progress),
    }
}

fn request_voice_chat(state: &AppState, user: &User, current_room_id: &Option<RoomId>) -> (progress: Progress)
    ensures
        voice_chat_requested(*user, state@, *current_room_id, progress),
{
    match current_room_id {
        Some(room_id) => {
            let roster = state.rooms.roster(*room_id, Some(user._id));
            let to = online_among(&roster, state);
            assert(reaches_online(
                to@,
                members_in(state.rooms@, *room_id),
                Some(user._id),
                state.online_users@,
            )) by {
                assert(is_roster(roster@, members_in(state.rooms@, *room_id), Some(user._id)));
            }
            just(
                Delivery {
                    to,
                    frame: Frame::Text(
                        WsResponseMessage {
                            kind: ResponseKind::VoiceChatInvitation,
                            payload: ResponsePayload::VoiceChatInvitation(
                                VoiceChatInvitationPayload { from_username: user.username.clone() },
                            ),
                        },
                    ),
                },
            )
        },
        None => nothing(),
    }
}

/// What a binary frame yields: the bytes go, as they came, to every other
/// member of the session's current room. Outside a room they go nowhere.
pub open spec fn binary_forwarded(data: Vec<u8>, user: User, hub: Hub, room: Option<RoomId>, progress: Progress) -> bool {
    match room {
        Some(room_id) => {
            &&& delivers_only(progress)
            &&& reaches(progress.outbox@[0].to@, members_in(hub.rooms, room_id), Some(user._id))
            &&& progress.outbox@[0].frame == Frame::Binary(data)
        },
        None => quiet(progress),
    }
}

/// Passes a binary frame on to the other members of the current room.
pub fn forward_binary(data: Vec<u8>, state: &AppState, user: &User, current_room_id: &Option<RoomId>) -> (progress: Progress)
    ensures
        binary_forwarded(data, *user, state@, *current_room_id, progress),
{
    match current_room_id {
        Some(room_id) => {
            let roster = state.rooms.roster(*room_id, Some(user._id));
            let to = conns(&roster);
            assert(reaches(to@, members_in(state.rooms@, *room_id), Some(user._id))) by {
                assert(is_roster(roster@, members_in(state.rooms@, *room_id), Some(user._id)));
            }
            just(Delivery { to, frame: Frame::Binary(data) })
        },
        None => nothing(),
    }
}

fn ask_for(task: Task) -> (progress: Progress)
    ensures
        asks(progress, seq![task]),
{
    let mut agenda: Vec<Task> = Vec::new();
    agenda.push(task);
    Progress { outbox: Vec::new(), agenda, shutdown: None }
}

/// Puts a fresh room list for `user` on the agenda, to be pushed to `own_tx`.
pub fn handle_get_user_rooms(user: &User, own_tx: ConnId) -> (progress: Progress)
    ensures
        asks(progress, seq![Task::PushRooms { user_id: user._id, to: own_tx }]),
{
    ask_for(Task::PushRooms { user_id: user._id, to: own_tx })
}

/// Puts the pending friend requests of `user` on the agenda, to be pushed to `own_tx`.
pub fn handle_get_friend_requests(user: &User, own_tx: ConnId) -> (progress: Progress)
    ensures
        asks(progress, seq![Task::PushRequests { user_id: user._id, to: own_tx }]),
{
    ask_for(Task::PushRequests { user_id: user._id, to: own_tx })
}

/// Puts a fresh friend list for `user` on the agenda, to be pushed to `own_tx`.
pub fn handle_get_friend_list(user: &User, own_tx: ConnId) -> (progress: Progress)
    ensures
        asks(progress, seq![Task::PushFriends { user_id: user._id, to: own_tx }]),
{
    ask_for(Task::PushFriends { user_id: user._id, to: own_tx })
}

/// What the first turn of an operation with a well-formed payload yields.
/// `payload` is `Absent` for operations that take none.
pub open spec fn begun(
    kind: OpKind,
    payload: RequestPayload,
    user: User,
    own_tx: ConnId,
    before: Hub,
    room_before: Option<RoomId>,
    after: Hub,
    room_after: Option<RoomId>,
    progress: Progress,
) -> bool {
    let same = untouched(before, room_before, after, room_after);
    match (kind, payload) {
        (OpKind::JoinRoom, RequestPayload::JoinRoom(p)) => entered(
            p.room_id,
            user,
            own_tx,
            before,
            after,
            room_after,
            progress,
        ) && progress.agenda@.len() == 1,
        (OpKind::SendChatMessage, RequestPayload::ChatMessage(p)) => same && if room_before == Some(p.room_id) {
            asks(progress, seq![Task::Chat { room_id: p.room_id, content: p.content }])
        } else {
            quiet(progress)
        },
        (OpKind::GetChatList, _) => same && asks(progress, seq![Task::PushRooms { user_id: user._id, to: own_tx }]),
        (OpKind::GetFriendList, _) => same && asks(
            progress,
            seq![Task::PushFriends { user_id: user._id, to: own_tx }],
        ),
        (OpKind::QuickChatWithFriend, RequestPayload::QuickChat(p)) => same && asks(
            progress,
            seq![Task::QuickChat { friend_id: p.friend_id }],
        ),
        (OpKind::SendFriendRequest, RequestPayload::SendFriendRequest(p)) => same && asks(
            progress,
            seq![Task::FriendLookup { username: p.username }],
        ),
        (OpKind::RespondToFriendRequest, RequestPayload::RespondToFriendRequest(p)) => same && asks(
            progress,
            seq![
                if p.accept {
                    Task::Accept { request_id: p.request_id }
                } else {
                    Task::Reject { request_id: p.request_id }
                },
            ],
        ),
        (OpKind::DeleteFriend, RequestPayload::DeleteFriend(p)) => same && asks(
            progress,
            seq![Task::Unfriend { friend_id: p.friend_id }],
        ),
        (OpKind::RequestVoiceChat, _) => same && voice_chat_requested(user, before, room_before, progress),
        (OpKind::AdminGetAllUsers, _) => same && asks(progress, seq![Task::AdminUsers { lenient: false }]),
        (OpKind::AdminGetAllRooms, _) => same && asks(progress, seq![Task::AdminRooms { lenient: false }]),
        (OpKind::AdminCreateUser, RequestPayload::AdminCreateUser(p)) => same && asks(
            progress,
            seq![Task::AdminCreateUser { username: p.username, password: p.password, role: p.role }],
        ),
        (OpKind::AdminDeleteUser, RequestPayload::AdminDeleteUser(p)) => same && asks(
            progress,
            seq![Task::AdminDeleteUser { user_id: p.user_id }],
        ),
        (OpKind::AdminDeleteRoom, RequestPayload::AdminDeleteRoom(p)) => same && asks(
            progress,
            seq![Task::AdminDeleteRoom { room_id: p.room_id }],
        ),
        (OpKind::AdminShutdownServer, _) => {
            &&& room_after == room_before
            &&& signalled(before, after, 0, progress.shutdown)
            &&& progress.outbox@.len() == 0
            &&& progress.agenda@.len() == 0
        },
        (OpKind::AdminChangePort, RequestPayload::AdminChangePort(p)) => same && asks(
            progress,
            seq![Task::ChangePort { port: p.port }],
        ),
        _ => same && quiet(progress),
    }
}

/// Whether `progress`, with the state after the turn, is what the envelope
/// `req` from `user` leads to.
///
/// An envelope of unknown type, one whose payload does not fit its type, a
/// handshake envelope, and an administrative one from a user who is no
/// administrator are all dropped without a word.
pub open spec fn handled(
    req: WsRequestMessage,
    user: User,
    own_tx: ConnId,
    before: Hub,
    room_before: Option<RoomId>,
    after: Hub,
    room_after: Option<RoomId>,
    progress: Progress,
) -> bool {
    match kind_named(req.kind@) {
        Some(kind) if !(crate::protocol::admin_only(kind) && user.role@ != ADMIN_ROLE@) => begun(
            kind,
            req.payload,
            user,
            own_tx,
            before,
            room_before,
            after,
            room_after,
            progress,
        ),
        _ => untouched(before, room_before, after, room_after) && quiet(progress),
    }
}

/// Takes the first turn for an envelope from an authenticated client.
pub fn handle_message(
    req: WsRequestMessage,
    state: &mut AppState,
    user: &User,
    current_room_id: &mut Option<RoomId>,
    own_tx: ConnId,
) -> (progress: Progress)
    ensures
        handled(
            req,
            *user,
            own_tx,
            old(state)@,
            *old(current_room_id),
            final(state)@,
            *final(current_room_id),
            progress,
        ),
{
    let kind = match op_kind(req.kind.as_str()) {
        Some(kind) => kind,
        None => {
            return nothing();
        },
    };
    if is_admin_only(kind) && !same_text(user.role.as_str(), ADMIN_ROLE) {
        return nothing();
    }
    match (kind, req.payload) {
        (OpKind::JoinRoom, RequestPayload::JoinRoom(p)) => enter(p.room_id, state, user, current_room_id, own_tx),
        (OpKind::SendChatMessage, RequestPayload::ChatMessage(p)) => {
            let in_that_room = match current_room_id {
                Some(room_id) => *room_id == p.room_id,
                None => false,
            };
            if in_that_room {
                ask_for(Task::Chat { room_id: p.room_id, content: p.content })
            } else {
                nothing()
            }
        },
        (OpKind::GetChatList, _) => handle_get_user_rooms(user, own_tx),
        (OpKind::GetFriendList, _) => handle_get_friend_list(user, own_tx),
        (OpKind::QuickChatWithFriend, RequestPayload::QuickChat(p)) => ask_for(
            Task::QuickChat { friend_id: p.friend_id },
        ),
        (OpKind::SendFriendRequest, RequestPayload::SendFriendRequest(p)) => ask_for(
            Task::FriendLookup { username: p.username },
        ),
        (OpKind::RespondToFriendRequest, RequestPayload::RespondToFriendRequest(p)) => {
            if p.accept {
                ask_for(Task::Accept { request_id: p.request_id })
            } else {
                ask_for(Task::Reject { request_id: p.request_id })
            }
        },
        (OpKind::DeleteFriend, RequestPayload::DeleteFriend(p)) => ask_for(Task::Unfriend { friend_id: p.friend_id }),
        (OpKind::RequestVoiceChat, _) => request_voice_chat(state, user, current_room_id),
        (OpKind::AdminGetAllUsers, _) => ask_for(Task::AdminUsers { lenient: false }),
        (OpKind::AdminGetAllRooms, _) => ask_for(Task::AdminRooms { lenient: false }),
        (OpKind::AdminCreateUser, RequestPayload::AdminCreateUser(p)) => ask_for(
            Task::AdminCreateUser { username: p.username, password: p.password, role: p.role },
        ),
        (OpKind::AdminDeleteUser, RequestPayload::AdminDeleteUser(p)) => ask_for(
            Task::AdminDeleteUser { user_id: p.user_id },
        ),
        (OpKind::AdminDeleteRoom, RequestPayload::AdminDeleteRoom(p)) => ask_for(
            Task::AdminDeleteRoom { room_id: p.room_id },
        ),
        (OpKind::AdminShutdownServer, _) => {
            let shutdown = signal(state, 0);
            Progress { outbox: Vec::new(), agenda: Vec::new(), shutdown }
        },
        (OpKind::AdminChangePort, RequestPayload::AdminChangePort(p)) => ask_for(Task::ChangePort { port: p.port }),
        _ => nothing(),
    }
}

} // verus!
