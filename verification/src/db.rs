//! The operations on durable storage, each as a script of primitive calls.
//!
//! A script is called with the replies received so far. It answers with the
//! next call to perform, whose reply the host appends before asking again, or
//! with the operation's result. The host keeps one list of replies per
//! operation, starts it empty, and stops asking at the first `Done`.

use crate::credentials::{bcrypt_verdict, hash_password, HASH_LENGTH};
use crate::records::{AdminRoomInfo, ChatMessage, Config, FriendRequestInfo, RoomInfo, User};
use crate::storage::{
    aborted, abort, failure_of, halt, halted, has_run, ran, AdminRoomRow, RequestStatus, RoomRow, Step, StoreCall, StoreError,
    StoreReply, Table,
};
use vstd::prelude::*;

verus! {

/// The error that a reply stands for when it is not the one a script expects.
pub(crate) fn fail(reply: StoreReply) -> (error: StoreError)
    ensures
        error == failure_of(reply),
{
    match reply {
        StoreReply::Failed(reason) => StoreError::Failed(reason),
        _ => StoreError::Unexpected,
    }
}

/// How a script ends whose last call, answered by reply `at`, only has to run.
pub open spec fn finished<T>(replies: Seq<StoreReply>, at: int, value: T) -> Step<T> {
    if !ran(replies[at]) {
        halted(replies, at)
    } else if replies.len() == at + 1 {
        Step::Done(Ok(value))
    } else {
        Step::Done(Err(StoreError::Unexpected))
    }
}

/// How a script ends that has `value` in hand once `at` replies are in and
/// only the commit is left.
pub open spec fn committed<T>(replies: Seq<StoreReply>, at: int, value: T) -> Step<T> {
    if replies.len() == at {
        Step::Call(StoreCall::Commit)
    } else if !ran(replies[at]) {
        aborted(replies, at)
    } else if replies.len() == at + 1 {
        Step::Done(Ok(value))
    } else {
        Step::Done(Err(StoreError::Unexpected))
    }
}

pub(crate) fn finish<T>(replies: &mut Vec<StoreReply>, at: usize, value: T) -> (step: Step<T>)
    requires
        at < old(replies).len(),
    ensures
        step == finished(old(replies)@, at as int, value),
        step is Call ==> final(replies)@ == old(replies)@,
{
    if !has_run(&replies[at]) {
        halt(replies, at)
    } else if replies.len() == at + 1 {
        Step::Done(Ok(value))
    } else {
        Step::Done(Err(StoreError::Unexpected))
    }
}

pub(crate) fn commit<T>(replies: &mut Vec<StoreReply>, at: usize, value: T) -> (step: Step<T>)
    requires
        at <= old(replies).len(),
    ensures
        step == committed(old(replies)@, at as int, value),
        step is Call ==> final(replies)@ == old(replies)@,
{
    if replies.len() == at {
        Step::Call(StoreCall::Commit)
    } else if !has_run(&replies[at]) {
        abort(replies, at)
    } else if replies.len() == at + 1 {
        Step::Done(Ok(value))
    } else {
        Step::Done(Err(StoreError::Unexpected))
    }
}

/// The script of an operation that is a single call: ask, then read the
/// result out of the one reply with `pick`.
pub open spec fn answer<T>(call: StoreCall, replies: Seq<StoreReply>, pick: spec_fn(StoreReply) -> Option<T>) -> Step<T> {
    if replies.len() == 0 {
        Step::Call(call)
    } else if replies.len() == 1 && pick(replies[0]) is Some {
        Step::Done(Ok(pick(replies[0])->0))
    } else {
        halted(replies, 0)
    }
}

pub open spec fn user_in(reply: StoreReply) -> Option<User> {
    match reply {
        StoreReply::User(user) => Some(user),
        _ => None,
    }
}

pub open spec fn users_in(reply: StoreReply) -> Option<Vec<User>> {
    match reply {
        StoreReply::Users(users) => Some(users),
        _ => None,
    }
}

pub open spec fn changed_in(reply: StoreReply) -> Option<usize> {
    match reply {
        StoreReply::Changed(rows) => Some(rows),
        _ => None,
    }
}

pub open spec fn messages_in(reply: StoreReply) -> Option<Vec<ChatMessage>> {
    match reply {
        StoreReply::Messages(messages) => Some(messages),
        _ => None,
    }
}

pub open spec fn requests_in(reply: StoreReply) -> Option<Vec<FriendRequestInfo>> {
    match reply {
        StoreReply::Requests(requests) => Some(requests),
        _ => None,
    }
}

pub open spec fn done_in(reply: StoreReply) -> Option<()> {
    if ran(reply) {
        Some(())
    } else {
        None
    }
}

/// What asking a single question has come to.
pub(crate) enum Asked {
    Call(StoreCall),
    Reply(StoreReply),
    Overrun,
}

pub(crate) fn ask(call: StoreCall, replies: &mut Vec<StoreReply>) -> (asked: Asked)
    ensures
        old(replies)@.len() == 0 ==> asked == Asked::Call(call) && final(replies)@ == old(replies)@,
        old(replies)@.len() == 1 ==> asked == Asked::Reply(old(replies)@[0]),
        old(replies)@.len() > 1 ==> asked is Overrun,
{
    if replies.len() == 0 {
        Asked::Call(call)
    } else if replies.len() == 1 {
        match replies.pop() {
            Some(reply) => Asked::Reply(reply),
            None => Asked::Overrun,
        }
    } else {
        Asked::Overrun
    }
}

/// Looks up the user who owns `token`.
pub fn get_user_by_token(token: String, replies: &mut Vec<StoreReply>) -> (step: Step<User>)
    ensures
        step == answer(StoreCall::UserByToken(token), old(replies)@, |r: StoreReply| user_in(r)),
        step is Call ==> final(replies)@ == old(replies)@,
{
    match ask(StoreCall::UserByToken(token), replies) {
        Asked::Call(call) => Step::Call(call),
        Asked::Reply(StoreReply::User(user)) => Step::Done(Ok(user)),
        Asked::Reply(other) => Step::Done(Err(fail(other))),
        Asked::Overrun => Step::Done(Err(StoreError::Unexpected)),
    }
}

/// Looks up the user named `username`.
pub fn get_user_by_username(username: String, replies: &mut Vec<StoreReply>) -> (step: Step<User>)
    ensures
        step == answer(StoreCall::UserByName(username), old(replies)@, |r: StoreReply| user_in(r)),
        step is Call ==> final(replies)@ == old(replies)@,
{
    match ask(StoreCall::UserByName(username), replies) {
        Asked::Call(call) => Step::Call(call),
        Asked::Reply(StoreReply::User(user)) => Step::Done(Ok(user)),
        Asked::Reply(other) => Step::Done(Err(fail(other))),
        Asked::Overrun => Step::Done(Err(StoreError::Unexpected)),
    }
}

/// Looks up the user with identifier `user_id`.
pub fn get_user_by_id(user_id: i32, replies: &mut Vec<StoreReply>) -> (step: Step<User>)
    ensures
        step == answer(StoreCall::UserById(user_id), old(replies)@, |r: StoreReply| user_in(r)),
        step is Call ==> final(replies)@ == old(replies)@,
{
    match ask(StoreCall::UserById(user_id), replies) {
        Asked::Call(call) => Step::Call(call),
        Asked::Reply(StoreReply::User(user)) => Step::Done(Ok(user)),
        Asked::Reply(other) => Step::Done(Err(fail(other))),
        Asked::Overrun => Step::Done(Err(StoreError::Unexpected)),
    }
}

/// Lists every user.
pub fn get_all_users(replies: &mut Vec<StoreReply>) -> (step: Step<Vec<User>>)
    ensures
        step == answer(StoreCall::AllUsers, old(replies)@, |r: StoreReply| users_in(r)),
        step is Call ==> final(replies)@ == old(replies)@,
{
    match ask(StoreCall::AllUsers, replies) {
        Asked::Call(call) => Step::Call(call),
        Asked::Reply(StoreReply::Users(users)) => Step::Done(Ok(users)),
        Asked::Reply(other) => Step::Done(Err(fail(other))),
        Asked::Overrun => Step::Done(Err(StoreError::Unexpected)),
    }
}

/// Deletes a user; yields the number of rows deleted.
pub fn delete_user(user_id: i32, replies: &mut Vec<StoreReply>) -> (step: Step<usize>)
    ensures
        step == answer(StoreCall::DeleteUser(user_id), old(replies)@, |r: StoreReply| changed_in(r)),
        step is Call ==> final(replies)@ == old(replies)@,
{
    match ask(StoreCall::DeleteUser(user_id), replies) {
        Asked::Call(call) => Step::Call(call),
        Asked::Reply(StoreReply::Changed(rows)) => Step::Done(Ok(rows)),
        Asked::Reply(other) => Step::Done(Err(fail(other))),
        Asked::Overrun => Step::Done(Err(StoreError::Unexpected)),
    }
}

/// Sets a user's role; yields the number of rows changed.
pub fn set_user_role(username: String, role: String, replies: &mut Vec<StoreReply>) -> (step: Step<usize>)
    ensures
        step == answer(
            StoreCall::SetUserRole { username, role },
            old(replies)@,
            |r: StoreReply| changed_in(r),
        ),
        step is Call ==> final(replies)@ == old(replies)@,
{
    match ask(StoreCall::SetUserRole { username, role }, replies) {
        Asked::Call(call) => Step::Call(call),
        Asked::Reply(StoreReply::Changed(rows)) => Step::Done(Ok(rows)),
        Asked::Reply(other) => Step::Done(Err(fail(other))),
        Asked::Overrun => Step::Done(Err(StoreError::Unexpected)),
    }
}

/// Deletes a room with its participant rows and messages; yields the number
/// of room rows deleted.
pub fn delete_room(room_id: i64, replies: &mut Vec<StoreReply>) -> (step: Step<usize>)
    ensures
        step == answer(StoreCall::DeleteRoom(room_id), old(replies)@, |r: StoreReply| changed_in(r)),
        step is Call ==> final(replies)@ == old(replies)@,
{
    match ask(StoreCall::DeleteRoom(room_id), replies) {
        Asked::Call(call) => Step::Call(call),
        Asked::Reply(StoreReply::Changed(rows)) => Step::Done(Ok(rows)),
        Asked::Reply(other) => Step::Done(Err(fail(other))),
        Asked::Overrun => Step::Done(Err(StoreError::Unexpected)),
    }
}

/// Lists a room's messages, oldest first.
pub fn get_messages_for_room(room_id: i64, replies: &mut Vec<StoreReply>) -> (step: Step<Vec<ChatMessage>>)
    ensures
        step == answer(StoreCall::MessagesOf(room_id), old(replies)@, |r: StoreReply| messages_in(r)),
        step is Call ==> final(replies)@ == old(replies)@,
{
    match ask(StoreCall::MessagesOf(room_id), replies) {
        Asked::Call(call) => Step::Call(call),
        Asked::Reply(StoreReply::Messages(messages)) => Step::Done(Ok(messages)),
        Asked::Reply(other) => Step::Done(Err(fail(other))),
        Asked::Overrun => Step::Done(Err(StoreError::Unexpected)),
    }
}

/// Lists the pending friend requests addressed to `user_id`.
pub fn get_friend_requests(user_id: i32, replies: &mut Vec<StoreReply>) -> (step: Step<Vec<FriendRequestInfo>>)
    ensures
        step == answer(StoreCall::PendingRequestsFor(user_id), old(replies)@, |r: StoreReply| requests_in(r)),
        step is Call ==> final(replies)@ == old(replies)@,
{
    match ask(StoreCall::PendingRequestsFor(user_id), replies) {
        Asked::Call(call) => Step::Call(call),
        Asked::Reply(StoreReply::Requests(requests)) => Step::Done(Ok(requests)),
        Asked::Reply(other) => Step::Done(Err(fail(other))),
        Asked::Overrun => Step::Done(Err(StoreError::Unexpected)),
    }
}

/// Writes the configuration file.
pub fn save_config(config: Config, replies: &mut Vec<StoreReply>) -> (step: Step<()>)
    ensures
        step == answer(StoreCall::WriteConfig(config), old(replies)@, |r: StoreReply| done_in(r)),
        step is Call ==> final(replies)@ == old(replies)@,
{
    match ask(StoreCall::WriteConfig(config), replies) {
        Asked::Call(call) => Step::Call(call),
        Asked::Reply(StoreReply::Ack) => Step::Done(Ok(())),
        Asked::Reply(StoreReply::Changed(_)) => Step::Done(Ok(())),
        Asked::Reply(other) => Step::Done(Err(fail(other))),
        Asked::Overrun => Step::Done(Err(StoreError::Unexpected)),
    }
}

/// The statement that creates the schema's `index`-th piece.
pub open spec fn schema_call(index: int) -> StoreCall {
    if index == 0 {
        StoreCall::Configure
    } else if index == 1 {
        StoreCall::CreateTable(Table::Users)
    } else if index == 2 {
        StoreCall::CreateTable(Table::Rooms)
    } else if index == 3 {
        StoreCall::CreateTable(Table::RoomParticipants)
    } else if index == 4 {
        StoreCall::CreateTable(Table::Messages)
    } else if index == 5 {
        StoreCall::CreateTable(Table::FriendRequests)
    } else {
        StoreCall::CreateTable(Table::AuthTokens)
    }
}

/// The number of statements that set the schema up.
pub const SCHEMA_STEPS: usize = 7;

/// How many of the first `limit` replies report, one after the other from
/// reply `from` on, a statement that ran.
pub open spec fn ran_through(replies: Seq<StoreReply>, from: int, limit: int) -> int
    decreases limit - from,
{
    if from >= limit || from >= replies.len() || !ran(replies[from]) {
        from
    } else {
        ran_through(replies, from + 1, limit)
    }
}

/// The script that sets the schema up: the settings first, then each table
/// in turn, stopping at the first statement that fails.
pub open spec fn schema_script(replies: Seq<StoreReply>) -> Step<()> {
    let reached = ran_through(replies, 0, SCHEMA_STEPS as int);
    if reached < replies.len() {
        if reached < SCHEMA_STEPS {
            halted(replies, reached)
        } else {
            Step::Done(Err(StoreError::Unexpected))
        }
    } else if reached < SCHEMA_STEPS {
        Step::Call(schema_call(reached))
    } else {
        Step::Done(Ok(()))
    }
}

/// Prepares storage: settings, then the six tables, each created unless it exists.
pub fn init_db(replies: &mut Vec<StoreReply>) -> (step: Step<()>)
    ensures
        step == schema_script(old(replies)@),
        step is Call ==> final(replies)@ == old(replies)@,
{
    let mut reached: usize = 0;
    while reached < SCHEMA_STEPS && reached < replies.len() && has_run(&replies[reached])
        invariant
            reached <= SCHEMA_STEPS,
            reached <= replies.len(),
            replies@ == old(replies)@,
            ran_through(replies@, 0, SCHEMA_STEPS as int) == ran_through(replies@, reached as int, SCHEMA_STEPS as int),
        decreases SCHEMA_STEPS - reached,
    {
        reached = reached + 1;
    }
    if reached < replies.len() {
        if reached < SCHEMA_STEPS {
            halt(replies, reached)
        } else {
            Step::Done(Err(StoreError::Unexpected))
        }
    } else if reached == 0 {
        Step::Call(StoreCall::Configure)
    } else if reached == 1 {
        Step::Call(StoreCall::CreateTable(Table::Users))
    } else if reached == 2 {
        Step::Call(StoreCall::CreateTable(Table::Rooms))
    } else if reached == 3 {
        Step::Call(StoreCall::CreateTable(Table::RoomParticipants))
    } else if reached == 4 {
        Step::Call(StoreCall::CreateTable(Table::Messages))
    } else if reached == 5 {
        Step::Call(StoreCall::CreateTable(Table::FriendRequests))
    } else if reached == 6 {
        Step::Call(StoreCall::CreateTable(Table::AuthTokens))
    } else {
        Step::Done(Ok(()))
    }
}

/// The script that stores a session token for a user.
pub open spec fn token_script(user_id: i32, token: String, replies: Seq<StoreReply>) -> Step<String> {
    if replies.len() == 0 {
        Step::Call(StoreCall::InsertToken { token, user_id })
    } else {
        finished(replies, 0, token)
    }
}

/// Stores `token` as a session token of `user_id` and yields it.
pub fn create_auth_token(user_id: i32, token: String, replies: &mut Vec<StoreReply>) -> (step: Step<String>)
    ensures
        step == token_script(user_id, token, old(replies)@),
        step is Call ==> final(replies)@ == old(replies)@,
{
    if replies.len() == 0 {
        Step::Call(StoreCall::InsertToken { token, user_id })
    } else {
        finish(replies, 0, token)
    }
}

/// The role of a user who registers without naming one: the very first user
/// administers the server, everyone after is an ordinary user.
pub open spec fn inferred_role(user_count: i64) -> Seq<char> {
    if user_count == 0 {
        "admin"@
    } else {
        "normal"@
    }
}

/// Whether `call` inserts a user named `username` with `role`, under a hash
/// that `password` opens. The hash has the length of a hash, so it is not
/// the password itself unless the password happens to be that long.
pub open spec fn inserts_user(call: StoreCall, username: String, password: Seq<char>, role: Seq<char>) -> bool {
    &&& call matches StoreCall::InsertUser { username: name, password_hash: hash, role: given }
    &&& name == username
    &&& given@ == role
    &&& bcrypt_verdict(password, hash@) == Some(true)
    &&& hash@.len() == HASH_LENGTH
    &&& password.len() != HASH_LENGTH ==> hash@ != password
}

/// Whether `step` is how creating a user goes on once the role is settled
/// and `at` replies are in. Hashing draws randomness, which may fail.
pub open spec fn insertion(
    username: String,
    password: Seq<char>,
    role: Seq<char>,
    replies: Seq<StoreReply>,
    at: int,
    step: Step<()>,
) -> bool {
    if replies.len() == at {
        ||| (step matches Step::Call(call) && inserts_user(call, username, password, role))
        ||| step matches Step::Done(Err(StoreError::Failed(_)))
    } else {
        step == finished(replies, at, ())
    }
}

/// Whether `step` is how creating a user goes on after `replies`.
pub open spec fn user_creation(
    username: String,
    password: Seq<char>,
    role: Option<String>,
    replies: Seq<StoreReply>,
    step: Step<()>,
) -> bool {
    match role {
        Some(given) => insertion(username, password, given@, replies, 0, step),
        None => if replies.len() == 0 {
            step == Step::<()>::Call(StoreCall::CountUsers)
        } else if !(replies[0] is Count) {
            step == halted::<()>(replies, 0)
        } else {
            insertion(username, password, inferred_role(replies[0]->Count_0), replies, 1, step)
        },
    }
}

fn insert_user(username: String, password: String, role: String, replies: &mut Vec<StoreReply>, at: usize) -> (step: Step<()>)
    requires
        at <= old(replies).len(),
    ensures
        insertion(username, password@, role@, old(replies)@, at as int, step),
        step is Call ==> final(replies)@ == old(replies)@,
{
    if replies.len() == at {
        match hash_password(password.as_str()) {
            Ok(password_hash) => Step::Call(StoreCall::InsertUser { username, password_hash, role }),
            Err(reason) => Step::Done(Err(StoreError::Failed(reason))),
        }
    } else {
        finish(replies, at, ())
    }
}

/// Creates a user. Without a `role`, the first user ever created becomes
/// `admin` and every later one `normal`.
pub fn create_user(username: String, password: String, role: Option<String>, replies: &mut Vec<StoreReply>) -> (step: Step<()>)
    ensures
        user_creation(username, password@, role, old(replies)@, step),
        step is Call ==> final(replies)@ == old(replies)@,
{
    match role {
        Some(given) => insert_user(username, password, given, replies, 0),
        None => {
            if replies.len() == 0 {
                return Step::Call(StoreCall::CountUsers);
            }
            let count = match &replies[0] {
                StoreReply::Count(count) => Some(*count),
                _ => None,
            };
            match count {
                Some(count) => {
                    let role = if count == 0 {
                        String::from_str("admin")
                    } else {
                        String::from_str("normal")
                    };
                    insert_user(username, password, role, replies, 1)
                },
                None => halt(replies, 0),
            }
        },
    }
}

/// The script that stores a chat message and reads it back.
pub open spec fn message_script(
    room_id: i64,
    sender_username: String,
    content: String,
    replies: Seq<StoreReply>,
) -> Step<ChatMessage> {
    if replies.len() == 0 {
        Step::Call(StoreCall::InsertMessage { room_id, sender_username, content })
    } else if !(replies[0] is RowId) {
        halted(replies, 0)
    } else if replies.len() == 1 {
        Step::Call(StoreCall::MessageById(replies[0]->RowId_0))
    } else if replies.len() == 2 && replies[1] is Message {
        Step::Done(Ok(replies[1]->Message_0))
    } else {
        halted(replies, 1)
    }
}

/// Stores a message and yields the stored row, with its identifier and time.
pub fn create_message(room_id: i64, sender_username: String, content: String, replies: &mut Vec<StoreReply>) -> (step: Step<ChatMessage>)
    ensures
        step == message_script(room_id, sender_username, content, old(replies)@),
        step is Call ==> final(replies)@ == old(replies)@,
{
    if replies.len() == 0 {
        return Step::Call(StoreCall::InsertMessage { room_id, sender_username, content });
    }
    let row = match &replies[0] {
        StoreReply::RowId(row) => Some(*row),
        _ => None,
    };
    match row {
        None => halt(replies, 0),
        Some(row) => {
            if replies.len() == 1 {
                Step::Call(StoreCall::MessageById(row))
            } else if replies.len() == 2 {
                match replies.pop() {
                    Some(StoreReply::Message(message)) => Step::Done(Ok(message)),
                    Some(other) => Step::Done(Err(fail(other))),
                    None => Step::Done(Err(StoreError::Unexpected)),
                }
            } else {
                Step::Done(Err(StoreError::Unexpected))
            }
        },
    }
}

/// The script that sends a friend request: insert unless a request for the
/// pair exists, then fetch the row that is there now.
pub open spec fn request_script(from_user_id: i32, to_user_id: i32, replies: Seq<StoreReply>) -> Step<FriendRequestInfo> {
    if replies.len() == 0 {
        Step::Call(StoreCall::InsertRequestIfAbsent { from_user_id, to_user_id })
    } else if !ran(replies[0]) {
        halted(replies, 0)
    } else if replies.len() == 1 {
        Step::Call(StoreCall::RequestByPair { from_user_id, to_user_id })
    } else if replies.len() == 2 && replies[1] is Request {
        Step::Done(Ok(replies[1]->Request_0))
    } else {
        halted(replies, 1)
    }
}

/// Sends a friend request and yields the request that storage now holds for
/// the pair: the new pending one, or the one that was there before.
pub fn send_friend_request(from_user_id: i32, to_user_id: i32, replies: &mut Vec<StoreReply>) -> (step: Step<FriendRequestInfo>)
    ensures
        step == request_script(from_user_id, to_user_id, old(replies)@),
        step is Call ==> final(replies)@ == old(replies)@,
{
    if replies.len() == 0 {
        Step::Call(StoreCall::InsertRequestIfAbsent { from_user_id, to_user_id })
    } else if !has_run(&replies[0]) {
        halt(replies, 0)
    } else if replies.len() == 1 {
        Step::Call(StoreCall::RequestByPair { from_user_id, to_user_id })
    } else if replies.len() == 2 {
        match replies.pop() {
            Some(StoreReply::Request(request)) => Step::Done(Ok(request)),
            Some(other) => Step::Done(Err(fail(other))),
            None => Step::Done(Err(StoreError::Unexpected)),
        }
    } else {
        Step::Done(Err(StoreError::Unexpected))
    }
}

/// The script that rejects a friend request: find out who sent it, then mark
/// it rejected if it is pending.
pub open spec fn reject_script(request_id: i32, replies: Seq<StoreReply>) -> Step<Option<i32>> {
    if replies.len() == 0 {
        Step::Call(StoreCall::RequestSender(request_id))
    } else if !(replies[0] is Sender) {
        halted(replies, 0)
    } else if replies.len() == 1 {
        Step::Call(StoreCall::SetRequestStatus { request_id, status: RequestStatus::Rejected })
    } else {
        finished(replies, 1, replies[0]->Sender_0)
    }
}

/// Marks a pending friend request rejected and yields the sender of the
/// request, if the request exists. A request that is accepted or rejected
/// already keeps its status.
pub fn reject_friend_request(request_id: i32, replies: &mut Vec<StoreReply>) -> (step: Step<Option<i32>>)
    ensures
        step == reject_script(request_id, old(replies)@),
        step is Call ==> final(replies)@ == old(replies)@,
{
    if replies.len() == 0 {
        return Step::Call(StoreCall::RequestSender(request_id));
    }
    let sender = match &replies[0] {
        StoreReply::Sender(sender) => Some(*sender),
        _ => None,
    };
    match sender {
        None => halt(replies, 0),
        Some(sender) => {
            if replies.len() == 1 {
                Step::Call(StoreCall::SetRequestStatus { request_id, status: RequestStatus::Rejected })
            } else {
                finish(replies, 1, sender)
            }
        },
    }
}

/// Where finding or creating a private room stands inside a transaction.
#[derive(Debug, PartialEq, Eq)]
pub enum Search {
    /// One more call is needed.
    Call(StoreCall),
    /// The reply at this index is not the one expected.
    Halt(usize),
    /// The room is settled; the replies from this index on are still unread.
    Room(i64, usize),
}

/// Finds the private room of two users, or creates it with both as
/// participants, reading the replies from index `base` on.
pub open spec fn room_search(user1_id: i32, user2_id: i32, replies: Seq<StoreReply>, base: usize) -> Search {
    if replies.len() == base {
        Search::Call(StoreCall::FindPrivateRoom { user1_id, user2_id })
    } else {
        match replies[base as int] {
            StoreReply::RoomId(Some(room_id)) => Search::Room(room_id, (base + 1) as usize),
            StoreReply::RoomId(None) => {
                if replies.len() == base + 1 {
                    Search::Call(StoreCall::InsertPrivateRoom)
                } else if !(replies[base + 1] is RowId) {
                    Search::Halt((base + 1) as usize)
                } else if replies.len() == base + 2 {
                    Search::Call(StoreCall::InsertParticipant { room_id: replies[base + 1]->RowId_0, user_id: user1_id })
                } else if !ran(replies[base + 2]) {
                    Search::Halt((base + 2) as usize)
                } else if replies.len() == base + 3 {
                    Search::Call(StoreCall::InsertParticipant { room_id: replies[base + 1]->RowId_0, user_id: user2_id })
                } else if !ran(replies[base + 3]) {
                    Search::Halt((base + 3) as usize)
                } else {
                    Search::Room(replies[base + 1]->RowId_0, (base + 4) as usize)
                }
            },
            _ => Search::Halt(base),
        }
    }
}

/// Finds or creates the private room of two users inside the transaction
/// that the caller has open.
pub(crate) fn get_or_create_private_room_in_tx(
    user1_id: i32,
    user2_id: i32,
    replies: &Vec<StoreReply>,
    base: usize,
) -> (search: Search)
    requires
        base <= replies.len(),
        base + 4 <= usize::MAX,
    ensures
        search == room_search(user1_id, user2_id, replies@, base),
        search matches Search::Halt(at) ==> at < replies.len(),
        search matches Search::Room(_, next) ==> next <= replies.len(),
{
    if replies.len() == base {
        return Search::Call(StoreCall::FindPrivateRoom { user1_id, user2_id });
    }
    match &replies[base] {
        StoreReply::RoomId(Some(room_id)) => Search::Room(*room_id, base + 1),
        StoreReply::RoomId(None) => {
            if replies.len() == base + 1 {
                return Search::Call(StoreCall::InsertPrivateRoom);
            }
            let created = match &replies[base + 1] {
                StoreReply::RowId(row) => Some(*row),
                _ => None,
            };
            match created {
                None => Search::Halt(base + 1),
                Some(room_id) => {
                    if replies.len() == base + 2 {
                        Search::Call(StoreCall::InsertParticipant { room_id, user_id: user1_id })
                    } else if !has_run(&replies[base + 2]) {
                        Search::Halt(base + 2)
                    } else if replies.len() == base + 3 {
                        Search::Call(StoreCall::InsertParticipant { room_id, user_id: user2_id })
                    } else if !has_run(&replies[base + 3]) {
                        Search::Halt(base + 3)
                    } else {
                        Search::Room(room_id, base + 4)
                    }
                },
            }
        },
        _ => Search::Halt(base),
    }
}

/// The script that finds or creates the private room of two users in one transaction.
pub open spec fn private_room_script(user1_id: i32, user2_id: i32, replies: Seq<StoreReply>) -> Step<i64> {
    if replies.len() == 0 {
        Step::Call(StoreCall::Begin)
    } else if !ran(replies[0]) {
        halted(replies, 0)
    } else {
        match room_search(user1_id, user2_id, replies, 1) {
            Search::Call(call) => Step::Call(call),
            Search::Halt(at) => aborted(replies, at as int),
            Search::Room(room_id, next) => committed(replies, next as int, room_id),
        }
    }
}

/// Yields the private room of the two users, creating it with both as
/// participants if there is none, all in one transaction.
pub fn get_or_create_private_room(user1_id: i32, user2_id: i32, replies: &mut Vec<StoreReply>) -> (step: Step<i64>)
    ensures
        step == private_room_script(user1_id, user2_id, old(replies)@),
        step is Call ==> final(replies)@ == old(replies)@,
{
    if replies.len() == 0 {
        Step::Call(StoreCall::Begin)
    } else if !has_run(&replies[0]) {
        halt(replies, 0)
    } else {
        match get_or_create_private_room_in_tx(user1_id, user2_id, replies, 1) {
            Search::Call(call) => Step::Call(call),
            Search::Halt(at) => abort(replies, at),
            Search::Room(room_id, next) => commit(replies, next, room_id),
        }
    }
}

/// The script that accepts a friend request in one transaction: read the
/// request, which must be pending; mark it accepted; make sure the two users
/// share a private room.
pub open spec fn accept_script(request_id: i32, replies: Seq<StoreReply>) -> Step<Option<i32>> {
    if replies.len() == 0 {
        Step::Call(StoreCall::Begin)
    } else if !ran(replies[0]) {
        halted(replies, 0)
    } else if replies.len() == 1 {
        Step::Call(StoreCall::PendingRequestById(request_id))
    } else if !(replies[1] is Ends) {
        aborted(replies, 1)
    } else if replies.len() == 2 {
        Step::Call(StoreCall::SetRequestStatus { request_id, status: RequestStatus::Accepted })
    } else if !ran(replies[2]) {
        aborted(replies, 2)
    } else {
        match room_search(replies[1]->Ends_0, replies[1]->Ends_1, replies, 3) {
            Search::Call(call) => Step::Call(call),
            Search::Halt(at) => aborted(replies, at as int),
            Search::Room(_, next) => committed(replies, next as int, Some(replies[1]->Ends_0)),
        }
    }
}

/// Accepts a pending friend request and yields its sender. A request that is
/// not pending, or does not exist, makes the lookup fail and with it the
/// operation; nothing is changed then.
pub fn accept_friend_request(request_id: i32, replies: &mut Vec<StoreReply>) -> (step: Step<Option<i32>>)
    ensures
        step == accept_script(request_id, old(replies)@),
        step is Call ==> final(replies)@ == old(replies)@,
{
    if replies.len() == 0 {
        return Step::Call(StoreCall::Begin);
    }
    if !has_run(&replies[0]) {
        return halt(replies, 0);
    }
    if replies.len() == 1 {
        return Step::Call(StoreCall::PendingRequestById(request_id));
    }
    let ends = match &replies[1] {
        StoreReply::Ends(from, to) => Some((*from, *to)),
        _ => None,
    };
    match ends {
        None => abort(replies, 1),
        Some((from_user_id, to_user_id)) => {
            if replies.len() == 2 {
                Step::Call(StoreCall::SetRequestStatus { request_id, status: RequestStatus::Accepted })
            } else if !has_run(&replies[2]) {
                abort(replies, 2)
            } else {
                match get_or_create_private_room_in_tx(from_user_id, to_user_id, replies, 3) {
                    Search::Call(call) => Step::Call(call),
                    Search::Halt(at) => abort(replies, at),
                    Search::Room(_, next) => commit(replies, next, Some(from_user_id)),
                }
            }
        },
    }
}

/// How deleting a friendship ends once its private room is dealt with and
/// `at` replies are in: delete the accepted requests, then commit.
pub open spec fn unfriend_rest(user1_id: i32, user2_id: i32, replies: Seq<StoreReply>, at: int) -> Step<()> {
    if replies.len() == at {
        Step::Call(StoreCall::DeleteAcceptedRequests { user1_id, user2_id })
    } else if !ran(replies[at]) {
        aborted(replies, at)
    } else {
        committed(replies, at + 1, ())
    }
}

/// The script that deletes a friendship in one transaction: the private
/// room of the two, if there is one, and the accepted requests between them.
pub open spec fn unfriend_script(user1_id: i32, user2_id: i32, replies: Seq<StoreReply>) -> Step<()> {
    if replies.len() == 0 {
        Step::Call(StoreCall::Begin)
    } else if !ran(replies[0]) {
        halted(replies, 0)
    } else if replies.len() == 1 {
        Step::Call(StoreCall::FindPrivateRoom { user1_id, user2_id })
    } else {
        match replies[1] {
            StoreReply::RoomId(Some(room_id)) => {
                if replies.len() == 2 {
                    Step::Call(StoreCall::DeleteRoom(room_id))
                } else if !ran(replies[2]) {
                    aborted(replies, 2)
                } else {
                    unfriend_rest(user1_id, user2_id, replies, 3)
                }
            },
            StoreReply::RoomId(None) => unfriend_rest(user1_id, user2_id, replies, 2),
            _ => aborted(replies, 1),
        }
    }
}

fn delete_friend_rest(user1_id: i32, user2_id: i32, replies: &mut Vec<StoreReply>, at: usize) -> (step: Step<()>)
    requires
        at <= old(replies).len(),
        at < usize::MAX,
    ensures
        step == unfriend_rest(user1_id, user2_id, old(replies)@, at as int),
        step is Call ==> final(replies)@ == old(replies)@,
{
    if replies.len() == at {
        Step::Call(StoreCall::DeleteAcceptedRequests { user1_id, user2_id })
    } else if !has_run(&replies[at]) {
        abort(replies, at)
    } else {
        commit(replies, at + 1, ())
    }
}

/// Deletes the friendship of two users: their private room with its
/// messages, and the accepted requests between them. Nothing happens if
/// they are not friends.
pub fn delete_friend(user1_id: i32, user2_id: i32, replies: &mut Vec<StoreReply>) -> (step: Step<()>)
    ensures
        step == unfriend_script(user1_id, user2_id, old(replies)@),
        step is Call ==> final(replies)@ == old(replies)@,
{
    if replies.len() == 0 {
        return Step::Call(StoreCall::Begin);
    }
    if !has_run(&replies[0]) {
        return halt(replies, 0);
    }
    if replies.len() == 1 {
        return Step::Call(StoreCall::FindPrivateRoom { user1_id, user2_id });
    }
    let found = match &replies[1] {
        StoreReply::RoomId(found) => Some(*found),
        _ => None,
    };
    match found {
        None => abort(replies, 1),
        Some(Some(room_id)) => {
            if replies.len() == 2 {
                Step::Call(StoreCall::DeleteRoom(room_id))
            } else if !has_run(&replies[2]) {
                abort(replies, 2)
            } else {
                delete_friend_rest(user1_id, user2_id, replies, 3)
            }
        },
        Some(None) => delete_friend_rest(user1_id, user2_id, replies, 2),
    }
}

/// Whether two calls ask for the same thing. Lists of identifiers are
/// compared by what they hold.
pub open spec fn same_call(left: StoreCall, right: StoreCall) -> bool {
    match (left, right) {
        (StoreCall::UsersByIds(a), StoreCall::UsersByIds(b)) => a@ == b@,
        _ => left == right,
    }
}

/// Whether `step`, which yields a list, is the step that `plan` describes.
pub open spec fn lists<T>(step: Step<Vec<T>>, plan: Step<Seq<T>>) -> bool {
    match (step, plan) {
        (Step::Call(call), Step::Call(planned)) => same_call(call, planned),
        (Step::Done(Ok(list)), Step::Done(Ok(planned))) => list@ == planned,
        (Step::Done(Err(error)), Step::Done(Err(planned))) => error == planned,
        _ => false,
    }
}

/// The script that lists a user's friends from one snapshot: the other end
/// of each accepted request, then the users with those identifiers. With no
/// accepted request there is nothing to look up.
pub open spec fn friends_script(user_id: i32, replies: Seq<StoreReply>) -> Step<Seq<User>> {
    if replies.len() == 0 {
        Step::Call(StoreCall::Begin)
    } else if !ran(replies[0]) {
        halted(replies, 0)
    } else if replies.len() == 1 {
        Step::Call(StoreCall::FriendIdsOf(user_id))
    } else if !(replies[1] is Ids) {
        aborted(replies, 1)
    } else if replies[1]->Ids_0@.len() == 0 {
        committed(replies, 2, Seq::<User>::empty())
    } else if replies.len() == 2 {
        Step::Call(StoreCall::UsersByIds(replies[1]->Ids_0))
    } else if !(replies[2] is Users) {
        aborted(replies, 2)
    } else {
        committed(replies, 3, replies[2]->Users_0@)
    }
}

/// Lists the friends of `user_id`.
pub fn get_friends(user_id: i32, replies: &mut Vec<StoreReply>) -> (step: Step<Vec<User>>)
    ensures
        lists(step, friends_script(user_id, old(replies)@)),
        step is Call ==> final(replies)@ == old(replies)@,
{
    if replies.len() == 0 {
        return Step::Call(StoreCall::Begin);
    }
    if !has_run(&replies[0]) {
        return halt(replies, 0);
    }
    if replies.len() == 1 {
        return Step::Call(StoreCall::FriendIdsOf(user_id));
    }
    let friend_ids = match &replies[1] {
        StoreReply::Ids(ids) => Some(ids.clone()),
        _ => None,
    };
    match friend_ids {
        None => abort(replies, 1),
        Some(ids) => {
            if ids.len() == 0 {
                commit(replies, 2, Vec::new())
            } else if replies.len() == 2 {
                Step::Call(StoreCall::UsersByIds(ids))
            } else if !(matches!(&replies[2], StoreReply::Users(_))) {
                abort(replies, 2)
            } else if replies.len() == 3 {
                Step::Call(StoreCall::Commit)
            } else if !has_run(&replies[3]) {
                abort(replies, 3)
            } else if replies.len() == 4 {
                replies.pop();
                match replies.pop() {
                    Some(StoreReply::Users(users)) => Step::Done(Ok(users)),
                    _ => Step::Done(Err(StoreError::Unexpected)),
                }
            } else {
                Step::Done(Err(StoreError::Unexpected))
            }
        },
    }
}

/// The first index from `from` on, below `limit` and within the replies,
/// whose reply is not a list of names; `limit` or the number of replies if
/// there is none.
pub open spec fn named_through(replies: Seq<StoreReply>, from: int, limit: int) -> int
    decreases limit - from,
{
    if from >= limit || from >= replies.len() || !(replies[from] is Names) {
        from
    } else {
        named_through(replies, from + 1, limit)
    }
}

/// A user's rooms, put together from the room rows and, for the row at
/// index `i`, the participants named in reply `2 + i`.
pub open spec fn rooms_from(rows: Seq<RoomRow>, replies: Seq<StoreReply>) -> Seq<RoomInfo> {
    Seq::new(
        rows.len(),
        |i: int| RoomInfo { room_id: rows[i].room_id, name: rows[i].name, participants: replies[2 + i]->Names_0 },
    )
}

/// All rooms, put together from the room rows and, for the row at index
/// `i`, the participants named in reply `2 + i`.
pub open spec fn admin_rooms_from(rows: Seq<AdminRoomRow>, replies: Seq<StoreReply>) -> Seq<AdminRoomInfo> {
    Seq::new(
        rows.len(),
        |i: int|
            AdminRoomInfo {
                id: rows[i].id,
                name: rows[i].name,
                is_private: rows[i].is_private,
                created_at: rows[i].created_at,
                participants: replies[2 + i]->Names_0,
            },
    )
}

/// The script that lists the rooms of a user from one snapshot: the room
/// rows, then for each room in turn its participants sorted by name.
pub open spec fn rooms_script(user_id: i32, replies: Seq<StoreReply>) -> Step<Seq<RoomInfo>> {
    if replies.len() == 0 {
        Step::Call(StoreCall::Begin)
    } else if !ran(replies[0]) {
        halted(replies, 0)
    } else if replies.len() == 1 {
        Step::Call(StoreCall::RoomsOf(user_id))
    } else if !(replies[1] is Rooms) {
        aborted(replies, 1)
    } else {
        let rows = replies[1]->Rooms_0@;
        let reached = named_through(replies, 2, (2 + rows.len()) as int);
        if reached < 2 + rows.len() {
            if reached == replies.len() {
                Step::Call(StoreCall::ParticipantsOf { room_id: rows[reached - 2].room_id, by_name: true })
            } else {
                aborted(replies, reached)
            }
        } else {
            committed(replies, reached, rooms_from(rows, replies))
        }
    }
}

/// The script that lists every room from one snapshot: the room rows, then
/// for each room in turn its participants.
pub open spec fn admin_rooms_script(replies: Seq<StoreReply>) -> Step<Seq<AdminRoomInfo>> {
    if replies.len() == 0 {
        Step::Call(StoreCall::Begin)
    } else if !ran(replies[0]) {
        halted(replies, 0)
    } else if replies.len() == 1 {
        Step::Call(StoreCall::AllRooms)
    } else if !(replies[1] is AdminRooms) {
        aborted(replies, 1)
    } else {
        let rows = replies[1]->AdminRooms_0@;
        let reached = named_through(replies, 2, (2 + rows.len()) as int);
        if reached < 2 + rows.len() {
            if reached == replies.len() {
                Step::Call(StoreCall::ParticipantsOf { room_id: rows[reached - 2].id, by_name: false })
            } else {
                aborted(replies, reached)
            }
        } else {
            committed(replies, reached, admin_rooms_from(rows, replies))
        }
    }
}

/// Finds how far the lists of names reach that answer the participant
/// queries for `count` rooms.
fn names_reach(replies: &Vec<StoreReply>, count: usize) -> (reached: usize)
    requires
        replies.len() >= 2,
    ensures
        reached == named_through(replies@, 2, 2 + count),
        2 <= reached <= replies.len(),
        reached - 2 <= count,
        forall|i: int| 2 <= i < reached ==> (#[trigger] replies@[i]) is Names,
{
    let mut reached: usize = 2;
    while reached < replies.len() && reached - 2 < count && matches!(&replies[reached], StoreReply::Names(_))
        invariant
            2 <= reached <= replies.len(),
            reached - 2 <= count,
            named_through(replies@, 2, 2 + count) == named_through(replies@, reached as int, 2 + count),
            forall|i: int| 2 <= i < reached ==> (#[trigger] replies@[i]) is Names,
        decreases replies.len() - reached,
    {
        reached = reached + 1;
    }
    reached
}

/// Takes the last `count` replies, all lists of names, off the replies.
fn gather(replies: &mut Vec<StoreReply>, count: usize) -> (parts: Vec<Vec<String>>)
    requires
        count <= old(replies).len(),
        forall|i: int| old(replies).len() - count <= i < old(replies).len() ==> (#[trigger] old(replies)@[i]) is Names,
    ensures
        final(replies)@ == old(replies)@.subrange(0, old(replies).len() - count),
        parts@.len() == count,
        forall|j: int| 0 <= j < count ==> #[trigger] parts@[j] == old(replies)@[old(replies).len() - count + j]->Names_0,
{
    let mut parts: Vec<Vec<String>> = Vec::new();
    while parts.len() < count
        invariant
            parts@.len() <= count,
            count <= old(replies)@.len(),
            forall|i: int| old(replies)@.len() - count <= i < old(replies)@.len() ==> (#[trigger] old(replies)@[i]) is Names,
            replies@ == old(replies)@.subrange(0, old(replies)@.len() - parts@.len()),
            forall|j: int| 0 <= j < parts@.len() ==> #[trigger] parts@[j] == old(replies)@[old(replies)@.len() - parts@.len() + j]->Names_0,
        decreases count - parts@.len(),
    {
        let ghost before = parts@;
        match replies.pop() {
            Some(StoreReply::Names(names)) => {
                parts.insert(0, names);
                assert(names == old(replies)@[old(replies)@.len() - parts@.len()]->Names_0);
                assert forall|j: int| 0 <= j < parts@.len() implies #[trigger] parts@[j] == old(replies)@[old(
                    replies,
                )@.len() - parts@.len() + j]->Names_0 by {
                    if j > 0 {
                        assert(parts@[j] == before[j - 1]);
                    }
                }
            },
            _ => {
                assert(false);
            },
        }
    }
    parts
}

fn seat_rooms(rows: Vec<RoomRow>, parts: Vec<Vec<String>>) -> (rooms: Vec<RoomInfo>)
    requires
        rows.len() == parts.len(),
    ensures
        rooms@.len() == rows@.len(),
        forall|i: int| 0 <= i < rows@.len() ==> #[trigger] rooms@[i] == (RoomInfo {
            room_id: rows@[i].room_id,
            name: rows@[i].name,
            participants: parts@[i],
        }),
{
    let mut rows = rows;
    let mut parts = parts;
    let ghost all_rows = rows@;
    let ghost all_parts = parts@;
    let mut rooms: Vec<RoomInfo> = Vec::new();
    while rows.len() > 0
        invariant
            rows@.len() == parts@.len(),
            rows@ == all_rows.subrange(0, rows@.len() as int),
            parts@ == all_parts.subrange(0, rows@.len() as int),
            all_rows.len() == all_parts.len(),
            rooms@.len() == all_rows.len() - rows@.len(),
            forall|i: int| 0 <= i < rooms@.len() ==> #[trigger] rooms@[i] == (RoomInfo {
                room_id: all_rows[rows@.len() + i].room_id,
                name: all_rows[rows@.len() + i].name,
                participants: all_parts[rows@.len() + i],
            }),
        decreases rows@.len(),
    {
        let ghost before = rooms@;
        let row = rows.pop();
        let participants = parts.pop();
        match (row, participants) {
            (Some(row), Some(participants)) => {
                rooms.insert(0, RoomInfo { room_id: row.room_id, name: row.name, participants });
                assert forall|i: int| 0 <= i < rooms@.len() implies #[trigger] rooms@[i] == (RoomInfo {
                    room_id: all_rows[rows@.len() + i].room_id,
                    name: all_rows[rows@.len() + i].name,
                    participants: all_parts[rows@.len() + i],
                }) by {
                    if i > 0 {
                        assert(rooms@[i] == before[i - 1]);
                    }
                }
            },
            _ => {
                assert(false);
            },
        }
    }
    rooms
}

fn seat_admin_rooms(rows: Vec<AdminRoomRow>, parts: Vec<Vec<String>>) -> (rooms: Vec<AdminRoomInfo>)
    requires
        rows.len() == parts.len(),
    ensures
        rooms@.len() == rows@.len(),
        forall|i: int| 0 <= i < rows@.len() ==> #[trigger] rooms@[i] == (AdminRoomInfo {
            id: rows@[i].id,
            name: rows@[i].name,
            is_private: rows@[i].is_private,
            created_at: rows@[i].created_at,
            participants: parts@[i],
        }),
{
    let mut rows = rows;
    let mut parts = parts;
    let ghost all_rows = rows@;
    let ghost all_parts = parts@;
    let mut rooms: Vec<AdminRoomInfo> = Vec::new();
    while rows.len() > 0
        invariant
            rows@.len() == parts@.len(),
            rows@ == all_rows.subrange(0, rows@.len() as int),
            parts@ == all_parts.subrange(0, rows@.len() as int),
            all_rows.len() == all_parts.len(),
            rooms@.len() == all_rows.len() - rows@.len(),
            forall|i: int| 0 <= i < rooms@.len() ==> #[trigger] rooms@[i] == (AdminRoomInfo {
                id: all_rows[rows@.len() + i].id,
                name: all_rows[rows@.len() + i].name,
                is_private: all_rows[rows@.len() + i].is_private,
                created_at: all_rows[rows@.len() + i].created_at,
                participants: all_parts[rows@.len() + i],
            }),
        decreases rows@.len(),
    {
        let ghost before = rooms@;
        let row = rows.pop();
        let participants = parts.pop();
        match (row, participants) {
            (Some(row), Some(participants)) => {
                rooms.insert(
                    0,
                    AdminRoomInfo {
                        id: row.id,
                        name: row.name,
                        is_private: row.is_private,
                        created_at: row.created_at,
                        participants,
                    },
                );
                assert forall|i: int| 0 <= i < rooms@.len() implies #[trigger] rooms@[i] == (AdminRoomInfo {
                    id: all_rows[rows@.len() + i].id,
                    name: all_rows[rows@.len() + i].name,
                    is_private: all_rows[rows@.len() + i].is_private,
                    created_at: all_rows[rows@.len() + i].created_at,
                    participants: all_parts[rows@.len() + i],
                }) by {
                    if i > 0 {
                        assert(rooms@[i] == before[i - 1]);
                    }
                }
            },
            _ => {
                assert(false);
            },
        }
    }
    rooms
}

/// Lists the rooms that `user_id` takes part in, newest first, each with
/// the names of its participants in alphabetical order.
pub fn get_user_rooms(user_id: i32, replies: &mut Vec<StoreReply>) -> (step: Step<Vec<RoomInfo>>)
    ensures
        lists(step, rooms_script(user_id, old(replies)@)),
        step is Call ==> final(replies)@ == old(replies)@,
{
    if replies.len() == 0 {
        return Step::Call(StoreCall::Begin);
    }
    if !has_run(&replies[0]) {
        return halt(replies, 0);
    }
    if replies.len() == 1 {
        return Step::Call(StoreCall::RoomsOf(user_id));
    }
    let next_room = match &replies[1] {
        StoreReply::Rooms(rows) => {
            let reached = names_reach(replies, rows.len());
            if reached - 2 < rows.len() {
                Some((reached, Some(rows[reached - 2].room_id)))
            } else {
                Some((reached, None))
            }
        },
        _ => None,
    };
    match next_room {
        None => abort(replies, 1),
        Some((reached, Some(room_id))) => {
            if reached == replies.len() {
                Step::Call(StoreCall::ParticipantsOf { room_id, by_name: true })
            } else {
                abort(replies, reached)
            }
        },
        Some((reached, None)) => {
            if replies.len() == reached {
                Step::Call(StoreCall::Commit)
            } else if !has_run(&replies[reached]) {
                abort(replies, reached)
            } else if replies.len() == reached + 1 {
                replies.pop();
                let parts = gather(replies, reached - 2);
                match replies.pop() {
                    Some(StoreReply::Rooms(rows)) => {
                        let rooms = seat_rooms(rows, parts);
                        assert(rooms@ =~= rooms_from(rows@, old(replies)@));
                        Step::Done(Ok(rooms))
                    },
                    _ => Step::Done(Err(StoreError::Unexpected)),
                }
            } else {
                Step::Done(Err(StoreError::Unexpected))
            }
        },
    }
}

/// Lists every room, newest first, each with the names of its participants.
pub fn get_all_rooms(replies: &mut Vec<StoreReply>) -> (step: Step<Vec<AdminRoomInfo>>)
    ensures
        lists(step, admin_rooms_script(old(replies)@)),
        step is Call ==> final(replies)@ == old(replies)@,
{
    if replies.len() == 0 {
        return Step::Call(StoreCall::Begin);
    }
    if !has_run(&replies[0]) {
        return halt(replies, 0);
    }
    if replies.len() == 1 {
        return Step::Call(StoreCall::AllRooms);
    }
    let next_room = match &replies[1] {
        StoreReply::AdminRooms(rows) => {
            let reached = names_reach(replies, rows.len());
            if reached - 2 < rows.len() {
                Some((reached, Some(rows[reached - 2].id)))
            } else {
                Some((reached, None))
            }
        },
        _ => None,
    };
    match next_room {
        None => abort(replies, 1),
        Some((reached, Some(room_id))) => {
            if reached == replies.len() {
                Step::Call(StoreCall::ParticipantsOf { room_id, by_name: false })
            } else {
                abort(replies, reached)
            }
        },
        Some((reached, None)) => {
            if replies.len() == reached {
                Step::Call(StoreCall::Commit)
            } else if !has_run(&replies[reached]) {
                abort(replies, reached)
            } else if replies.len() == reached + 1 {
                replies.pop();
                let parts = gather(replies, reached - 2);
                match replies.pop() {
                    Some(StoreReply::AdminRooms(rows)) => {
                        let rooms = seat_admin_rooms(rows, parts);
                        assert(rooms@ =~= admin_rooms_from(rows@, old(replies)@));
                        Step::Done(Ok(rooms))
                    },
                    _ => Step::Done(Err(StoreError::Unexpected)),
                }
            } else {
                Step::Done(Err(StoreError::Unexpected))
            }
        },
    }
}

/// One operation on durable storage, by name and arguments.
#[derive(Debug, PartialEq, Eq)]
#[allow(inconsistent_fields)]
pub enum DbRequest {
    InitDb,
    CreateAuthToken { user_id: i32, token: String },
    GetUserByToken(String),
    CreateUser { username: String, password: String, role: Option<String> },
    GetUserByUsername(String),
    GetUserById(i32),
    GetAllUsers,
    DeleteUser(i32),
    SetUserRole { username: String, role: String },
    GetAllRooms,
    DeleteRoom(i64),
    CreateMessage { room_id: i64, sender_username: String, content: String },
    GetMessagesForRoom(i64),
    GetUserRooms(i32),
    GetOrCreatePrivateRoom { user1_id: i32, user2_id: i32 },
    SendFriendRequest { from_user_id: i32, to_user_id: i32 },
    GetFriendRequests(i32),
    AcceptFriendRequest(i32),
    RejectFriendRequest(i32),
    GetFriends(i32),
    DeleteFriend { user1_id: i32, user2_id: i32 },
    SaveConfig(Config),
}

/// The result of a storage operation that succeeded.
#[derive(Debug, PartialEq, Eq)]
pub enum DbAnswer {
    Unit,
    Token(String),
    User(User),
    Users(Vec<User>),
    Changed(usize),
    AdminRooms(Vec<AdminRoomInfo>),
    Message(ChatMessage),
    Messages(Vec<ChatMessage>),
    Rooms(Vec<RoomInfo>),
    RoomId(i64),
    Request(FriendRequestInfo),
    Requests(Vec<FriendRequestInfo>),
    Sender(Option<i32>),
}

/// A step of a script whose result is wrapped by `tag`.
pub open spec fn tagged<T>(step: Step<T>, tag: spec_fn(T) -> DbAnswer) -> Step<DbAnswer> {
    match step {
        Step::Call(call) => Step::Call(call),
        Step::Done(Ok(value)) => Step::Done(Ok(tag(value))),
        Step::Done(Err(error)) => Step::Done(Err(error)),
    }
}

/// A step with its result, if it has one, read by `pick`.
pub open spec fn untagged<T>(step: Step<DbAnswer>, pick: spec_fn(DbAnswer) -> T) -> Step<T> {
    match step {
        Step::Call(call) => Step::Call(call),
        Step::Done(Ok(answer)) => Step::Done(Ok(pick(answer))),
        Step::Done(Err(error)) => Step::Done(Err(error)),
    }
}

/// Whether `step` is the step that the script of `request` takes after `replies`.
pub open spec fn advances(request: DbRequest, replies: Seq<StoreReply>, step: Step<DbAnswer>) -> bool {
    match request {
        DbRequest::InitDb => step == tagged(schema_script(replies), |v: ()| DbAnswer::Unit),
        DbRequest::CreateAuthToken { user_id, token } => step == tagged(
            token_script(user_id, token, replies),
            |v: String| DbAnswer::Token(v),
        ),
        DbRequest::GetUserByToken(token) => step == tagged(
            answer(StoreCall::UserByToken(token), replies, |r: StoreReply| user_in(r)),
            |v: User| DbAnswer::User(v),
        ),
        DbRequest::CreateUser { username, password, role } => {
            &&& user_creation(username, password@, role, replies, untagged(step, |a: DbAnswer| ()))
            &&& step matches Step::Done(Ok(answer)) ==> answer is Unit
        },
        DbRequest::GetUserByUsername(username) => step == tagged(
            answer(StoreCall::UserByName(username), replies, |r: StoreReply| user_in(r)),
            |v: User| DbAnswer::User(v),
        ),
        DbRequest::GetUserById(user_id) => step == tagged(
            answer(StoreCall::UserById(user_id), replies, |r: StoreReply| user_in(r)),
            |v: User| DbAnswer::User(v),
        ),
        DbRequest::GetAllUsers => step == tagged(
            answer(StoreCall::AllUsers, replies, |r: StoreReply| users_in(r)),
            |v: Vec<User>| DbAnswer::Users(v),
        ),
        DbRequest::DeleteUser(user_id) => step == tagged(
            answer(StoreCall::DeleteUser(user_id), replies, |r: StoreReply| changed_in(r)),
            |v: usize| DbAnswer::Changed(v),
        ),
        DbRequest::SetUserRole { username, role } => step == tagged(
            answer(StoreCall::SetUserRole { username, role }, replies, |r: StoreReply| changed_in(r)),
            |v: usize| DbAnswer::Changed(v),
        ),
        DbRequest::GetAllRooms => {
            &&& lists(untagged(step, |a: DbAnswer| a->AdminRooms_0), admin_rooms_script(replies))
            &&& step matches Step::Done(Ok(answer)) ==> answer is AdminRooms
        },
        DbRequest::DeleteRoom(room_id) => step == tagged(
            answer(StoreCall::DeleteRoom(room_id), replies, |r: StoreReply| changed_in(r)),
            |v: usize| DbAnswer::Changed(v),
        ),
        DbRequest::CreateMessage { room_id, sender_username, content } => step == tagged(
            message_script(room_id, sender_username, content, replies),
            |v: ChatMessage| DbAnswer::Message(v),
        ),
        DbRequest::GetMessagesForRoom(room_id) => step == tagged(
            answer(StoreCall::MessagesOf(room_id), replies, |r: StoreReply| messages_in(r)),
            |v: Vec<ChatMessage>| DbAnswer::Messages(v),
        ),
        DbRequest::GetUserRooms(user_id) => {
            &&& lists(untagged(step, |a: DbAnswer| a->Rooms_0), rooms_script(user_id, replies))
            &&& step matches Step::Done(Ok(answer)) ==> answer is Rooms
        },
        DbRequest::GetOrCreatePrivateRoom { user1_id, user2_id } => step == tagged(
            private_room_script(user1_id, user2_id, replies),
            |v: i64| DbAnswer::RoomId(v),
        ),
        DbRequest::SendFriendRequest { from_user_id, to_user_id } => step == tagged(
            request_script(from_user_id, to_user_id, replies),
            |v: FriendRequestInfo| DbAnswer::Request(v),
        ),
        DbRequest::GetFriendRequests(user_id) => step == tagged(
            answer(StoreCall::PendingRequestsFor(user_id), replies, |r: StoreReply| requests_in(r)),
            |v: Vec<FriendRequestInfo>| DbAnswer::Requests(v),
        ),
        DbRequest::AcceptFriendRequest(request_id) => step == tagged(
            accept_script(request_id, replies),
            |v: Option<i32>| DbAnswer::Sender(v),
        ),
        DbRequest::RejectFriendRequest(request_id) => step == tagged(
            reject_script(request_id, replies),
            |v: Option<i32>| DbAnswer::Sender(v),
        ),
        DbRequest::GetFriends(user_id) => {
            &&& lists(untagged(step, |a: DbAnswer| a->Users_0), friends_script(user_id, replies))
            &&& step matches Step::Done(Ok(answer)) ==> answer is Users
        },
        DbRequest::DeleteFriend { user1_id, user2_id } => step == tagged(
            unfriend_script(user1_id, user2_id, replies),
            |v: ()| DbAnswer::Unit,
        ),
        DbRequest::SaveConfig(config) => step == tagged(
            answer(StoreCall::WriteConfig(config), replies, |r: StoreReply| done_in(r)),
            |v: ()| DbAnswer::Unit,
        ),
    }
}

fn copy_of(text: &Option<String>) -> (copy: Option<String>)
    ensures
        copy == *text,
{
    match text {
        Some(text) => Some(text.clone()),
        None => None,
    }
}

/// Takes the script of `request` one step on: the next call to perform, or
/// the operation's result.
pub fn step(request: &DbRequest, replies: &mut Vec<StoreReply>) -> (step: Step<DbAnswer>)
    ensures
        advances(*request, old(replies)@, step),
        step is Call ==> final(replies)@ == old(replies)@,
{
    match request {
        DbRequest::InitDb => match init_db(replies) {
            Step::Call(call) => Step::Call(call),
            Step::Done(Ok(_)) => Step::Done(Ok(DbAnswer::Unit)),
            Step::Done(Err(error)) => Step::Done(Err(error)),
        },
        DbRequest::CreateAuthToken { user_id, token } => match create_auth_token(*user_id, token.clone(), replies) {
            Step::Call(call) => Step::Call(call),
            Step::Done(Ok(token)) => Step::Done(Ok(DbAnswer::Token(token))),
            Step::Done(Err(error)) => Step::Done(Err(error)),
        },
        DbRequest::GetUserByToken(token) => match get_user_by_token(token.clone(), replies) {
            Step::Call(call) => Step::Call(call),
            Step::Done(Ok(user)) => Step::Done(Ok(DbAnswer::User(user))),
            Step::Done(Err(error)) => Step::Done(Err(error)),
        },
        DbRequest::CreateUser { username, password, role } => match create_user(
            username.clone(),
            password.clone(),
            copy_of(role),
            replies,
        ) {
            Step::Call(call) => Step::Call(call),
            Step::Done(Ok(_)) => Step::Done(Ok(DbAnswer::Unit)),
            Step::Done(Err(error)) => Step::Done(Err(error)),
        },
        DbRequest::GetUserByUsername(username) => match get_user_by_username(username.clone(), replies) {
            Step::Call(call) => Step::Call(call),
            Step::Done(Ok(user)) => Step::Done(Ok(DbAnswer::User(user))),
            Step::Done(Err(error)) => Step::Done(Err(error)),
        },
        DbRequest::GetUserById(user_id) => match get_user_by_id(*user_id, replies) {
            Step::Call(call) => Step::Call(call),
            Step::Done(Ok(user)) => Step::Done(Ok(DbAnswer::User(user))),
            Step::Done(Err(error)) => Step::Done(Err(error)),
        },
        DbRequest::GetAllUsers => match get_all_users(replies) {
            Step::Call(call) => Step::Call(call),
            Step::Done(Ok(users)) => Step::Done(Ok(DbAnswer::Users(users))),
            Step::Done(Err(error)) => Step::Done(Err(error)),
        },
        DbRequest::DeleteUser(user_id) => match delete_user(*user_id, replies) {
            Step::Call(call) => Step::Call(call),
            Step::Done(Ok(rows)) => Step::Done(Ok(DbAnswer::Changed(rows))),
            Step::Done(Err(error)) => Step::Done(Err(error)),
        },
        DbRequest::SetUserRole { username, role } => match set_user_role(username.clone(), role.clone(), replies) {
            Step::Call(call) => Step::Call(call),
            Step::Done(Ok(rows)) => Step::Done(Ok(DbAnswer::Changed(rows))),
            Step::Done(Err(error)) => Step::Done(Err(error)),
        },
        DbRequest::GetAllRooms => match get_all_rooms(replies) {
            Step::Call(call) => Step::Call(call),
            Step::Done(Ok(rooms)) => Step::Done(Ok(DbAnswer::AdminRooms(rooms))),
            Step::Done(Err(error)) => Step::Done(Err(error)),
        },
        DbRequest::DeleteRoom(room_id) => match delete_room(*room_id, replies) {
            Step::Call(call) => Step::Call(call),
            Step::Done(Ok(rows)) => Step::Done(Ok(DbAnswer::Changed(rows))),
            Step::Done(Err(error)) => Step::Done(Err(error)),
        },
        DbRequest::CreateMessage { room_id, sender_username, content } => match create_message(
            *room_id,
            sender_username.clone(),
            content.clone(),
            replies,
        ) {
            Step::Call(call) => Step::Call(call),
            Step::Done(Ok(message)) => Step::Done(Ok(DbAnswer::Message(message))),
            Step::Done(Err(error)) => Step::Done(Err(error)),
        },
        DbRequest::GetMessagesForRoom(room_id) => match get_messages_for_room(*room_id, replies) {
            Step::Call(call) => Step::Call(call),
            Step::Done(Ok(messages)) => Step::Done(Ok(DbAnswer::Messages(messages))),
            Step::Done(Err(error)) => Step::Done(Err(error)),
        },
        DbRequest::GetUserRooms(user_id) => match get_user_rooms(*user_id, replies) {
            Step::Call(call) => Step::Call(call),
            Step::Done(Ok(rooms)) => Step::Done(Ok(DbAnswer::Rooms(rooms))),
            Step::Done(Err(error)) => Step::Done(Err(error)),
        },
        DbRequest::GetOrCreatePrivateRoom { user1_id, user2_id } => match get_or_create_private_room(
            *user1_id,
            *user2_id,
            replies,
        ) {
            Step::Call(call) => Step::Call(call),
            Step::Done(Ok(room_id)) => Step::Done(Ok(DbAnswer::RoomId(room_id))),
            Step::Done(Err(error)) => Step::Done(Err(error)),
        },
        DbRequest::SendFriendRequest { from_user_id, to_user_id } => match send_friend_request(
            *from_user_id,
            *to_user_id,
            replies,
        ) {
            Step::Call(call) => Step::Call(call),
            Step::Done(Ok(request)) => Step::Done(Ok(DbAnswer::Request(request))),
            Step::Done(Err(error)) => Step::Done(Err(error)),
        },
        DbRequest::GetFriendRequests(user_id) => match get_friend_requests(*user_id, replies) {
            Step::Call(call) => Step::Call(call),
            Step::Done(Ok(requests)) => Step::Done(Ok(DbAnswer::Requests(requests))),
            Step::Done(Err(error)) => Step::Done(Err(error)),
        },
        DbRequest::AcceptFriendRequest(request_id) => match accept_friend_request(*request_id, replies) {
            Step::Call(call) => Step::Call(call),
            Step::Done(Ok(sender)) => Step::Done(Ok(DbAnswer::Sender(sender))),
            Step::Done(Err(error)) => Step::Done(Err(error)),
        },
        DbRequest::RejectFriendRequest(request_id) => match reject_friend_request(*request_id, replies) {
            Step::Call(call) => Step::Call(call),
            Step::Done(Ok(sender)) => Step::Done(Ok(DbAnswer::Sender(sender))),
            Step::Done(Err(error)) => Step::Done(Err(error)),
        },
        DbRequest::GetFriends(user_id) => match get_friends(*user_id, replies) {
            Step::Call(call) => Step::Call(call),
            Step::Done(Ok(users)) => Step::Done(Ok(DbAnswer::Users(users))),
            Step::Done(Err(error)) => Step::Done(Err(error)),
        },
        DbRequest::DeleteFriend { user1_id, user2_id } => match delete_friend(*user1_id, *user2_id, replies) {
            Step::Call(call) => Step::Call(call),
            Step::Done(Ok(_)) => Step::Done(Ok(DbAnswer::Unit)),
            Step::Done(Err(error)) => Step::Done(Err(error)),
        },
        DbRequest::SaveConfig(config) => match save_config(*config, replies) {
            Step::Call(call) => Step::Call(call),
            Step::Done(Ok(_)) => Step::Done(Ok(DbAnswer::Unit)),
            Step::Done(Err(error)) => Step::Done(Err(error)),
        },
    }
}

} // verus!
