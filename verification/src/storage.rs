//! The interface to durable storage, as data.
//!
//! The core never touches the database. It names one primitive operation at a
//! time as a [`StoreCall`]; the host performs it and hands back a
//! [`StoreReply`]. A multi-step operation is a script: a function from the
//! replies received so far to the next call, or to the final result.

use crate::records::{ChatMessage, Config, FriendRequestInfo, User};
use vstd::prelude::*;

verus! {

/// The tables of the durable schema, in the order they are created.
#[derive(Debug, Clone, Copy, PartialEq, Eq, Structural)]
pub enum Table {
    Users,
    Rooms,
    RoomParticipants,
    Messages,
    FriendRequests,
    AuthTokens,
}

/// The states of a friend request. `Accepted` and `Rejected` are final.
#[derive(Debug, Clone, Copy, PartialEq, Eq, Structural)]
pub enum RequestStatus {
    Pending,
    Accepted,
    Rejected,
}

impl RequestStatus {
    /// The text that storage keeps for this status.
    pub open spec fn label(self) -> Seq<char> {
        match self {
            RequestStatus::Pending => "pending"@,
            RequestStatus::Accepted => "accepted"@,
            RequestStatus::Rejected => "rejected"@,
        }
    }

    /// The text that storage keeps for this status.
    pub fn name(self) -> (name: &'static str)
        ensures
            name@ == self.label(),
    {
        match self {
            RequestStatus::Pending => "pending",
            RequestStatus::Accepted => "accepted",
            RequestStatus::Rejected => "rejected",
        }
    }
}

/// One primitive operation on durable storage.
///
/// Each call stands for a single statement. Calls between `Begin` and
/// `Commit` form one atomic transaction. A script that fails inside a
/// transaction calls `Rollback` before it ends.
#[derive(Debug, PartialEq, Eq)]
pub enum StoreCall {
    /// Switch on write-ahead logging and foreign keys.
    Configure,
    /// Create the table unless it exists.
    CreateTable(Table),
    Begin,
    Commit,
    /// Undo what the open transaction did, and close it.
    Rollback,
    /// How many users exist.
    CountUsers,
    InsertUser { username: String, password_hash: String, role: String },
    UserByName(String),
    UserById(i32),
    /// The user who owns the token.
    UserByToken(String),
    AllUsers,
    /// The users with one of these identifiers.
    UsersByIds(Vec<i32>),
    DeleteUser(i32),
    SetUserRole { username: String, role: String },
    InsertToken { token: String, user_id: i32 },
    /// A private room in which both users take part.
    FindPrivateRoom { user1_id: i32, user2_id: i32 },
    /// Create a private room without participants; replies with its identifier.
    InsertPrivateRoom,
    InsertParticipant { room_id: i64, user_id: i32 },
    /// Delete the room, and with it its participant rows and its messages.
    DeleteRoom(i64),
    /// The rooms the user takes part in, newest first.
    RoomsOf(i32),
    /// Every room, newest first.
    AllRooms,
    /// The names of the room's participants, sorted by name if `by_name`.
    ParticipantsOf { room_id: i64, by_name: bool },
    /// Store a message; replies with its identifier.
    InsertMessage { room_id: i64, sender_username: String, content: String },
    MessageById(i64),
    /// The room's messages, oldest first.
    MessagesOf(i64),
    /// Create a pending request unless a request from `from_user_id` to
    /// `to_user_id` exists, whatever its status.
    InsertRequestIfAbsent { from_user_id: i32, to_user_id: i32 },
    RequestByPair { from_user_id: i32, to_user_id: i32 },
    /// The two ends of the request, provided that it is pending.
    PendingRequestById(i32),
    /// Who sent the request, if it exists.
    RequestSender(i32),
    /// Give the request this status, provided that it is pending. A request
    /// that is accepted or rejected keeps its status.
    SetRequestStatus { request_id: i32, status: RequestStatus },
    /// The pending requests addressed to the user.
    PendingRequestsFor(i32),
    /// The other end of each accepted request that the user is one end of.
    FriendIdsOf(i32),
    /// Delete the accepted requests between the two users, in either direction.
    DeleteAcceptedRequests { user1_id: i32, user2_id: i32 },
    /// Write the configuration file.
    WriteConfig(Config),
}

/// A room row without its participants.
#[derive(Debug, PartialEq, Eq)]
pub struct RoomRow {
    pub room_id: i64,
    pub name: Option<String>,
}

/// A room row as an administrator sees it, without its participants.
#[derive(Debug, PartialEq, Eq)]
pub struct AdminRoomRow {
    pub id: i64,
    pub name: Option<String>,
    pub is_private: bool,
    pub created_at: String,
}

/// What the host reports back for one [`StoreCall`].
#[derive(Debug, PartialEq, Eq)]
pub enum StoreReply {
    /// Storage refused or failed; the text describes why. A query for a
    /// single row that finds none fails in this way.
    Failed(String),
    /// The statement ran; there is nothing to report.
    Ack,
    /// The statement ran and changed this many rows.
    Changed(usize),
    /// The identifier of the row just inserted.
    RowId(i64),
    Count(i64),
    RoomId(Option<i64>),
    /// The sender and the receiver of a friend request.
    Ends(i32, i32),
    Sender(Option<i32>),
    User(User),
    Users(Vec<User>),
    Ids(Vec<i32>),
    Names(Vec<String>),
    Rooms(Vec<RoomRow>),
    AdminRooms(Vec<AdminRoomRow>),
    Message(ChatMessage),
    Messages(Vec<ChatMessage>),
    Request(FriendRequestInfo),
    Requests(Vec<FriendRequestInfo>),
}

/// Why a storage operation did not yield a result.
#[derive(Debug, PartialEq, Eq)]
pub enum StoreError {
    /// Storage reported a failure, described by the text.
    Failed(String),
    /// The replies do not fit the calls they are supposed to answer.
    Unexpected,
}

/// What an error says when the replies do not fit the calls.
pub open spec fn unexpected_text() -> Seq<char> {
    "unexpected reply from storage"@
}

impl StoreError {
    /// The text of the error, as shown to a client.
    pub open spec fn text(self) -> Seq<char> {
        match self {
            StoreError::Failed(reason) => reason@,
            StoreError::Unexpected => unexpected_text(),
        }
    }

    /// The text of the error, as shown to a client.
    pub fn describe(self) -> (text: String)
        ensures
            text@ == self.text(),
    {
        match self {
            StoreError::Failed(reason) => reason,
            StoreError::Unexpected => String::from_str("unexpected reply from storage"),
        }
    }
}

/// Where a script stands: it needs one more call performed, or it is done.
#[derive(Debug, PartialEq, Eq)]
pub enum Step<T> {
    Call(StoreCall),
    Done(Result<T, StoreError>),
}

/// The error that a reply stands for when it is not the one a script expects.
pub open spec fn failure_of(reply: StoreReply) -> StoreError {
    match reply {
        StoreReply::Failed(reason) => StoreError::Failed(reason),
        _ => StoreError::Unexpected,
    }
}

/// How a script ends when reply `at` is not the one it expects: with that
/// reply's failure if it is the latest reply, and otherwise with
/// `Unexpected`, because no call should have followed it.
pub open spec fn halted<T>(replies: Seq<StoreReply>, at: int) -> Step<T> {
    if at == replies.len() - 1 {
        Step::Done(Err(failure_of(replies[at])))
    } else {
        Step::Done(Err(StoreError::Unexpected))
    }
}

/// Ends a script at reply `at`, which is not the one the script expects.
pub(crate) fn halt<T>(replies: &mut Vec<StoreReply>, at: usize) -> (step: Step<T>)
    requires
        at < old(replies).len(),
    ensures
        step == halted::<T>(old(replies)@, at as int),
{
    if at + 1 == replies.len() {
        match replies.pop() {
            Some(StoreReply::Failed(reason)) => Step::Done(Err(StoreError::Failed(reason))),
            _ => Step::Done(Err(StoreError::Unexpected)),
        }
    } else {
        Step::Done(Err(StoreError::Unexpected))
    }
}

/// How a script ends when reply `at`, inside a transaction, is not the one
/// it expects: it rolls the transaction back and then ends with that
/// reply's failure, whatever the rollback came to.
pub open spec fn aborted<T>(replies: Seq<StoreReply>, at: int) -> Step<T> {
    if at == replies.len() - 1 {
        Step::Call(StoreCall::Rollback)
    } else if at == replies.len() - 2 {
        Step::Done(Err(failure_of(replies[at])))
    } else {
        Step::Done(Err(StoreError::Unexpected))
    }
}

/// Ends a script at reply `at`, inside a transaction, which is not the one
/// the script expects.
pub(crate) fn abort<T>(replies: &mut Vec<StoreReply>, at: usize) -> (step: Step<T>)
    requires
        at < old(replies).len(),
    ensures
        step == aborted::<T>(old(replies)@, at as int),
        step is Call ==> final(replies)@ == old(replies)@,
{
    if at + 1 == replies.len() {
        Step::Call(StoreCall::Rollback)
    } else if at + 2 == replies.len() {
        replies.pop();
        halt(replies, at)
    } else {
        Step::Done(Err(StoreError::Unexpected))
    }
}

/// Whether the reply reports a statement that ran.
pub open spec fn ran(reply: StoreReply) -> bool {
    reply is Ack || reply is Changed
}

/// Whether the reply reports a statement that ran.
pub(crate) fn has_run(reply: &StoreReply) -> (ok: bool)
    ensures
        ok == ran(*reply),
{
    match reply {
        StoreReply::Ack => true,
        StoreReply::Changed(_) => true,
        _ => false,
    }
}

} // verus!
