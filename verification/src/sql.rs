//! How each storage call is put to an SQL database, and how what comes back
//! is read.
//!
//! The host only runs statements: it takes the text and the values to bind
//! from here, runs the statement in the way its [`Shape`] calls for, and
//! hands the raw outcome back to be read into a reply.

use crate::records::{ChatMessage, FriendRequestInfo, User};
use crate::storage::{AdminRoomRow, RoomRow, StoreCall, StoreReply, Table};
use vstd::prelude::*;

verus! {

/// A value as the database stores it.
#[derive(Debug, PartialEq, Eq)]
pub enum SqlValue {
    Null,
    Integer(i64),
    Text(String),
    /// A value of a kind that the schema has no column for.
    Other,
}

/// A database value as plain data.
pub enum Datum {
    Null,
    Integer(i64),
    Text(Seq<char>),
    Other,
}

impl View for SqlValue {
    type V = Datum;

    open spec fn view(&self) -> Datum {
        match self {
            SqlValue::Null => Datum::Null,
            SqlValue::Integer(number) => Datum::Integer(*number),
            SqlValue::Text(text) => Datum::Text(text@),
            SqlValue::Other => Datum::Other,
        }
    }
}

/// How the host runs a call.
#[derive(Debug, Clone, Copy, PartialEq, Eq, Structural)]
pub enum Shape {
    /// Run the text as a batch of statements; nothing comes back.
    Batch,
    /// Run one statement; the number of rows it changed comes back.
    Execute,
    /// Run one insert; the identifier of the new row comes back.
    Insert,
    /// Run one query; its rows come back, each as its columns in order.
    Query,
    /// Not a statement: write the configuration file.
    File,
}

/// How the host runs `call`.
pub open spec fn shape(call: StoreCall) -> Shape {
    match call {
        StoreCall::Configure | StoreCall::CreateTable(_) | StoreCall::Begin | StoreCall::Commit | StoreCall::Rollback => Shape::Batch,
        StoreCall::InsertUser { .. }
        | StoreCall::DeleteUser(_)
        | StoreCall::SetUserRole { .. }
        | StoreCall::InsertToken { .. }
        | StoreCall::InsertParticipant { .. }
        | StoreCall::DeleteRoom(_)
        | StoreCall::InsertRequestIfAbsent { .. }
        | StoreCall::SetRequestStatus { .. }
        | StoreCall::DeleteAcceptedRequests { .. } => Shape::Execute,
        StoreCall::InsertPrivateRoom | StoreCall::InsertMessage { .. } => Shape::Insert,
        StoreCall::WriteConfig(_) => Shape::File,
        _ => Shape::Query,
    }
}

/// How the host runs `call`.
pub fn shape_of(call: &StoreCall) -> (how: Shape)
    ensures
        how == shape(*call),
{
    match call {
        StoreCall::Configure | StoreCall::CreateTable(_) | StoreCall::Begin | StoreCall::Commit | StoreCall::Rollback => Shape::Batch,
        StoreCall::InsertUser { .. }
        | StoreCall::DeleteUser(_)
        | StoreCall::SetUserRole { .. }
        | StoreCall::InsertToken { .. }
        | StoreCall::InsertParticipant { .. }
        | StoreCall::DeleteRoom(_)
        | StoreCall::InsertRequestIfAbsent { .. }
        | StoreCall::SetRequestStatus { .. }
        | StoreCall::DeleteAcceptedRequests { .. } => Shape::Execute,
        StoreCall::InsertPrivateRoom | StoreCall::InsertMessage { .. } => Shape::Insert,
        StoreCall::WriteConfig(_) => Shape::File,
        _ => Shape::Query,
    }
}

pub const CONFIGURE: &'static str = "PRAGMA journal_mode=WAL; PRAGMA foreign_keys=ON;";

pub const CREATE_USERS: &'static str =
    "CREATE TABLE IF NOT EXISTS users (id INTEGER PRIMARY KEY, username TEXT NOT NULL UNIQUE, password_hash TEXT NOT NULL, role TEXT NOT NULL DEFAULT 'normal')";

pub const CREATE_ROOMS: &'static str =
    "CREATE TABLE IF NOT EXISTS rooms (id INTEGER PRIMARY KEY AUTOINCREMENT, name TEXT, is_private BOOLEAN NOT NULL DEFAULT TRUE, created_at DATETIME DEFAULT CURRENT_TIMESTAMP)";

pub const CREATE_ROOM_PARTICIPANTS: &'static str =
    "CREATE TABLE IF NOT EXISTS room_participants (room_id INTEGER NOT NULL, user_id INTEGER NOT NULL, PRIMARY KEY (room_id, user_id), FOREIGN KEY (room_id) REFERENCES rooms(id) ON DELETE CASCADE, FOREIGN KEY (user_id) REFERENCES users(id) ON DELETE CASCADE)";

pub const CREATE_MESSAGES: &'static str =
    "CREATE TABLE IF NOT EXISTS messages (id INTEGER PRIMARY KEY AUTOINCREMENT, room_id INTEGER NOT NULL, sender_username TEXT NOT NULL, content TEXT NOT NULL, timestamp DATETIME DEFAULT CURRENT_TIMESTAMP, FOREIGN KEY (room_id) REFERENCES rooms(id) ON DELETE CASCADE)";

pub const CREATE_FRIEND_REQUESTS: &'static str =
    "CREATE TABLE IF NOT EXISTS friend_requests (id INTEGER PRIMARY KEY AUTOINCREMENT, from_user_id INTEGER NOT NULL, to_user_id INTEGER NOT NULL, status TEXT NOT NULL DEFAULT 'pending', timestamp DATETIME DEFAULT CURRENT_TIMESTAMP, UNIQUE(from_user_id, to_user_id), FOREIGN KEY (from_user_id) REFERENCES users(id) ON DELETE CASCADE, FOREIGN KEY (to_user_id) REFERENCES users(id) ON DELETE CASCADE)";

pub const CREATE_AUTH_TOKENS: &'static str =
    "CREATE TABLE IF NOT EXISTS auth_tokens (token TEXT PRIMARY KEY, user_id INTEGER NOT NULL, created_at DATETIME DEFAULT CURRENT_TIMESTAMP, FOREIGN KEY (user_id) REFERENCES users(id) ON DELETE CASCADE)";

pub const BEGIN: &'static str = "BEGIN";

pub const COMMIT: &'static str = "COMMIT";

pub const ROLLBACK: &'static str = "ROLLBACK";

pub const COUNT_USERS: &'static str = "SELECT COUNT(*) FROM users";

pub const INSERT_USER: &'static str = "INSERT INTO users (username, password_hash, role) VALUES (?1, ?2, ?3)";

pub const USER_BY_NAME: &'static str = "SELECT id, username, password_hash, role FROM users WHERE username = ?1";

pub const USER_BY_ID: &'static str = "SELECT id, username, password_hash, role FROM users WHERE id = ?1";

pub const USER_BY_TOKEN: &'static str =
    "SELECT u.id, u.username, u.password_hash, u.role FROM users u JOIN auth_tokens t ON u.id = t.user_id WHERE t.token = ?1";

pub const ALL_USERS: &'static str = "SELECT id, username, password_hash, role FROM users";

pub const USERS_BY_IDS: &'static str = "SELECT id, username, password_hash, role FROM users WHERE id IN (";

pub const DELETE_USER: &'static str = "DELETE FROM users WHERE id = ?1";

pub const SET_USER_ROLE: &'static str = "UPDATE users SET role = ?1 WHERE username = ?2";

pub const INSERT_TOKEN: &'static str = "INSERT INTO auth_tokens (token, user_id) VALUES (?1, ?2)";

pub const FIND_PRIVATE_ROOM: &'static str =
    "SELECT rp1.room_id FROM room_participants rp1 JOIN room_participants rp2 ON rp1.room_id = rp2.room_id JOIN rooms r ON rp1.room_id = r.id WHERE rp1.user_id = ?1 AND rp2.user_id = ?2 AND r.is_private = TRUE";

pub const INSERT_PRIVATE_ROOM: &'static str = "INSERT INTO rooms (is_private) VALUES (TRUE)";

pub const INSERT_PARTICIPANT: &'static str = "INSERT INTO room_participants (room_id, user_id) VALUES (?1, ?2)";

pub const DELETE_ROOM: &'static str = "DELETE FROM rooms WHERE id = ?1";

pub const ROOMS_OF: &'static str =
    "SELECT r.id, r.name FROM rooms r JOIN room_participants rp ON r.id = rp.room_id WHERE rp.user_id = ?1 ORDER BY r.created_at DESC";

pub const ALL_ROOMS: &'static str = "SELECT id, name, is_private, created_at FROM rooms ORDER BY created_at DESC";

pub const PARTICIPANTS: &'static str =
    "SELECT u.username FROM users u JOIN room_participants rp ON u.id = rp.user_id WHERE rp.room_id = ?1";

pub const PARTICIPANTS_BY_NAME: &'static str =
    "SELECT u.username FROM users u JOIN room_participants rp ON u.id = rp.user_id WHERE rp.room_id = ?1 ORDER BY u.username";

pub const INSERT_MESSAGE: &'static str = "INSERT INTO messages (room_id, sender_username, content) VALUES (?1, ?2, ?3)";

pub const MESSAGE_BY_ID: &'static str =
    "SELECT id, room_id, sender_username, content, timestamp FROM messages WHERE id = ?1";

pub const MESSAGES_OF: &'static str =
    "SELECT id, room_id, sender_username, content, timestamp FROM messages WHERE room_id = ?1 ORDER BY timestamp ASC";

pub const INSERT_REQUEST: &'static str =
    "INSERT OR IGNORE INTO friend_requests (from_user_id, to_user_id) VALUES (?1, ?2)";

pub const REQUEST_BY_PAIR: &'static str =
    "SELECT r.id, r.from_user_id, u.username, r.to_user_id, r.status, r.timestamp FROM friend_requests r JOIN users u ON r.from_user_id = u.id WHERE r.from_user_id = ?1 AND r.to_user_id = ?2";

pub const PENDING_REQUEST: &'static str =
    "SELECT from_user_id, to_user_id FROM friend_requests WHERE id = ?1 AND status = 'pending'";

pub const REQUEST_SENDER: &'static str = "SELECT from_user_id FROM friend_requests WHERE id = ?1";

pub const SET_REQUEST_STATUS: &'static str =
    "UPDATE friend_requests SET status = ?2 WHERE id = ?1 AND status = 'pending'";

pub const PENDING_REQUESTS_FOR: &'static str =
    "SELECT r.id, r.from_user_id, u.username, r.to_user_id, r.status, r.timestamp FROM friend_requests r JOIN users u ON r.from_user_id = u.id WHERE r.to_user_id = ?1 AND r.status = 'pending'";

pub const FRIEND_IDS: &'static str =
    "SELECT CASE WHEN from_user_id = ?1 THEN to_user_id ELSE from_user_id END AS friend_id FROM friend_requests WHERE (from_user_id = ?1 OR to_user_id = ?1) AND status = 'accepted'";

pub const DELETE_ACCEPTED: &'static str =
    "DELETE FROM friend_requests WHERE (from_user_id = ?1 AND to_user_id = ?2 AND status = 'accepted') OR (from_user_id = ?2 AND to_user_id = ?1 AND status = 'accepted')";

/// `count` placeholders, separated by commas.
pub open spec fn placeholders(count: nat) -> Seq<char>
    decreases count,
{
    if count == 0 {
        Seq::empty()
    } else if count == 1 {
        seq!['?']
    } else {
        placeholders((count - 1) as nat) + seq![',', '?']
    }
}

/// The text of the statement for `call`; empty for a call that is no statement.
pub open spec fn sql(call: StoreCall) -> Seq<char> {
    match call {
        StoreCall::Configure => CONFIGURE@,
        StoreCall::CreateTable(Table::Users) => CREATE_USERS@,
        StoreCall::CreateTable(Table::Rooms) => CREATE_ROOMS@,
        StoreCall::CreateTable(Table::RoomParticipants) => CREATE_ROOM_PARTICIPANTS@,
        StoreCall::CreateTable(Table::Messages) => CREATE_MESSAGES@,
        StoreCall::CreateTable(Table::FriendRequests) => CREATE_FRIEND_REQUESTS@,
        StoreCall::CreateTable(Table::AuthTokens) => CREATE_AUTH_TOKENS@,
        StoreCall::Begin => BEGIN@,
        StoreCall::Commit => COMMIT@,
        StoreCall::Rollback => ROLLBACK@,
        StoreCall::CountUsers => COUNT_USERS@,
        StoreCall::InsertUser { .. } => INSERT_USER@,
        StoreCall::UserByName(_) => USER_BY_NAME@,
        StoreCall::UserById(_) => USER_BY_ID@,
        StoreCall::UserByToken(_) => USER_BY_TOKEN@,
        StoreCall::AllUsers => ALL_USERS@,
        StoreCall::UsersByIds(ids) => USERS_BY_IDS@ + placeholders(ids@.len()) + seq![')'],
        StoreCall::DeleteUser(_) => DELETE_USER@,
        StoreCall::SetUserRole { .. } => SET_USER_ROLE@,
        StoreCall::InsertToken { .. } => INSERT_TOKEN@,
        StoreCall::FindPrivateRoom { .. } => FIND_PRIVATE_ROOM@,
        StoreCall::InsertPrivateRoom => INSERT_PRIVATE_ROOM@,
        StoreCall::InsertParticipant { .. } => INSERT_PARTICIPANT@,
        StoreCall::DeleteRoom(_) => DELETE_ROOM@,
        StoreCall::RoomsOf(_) => ROOMS_OF@,
        StoreCall::AllRooms => ALL_ROOMS@,
        StoreCall::ParticipantsOf { room_id, by_name } => if by_name {
            PARTICIPANTS_BY_NAME@
        } else {
            PARTICIPANTS@
        },
        StoreCall::InsertMessage { .. } => INSERT_MESSAGE@,
        StoreCall::MessageById(_) => MESSAGE_BY_ID@,
        StoreCall::MessagesOf(_) => MESSAGES_OF@,
        StoreCall::InsertRequestIfAbsent { .. } => INSERT_REQUEST@,
        StoreCall::RequestByPair { .. } => REQUEST_BY_PAIR@,
        StoreCall::PendingRequestById(_) => PENDING_REQUEST@,
        StoreCall::RequestSender(_) => REQUEST_SENDER@,
        StoreCall::SetRequestStatus { .. } => SET_REQUEST_STATUS@,
        StoreCall::PendingRequestsFor(_) => PENDING_REQUESTS_FOR@,
        StoreCall::FriendIdsOf(_) => FRIEND_IDS@,
        StoreCall::DeleteAcceptedRequests { .. } => DELETE_ACCEPTED@,
        StoreCall::WriteConfig(_) => Seq::empty(),
    }
}

fn text(literal: &'static str) -> (owned: String)
    ensures
        owned@ == literal@,
{
    String::from_str(literal)
}

/// The text of the statement for `call`.
pub fn statement(call: &StoreCall) -> (text: String)
    ensures
        text@ == sql(*call),
{
    match call {
        StoreCall::Configure => text(CONFIGURE),
        StoreCall::CreateTable(Table::Users) => text(CREATE_USERS),
        StoreCall::CreateTable(Table::Rooms) => text(CREATE_ROOMS),
        StoreCall::CreateTable(Table::RoomParticipants) => text(CREATE_ROOM_PARTICIPANTS),
        StoreCall::CreateTable(Table::Messages) => text(CREATE_MESSAGES),
        StoreCall::CreateTable(Table::FriendRequests) => text(CREATE_FRIEND_REQUESTS),
        StoreCall::CreateTable(Table::AuthTokens) => text(CREATE_AUTH_TOKENS),
        StoreCall::Begin => text(BEGIN),
        StoreCall::Commit => text(COMMIT),
        StoreCall::Rollback => text(ROLLBACK),
        StoreCall::CountUsers => text(COUNT_USERS),
        StoreCall::InsertUser { .. } => text(INSERT_USER),
        StoreCall::UserByName(_) => text(USER_BY_NAME),
        StoreCall::UserById(_) => text(USER_BY_ID),
        StoreCall::UserByToken(_) => text(USER_BY_TOKEN),
        StoreCall::AllUsers => text(ALL_USERS),
        StoreCall::UsersByIds(ids) => {
            let mut sql = text(USERS_BY_IDS);
            let mut i: usize = 0;
            while i < ids.len()
                invariant
                    i <= ids.len(),
                    sql@ == USERS_BY_IDS@ + placeholders(i as nat),
                decreases ids.len() - i,
            {
                proof {
                    reveal_strlit("?");
                    reveal_strlit(",?");
                }
                if i == 0 {
                    sql.append("?");
                    assert(sql@ =~= USERS_BY_IDS@ + placeholders(1));
                } else {
                    sql.append(",?");
                    assert(",?"@ =~= seq![',', '?']);
                    assert(sql@ =~= USERS_BY_IDS@ + placeholders((i + 1) as nat));
                }
                i = i + 1;
            }
            proof {
                reveal_strlit(")");
            }
            sql.append(")");
            assert(sql@ =~= USERS_BY_IDS@ + placeholders(ids@.len()) + seq![')']);
            sql
        },
        StoreCall::DeleteUser(_) => text(DELETE_USER),
        StoreCall::SetUserRole { .. } => text(SET_USER_ROLE),
        StoreCall::InsertToken { .. } => text(INSERT_TOKEN),
        StoreCall::FindPrivateRoom { .. } => text(FIND_PRIVATE_ROOM),
        StoreCall::InsertPrivateRoom => text(INSERT_PRIVATE_ROOM),
        StoreCall::InsertParticipant { .. } => text(INSERT_PARTICIPANT),
        StoreCall::DeleteRoom(_) => text(DELETE_ROOM),
        StoreCall::RoomsOf(_) => text(ROOMS_OF),
        StoreCall::AllRooms => text(ALL_ROOMS),
        StoreCall::ParticipantsOf { room_id, by_name } => if *by_name {
            text(PARTICIPANTS_BY_NAME)
        } else {
            text(PARTICIPANTS)
        },
        StoreCall::InsertMessage { .. } => text(INSERT_MESSAGE),
        StoreCall::MessageById(_) => text(MESSAGE_BY_ID),
        StoreCall::MessagesOf(_) => text(MESSAGES_OF),
        StoreCall::InsertRequestIfAbsent { .. } => text(INSERT_REQUEST),
        StoreCall::RequestByPair { .. } => text(REQUEST_BY_PAIR),
        StoreCall::PendingRequestById(_) => text(PENDING_REQUEST),
        StoreCall::RequestSender(_) => text(REQUEST_SENDER),
        StoreCall::SetRequestStatus { .. } => text(SET_REQUEST_STATUS),
        StoreCall::PendingRequestsFor(_) => text(PENDING_REQUESTS_FOR),
        StoreCall::FriendIdsOf(_) => text(FRIEND_IDS),
        StoreCall::DeleteAcceptedRequests { .. } => text(DELETE_ACCEPTED),
        StoreCall::WriteConfig(_) => String::new(),
    }
}

/// The values of `values` as plain data.
pub open spec fn data(values: Seq<SqlValue>) -> Seq<Datum> {
    Seq::new(values.len(), |i: int| values[i]@)
}

/// The values that the statement for `call` binds, in the order of its
/// numbered parameters.
pub open spec fn bound(call: StoreCall) -> Seq<Datum> {
    match call {
        StoreCall::InsertUser { username, password_hash, role } => seq![
            Datum::Text(username@),
            Datum::Text(password_hash@),
            Datum::Text(role@),
        ],
        StoreCall::UserByName(username) => seq![Datum::Text(username@)],
        StoreCall::UserById(user_id) => seq![Datum::Integer(user_id as i64)],
        StoreCall::UserByToken(token) => seq![Datum::Text(token@)],
        StoreCall::UsersByIds(ids) => Seq::new(ids@.len(), |i: int| Datum::Integer(ids@[i] as i64)),
        StoreCall::DeleteUser(user_id) => seq![Datum::Integer(user_id as i64)],
        StoreCall::SetUserRole { username, role } => seq![Datum::Text(role@), Datum::Text(username@)],
        StoreCall::InsertToken { token, user_id } => seq![Datum::Text(token@), Datum::Integer(user_id as i64)],
        StoreCall::FindPrivateRoom { user1_id, user2_id } => seq![
            Datum::Integer(user1_id as i64),
            Datum::Integer(user2_id as i64),
        ],
        StoreCall::InsertParticipant { room_id, user_id } => seq![
            Datum::Integer(room_id),
            Datum::Integer(user_id as i64),
        ],
        StoreCall::DeleteRoom(room_id) => seq![Datum::Integer(room_id)],
        StoreCall::RoomsOf(user_id) => seq![Datum::Integer(user_id as i64)],
        StoreCall::ParticipantsOf { room_id, by_name } => seq![Datum::Integer(room_id)],
        StoreCall::InsertMessage { room_id, sender_username, content } => seq![
            Datum::Integer(room_id),
            Datum::Text(sender_username@),
            Datum::Text(content@),
        ],
        StoreCall::MessageById(message_id) => seq![Datum::Integer(message_id)],
        StoreCall::MessagesOf(room_id) => seq![Datum::Integer(room_id)],
        StoreCall::InsertRequestIfAbsent { from_user_id, to_user_id } => seq![
            Datum::Integer(from_user_id as i64),
            Datum::Integer(to_user_id as i64),
        ],
        StoreCall::RequestByPair { from_user_id, to_user_id } => seq![
            Datum::Integer(from_user_id as i64),
            Datum::Integer(to_user_id as i64),
        ],
        StoreCall::PendingRequestById(request_id) => seq![Datum::Integer(request_id as i64)],
        StoreCall::RequestSender(request_id) => seq![Datum::Integer(request_id as i64)],
        StoreCall::SetRequestStatus { request_id, status } => seq![
            Datum::Integer(request_id as i64),
            Datum::Text(status.label()),
        ],
        StoreCall::PendingRequestsFor(user_id) => seq![Datum::Integer(user_id as i64)],
        StoreCall::FriendIdsOf(user_id) => seq![Datum::Integer(user_id as i64)],
        StoreCall::DeleteAcceptedRequests { user1_id, user2_id } => seq![
            Datum::Integer(user1_id as i64),
            Datum::Integer(user2_id as i64),
        ],
        _ => Seq::empty(),
    }
}

fn whole(number: i32) -> (value: SqlValue)
    ensures
        value@ == Datum::Integer(number as i64),
{
    SqlValue::Integer(number as i64)
}

fn words(text: &String) -> (value: SqlValue)
    ensures
        value@ == Datum::Text(text@),
{
    SqlValue::Text(text.clone())
}

fn one(first: SqlValue) -> (values: Vec<SqlValue>)
    ensures
        data(values@) == seq![first@],
{
    let mut values: Vec<SqlValue> = Vec::new();
    values.push(first);
    assert(data(values@) =~= seq![first@]);
    values
}

fn two(first: SqlValue, second: SqlValue) -> (values: Vec<SqlValue>)
    ensures
        data(values@) == seq![first@, second@],
{
    let mut values: Vec<SqlValue> = Vec::new();
    values.push(first);
    values.push(second);
    assert(data(values@) =~= seq![first@, second@]);
    values
}

fn three(first: SqlValue, second: SqlValue, third: SqlValue) -> (values: Vec<SqlValue>)
    ensures
        data(values@) == seq![first@, second@, third@],
{
    let mut values: Vec<SqlValue> = Vec::new();
    values.push(first);
    values.push(second);
    values.push(third);
    assert(data(values@) =~= seq![first@, second@, third@]);
    values
}

/// The values to bind to the statement for `call`, in the order of its
/// numbered parameters.
pub fn parameters(call: &StoreCall) -> (values: Vec<SqlValue>)
    ensures
        data(values@) == bound(*call),
{
    match call {
        StoreCall::InsertUser { username, password_hash, role } => three(
            words(username),
            words(password_hash),
            words(role),
        ),
        StoreCall::UserByName(username) => one(words(username)),
        StoreCall::UserById(user_id) => one(whole(*user_id)),
        StoreCall::UserByToken(token) => one(words(token)),
        StoreCall::UsersByIds(ids) => {
            let mut values: Vec<SqlValue> = Vec::new();
            let mut i: usize = 0;
            while i < ids.len()
                invariant
                    i <= ids.len(),
                    values@.len() == i,
                    forall|k: int| 0 <= k < i ==> (#[trigger] values@[k])@ == Datum::Integer(ids@[k] as i64),
                decreases ids.len() - i,
            {
                values.push(whole(ids[i]));
                i = i + 1;
            }
            assert(data(values@) =~= bound(*call));
            values
        },
        StoreCall::DeleteUser(user_id) => one(whole(*user_id)),
        StoreCall::SetUserRole { username, role } => two(words(role), words(username)),
        StoreCall::InsertToken { token, user_id } => two(words(token), whole(*user_id)),
        StoreCall::FindPrivateRoom { user1_id, user2_id } => two(whole(*user1_id), whole(*user2_id)),
        StoreCall::InsertParticipant { room_id, user_id } => two(SqlValue::Integer(*room_id), whole(*user_id)),
        StoreCall::DeleteRoom(room_id) => one(SqlValue::Integer(*room_id)),
        StoreCall::RoomsOf(user_id) => one(whole(*user_id)),
        StoreCall::ParticipantsOf { room_id, by_name } => one(SqlValue::Integer(*room_id)),
        StoreCall::InsertMessage { room_id, sender_username, content } => three(
            SqlValue::Integer(*room_id),
            words(sender_username),
            words(content),
        ),
        StoreCall::MessageById(message_id) => one(SqlValue::Integer(*message_id)),
        StoreCall::MessagesOf(room_id) => one(SqlValue::Integer(*room_id)),
        StoreCall::InsertRequestIfAbsent { from_user_id, to_user_id } => two(whole(*from_user_id), whole(*to_user_id)),
        StoreCall::RequestByPair { from_user_id, to_user_id } => two(whole(*from_user_id), whole(*to_user_id)),
        StoreCall::PendingRequestById(request_id) => one(whole(*request_id)),
        StoreCall::RequestSender(request_id) => one(whole(*request_id)),
        StoreCall::SetRequestStatus { request_id, status } => two(
            whole(*request_id),
            SqlValue::Text(text(status.name())),
        ),
        StoreCall::PendingRequestsFor(user_id) => one(whole(*user_id)),
        StoreCall::FriendIdsOf(user_id) => one(whole(*user_id)),
        StoreCall::DeleteAcceptedRequests { user1_id, user2_id } => two(whole(*user1_id), whole(*user2_id)),
        _ => {
            let values: Vec<SqlValue> = Vec::new();
            assert(data(values@) =~= Seq::<Datum>::empty());
            values
        },
    }
}

/// What running a call came to, before it is read.
#[derive(Debug, PartialEq, Eq)]
pub enum SqlOutcome {
    /// The database refused or failed; the text says why.
    Failed(String),
    /// The batch ran, or the file was written.
    Done,
    /// The statement ran and changed this many rows.
    Changed(usize),
    /// The insert ran; this is the new row's identifier.
    Inserted(i64),
    /// The rows of the query, each as its columns in order.
    Rows(Vec<Vec<SqlValue>>),
}

/// What a query for one row reports when there is none.
pub const NO_ROWS: &'static str = "Query returned no rows";

/// What is reported when an outcome is not of the kind that the call gives,
/// or a row does not have the columns that the call selects.
pub const UNREADABLE: &'static str = "unreadable result from the database";

/// Whether `number` is within `i32`.
pub open spec fn narrow(number: i64) -> bool {
    -2147483648 <= number <= 2147483647
}

/// The integer in a column that holds one within `i32`.
pub open spec fn small(value: SqlValue) -> Option<i32> {
    match value {
        SqlValue::Integer(number) if narrow(number) => Some(number as i32),
        _ => None,
    }
}

/// The text in a column that may be null.
pub open spec fn optional_text(value: SqlValue) -> Option<Option<String>> {
    match value {
        SqlValue::Null => Some(None),
        SqlValue::Text(text) => Some(Some(text)),
        _ => None,
    }
}

/// A row of the columns `id, username, password_hash, role`.
pub open spec fn user_row(row: Vec<SqlValue>) -> Option<User> {
    if row@.len() == 4 && small(row@[0]) is Some && row@[1] is Text && row@[2] is Text && row@[3] is Text {
        Some(
            User {
                _id: small(row@[0])->0,
                username: row@[1]->Text_0,
                password_hash: row@[2]->Text_0,
                role: row@[3]->Text_0,
            },
        )
    } else {
        None
    }
}

/// A row of the columns `id, room_id, sender_username, content, timestamp`.
pub open spec fn message_row(row: Vec<SqlValue>) -> Option<ChatMessage> {
    if row@.len() == 5 && small(row@[0]) is Some && row@[1] is Integer && row@[2] is Text && row@[3] is Text
        && row@[4] is Text {
        Some(
            ChatMessage {
                id: small(row@[0])->0,
                room_id: row@[1]->Integer_0,
                sender_username: row@[2]->Text_0,
                content: row@[3]->Text_0,
                timestamp: row@[4]->Text_0,
            },
        )
    } else {
        None
    }
}

/// A row of the columns `id, from_user_id, username, to_user_id, status, timestamp`.
pub open spec fn request_row(row: Vec<SqlValue>) -> Option<FriendRequestInfo> {
    if row@.len() == 6 && small(row@[0]) is Some && small(row@[1]) is Some && row@[2] is Text && small(
        row@[3],
    ) is Some && row@[4] is Text && row@[5] is Text {
        Some(
            FriendRequestInfo {
                id: small(row@[0])->0,
                from_user_id: small(row@[1])->0,
                from_username: row@[2]->Text_0,
                to_user_id: small(row@[3])->0,
                status: row@[4]->Text_0,
                timestamp: row@[5]->Text_0,
            },
        )
    } else {
        None
    }
}

/// A row of the columns `id, name`.
pub open spec fn room_row(row: Vec<SqlValue>) -> Option<RoomRow> {
    if row@.len() == 2 && row@[0] is Integer && optional_text(row@[1]) is Some {
        Some(RoomRow { room_id: row@[0]->Integer_0, name: optional_text(row@[1])->0 })
    } else {
        None
    }
}

/// A row of the columns `id, name, is_private, created_at`. A flag is set
/// if its column holds anything but zero.
pub open spec fn admin_room_row(row: Vec<SqlValue>) -> Option<AdminRoomRow> {
    if row@.len() == 4 && row@[0] is Integer && optional_text(row@[1]) is Some && row@[2] is Integer && row@[3] is Text {
        Some(
            AdminRoomRow {
                id: row@[0]->Integer_0,
                name: optional_text(row@[1])->0,
                is_private: row@[2]->Integer_0 != 0,
                created_at: row@[3]->Text_0,
            },
        )
    } else {
        None
    }
}

/// A row of one integer column.
pub open spec fn number_row(row: Vec<SqlValue>) -> Option<i64> {
    if row@.len() == 1 && row@[0] is Integer {
        Some(row@[0]->Integer_0)
    } else {
        None
    }
}

/// A row of one column that holds a user or request identifier.
pub open spec fn id_row(row: Vec<SqlValue>) -> Option<i32> {
    if row@.len() == 1 {
        small(row@[0])
    } else {
        None
    }
}

/// A row of one text column.
pub open spec fn name_row(row: Vec<SqlValue>) -> Option<String> {
    if row@.len() == 1 && row@[0] is Text {
        Some(row@[0]->Text_0)
    } else {
        None
    }
}

/// A row of the columns `from_user_id, to_user_id`.
pub open spec fn ends_row(row: Vec<SqlValue>) -> Option<(i32, i32)> {
    if row@.len() == 2 && small(row@[0]) is Some && small(row@[1]) is Some {
        Some((small(row@[0])->0, small(row@[1])->0))
    } else {
        None
    }
}

fn to_small(value: Option<SqlValue>) -> (number: Option<i32>)
    ensures
        number == (match value {
            Some(value) => small(value),
            None => None,
        }),
{
    match value {
        Some(SqlValue::Integer(number)) => {
            if -2147483648 <= number && number <= 2147483647 {
                Some(number as i32)
            } else {
                None
            }
        },
        _ => None,
    }
}

fn to_number(value: Option<SqlValue>) -> (number: Option<i64>)
    ensures
        number == (match value {
            Some(SqlValue::Integer(number)) => Some(number),
            _ => None,
        }),
{
    match value {
        Some(SqlValue::Integer(number)) => Some(number),
        _ => None,
    }
}

fn to_text(value: Option<SqlValue>) -> (text: Option<String>)
    ensures
        text == (match value {
            Some(SqlValue::Text(text)) => Some(text),
            _ => None,
        }),
{
    match value {
        Some(SqlValue::Text(text)) => Some(text),
        _ => None,
    }
}

fn to_optional_text(value: Option<SqlValue>) -> (text: Option<Option<String>>)
    ensures
        text == (match value {
            Some(value) => optional_text(value),
            None => None,
        }),
{
    match value {
        Some(SqlValue::Null) => Some(None),
        Some(SqlValue::Text(text)) => Some(Some(text)),
        _ => None,
    }
}

fn read_user(row: Vec<SqlValue>) -> (user: Option<User>)
    ensures
        user == user_row(row),
{
    let mut row = row;
    if row.len() != 4 {
        return None;
    }
    let role = to_text(row.pop());
    let password_hash = to_text(row.pop());
    let username = to_text(row.pop());
    let id = to_small(row.pop());
    match (id, username, password_hash, role) {
        (Some(_id), Some(username), Some(password_hash), Some(role)) => Some(
            User { _id, username, password_hash, role },
        ),
        _ => None,
    }
}

fn read_message(row: Vec<SqlValue>) -> (message: Option<ChatMessage>)
    ensures
        message == message_row(row),
{
    let mut row = row;
    if row.len() != 5 {
        return None;
    }
    let timestamp = to_text(row.pop());
    let content = to_text(row.pop());
    let sender_username = to_text(row.pop());
    let room_id = to_number(row.pop());
    let id = to_small(row.pop());
    match (id, room_id, sender_username, content, timestamp) {
        (Some(id), Some(room_id), Some(sender_username), Some(content), Some(timestamp)) => Some(
            ChatMessage { id, room_id, sender_username, content, timestamp },
        ),
        _ => None,
    }
}

fn read_request(row: Vec<SqlValue>) -> (request: Option<FriendRequestInfo>)
    ensures
        request == request_row(row),
{
    let mut row = row;
    if row.len() != 6 {
        return None;
    }
    let timestamp = to_text(row.pop());
    let status = to_text(row.pop());
    let to_user_id = to_small(row.pop());
    let from_username = to_text(row.pop());
    let from_user_id = to_small(row.pop());
    let id = to_small(row.pop());
    match (id, from_user_id, from_username, to_user_id, status, timestamp) {
        (Some(id), Some(from_user_id), Some(from_username), Some(to_user_id), Some(status), Some(timestamp)) => Some(
            FriendRequestInfo { id, from_user_id, from_username, to_user_id, status, timestamp },
        ),
        _ => None,
    }
}

fn read_room(row: Vec<SqlValue>) -> (room: Option<RoomRow>)
    ensures
        room == room_row(row),
{
    let mut row = row;
    if row.len() != 2 {
        return None;
    }
    let name = to_optional_text(row.pop());
    let room_id = to_number(row.pop());
    match (room_id, name) {
        (Some(room_id), Some(name)) => Some(RoomRow { room_id, name }),
        _ => None,
    }
}

fn read_admin_room(row: Vec<SqlValue>) -> (room: Option<AdminRoomRow>)
    ensures
        room == admin_room_row(row),
{
    let mut row = row;
    if row.len() != 4 {
        return None;
    }
    let created_at = to_text(row.pop());
    let flag = to_number(row.pop());
    let name = to_optional_text(row.pop());
    let id = to_number(row.pop());
    match (id, name, flag, created_at) {
        (Some(id), Some(name), Some(flag), Some(created_at)) => Some(
            AdminRoomRow { id, name, is_private: flag != 0, created_at },
        ),
        _ => None,
    }
}

fn read_number(row: Vec<SqlValue>) -> (number: Option<i64>)
    ensures
        number == number_row(row),
{
    let mut row = row;
    if row.len() != 1 {
        return None;
    }
    to_number(row.pop())
}

fn read_id(row: Vec<SqlValue>) -> (id: Option<i32>)
    ensures
        id == id_row(row),
{
    let mut row = row;
    if row.len() != 1 {
        return None;
    }
    to_small(row.pop())
}

fn read_name(row: Vec<SqlValue>) -> (name: Option<String>)
    ensures
        name == name_row(row),
{
    let mut row = row;
    if row.len() != 1 {
        return None;
    }
    to_text(row.pop())
}

fn read_ends(row: Vec<SqlValue>) -> (ends: Option<(i32, i32)>)
    ensures
        ends == ends_row(row),
{
    let mut row = row;
    if row.len() != 2 {
        return None;
    }
    let to = to_small(row.pop());
    let from = to_small(row.pop());
    match (from, to) {
        (Some(from), Some(to)) => Some((from, to)),
        _ => None,
    }
}

/// What the rows read as, one item per row with `pick`. A row that cannot
/// be read spoils the whole list if `strict`, and is left out otherwise.
pub open spec fn listed<T>(rows: Seq<Vec<SqlValue>>, pick: spec_fn(Vec<SqlValue>) -> Option<T>, strict: bool) -> Option<
    Seq<T>,
>
    decreases rows.len(),
{
    if rows.len() == 0 {
        Some(Seq::empty())
    } else {
        match listed(rows.drop_last(), pick, strict) {
            None => None,
            Some(items) => match pick(rows.last()) {
                Some(item) => Some(items.push(item)),
                None => if strict {
                    None
                } else {
                    Some(items)
                },
            },
        }
    }
}

/// A list that reads as `head`, if that can be read, followed by `tail`.
pub open spec fn followed<T>(head: Option<Seq<T>>, tail: Seq<T>) -> Option<Seq<T>> {
    match head {
        Some(items) => Some(items + tail),
        None => None,
    }
}

fn read_each<T, F: Fn(Vec<SqlValue>) -> Option<T>>(
    rows: Vec<Vec<SqlValue>>,
    read: F,
    strict: bool,
    Ghost(pick): Ghost<spec_fn(Vec<SqlValue>) -> Option<T>>,
) -> (items: Option<Vec<T>>)
    requires
        forall|row: Vec<SqlValue>| call_requires(read, (row,)),
        forall|row: Vec<SqlValue>, item: Option<T>| call_ensures(read, (row,), item) ==> item == pick(row),
    ensures
        items is Some ==> listed(rows@, pick, strict) == Some(items->0@),
        items is None ==> listed(rows@, pick, strict) is None,
{
    let ghost all = rows@;
    let mut rest = rows;
    let mut tail: Vec<T> = Vec::new();
    let mut spoiled = false;
    while rest.len() > 0 && !spoiled
        invariant
            spoiled ==> listed(all, pick, strict) is None,
            !spoiled ==> listed(all, pick, strict) == followed(listed(rest@, pick, strict), tail@),
            forall|row: Vec<SqlValue>| call_requires(read, (row,)),
            forall|row: Vec<SqlValue>, item: Option<T>| call_ensures(read, (row,), item) ==> item == pick(row),
        decreases rest@.len(),
    {
        let ghost before = rest@;
        let ghost later = tail@;
        match rest.pop() {
            Some(row) => {
                proof {
                    assert(before.drop_last() =~= rest@);
                    assert(before.last() == row);
                }
                match read(row) {
                    Some(item) => {
                        tail.insert(0, item);
                        proof {
                            match listed(rest@, pick, strict) {
                                Some(items) => {
                                    assert(items.push(item) + later =~= items + tail@);
                                },
                                None => {},
                            }
                        }
                    },
                    None => {
                        if strict {
                            assert(listed(before, pick, strict) is None);
                            spoiled = true;
                        }
                    },
                }
            },
            None => {
                assert(false);
            },
        }
    }
    if spoiled {
        None
    } else {
        assert(Seq::<T>::empty() + tail@ =~= tail@);
        Some(tail)
    }
}

/// Whether `reply` reports an outcome that cannot be read.
pub open spec fn unreadable(reply: StoreReply) -> bool {
    reply matches StoreReply::Failed(reason) && reason@ == UNREADABLE@
}

/// Whether `reply` reports that a query for one row found none.
pub open spec fn no_rows(reply: StoreReply) -> bool {
    reply matches StoreReply::Failed(reason) && reason@ == NO_ROWS@
}

/// Whether `reply` is how a query that must find a row reads: the first
/// row, read with `pick` and wrapped with `wrap`; a failure if there is none.
pub open spec fn found<T>(
    outcome: SqlOutcome,
    pick: spec_fn(Vec<SqlValue>) -> Option<T>,
    wrap: spec_fn(T) -> StoreReply,
    reply: StoreReply,
) -> bool {
    match outcome {
        SqlOutcome::Rows(rows) => if rows@.len() == 0 {
            no_rows(reply)
        } else {
            match pick(rows@[0]) {
                Some(item) => reply == wrap(item),
                None => unreadable(reply),
            }
        },
        _ => unreadable(reply),
    }
}

/// Whether `reply` is how a query that may find a row reads: the first row,
/// if there is one, read with `pick`, and wrapped with `wrap`.
pub open spec fn sought<T>(
    outcome: SqlOutcome,
    pick: spec_fn(Vec<SqlValue>) -> Option<T>,
    wrap: spec_fn(Option<T>) -> StoreReply,
    reply: StoreReply,
) -> bool {
    match outcome {
        SqlOutcome::Rows(rows) => if rows@.len() == 0 {
            reply == wrap(None)
        } else {
            match pick(rows@[0]) {
                Some(item) => reply == wrap(Some(item)),
                None => unreadable(reply),
            }
        },
        _ => unreadable(reply),
    }
}

/// Whether `reply` is how a query for a list reads: every row read with
/// `pick`, and the list found in the reply by `items`.
pub open spec fn collected<T>(
    outcome: SqlOutcome,
    pick: spec_fn(Vec<SqlValue>) -> Option<T>,
    strict: bool,
    items: spec_fn(StoreReply) -> Option<Seq<T>>,
    reply: StoreReply,
) -> bool {
    match outcome {
        SqlOutcome::Rows(rows) => match listed(rows@, pick, strict) {
            Some(list) => items(reply) == Some(list),
            None => unreadable(reply),
        },
        _ => unreadable(reply),
    }
}

/// Whether `reply` is what the outcome of running `call` reads as.
///
/// A failure is passed on with its text. A lookup of one row takes the
/// first row and fails if there is none; a search takes the first row if
/// there is one. In a list every row has to be readable, except that the
/// rooms of a user are listed without the rows that are not.
pub open spec fn reads(call: StoreCall, outcome: SqlOutcome, reply: StoreReply) -> bool {
    if outcome is Failed {
        reply == StoreReply::Failed(outcome->Failed_0)
    } else {
        match shape(call) {
            Shape::Batch | Shape::File => if outcome is Done || outcome is Changed {
                reply == StoreReply::Ack
            } else {
                unreadable(reply)
            },
            Shape::Execute => if outcome is Changed {
                reply == StoreReply::Changed(outcome->Changed_0)
            } else {
                unreadable(reply)
            },
            Shape::Insert => if outcome is Inserted {
                reply == StoreReply::RowId(outcome->Inserted_0)
            } else {
                unreadable(reply)
            },
            Shape::Query => match call {
                StoreCall::CountUsers => found(
                    outcome,
                    |row: Vec<SqlValue>| number_row(row),
                    |count: i64| StoreReply::Count(count),
                    reply,
                ),
                StoreCall::UserByName(_) | StoreCall::UserById(_) | StoreCall::UserByToken(_) => found(
                    outcome,
                    |row: Vec<SqlValue>| user_row(row),
                    |user: User| StoreReply::User(user),
                    reply,
                ),
                StoreCall::MessageById(_) => found(
                    outcome,
                    |row: Vec<SqlValue>| message_row(row),
                    |message: ChatMessage| StoreReply::Message(message),
                    reply,
                ),
                StoreCall::RequestByPair { .. } => found(
                    outcome,
                    |row: Vec<SqlValue>| request_row(row),
                    |request: FriendRequestInfo| StoreReply::Request(request),
                    reply,
                ),
                StoreCall::PendingRequestById(_) => found(
                    outcome,
                    |row: Vec<SqlValue>| ends_row(row),
                    |ends: (i32, i32)| StoreReply::Ends(ends.0, ends.1),
                    reply,
                ),
                StoreCall::FindPrivateRoom { .. } => sought(
                    outcome,
                    |row: Vec<SqlValue>| number_row(row),
                    |room: Option<i64>| StoreReply::RoomId(room),
                    reply,
                ),
                StoreCall::RequestSender(_) => sought(
                    outcome,
                    |row: Vec<SqlValue>| id_row(row),
                    |sender: Option<i32>| StoreReply::Sender(sender),
                    reply,
                ),
                StoreCall::AllUsers | StoreCall::UsersByIds(_) => collected(
                    outcome,
                    |row: Vec<SqlValue>| user_row(row),
                    true,
                    |r: StoreReply| if r is Users { Some(r->Users_0@) } else { None },
                    reply,
                ),
                StoreCall::FriendIdsOf(_) => collected(
                    outcome,
                    |row: Vec<SqlValue>| id_row(row),
                    true,
                    |r: StoreReply| if r is Ids { Some(r->Ids_0@) } else { None },
                    reply,
                ),
                StoreCall::ParticipantsOf { .. } => collected(
                    outcome,
                    |row: Vec<SqlValue>| name_row(row),
                    true,
                    |r: StoreReply| if r is Names { Some(r->Names_0@) } else { None },
                    reply,
                ),
                StoreCall::RoomsOf(_) => collected(
                    outcome,
                    |row: Vec<SqlValue>| room_row(row),
                    false,
                    |r: StoreReply| if r is Rooms { Some(r->Rooms_0@) } else { None },
                    reply,
                ),
                StoreCall::AllRooms => collected(
                    outcome,
                    |row: Vec<SqlValue>| admin_room_row(row),
                    true,
                    |r: StoreReply| if r is AdminRooms { Some(r->AdminRooms_0@) } else { None },
                    reply,
                ),
                StoreCall::MessagesOf(_) => collected(
                    outcome,
                    |row: Vec<SqlValue>| message_row(row),
                    true,
                    |r: StoreReply| if r is Messages { Some(r->Messages_0@) } else { None },
                    reply,
                ),
                StoreCall::PendingRequestsFor(_) => collected(
                    outcome,
                    |row: Vec<SqlValue>| request_row(row),
                    true,
                    |r: StoreReply| if r is Requests { Some(r->Requests_0@) } else { None },
                    reply,
                ),
                _ => unreadable(reply),
            },
        }
    }
}

fn garbled() -> (reply: StoreReply)
    ensures
        unreadable(reply),
{
    StoreReply::Failed(text(UNREADABLE))
}

/// The first row, if there is one.
fn first(rows: Vec<Vec<SqlValue>>) -> (row: Option<Vec<SqlValue>>)
    ensures
        row == (if rows@.len() == 0 {
            None
        } else {
            Some(rows@[0])
        }),
{
    let mut rows = rows;
    if rows.len() == 0 {
        None
    } else {
        Some(rows.remove(0))
    }
}

/// Reads the outcome of running `call` into the reply that the scripts expect.
pub fn decode(call: &StoreCall, outcome: SqlOutcome) -> (reply: StoreReply)
    ensures
        reads(*call, outcome, reply),
{
    let rows = match outcome {
        SqlOutcome::Failed(reason) => {
            return StoreReply::Failed(reason);
        },
        SqlOutcome::Rows(rows) => Some(rows),
        SqlOutcome::Done => {
            return match shape_of(call) {
                Shape::Batch | Shape::File => StoreReply::Ack,
                _ => garbled(),
            };
        },
        SqlOutcome::Changed(count) => {
            return match shape_of(call) {
                Shape::Batch | Shape::File => StoreReply::Ack,
                Shape::Execute => StoreReply::Changed(count),
                _ => garbled(),
            };
        },
        SqlOutcome::Inserted(id) => {
            return match shape_of(call) {
                Shape::Insert => StoreReply::RowId(id),
                _ => garbled(),
            };
        },
    };
    let rows = match rows {
        Some(rows) => rows,
        None => {
            return garbled();
        },
    };
    match call {
        StoreCall::CountUsers => match first(rows) {
            None => StoreReply::Failed(text(NO_ROWS)),
            Some(row) => match read_number(row) {
                Some(count) => StoreReply::Count(count),
                None => garbled(),
            },
        },
        StoreCall::UserByName(_) | StoreCall::UserById(_) | StoreCall::UserByToken(_) => match first(rows) {
            None => StoreReply::Failed(text(NO_ROWS)),
            Some(row) => match read_user(row) {
                Some(user) => StoreReply::User(user),
                None => garbled(),
            },
        },
        StoreCall::MessageById(_) => match first(rows) {
            None => StoreReply::Failed(text(NO_ROWS)),
            Some(row) => match read_message(row) {
                Some(message) => StoreReply::Message(message),
                None => garbled(),
            },
        },
        StoreCall::RequestByPair { .. } => match first(rows) {
            None => StoreReply::Failed(text(NO_ROWS)),
            Some(row) => match read_request(row) {
                Some(request) => StoreReply::Request(request),
                None => garbled(),
            },
        },
        StoreCall::PendingRequestById(_) => match first(rows) {
            None => StoreReply::Failed(text(NO_ROWS)),
            Some(row) => match read_ends(row) {
                Some((from, to)) => StoreReply::Ends(from, to),
                None => garbled(),
            },
        },
        StoreCall::FindPrivateRoom { .. } => match first(rows) {
            None => StoreReply::RoomId(None),
            Some(row) => match read_number(row) {
                Some(room_id) => StoreReply::RoomId(Some(room_id)),
                None => garbled(),
            },
        },
        StoreCall::RequestSender(_) => match first(rows) {
            None => StoreReply::Sender(None),
            Some(row) => match read_id(row) {
                Some(sender) => StoreReply::Sender(Some(sender)),
                None => garbled(),
            },
        },
        StoreCall::AllUsers | StoreCall::UsersByIds(_) => match read_each(
            rows,
            read_user,
            true,
            Ghost(|row: Vec<SqlValue>| user_row(row)),
        ) {
            Some(users) => StoreReply::Users(users),
            None => garbled(),
        },
        StoreCall::FriendIdsOf(_) => match read_each(rows, read_id, true, Ghost(|row: Vec<SqlValue>| id_row(row))) {
            Some(ids) => StoreReply::Ids(ids),
            None => garbled(),
        },
        StoreCall::ParticipantsOf { .. } => match read_each(
            rows,
            read_name,
            true,
            Ghost(|row: Vec<SqlValue>| name_row(row)),
        ) {
            Some(names) => StoreReply::Names(names),
            None => garbled(),
        },
        StoreCall::RoomsOf(_) => match read_each(rows, read_room, false, Ghost(|row: Vec<SqlValue>| room_row(row))) {
            Some(rooms) => StoreReply::Rooms(rooms),
            None => garbled(),
        },
        StoreCall::AllRooms => match read_each(
            rows,
            read_admin_room,
            true,
            Ghost(|row: Vec<SqlValue>| admin_room_row(row)),
        ) {
            Some(rooms) => StoreReply::AdminRooms(rooms),
            None => garbled(),
        },
        StoreCall::MessagesOf(_) => match read_each(
            rows,
            read_message,
            true,
            Ghost(|row: Vec<SqlValue>| message_row(row)),
        ) {
            Some(messages) => StoreReply::Messages(messages),
            None => garbled(),
        },
        StoreCall::PendingRequestsFor(_) => match read_each(
            rows,
            read_request,
            true,
            Ghost(|row: Vec<SqlValue>| request_row(row)),
        ) {
            Some(requests) => StoreReply::Requests(requests),
            None => garbled(),
        },
        _ => garbled(),
    }
}

} // verus!
