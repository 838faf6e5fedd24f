//! One connection from the handshake to its end.
//!
//! A connection starts out authenticating and gets exactly one attempt:
//! `register`, `login` or `auth_with_token`. Registration never yields a
//! session; a failed attempt, any other envelope and any frame that is no
//! envelope end the connection. After a successful login the session is
//! entered in the presence directory and the client is sent its rooms, its
//! pending friend requests and its friends before anything else.

use crate::credentials::{accepted, bcrypt_verdict, mint_token, verify_password, TOKEN_LENGTH};
use crate::db::{DbAnswer, DbRequest};
use crate::handler::{
    binary_forwarded, carries, chat_passed_on, forward_binary, handle_message, handled, request_of, resume,
    resumed, says, wanted, Progress, Task,
};
use crate::presence::ConnId;
use crate::protocol::{
    kind_named, op_kind, send_ws_message_to, ChatMessagePayload, Delivery, OpKind, RequestPayload, ResponseKind,
    ResponsePayload, WsRequestMessage,
};
use crate::records::{ChatMessage, RoomId, User};
use crate::rooms::{holds_nowhere, no_empty_room, without_user};
use crate::state::{AppState, Hub};
use crate::storage::StoreError;
use vstd::prelude::*;

verus! {

/// A frame as it comes off a connection.
#[derive(Debug, PartialEq, Eq)]
pub enum Inbound {
    /// A text frame that holds an envelope.
    Text(WsRequestMessage),
    /// A text frame that holds no envelope.
    Garbled,
    Binary(Vec<u8>),
    /// Any other frame.
    Other,
}

/// A handshake that waits for an answer from storage.
#[derive(Debug, PartialEq, Eq)]
#[allow(inconsistent_fields)]
pub enum AuthTask {
    Register { username: String, password: String },
    /// Look the user up, then check the password.
    LoginLookup { username: String, password: String },
    /// Store the session token minted for the user.
    LoginToken { user: User, token: String },
    TokenLookup { token: String },
}

/// How a handshake goes on.
#[derive(Debug, PartialEq, Eq)]
pub enum Verdict {
    /// Storage has to be asked once more.
    Ask(AuthTask),
    /// The connection ends.
    Close,
    /// The client is this user from now on.
    Authenticated(User),
}

/// What a client is told after it has registered.
pub const REGISTERED: &'static str = "Registration successful. Please log in.";

/// What a client is told when its login is refused, whether the user is
/// unknown or the password wrong.
pub const BAD_CREDENTIALS: &'static str = "Invalid username or password.";

/// What a client is told when its session token cannot be stored.
pub const NO_TOKEN: &'static str = "Failed to create auth token.";

/// What the first frame of a connection leads to: a handshake envelope with
/// a payload of its own shape starts the handshake, everything else ends
/// the connection.
pub open spec fn opening(frame: Inbound) -> Verdict {
    match frame {
        Inbound::Text(req) => match (kind_named(req.kind@), req.payload) {
            (Some(OpKind::Register), RequestPayload::Register(p)) => Verdict::Ask(
                AuthTask::Register { username: p.username, password: p.password },
            ),
            (Some(OpKind::Login), RequestPayload::Login(p)) => Verdict::Ask(
                AuthTask::LoginLookup { username: p.username, password: p.password },
            ),
            (Some(OpKind::AuthWithToken), RequestPayload::AuthWithToken(p)) => Verdict::Ask(
                AuthTask::TokenLookup { token: p.token },
            ),
            _ => Verdict::Close,
        },
        _ => Verdict::Close,
    }
}

/// Starts the handshake on the first frame of a connection.
pub fn authenticate(frame: Inbound) -> (verdict: Verdict)
    ensures
        verdict == opening(frame),
{
    match frame {
        Inbound::Text(req) => match (op_kind(req.kind.as_str()), req.payload) {
            (Some(OpKind::Register), RequestPayload::Register(p)) => Verdict::Ask(
                AuthTask::Register { username: p.username, password: p.password },
            ),
            (Some(OpKind::Login), RequestPayload::Login(p)) => Verdict::Ask(
                AuthTask::LoginLookup { username: p.username, password: p.password },
            ),
            (Some(OpKind::AuthWithToken), RequestPayload::AuthWithToken(p)) => Verdict::Ask(
                AuthTask::TokenLookup { token: p.token },
            ),
            _ => Verdict::Close,
        },
        _ => Verdict::Close,
    }
}

/// The storage operation that a handshake waits for.
pub open spec fn auth_wanted(task: AuthTask) -> DbRequest {
    match task {
        AuthTask::Register { username, password } => DbRequest::CreateUser { username, password, role: None },
        AuthTask::LoginLookup { username, password } => DbRequest::GetUserByUsername(username),
        AuthTask::LoginToken { user, token } => DbRequest::CreateAuthToken { user_id: user._id, token },
        AuthTask::TokenLookup { token } => DbRequest::GetUserByToken(token),
    }
}

/// The storage operation that a handshake waits for.
pub fn auth_request_of(task: &AuthTask) -> (request: DbRequest)
    ensures
        request == auth_wanted(*task),
{
    match task {
        AuthTask::Register { username, password } => DbRequest::CreateUser {
            username: username.clone(),
            password: password.clone(),
            role: None,
        },
        AuthTask::LoginLookup { username, password } => DbRequest::GetUserByUsername(username.clone()),
        AuthTask::LoginToken { user, token } => DbRequest::CreateAuthToken { user_id: user._id, token: token.clone() },
        AuthTask::TokenLookup { token } => DbRequest::GetUserByToken(token.clone()),
    }
}

/// What one turn of the handshake yields.
#[derive(Debug, PartialEq, Eq)]
pub struct AuthTurn {
    pub outbox: Vec<Delivery>,
    pub verdict: Verdict,
}

/// Whether `turn` is what a handshake comes to once storage has given `answer`.
///
/// Registration is confirmed or refused, and ends the connection either
/// way. A login whose user exists and whose password matches goes on to
/// store a freshly minted token, and succeeds once that is stored; any
/// other login is refused and ends the connection. A token that storage
/// knows yields its user; one that it does not know ends the connection
/// without a word.
pub open spec fn auth_resumed(task: AuthTask, answer: Result<DbAnswer, StoreError>, own_tx: ConnId, turn: AuthTurn) -> bool {
    match task {
        AuthTask::Register { username, password } => {
            &&& turn.verdict is Close
            &&& turn.outbox@.len() == 1
            &&& match answer {
                Ok(_) => says(turn.outbox@[0], own_tx, ResponseKind::RegisterOk, REGISTERED@),
                Err(error) => says(turn.outbox@[0], own_tx, ResponseKind::RegisterFail, error.text()),
            }
        },
        AuthTask::LoginLookup { username, password } => match answer {
            Ok(DbAnswer::User(user)) if accepted(bcrypt_verdict(password@, user.password_hash@)) => {
                &&& turn.outbox@.len() == 0
                &&& turn.verdict matches Verdict::Ask(AuthTask::LoginToken { user: found, token })
                &&& found == user
                &&& token@.len() == TOKEN_LENGTH
            },
            _ => {
                &&& turn.verdict is Close
                &&& turn.outbox@.len() == 1
                &&& says(turn.outbox@[0], own_tx, ResponseKind::AuthFail, BAD_CREDENTIALS@)
            },
        },
        AuthTask::LoginToken { user, token } => match answer {
            Ok(DbAnswer::Token(stored)) => {
                &&& turn.verdict == Verdict::Authenticated(user)
                &&& turn.outbox@.len() == 1
                &&& carries(
                    turn.outbox@[0],
                    own_tx,
                    ResponseKind::AuthOk,
                    ResponsePayload::Credentials { username: user.username, role: user.role, token: stored },
                )
            },
            _ => {
                &&& turn.verdict is Close
                &&& turn.outbox@.len() == 1
                &&& says(turn.outbox@[0], own_tx, ResponseKind::AuthFail, NO_TOKEN@)
            },
        },
        AuthTask::TokenLookup { token } => match answer {
            Ok(DbAnswer::User(user)) => {
                &&& turn.verdict == Verdict::Authenticated(user)
                &&& turn.outbox@.len() == 1
                &&& carries(
                    turn.outbox@[0],
                    own_tx,
                    ResponseKind::AuthOk,
                    ResponsePayload::Credentials { username: user.username, role: user.role, token },
                )
            },
            _ => turn.verdict is Close && turn.outbox@.len() == 0,
        },
    }
}

fn closing(delivery: Delivery) -> (turn: AuthTurn)
    ensures
        turn.verdict is Close,
        turn.outbox@ == seq![delivery],
{
    let mut outbox: Vec<Delivery> = Vec::new();
    outbox.push(delivery);
    AuthTurn { outbox, verdict: Verdict::Close }
}

fn say(conn: ConnId, kind: ResponseKind, text: String) -> (delivery: Delivery)
    ensures
        says(delivery, conn, kind, text@),
{
    send_ws_message_to(conn, kind, ResponsePayload::Text(text))
}

fn welcome(user: User, token: String, own_tx: ConnId) -> (turn: AuthTurn)
    ensures
        turn.verdict == Verdict::Authenticated(user),
        turn.outbox@.len() == 1,
        carries(
            turn.outbox@[0],
            own_tx,
            ResponseKind::AuthOk,
            ResponsePayload::Credentials { username: user.username, role: user.role, token },
        ),
{
    let mut outbox: Vec<Delivery> = Vec::new();
    outbox.push(
        send_ws_message_to(
            own_tx,
            ResponseKind::AuthOk,
            ResponsePayload::Credentials { username: user.username.clone(), role: user.role.clone(), token },
        ),
    );
    AuthTurn { outbox, verdict: Verdict::Authenticated(user) }
}

/// Takes the turn of the handshake that follows a storage operation.
pub fn authenticate_resume(task: AuthTask, answer: Result<DbAnswer, StoreError>, own_tx: ConnId) -> (turn: AuthTurn)
    ensures
        auth_resumed(task, answer, own_tx, turn),
{
    match task {
        AuthTask::Register { username, password } => match answer {
            Ok(_) => closing(say(own_tx, ResponseKind::RegisterOk, String::from_str(REGISTERED))),
            Err(error) => closing(say(own_tx, ResponseKind::RegisterFail, error.describe())),
        },
        AuthTask::LoginLookup { username, password } => {
            let found = match answer {
                Ok(DbAnswer::User(user)) => {
                    if verify_password(password.as_str(), user.password_hash.as_str()) {
                        Some(user)
                    } else {
                        None
                    }
                },
                _ => None,
            };
            match found {
                Some(user) => AuthTurn {
                    outbox: Vec::new(),
                    verdict: Verdict::Ask(AuthTask::LoginToken { user, token: mint_token() }),
                },
                None => closing(say(own_tx, ResponseKind::AuthFail, String::from_str(BAD_CREDENTIALS))),
            }
        },
        AuthTask::LoginToken { user, token } => match answer {
            Ok(DbAnswer::Token(stored)) => welcome(user, stored, own_tx),
            _ => closing(say(own_tx, ResponseKind::AuthFail, String::from_str(NO_TOKEN))),
        },
        AuthTask::TokenLookup { token } => match answer {
            Ok(DbAnswer::User(user)) => welcome(user, token, own_tx),
            _ => AuthTurn { outbox: Vec::new(), verdict: Verdict::Close },
        },
    }
}

/// Where a connection stands.
#[derive(Debug, PartialEq, Eq)]
pub enum Stage {
    /// The handshake has not begun.
    Authenticating,
    /// The handshake waits for storage.
    Handshaking(AuthTask),
    /// The handshake succeeded; the client is this user.
    Authenticated(User),
    /// The connection is over.
    Closed,
}

/// The states of a connection as a client can tell them apart.
#[derive(Debug, Clone, Copy, PartialEq, Eq, Structural)]
pub enum Phase {
    Authenticating,
    Authenticated,
    InRoom,
    Closed,
}

/// What a session waits for before it can take another frame.
#[derive(Debug, PartialEq, Eq)]
pub enum Pending {
    /// Nothing: the next frame may come.
    Idle,
    /// A turn that asks nothing of storage: call `on_answer` with any answer.
    Proceed,
    /// The answer to this storage operation.
    Ask(DbRequest),
}

/// What the host has to do after an event.
#[derive(Debug, PartialEq, Eq)]
pub struct Turn {
    /// What to deliver, in this order.
    pub outbox: Vec<Delivery>,
    /// Bring the server down, after waiting this many milliseconds.
    pub shutdown: Option<u64>,
    /// End the connection.
    pub close: bool,
    /// The frame was not taken, because the session waits for storage. Hand
    /// it in again when the session is idle.
    pub deferred: Option<Inbound>,
}

/// One connection: who it is, which room it is in, and what it still has to do.
#[derive(Debug, PartialEq, Eq)]
pub struct Session {
    /// The connection, which is also where the session's own envelopes go.
    pub conn: ConnId,
    pub stage: Stage,
    /// The room the session joined last, if any.
    pub current_room: Option<RoomId>,
    /// The tasks that wait for storage, first things first.
    pub agenda: Vec<Task>,
}

/// Whether the turn asks nothing of the host.
pub open spec fn idle_turn(turn: Turn) -> bool {
    &&& turn.outbox@.len() == 0
    &&& turn.shutdown is None
    &&& !turn.close
    &&& turn.deferred is None
}

/// The verdict of the handshake that left a connection at `stage`.
pub open spec fn verdict_of(stage: Stage) -> Verdict {
    match stage {
        Stage::Handshaking(task) => Verdict::Ask(task),
        Stage::Authenticated(user) => Verdict::Authenticated(user),
        _ => Verdict::Close,
    }
}

/// What a freshly authenticated session has to do first: push the user's
/// rooms, pending friend requests and friends.
pub open spec fn first_pushes(user: User, conn: ConnId) -> Seq<Task> {
    seq![
        Task::PushRooms { user_id: user._id, to: conn },
        Task::PushRequests { user_id: user._id, to: conn },
        Task::PushFriends { user_id: user._id, to: conn },
    ]
}

/// The shared state once the session at `stage` is gone: its user is
/// offline and a member of no room.
pub open spec fn after_departure(hub: Hub, stage: Stage) -> Hub {
    match stage {
        Stage::Authenticated(user) => Hub {
            online: hub.online.remove(user._id),
            rooms: without_user(hub.rooms, user._id),
            armed: hub.armed,
        },
        _ => hub,
    }
}

impl Session {
    /// What the session waits for.
    pub open spec fn waiting(self) -> Pending {
        match self.stage {
            Stage::Handshaking(task) => Pending::Ask(auth_wanted(task)),
            Stage::Authenticated(user) => if self.agenda@.len() > 0 {
                match wanted(self.agenda@[0], user) {
                    Some(request) => Pending::Ask(request),
                    None => Pending::Proceed,
                }
            } else {
                Pending::Idle
            },
            _ => Pending::Idle,
        }
    }

    /// The state of the connection.
    pub open spec fn spec_phase(self) -> Phase {
        match self.stage {
            Stage::Authenticating => Phase::Authenticating,
            Stage::Handshaking(_) => Phase::Authenticating,
            Stage::Authenticated(_) => if self.current_room is Some {
                Phase::InRoom
            } else {
                Phase::Authenticated
            },
            Stage::Closed => Phase::Closed,
        }
    }

    /// Whether a frame taken by an idle session led from `old` to `self`.
    pub open spec fn took(self, old: Session, frame: Inbound, before: Hub, after: Hub, turn: Turn) -> bool {
        &&& self.conn == old.conn
        &&& turn.deferred is None
        &&& match old.stage {
            Stage::Authenticating => {
                &&& after == before
                &&& self.current_room == old.current_room
                &&& self.agenda@ == old.agenda@
                &&& verdict_of(self.stage) == opening(frame)
                &&& self.stage is Handshaking || self.stage is Closed
                &&& turn.outbox@.len() == 0
                &&& turn.shutdown is None
                &&& turn.close == (self.stage is Closed)
            },
            Stage::Authenticated(user) => {
                &&& self.stage == old.stage
                &&& !turn.close
                &&& match frame {
                    Inbound::Text(req) => handled(
                        req,
                        user,
                        old.conn,
                        before,
                        old.current_room,
                        after,
                        self.current_room,
                        Progress { outbox: turn.outbox, agenda: self.agenda, shutdown: turn.shutdown },
                    ),
                    Inbound::Binary(data) => {
                        &&& after == before
                        &&& self.current_room == old.current_room
                        &&& binary_forwarded(
                            data,
                            user,
                            before,
                            old.current_room,
                            Progress { outbox: turn.outbox, agenda: self.agenda, shutdown: turn.shutdown },
                        )
                    },
                    _ => {
                        &&& after == before
                        &&& self.current_room == old.current_room
                        &&& self.agenda@.len() == 0
                        &&& turn.outbox@.len() == 0
                        &&& turn.shutdown is None
                    },
                }
            },
            _ => {
                &&& after == before
                &&& self.stage is Closed
                &&& self.current_room == old.current_room
                &&& self.agenda@ == old.agenda@
                &&& turn.outbox@.len() == 0
                &&& turn.shutdown is None
                &&& turn.close
            },
        }
    }

    /// Whether an answer from storage led from `old` to `self`.
    pub open spec fn answered(
        self,
        old: Session,
        answer: Result<DbAnswer, StoreError>,
        before: Hub,
        after: Hub,
        turn: Turn,
    ) -> bool {
        &&& self.conn == old.conn
        &&& turn.deferred is None
        &&& match old.stage {
            Stage::Handshaking(task) => {
                &&& auth_resumed(
                    task,
                    answer,
                    old.conn,
                    AuthTurn { outbox: turn.outbox, verdict: verdict_of(self.stage) },
                )
                &&& !(self.stage is Authenticating)
                &&& turn.shutdown is None
                &&& turn.close == (self.stage is Closed)
                &&& self.current_room == old.current_room
                &&& match self.stage {
                    Stage::Authenticated(user) => {
                        &&& after == (Hub { online: before.online.insert(user._id, old.conn), ..before })
                        &&& self.agenda@ == first_pushes(user, old.conn)
                    },
                    _ => after == before && self.agenda@ == old.agenda@,
                }
            },
            Stage::Authenticated(user) if old.agenda@.len() > 0 => {
                &&& self.stage == old.stage
                &&& !turn.close
                &&& exists|progress: Progress|
                    {
                        &&& #[trigger] resumed(
                            old.agenda@[0],
                            answer,
                            user,
                            old.conn,
                            before,
                            old.current_room,
                            after,
                            self.current_room,
                            progress,
                        )
                        &&& turn.outbox == progress.outbox
                        &&& turn.shutdown == progress.shutdown
                        &&& self.agenda@ == progress.agenda@ + old.agenda@.drop_first()
                    }
            },
            _ => {
                &&& after == before
                &&& self.stage == old.stage
                &&& self.current_room == old.current_room
                &&& self.agenda@ == old.agenda@
                &&& idle_turn(turn)
            },
        }
    }

    /// A connection that has just been accepted.
    pub fn accept(conn: ConnId) -> (session: Session)
        ensures
            session.conn == conn,
            session.stage is Authenticating,
            session.current_room is None,
            session.agenda@.len() == 0,
    {
        Session { conn, stage: Stage::Authenticating, current_room: None, agenda: Vec::new() }
    }

    /// The state of the connection.
    pub fn phase(&self) -> (phase: Phase)
        ensures
            phase == self.spec_phase(),
    {
        match &self.stage {
            Stage::Authenticating => Phase::Authenticating,
            Stage::Handshaking(_) => Phase::Authenticating,
            Stage::Authenticated(_) => if self.current_room.is_some() {
                Phase::InRoom
            } else {
                Phase::Authenticated
            },
            Stage::Closed => Phase::Closed,
        }
    }

    /// What the session waits for.
    pub fn pending(&self) -> (pending: Pending)
        ensures
            pending == self.waiting(),
    {
        match &self.stage {
            Stage::Handshaking(task) => Pending::Ask(auth_request_of(task)),
            Stage::Authenticated(user) => {
                if self.agenda.len() > 0 {
                    match request_of(&self.agenda[0], user) {
                        Some(request) => Pending::Ask(request),
                        None => Pending::Proceed,
                    }
                } else {
                    Pending::Idle
                }
            },
            _ => Pending::Idle,
        }
    }

    /// Takes a frame from the connection.
    ///
    /// A session that waits for storage takes no frame: it hands the frame
    /// back in `deferred` and changes nothing.
    pub fn on_frame(&mut self, frame: Inbound, state: &mut AppState) -> (turn: Turn)
        ensures
            old(self).waiting() is Idle ==> final(self).took(*old(self), frame, old(state)@, final(state)@, turn),
            !(old(self).waiting() is Idle) ==> {
                &&& *final(self) == *old(self)
                &&& final(state)@ == old(state)@
                &&& turn.deferred == Some(frame)
                &&& turn.outbox@.len() == 0
                &&& turn.shutdown is None
                &&& !turn.close
            },
    {
        let busy = match self.pending() {
            Pending::Idle => false,
            _ => true,
        };
        if busy {
            return Turn { outbox: Vec::new(), shutdown: None, close: false, deferred: Some(frame) };
        }
        let mut stage = Stage::Closed;
        std::mem::swap(&mut self.stage, &mut stage);
        match stage {
            Stage::Authenticating => match authenticate(frame) {
                Verdict::Ask(task) => {
                    self.stage = Stage::Handshaking(task);
                    Turn { outbox: Vec::new(), shutdown: None, close: false, deferred: None }
                },
                _ => {
                    self.stage = Stage::Closed;
                    Turn { outbox: Vec::new(), shutdown: None, close: true, deferred: None }
                },
            },
            Stage::Authenticated(user) => {
                let progress = match frame {
                    Inbound::Text(req) => handle_message(req, state, &user, &mut self.current_room, self.conn),
                    Inbound::Binary(data) => forward_binary(data, state, &user, &self.current_room),
                    _ => Progress { outbox: Vec::new(), agenda: Vec::new(), shutdown: None },
                };
                self.stage = Stage::Authenticated(user);
                self.agenda = progress.agenda;
                Turn { outbox: progress.outbox, shutdown: progress.shutdown, close: false, deferred: None }
            },
            _ => {
                self.stage = Stage::Closed;
                Turn { outbox: Vec::new(), shutdown: None, close: true, deferred: None }
            },
        }
    }

    /// Takes the answer to the storage operation that the session waits for.
    ///
    /// A session that waits for nothing ignores the answer.
    pub fn on_answer(&mut self, answer: Result<DbAnswer, StoreError>, state: &mut AppState) -> (turn: Turn)
        ensures
            final(self).answered(*old(self), answer, old(state)@, final(state)@, turn),
    {
        let mut stage = Stage::Closed;
        std::mem::swap(&mut self.stage, &mut stage);
        match stage {
            Stage::Handshaking(task) => {
                let auth = authenticate_resume(task, answer, self.conn);
                let close = match auth.verdict {
                    Verdict::Ask(next) => {
                        self.stage = Stage::Handshaking(next);
                        false
                    },
                    Verdict::Close => {
                        self.stage = Stage::Closed;
                        true
                    },
                    Verdict::Authenticated(user) => {
                        state.online_users.register(user._id, self.conn);
                        let mut agenda: Vec<Task> = Vec::new();
                        agenda.push(Task::PushRooms { user_id: user._id, to: self.conn });
                        agenda.push(Task::PushRequests { user_id: user._id, to: self.conn });
                        agenda.push(Task::PushFriends { user_id: user._id, to: self.conn });
                        assert(agenda@ =~= first_pushes(user, self.conn));
                        self.agenda = agenda;
                        self.stage = Stage::Authenticated(user);
                        false
                    },
                };
                Turn { outbox: auth.outbox, shutdown: None, close, deferred: None }
            },
            Stage::Authenticated(user) => {
                if self.agenda.len() > 0 {
                    let task = self.agenda.remove(0);
                    let ghost rest = self.agenda@;
                    let progress = resume(task, answer, state, &user, &mut self.current_room, self.conn);
                    let ghost witness = progress;
                    let Progress { outbox, agenda, shutdown } = progress;
                    let mut agenda = agenda;
                    agenda.append(&mut self.agenda);
                    self.agenda = agenda;
                    self.stage = Stage::Authenticated(user);
                    proof {
                        assert(rest =~= old(self).agenda@.drop_first());
                        assert(self.agenda@ == witness.agenda@ + old(self).agenda@.drop_first());
                    }
                    Turn { outbox, shutdown, close: false, deferred: None }
                } else {
                    self.stage = Stage::Authenticated(user);
                    Turn { outbox: Vec::new(), shutdown: None, close: false, deferred: None }
                }
            },
            other => {
                self.stage = other;
                Turn { outbox: Vec::new(), shutdown: None, close: false, deferred: None }
            },
        }
    }

    /// Ends the session: the user leaves the presence directory and every
    /// room it is a member of, whichever it joined first or last; a room
    /// goes with its last member. Ending a session that has ended changes
    /// nothing.
    pub fn on_close(&mut self, state: &mut AppState)
        ensures
            final(self).conn == old(self).conn,
            final(self).stage is Closed,
            final(self).current_room is None,
            final(self).agenda@.len() == 0,
            final(state)@ == after_departure(old(state)@, old(self).stage),
            old(self).stage matches Stage::Authenticated(user) ==> {
                &&& !final(state)@.online.contains_key(user._id)
                &&& holds_nowhere(final(state)@.rooms, user._id)
            },
            no_empty_room(old(state)@.rooms) ==> no_empty_room(final(state)@.rooms),
    {
        let mut stage = Stage::Closed;
        std::mem::swap(&mut self.stage, &mut stage);
        match stage {
            Stage::Authenticated(user) => {
                state.online_users.unregister(user._id);
                state.rooms.evict(user._id);
            },
            _ => {},
        }
        self.current_room = None;
        self.agenda = Vec::new();
    }
}

/// Whether `req` is a chat message with `content` for `room_id`.
pub open spec fn is_chat(req: WsRequestMessage, room_id: RoomId, content: String) -> bool {
    &&& req.kind@ == "send_chat_message"@
    &&& req.payload == RequestPayload::ChatMessage(ChatMessagePayload { room_id, content })
}

/// Law: a chat message goes out before the session takes anything else.
/// An idle session in a room that takes a chat message for that room
/// delivers nothing yet and waits for the message to be stored; while it
/// waits it takes no frame. The turn that takes the stored message
/// delivers it to every member of the room, and only then is the session
/// idle again. So what one sender says to a room reaches each member in
/// the order in which the sender said it.
pub proof fn law_chat_goes_out_before_the_next_frame(
    idle: Session,
    user: User,
    room_id: RoomId,
    content: String,
    req: WsRequestMessage,
    hub: Hub,
    waiting: Session,
    hub_taken: Hub,
    taken: Turn,
    stored: ChatMessage,
    done: Session,
    hub_done: Hub,
    answered: Turn,
)
    requires
        idle.stage == Stage::Authenticated(user),
        idle.agenda@.len() == 0,
        idle.current_room == Some(room_id),
        is_chat(req, room_id, content),
        waiting.took(idle, Inbound::Text(req), hub, hub_taken, taken),
        done.answered(waiting, Ok(DbAnswer::Message(stored)), hub_taken, hub_done, answered),
    ensures
        taken.outbox@.len() == 0,
        !(waiting.waiting() is Idle),
        waiting.waiting() == Pending::Ask(
            DbRequest::CreateMessage { room_id, sender_username: user.username, content },
        ),
        hub_taken == hub && hub_done == hub,
        done.waiting() is Idle,
        chat_passed_on(
            room_id,
            Ok(DbAnswer::Message(stored)),
            hub,
            Progress { outbox: answered.outbox, agenda: done.agenda, shutdown: answered.shutdown },
        ),
{
    reveal_strlit("register");
    reveal_strlit("login");
    reveal_strlit("auth_with_token");
    reveal_strlit("join_room");
    reveal_strlit("send_chat_message");
    assert("register"@.len() == 8);
    assert("login"@.len() == 5);
    assert("auth_with_token"@.len() == 15);
    assert("join_room"@.len() == 9);
    assert("send_chat_message"@.len() == 17);
    assert(kind_named(req.kind@) == Some(OpKind::SendChatMessage));
    assert(waiting.agenda@.drop_first() =~= Seq::<Task>::empty());
}

} // verus!
