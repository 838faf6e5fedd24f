use chat_hub::db::{step, DbAnswer, DbRequest};
use chat_hub::protocol::{
    AuthWithTokenPayload, ChatMessagePayload, DeleteFriendPayload, Delivery, Frame, JoinRoomPayload, LoginPayload,
    RegisterPayload, RequestPayload, RespondToFriendRequestPayload, ResponseKind, ResponsePayload,
    SendFriendRequestPayload, WsRequestMessage,
};
use chat_hub::session::{Inbound, Pending, Phase, Session, Turn};
use chat_hub::sql::{decode, parameters, shape_of, statement, Shape, SqlOutcome, SqlValue};
use chat_hub::state::AppState;
use chat_hub::storage::{Step, StoreCall, StoreError, StoreReply};
use rusqlite::types::Value;
use rusqlite::Connection;

fn to_value(value: SqlValue) -> Value {
    match value {
        SqlValue::Null => Value::Null,
        SqlValue::Integer(number) => Value::Integer(number),
        SqlValue::Text(text) => Value::Text(text),
        SqlValue::Other => Value::Null,
    }
}

fn from_value(value: Value) -> SqlValue {
    match value {
        Value::Null => SqlValue::Null,
        Value::Integer(number) => SqlValue::Integer(number),
        Value::Text(text) => SqlValue::Text(text),
        _ => SqlValue::Other,
    }
}

fn query(conn: &Connection, sql: &str, values: Vec<Value>) -> Result<Vec<Vec<SqlValue>>, rusqlite::Error> {
    let mut statement = conn.prepare(sql)?;
    let columns = statement.column_count();
    let mut rows = statement.query(rusqlite::params_from_iter(values))?;
    let mut out = Vec::new();
    while let Some(row) = rows.next()? {
        let mut cells = Vec::new();
        for index in 0..columns {
            cells.push(from_value(row.get::<usize, Value>(index)?));
        }
        out.push(cells);
    }
    Ok(out)
}

fn run_sql(conn: &Connection, call: &StoreCall) -> SqlOutcome {
    let sql = statement(call);
    let values: Vec<Value> = parameters(call).into_iter().map(to_value).collect();
    let outcome = match shape_of(call) {
        Shape::File => Ok(SqlOutcome::Done),
        Shape::Batch => conn.execute_batch(&sql).map(|_| SqlOutcome::Done),
        Shape::Execute => conn.execute(&sql, rusqlite::params_from_iter(values)).map(SqlOutcome::Changed),
        Shape::Insert => conn
            .execute(&sql, rusqlite::params_from_iter(values))
            .map(|_| SqlOutcome::Inserted(conn.last_insert_rowid())),
        Shape::Query => query(conn, &sql, values).map(SqlOutcome::Rows),
    };
    match outcome {
        Ok(outcome) => outcome,
        Err(error) => SqlOutcome::Failed(error.to_string()),
    }
}

fn perform(conn: &Connection, call: &StoreCall) -> StoreReply {
    decode(call, run_sql(conn, call))
}

fn run(conn: &Connection, request: &DbRequest) -> Result<DbAnswer, StoreError> {
    let mut replies = Vec::new();
    loop {
        match step(request, &mut replies) {
            Step::Call(call) => replies.push(perform(conn, &call)),
            Step::Done(result) => return result,
        }
    }
}

fn settle(session: &mut Session, state: &mut AppState, conn: &Connection, first: Turn) -> Vec<Delivery> {
    let mut out = first.outbox;
    loop {
        let turn = match session.pending() {
            Pending::Idle => return out,
            Pending::Proceed => session.on_answer(Ok(DbAnswer::Unit), state),
            Pending::Ask(request) => {
                let answer = run(conn, &request);
                session.on_answer(answer, state)
            }
        };
        out.extend(turn.outbox);
    }
}

fn send(session: &mut Session, state: &mut AppState, conn: &Connection, kind: &str, payload: RequestPayload) -> Vec<Delivery> {
    let frame = Inbound::Text(WsRequestMessage { kind: kind.to_string(), payload });
    let turn = session.on_frame(frame, state);
    assert!(turn.deferred.is_none());
    settle(session, state, conn, turn)
}

fn fresh_db() -> Connection {
    let conn = Connection::open_in_memory().unwrap();
    assert_eq!(run(&conn, &DbRequest::InitDb), Ok(DbAnswer::Unit));
    conn
}

fn add_user(conn: &Connection, id: i32, name: &str, role: &str, token: &str) {
    conn.execute(
        "INSERT INTO users (id, username, password_hash, role) VALUES (?1, ?2, 'x', ?3)",
        rusqlite::params_from_iter(vec![
            Value::Integer(id as i64),
            Value::Text(name.to_string()),
            Value::Text(role.to_string()),
        ]),
    )
    .unwrap();
    conn.execute(
        "INSERT INTO auth_tokens (token, user_id) VALUES (?1, ?2)",
        rusqlite::params_from_iter(vec![Value::Text(token.to_string()), Value::Integer(id as i64)]),
    )
    .unwrap();
}

fn log_in(state: &mut AppState, conn: &Connection, connection: u64, token: &str) -> (Session, Vec<Delivery>) {
    let mut session = Session::accept(connection);
    let out = send(
        &mut session,
        state,
        conn,
        "auth_with_token",
        RequestPayload::AuthWithToken(AuthWithTokenPayload { token: token.to_string() }),
    );
    (session, out)
}

fn kinds(out: &Vec<Delivery>, to: u64) -> Vec<ResponseKind> {
    let mut found = Vec::new();
    for delivery in out {
        if delivery.to.contains(&to) {
            if let Frame::Text(message) = &delivery.frame {
                found.push(message.kind);
            }
        }
    }
    found
}

fn payload_of(out: &Vec<Delivery>, to: u64, kind: ResponseKind) -> Option<&ResponsePayload> {
    for delivery in out {
        if delivery.to.contains(&to) {
            if let Frame::Text(message) = &delivery.frame {
                if message.kind == kind {
                    return Some(&message.payload);
                }
            }
        }
    }
    None
}

fn count(conn: &Connection, sql: &str) -> i64 {
    conn.query_row(sql, [], |row| row.get::<usize, i64>(0)).unwrap()
}

#[test]
fn a_request_to_an_offline_user_surfaces_on_the_next_login() {
    let conn = fresh_db();
    let mut state = AppState::new();

    let mut registering = Session::accept(1);
    let out = send(
        &mut registering,
        &mut state,
        &conn,
        "register",
        RequestPayload::Register(RegisterPayload { username: "alice".to_string(), password: "wonderland".to_string() }),
    );
    assert_eq!(kinds(&out, 1), vec![ResponseKind::RegisterOk]);
    assert_eq!(
        payload_of(&out, 1, ResponseKind::RegisterOk),
        Some(&ResponsePayload::Text("Registration successful. Please log in.".to_string()))
    );
    assert_eq!(registering.phase(), Phase::Closed);
    assert!(!state.online_users.is_online(1));
    add_user(&conn, 2, "bob", "normal", "bob-token");

    let mut alice = Session::accept(2);
    let out = send(
        &mut alice,
        &mut state,
        &conn,
        "login",
        RequestPayload::Login(LoginPayload { username: "alice".to_string(), password: "wonderland".to_string() }),
    );
    assert_eq!(
        kinds(&out, 2),
        vec![ResponseKind::AuthOk, ResponseKind::ChatList, ResponseKind::FriendRequests, ResponseKind::FriendList]
    );
    match payload_of(&out, 2, ResponseKind::AuthOk) {
        Some(ResponsePayload::Credentials { username, role, token }) => {
            assert_eq!(username, "alice");
            assert_eq!(role, "admin");
            assert_eq!(token.len(), 36);
            assert_eq!(count(&conn, "SELECT COUNT(*) FROM auth_tokens WHERE user_id = 1"), 1);
        }
        other => panic!("no credentials: {:?}", other),
    }
    assert_eq!(alice.phase(), Phase::Authenticated);
    assert_eq!(state.online_users.lookup(1), Some(2));

    let out = send(
        &mut alice,
        &mut state,
        &conn,
        "send_friend_request",
        RequestPayload::SendFriendRequest(SendFriendRequestPayload { username: "bob".to_string() }),
    );
    assert_eq!(out.len(), 1);
    assert_eq!(kinds(&out, 2), vec![ResponseKind::FriendRequestSent]);
    assert_eq!(
        payload_of(&out, 2, ResponseKind::FriendRequestSent),
        Some(&ResponsePayload::Username { username: "bob".to_string() })
    );
    assert_eq!(count(&conn, "SELECT COUNT(*) FROM friend_requests WHERE status = 'pending'"), 1);

    let (bob, out) = log_in(&mut state, &conn, 3, "bob-token");
    assert_eq!(bob.phase(), Phase::Authenticated);
    match payload_of(&out, 3, ResponseKind::FriendRequests) {
        Some(ResponsePayload::Requests(requests)) => {
            assert_eq!(requests.len(), 1);
            assert_eq!(requests[0].from_user_id, 1);
            assert_eq!(requests[0].from_username, "alice");
            assert_eq!(requests[0].to_user_id, 2);
            assert_eq!(requests[0].status, "pending");
        }
        other => panic!("no pending requests: {:?}", other),
    }
}

#[test]
fn accepting_refreshes_both_sides_and_makes_one_room() {
    let conn = fresh_db();
    let mut state = AppState::new();
    add_user(&conn, 1, "alice", "normal", "alice-token");
    add_user(&conn, 2, "bob", "normal", "bob-token");
    conn.execute("INSERT INTO friend_requests (id, from_user_id, to_user_id) VALUES (7, 2, 1)", []).unwrap();
    let (mut alice, _) = log_in(&mut state, &conn, 10, "alice-token");
    let (_bob, _) = log_in(&mut state, &conn, 20, "bob-token");

    let out = send(
        &mut alice,
        &mut state,
        &conn,
        "respond_to_friend_request",
        RequestPayload::RespondToFriendRequest(RespondToFriendRequestPayload { request_id: 7, accept: true }),
    );
    assert_eq!(
        kinds(&out, 10),
        vec![
            ResponseKind::FriendRequestAccepted,
            ResponseKind::ChatList,
            ResponseKind::FriendRequests,
            ResponseKind::FriendList
        ]
    );
    assert_eq!(
        kinds(&out, 20),
        vec![ResponseKind::FriendRequestAccepted, ResponseKind::ChatList, ResponseKind::FriendList]
    );
    assert_eq!(
        payload_of(&out, 10, ResponseKind::FriendRequestAccepted),
        Some(&ResponsePayload::FromUsername { from_username: "bob".to_string() })
    );
    assert_eq!(
        payload_of(&out, 20, ResponseKind::FriendRequestAccepted),
        Some(&ResponsePayload::FromUsername { from_username: "alice".to_string() })
    );
    for (to, friend, friend_id) in [(10u64, "bob", 2), (20u64, "alice", 1)] {
        match payload_of(&out, to, ResponseKind::FriendList) {
            Some(ResponsePayload::Friends(friends)) => {
                assert_eq!(friends.len(), 1);
                assert_eq!(friends[0].id, friend_id);
                assert_eq!(friends[0].username, friend);
                assert!(friends[0].is_online);
            }
            other => panic!("no friend list: {:?}", other),
        }
        match payload_of(&out, to, ResponseKind::ChatList) {
            Some(ResponsePayload::Rooms(rooms)) => {
                assert_eq!(rooms.len(), 1);
                assert_eq!(rooms[0].participants, vec!["alice".to_string(), "bob".to_string()]);
            }
            other => panic!("no chat list: {:?}", other),
        }
    }
    assert_eq!(count(&conn, "SELECT COUNT(*) FROM rooms"), 1);
    assert_eq!(count(&conn, "SELECT COUNT(*) FROM room_participants"), 2);
    assert_eq!(count(&conn, "SELECT COUNT(*) FROM friend_requests WHERE id = 7 AND status = 'accepted'"), 1);

    let out = send(
        &mut alice,
        &mut state,
        &conn,
        "respond_to_friend_request",
        RequestPayload::RespondToFriendRequest(RespondToFriendRequestPayload { request_id: 7, accept: true }),
    );
    assert_eq!(kinds(&out, 10), vec![ResponseKind::FriendRequestFail]);
    assert_eq!(
        payload_of(&out, 10, ResponseKind::FriendRequestFail),
        Some(&ResponsePayload::Error { error: "Query returned no rows".to_string() })
    );
    assert_eq!(count(&conn, "SELECT COUNT(*) FROM rooms"), 1);
}

#[test]
fn a_second_login_replaces_the_presence_entry() {
    let conn = fresh_db();
    let mut state = AppState::new();
    add_user(&conn, 1, "alice", "normal", "alice-token");
    conn.execute("INSERT INTO rooms (id, is_private) VALUES (42, FALSE)", []).unwrap();
    let (mut first, _) = log_in(&mut state, &conn, 10, "alice-token");

    let out = send(&mut first, &mut state, &conn, "join_room", RequestPayload::JoinRoom(JoinRoomPayload { room_id: 42 }));
    assert_eq!(kinds(&out, 10), vec![ResponseKind::JoinOk, ResponseKind::MessageHistory]);
    assert_eq!(payload_of(&out, 10, ResponseKind::JoinOk), Some(&ResponsePayload::Joined { room_id: 42 }));
    assert_eq!(payload_of(&out, 10, ResponseKind::MessageHistory), Some(&ResponsePayload::Messages(vec![])));
    assert_eq!(first.phase(), Phase::InRoom);

    let out = send(
        &mut first,
        &mut state,
        &conn,
        "send_chat_message",
        RequestPayload::ChatMessage(ChatMessagePayload { room_id: 42, content: "hi".to_string() }),
    );
    assert_eq!(out.len(), 1);
    assert_eq!(out[0].to, vec![10]);
    match payload_of(&out, 10, ResponseKind::NewChatMessage) {
        Some(ResponsePayload::Message(message)) => {
            assert_eq!(message.room_id, 42);
            assert_eq!(message.sender_username, "alice");
            assert_eq!(message.content, "hi");
        }
        other => panic!("no chat message: {:?}", other),
    }

    let (mut second, _) = log_in(&mut state, &conn, 11, "alice-token");
    assert_eq!(state.online_users.lookup(1), Some(11));
    assert_eq!(state.rooms.roster(42, None), vec![(1, 10)]);

    first.on_close(&mut state);
    assert_eq!(first.phase(), Phase::Closed);
    assert!(!state.online_users.is_online(1));
    assert!(!state.rooms.is_live(42));
    assert_eq!(second.phase(), Phase::Authenticated);
    second.on_close(&mut state);
    assert!(!state.online_users.is_online(1));
}

#[test]
fn deleting_a_friendship_removes_room_messages_and_request() {
    let conn = fresh_db();
    let mut state = AppState::new();
    add_user(&conn, 1, "alice", "normal", "alice-token");
    add_user(&conn, 2, "bob", "normal", "bob-token");
    conn.execute("INSERT INTO friend_requests (id, from_user_id, to_user_id) VALUES (1, 1, 2)", []).unwrap();
    assert_eq!(run(&conn, &DbRequest::AcceptFriendRequest(1)), Ok(DbAnswer::Sender(Some(1))));
    let room = match run(&conn, &DbRequest::GetOrCreatePrivateRoom { user1_id: 1, user2_id: 2 }) {
        Ok(DbAnswer::RoomId(room)) => room,
        other => panic!("no room: {:?}", other),
    };
    assert_eq!(
        run(&conn, &DbRequest::GetOrCreatePrivateRoom { user1_id: 2, user2_id: 1 }),
        Ok(DbAnswer::RoomId(room))
    );
    assert!(matches!(
        run(
            &conn,
            &DbRequest::CreateMessage { room_id: room, sender_username: "alice".to_string(), content: "hello".to_string() }
        ),
        Ok(DbAnswer::Message(_))
    ));
    assert_eq!(count(&conn, "SELECT COUNT(*) FROM messages"), 1);

    let (mut alice, _) = log_in(&mut state, &conn, 10, "alice-token");
    let (_bob, _) = log_in(&mut state, &conn, 20, "bob-token");
    let out = send(
        &mut alice,
        &mut state,
        &conn,
        "delete_friend",
        RequestPayload::DeleteFriend(DeleteFriendPayload { friend_id: 2 }),
    );
    assert_eq!(kinds(&out, 10), vec![ResponseKind::FriendList, ResponseKind::ChatList]);
    assert_eq!(kinds(&out, 20), vec![ResponseKind::FriendList, ResponseKind::ChatList]);
    assert_eq!(payload_of(&out, 10, ResponseKind::FriendList), Some(&ResponsePayload::Friends(vec![])));
    assert_eq!(payload_of(&out, 20, ResponseKind::ChatList), Some(&ResponsePayload::Rooms(vec![])));
    assert_eq!(count(&conn, "SELECT COUNT(*) FROM rooms"), 0);
    assert_eq!(count(&conn, "SELECT COUNT(*) FROM room_participants"), 0);
    assert_eq!(count(&conn, "SELECT COUNT(*) FROM messages"), 0);
    assert_eq!(count(&conn, "SELECT COUNT(*) FROM friend_requests"), 0);

    match run(&conn, &DbRequest::GetOrCreatePrivateRoom { user1_id: 1, user2_id: 2 }) {
        Ok(DbAnswer::RoomId(again)) => {
            assert_ne!(again, room);
            assert_eq!(run(&conn, &DbRequest::GetMessagesForRoom(again)), Ok(DbAnswer::Messages(vec![])));
        }
        other => panic!("no room: {:?}", other),
    }
    assert_eq!(count(&conn, "SELECT COUNT(*) FROM rooms"), 1);
}

#[test]
fn rejecting_an_accepted_request_leaves_the_friendship() {
    let conn = fresh_db();
    add_user(&conn, 1, "alice", "normal", "a");
    add_user(&conn, 2, "bob", "normal", "b");
    conn.execute("INSERT INTO friend_requests (id, from_user_id, to_user_id) VALUES (7, 2, 1)", []).unwrap();
    assert_eq!(run(&conn, &DbRequest::AcceptFriendRequest(7)), Ok(DbAnswer::Sender(Some(2))));
    assert_eq!(run(&conn, &DbRequest::RejectFriendRequest(7)), Ok(DbAnswer::Sender(Some(2))));
    assert_eq!(count(&conn, "SELECT COUNT(*) FROM friend_requests WHERE id = 7 AND status = 'accepted'"), 1);
    assert_eq!(count(&conn, "SELECT COUNT(*) FROM rooms"), 1);
    match run(&conn, &DbRequest::GetFriends(1)) {
        Ok(DbAnswer::Users(users)) => assert_eq!(users.len(), 1),
        other => panic!("no friends: {:?}", other),
    }
    conn.execute("INSERT INTO friend_requests (id, from_user_id, to_user_id, status) VALUES (8, 1, 2, 'rejected')", []).unwrap();
    assert_eq!(run(&conn, &DbRequest::RejectFriendRequest(8)), Ok(DbAnswer::Sender(Some(1))));
    assert_eq!(
        run(&conn, &DbRequest::AcceptFriendRequest(8)),
        Err(StoreError::Failed("Query returned no rows".to_string()))
    );
    assert_eq!(count(&conn, "SELECT COUNT(*) FROM friend_requests WHERE id = 8 AND status = 'rejected'"), 1);
}

#[test]
fn repeated_calls_yield_the_same_private_room() {
    let conn = fresh_db();
    add_user(&conn, 1, "alice", "normal", "a");
    add_user(&conn, 2, "bob", "normal", "b");
    add_user(&conn, 3, "carol", "normal", "c");
    let room = |a, b| match run(&conn, &DbRequest::GetOrCreatePrivateRoom { user1_id: a, user2_id: b }) {
        Ok(DbAnswer::RoomId(room)) => room,
        other => panic!("no room: {:?}", other),
    };
    let first = room(1, 2);
    for _ in 0..3 {
        assert_eq!(room(1, 2), first);
        assert_eq!(room(2, 1), first);
    }
    let other = room(1, 3);
    assert_ne!(other, first);
    assert_eq!(room(3, 1), other);
    assert_eq!(room(1, 2), first);
    assert_eq!(count(&conn, "SELECT COUNT(*) FROM rooms"), 2);
    assert_eq!(count(&conn, "SELECT COUNT(*) FROM room_participants"), 4);
}

#[test]
fn a_private_room_for_a_user_who_does_not_exist_is_rolled_back() {
    let conn = fresh_db();
    add_user(&conn, 1, "alice", "normal", "a");
    let result = run(&conn, &DbRequest::GetOrCreatePrivateRoom { user1_id: 1, user2_id: 99 });
    assert_eq!(result, Err(StoreError::Failed("FOREIGN KEY constraint failed".to_string())));
    assert_eq!(count(&conn, "SELECT COUNT(*) FROM rooms"), 0);
    assert_eq!(count(&conn, "SELECT COUNT(*) FROM room_participants"), 0);
}

#[test]
fn sending_a_request_twice_returns_the_same_request_unchanged() {
    let conn = fresh_db();
    add_user(&conn, 1, "alice", "normal", "a");
    add_user(&conn, 2, "bob", "normal", "b");
    let send = || match run(&conn, &DbRequest::SendFriendRequest { from_user_id: 1, to_user_id: 2 }) {
        Ok(DbAnswer::Request(info)) => info,
        other => panic!("no request: {:?}", other),
    };
    let first = send();
    assert_eq!((first.from_user_id, first.to_user_id), (1, 2));
    assert_eq!(first.from_username, "alice");
    assert_eq!(first.status, "pending");
    assert_eq!(send(), first);
    assert_eq!(count(&conn, "SELECT COUNT(*) FROM friend_requests"), 1);

    assert_eq!(run(&conn, &DbRequest::AcceptFriendRequest(first.id)), Ok(DbAnswer::Sender(Some(1))));
    let again = send();
    assert_eq!(again.id, first.id);
    assert_eq!(again.status, "accepted");
    assert_eq!(count(&conn, "SELECT COUNT(*) FROM friend_requests"), 1);
    assert_eq!(count(&conn, "SELECT COUNT(*) FROM rooms"), 1);
}

#[test]
fn a_request_is_accepted_at_most_once() {
    let conn = fresh_db();
    add_user(&conn, 1, "alice", "normal", "a");
    add_user(&conn, 2, "bob", "normal", "b");
    conn.execute("INSERT INTO friend_requests (id, from_user_id, to_user_id) VALUES (7, 2, 1)", []).unwrap();
    assert_eq!(run(&conn, &DbRequest::AcceptFriendRequest(7)), Ok(DbAnswer::Sender(Some(2))));
    assert_eq!(
        run(&conn, &DbRequest::AcceptFriendRequest(7)),
        Err(StoreError::Failed("Query returned no rows".to_string()))
    );
    assert_eq!(
        run(&conn, &DbRequest::AcceptFriendRequest(8)),
        Err(StoreError::Failed("Query returned no rows".to_string()))
    );
    assert_eq!(count(&conn, "SELECT COUNT(*) FROM rooms"), 1);
    assert_eq!(count(&conn, "SELECT COUNT(*) FROM friend_requests WHERE status = 'accepted'"), 1);
}

#[test]
fn rejecting_marks_the_request_and_names_the_sender() {
    let conn = fresh_db();
    add_user(&conn, 1, "alice", "normal", "a");
    add_user(&conn, 2, "bob", "normal", "b");
    conn.execute("INSERT INTO friend_requests (id, from_user_id, to_user_id) VALUES (7, 2, 1)", []).unwrap();
    assert_eq!(run(&conn, &DbRequest::RejectFriendRequest(7)), Ok(DbAnswer::Sender(Some(2))));
    assert_eq!(count(&conn, "SELECT COUNT(*) FROM friend_requests WHERE id = 7 AND status = 'rejected'"), 1);
    assert_eq!(run(&conn, &DbRequest::RejectFriendRequest(8)), Ok(DbAnswer::Sender(None)));
    assert_eq!(
        run(&conn, &DbRequest::AcceptFriendRequest(7)),
        Err(StoreError::Failed("Query returned no rows".to_string()))
    );
    assert_eq!(run(&conn, &DbRequest::GetFriendRequests(1)), Ok(DbAnswer::Requests(vec![])));
}

#[test]
fn friends_are_the_other_ends_of_accepted_requests() {
    let conn = fresh_db();
    add_user(&conn, 1, "alice", "normal", "a");
    add_user(&conn, 2, "bob", "normal", "b");
    add_user(&conn, 3, "carol", "normal", "c");
    add_user(&conn, 4, "dave", "normal", "d");
    conn.execute(
        "INSERT INTO friend_requests (from_user_id, to_user_id, status) VALUES (1, 2, 'accepted'), (3, 1, 'accepted'), (1, 4, 'pending')",
        [],
    )
    .unwrap();
    let names = |user| match run(&conn, &DbRequest::GetFriends(user)) {
        Ok(DbAnswer::Users(users)) => {
            let mut names: Vec<String> = users.into_iter().map(|u| u.username).collect();
            names.sort();
            names
        }
        other => panic!("no friends: {:?}", other),
    };
    assert_eq!(names(1), vec!["bob".to_string(), "carol".to_string()]);
    assert_eq!(names(2), vec!["alice".to_string()]);
    assert_eq!(names(4), Vec::<String>::new());
}

#[test]
fn the_admin_lists_show_all_users_and_rooms() {
    let conn = fresh_db();
    add_user(&conn, 1, "alice", "admin", "a");
    add_user(&conn, 2, "bob", "normal", "b");
    match run(&conn, &DbRequest::GetAllUsers) {
        Ok(DbAnswer::Users(users)) => {
            assert_eq!(users.len(), 2);
            assert_eq!(users[0].role, "admin");
        }
        other => panic!("no users: {:?}", other),
    }
    let room = match run(&conn, &DbRequest::GetOrCreatePrivateRoom { user1_id: 2, user2_id: 1 }) {
        Ok(DbAnswer::RoomId(room)) => room,
        other => panic!("no room: {:?}", other),
    };
    match run(&conn, &DbRequest::GetAllRooms) {
        Ok(DbAnswer::AdminRooms(rooms)) => {
            assert_eq!(rooms.len(), 1);
            assert_eq!(rooms[0].id, room);
            assert!(rooms[0].is_private);
            assert_eq!(rooms[0].name, None);
            let mut participants = rooms[0].participants.clone();
            participants.sort();
            assert_eq!(participants, vec!["alice".to_string(), "bob".to_string()]);
        }
        other => panic!("no rooms: {:?}", other),
    }
    assert_eq!(run(&conn, &DbRequest::SetUserRole { username: "bob".to_string(), role: "admin".to_string() }), Ok(DbAnswer::Changed(1)));
    assert_eq!(run(&conn, &DbRequest::DeleteRoom(room)), Ok(DbAnswer::Changed(1)));
    assert_eq!(run(&conn, &DbRequest::DeleteRoom(room)), Ok(DbAnswer::Changed(0)));
    assert_eq!(run(&conn, &DbRequest::DeleteUser(2)), Ok(DbAnswer::Changed(1)));
    assert_eq!(count(&conn, "SELECT COUNT(*) FROM users"), 1);
    assert_eq!(count(&conn, "SELECT COUNT(*) FROM auth_tokens"), 1);
}

#[test]
fn registering_a_name_twice_is_refused() {
    let conn = fresh_db();
    let mut state = AppState::new();
    add_user(&conn, 1, "alice", "admin", "a");
    let mut session = Session::accept(1);
    let out = send(
        &mut session,
        &mut state,
        &conn,
        "register",
        RequestPayload::Register(RegisterPayload { username: "alice".to_string(), password: "pw".to_string() }),
    );
    assert_eq!(kinds(&out, 1), vec![ResponseKind::RegisterFail]);
    assert_eq!(
        payload_of(&out, 1, ResponseKind::RegisterFail),
        Some(&ResponsePayload::Text("UNIQUE constraint failed: users.username".to_string()))
    );
    assert_eq!(session.phase(), Phase::Closed);
    assert_eq!(count(&conn, "SELECT COUNT(*) FROM users"), 1);
}

#[test]
fn messages_come_back_oldest_first() {
    let conn = fresh_db();
    add_user(&conn, 1, "alice", "normal", "a");
    conn.execute("INSERT INTO rooms (id, is_private) VALUES (42, FALSE)", []).unwrap();
    conn.execute(
        "INSERT INTO messages (room_id, sender_username, content, timestamp) VALUES (42, 'alice', 'second', '2024-01-02 00:00:00'), (42, 'alice', 'first', '2024-01-01 00:00:00')",
        [],
    )
    .unwrap();
    match run(&conn, &DbRequest::GetMessagesForRoom(42)) {
        Ok(DbAnswer::Messages(messages)) => {
            let contents: Vec<&str> = messages.iter().map(|m| m.content.as_str()).collect();
            assert_eq!(contents, vec!["first", "second"]);
        }
        other => panic!("no messages: {:?}", other),
    }
    assert_eq!(
        run(&conn, &DbRequest::CreateMessage { room_id: 43, sender_username: "alice".to_string(), content: "x".to_string() }),
        Err(StoreError::Failed("FOREIGN KEY constraint failed".to_string()))
    );
}

#[test]
fn two_chat_messages_reach_every_member_in_the_order_sent() {
    let conn = fresh_db();
    let mut state = AppState::new();
    add_user(&conn, 1, "alice", "normal", "alice-token");
    add_user(&conn, 2, "bob", "normal", "bob-token");
    conn.execute("INSERT INTO rooms (id, is_private) VALUES (42, FALSE)", []).unwrap();
    let (mut alice, _) = log_in(&mut state, &conn, 10, "alice-token");
    let (mut bob, _) = log_in(&mut state, &conn, 20, "bob-token");
    send(&mut alice, &mut state, &conn, "join_room", RequestPayload::JoinRoom(JoinRoomPayload { room_id: 42 }));
    send(&mut bob, &mut state, &conn, "join_room", RequestPayload::JoinRoom(JoinRoomPayload { room_id: 42 }));

    let mut out = Vec::new();
    for content in ["first", "second"] {
        out.extend(send(
            &mut alice,
            &mut state,
            &conn,
            "send_chat_message",
            RequestPayload::ChatMessage(ChatMessagePayload { room_id: 42, content: content.to_string() }),
        ));
    }
    assert_eq!(out.len(), 2);
    let mut ids = Vec::new();
    for (delivery, content) in out.iter().zip(["first", "second"]) {
        let mut to = delivery.to.clone();
        to.sort();
        assert_eq!(to, vec![10, 20]);
        match &delivery.frame {
            Frame::Text(message) => match &message.payload {
                ResponsePayload::Message(stored) => {
                    assert_eq!(message.kind, ResponseKind::NewChatMessage);
                    assert_eq!(stored.content, content);
                    ids.push(stored.id);
                }
                other => panic!("no message: {:?}", other),
            },
            other => panic!("no envelope: {:?}", other),
        }
    }
    assert!(ids[0] < ids[1]);
}
