use chat_hub::records::{ChatMessage, Config, FriendRequestInfo, User};
use chat_hub::sql::{decode, parameters, shape_of, statement, Shape, SqlOutcome, SqlValue};
use chat_hub::storage::{AdminRoomRow, RequestStatus, RoomRow, StoreCall, StoreReply, Table};

fn text(s: &str) -> SqlValue {
    SqlValue::Text(s.to_string())
}

fn whole(i: i64) -> SqlValue {
    SqlValue::Integer(i)
}

fn user_row(id: i64, name: &str) -> Vec<SqlValue> {
    vec![whole(id), text(name), text("hash"), text("normal")]
}

fn user(id: i32, name: &str) -> User {
    User { _id: id, username: name.to_string(), password_hash: "hash".to_string(), role: "normal".to_string() }
}

fn unreadable() -> StoreReply {
    StoreReply::Failed("unreadable result from the database".to_string())
}

fn no_rows() -> StoreReply {
    StoreReply::Failed("Query returned no rows".to_string())
}

#[test]
fn each_call_runs_in_its_own_way() {
    assert_eq!(shape_of(&StoreCall::Configure), Shape::Batch);
    assert_eq!(shape_of(&StoreCall::CreateTable(Table::Users)), Shape::Batch);
    assert_eq!(shape_of(&StoreCall::Begin), Shape::Batch);
    assert_eq!(shape_of(&StoreCall::Commit), Shape::Batch);
    assert_eq!(shape_of(&StoreCall::Rollback), Shape::Batch);
    assert_eq!(shape_of(&StoreCall::DeleteUser(1)), Shape::Execute);
    assert_eq!(shape_of(&StoreCall::InsertParticipant { room_id: 1, user_id: 2 }), Shape::Execute);
    assert_eq!(shape_of(&StoreCall::InsertRequestIfAbsent { from_user_id: 1, to_user_id: 2 }), Shape::Execute);
    assert_eq!(shape_of(&StoreCall::InsertPrivateRoom), Shape::Insert);
    assert_eq!(
        shape_of(&StoreCall::InsertMessage { room_id: 1, sender_username: "a".to_string(), content: "b".to_string() }),
        Shape::Insert
    );
    assert_eq!(shape_of(&StoreCall::CountUsers), Shape::Query);
    assert_eq!(shape_of(&StoreCall::FindPrivateRoom { user1_id: 1, user2_id: 2 }), Shape::Query);
    assert_eq!(shape_of(&StoreCall::AllRooms), Shape::Query);
    assert_eq!(shape_of(&StoreCall::WriteConfig(Config { port: 1 })), Shape::File);
}

#[test]
fn statements_have_their_text() {
    assert_eq!(statement(&StoreCall::Begin), "BEGIN");
    assert_eq!(statement(&StoreCall::Commit), "COMMIT");
    assert_eq!(statement(&StoreCall::Rollback), "ROLLBACK");
    assert_eq!(statement(&StoreCall::CountUsers), "SELECT COUNT(*) FROM users");
    assert_eq!(statement(&StoreCall::DeleteUser(3)), "DELETE FROM users WHERE id = ?1");
    assert_eq!(statement(&StoreCall::InsertPrivateRoom), "INSERT INTO rooms (is_private) VALUES (TRUE)");
    assert_eq!(
        statement(&StoreCall::InsertRequestIfAbsent { from_user_id: 1, to_user_id: 2 }),
        "INSERT OR IGNORE INTO friend_requests (from_user_id, to_user_id) VALUES (?1, ?2)"
    );
    assert_eq!(
        statement(&StoreCall::PendingRequestById(1)),
        "SELECT from_user_id, to_user_id FROM friend_requests WHERE id = ?1 AND status = 'pending'"
    );
    assert_eq!(
        statement(&StoreCall::SetRequestStatus { request_id: 1, status: RequestStatus::Rejected }),
        "UPDATE friend_requests SET status = ?2 WHERE id = ?1 AND status = 'pending'"
    );
    assert!(statement(&StoreCall::ParticipantsOf { room_id: 1, by_name: true }).ends_with("ORDER BY u.username"));
    assert!(!statement(&StoreCall::ParticipantsOf { room_id: 1, by_name: false }).contains("ORDER BY"));
    assert!(statement(&StoreCall::CreateTable(Table::FriendRequests)).contains("UNIQUE(from_user_id, to_user_id)"));
    assert_eq!(statement(&StoreCall::WriteConfig(Config { port: 1 })), "");
}

#[test]
fn a_lookup_by_ids_has_one_placeholder_per_id() {
    let head = "SELECT id, username, password_hash, role FROM users WHERE id IN (";
    assert_eq!(statement(&StoreCall::UsersByIds(vec![])), format!("{})", head));
    assert_eq!(statement(&StoreCall::UsersByIds(vec![5])), format!("{}?)", head));
    assert_eq!(statement(&StoreCall::UsersByIds(vec![5, 6])), format!("{}?,?)", head));
    assert_eq!(statement(&StoreCall::UsersByIds(vec![5, 6, 7, 8])), format!("{}?,?,?,?)", head));
}

#[test]
fn parameters_come_in_the_order_of_their_numbers() {
    assert_eq!(parameters(&StoreCall::Begin), vec![]);
    assert_eq!(parameters(&StoreCall::AllUsers), vec![]);
    assert_eq!(parameters(&StoreCall::UserById(-3)), vec![whole(-3)]);
    assert_eq!(parameters(&StoreCall::UserByName("bob".to_string())), vec![text("bob")]);
    assert_eq!(
        parameters(&StoreCall::InsertUser {
            username: "u".to_string(),
            password_hash: "h".to_string(),
            role: "r".to_string()
        }),
        vec![text("u"), text("h"), text("r")]
    );
    assert_eq!(
        parameters(&StoreCall::SetUserRole { username: "u".to_string(), role: "r".to_string() }),
        vec![text("r"), text("u")]
    );
    assert_eq!(parameters(&StoreCall::InsertToken { token: "t".to_string(), user_id: 4 }), vec![text("t"), whole(4)]);
    assert_eq!(parameters(&StoreCall::FindPrivateRoom { user1_id: 1, user2_id: 2 }), vec![whole(1), whole(2)]);
    assert_eq!(
        parameters(&StoreCall::InsertParticipant { room_id: 9_000_000_000, user_id: 2 }),
        vec![whole(9_000_000_000), whole(2)]
    );
    assert_eq!(
        parameters(&StoreCall::InsertMessage { room_id: 5, sender_username: "a".to_string(), content: "c".to_string() }),
        vec![whole(5), text("a"), text("c")]
    );
    assert_eq!(
        parameters(&StoreCall::SetRequestStatus { request_id: 7, status: RequestStatus::Accepted }),
        vec![whole(7), text("accepted")]
    );
    assert_eq!(
        parameters(&StoreCall::SetRequestStatus { request_id: 7, status: RequestStatus::Rejected }),
        vec![whole(7), text("rejected")]
    );
    assert_eq!(parameters(&StoreCall::FriendIdsOf(3)), vec![whole(3)]);
    assert_eq!(parameters(&StoreCall::UsersByIds(vec![3, 1, 2])), vec![whole(3), whole(1), whole(2)]);
    assert_eq!(parameters(&StoreCall::DeleteAcceptedRequests { user1_id: 1, user2_id: 2 }), vec![whole(1), whole(2)]);
}

#[test]
fn status_names_are_what_storage_keeps() {
    assert_eq!(RequestStatus::Pending.name(), "pending");
    assert_eq!(RequestStatus::Accepted.name(), "accepted");
    assert_eq!(RequestStatus::Rejected.name(), "rejected");
}

#[test]
fn a_failure_is_passed_on_with_its_text() {
    for call in [StoreCall::Begin, StoreCall::DeleteUser(1), StoreCall::InsertPrivateRoom, StoreCall::AllUsers] {
        assert_eq!(decode(&call, SqlOutcome::Failed("no such table: users".to_string())), StoreReply::Failed("no such table: users".to_string()));
    }
}

#[test]
fn statements_that_ran_are_acknowledged() {
    assert_eq!(decode(&StoreCall::Begin, SqlOutcome::Done), StoreReply::Ack);
    assert_eq!(decode(&StoreCall::Configure, SqlOutcome::Done), StoreReply::Ack);
    assert_eq!(decode(&StoreCall::WriteConfig(Config { port: 1 }), SqlOutcome::Done), StoreReply::Ack);
    assert_eq!(decode(&StoreCall::Commit, SqlOutcome::Changed(0)), StoreReply::Ack);
    assert_eq!(decode(&StoreCall::DeleteUser(1), SqlOutcome::Changed(3)), StoreReply::Changed(3));
    assert_eq!(decode(&StoreCall::InsertPrivateRoom, SqlOutcome::Inserted(12)), StoreReply::RowId(12));
}

#[test]
fn an_outcome_of_the_wrong_kind_is_unreadable() {
    assert_eq!(decode(&StoreCall::Begin, SqlOutcome::Inserted(1)), unreadable());
    assert_eq!(decode(&StoreCall::Begin, SqlOutcome::Rows(vec![])), unreadable());
    assert_eq!(decode(&StoreCall::DeleteUser(1), SqlOutcome::Done), unreadable());
    assert_eq!(decode(&StoreCall::DeleteUser(1), SqlOutcome::Rows(vec![])), unreadable());
    assert_eq!(decode(&StoreCall::InsertPrivateRoom, SqlOutcome::Changed(1)), unreadable());
    assert_eq!(decode(&StoreCall::AllUsers, SqlOutcome::Changed(1)), unreadable());
    assert_eq!(decode(&StoreCall::CountUsers, SqlOutcome::Done), unreadable());
}

#[test]
fn a_lookup_takes_the_first_row_and_fails_without_one() {
    let call = StoreCall::UserByName("bob".to_string());
    assert_eq!(decode(&call, SqlOutcome::Rows(vec![user_row(2, "bob")])), StoreReply::User(user(2, "bob")));
    assert_eq!(
        decode(&call, SqlOutcome::Rows(vec![user_row(2, "bob"), user_row(3, "carol")])),
        StoreReply::User(user(2, "bob"))
    );
    assert_eq!(decode(&call, SqlOutcome::Rows(vec![])), no_rows());
    assert_eq!(decode(&StoreCall::UserById(2), SqlOutcome::Rows(vec![])), no_rows());
    assert_eq!(decode(&StoreCall::UserByToken("t".to_string()), SqlOutcome::Rows(vec![user_row(2, "bob")])), StoreReply::User(user(2, "bob")));
    assert_eq!(decode(&StoreCall::CountUsers, SqlOutcome::Rows(vec![vec![whole(0)]])), StoreReply::Count(0));
    assert_eq!(decode(&StoreCall::CountUsers, SqlOutcome::Rows(vec![vec![whole(17)]])), StoreReply::Count(17));
    assert_eq!(decode(&StoreCall::PendingRequestById(7), SqlOutcome::Rows(vec![vec![whole(2), whole(1)]])), StoreReply::Ends(2, 1));
    assert_eq!(decode(&StoreCall::PendingRequestById(7), SqlOutcome::Rows(vec![])), no_rows());
}

#[test]
fn rows_of_the_wrong_shape_are_unreadable() {
    let call = StoreCall::UserById(2);
    let bad = vec![
        vec![whole(2), text("bob"), text("hash")],
        vec![whole(2), text("bob"), text("hash"), text("normal"), text("extra")],
        vec![text("2"), text("bob"), text("hash"), text("normal")],
        vec![whole(2), SqlValue::Null, text("hash"), text("normal")],
        vec![whole(2), text("bob"), text("hash"), SqlValue::Other],
        vec![whole(2_147_483_648), text("bob"), text("hash"), text("normal")],
        vec![whole(-2_147_483_649), text("bob"), text("hash"), text("normal")],
        vec![],
    ];
    for row in bad {
        assert_eq!(decode(&call, SqlOutcome::Rows(vec![row])), unreadable());
    }
    assert_eq!(
        decode(&call, SqlOutcome::Rows(vec![vec![whole(2_147_483_647), text("b"), text("hash"), text("normal")]])),
        StoreReply::User(User { _id: 2_147_483_647, username: "b".to_string(), password_hash: "hash".to_string(), role: "normal".to_string() })
    );
    assert_eq!(
        decode(&call, SqlOutcome::Rows(vec![vec![whole(-2_147_483_648), text("b"), text("hash"), text("normal")]])),
        StoreReply::User(User { _id: -2_147_483_648, username: "b".to_string(), password_hash: "hash".to_string(), role: "normal".to_string() })
    );
    assert_eq!(decode(&StoreCall::CountUsers, SqlOutcome::Rows(vec![vec![text("0")]])), unreadable());
    assert_eq!(decode(&StoreCall::PendingRequestById(1), SqlOutcome::Rows(vec![vec![whole(1)]])), unreadable());
}

#[test]
fn a_search_may_find_nothing() {
    let call = StoreCall::FindPrivateRoom { user1_id: 1, user2_id: 2 };
    assert_eq!(decode(&call, SqlOutcome::Rows(vec![])), StoreReply::RoomId(None));
    assert_eq!(decode(&call, SqlOutcome::Rows(vec![vec![whole(9_000_000_000)]])), StoreReply::RoomId(Some(9_000_000_000)));
    assert_eq!(decode(&call, SqlOutcome::Rows(vec![vec![whole(4)], vec![whole(5)]])), StoreReply::RoomId(Some(4)));
    assert_eq!(decode(&call, SqlOutcome::Rows(vec![vec![SqlValue::Null]])), unreadable());
    assert_eq!(decode(&StoreCall::RequestSender(7), SqlOutcome::Rows(vec![])), StoreReply::Sender(None));
    assert_eq!(decode(&StoreCall::RequestSender(7), SqlOutcome::Rows(vec![vec![whole(2)]])), StoreReply::Sender(Some(2)));
    assert_eq!(decode(&StoreCall::RequestSender(7), SqlOutcome::Rows(vec![vec![whole(1 << 40)]])), unreadable());
}

#[test]
fn lists_keep_the_order_of_their_rows() {
    assert_eq!(
        decode(&StoreCall::AllUsers, SqlOutcome::Rows(vec![user_row(3, "c"), user_row(1, "a"), user_row(2, "b")])),
        StoreReply::Users(vec![user(3, "c"), user(1, "a"), user(2, "b")])
    );
    assert_eq!(decode(&StoreCall::AllUsers, SqlOutcome::Rows(vec![])), StoreReply::Users(vec![]));
    assert_eq!(
        decode(&StoreCall::UsersByIds(vec![1]), SqlOutcome::Rows(vec![user_row(1, "a")])),
        StoreReply::Users(vec![user(1, "a")])
    );
    assert_eq!(
        decode(&StoreCall::FriendIdsOf(1), SqlOutcome::Rows(vec![vec![whole(5)], vec![whole(3)]])),
        StoreReply::Ids(vec![5, 3])
    );
    assert_eq!(
        decode(&StoreCall::ParticipantsOf { room_id: 1, by_name: true }, SqlOutcome::Rows(vec![vec![text("alice")], vec![text("bob")]])),
        StoreReply::Names(vec!["alice".to_string(), "bob".to_string()])
    );
}

#[test]
fn one_unreadable_row_spoils_a_list() {
    assert_eq!(
        decode(&StoreCall::AllUsers, SqlOutcome::Rows(vec![user_row(3, "c"), vec![whole(1)], user_row(2, "b")])),
        unreadable()
    );
    assert_eq!(decode(&StoreCall::FriendIdsOf(1), SqlOutcome::Rows(vec![vec![whole(5)], vec![text("x")]])), unreadable());
    assert_eq!(
        decode(&StoreCall::AllRooms, SqlOutcome::Rows(vec![vec![whole(1), SqlValue::Null, whole(1), SqlValue::Null]])),
        unreadable()
    );
}

#[test]
fn the_rooms_of_a_user_are_listed_without_the_unreadable_rows() {
    let rows = vec![
        vec![whole(5), SqlValue::Null],
        vec![text("x"), SqlValue::Null],
        vec![whole(3), text("lobby")],
        vec![whole(4)],
        vec![whole(6), whole(1)],
    ];
    assert_eq!(
        decode(&StoreCall::RoomsOf(1), SqlOutcome::Rows(rows)),
        StoreReply::Rooms(vec![
            RoomRow { room_id: 5, name: None },
            RoomRow { room_id: 3, name: Some("lobby".to_string()) },
        ])
    );
}

#[test]
fn admin_rooms_read_their_flag_from_an_integer() {
    let rows = vec![
        vec![whole(1), SqlValue::Null, whole(1), text("2024-01-01")],
        vec![whole(2), text("lobby"), whole(0), text("2024-01-02")],
        vec![whole(3), SqlValue::Null, whole(7), text("2024-01-03")],
    ];
    assert_eq!(
        decode(&StoreCall::AllRooms, SqlOutcome::Rows(rows)),
        StoreReply::AdminRooms(vec![
            AdminRoomRow { id: 1, name: None, is_private: true, created_at: "2024-01-01".to_string() },
            AdminRoomRow { id: 2, name: Some("lobby".to_string()), is_private: false, created_at: "2024-01-02".to_string() },
            AdminRoomRow { id: 3, name: None, is_private: true, created_at: "2024-01-03".to_string() },
        ])
    );
}

#[test]
fn messages_and_requests_are_read_column_by_column() {
    let message = vec![whole(11), whole(5), text("alice"), text("hi"), text("2024-01-01 00:00:00")];
    assert_eq!(
        decode(&StoreCall::MessageById(11), SqlOutcome::Rows(vec![message])),
        StoreReply::Message(ChatMessage {
            id: 11,
            room_id: 5,
            sender_username: "alice".to_string(),
            content: "hi".to_string(),
            timestamp: "2024-01-01 00:00:00".to_string(),
        })
    );
    assert_eq!(decode(&StoreCall::MessagesOf(5), SqlOutcome::Rows(vec![])), StoreReply::Messages(vec![]));
    let request = || vec![whole(7), whole(1), text("alice"), whole(2), text("pending"), text("2024-01-01 00:00:00")];
    let info = || FriendRequestInfo {
        id: 7,
        from_user_id: 1,
        from_username: "alice".to_string(),
        to_user_id: 2,
        status: "pending".to_string(),
        timestamp: "2024-01-01 00:00:00".to_string(),
    };
    assert_eq!(
        decode(&StoreCall::RequestByPair { from_user_id: 1, to_user_id: 2 }, SqlOutcome::Rows(vec![request()])),
        StoreReply::Request(info())
    );
    assert_eq!(
        decode(&StoreCall::PendingRequestsFor(2), SqlOutcome::Rows(vec![request(), request()])),
        StoreReply::Requests(vec![info(), info()])
    );
    assert_eq!(decode(&StoreCall::RequestByPair { from_user_id: 1, to_user_id: 2 }, SqlOutcome::Rows(vec![])), no_rows());
}
