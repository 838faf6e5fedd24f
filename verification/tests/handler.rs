use chat_hub::db::{DbAnswer, DbRequest};
use chat_hub::handler::{
    forward_binary, handle_get_friend_list, handle_get_friend_requests, handle_get_user_rooms, handle_message,
    request_of, resume, Progress, Task,
};
use chat_hub::protocol::{
    AdminChangePortPayload, AdminCreateUserPayload, AdminDeleteRoomPayload, AdminDeleteUserPayload,
    ChatMessagePayload, DeleteFriendPayload, Delivery, Frame, InvitationPayload, JoinRoomPayload, LoginPayload,
    QuickChatPayload, RequestPayload, RespondToFriendRequestPayload, ResponseKind, ResponsePayload,
    SendFriendRequestPayload, VoiceChatInvitationPayload, WsRequestMessage, WsResponseMessage,
};
use chat_hub::records::{ChatMessage, Config, FriendInfo, FriendRequestInfo, RoomInfo, User};
use chat_hub::state::AppState;
use chat_hub::storage::StoreError;

fn alice() -> User {
    User { _id: 1, username: "alice".to_string(), password_hash: "h".to_string(), role: "normal".to_string() }
}

fn root() -> User {
    User { _id: 9, username: "root".to_string(), password_hash: "h".to_string(), role: "admin".to_string() }
}

fn bob() -> User {
    User { _id: 2, username: "bob".to_string(), password_hash: "h".to_string(), role: "normal".to_string() }
}

fn req(kind: &str, payload: RequestPayload) -> WsRequestMessage {
    WsRequestMessage { kind: kind.to_string(), payload }
}

fn envelope(to: u64, kind: ResponseKind, payload: ResponsePayload) -> Delivery {
    Delivery { to: vec![to], frame: Frame::Text(WsResponseMessage { kind, payload }) }
}

fn error(to: u64, kind: ResponseKind, text: &str) -> Delivery {
    envelope(to, kind, ResponsePayload::Error { error: text.to_string() })
}

fn quiet() -> Progress {
    Progress { outbox: vec![], agenda: vec![], shutdown: None }
}

fn asks(task: Task) -> Progress {
    Progress { outbox: vec![], agenda: vec![task], shutdown: None }
}

fn delivers(delivery: Delivery) -> Progress {
    Progress { outbox: vec![delivery], agenda: vec![], shutdown: None }
}

fn first_turn(user: &User, room: &mut Option<i64>, state: &mut AppState, message: WsRequestMessage) -> Progress {
    handle_message(message, state, user, room, 10)
}

fn next_turn(task: Task, answer: Result<DbAnswer, StoreError>, state: &mut AppState, room: &mut Option<i64>) -> Progress {
    resume(task, answer, state, &alice(), room, 10)
}

fn request(status: &str) -> FriendRequestInfo {
    FriendRequestInfo {
        id: 7,
        from_user_id: 1,
        from_username: "alice".to_string(),
        to_user_id: 2,
        status: status.to_string(),
        timestamp: "t".to_string(),
    }
}

#[test]
fn unknown_types_are_dropped_silently() {
    let mut state = AppState::new();
    let mut room = Some(4);
    for kind in ["", "nonsense", "JOIN_ROOM", "join_room "] {
        let progress = first_turn(&alice(), &mut room, &mut state, req(kind, RequestPayload::JoinRoom(JoinRoomPayload { room_id: 1 })));
        assert_eq!(progress, quiet());
    }
    assert_eq!(room, Some(4));
    assert!(!state.rooms.is_live(1));
}

#[test]
fn payloads_that_do_not_fit_are_dropped_silently() {
    let mut state = AppState::new();
    let mut room = None;
    assert_eq!(first_turn(&alice(), &mut room, &mut state, req("join_room", RequestPayload::Absent)), quiet());
    assert_eq!(
        first_turn(
            &alice(),
            &mut room,
            &mut state,
            req("join_room", RequestPayload::QuickChat(QuickChatPayload { friend_id: 2 }))
        ),
        quiet()
    );
    assert_eq!(first_turn(&alice(), &mut room, &mut state, req("send_friend_request", RequestPayload::Absent)), quiet());
    assert_eq!(first_turn(&root(), &mut room, &mut state, req("admin_change_port", RequestPayload::Absent)), quiet());
    assert_eq!(room, None);
    assert!(!state.rooms.is_live(2));
}

#[test]
fn handshake_envelopes_are_dropped_after_authentication() {
    let mut state = AppState::new();
    let mut room = None;
    let login = RequestPayload::Login(LoginPayload { username: "alice".to_string(), password: "pw".to_string() });
    assert_eq!(first_turn(&alice(), &mut room, &mut state, req("login", login)), quiet());
}

#[test]
fn admin_operations_from_ordinary_users_are_dropped() {
    let mut state = AppState::new();
    let mut room = None;
    for kind in ["admin_get_all_users", "admin_get_all_rooms", "admin_shutdown_server"] {
        assert_eq!(first_turn(&alice(), &mut room, &mut state, req(kind, RequestPayload::Absent)), quiet());
    }
    let create = RequestPayload::AdminCreateUser(AdminCreateUserPayload {
        username: "x".to_string(),
        password: "y".to_string(),
        role: "admin".to_string(),
    });
    assert_eq!(first_turn(&alice(), &mut room, &mut state, req("admin_create_user", create)), quiet());
    assert!(state.shutdown.is_armed());
}

#[test]
fn joining_a_room_enters_it_and_asks_for_its_history() {
    let mut state = AppState::new();
    let mut room = None;
    let progress = first_turn(&alice(), &mut room, &mut state, req("join_room", RequestPayload::JoinRoom(JoinRoomPayload { room_id: 42 })));
    assert_eq!(
        progress,
        Progress {
            outbox: vec![envelope(10, ResponseKind::JoinOk, ResponsePayload::Joined { room_id: 42 })],
            agenda: vec![Task::History { room_id: 42, to: 10 }],
            shutdown: None,
        }
    );
    assert_eq!(room, Some(42));
    assert_eq!(state.rooms.roster(42, None), vec![(1, 10)]);
}

#[test]
fn joining_another_room_keeps_the_earlier_membership() {
    let mut state = AppState::new();
    let mut room = None;
    first_turn(&alice(), &mut room, &mut state, req("join_room", RequestPayload::JoinRoom(JoinRoomPayload { room_id: 1 })));
    first_turn(&alice(), &mut room, &mut state, req("join_room", RequestPayload::JoinRoom(JoinRoomPayload { room_id: 2 })));
    assert_eq!(room, Some(2));
    assert!(state.rooms.is_live(1));
    assert!(state.rooms.is_live(2));
}

#[test]
fn a_chat_message_needs_the_current_room() {
    let mut state = AppState::new();
    let chat = |room_id| req("send_chat_message", RequestPayload::ChatMessage(ChatMessagePayload { room_id, content: "hi".to_string() }));
    let mut room = None;
    assert_eq!(first_turn(&alice(), &mut room, &mut state, chat(42)), quiet());
    let mut room = Some(41);
    assert_eq!(first_turn(&alice(), &mut room, &mut state, chat(42)), quiet());
    let mut room = Some(42);
    assert_eq!(
        first_turn(&alice(), &mut room, &mut state, chat(42)),
        asks(Task::Chat { room_id: 42, content: "hi".to_string() })
    );
}

#[test]
fn a_stored_chat_message_goes_to_every_member_of_the_room() {
    let mut state = AppState::new();
    state.rooms.join(42, 1, 10);
    state.rooms.join(42, 2, 20);
    state.rooms.join(42, 3, 30);
    state.rooms.join(7, 4, 40);
    let message = || ChatMessage {
        id: 1,
        room_id: 42,
        sender_username: "alice".to_string(),
        content: "hi".to_string(),
        timestamp: "t".to_string(),
    };
    let mut room = Some(42);
    let task = Task::Chat { room_id: 42, content: "hi".to_string() };
    let progress = next_turn(task, Ok(DbAnswer::Message(message())), &mut state, &mut room);
    assert_eq!(progress.outbox.len(), 1);
    assert_eq!(progress.agenda, vec![]);
    let mut to = progress.outbox[0].to.clone();
    to.sort();
    assert_eq!(to, vec![10, 20, 30]);
    assert_eq!(
        progress.outbox[0].frame,
        Frame::Text(WsResponseMessage { kind: ResponseKind::NewChatMessage, payload: ResponsePayload::Message(message()) })
    );
}

#[test]
fn a_chat_message_that_cannot_be_stored_goes_nowhere() {
    let mut state = AppState::new();
    state.rooms.join(42, 1, 10);
    let mut room = Some(42);
    let task = Task::Chat { room_id: 42, content: "hi".to_string() };
    assert_eq!(next_turn(task, Err(StoreError::Failed("x".to_string())), &mut state, &mut room), quiet());
}

#[test]
fn a_chat_message_for_a_room_that_is_not_live_goes_nowhere() {
    let mut state = AppState::new();
    let mut room = Some(42);
    let message = ChatMessage {
        id: 1,
        room_id: 42,
        sender_username: "alice".to_string(),
        content: "hi".to_string(),
        timestamp: "t".to_string(),
    };
    let task = Task::Chat { room_id: 42, content: "hi".to_string() };
    assert_eq!(next_turn(task, Ok(DbAnswer::Message(message)), &mut state, &mut room), quiet());
}

#[test]
fn each_task_names_its_storage_operation() {
    let user = alice();
    assert_eq!(request_of(&Task::PushRooms { user_id: 5, to: 1 }, &user), Some(DbRequest::GetUserRooms(5)));
    assert_eq!(request_of(&Task::PushRequests { user_id: 5, to: 1 }, &user), Some(DbRequest::GetFriendRequests(5)));
    assert_eq!(request_of(&Task::PushFriends { user_id: 5, to: 1 }, &user), Some(DbRequest::GetFriends(5)));
    assert_eq!(request_of(&Task::History { room_id: 5, to: 1 }, &user), Some(DbRequest::GetMessagesForRoom(5)));
    assert_eq!(
        request_of(&Task::Chat { room_id: 5, content: "x".to_string() }, &user),
        Some(DbRequest::CreateMessage { room_id: 5, sender_username: "alice".to_string(), content: "x".to_string() })
    );
    assert_eq!(
        request_of(&Task::QuickChat { friend_id: 2 }, &user),
        Some(DbRequest::GetOrCreatePrivateRoom { user1_id: 1, user2_id: 2 })
    );
    assert_eq!(
        request_of(&Task::FriendLookup { username: "bob".to_string() }, &user),
        Some(DbRequest::GetUserByUsername("bob".to_string()))
    );
    assert_eq!(
        request_of(&Task::FriendSend { username: "bob".to_string(), target_id: 2 }, &user),
        Some(DbRequest::SendFriendRequest { from_user_id: 1, to_user_id: 2 })
    );
    assert_eq!(request_of(&Task::Accept { request_id: 7 }, &user), Some(DbRequest::AcceptFriendRequest(7)));
    assert_eq!(request_of(&Task::Reject { request_id: 7 }, &user), Some(DbRequest::RejectFriendRequest(7)));
    assert_eq!(request_of(&Task::Accepted { sender_id: 2 }, &user), Some(DbRequest::GetUserById(2)));
    assert_eq!(request_of(&Task::Rejected { sender_id: 2 }, &user), Some(DbRequest::GetUserById(2)));
    assert_eq!(request_of(&Task::NotifySender { sender_id: 2, to: 5 }, &user), Some(DbRequest::GetUserById(2)));
    assert_eq!(
        request_of(&Task::Unfriend { friend_id: 2 }, &user),
        Some(DbRequest::DeleteFriend { user1_id: 1, user2_id: 2 })
    );
    assert_eq!(request_of(&Task::RefreshPeer { user_id: 2, to: 5 }, &user), Some(DbRequest::GetUserById(2)));
    assert_eq!(request_of(&Task::AdminUsers { lenient: true }, &user), Some(DbRequest::GetAllUsers));
    assert_eq!(request_of(&Task::AdminRooms { lenient: false }, &user), Some(DbRequest::GetAllRooms));
    assert_eq!(
        request_of(
            &Task::AdminCreateUser { username: "u".to_string(), password: "p".to_string(), role: "r".to_string() },
            &user
        ),
        Some(DbRequest::CreateUser { username: "u".to_string(), password: "p".to_string(), role: Some("r".to_string()) })
    );
    assert_eq!(request_of(&Task::AdminDeleteUser { user_id: 3 }, &user), Some(DbRequest::DeleteUser(3)));
    assert_eq!(request_of(&Task::AdminDeleteRoom { room_id: 3 }, &user), Some(DbRequest::DeleteRoom(3)));
    assert_eq!(request_of(&Task::ChangePort { port: 80 }, &user), Some(DbRequest::SaveConfig(Config { port: 80 })));
    let emit = Task::Emit(envelope(1, ResponseKind::JoinOk, ResponsePayload::Empty));
    assert_eq!(request_of(&emit, &user), None);
}

#[test]
fn the_list_requests_ask_for_a_push() {
    let mut state = AppState::new();
    let mut room = None;
    assert_eq!(
        first_turn(&alice(), &mut room, &mut state, req("get_chat_list", RequestPayload::Absent)),
        asks(Task::PushRooms { user_id: 1, to: 10 })
    );
    assert_eq!(
        first_turn(&alice(), &mut room, &mut state, req("get_friend_list", RequestPayload::Absent)),
        asks(Task::PushFriends { user_id: 1, to: 10 })
    );
    assert_eq!(handle_get_user_rooms(&alice(), 10), asks(Task::PushRooms { user_id: 1, to: 10 }));
    assert_eq!(handle_get_friend_requests(&alice(), 10), asks(Task::PushRequests { user_id: 1, to: 10 }));
    assert_eq!(handle_get_friend_list(&alice(), 10), asks(Task::PushFriends { user_id: 1, to: 10 }));
}

#[test]
fn pushes_deliver_the_whole_current_view() {
    let mut state = AppState::new();
    let mut room = None;
    let rooms = || vec![RoomInfo { room_id: 3, name: None, participants: vec!["alice".to_string(), "bob".to_string()] }];
    assert_eq!(
        next_turn(Task::PushRooms { user_id: 1, to: 77 }, Ok(DbAnswer::Rooms(rooms())), &mut state, &mut room),
        delivers(envelope(77, ResponseKind::ChatList, ResponsePayload::Rooms(rooms())))
    );
    assert_eq!(
        next_turn(Task::PushRequests { user_id: 1, to: 77 }, Ok(DbAnswer::Requests(vec![request("pending")])), &mut state, &mut room),
        delivers(envelope(77, ResponseKind::FriendRequests, ResponsePayload::Requests(vec![request("pending")])))
    );
    assert_eq!(
        next_turn(Task::History { room_id: 3, to: 77 }, Ok(DbAnswer::Messages(vec![])), &mut state, &mut room),
        delivers(envelope(77, ResponseKind::MessageHistory, ResponsePayload::Messages(vec![])))
    );
}

#[test]
fn pushes_that_cannot_be_read_deliver_nothing() {
    let mut state = AppState::new();
    let mut room = None;
    let failed = || Err(StoreError::Failed("x".to_string()));
    assert_eq!(next_turn(Task::PushRooms { user_id: 1, to: 77 }, failed(), &mut state, &mut room), quiet());
    assert_eq!(next_turn(Task::PushRequests { user_id: 1, to: 77 }, failed(), &mut state, &mut room), quiet());
    assert_eq!(next_turn(Task::PushFriends { user_id: 1, to: 77 }, failed(), &mut state, &mut room), quiet());
    assert_eq!(next_turn(Task::History { room_id: 1, to: 77 }, failed(), &mut state, &mut room), quiet());
    assert_eq!(next_turn(Task::PushRooms { user_id: 1, to: 77 }, Ok(DbAnswer::Unit), &mut state, &mut room), quiet());
}

#[test]
fn the_friend_list_marks_who_is_online() {
    let mut state = AppState::new();
    state.online_users.register(2, 20);
    let mut room = None;
    let friends = vec![bob(), User { _id: 3, username: "carol".to_string(), password_hash: "h".to_string(), role: "normal".to_string() }];
    assert_eq!(
        next_turn(Task::PushFriends { user_id: 1, to: 10 }, Ok(DbAnswer::Users(friends)), &mut state, &mut room),
        delivers(envelope(
            10,
            ResponseKind::FriendList,
            ResponsePayload::Friends(vec![
                FriendInfo { id: 2, username: "bob".to_string(), is_online: true },
                FriendInfo { id: 3, username: "carol".to_string(), is_online: false },
            ])
        ))
    );
}

#[test]
fn an_emit_task_delivers_what_it_holds() {
    let mut state = AppState::new();
    let mut room = None;
    let held = || envelope(5, ResponseKind::Invitation, ResponsePayload::Empty);
    assert_eq!(next_turn(Task::Emit(held()), Ok(DbAnswer::Unit), &mut state, &mut room), delivers(held()));
    assert_eq!(next_turn(Task::Emit(held()), Err(StoreError::Unexpected), &mut state, &mut room), delivers(held()));
}

#[test]
fn a_quick_chat_enters_the_room_and_invites_an_online_friend() {
    let mut state = AppState::new();
    state.online_users.register(2, 20);
    let mut room = None;
    assert_eq!(
        first_turn(&alice(), &mut room, &mut state, req("quick_chat_with_friend", RequestPayload::QuickChat(QuickChatPayload { friend_id: 2 }))),
        asks(Task::QuickChat { friend_id: 2 })
    );
    let progress = next_turn(Task::QuickChat { friend_id: 2 }, Ok(DbAnswer::RoomId(5)), &mut state, &mut room);
    assert_eq!(
        progress,
        Progress {
            outbox: vec![envelope(10, ResponseKind::JoinOk, ResponsePayload::Joined { room_id: 5 })],
            agenda: vec![
                Task::History { room_id: 5, to: 10 },
                Task::Emit(envelope(
                    20,
                    ResponseKind::Invitation,
                    ResponsePayload::Invitation(InvitationPayload { from_username: "alice".to_string(), room_id: 5 })
                )),
            ],
            shutdown: None,
        }
    );
    assert_eq!(room, Some(5));
    assert_eq!(state.rooms.roster(5, None), vec![(1, 10)]);
}

#[test]
fn a_quick_chat_with_an_offline_friend_invites_nobody() {
    let mut state = AppState::new();
    let mut room = None;
    let progress = next_turn(Task::QuickChat { friend_id: 2 }, Ok(DbAnswer::RoomId(5)), &mut state, &mut room);
    assert_eq!(progress.agenda, vec![Task::History { room_id: 5, to: 10 }]);
    assert_eq!(room, Some(5));
}

#[test]
fn a_quick_chat_that_fails_changes_nothing() {
    let mut state = AppState::new();
    let mut room = Some(1);
    let progress = next_turn(Task::QuickChat { friend_id: 2 }, Err(StoreError::Failed("x".to_string())), &mut state, &mut room);
    assert_eq!(progress, quiet());
    assert_eq!(room, Some(1));
    assert!(!state.rooms.is_live(5));
}

#[test]
fn a_friend_request_first_looks_the_user_up() {
    let mut state = AppState::new();
    let mut room = None;
    let send = RequestPayload::SendFriendRequest(SendFriendRequestPayload { username: "bob".to_string() });
    assert_eq!(
        first_turn(&alice(), &mut room, &mut state, req("send_friend_request", send)),
        asks(Task::FriendLookup { username: "bob".to_string() })
    );
    assert_eq!(
        next_turn(Task::FriendLookup { username: "bob".to_string() }, Ok(DbAnswer::User(bob())), &mut state, &mut room),
        asks(Task::FriendSend { username: "bob".to_string(), target_id: 2 })
    );
}

#[test]
fn a_friend_request_to_oneself_or_to_nobody_is_refused() {
    let mut state = AppState::new();
    let mut room = None;
    let refused = || delivers(error(10, ResponseKind::FriendRequestFail, "User not found, or you cannot send a request to yourself."));
    assert_eq!(
        next_turn(Task::FriendLookup { username: "alice".to_string() }, Ok(DbAnswer::User(alice())), &mut state, &mut room),
        refused()
    );
    assert_eq!(
        next_turn(Task::FriendLookup { username: "nobody".to_string() }, Err(StoreError::Failed("Query returned no rows".to_string())), &mut state, &mut room),
        refused()
    );
}

#[test]
fn a_request_that_storage_fails_to_send_reports_why() {
    let mut state = AppState::new();
    let mut room = None;
    assert_eq!(
        next_turn(
            Task::FriendSend { username: "bob".to_string(), target_id: 2 },
            Err(StoreError::Failed("database is locked".to_string())),
            &mut state,
            &mut room
        ),
        delivers(error(10, ResponseKind::FriendRequestFail, "database is locked"))
    );
    assert_eq!(
        next_turn(
            Task::FriendSend { username: "bob".to_string(), target_id: 2 },
            Err(StoreError::Unexpected),
            &mut state,
            &mut room
        ),
        delivers(error(10, ResponseKind::FriendRequestFail, "unexpected reply from storage"))
    );
    assert_eq!(
        next_turn(Task::FriendSend { username: "bob".to_string(), target_id: 2 }, Ok(DbAnswer::Unit), &mut state, &mut room),
        delivers(error(10, ResponseKind::FriendRequestFail, "unexpected reply from storage"))
    );
}

#[test]
fn a_pending_request_is_confirmed_and_shown_to_an_online_receiver() {
    let mut state = AppState::new();
    state.online_users.register(2, 20);
    let mut room = None;
    let task = Task::FriendSend { username: "bob".to_string(), target_id: 2 };
    assert_eq!(
        next_turn(task, Ok(DbAnswer::Request(request("pending"))), &mut state, &mut room),
        Progress {
            outbox: vec![
                envelope(10, ResponseKind::FriendRequestSent, ResponsePayload::Username { username: "bob".to_string() }),
                envelope(20, ResponseKind::NewFriendRequest, ResponsePayload::Request(request("pending"))),
            ],
            agenda: vec![],
            shutdown: None,
        }
    );
}

#[test]
fn a_pending_request_to_an_offline_receiver_is_only_confirmed() {
    let mut state = AppState::new();
    let mut room = None;
    let task = Task::FriendSend { username: "bob".to_string(), target_id: 2 };
    assert_eq!(
        next_turn(task, Ok(DbAnswer::Request(request("pending"))), &mut state, &mut room),
        delivers(envelope(10, ResponseKind::FriendRequestSent, ResponsePayload::Username { username: "bob".to_string() }))
    );
}

#[test]
fn a_request_between_friends_reports_that_they_are_friends() {
    let mut state = AppState::new();
    state.online_users.register(2, 20);
    let mut room = None;
    let task = Task::FriendSend { username: "bob".to_string(), target_id: 2 };
    assert_eq!(
        next_turn(task, Ok(DbAnswer::Request(request("accepted"))), &mut state, &mut room),
        delivers(error(10, ResponseKind::FriendRequestFail, "You are already friends with this user."))
    );
}

#[test]
fn a_request_that_was_rejected_cannot_be_sent_again() {
    let mut state = AppState::new();
    let mut room = None;
    for status in ["rejected", "", "Pending", "other"] {
        let task = Task::FriendSend { username: "bob".to_string(), target_id: 2 };
        assert_eq!(
            next_turn(task, Ok(DbAnswer::Request(request(status))), &mut state, &mut room),
            delivers(error(10, ResponseKind::FriendRequestFail, "Cannot send friend request at this time."))
        );
    }
}

#[test]
fn a_response_asks_to_accept_or_to_reject() {
    let mut state = AppState::new();
    let mut room = None;
    let respond = |accept| req("respond_to_friend_request", RequestPayload::RespondToFriendRequest(RespondToFriendRequestPayload { request_id: 7, accept }));
    assert_eq!(first_turn(&alice(), &mut room, &mut state, respond(true)), asks(Task::Accept { request_id: 7 }));
    assert_eq!(first_turn(&alice(), &mut room, &mut state, respond(false)), asks(Task::Reject { request_id: 7 }));
}

#[test]
fn an_accepted_request_goes_on_to_tell_the_acceptor() {
    let mut state = AppState::new();
    let mut room = None;
    assert_eq!(
        next_turn(Task::Accept { request_id: 7 }, Ok(DbAnswer::Sender(Some(2))), &mut state, &mut room),
        asks(Task::Accepted { sender_id: 2 })
    );
    assert_eq!(next_turn(Task::Accept { request_id: 7 }, Ok(DbAnswer::Sender(None)), &mut state, &mut room), quiet());
    assert_eq!(
        next_turn(Task::Accept { request_id: 7 }, Err(StoreError::Failed("Query returned no rows".to_string())), &mut state, &mut room),
        delivers(error(10, ResponseKind::FriendRequestFail, "Query returned no rows"))
    );
}

#[test]
fn the_acceptor_is_told_and_refreshed_and_an_online_sender_is_notified() {
    let mut state = AppState::new();
    state.online_users.register(2, 20);
    let mut room = None;
    let progress = next_turn(Task::Accepted { sender_id: 2 }, Ok(DbAnswer::User(bob())), &mut state, &mut room);
    assert_eq!(
        progress,
        Progress {
            outbox: vec![envelope(
                10,
                ResponseKind::FriendRequestAccepted,
                ResponsePayload::FromUsername { from_username: "bob".to_string() }
            )],
            agenda: vec![
                Task::PushRooms { user_id: 1, to: 10 },
                Task::PushRequests { user_id: 1, to: 10 },
                Task::PushFriends { user_id: 1, to: 10 },
                Task::NotifySender { sender_id: 2, to: 20 },
            ],
            shutdown: None,
        }
    );
    let progress = next_turn(Task::NotifySender { sender_id: 2, to: 20 }, Ok(DbAnswer::User(bob())), &mut state, &mut room);
    assert_eq!(
        progress,
        Progress {
            outbox: vec![envelope(
                20,
                ResponseKind::FriendRequestAccepted,
                ResponsePayload::FromUsername { from_username: "alice".to_string() }
            )],
            agenda: vec![Task::PushRooms { user_id: 2, to: 20 }, Task::PushFriends { user_id: 2, to: 20 }],
            shutdown: None,
        }
    );
}

#[test]
fn an_offline_sender_is_not_notified_and_a_lost_name_is_empty() {
    let mut state = AppState::new();
    let mut room = None;
    let progress = next_turn(Task::Accepted { sender_id: 2 }, Err(StoreError::Failed("x".to_string())), &mut state, &mut room);
    assert_eq!(
        progress.outbox,
        vec![envelope(10, ResponseKind::FriendRequestAccepted, ResponsePayload::FromUsername { from_username: String::new() })]
    );
    assert_eq!(progress.agenda.len(), 3);
    assert_eq!(
        next_turn(Task::NotifySender { sender_id: 2, to: 20 }, Err(StoreError::Failed("x".to_string())), &mut state, &mut room),
        quiet()
    );
}

#[test]
fn a_rejection_is_told_to_both_sides() {
    let mut state = AppState::new();
    state.online_users.register(2, 20);
    let mut room = None;
    assert_eq!(
        next_turn(Task::Reject { request_id: 7 }, Ok(DbAnswer::Sender(Some(2))), &mut state, &mut room),
        asks(Task::Rejected { sender_id: 2 })
    );
    assert_eq!(next_turn(Task::Reject { request_id: 7 }, Ok(DbAnswer::Sender(None)), &mut state, &mut room), quiet());
    assert_eq!(
        next_turn(Task::Reject { request_id: 7 }, Err(StoreError::Failed("locked".to_string())), &mut state, &mut room),
        delivers(error(10, ResponseKind::FriendRequestFail, "locked"))
    );
    let progress = next_turn(Task::Rejected { sender_id: 2 }, Ok(DbAnswer::User(bob())), &mut state, &mut room);
    assert_eq!(
        progress,
        Progress {
            outbox: vec![envelope(
                10,
                ResponseKind::FriendRequestRejected,
                ResponsePayload::FromUsername { from_username: "bob".to_string() }
            )],
            agenda: vec![
                Task::PushRequests { user_id: 1, to: 10 },
                Task::Emit(envelope(
                    20,
                    ResponseKind::FriendRequestRejected,
                    ResponsePayload::FromUsername { from_username: "alice".to_string() }
                )),
            ],
            shutdown: None,
        }
    );
    state.online_users.unregister(2);
    let progress = next_turn(Task::Rejected { sender_id: 2 }, Ok(DbAnswer::User(bob())), &mut state, &mut room);
    assert_eq!(progress.agenda, vec![Task::PushRequests { user_id: 1, to: 10 }]);
}

#[test]
fn deleting_a_friend_refreshes_both_sides() {
    let mut state = AppState::new();
    state.online_users.register(2, 20);
    let mut room = None;
    assert_eq!(
        first_turn(&alice(), &mut room, &mut state, req("delete_friend", RequestPayload::DeleteFriend(DeleteFriendPayload { friend_id: 2 }))),
        asks(Task::Unfriend { friend_id: 2 })
    );
    let progress = next_turn(Task::Unfriend { friend_id: 2 }, Ok(DbAnswer::Unit), &mut state, &mut room);
    assert_eq!(
        progress,
        Progress {
            outbox: vec![],
            agenda: vec![
                Task::PushFriends { user_id: 1, to: 10 },
                Task::PushRooms { user_id: 1, to: 10 },
                Task::RefreshPeer { user_id: 2, to: 20 },
            ],
            shutdown: None,
        }
    );
    assert_eq!(
        next_turn(Task::RefreshPeer { user_id: 2, to: 20 }, Ok(DbAnswer::User(bob())), &mut state, &mut room),
        Progress {
            outbox: vec![],
            agenda: vec![Task::PushFriends { user_id: 2, to: 20 }, Task::PushRooms { user_id: 2, to: 20 }],
            shutdown: None,
        }
    );
    assert_eq!(
        next_turn(Task::RefreshPeer { user_id: 2, to: 20 }, Err(StoreError::Failed("x".to_string())), &mut state, &mut room),
        quiet()
    );
    assert_eq!(
        next_turn(Task::Unfriend { friend_id: 2 }, Err(StoreError::Failed("x".to_string())), &mut state, &mut room),
        quiet()
    );
    state.online_users.unregister(2);
    let progress = next_turn(Task::Unfriend { friend_id: 2 }, Ok(DbAnswer::Unit), &mut state, &mut room);
    assert_eq!(progress.agenda.len(), 2);
}

#[test]
fn a_voice_chat_invites_the_other_members_who_are_online() {
    let mut state = AppState::new();
    state.rooms.join(42, 1, 10);
    state.rooms.join(42, 2, 20);
    state.rooms.join(42, 3, 30);
    state.rooms.join(42, 4, 40);
    state.online_users.register(1, 10);
    state.online_users.register(2, 21);
    state.online_users.register(4, 40);
    let mut room = Some(42);
    let progress = first_turn(&alice(), &mut room, &mut state, req("request_voice_chat", RequestPayload::Absent));
    assert_eq!(progress.outbox.len(), 1);
    let mut to = progress.outbox[0].to.clone();
    to.sort();
    assert_eq!(to, vec![21, 40]);
    assert_eq!(
        progress.outbox[0].frame,
        Frame::Text(WsResponseMessage {
            kind: ResponseKind::VoiceChatInvitation,
            payload: ResponsePayload::VoiceChatInvitation(VoiceChatInvitationPayload { from_username: "alice".to_string() }),
        })
    );
    let mut room = None;
    assert_eq!(first_turn(&alice(), &mut room, &mut state, req("request_voice_chat", RequestPayload::Absent)), quiet());
}

#[test]
fn binary_frames_go_to_the_other_members_as_they_came() {
    let mut state = AppState::new();
    state.rooms.join(42, 1, 10);
    state.rooms.join(42, 2, 20);
    state.rooms.join(42, 3, 30);
    let progress = forward_binary(vec![1, 2, 3], &state, &alice(), &Some(42));
    assert_eq!(progress.outbox.len(), 1);
    let mut to = progress.outbox[0].to.clone();
    to.sort();
    assert_eq!(to, vec![20, 30]);
    assert_eq!(progress.outbox[0].frame, Frame::Binary(vec![1, 2, 3]));
    assert_eq!(forward_binary(vec![1], &state, &alice(), &None), quiet());
    let progress = forward_binary(vec![1], &state, &alice(), &Some(7));
    assert_eq!(progress.outbox[0].to, Vec::<u64>::new());
}

#[test]
fn admins_get_the_lists_or_an_error() {
    let mut state = AppState::new();
    let mut room = None;
    assert_eq!(
        first_turn(&root(), &mut room, &mut state, req("admin_get_all_users", RequestPayload::Absent)),
        asks(Task::AdminUsers { lenient: false })
    );
    assert_eq!(
        first_turn(&root(), &mut room, &mut state, req("admin_get_all_rooms", RequestPayload::Absent)),
        asks(Task::AdminRooms { lenient: false })
    );
    assert_eq!(
        next_turn(Task::AdminUsers { lenient: false }, Ok(DbAnswer::Users(vec![bob()])), &mut state, &mut room),
        delivers(envelope(10, ResponseKind::AdminAllUsers, ResponsePayload::Users(vec![bob()])))
    );
    assert_eq!(
        next_turn(Task::AdminUsers { lenient: false }, Err(StoreError::Failed("x".to_string())), &mut state, &mut room),
        delivers(error(10, ResponseKind::AdminError, "Failed to retrieve users."))
    );
    assert_eq!(
        next_turn(Task::AdminUsers { lenient: true }, Err(StoreError::Failed("x".to_string())), &mut state, &mut room),
        delivers(envelope(10, ResponseKind::AdminAllUsers, ResponsePayload::Users(vec![])))
    );
    assert_eq!(
        next_turn(Task::AdminRooms { lenient: false }, Err(StoreError::Failed("x".to_string())), &mut state, &mut room),
        delivers(error(10, ResponseKind::AdminError, "Failed to retrieve rooms."))
    );
    assert_eq!(
        next_turn(Task::AdminRooms { lenient: true }, Err(StoreError::Failed("x".to_string())), &mut state, &mut room),
        delivers(envelope(10, ResponseKind::AdminAllRooms, ResponsePayload::AdminRooms(vec![])))
    );
    assert_eq!(
        next_turn(Task::AdminRooms { lenient: true }, Ok(DbAnswer::AdminRooms(vec![])), &mut state, &mut room),
        delivers(envelope(10, ResponseKind::AdminAllRooms, ResponsePayload::AdminRooms(vec![])))
    );
}

#[test]
fn admin_changes_are_confirmed_and_followed_by_a_fresh_list() {
    let mut state = AppState::new();
    let mut room = None;
    let create = RequestPayload::AdminCreateUser(AdminCreateUserPayload {
        username: "u".to_string(),
        password: "p".to_string(),
        role: "normal".to_string(),
    });
    assert_eq!(
        first_turn(&root(), &mut room, &mut state, req("admin_create_user", create)),
        asks(Task::AdminCreateUser { username: "u".to_string(), password: "p".to_string(), role: "normal".to_string() })
    );
    assert_eq!(
        first_turn(&root(), &mut room, &mut state, req("admin_delete_user", RequestPayload::AdminDeleteUser(AdminDeleteUserPayload { user_id: 3 }))),
        asks(Task::AdminDeleteUser { user_id: 3 })
    );
    assert_eq!(
        first_turn(&root(), &mut room, &mut state, req("admin_delete_room", RequestPayload::AdminDeleteRoom(AdminDeleteRoomPayload { room_id: 3 }))),
        asks(Task::AdminDeleteRoom { room_id: 3 })
    );
    let created = Task::AdminCreateUser { username: "u".to_string(), password: "p".to_string(), role: "normal".to_string() };
    assert_eq!(
        next_turn(created, Ok(DbAnswer::Unit), &mut state, &mut room),
        Progress {
            outbox: vec![envelope(10, ResponseKind::AdminCreateUserOk, ResponsePayload::Text("User created successfully.".to_string()))],
            agenda: vec![Task::AdminUsers { lenient: true }],
            shutdown: None,
        }
    );
    let created = Task::AdminCreateUser { username: "u".to_string(), password: "p".to_string(), role: "normal".to_string() };
    assert_eq!(
        next_turn(created, Err(StoreError::Failed("UNIQUE constraint failed".to_string())), &mut state, &mut room),
        delivers(error(10, ResponseKind::AdminCreateUserFail, "UNIQUE constraint failed"))
    );
    assert_eq!(
        next_turn(Task::AdminDeleteUser { user_id: 3 }, Ok(DbAnswer::Changed(1)), &mut state, &mut room),
        Progress {
            outbox: vec![envelope(10, ResponseKind::AdminGenericOk, ResponsePayload::Text("User deleted successfully.".to_string()))],
            agenda: vec![Task::AdminUsers { lenient: true }],
            shutdown: None,
        }
    );
    assert_eq!(
        next_turn(Task::AdminDeleteUser { user_id: 3 }, Err(StoreError::Failed("x".to_string())), &mut state, &mut room),
        delivers(error(10, ResponseKind::AdminError, "x"))
    );
    assert_eq!(
        next_turn(Task::AdminDeleteRoom { room_id: 3 }, Ok(DbAnswer::Changed(1)), &mut state, &mut room),
        Progress {
            outbox: vec![envelope(10, ResponseKind::AdminGenericOk, ResponsePayload::Text("Room deleted successfully.".to_string()))],
            agenda: vec![Task::AdminRooms { lenient: true }],
            shutdown: None,
        }
    );
}

#[test]
fn the_shutdown_signal_fires_once() {
    let mut state = AppState::new();
    let mut room = None;
    assert!(state.shutdown.is_armed());
    let progress = first_turn(&root(), &mut room, &mut state, req("admin_shutdown_server", RequestPayload::Absent));
    assert_eq!(progress, Progress { outbox: vec![], agenda: vec![], shutdown: Some(0) });
    assert!(!state.shutdown.is_armed());
    let progress = first_turn(&root(), &mut room, &mut state, req("admin_shutdown_server", RequestPayload::Absent));
    assert_eq!(progress, quiet());
    assert!(!state.shutdown.is_armed());
}

#[test]
fn a_port_change_is_written_confirmed_and_followed_by_a_shutdown() {
    let mut state = AppState::new();
    let mut room = None;
    assert_eq!(
        first_turn(&root(), &mut room, &mut state, req("admin_change_port", RequestPayload::AdminChangePort(AdminChangePortPayload { port: 8080 }))),
        asks(Task::ChangePort { port: 8080 })
    );
    assert_eq!(
        next_turn(Task::ChangePort { port: 8080 }, Err(StoreError::Failed("read-only".to_string())), &mut state, &mut room),
        delivers(error(10, ResponseKind::AdminChangePortFail, "read-only"))
    );
    assert!(state.shutdown.is_armed());
    assert_eq!(
        next_turn(Task::ChangePort { port: 8080 }, Ok(DbAnswer::Unit), &mut state, &mut room),
        Progress {
            outbox: vec![envelope(10, ResponseKind::AdminChangePortOk, ResponsePayload::Empty)],
            agenda: vec![],
            shutdown: Some(100),
        }
    );
    assert!(!state.shutdown.is_armed());
    assert_eq!(
        next_turn(Task::ChangePort { port: 8081 }, Ok(DbAnswer::Unit), &mut state, &mut room),
        delivers(envelope(10, ResponseKind::AdminChangePortOk, ResponsePayload::Empty))
    );
}
