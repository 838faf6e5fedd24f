//! The envelopes exchanged with clients: what may come in, and what goes out.
//!
//! On the wire an envelope is `{"type": <string>, "payload": <JSON>}`. The
//! host turns wire text into the values of this module and back; what each
//! kind means is decided here.

use crate::presence::ConnId;
use crate::records::{AdminRoomInfo, ChatMessage, FriendInfo, FriendRequestInfo, RoomId, RoomInfo, User};
use crate::text::same_text;
use vstd::prelude::*;

verus! {

#[derive(Debug, PartialEq, Eq)]
pub struct RegisterPayload {
    pub username: String,
    pub password: String,
}

#[derive(Debug, PartialEq, Eq)]
pub struct LoginPayload {
    pub username: String,
    pub password: String,
}

#[derive(Debug, PartialEq, Eq)]
pub struct AuthWithTokenPayload {
    pub token: String,
}

#[derive(Debug, PartialEq, Eq)]
pub struct JoinRoomPayload {
    pub room_id: RoomId,
}

#[derive(Debug, PartialEq, Eq)]
pub struct ChatMessagePayload {
    pub room_id: RoomId,
    pub content: String,
}

#[derive(Debug, PartialEq, Eq)]
pub struct SendFriendRequestPayload {
    pub username: String,
}

#[derive(Debug, PartialEq, Eq)]
pub struct RespondToFriendRequestPayload {
    pub request_id: i32,
    pub accept: bool,
}

#[derive(Debug, PartialEq, Eq)]
pub struct QuickChatPayload {
    pub friend_id: i32,
}

#[derive(Debug, PartialEq, Eq)]
pub struct DeleteFriendPayload {
    pub friend_id: i32,
}

#[derive(Debug, PartialEq, Eq)]
pub struct InvitationPayload {
    pub from_username: String,
    pub room_id: RoomId,
}

#[derive(Debug, PartialEq, Eq)]
pub struct VoiceChatInvitationPayload {
    pub from_username: String,
}

#[derive(Debug, PartialEq, Eq)]
pub struct AdminCreateUserPayload {
    pub username: String,
    pub password: String,
    pub role: String,
}

#[derive(Debug, PartialEq, Eq)]
pub struct AdminDeleteUserPayload {
    pub user_id: i32,
}

#[derive(Debug, PartialEq, Eq)]
pub struct AdminDeleteRoomPayload {
    pub room_id: i64,
}

#[derive(Debug, PartialEq, Eq)]
pub struct AdminChangePortPayload {
    pub port: u16,
}

/// The closed set of operations a client may ask for.
#[derive(Debug, Clone, Copy, PartialEq, Eq, Structural)]
pub enum OpKind {
    Register,
    Login,
    AuthWithToken,
    JoinRoom,
    SendChatMessage,
    GetChatList,
    GetFriendList,
    QuickChatWithFriend,
    SendFriendRequest,
    RespondToFriendRequest,
    DeleteFriend,
    RequestVoiceChat,
    AdminGetAllUsers,
    AdminGetAllRooms,
    AdminCreateUser,
    AdminDeleteUser,
    AdminDeleteRoom,
    AdminShutdownServer,
    AdminChangePort,
}

/// The operation that a wire `type` names, if it names one.
pub open spec fn kind_named(name: Seq<char>) -> Option<OpKind> {
    if name == "register"@ {
        Some(OpKind::Register)
    } else if name == "login"@ {
        Some(OpKind::Login)
    } else if name == "auth_with_token"@ {
        Some(OpKind::AuthWithToken)
    } else if name == "join_room"@ {
        Some(OpKind::JoinRoom)
    } else if name == "send_chat_message"@ {
        Some(OpKind::SendChatMessage)
    } else if name == "get_chat_list"@ {
        Some(OpKind::GetChatList)
    } else if name == "get_friend_list"@ {
        Some(OpKind::GetFriendList)
    } else if name == "quick_chat_with_friend"@ {
        Some(OpKind::QuickChatWithFriend)
    } else if name == "send_friend_request"@ {
        Some(OpKind::SendFriendRequest)
    } else if name == "respond_to_friend_request"@ {
        Some(OpKind::RespondToFriendRequest)
    } else if name == "delete_friend"@ {
        Some(OpKind::DeleteFriend)
    } else if name == "request_voice_chat"@ {
        Some(OpKind::RequestVoiceChat)
    } else if name == "admin_get_all_users"@ {
        Some(OpKind::AdminGetAllUsers)
    } else if name == "admin_get_all_rooms"@ {
        Some(OpKind::AdminGetAllRooms)
    } else if name == "admin_create_user"@ {
        Some(OpKind::AdminCreateUser)
    } else if name == "admin_delete_user"@ {
        Some(OpKind::AdminDeleteUser)
    } else if name == "admin_delete_room"@ {
        Some(OpKind::AdminDeleteRoom)
    } else if name == "admin_shutdown_server"@ {
        Some(OpKind::AdminShutdownServer)
    } else if name == "admin_change_port"@ {
        Some(OpKind::AdminChangePort)
    } else {
        None
    }
}

/// Whether only an administrator may invoke `kind`.
pub open spec fn admin_only(kind: OpKind) -> bool {
    match kind {
        OpKind::AdminGetAllUsers
        | OpKind::AdminGetAllRooms
        | OpKind::AdminCreateUser
        | OpKind::AdminDeleteUser
        | OpKind::AdminDeleteRoom
        | OpKind::AdminShutdownServer
        | OpKind::AdminChangePort => true,
        _ => false,
    }
}

/// Decodes a wire `type`. An unknown name yields `None`.
pub fn op_kind(name: &str) -> (kind: Option<OpKind>)
    ensures
        kind == kind_named(name@),
{
    if same_text(name, "register") {
        Some(OpKind::Register)
    } else if same_text(name, "login") {
        Some(OpKind::Login)
    } else if same_text(name, "auth_with_token") {
        Some(OpKind::AuthWithToken)
    } else if same_text(name, "join_room") {
        Some(OpKind::JoinRoom)
    } else if same_text(name, "send_chat_message") {
        Some(OpKind::SendChatMessage)
    } else if same_text(name, "get_chat_list") {
        Some(OpKind::GetChatList)
    } else if same_text(name, "get_friend_list") {
        Some(OpKind::GetFriendList)
    } else if same_text(name, "quick_chat_with_friend") {
        Some(OpKind::QuickChatWithFriend)
    } else if same_text(name, "send_friend_request") {
        Some(OpKind::SendFriendRequest)
    } else if same_text(name, "respond_to_friend_request") {
        Some(OpKind::RespondToFriendRequest)
    } else if same_text(name, "delete_friend") {
        Some(OpKind::DeleteFriend)
    } else if same_text(name, "request_voice_chat") {
        Some(OpKind::RequestVoiceChat)
    } else if same_text(name, "admin_get_all_users") {
        Some(OpKind::AdminGetAllUsers)
    } else if same_text(name, "admin_get_all_rooms") {
        Some(OpKind::AdminGetAllRooms)
    } else if same_text(name, "admin_create_user") {
        Some(OpKind::AdminCreateUser)
    } else if same_text(name, "admin_delete_user") {
        Some(OpKind::AdminDeleteUser)
    } else if same_text(name, "admin_delete_room") {
        Some(OpKind::AdminDeleteRoom)
    } else if same_text(name, "admin_shutdown_server") {
        Some(OpKind::AdminShutdownServer)
    } else if same_text(name, "admin_change_port") {
        Some(OpKind::AdminChangePort)
    } else {
        None
    }
}

/// Whether only an administrator may invoke `kind`.
pub fn is_admin_only(kind: OpKind) -> (gated: bool)
    ensures
        gated == admin_only(kind),
{
    match kind {
        OpKind::AdminGetAllUsers
        | OpKind::AdminGetAllRooms
        | OpKind::AdminCreateUser
        | OpKind::AdminDeleteUser
        | OpKind::AdminDeleteRoom
        | OpKind::AdminShutdownServer
        | OpKind::AdminChangePort => true,
        _ => false,
    }
}

/// The payload of an inbound envelope, already checked against the shape
/// that some operation expects.
#[derive(Debug, PartialEq, Eq)]
pub enum RequestPayload {
    /// Nothing usable: the operation takes no payload, or what came did not
    /// have the shape that the envelope's `type` calls for.
    Absent,
    Register(RegisterPayload),
    Login(LoginPayload),
    AuthWithToken(AuthWithTokenPayload),
    JoinRoom(JoinRoomPayload),
    ChatMessage(ChatMessagePayload),
    SendFriendRequest(SendFriendRequestPayload),
    RespondToFriendRequest(RespondToFriendRequestPayload),
    QuickChat(QuickChatPayload),
    DeleteFriend(DeleteFriendPayload),
    AdminCreateUser(AdminCreateUserPayload),
    AdminDeleteUser(AdminDeleteUserPayload),
    AdminDeleteRoom(AdminDeleteRoomPayload),
    AdminChangePort(AdminChangePortPayload),
}

/// An inbound envelope.
#[derive(Debug, PartialEq, Eq)]
pub struct WsRequestMessage {
    /// The wire `type`.
    pub kind: String,
    pub payload: RequestPayload,
}

/// The closed set of outbound envelope kinds.
#[derive(Debug, Clone, Copy, PartialEq, Eq, Structural)]
pub enum ResponseKind {
    AuthOk,
    AuthFail,
    RegisterOk,
    RegisterFail,
    JoinOk,
    MessageHistory,
    NewChatMessage,
    ChatList,
    FriendRequests,
    FriendList,
    FriendRequestSent,
    NewFriendRequest,
    FriendRequestAccepted,
    FriendRequestRejected,
    FriendRequestFail,
    Invitation,
    VoiceChatInvitation,
    AdminAllUsers,
    AdminAllRooms,
    AdminError,
    AdminCreateUserOk,
    AdminCreateUserFail,
    AdminGenericOk,
    AdminChangePortOk,
    AdminChangePortFail,
}

impl ResponseKind {
    /// The wire `type` of this kind.
    pub open spec fn label(self) -> Seq<char> {
        match self {
            ResponseKind::AuthOk => "auth_ok"@,
            ResponseKind::AuthFail => "auth_fail"@,
            ResponseKind::RegisterOk => "register_ok"@,
            ResponseKind::RegisterFail => "register_fail"@,
            ResponseKind::JoinOk => "join_ok"@,
            ResponseKind::MessageHistory => "message_history"@,
            ResponseKind::NewChatMessage => "new_chat_message"@,
            ResponseKind::ChatList => "chat_list"@,
            ResponseKind::FriendRequests => "friend_requests"@,
            ResponseKind::FriendList => "friend_list"@,
            ResponseKind::FriendRequestSent => "friend_request_sent"@,
            ResponseKind::NewFriendRequest => "new_friend_request"@,
            ResponseKind::FriendRequestAccepted => "friend_request_accepted"@,
            ResponseKind::FriendRequestRejected => "friend_request_rejected"@,
            ResponseKind::FriendRequestFail => "friend_request_fail"@,
            ResponseKind::Invitation => "invitation"@,
            ResponseKind::VoiceChatInvitation => "voice_chat_invitation"@,
            ResponseKind::AdminAllUsers => "admin_all_users"@,
            ResponseKind::AdminAllRooms => "admin_all_rooms"@,
            ResponseKind::AdminError => "admin_error"@,
            ResponseKind::AdminCreateUserOk => "admin_create_user_ok"@,
            ResponseKind::AdminCreateUserFail => "admin_create_user_fail"@,
            ResponseKind::AdminGenericOk => "admin_generic_ok"@,
            ResponseKind::AdminChangePortOk => "admin_change_port_ok"@,
            ResponseKind::AdminChangePortFail => "admin_change_port_fail"@,
        }
    }

    /// The wire `type` of this kind.
    pub fn name(self) -> (name: &'static str)
        ensures
            name@ == self.label(),
    {
        match self {
            ResponseKind::AuthOk => "auth_ok",
            ResponseKind::AuthFail => "auth_fail",
            ResponseKind::RegisterOk => "register_ok",
            ResponseKind::RegisterFail => "register_fail",
            ResponseKind::JoinOk => "join_ok",
            ResponseKind::MessageHistory => "message_history",
            ResponseKind::NewChatMessage => "new_chat_message",
            ResponseKind::ChatList => "chat_list",
            ResponseKind::FriendRequests => "friend_requests",
            ResponseKind::FriendList => "friend_list",
            ResponseKind::FriendRequestSent => "friend_request_sent",
            ResponseKind::NewFriendRequest => "new_friend_request",
            ResponseKind::FriendRequestAccepted => "friend_request_accepted",
            ResponseKind::FriendRequestRejected => "friend_request_rejected",
            ResponseKind::FriendRequestFail => "friend_request_fail",
            ResponseKind::Invitation => "invitation",
            ResponseKind::VoiceChatInvitation => "voice_chat_invitation",
            ResponseKind::AdminAllUsers => "admin_all_users",
            ResponseKind::AdminAllRooms => "admin_all_rooms",
            ResponseKind::AdminError => "admin_error",
            ResponseKind::AdminCreateUserOk => "admin_create_user_ok",
            ResponseKind::AdminCreateUserFail => "admin_create_user_fail",
            ResponseKind::AdminGenericOk => "admin_generic_ok",
            ResponseKind::AdminChangePortOk => "admin_change_port_ok",
            ResponseKind::AdminChangePortFail => "admin_change_port_fail",
        }
    }
}

/// The payload of an outbound envelope, by its JSON shape.
#[derive(Debug, PartialEq, Eq)]
pub enum ResponsePayload {
    /// `{}`
    Empty,
    /// A bare JSON string.
    Text(String),
    /// `{"username", "role", "token"}`
    Credentials { username: String, role: String, token: String },
    /// `{"roomId"}`
    Joined { room_id: RoomId },
    /// `{"username"}`
    Username { username: String },
    /// `{"from_username"}`
    FromUsername { from_username: String },
    /// `{"error"}`
    Error { error: String },
    Message(ChatMessage),
    Messages(Vec<ChatMessage>),
    Rooms(Vec<RoomInfo>),
    Request(FriendRequestInfo),
    Requests(Vec<FriendRequestInfo>),
    Friends(Vec<FriendInfo>),
    Invitation(InvitationPayload),
    VoiceChatInvitation(VoiceChatInvitationPayload),
    Users(Vec<User>),
    AdminRooms(Vec<AdminRoomInfo>),
}

/// An outbound envelope.
#[derive(Debug, PartialEq, Eq)]
pub struct WsResponseMessage {
    pub kind: ResponseKind,
    pub payload: ResponsePayload,
}

/// What is pushed down a connection: an envelope, or bytes passed on as they came.
#[derive(Debug, PartialEq, Eq)]
pub enum Frame {
    Text(WsResponseMessage),
    Binary(Vec<u8>),
}

/// One frame and the connections it goes to, in order.
///
/// Delivery is best effort: a connection that cannot be reached is skipped,
/// and the others still get the frame.
#[derive(Debug, PartialEq, Eq)]
pub struct Delivery {
    pub to: Vec<ConnId>,
    pub frame: Frame,
}

/// Whether `delivery` carries an envelope of `kind` to exactly `conn`.
pub open spec fn envelope_to(delivery: Delivery, conn: ConnId, kind: ResponseKind) -> bool {
    &&& delivery.to@ == seq![conn]
    &&& delivery.frame matches Frame::Text(message)
    &&& message.kind == kind
}

/// The payload of the envelope in `delivery`.
pub open spec fn payload_of(delivery: Delivery) -> ResponsePayload
    recommends
        delivery.frame is Text,
{
    delivery.frame->Text_0.payload
}

/// Addresses an envelope of `kind` with `payload` to the single connection
/// `conn`. The host puts it on that connection's outbound queue.
pub fn send_ws_message_to(conn: ConnId, kind: ResponseKind, payload: ResponsePayload) -> (delivery: Delivery)
    ensures
        envelope_to(delivery, conn, kind),
        payload_of(delivery) == payload,
{
    let mut to: Vec<ConnId> = Vec::new();
    to.push(conn);
    Delivery { to, frame: Frame::Text(WsResponseMessage { kind, payload }) }
}

} // verus!
