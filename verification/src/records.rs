//! The rows that durable storage hands over, and the server's configuration.

use vstd::prelude::*;

verus! {

/// Identifies a chat room.
pub type RoomId = i64;

/// A registered user.
#[derive(Debug, PartialEq, Eq)]
pub struct User {
    pub _id: i32,
    pub username: String,
    pub password_hash: String,
    pub role: String,
}

impl Clone for User {
    fn clone(&self) -> (copy: Self)
        ensures
            copy == *self,
    {
        User {
            _id: self._id,
            username: self.username.clone(),
            password_hash: self.password_hash.clone(),
            role: self.role.clone(),
        }
    }
}

/// A stored chat message.
#[derive(Debug, PartialEq, Eq)]
pub struct ChatMessage {
    pub id: i32,
    pub room_id: i64,
    pub sender_username: String,
    pub content: String,
    pub timestamp: String,
}

/// A friend request together with its sender's name.
#[derive(Debug, PartialEq, Eq)]
pub struct FriendRequestInfo {
    pub id: i32,
    pub from_user_id: i32,
    pub from_username: String,
    pub to_user_id: i32,
    pub status: String,
    pub timestamp: String,
}

/// A room as one of its participants sees it.
#[derive(Debug, PartialEq, Eq)]
pub struct RoomInfo {
    pub room_id: i64,
    pub name: Option<String>,
    pub participants: Vec<String>,
}

/// A room as an administrator sees it.
#[derive(Debug, PartialEq, Eq)]
pub struct AdminRoomInfo {
    pub id: i64,
    pub name: Option<String>,
    pub is_private: bool,
    pub created_at: String,
    pub participants: Vec<String>,
}

/// A friend and whether that friend is online right now.
#[derive(Debug, PartialEq, Eq)]
pub struct FriendInfo {
    pub id: i32,
    pub username: String,
    pub is_online: bool,
}

/// The server's configuration.
#[derive(Debug, Clone, Copy, PartialEq, Eq, Structural)]
pub struct Config {
    pub port: u16,
}

/// The port a server listens on when nothing else is configured.
pub const DEFAULT_PORT: u16 = 3001;

impl Default for Config {
    fn default() -> (config: Self)
        ensures
            config == (Config { port: DEFAULT_PORT }),
    {
        Config { port: DEFAULT_PORT }
    }
}

/// What a look at the configuration file found.
#[derive(Debug, Clone, Copy, PartialEq, Eq, Structural)]
pub enum ConfigFile {
    /// There is no file.
    Missing,
    /// The file holds this configuration.
    Parsed(Config),
    /// The file is there but cannot be understood.
    Invalid,
}

/// The configuration to run with, and whether the default has to be written
/// out because no file existed.
pub open spec fn config_from(found: ConfigFile) -> (Config, bool) {
    match found {
        ConfigFile::Missing => (Config { port: DEFAULT_PORT }, true),
        ConfigFile::Parsed(config) => (config, false),
        ConfigFile::Invalid => (Config { port: DEFAULT_PORT }, false),
    }
}

/// Chooses the configuration to run with.
///
/// A missing file yields the default and asks for it to be written; a file
/// that cannot be understood yields the default and is left alone.
pub fn load_config(found: ConfigFile) -> (chosen: (Config, bool))
    ensures
        chosen == config_from(found),
{
    match found {
        ConfigFile::Missing => (Config::default(), true),
        ConfigFile::Parsed(config) => (config, false),
        ConfigFile::Invalid => (Config::default(), false),
    }
}

} // verus!
