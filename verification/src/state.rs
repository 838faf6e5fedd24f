//! The state that all connections share.

use crate::presence::{ConnId, PresenceDirectory};
use crate::rooms::{LiveRooms, RoomRegistry};
use vstd::prelude::*;

verus! {

/// The one-shot signal that brings the server down.
///
/// It fires once. Triggering it again does nothing.
pub struct ShutdownCoordinator {
    armed: bool,
}

impl ShutdownCoordinator {
    /// Whether the signal has not fired yet.
    pub closed spec fn armed(&self) -> bool {
        self.armed
    }

    /// A signal that has not fired.
    pub fn new() -> (signal: Self)
        ensures
            signal.armed(),
    {
        ShutdownCoordinator { armed: true }
    }

    /// Fires the signal. Yields whether this call was the one that fired it.
    pub fn trigger(&mut self) -> (fired: bool)
        ensures
            fired == old(self).armed(),
            !final(self).armed(),
    {
        let fired = self.armed;
        self.armed = false;
        fired
    }

    /// Whether the signal has not fired yet.
    pub fn is_armed(&self) -> (armed: bool)
        ensures
            armed == self.armed(),
    {
        self.armed
    }
}

/// Everything that the connections of one server share: the live rooms, the
/// presence directory and the shutdown signal.
///
/// The host guards it with a lock and holds that lock only while one of
/// the core's functions runs. Those functions never send anything: they copy
/// the targets out, and the host sends after it has let go of the lock.
pub struct AppState {
    pub rooms: RoomRegistry,
    pub online_users: PresenceDirectory,
    pub shutdown: ShutdownCoordinator,
}

/// The shared state as plain data.
pub struct Hub {
    /// For each live room, its members and their connections.
    pub rooms: LiveRooms,
    /// For each online user, the connection that speaks for them.
    pub online: Map<i32, ConnId>,
    /// Whether the shutdown signal has not fired yet.
    pub armed: bool,
}

impl View for AppState {
    type V = Hub;

    open spec fn view(&self) -> Hub {
        Hub { rooms: self.rooms@, online: self.online_users@, armed: self.shutdown.armed() }
    }
}

impl AppState {
    /// The state of a server that has just started: no live room, nobody
    /// online, the shutdown signal armed.
    pub fn new() -> (state: Self)
        ensures
            state@ == (Hub { rooms: LiveRooms::empty(), online: Map::<i32, ConnId>::empty(), armed: true }),
    {
        AppState { rooms: RoomRegistry::new(), online_users: PresenceDirectory::new(), shutdown: ShutdownCoordinator::new() }
    }
}

} // verus!
