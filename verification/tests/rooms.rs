use chat_hub::rooms::{Room, RoomRegistry};

fn sorted(mut seats: Vec<(i32, u64)>) -> Vec<(i32, u64)> {
    seats.sort();
    seats
}

#[test]
fn a_new_registry_has_no_live_room() {
    let registry = RoomRegistry::new();
    assert!(!registry.is_live(1));
    assert_eq!(registry.roster(1, None), vec![]);
    assert_eq!(registry.members_of(1), Vec::<i32>::new());
}

#[test]
fn join_makes_the_room_live() {
    let mut registry = RoomRegistry::new();
    registry.join(42, 1, 10);
    assert!(registry.is_live(42));
    assert!(!registry.is_live(43));
    assert_eq!(registry.roster(42, None), vec![(1, 10)]);
}

#[test]
fn join_is_idempotent_and_overwrites_the_connection() {
    let mut registry = RoomRegistry::new();
    registry.join(42, 1, 10);
    registry.join(42, 1, 10);
    assert_eq!(registry.roster(42, None), vec![(1, 10)]);
    registry.join(42, 1, 11);
    assert_eq!(registry.roster(42, None), vec![(1, 11)]);
}

#[test]
fn leave_removes_the_member_and_keeps_the_others() {
    let mut registry = RoomRegistry::new();
    registry.join(42, 1, 10);
    registry.join(42, 2, 20);
    registry.join(42, 3, 30);
    registry.leave(42, 2);
    assert!(registry.is_live(42));
    assert_eq!(sorted(registry.roster(42, None)), vec![(1, 10), (3, 30)]);
}

#[test]
fn room_goes_with_its_last_member() {
    let mut registry = RoomRegistry::new();
    registry.join(42, 1, 10);
    registry.join(42, 2, 20);
    registry.leave(42, 1);
    assert!(registry.is_live(42));
    registry.leave(42, 2);
    assert!(!registry.is_live(42));
    assert_eq!(registry.roster(42, None), vec![]);
}

#[test]
fn leaving_a_room_one_is_not_in_changes_nothing() {
    let mut registry = RoomRegistry::new();
    registry.join(42, 1, 10);
    registry.leave(42, 9);
    registry.leave(7, 1);
    assert!(registry.is_live(42));
    assert!(!registry.is_live(7));
    assert_eq!(registry.roster(42, None), vec![(1, 10)]);
}

#[test]
fn roster_leaves_out_the_excluded_member_only() {
    let mut registry = RoomRegistry::new();
    registry.join(42, 1, 10);
    registry.join(42, 2, 20);
    registry.join(42, 3, 30);
    assert_eq!(sorted(registry.roster(42, Some(2))), vec![(1, 10), (3, 30)]);
    assert_eq!(sorted(registry.roster(42, Some(9))), vec![(1, 10), (2, 20), (3, 30)]);
    assert_eq!(sorted(registry.roster(42, None)), vec![(1, 10), (2, 20), (3, 30)]);
}

#[test]
fn members_of_lists_each_member_once() {
    let mut registry = RoomRegistry::new();
    registry.join(42, 3, 30);
    registry.join(42, 1, 10);
    registry.join(42, 3, 31);
    registry.join(7, 5, 50);
    let mut members = registry.members_of(42);
    members.sort();
    assert_eq!(members, vec![1, 3]);
    assert_eq!(registry.members_of(7), vec![5]);
}

#[test]
fn rooms_are_independent() {
    let mut registry = RoomRegistry::new();
    registry.join(1, 1, 10);
    registry.join(2, 1, 10);
    registry.leave(1, 1);
    assert!(!registry.is_live(1));
    assert!(registry.is_live(2));
}

#[test]
fn a_room_of_its_own_lists_its_clients() {
    let room = Room::new();
    assert_eq!(room.roster(None), vec![]);
}

#[test]
fn evicting_removes_the_user_from_every_room_and_nobody_else() {
    let mut registry = RoomRegistry::new();
    registry.join(1, 1, 10);
    registry.join(2, 1, 10);
    registry.join(2, 2, 20);
    registry.join(3, 2, 20);
    registry.evict(1);
    assert!(!registry.is_live(1));
    assert_eq!(registry.roster(2, None), vec![(2, 20)]);
    assert_eq!(registry.roster(3, None), vec![(2, 20)]);
    registry.evict(1);
    registry.evict(9);
    assert_eq!(registry.roster(2, None), vec![(2, 20)]);
    registry.evict(2);
    assert!(!registry.is_live(2));
    assert!(!registry.is_live(3));
}
