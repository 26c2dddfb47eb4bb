use robot_commands::command::{Command, CreateCommandRequest, Status, Timestamp};
use robot_commands::ident::CommandId;
use robot_commands::store::{CommandStore, StoreError};

fn time(micros: i64) -> Timestamp {
    Timestamp { micros }
}

fn id(value: u128) -> CommandId {
    CommandId { value }
}

fn order(tag: &str, robot: &str, floor: i32) -> CreateCommandRequest {
    CreateCommandRequest { tag_id: tag.to_string(), robot_id: robot.to_string(), floor }
}

fn ids(commands: &[Command]) -> Vec<u128> {
    commands.iter().map(|command| command.id.value).collect()
}

/// Three commands created at the times 10, 20 and 30, under the identifiers
/// 1, 2 and 3.
fn three_commands() -> CommandStore {
    let mut store = CommandStore::new(time(10));
    store.insert(id(1), order("T1", "R1", 1)).unwrap();
    store.advance_clock(time(20));
    store.insert(id(2), order("T2", "R2", 2)).unwrap();
    store.advance_clock(time(30));
    store.insert(id(3), order("T3", "R3", 3)).unwrap();
    store
}

#[test]
fn new_store_is_empty() {
    let store = CommandStore::new(time(5));
    assert_eq!(store.len(), 0);
    assert_eq!(store.now(), time(5));
    assert_eq!(store.list_all(), Vec::<Command>::new());
    assert_eq!(store.list_pending(), Vec::<Command>::new());
    assert!(!store.contains(id(1)));
}

#[test]
fn clock_moves_forward_only() {
    let mut store = CommandStore::new(time(100));
    store.advance_clock(time(150));
    assert_eq!(store.now(), time(150));
    store.advance_clock(time(120));
    assert_eq!(store.now(), time(150));
    store.advance_clock(time(150));
    assert_eq!(store.now(), time(150));
    store.advance_clock(time(i64::MAX));
    assert_eq!(store.now(), time(i64::MAX));
}

#[test]
fn insert_returns_the_pending_command() {
    let mut store = CommandStore::new(time(10));
    let created = store.insert(id(1), order("T1", "R1", 3));
    assert_eq!(
        created,
        Ok(Command {
            id: id(1),
            tag_id: "T1".to_string(),
            robot_id: "R1".to_string(),
            floor: 3,
            created_at: time(10),
            completed_at: None,
            status: Status::Pending,
        })
    );
    assert_eq!(store.len(), 1);
    assert!(store.contains(id(1)));
    assert_eq!(store.list_all(), vec![created.unwrap()]);
}

#[test]
fn insert_stamps_the_current_time() {
    let mut store = CommandStore::new(time(10));
    store.advance_clock(time(77));
    let created = store.insert(id(1), order("T", "R", 0)).unwrap();
    assert_eq!(created.created_at, time(77));
}

#[test]
fn insert_refuses_a_taken_identifier() {
    let mut store = CommandStore::new(time(10));
    store.insert(id(1), order("T1", "R1", 3)).unwrap();
    let before = store.list_all();
    assert_eq!(store.insert(id(1), order("T2", "R2", 4)), Err(StoreError::DuplicateId));
    assert_eq!(store.list_all(), before);
    assert_eq!(store.len(), 1);
}

#[test]
fn insert_allows_equal_tag_robot_and_floor() {
    let mut store = CommandStore::new(time(10));
    store.insert(id(1), order("T", "R", 3)).unwrap();
    store.insert(id(2), order("T", "R", 3)).unwrap();
    assert_eq!(store.len(), 2);
    assert_eq!(ids(&store.list_pending()), vec![1, 2]);
}

#[test]
fn list_all_is_newest_first() {
    let store = three_commands();
    let listing = store.list_all();
    assert_eq!(ids(&listing), vec![3, 2, 1]);
    assert_eq!(
        listing.iter().map(|command| command.created_at.micros).collect::<Vec<i64>>(),
        vec![30, 20, 10]
    );
}

#[test]
fn list_pending_is_oldest_first() {
    let store = three_commands();
    let listing = store.list_pending();
    assert_eq!(ids(&listing), vec![1, 2, 3]);
    assert_eq!(
        listing.iter().map(|command| command.created_at.micros).collect::<Vec<i64>>(),
        vec![10, 20, 30]
    );
}

#[test]
fn list_pending_holds_exactly_the_pending_commands() {
    let mut store = three_commands();
    store.advance_clock(time(40));
    store.complete(id(2)).unwrap();
    let listing = store.list_pending();
    assert_eq!(ids(&listing), vec![1, 3]);
    assert!(listing.iter().all(|command| command.status == Status::Pending));
    let all = store.list_all();
    let pending_in_all: Vec<u128> = all
        .iter()
        .filter(|command| command.status == Status::Pending)
        .map(|command| command.id.value)
        .collect();
    assert_eq!(pending_in_all, vec![3, 1]);
}

#[test]
fn list_pending_is_empty_when_all_are_completed() {
    let mut store = three_commands();
    store.complete(id(1)).unwrap();
    store.complete(id(2)).unwrap();
    store.complete(id(3)).unwrap();
    assert_eq!(store.list_pending(), Vec::<Command>::new());
    assert_eq!(ids(&store.list_all()), vec![3, 2, 1]);
}

#[test]
fn complete_sets_status_and_completion_time() {
    let mut store = three_commands();
    store.advance_clock(time(45));
    let completed = store.complete(id(2));
    assert_eq!(
        completed,
        Ok(Command {
            id: id(2),
            tag_id: "T2".to_string(),
            robot_id: "R2".to_string(),
            floor: 2,
            created_at: time(20),
            completed_at: Some(time(45)),
            status: Status::Completed,
        })
    );
    let all = store.list_all();
    assert_eq!(all[1], completed.unwrap());
    assert_eq!(ids(&store.list_pending()), vec![1, 3]);
}

#[test]
fn complete_at_the_time_of_creation() {
    let mut store = CommandStore::new(time(10));
    store.insert(id(1), order("T", "R", 1)).unwrap();
    let completed = store.complete(id(1)).unwrap();
    assert_eq!(completed.created_at, time(10));
    assert_eq!(completed.completed_at, Some(time(10)));
}

#[test]
fn complete_again_succeeds_and_refreshes_the_time() {
    let mut store = three_commands();
    store.advance_clock(time(40));
    let first = store.complete(id(1)).unwrap();
    store.advance_clock(time(50));
    let second = store.complete(id(1)).unwrap();
    assert_eq!(first.completed_at, Some(time(40)));
    assert_eq!(second.completed_at, Some(time(50)));
    assert_eq!(second.status, Status::Completed);
    let third = store.complete(id(1)).unwrap();
    assert_eq!(third.completed_at, Some(time(50)));
    assert_eq!(third.status, Status::Completed);
}

#[test]
fn complete_of_an_unknown_identifier_changes_nothing() {
    let mut store = three_commands();
    let before = store.list_all();
    assert_eq!(store.complete(id(99)), Err(StoreError::NotFound));
    assert_eq!(store.list_all(), before);
    assert_eq!(store.len(), 3);
    assert!(!store.contains(id(99)));
}

#[test]
fn complete_on_an_empty_store_is_not_found() {
    let mut store = CommandStore::new(time(0));
    assert_eq!(store.complete(id(1)), Err(StoreError::NotFound));
    assert_eq!(store.len(), 0);
}

#[test]
fn complete_leaves_the_other_fields_and_commands() {
    let mut store = three_commands();
    let before = store.list_all();
    store.advance_clock(time(60));
    store.complete(id(2)).unwrap();
    let after = store.list_all();
    assert_eq!(after.len(), before.len());
    for (old, new) in before.iter().zip(after.iter()) {
        assert_eq!(new.id, old.id);
        assert_eq!(new.tag_id, old.tag_id);
        assert_eq!(new.robot_id, old.robot_id);
        assert_eq!(new.floor, old.floor);
        assert_eq!(new.created_at, old.created_at);
        if old.id != id(2) {
            assert_eq!(new, old);
        }
    }
}

#[test]
fn commands_created_at_one_time_keep_their_order() {
    let mut store = CommandStore::new(time(10));
    store.insert(id(5), order("a", "r", 1)).unwrap();
    store.insert(id(4), order("b", "r", 1)).unwrap();
    store.insert(id(6), order("c", "r", 1)).unwrap();
    assert_eq!(ids(&store.list_pending()), vec![5, 4, 6]);
    assert_eq!(ids(&store.list_all()), vec![6, 4, 5]);
}

#[test]
fn a_late_clock_reading_does_not_reorder_creations() {
    let mut store = CommandStore::new(time(100));
    store.insert(id(1), order("a", "r", 1)).unwrap();
    store.advance_clock(time(50));
    let second = store.insert(id(2), order("b", "r", 1)).unwrap();
    assert_eq!(second.created_at, time(100));
    assert_eq!(ids(&store.list_all()), vec![2, 1]);
}
