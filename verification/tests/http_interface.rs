use robot_commands::api::{
    command_reply, complete_command, create_command, failure_reply, get_commands,
    get_pending_commands, listing_reply, malformed_body_reply, malformed_id_reply,
    mark_command_complete, Body, Endpoint, Method, Reply, STATUS_BAD_REQUEST, STATUS_CREATED,
    STATUS_INTERNAL_SERVER_ERROR, STATUS_NOT_FOUND, STATUS_OK,
};
use robot_commands::command::{
    Command, CreateCommandFields, CreateCommandRequest, Status, Timestamp,
};
use robot_commands::ident::CommandId;
use robot_commands::store::{CommandStore, StoreError};

const FIRST: &str = "00000000-0000-0000-0000-000000000001";
const SECOND: &str = "00000000-0000-0000-0000-000000000002";
const THIRD: &str = "00000000-0000-0000-0000-000000000003";
const ABSENT: &str = "00000000-0000-0000-0000-0000000000ff";

fn moment(micros: i64) -> Timestamp {
    Timestamp { micros }
}

fn key(value: u128) -> CommandId {
    CommandId { value }
}

fn payload(tag: &str, robot: &str, floor: i32) -> CreateCommandFields {
    CreateCommandFields {
        tag_id: Some(tag.to_string()),
        robot_id: Some(robot.to_string()),
        floor: Some(floor),
    }
}

fn order(tag: &str, robot: &str, floor: i32) -> CreateCommandRequest {
    CreateCommandRequest { tag_id: tag.to_string(), robot_id: robot.to_string(), floor }
}

fn listed(reply: &Reply) -> Vec<Command> {
    match &reply.body {
        Body::Many(commands) => commands.clone(),
        other => panic!("the reply carries no list: {:?}", other),
    }
}

fn single(reply: &Reply) -> Command {
    match &reply.body {
        Body::One(command) => command.clone(),
        other => panic!("the reply carries no command: {:?}", other),
    }
}

fn keys(commands: &[Command]) -> Vec<u128> {
    commands.iter().map(|command| command.id.value).collect()
}

fn service_with_three() -> CommandStore {
    let mut store = CommandStore::new(moment(1_000));
    create_command(&mut store, key(1), payload("T1", "R1", 1));
    store.advance_clock(moment(2_000));
    create_command(&mut store, key(2), payload("T2", "R2", 2));
    store.advance_clock(moment(3_000));
    create_command(&mut store, key(3), payload("T3", "R3", 3));
    store
}

#[test]
fn status_codes_have_their_values() {
    assert_eq!(STATUS_OK, 200);
    assert_eq!(STATUS_CREATED, 201);
    assert_eq!(STATUS_BAD_REQUEST, 400);
    assert_eq!(STATUS_NOT_FOUND, 404);
    assert_eq!(STATUS_INTERNAL_SERVER_ERROR, 500);
}

#[test]
fn endpoint_table_matches_the_interface() {
    assert_eq!(Endpoint::ListCommands.method(), Method::Get);
    assert_eq!(Endpoint::ListCommands.path(), "/commands");
    assert_eq!(Endpoint::ListCommands.success_status(), 200);
    assert_eq!(Endpoint::ListPending.method(), Method::Get);
    assert_eq!(Endpoint::ListPending.path(), "/commands/pending");
    assert_eq!(Endpoint::ListPending.success_status(), 200);
    assert_eq!(Endpoint::CreateCommand.method(), Method::Post);
    assert_eq!(Endpoint::CreateCommand.path(), "/commands");
    assert_eq!(Endpoint::CreateCommand.success_status(), 201);
    assert_eq!(Endpoint::CompleteCommand.method(), Method::Post);
    assert_eq!(Endpoint::CompleteCommand.path(), "/commands/{id}/complete");
    assert_eq!(Endpoint::CompleteCommand.success_status(), 200);
}

#[test]
fn method_names_are_upper_case() {
    assert_eq!(Method::Get.as_str(), "GET");
    assert_eq!(Method::Post.as_str(), "POST");
    assert_eq!(Method::Delete.as_str(), "DELETE");
}

#[test]
fn failure_reply_maps_each_error() {
    assert_eq!(failure_reply(StoreError::NotFound), Reply { status: 404, body: Body::Empty });
    assert_eq!(failure_reply(StoreError::DuplicateId), Reply { status: 500, body: Body::Empty });
    assert_eq!(failure_reply(StoreError::Failed), Reply { status: 500, body: Body::Empty });
}

#[test]
fn malformed_id_reply_is_a_client_error() {
    let reply = malformed_id_reply();
    assert_eq!(reply, Reply { status: 404, body: Body::Empty });
    assert!((400..500).contains(&reply.status));
}

#[test]
fn listing_reply_carries_the_rows_in_order() {
    let first = Command::pending(key(1), order("a", "r", 1), moment(1));
    let second = Command::pending(key(2), order("b", "r", 2), moment(2));
    let reply = listing_reply(Ok(vec![second.clone(), first.clone()]));
    assert_eq!(reply, Reply { status: 200, body: Body::Many(vec![second, first]) });
    assert_eq!(listing_reply(Ok(Vec::new())), Reply { status: 200, body: Body::Many(Vec::new()) });
    assert_eq!(listing_reply(Err(StoreError::Failed)), Reply { status: 500, body: Body::Empty });
}

#[test]
fn command_reply_uses_the_status_of_the_endpoint() {
    let command = Command::pending(key(1), order("a", "r", 1), moment(1));
    assert_eq!(
        command_reply(Endpoint::CreateCommand, Ok(command.clone())),
        Reply { status: 201, body: Body::One(command.clone()) }
    );
    assert_eq!(
        command_reply(Endpoint::CompleteCommand, Ok(command.clone())),
        Reply { status: 200, body: Body::One(command) }
    );
    assert_eq!(
        command_reply(Endpoint::CompleteCommand, Err(StoreError::NotFound)),
        Reply { status: 404, body: Body::Empty }
    );
    assert_eq!(
        command_reply(Endpoint::CreateCommand, Err(StoreError::DuplicateId)),
        Reply { status: 500, body: Body::Empty }
    );
    assert_eq!(
        command_reply(Endpoint::CreateCommand, Err(StoreError::Failed)),
        Reply { status: 500, body: Body::Empty }
    );
}

#[test]
fn round_trip_creation() {
    let mut store = CommandStore::new(moment(1_000));
    let reply = create_command(&mut store, key(0x2a), payload("T1", "R1", 3));
    assert_eq!(reply.status, 201);
    let created = single(&reply);
    assert_eq!(created.tag_id, "T1");
    assert_eq!(created.robot_id, "R1");
    assert_eq!(created.floor, 3);
    assert_eq!(created.status, Status::Pending);
    assert_eq!(created.completed_at, None);
    assert_eq!(created.id, key(0x2a));
    assert_eq!(created.created_at, moment(1_000));
    let all = get_commands(&store);
    assert_eq!(all.status, 200);
    assert!(listed(&all).contains(&created));
    assert!(listed(&get_pending_commands(&store)).contains(&created));
}

#[test]
fn malformed_body_reply_is_a_bad_request() {
    assert_eq!(malformed_body_reply(), Reply { status: 400, body: Body::Empty });
}

#[test]
fn creation_without_floor_is_refused() {
    let mut store = service_with_three();
    let before = listed(&get_commands(&store));
    let body = CreateCommandFields {
        tag_id: Some("T1".to_string()),
        robot_id: Some("R1".to_string()),
        floor: None,
    };
    let reply = create_command(&mut store, key(9), body);
    assert_eq!(reply, Reply { status: 400, body: Body::Empty });
    assert!((400..500).contains(&reply.status));
    assert_eq!(listed(&get_commands(&store)), before);
    assert_eq!(store.len(), 3);
    assert!(!store.contains(key(9)));
}

#[test]
fn creation_without_tag_or_robot_is_refused() {
    let mut store = CommandStore::new(moment(0));
    let no_tag =
        CreateCommandFields { tag_id: None, robot_id: Some("R".to_string()), floor: Some(1) };
    let no_robot =
        CreateCommandFields { tag_id: Some("T".to_string()), robot_id: None, floor: Some(1) };
    let nothing = CreateCommandFields { tag_id: None, robot_id: None, floor: None };
    for body in [no_tag, no_robot, nothing] {
        assert_eq!(create_command(&mut store, key(1), body).status, 400);
    }
    assert_eq!(store.len(), 0);
}

#[test]
fn creation_takes_any_floor_and_empty_texts() {
    let mut store = CommandStore::new(moment(0));
    let reply = create_command(&mut store, key(1), payload("", "", -40));
    assert_eq!(reply.status, 201);
    let created = single(&reply);
    assert_eq!(created.floor, -40);
    assert_eq!(created.tag_id, "");
    assert_eq!(created.robot_id, "");
}

#[test]
fn creation_under_a_taken_identifier_is_a_server_error() {
    let mut store = CommandStore::new(moment(1_000));
    create_command(&mut store, key(1), payload("T1", "R1", 3));
    let before = listed(&get_commands(&store));
    let reply = create_command(&mut store, key(1), payload("T9", "R9", 9));
    assert_eq!(reply, Reply { status: 500, body: Body::Empty });
    assert_eq!(listed(&get_commands(&store)), before);
}

#[test]
fn listings_of_an_empty_service_are_empty_lists() {
    let store = CommandStore::new(moment(0));
    assert_eq!(get_commands(&store), Reply { status: 200, body: Body::Many(Vec::new()) });
    assert_eq!(get_pending_commands(&store), Reply { status: 200, body: Body::Many(Vec::new()) });
}

#[test]
fn all_commands_are_listed_newest_first() {
    let store = service_with_three();
    let reply = get_commands(&store);
    assert_eq!(reply.status, 200);
    assert_eq!(keys(&listed(&reply)), vec![3, 2, 1]);
}

#[test]
fn pending_commands_are_listed_oldest_first() {
    let mut store = CommandStore::new(moment(1_000));
    create_command(&mut store, key(1), payload("T1", "R1", 1));
    store.advance_clock(moment(2_000));
    create_command(&mut store, key(2), payload("T2", "R2", 2));
    let reply = get_pending_commands(&store);
    assert_eq!(reply.status, 200);
    assert_eq!(keys(&listed(&reply)), vec![1, 2]);
}

#[test]
fn pending_listing_never_holds_a_completed_command() {
    let mut store = service_with_three();
    mark_command_complete(&mut store, FIRST);
    mark_command_complete(&mut store, THIRD);
    let pending = listed(&get_pending_commands(&store));
    assert_eq!(keys(&pending), vec![2]);
    assert!(pending.iter().all(|command| command.status == Status::Pending));
}

#[test]
fn completion_transition() {
    let mut store = service_with_three();
    store.advance_clock(moment(4_000));
    let reply = mark_command_complete(&mut store, SECOND);
    assert_eq!(reply.status, 200);
    let completed = single(&reply);
    assert_eq!(completed.id, key(2));
    assert_eq!(completed.status, Status::Completed);
    assert_eq!(completed.completed_at, Some(moment(4_000)));
    assert!(completed.completed_at.unwrap().micros >= completed.created_at.micros);
    let all = listed(&get_commands(&store));
    assert_eq!(keys(&all), vec![3, 2, 1]);
    assert_eq!(all[1], completed);
    assert_eq!(keys(&listed(&get_pending_commands(&store))), vec![1, 3]);
}

#[test]
fn recompletion_succeeds_and_keeps_the_status() {
    let mut store = service_with_three();
    store.advance_clock(moment(4_000));
    let first = single(&mark_command_complete(&mut store, SECOND));
    store.advance_clock(moment(5_000));
    let reply = mark_command_complete(&mut store, SECOND);
    assert_eq!(reply.status, 200);
    let second = single(&reply);
    assert_eq!(second.status, Status::Completed);
    assert_eq!(second.completed_at, Some(moment(5_000)));
    assert!(second.completed_at.unwrap().micros >= first.completed_at.unwrap().micros);
}

#[test]
fn completion_of_an_unknown_identifier_is_not_found() {
    let mut store = service_with_three();
    let before = listed(&get_commands(&store));
    let reply = mark_command_complete(&mut store, ABSENT);
    assert_eq!(reply, Reply { status: 404, body: Body::Empty });
    assert_ne!(reply.status, 200);
    assert_eq!(listed(&get_commands(&store)), before);
    assert!(!store.contains(key(0xff)));
}

#[test]
fn completion_with_a_malformed_identifier_is_refused() {
    let mut store = service_with_three();
    let before = listed(&get_commands(&store));
    for text in ["", "2", "second", "00000000-0000-0000-0000-00000000000g"] {
        let reply = mark_command_complete(&mut store, text);
        assert_eq!(reply, Reply { status: 404, body: Body::Empty });
    }
    assert_eq!(listed(&get_commands(&store)), before);
}

#[test]
fn completion_reads_the_identifier_from_the_path_text() {
    let mut store = service_with_three();
    let reply = mark_command_complete(&mut store, "00000000-0000-0000-0000-000000000003");
    assert_eq!(reply.status, 200);
    assert_eq!(single(&reply).id, key(3));
    let simple = mark_command_complete(&mut store, "00000000000000000000000000000002");
    assert_eq!(simple.status, 200);
    assert_eq!(single(&simple).id, key(2));
    assert_eq!(keys(&listed(&get_pending_commands(&store))), vec![1]);
}

#[test]
fn complete_command_takes_the_parsed_identifier() {
    let mut store = service_with_three();
    assert_eq!(complete_command(&mut store, None), Reply { status: 404, body: Body::Empty });
    assert_eq!(
        complete_command(&mut store, Some(key(9))),
        Reply { status: 404, body: Body::Empty }
    );
    let reply = complete_command(&mut store, Some(key(1)));
    assert_eq!(reply.status, 200);
    assert_eq!(single(&reply).status, Status::Completed);
}

#[test]
fn completion_changes_status_and_time_only() {
    let mut store = service_with_three();
    let before = listed(&get_commands(&store));
    store.advance_clock(moment(9_000));
    mark_command_complete(&mut store, FIRST);
    let after = listed(&get_commands(&store));
    assert_eq!(after.len(), 3);
    for (old, new) in before.iter().zip(after.iter()) {
        assert_eq!(new.id, old.id);
        assert_eq!(new.tag_id, old.tag_id);
        assert_eq!(new.robot_id, old.robot_id);
        assert_eq!(new.floor, old.floor);
        assert_eq!(new.created_at, old.created_at);
    }
    assert_eq!(after[0], before[0]);
    assert_eq!(after[1], before[1]);
    assert_eq!(after[2].status, Status::Completed);
    assert_eq!(after[2].completed_at, Some(moment(9_000)));
}
