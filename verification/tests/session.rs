use simple_ec2::provider::{
    InstanceRecord, ReservationRecord, StateChangeRecord, StateRecord, TagRecord,
};
use simple_ec2::session::resolve;
use simple_ec2::{
    after_control, list, Command, ControlAction, ControlRequest, Fatal, MissingField, Next,
    Operation, StateChange,
};

fn text(s: &str) -> Option<String> {
    Some(s.to_string())
}

fn record(name: Option<&str>, id: &str, state: &str) -> InstanceRecord {
    InstanceRecord {
        tags: name.map(|n| vec![TagRecord { key: text("Name"), value: text(n) }]),
        instance_id: text(id),
        instance_type: text("t2.micro"),
        state: Some(StateRecord { name: text(state) }),
        private_ip_address: text("10.0.0.1"),
        public_ip_address: None,
    }
}

fn answer(records: Vec<InstanceRecord>) -> Result<Option<Vec<ReservationRecord>>, String> {
    Ok(Some(vec![ReservationRecord { instances: Some(records) }]))
}

fn change(previous: &str, current: &str) -> StateChangeRecord {
    StateChangeRecord {
        current_state: Some(StateRecord { name: text(current) }),
        previous_state: Some(StateRecord { name: text(previous) }),
    }
}

fn send(action: ControlAction, id: &str) -> Next {
    Next::Send(ControlRequest { action, instance_ids: vec![id.to_string()] })
}

#[test]
fn starting_a_stopped_instance_tells_where_it_was() {
    let listing = answer(vec![record(Some("web-1"), "i-1", "stopped")]);
    let next = Command::Start("web-1".to_string()).after_listing("us-east-1", listing);
    assert_eq!(next, send(ControlAction::Start, "i-1"));

    let acknowledgment = Some(vec![change("stopped", "pending")]);
    let told = StateChange::from_acknowledgment(&acknowledgment).unwrap();
    assert_eq!(told.previous_state, "stopped");

    let end = after_control(ControlAction::Start, Ok(acknowledgment));
    assert_eq!(end, Ok("stopped -> pending\n".to_string()));
}

#[test]
fn stopping_by_name_asks_for_that_instance() {
    let listing = answer(vec![
        record(Some("db"), "i-7", "running"),
        record(Some("web-1"), "i-1", "running"),
    ]);
    let next = Command::Stop("web-1".to_string()).after_listing("us-east-1", listing);
    assert_eq!(next, send(ControlAction::Stop, "i-1"));
    let end = after_control(ControlAction::Stop, Ok(Some(vec![change("running", "stopping")])));
    assert_eq!(end, Ok("running -> stopping\n".to_string()));
}

#[test]
fn ls_with_no_instances_prints_header_only() {
    let expected = "\
Region: us-west-2
+------+----+------+-----------------+----------------+-------+
| Name | ID | Type | Private Address | Public Address | State |
+------+----+------+-----------------+----------------+-------+
";
    assert_eq!(Command::Ls.after_listing("us-west-2", Ok(None)), Next::Print(expected.to_string()));
    assert_eq!(
        Command::Ls.after_listing("us-west-2", Ok(Some(vec![]))),
        Next::Print(expected.to_string())
    );
    assert_eq!(
        Command::Ls.after_listing("us-west-2", answer(vec![])),
        Next::Print(expected.to_string())
    );
}

#[test]
fn ls_prints_every_instance() {
    let expected = "\
Region: us-west-2
+-------+-----+----------+-----------------+----------------+---------+
| Name  | ID  | Type     | Private Address | Public Address | State   |
+-------+-----+----------+-----------------+----------------+---------+
| web-1 | i-1 | t2.micro | 10.0.0.1        |                | stopped |
+-------+-----+----------+-----------------+----------------+---------+
";
    let listing = answer(vec![record(Some("web-1"), "i-1", "stopped")]);
    assert_eq!(Command::Ls.after_listing("us-west-2", listing), Next::Print(expected.to_string()));
}

#[test]
fn ls_with_lone_escape_character_prints() {
    let listing = answer(vec![record(Some("a\u{1b}b"), "i-1", "stopped")]);
    match Command::Ls.after_listing("us-west-2", listing) {
        Next::Print(text) => assert!(text.contains("a\u{1b}b")),
        other => panic!("a listing was expected, not {:?}", other),
    }
}

#[test]
fn start_finds_instance_beside_one_with_valueless_name_tag() {
    let mut unnamed = record(None, "i-0", "running");
    unnamed.tags = Some(vec![TagRecord { key: text("Name"), value: None }]);
    let listing = answer(vec![unnamed, record(Some("web-1"), "i-1", "stopped")]);
    let next = Command::Start("web-1".to_string()).after_listing("us-east-1", listing);
    assert_eq!(next, send(ControlAction::Start, "i-1"));
}

#[test]
fn ls_with_coloured_name_prints() {
    let listing = answer(vec![record(Some("\u{1b}[1mx"), "i-1", "stopped")]);
    match Command::Ls.after_listing("us-west-2", listing) {
        Next::Print(text) => assert!(text.contains("| \u{1b}[1mx ")),
        other => panic!("a listing was expected, not {:?}", other),
    }
}

#[test]
fn ls_with_sequence_wider_than_its_line_aborts() {
    let listing =
        answer(vec![record(Some("\u{1b}[\u{644}\u{627}\u{644}\u{627}"), "i-1", "stopped")]);
    assert_eq!(
        Command::Ls.after_listing("us-west-2", listing),
        Next::Abort(Fatal::Unprintable)
    );
}

#[test]
fn start_is_not_held_up_by_a_name_that_cannot_be_printed() {
    let listing = answer(vec![
        record(Some("\u{1b}[\u{644}\u{627}\u{644}\u{627}"), "i-0", "stopped"),
        record(Some("web-1"), "i-1", "stopped"),
    ]);
    let next = Command::Start("web-1".to_string()).after_listing("us-east-1", listing);
    assert_eq!(next, send(ControlAction::Start, "i-1"));
}

#[test]
fn unknown_name_aborts_with_that_name() {
    let listing = answer(vec![record(Some("web-1"), "i-1", "stopped")]);
    let next = Command::Start("nonexistent".to_string()).after_listing("us-east-1", listing);
    assert_eq!(next, Next::Abort(Fatal::NameNotFound("nonexistent".to_string())));
    match next {
        Next::Abort(fatal) => {
            assert_eq!(fatal.message(), "Cannot find the instance nonexistent")
        }
        _ => panic!("the run was expected to end"),
    }
    let listing = answer(vec![record(Some("web-1"), "i-1", "stopped")]);
    let next = Command::Stop("nonexistent".to_string()).after_listing("us-east-1", listing);
    assert_eq!(next, Next::Abort(Fatal::NameNotFound("nonexistent".to_string())));
}

#[test]
fn duplicate_names_resolve_to_the_first() {
    let listing = answer(vec![
        record(Some("dup"), "i-first", "stopped"),
        record(Some("dup"), "i-second", "stopped"),
    ]);
    let next = Command::Start("dup".to_string()).after_listing("us-east-1", listing);
    assert_eq!(next, send(ControlAction::Start, "i-first"));
}

#[test]
fn resolve_asks_or_fails() {
    let instances = list(&answer(vec![record(Some("a"), "i-1", "running")]).unwrap()).unwrap();
    assert_eq!(resolve(ControlAction::Stop, &instances, "a"), send(ControlAction::Stop, "i-1"));
    assert_eq!(resolve(ControlAction::Start, &instances, "a"), send(ControlAction::Start, "i-1"));
    assert_eq!(
        resolve(ControlAction::Start, &instances, "b"),
        Next::Abort(Fatal::NameNotFound("b".to_string()))
    );
}

#[test]
fn failed_listing_aborts_every_command() {
    let commands =
        vec![Command::Ls, Command::Start("web-1".to_string()), Command::Stop("web-1".to_string())];
    for command in commands {
        let next = command.after_listing("us-east-1", Err("timed out".to_string()));
        assert_eq!(
            next,
            Next::Abort(Fatal::ProviderCall(Operation::List, "timed out".to_string()))
        );
    }
}

#[test]
fn deficient_listing_aborts_every_command() {
    let commands =
        vec![Command::Ls, Command::Start("web-1".to_string()), Command::Stop("web-1".to_string())];
    for command in commands {
        let mut bad = record(Some("web-1"), "i-1", "stopped");
        bad.instance_id = None;
        let next = command.after_listing("us-east-1", answer(vec![bad]));
        assert_eq!(next, Next::Abort(Fatal::ContractViolation(MissingField::InstanceId)));
    }
}

#[test]
fn failed_control_call_aborts() {
    let end = after_control(ControlAction::Start, Err("IncorrectInstanceState".to_string()));
    assert_eq!(
        end,
        Err(Fatal::ProviderCall(Operation::Start, "IncorrectInstanceState".to_string()))
    );
    let end = after_control(ControlAction::Stop, Err("denied".to_string()));
    assert_eq!(end, Err(Fatal::ProviderCall(Operation::Stop, "denied".to_string())));
}

#[test]
fn acknowledgment_without_state_change_aborts() {
    assert_eq!(
        after_control(ControlAction::Start, Ok(None)),
        Err(Fatal::ContractViolation(MissingField::StateChange))
    );
    assert_eq!(
        after_control(ControlAction::Stop, Ok(Some(vec![]))),
        Err(Fatal::ContractViolation(MissingField::StateChange))
    );
    let nameless = StateChangeRecord {
        current_state: None,
        previous_state: Some(StateRecord { name: text("stopped") }),
    };
    assert_eq!(
        after_control(ControlAction::Start, Ok(Some(vec![nameless]))),
        Err(Fatal::ContractViolation(MissingField::CurrentStateName))
    );
}

#[test]
fn every_fatal_has_its_message() {
    assert_eq!(
        Fatal::ProviderCall(Operation::List, "no credentials".to_string()).message(),
        "Failed to list instances: no credentials"
    );
    assert_eq!(
        Fatal::ProviderCall(Operation::Start, "throttled".to_string()).message(),
        "Failed to start instances: throttled"
    );
    assert_eq!(
        Fatal::ProviderCall(Operation::Stop, "throttled".to_string()).message(),
        "Failed to stop instances: throttled"
    );
    assert_eq!(
        Fatal::NameNotFound("web-9".to_string()).message(),
        "Cannot find the instance web-9"
    );
    assert_eq!(
        Fatal::Unprintable.message(),
        "Cannot print the table: a cell cannot be measured"
    );
}

#[test]
fn every_missing_field_has_its_message() {
    let expected = vec![
        (MissingField::InstanceId, "The provider's answer lacks the instance id"),
        (MissingField::InstanceType, "The provider's answer lacks the instance type"),
        (MissingField::StateName, "The provider's answer lacks the state name"),
        (MissingField::StateChange, "The provider's answer lacks the state change"),
        (MissingField::PreviousStateName, "The provider's answer lacks the previous state name"),
        (MissingField::CurrentStateName, "The provider's answer lacks the current state name"),
    ];
    for (field, message) in expected {
        assert_eq!(Fatal::ContractViolation(field).message(), message);
    }
    assert_eq!(MissingField::InstanceId.name(), "the instance id");
}

#[test]
fn ls_is_read_as_listing() {
    assert_eq!(Command::from_args("ls", None), Some(Command::Ls));
    assert_eq!(Command::from_args("ls", Some("ignored")), Some(Command::Ls));
}

#[test]
fn start_and_stop_are_read_with_their_name() {
    assert_eq!(
        Command::from_args("start", Some("web-1")),
        Some(Command::Start("web-1".to_string()))
    );
    assert_eq!(
        Command::from_args("stop", Some("web-1")),
        Some(Command::Stop("web-1".to_string()))
    );
    assert_eq!(Command::from_args("start", Some("")), Some(Command::Start(String::new())));
}

#[test]
fn start_and_stop_without_name_are_no_command() {
    assert_eq!(Command::from_args("start", None), None);
    assert_eq!(Command::from_args("stop", None), None);
}

#[test]
fn other_words_are_no_command() {
    assert_eq!(Command::from_args("", None), None);
    assert_eq!(Command::from_args("LS", None), None);
    assert_eq!(Command::from_args("list", None), None);
    assert_eq!(Command::from_args("restart", Some("web-1")), None);
    assert_eq!(Command::from_args("start ", Some("web-1")), None);
}

#[test]
fn every_action_has_its_operation() {
    assert_eq!(ControlAction::Start.operation(), Operation::Start);
    assert_eq!(ControlAction::Stop.operation(), Operation::Stop);
    assert_eq!(Operation::List.failed(), "Failed to list instances: ");
    assert_eq!(Operation::Start.failed(), "Failed to start instances: ");
    assert_eq!(Operation::Stop.failed(), "Failed to stop instances: ");
}
