use frame_bridge::{
    ClientStatus, Command, ConnectionStatus, DataPackageSnapshot, EnqueueAttempt, Event, GameData,
    GdArchipelagoError, GodotArchipelagoClient, HandshakeOutcome, ApError, HostValue,
    NetworkVersion, ReceiverStep, RoomInfoSnapshot, SenderStep, WireValue,
};

fn fixture_room_info() -> RoomInfoSnapshot {
    RoomInfoSnapshot {
        version: NetworkVersion { major: 0, minor: 4, build: 4, class: "Version".to_string() },
        tags: vec!["AP".to_string()],
        password_required: false,
        hint_cost: 10,
        location_check_points: 1,
        games: vec!["G".to_string()],
        seed_name: "seed-77".to_string(),
    }
}

fn fixture_data_package() -> DataPackageSnapshot {
    DataPackageSnapshot {
        games: vec![(
            "G".to_string(),
            GameData {
                item_name_to_id: vec![("Sword".to_string(), 1)],
                location_name_to_id: vec![("Cave".to_string(), 2)],
            },
        )],
    }
}

fn fixture_handshake() -> HandshakeOutcome {
    HandshakeOutcome::Established {
        room_info: fixture_room_info(),
        data_package: fixture_data_package(),
    }
}

fn connected_bridge() -> GodotArchipelagoClient {
    GodotArchipelagoClient::create_client("ws://server.test".to_string(), fixture_handshake())
        .unwrap_or_else(|_| panic!("handshake fixture must connect"))
}

#[test]
fn failed_handshake_reports_classified_error_and_no_bridge() {
    let r = GodotArchipelagoClient::create_client(
        "ws://server.test".to_string(),
        HandshakeOutcome::Failed { error: ApError::ConnectionClosed },
    );
    match r {
        Ok(_) => panic!("a failed handshake must not produce a bridge"),
        Err(e) => assert_eq!(e, GdArchipelagoError::ConnectionClosed),
    }
}

#[test]
fn drain_on_fresh_bridge_is_empty() {
    let mut b = connected_bridge();
    assert_eq!(b.get_received_messages(), Vec::<Event>::new());
    assert_eq!(b.get_received_messages(), Vec::<Event>::new());
}

#[test]
fn snapshots_are_identical_across_calls() {
    let mut b = connected_bridge();
    assert_eq!(b.room_info(), &fixture_room_info());
    assert_eq!(b.data_package(), &fixture_data_package());
    let _ = b.say("hello".to_string());
    let _ = b.get_received_messages();
    assert_eq!(b.room_info(), &fixture_room_info());
    assert_eq!(b.data_package(), &fixture_data_package());
    assert_eq!(b.url().as_str(), "ws://server.test");
}

#[test]
fn connect_round_trip_with_test_double() {
    let mut b = connected_bridge();
    assert!(b.connect("G".to_string(), "P".to_string(), None, Some(3), vec![]));

    // The sender loop runs one cycle: the connect command comes out exactly
    // as built.
    match b.sender_step() {
        SenderStep::Forward(Command::Connect { game, name, password, items_handling, tags, uuid, version }) => {
            assert_eq!(game, "G");
            assert_eq!(name, "P");
            assert_eq!(password, None);
            assert_eq!(items_handling, Some(3));
            assert_eq!(tags, Vec::<String>::new());
            assert_eq!(uuid, "");
            assert_eq!(
                version,
                NetworkVersion { major: 0, minor: 4, build: 4, class: "Version".to_string() }
            );
        },
        other => panic!("expected the connect command, got {:?}", other),
    }

    // The server double answers; the receiver loop runs one cycle.
    assert_eq!(
        b.receiver_step(Some(Event::Connected { team: 1, slot: 4 })),
        ReceiverStep::Stored
    );
    let events = b.get_received_messages();
    assert_eq!(events, vec![Event::Connected { team: 1, slot: 4 }]);
}

#[test]
fn commands_are_forwarded_in_order_and_none_after_closure() {
    let mut b = connected_bridge();
    assert!(b.say("one".to_string()));
    assert!(b.say("two".to_string()));
    assert!(b.say("three".to_string()));

    // The server closes the connection; the receiver loop observes it.
    assert_eq!(b.receiver_step(None), ReceiverStep::Exit);
    assert_eq!(b.status(), ConnectionStatus::Closed);

    // The sender loop drains what was accepted — in order, nothing more.
    let mut forwarded: Vec<Command> = Vec::new();
    loop {
        match b.sender_step() {
            SenderStep::Forward(c) => forwarded.push(c),
            SenderStep::Idle => panic!("a closed queue never reports idle"),
            SenderStep::Exit => break,
        }
    }
    assert_eq!(
        forwarded,
        vec![
            Command::Say { text: "one".to_string() },
            Command::Say { text: "two".to_string() },
            Command::Say { text: "three".to_string() },
        ]
    );
    assert_eq!(b.sender_step(), SenderStep::Exit);
}

#[test]
fn enqueue_after_sender_termination_returns_false_every_time() {
    let mut b = connected_bridge();
    b.note_send_failure();
    assert_eq!(b.status(), ConnectionStatus::Closed);
    assert!(!b.say("late".to_string()));
    assert!(!b.sync());
    assert!(!b.get(vec!["k".to_string()]));
    assert!(!b.connect("G".to_string(), "P".to_string(), None, None, vec![]));
    assert_eq!(
        b.send_connect("G".to_string(), "P".to_string(), None, None, vec![]),
        Err(GdArchipelagoError::ConnectionClosed)
    );
}

#[test]
fn bounded_backpressure_with_paused_consumer() {
    let mut b = GodotArchipelagoClient::create_client_with_capacity(
        "ws://server.test".to_string(),
        fixture_handshake(),
        2,
    )
    .unwrap_or_else(|_| panic!("handshake fixture must connect"));

    // Consumer paused: two enqueues fill the queue.
    assert!(b.say("a".to_string()));
    assert!(b.say("b".to_string()));

    // The third caller is told to wait, and is handed its command back.
    let third = Command::Say { text: "c".to_string() };
    let held = match b.try_enqueue(third) {
        EnqueueAttempt::MustWait(c) => c,
        other => panic!("a full queue must ask the caller to wait, got {:?}", other),
    };

    // The consumer resumes and frees one slot; the retry succeeds.
    assert_eq!(
        b.sender_step(),
        SenderStep::Forward(Command::Say { text: "a".to_string() })
    );
    assert_eq!(b.try_enqueue(held), EnqueueAttempt::Accepted);
}

#[test]
fn drains_partition_events_in_production_order() {
    let mut b = connected_bridge();
    assert_eq!(b.receiver_step(Some(Event::PrintText { text: "e1".to_string() })), ReceiverStep::Stored);
    assert_eq!(b.receiver_step(Some(Event::PrintText { text: "e2".to_string() })), ReceiverStep::Stored);
    let first = b.get_received_messages();
    assert_eq!(
        first,
        vec![
            Event::PrintText { text: "e1".to_string() },
            Event::PrintText { text: "e2".to_string() },
        ]
    );
    assert_eq!(b.receiver_step(Some(Event::PrintText { text: "e3".to_string() })), ReceiverStep::Stored);
    let second = b.get_received_messages();
    assert_eq!(second, vec![Event::PrintText { text: "e3".to_string() }]);
    assert_eq!(b.get_received_messages(), Vec::<Event>::new());
}

#[test]
fn receiver_waits_when_event_queue_is_full() {
    let mut b = GodotArchipelagoClient::create_client_with_capacity(
        "ws://server.test".to_string(),
        fixture_handshake(),
        2,
    )
    .unwrap_or_else(|_| panic!("handshake fixture must connect"));
    assert_eq!(b.receiver_step(Some(Event::Connected { team: 0, slot: 1 })), ReceiverStep::Stored);
    assert_eq!(b.receiver_step(Some(Event::Connected { team: 0, slot: 2 })), ReceiverStep::Stored);
    match b.receiver_step(Some(Event::Connected { team: 0, slot: 3 })) {
        ReceiverStep::MustWait(e) => assert_eq!(e, Event::Connected { team: 0, slot: 3 }),
        other => panic!("a full event queue must ask the loop to wait, got {:?}", other),
    }
    // The host drains; the retry stores the event.
    let drained = b.get_received_messages();
    assert_eq!(drained.len(), 2);
    assert_eq!(b.receiver_step(Some(Event::Connected { team: 0, slot: 3 })), ReceiverStep::Stored);
}

#[test]
fn wrappers_build_the_exact_commands() {
    let mut b = connected_bridge();
    assert!(b.sync());
    assert!(b.location_checks(vec![10, 11]));
    assert!(b.location_scouts(vec![12], 1));
    assert!(b.status_update(ClientStatus::Playing));
    assert!(b.get(vec!["key1".to_string()]));

    let mut forwarded: Vec<Command> = Vec::new();
    for _ in 0..5 {
        match b.sender_step() {
            SenderStep::Forward(c) => forwarded.push(c),
            other => panic!("five commands were enqueued, got {:?}", other),
        }
    }
    assert_eq!(
        forwarded,
        vec![
            Command::Sync,
            Command::LocationChecks { locations: vec![10, 11] },
            Command::LocationScouts { locations: vec![12], create_as_hint: 1 },
            Command::StatusUpdate { status: ClientStatus::Playing },
            Command::Get { keys: vec!["key1".to_string()] },
        ]
    );
    assert_eq!(b.sender_step(), SenderStep::Idle);
}

#[test]
fn bounce_converts_payload_and_refuses_foreign() {
    let mut b = connected_bridge();
    let ok = b.bounce(
        Some(vec!["G".to_string()]),
        None,
        None,
        HostValue::Dict(vec![("n".to_string(), HostValue::Int(5))]),
    );
    assert_eq!(ok, Ok(true));
    match b.sender_step() {
        SenderStep::Forward(Command::Bounce { games, slots, tags, data }) => {
            assert_eq!(games, Some(vec!["G".to_string()]));
            assert_eq!(slots, None);
            assert_eq!(tags, None);
            assert_eq!(data, WireValue::Dict(vec![("n".to_string(), WireValue::Int(5))]));
        },
        other => panic!("expected the bounce command, got {:?}", other),
    }
    let refused = b.bounce(None, None, None, HostValue::Foreign);
    assert!(refused.is_err());
    assert_eq!(b.sender_step(), SenderStep::Idle);
}

#[test]
fn set_converts_default_and_operations_and_refuses_foreign() {
    let mut b = connected_bridge();
    let ok = b.set(
        "slot_data".to_string(),
        HostValue::Int(0),
        true,
        vec![
            ("replace".to_string(), HostValue::Int(7)),
            ("max".to_string(), HostValue::Int(9)),
        ],
    );
    assert_eq!(ok, Ok(true));
    match b.sender_step() {
        SenderStep::Forward(Command::SetValue { key, default, want_reply, operations }) => {
            assert_eq!(key, "slot_data");
            assert_eq!(default, WireValue::Int(0));
            assert!(want_reply);
            assert_eq!(operations.len(), 2);
            assert_eq!(operations[0].replace, "replace");
            assert_eq!(operations[0].value, WireValue::Int(7));
            assert_eq!(operations[1].replace, "max");
            assert_eq!(operations[1].value, WireValue::Int(9));
        },
        other => panic!("expected the store command, got {:?}", other),
    }
    let refused = b.set(
        "slot_data".to_string(),
        HostValue::Int(0),
        false,
        vec![("replace".to_string(), HostValue::Foreign)],
    );
    assert!(refused.is_err());
    assert_eq!(b.sender_step(), SenderStep::Idle);
}

#[test]
fn sender_exit_after_queue_closure_turns_status_closed() {
    let mut b = connected_bridge();
    assert!(b.say("last".to_string()));
    b.note_send_failure();
    // The failure is already observable, and pending work still drains.
    assert_eq!(b.status(), ConnectionStatus::Closed);
    assert_eq!(
        b.sender_step(),
        SenderStep::Forward(Command::Say { text: "last".to_string() })
    );
    assert_eq!(b.sender_step(), SenderStep::Exit);
}

#[test]
fn receiver_closure_keeps_pending_events_for_the_host() {
    let mut b = connected_bridge();
    assert_eq!(b.receiver_step(Some(Event::PrintText { text: "bye".to_string() })), ReceiverStep::Stored);
    assert_eq!(b.receiver_step(None), ReceiverStep::Exit);
    assert_eq!(b.status(), ConnectionStatus::Closed);
    assert_eq!(
        b.get_received_messages(),
        vec![Event::PrintText { text: "bye".to_string() }]
    );
    assert_eq!(b.get_received_messages(), Vec::<Event>::new());
}
