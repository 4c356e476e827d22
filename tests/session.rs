use live_rooms::identity::Identity;
use live_rooms::ledger::ScoreLedger;
use live_rooms::protocol::{CellPosition, WsMessage};
use live_rooms::registry::ConnectionRegistry;
use live_rooms::session::{broadcast, RelayPolicy, RoomSession, SessionState};

fn who(id: i32, name: &str, token: &str) -> Identity {
    Identity {
        player_id: id,
        display_name: name.to_string(),
        color: format!("#C{}", id),
        session_token: token.to_string(),
    }
}

fn session(conn: u64, id: i32, name: &str, token: &str, policy: RelayPolicy) -> RoomSession {
    RoomSession::new(5, conn, who(id, name, token), policy)
}

#[test]
fn open_registers_and_announces() {
    let mut reg = ConnectionRegistry::new();
    let mut a = session(1, 10, "Ana", "a", RelayPolicy::ExcludeSender);
    let fx = a.open(&mut reg);
    assert_eq!(a.state, SessionState::Active);
    assert!(fx.activate_timer);
    assert!(fx.snapshot.is_none());
    assert_eq!(fx.joined.targets, vec![1]);
    assert!(matches!(fx.joined.message, WsMessage::PlayerJoined { ref username, player_id: 10 } if username == "Ana"));

    let mut b = session(2, 20, "Bia", "b", RelayPolicy::ExcludeSender);
    let fx = b.open(&mut reg);
    assert!(!fx.activate_timer);
    assert_eq!(fx.joined.targets, vec![1, 2]);
    match fx.snapshot {
        Some(WsMessage::PlayersList { players }) => {
            assert_eq!(players.len(), 1);
            assert_eq!(players[0].player_id, 10);
        },
        other => panic!("unexpected snapshot {:?}", other),
    }
}

#[test]
fn close_runs_once_and_pauses_an_empty_room() {
    let mut reg = ConnectionRegistry::new();
    let mut a = session(1, 10, "Ana", "a", RelayPolicy::EchoToSender);
    let mut b = session(2, 20, "Bia", "b", RelayPolicy::EchoToSender);
    a.open(&mut reg);
    b.open(&mut reg);
    let fx = a.close(&mut reg).expect("first close acts");
    assert_eq!(fx.left.targets, vec![1, 2]);
    assert!(!fx.idle_timer);
    assert!(a.close(&mut reg).is_none());
    assert_eq!(a.state, SessionState::Closed);
    let fx = b.close(&mut reg).expect("first close acts");
    assert_eq!(fx.left.targets, vec![2]);
    assert!(fx.idle_timer);
    assert_eq!(reg.room_size(5), 0);
}

#[test]
fn closing_before_opening_does_nothing() {
    let mut reg = ConnectionRegistry::new();
    let mut a = session(1, 10, "Ana", "a", RelayPolicy::EchoToSender);
    assert!(a.close(&mut reg).is_none());
    assert_eq!(a.state, SessionState::Closed);
}

#[test]
fn relay_reaches_the_room_under_the_policy() {
    let mut reg = ConnectionRegistry::new();
    let mut ledger = ScoreLedger::new();
    let mut sessions = Vec::new();
    for i in 1..=4u64 {
        let mut s = session(i, i as i32, "p", &format!("t{}", i), RelayPolicy::ExcludeSender);
        s.open(&mut reg);
        sessions.push(s);
    }
    let out = sessions[1].on_event(&reg, &mut ledger, WsMessage::QuizAdvance { question_index: 3 }, 0).unwrap();
    assert_eq!(out.targets, vec![1, 3, 4]);
    assert!(matches!(out.message, WsMessage::QuizAdvance { question_index: 3 }));

    let echo = session(2, 2, "p", "t2", RelayPolicy::EchoToSender);
    let out = echo.on_event(&reg, &mut ledger, WsMessage::QuizAdvance { question_index: 4 }, 0).unwrap();
    assert_eq!(out.targets, vec![1, 2, 3, 4]);
}

#[test]
fn identity_fields_are_restamped() {
    let mut reg = ConnectionRegistry::new();
    let mut ledger = ScoreLedger::new();
    let mut a = session(1, 10, "Ana", "a", RelayPolicy::EchoToSender);
    a.open(&mut reg);
    let forged = WsMessage::QuizAnswer {
        question_index: 2,
        answer: "B".to_string(),
        player_id: 999,
        player_name: "Mallory".to_string(),
    };
    match a.on_event(&reg, &mut ledger, forged, 0).unwrap().message {
        WsMessage::QuizAnswer { question_index, answer, player_id, player_name } => {
            assert_eq!(question_index, 2);
            assert_eq!(answer, "B");
            assert_eq!(player_id, 10);
            assert_eq!(player_name, "Ana");
        },
        other => panic!("unexpected {:?}", other),
    }
    let sync = a.on_event(&reg, &mut ledger, WsMessage::QuizTimerSync { elapsed_time: 33, player_id: 1 }, 0);
    assert!(matches!(sync.unwrap().message, WsMessage::QuizTimerSync { elapsed_time: 33, player_id: 10 }));
}

#[test]
fn server_only_events_are_dropped() {
    let mut reg = ConnectionRegistry::new();
    let mut ledger = ScoreLedger::new();
    let mut a = session(1, 10, "Ana", "a", RelayPolicy::EchoToSender);
    a.open(&mut reg);
    let fake = WsMessage::PlayerJoined { username: "x".to_string(), player_id: 1 };
    assert!(a.on_event(&reg, &mut ledger, fake, 0).is_none());
    assert!(a.on_event(&reg, &mut ledger, WsMessage::PlayersList { players: Vec::new() }, 0).is_none());
}

#[test]
fn finds_are_scored_and_credited_once() {
    let mut reg = ConnectionRegistry::new();
    let mut ledger = ScoreLedger::new();
    let mut a = session(1, 10, "Ana", "a", RelayPolicy::ExcludeSender);
    let mut b = session(2, 20, "Bia", "b", RelayPolicy::ExcludeSender);
    a.open(&mut reg);
    b.open(&mut reg);
    let cells = vec![CellPosition { row: 0, col: 0 }, CellPosition { row: 0, col: 1 }];
    let found = |by: &str| WsMessage::WordFound {
        word: "gato".to_string(),
        cells: cells.clone(),
        player_id: Some(77),
        player_color: Some(by.to_string()),
        player_name: Some(by.to_string()),
        found_at: Some(1),
    };
    let first = a.on_event(&reg, &mut ledger, found("forged"), 180).unwrap();
    assert_eq!(first.targets, vec![2]);
    match &first.message {
        WsMessage::WordFound { word, cells, player_id, player_color, player_name, found_at } => {
            assert_eq!(word, "gato");
            assert_eq!(cells.len(), 2);
            assert_eq!(*player_id, Some(10));
            assert_eq!(player_color.as_deref(), Some("#C10"));
            assert_eq!(player_name.as_deref(), Some("Ana"));
            assert_eq!(*found_at, Some(180));
        },
        other => panic!("unexpected {:?}", other),
    }
    assert_eq!(ledger.totals_of(5, &"a".to_string()), (1, 75));
    assert_eq!(ledger.holder_of(5, &"GATO".to_string()).unwrap().player_id, 10);

    let late = b.on_event(&reg, &mut ledger, found("late"), 200).unwrap();
    assert_eq!(late.targets, vec![1]);
    match &late.message {
        WsMessage::WordFound { player_id, player_name, .. } => {
            assert_eq!(*player_id, Some(10));
            assert_eq!(player_name.as_deref(), Some("Ana"));
        },
        other => panic!("unexpected {:?}", other),
    }
    assert_eq!(ledger.totals_of(5, &"b".to_string()), (0, 0));
}

#[test]
fn dispatcher_sends_one_payload_to_the_snapshot() {
    let mut reg = ConnectionRegistry::new();
    for i in 1..=3u64 {
        let mut s = session(i, i as i32, "p", &format!("t{}", i), RelayPolicy::EchoToSender);
        s.open(&mut reg);
    }
    let b = broadcast(&reg, 5, WsMessage::RoomReset { reset_by: "host".to_string() }, Some(1));
    assert_eq!(b.targets, vec![2, 3]);
    let none = broadcast(&reg, 6, WsMessage::QuizAdvance { question_index: 0 }, None);
    assert!(none.targets.is_empty());
}

#[test]
fn an_evicted_connection_does_not_pause_twice() {
    let mut reg = ConnectionRegistry::new();
    let mut first = session(1, 10, "Ana", "same", RelayPolicy::EchoToSender);
    let mut again = session(2, 10, "Ana", "same", RelayPolicy::EchoToSender);
    assert!(first.open(&mut reg).activate_timer);
    let fx = again.open(&mut reg);
    assert!(!fx.activate_timer);
    assert!(fx.snapshot.is_none());
    assert_eq!(reg.room_size(5), 1);
    assert!(again.close(&mut reg).unwrap().idle_timer);
    let late = first.close(&mut reg).unwrap();
    assert!(!late.idle_timer);
    assert!(late.left.targets.is_empty());
}

#[test]
fn presence_transitions_alternate() {
    let mut reg = ConnectionRegistry::new();
    let mut flags = Vec::new();
    for round in 0..3u64 {
        let mut a = session(10 * round + 1, 1, "a", "ta", RelayPolicy::EchoToSender);
        let mut b = session(10 * round + 2, 2, "b", "tb", RelayPolicy::EchoToSender);
        flags.push(("up", a.open(&mut reg).activate_timer));
        flags.push(("up", b.open(&mut reg).activate_timer));
        flags.push(("down", a.close(&mut reg).unwrap().idle_timer));
        flags.push(("down", b.close(&mut reg).unwrap().idle_timer));
    }
    let starts = flags.iter().filter(|(k, f)| *k == "up" && *f).count();
    let pauses = flags.iter().filter(|(k, f)| *k == "down" && *f).count();
    assert_eq!(starts, 3);
    assert_eq!(pauses, 3);
}
