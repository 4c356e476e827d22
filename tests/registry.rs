use live_rooms::registry::{Connection, ConnectionRegistry};

fn conn(id: u64, player: i32, name: &str, token: &str) -> Connection {
    Connection {
        conn_id: id,
        participant_id: player,
        display_name: name.to_string(),
        color: "#EF4444".to_string(),
        session_token: token.to_string(),
    }
}

#[test]
fn only_the_first_join_finds_the_room_empty() {
    let mut reg = ConnectionRegistry::new();
    let mut activations = 0;
    for i in 0..10u64 {
        let (was_empty, _) = reg.register(7, conn(i, i as i32, "p", &format!("tok{}", i)));
        if was_empty {
            activations += 1;
        }
    }
    assert_eq!(activations, 1);
    assert_eq!(reg.room_size(7), 10);
}

#[test]
fn join_reports_those_already_present() {
    let mut reg = ConnectionRegistry::new();
    let (empty, present) = reg.register(1, conn(1, 10, "Ana", "a"));
    assert!(empty);
    assert!(present.is_empty());
    let (empty, present) = reg.register(1, conn(2, 20, "Bia", "b"));
    assert!(!empty);
    assert_eq!(present.len(), 1);
    assert_eq!(present[0].player_id, 10);
    assert_eq!(present[0].username, "Ana");
}

#[test]
fn same_token_evicts_the_old_connection() {
    let mut reg = ConnectionRegistry::new();
    reg.register(1, conn(1, 10, "Ana", "a"));
    reg.register(1, conn(2, 20, "Bia", "b"));
    let (empty, present) = reg.register(1, conn(3, 10, "Ana", "a"));
    assert!(!empty);
    assert_eq!(present.len(), 1);
    assert_eq!(present[0].username, "Bia");
    assert_eq!(reg.room_size(1), 2);
    assert_eq!(reg.recipients(1, None), vec![2, 3]);
}

#[test]
fn unregister_counts_the_rest_and_drops_empty_rooms() {
    let mut reg = ConnectionRegistry::new();
    reg.register(4, conn(1, 1, "x", "t1"));
    reg.register(4, conn(2, 2, "y", "t2"));
    assert_eq!(reg.unregister(4, 1), 1);
    assert_eq!(reg.unregister(4, 1), 1);
    assert_eq!(reg.unregister(4, 2), 0);
    assert_eq!(reg.room_size(4), 0);
    assert_eq!(reg.unregister(4, 2), 0);
    let (empty, _) = reg.register(4, conn(3, 3, "z", "t3"));
    assert!(empty);
}

#[test]
fn broadcast_targets_follow_the_exclusion() {
    let mut reg = ConnectionRegistry::new();
    for i in 1..=4u64 {
        reg.register(9, conn(i, i as i32, "p", &format!("t{}", i)));
    }
    reg.register(8, conn(99, 99, "other", "t99"));
    assert_eq!(reg.recipients(9, None), vec![1, 2, 3, 4]);
    assert_eq!(reg.recipients(9, Some(3)), vec![1, 2, 4]);
    assert_eq!(reg.recipients(9, Some(42)), vec![1, 2, 3, 4]);
    assert!(reg.recipients(5, None).is_empty());
}
