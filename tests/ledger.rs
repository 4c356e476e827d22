use live_rooms::identity::Identity;
use live_rooms::ledger::ScoreLedger;

fn who(id: i32, name: &str, token: &str) -> Identity {
    Identity {
        player_id: id,
        display_name: name.to_string(),
        color: "#3B82F6".to_string(),
        session_token: token.to_string(),
    }
}

#[test]
fn exactly_one_of_many_claims_is_credited() {
    let mut ledger = ScoreLedger::new();
    let key = "GATO".to_string();
    let mut credited = 0;
    for i in 0..8 {
        let out = ledger.record_found_item(3, &key, &who(i, &format!("player{}", i), &format!("s{}", i)), 30 + i);
        if out.credited {
            credited += 1;
            assert_eq!(out.score, 100);
            assert_eq!(out.holder.player_id, 0);
        } else {
            assert_eq!(out.score, 0);
            assert_eq!(out.holder.player_id, 0);
            assert_eq!(out.holder.display_name, "player0");
        }
    }
    assert_eq!(credited, 1);
    assert_eq!(ledger.totals_of(3, &"s0".to_string()), (1, 100));
    assert_eq!(ledger.totals_of(3, &"s1".to_string()), (0, 0));
}

#[test]
fn totals_accumulate_per_participant() {
    let mut ledger = ScoreLedger::new();
    let ana = who(1, "Ana", "a");
    assert!(ledger.record_found_item(1, &"CASA".to_string(), &ana, 30).credited);
    assert!(ledger.record_found_item(1, &"BOLA".to_string(), &ana, 180).credited);
    assert!(ledger.record_found_item(1, &"PATO".to_string(), &ana, 700).credited);
    assert_eq!(ledger.totals_of(1, &"a".to_string()), (3, 185));
    assert_eq!(ledger.totals_of(2, &"a".to_string()), (0, 0));
}

#[test]
fn items_are_per_room() {
    let mut ledger = ScoreLedger::new();
    let key = "SOL".to_string();
    assert!(ledger.record_found_item(1, &key, &who(1, "Ana", "a"), 10).credited);
    assert!(ledger.record_found_item(2, &key, &who(2, "Bia", "b"), 10).credited);
    assert!(!ledger.record_found_item(1, &key, &who(2, "Bia", "b"), 10).credited);
    assert_eq!(ledger.holder_of(1, &key).unwrap().display_name, "Ana");
    assert_eq!(ledger.holder_of(2, &key).unwrap().display_name, "Bia");
    assert!(ledger.holder_of(3, &key).is_none());
}
