use live_rooms::models::CreateGameResult;
use live_rooms::scoring::score;

#[test]
fn decay_curve_reference_points() {
    assert_eq!(score(30), 100);
    assert_eq!(score(60), 100);
    assert_eq!(score(180), 75);
    assert_eq!(score(300), 50);
    assert_eq!(score(450), 35);
    assert_eq!(score(600), 20);
    assert_eq!(score(700), 10);
}

#[test]
fn decay_curve_rounds_down() {
    assert_eq!(score(61), 99);
    assert_eq!(score(84), 95);
    assert_eq!(score(301), 49);
    assert_eq!(score(310), 49);
    assert_eq!(score(601), 10);
}

#[test]
fn decay_curve_edges() {
    assert_eq!(score(0), 100);
    assert_eq!(score(-5), 100);
    assert_eq!(score(i32::MIN), 100);
    assert_eq!(score(i32::MAX), 10);
}

#[test]
fn decay_curve_never_rises() {
    let mut prev = score(-10);
    for t in -9..800 {
        let s = score(t);
        assert!(s <= prev, "score rose at {}", t);
        assert!((10..=100).contains(&s));
        prev = s;
    }
}

#[test]
fn completion_uses_the_same_curve() {
    let r = CreateGameResult { game_id: 1, room_id: Some(2), time_seconds: 180, score: 0, completed: true };
    assert_eq!(r.completion_score(), 75);
    let late = CreateGameResult { game_id: 1, room_id: None, time_seconds: 450, score: 999, completed: true };
    assert_eq!(late.completion_score(), score(450));
}

#[test]
fn store_answer_decides_the_credit() {
    assert_eq!(live_rooms::scoring::credit_for_insert(true, 180), (true, 75));
    assert_eq!(live_rooms::scoring::credit_for_insert(true, 20), (true, 100));
    assert_eq!(live_rooms::scoring::credit_for_insert(false, 180), (false, 0));
}
