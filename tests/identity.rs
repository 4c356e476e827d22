use live_rooms::colors::{assign_player_color, assign_player_color_anon};
use live_rooms::identity::{
    anonymous_player_id, lookup_pair, query_param, read_caller, resolve_identity, user_from_claims, user_from_token,
    with_decimal, Caller, ParticipantRecord, ResolveError,
};

#[test]
fn registered_colors_follow_the_user_id() {
    assert_eq!(assign_player_color(0), "#EF4444");
    assert_eq!(assign_player_color(1), "#3B82F6");
    assert_eq!(assign_player_color(10), "#10B981");
    assert_eq!(assign_player_color(15), "#F97316");
    assert_eq!(assign_player_color(-1), "#F97316");
    assert_eq!(assign_player_color(i32::MIN), "#EF4444");
}

#[test]
fn anonymous_colors_follow_the_byte_sum() {
    assert_eq!(assign_player_color_anon(""), "#EF4444");
    assert_eq!(assign_player_color_anon("ab"), "#F59E0B");
    assert_eq!(assign_player_color_anon("a"), "#3B82F6");
}

#[test]
fn anonymous_ids_from_tokens() {
    assert_eq!(anonymous_player_id(""), 1);
    assert_eq!(anonymous_player_id("ab"), 196);
    assert_eq!(anonymous_player_id("é"), 234);
    let long: String = std::iter::repeat('z').take(20000).collect();
    assert_eq!(anonymous_player_id(&long), 122 * 20000 % 1_000_000 + 1);
}

#[test]
fn decimal_text() {
    assert_eq!(with_decimal("user_", 42), "user_42");
    assert_eq!(with_decimal("user_", 0), "user_0");
    assert_eq!(with_decimal("user_", -7), "user_-7");
    assert_eq!(with_decimal("", i32::MIN), "-2147483648");
    assert_eq!(with_decimal("", i32::MAX), "2147483647");
}

#[test]
fn query_parameters_are_decoded() {
    assert_eq!(query_param("a=1&session_id=x%20y&session_id=z", "session_id"), Some("x y".to_string()));
    assert_eq!(query_param("token=abc+def", "token"), Some("abc def".to_string()));
    assert_eq!(query_param("", "token"), None);
    assert_eq!(query_param("tok=1", "token"), None);
    let pairs = vec![("k".to_string(), "1".to_string()), ("k".to_string(), "2".to_string())];
    assert_eq!(lookup_pair(&pairs, "k"), Some("1".to_string()));
    assert_eq!(lookup_pair(&pairs, "j"), None);
}

#[test]
fn claims_name_the_user() {
    assert_eq!(user_from_claims(None), None);
    assert_eq!(user_from_claims(Some((Some(5), Some(6)))), Some(5));
    assert_eq!(user_from_claims(Some((None, Some(6)))), Some(6));
    assert_eq!(user_from_claims(Some((None, None))), None);
    assert_eq!(user_from_claims(Some((Some(1i64 << 40), Some(6)))), None);
    assert_eq!(user_from_token("not-a-token", "secret"), None);
}

#[test]
fn caller_from_handshake() {
    let c = read_caller(Some(9), "session_id=abc", "secret");
    assert_eq!(c.user_id, Some(9));
    assert_eq!(c.session_id, Some("abc".to_string()));
    let c = read_caller(None, "token=garbage", "secret");
    assert_eq!(c.user_id, None);
    assert_eq!(c.session_id, None);
}

#[test]
fn identity_of_a_registered_user() {
    let caller = Caller { user_id: Some(12), session_id: None };
    let rec = ParticipantRecord { display_name: "Ana".to_string(), color: Some("#8B5CF6".to_string()) };
    let id = resolve_identity(caller, Some(rec)).unwrap();
    assert_eq!(id.player_id, 12);
    assert_eq!(id.display_name, "Ana");
    assert_eq!(id.color, "#8B5CF6");
    assert_eq!(id.session_token, "user_12");
}

#[test]
fn identity_of_an_anonymous_player() {
    let caller = Caller { user_id: None, session_id: Some("ab".to_string()) };
    let rec = ParticipantRecord { display_name: "Bia".to_string(), color: None };
    let id = resolve_identity(caller, Some(rec)).unwrap();
    assert_eq!(id.player_id, 196);
    assert_eq!(id.color, "#10B981");
    assert_eq!(id.session_token, "ab");
}

#[test]
fn unknown_participant_gets_a_placeholder() {
    let caller = Caller { user_id: None, session_id: Some("zz".to_string()) };
    let id = resolve_identity(caller, None).unwrap();
    assert_eq!(id.display_name, "Unknown");
    assert_eq!(id.color, "#10B981");
}

#[test]
fn no_credential_is_refused() {
    let caller = Caller { user_id: None, session_id: None };
    assert_eq!(resolve_identity(caller, None).unwrap_err(), ResolveError::AuthenticationFailure);
}
