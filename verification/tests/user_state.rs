use commonos_files::user::{UserAction, UserState};

#[test]
fn default_state_has_no_token() {
    let state = UserState::default();
    assert!(state.token.is_none());
    assert!(state.needs_sign_in());
}

#[test]
fn set_token_stores_it() {
    let state = UserState::default().reduce(UserAction::SetToken("abc".to_string()));
    assert_eq!(state.token, Some("abc".to_string()));
    assert!(!state.needs_sign_in());
}

#[test]
fn clear_token_signs_out() {
    let state = UserState { token: Some("abc".to_string()) }.reduce(UserAction::ClearToken);
    assert!(state == UserState::default());
}

#[test]
fn reduce_forgets_previous_state() {
    let from_empty = UserState::default().reduce(UserAction::SetToken("t".to_string()));
    let from_other = UserState { token: Some("old".to_string()) }
        .reduce(UserAction::SetToken("t".to_string()));
    assert!(from_empty == from_other);
}

#[test]
fn reduce_twice_same_as_once() {
    let once = UserState::default().reduce(UserAction::SetToken("t".to_string()));
    let twice = UserState::default()
        .reduce(UserAction::SetToken("t".to_string()))
        .reduce(UserAction::SetToken("t".to_string()));
    assert!(once == twice);
}

#[test]
fn equality_compares_tokens() {
    assert!(UserState { token: Some("a".to_string()) } == UserState { token: Some("a".to_string()) });
    assert!(UserState { token: Some("a".to_string()) } != UserState { token: Some("b".to_string()) });
    assert!(UserState { token: Some("a".to_string()) } != UserState { token: None });
}

#[test]
fn cloned_state_keeps_token() {
    let state = UserState { token: Some("abc".to_string()) };
    let copy = state.clone();
    assert!(copy == state);
}
