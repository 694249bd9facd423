use pwdmngr::user_state::{
    clear_current_user, get_current_user, require_authentication, require_no_authentication,
    set_current_user, UserState,
};

#[test]
fn nobody_is_signed_in_at_first() {
    let state = UserState::default();
    assert_eq!(get_current_user(&state), None);
    assert_eq!(require_authentication(&state), Err("Not authenticated".to_string()));
    assert_eq!(require_no_authentication(&state), Ok(()));
}

#[test]
fn signing_in_lets_through() {
    let mut state = UserState::default();
    set_current_user(&mut state, "user-1".to_string());
    assert_eq!(get_current_user(&state), Some("user-1".to_string()));
    assert_eq!(require_authentication(&state), Ok("user-1".to_string()));
    assert_eq!(require_no_authentication(&state), Err("Already authenticated".to_string()));
}

#[test]
fn signing_in_again_replaces_the_user() {
    let mut state = UserState::default();
    set_current_user(&mut state, "user-1".to_string());
    set_current_user(&mut state, "user-2".to_string());
    assert_eq!(get_current_user(&state), Some("user-2".to_string()));
}

#[test]
fn signing_out_shuts_out() {
    let mut state = UserState(Some("user-1".to_string()));
    clear_current_user(&mut state);
    assert_eq!(get_current_user(&state), None);
    assert_eq!(require_authentication(&state), Err("Not authenticated".to_string()));
    clear_current_user(&mut state);
    assert_eq!(state.0, None);
}

#[test]
fn an_empty_identifier_still_counts_as_signed_in() {
    let mut state = UserState::default();
    set_current_user(&mut state, String::new());
    assert_eq!(require_authentication(&state), Ok(String::new()));
    assert_eq!(require_no_authentication(&state), Err("Already authenticated".to_string()));
}
