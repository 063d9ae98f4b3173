use clipboardpro::session::{
    get_user, is_logged_user_none, logout_user, set_user, store_loaded_user, GoogleUser, UserFileOp,
    UserLookup, UserSession,
};

fn ada() -> GoogleUser {
    GoogleUser {
        id: "42".to_string(),
        name: "Ada".to_string(),
        email: "ada@example.com".to_string(),
        picture: "https://example.com/ada.png".to_string(),
    }
}

#[test]
fn empty_session_reads_the_file() {
    let session = UserSession::new();
    assert!(is_logged_user_none(&session));
    assert_eq!(get_user(&session), UserLookup::LoadFromFile);
}

#[test]
fn loaded_user_is_served_from_cache() {
    let mut session = UserSession::new();
    assert_eq!(store_loaded_user(&mut session, Some(ada())), Some(ada()));
    assert!(!is_logged_user_none(&session));
    assert_eq!(get_user(&session), UserLookup::Cached(ada()));
    assert_eq!(get_user(&session), UserLookup::Cached(ada()));
}

#[test]
fn missing_user_is_looked_up_again() {
    let mut session = UserSession::new();
    assert_eq!(store_loaded_user(&mut session, None), None);
    assert!(is_logged_user_none(&session));
    assert_eq!(get_user(&session), UserLookup::LoadFromFile);
}

#[test]
fn saving_a_user_writes_the_file() {
    assert_eq!(set_user(ada()), UserFileOp::Write(ada()));
}

#[test]
fn signing_out_removes_the_file() {
    assert_eq!(logout_user(), UserFileOp::Remove);
}

#[test]
fn clone_keeps_every_field() {
    let user = ada();
    let copy = user.clone();
    assert_eq!(copy.id, "42");
    assert_eq!(copy.name, "Ada");
    assert_eq!(copy.email, "ada@example.com");
    assert_eq!(copy.picture, "https://example.com/ada.png");
}
