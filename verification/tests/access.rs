use user_access::auth::AuthenticatedUser;
use user_access::error::ServerError;
use user_access::user::User;

fn caller(uid: &str) -> AuthenticatedUser {
    AuthenticatedUser { uid: uid.to_string() }
}

#[test]
fn missing_signal_is_unauthenticated() {
    assert_eq!(AuthenticatedUser::from_signal(None), Err(ServerError::Unauthenticated));
}

#[test]
fn empty_signal_is_unauthenticated() {
    assert_eq!(AuthenticatedUser::from_signal(Some("")), Err(ServerError::Unauthenticated));
}

#[test]
fn signal_binds_its_identity() {
    assert_eq!(AuthenticatedUser::from_signal(Some("U1")), Ok(caller("U1")));
    assert_eq!(AuthenticatedUser::from_signal(Some("black")).unwrap().uid, "black");
}

#[test]
fn authorize_allows_the_same_identity() {
    assert_eq!(caller("alice").authorize("alice"), Ok(()));
    assert_eq!(caller("").authorize(""), Ok(()));
}

#[test]
fn authorize_is_case_sensitive() {
    assert_eq!(caller("alice").authorize("Alice"), Err(ServerError::Forbidden));
    assert_eq!(caller("ALICE").authorize("alice"), Err(ServerError::Forbidden));
}

#[test]
fn authorize_denies_empty_against_non_empty() {
    assert_eq!(caller("").authorize("alice"), Err(ServerError::Forbidden));
    assert_eq!(caller("alice").authorize(""), Err(ServerError::Forbidden));
}

#[test]
fn authorize_does_not_normalise() {
    assert_eq!(caller("alice").authorize("alice "), Err(ServerError::Forbidden));
    assert_eq!(caller("alice").authorize("alic"), Err(ServerError::Forbidden));
    assert_eq!(caller("e\u{301}").authorize("\u{e9}"), Err(ServerError::Forbidden));
}

#[test]
fn new_user_keeps_its_fields() {
    let user = User::new("U1", "black", false).unwrap();
    assert_eq!(user, User { uid: "U1".to_string(), username: "black".to_string(), is_guest: false });
    let guest = User::new("U2", "guest-a-b-0001", true).unwrap();
    assert!(guest.is_guest);
    assert_eq!(guest.clone(), guest);
}

#[test]
fn new_user_refuses_an_empty_username() {
    assert_eq!(User::new("U1", "", false), Err(ServerError::ValidationError));
    assert_eq!(User::new("U1", "", true), Err(ServerError::ValidationError));
}

#[test]
fn server_faults_are_told_apart() {
    assert!(ServerError::AssemblyError.is_server_fault());
    assert!(ServerError::StoreError.is_server_fault());
    for e in [
        ServerError::Unauthenticated,
        ServerError::Forbidden,
        ServerError::NotFound,
        ServerError::Conflict,
        ServerError::ValidationError,
    ] {
        assert!(!e.is_server_fault());
    }
}
