use user_access::challenge::{assemble_all, GameChallenge, GameChallengeResponse};
use user_access::color::Color;
use user_access::error::ServerError;
use user_access::user::User;

fn user(uid: &str, username: &str) -> User {
    User { uid: uid.to_string(), username: username.to_string(), is_guest: false }
}

fn challenge(id: u64, uid: &str, color: Color) -> GameChallenge {
    GameChallenge { id, challenger_uid: uid.to_string(), color }
}

#[test]
fn assembling_fills_in_the_user() {
    let view = GameChallengeResponse::from_model_with_user(
        &challenge(7, "U1", Color::White),
        user("U1", "black"),
    );
    assert_eq!(
        view,
        Ok(GameChallengeResponse { id: 7, challenger: user("U1", "black"), color: Color::White })
    );
}

#[test]
fn assembling_with_another_user_fails() {
    let view = GameChallengeResponse::from_model_with_user(
        &challenge(7, "U1", Color::White),
        user("U2", "white"),
    );
    assert_eq!(view, Err(ServerError::AssemblyError));
}

#[test]
fn assembling_compares_identities_exactly() {
    let view = GameChallengeResponse::from_model_with_user(
        &challenge(7, "u1", Color::Black),
        user("U1", "black"),
    );
    assert_eq!(view, Err(ServerError::AssemblyError));
}

#[test]
fn assemble_all_keeps_the_order() {
    let input = vec![
        challenge(3, "U1", Color::Black),
        challenge(1, "U1", Color::White),
        challenge(2, "U1", Color::Black),
    ];
    let views = assemble_all(&input, &user("U1", "black")).unwrap();
    assert_eq!(views.len(), 3);
    let ids: Vec<u64> = views.iter().map(|v| v.id).collect();
    assert_eq!(ids, vec![3, 1, 2]);
    assert_eq!(views[1].color, Color::White);
    for v in &views {
        assert_eq!(v.challenger, user("U1", "black"));
    }
}

#[test]
fn assemble_all_of_nothing_is_empty() {
    assert_eq!(assemble_all(&Vec::new(), &user("U1", "black")), Ok(Vec::new()));
}

#[test]
fn assemble_all_fails_on_one_foreign_challenge() {
    let input = vec![
        challenge(1, "U1", Color::Black),
        challenge(2, "U2", Color::White),
        challenge(3, "U1", Color::Black),
    ];
    assert_eq!(assemble_all(&input, &user("U1", "black")), Err(ServerError::AssemblyError));
}
