//! Challenges, games, and the view of a challenge that a response carries.

use vstd::prelude::*;
use vstd::string::*;
use crate::color::Color;
use crate::error::ServerError;
use crate::text::same_text;
use crate::user::{User, UserModel};

verus! {

/// What a challenge holds, as plain values.
pub struct ChallengeModel {
    pub id: u64,
    pub challenger_uid: Seq<char>,
    pub color: Color,
}

/// A pending invitation to a game, as the store keeps it: the identity of
/// the user who issued it and the side that user takes.
#[derive(Debug, PartialEq, Eq)]
pub struct GameChallenge {
    pub id: u64,
    pub challenger_uid: String,
    pub color: Color,
}

/// What a game holds, as plain values.
pub struct GameModel {
    pub id: u64,
    pub black_uid: Seq<char>,
    pub white_uid: Seq<char>,
}

/// A game between two users, as the store keeps it.
#[derive(Debug, PartialEq, Eq)]
pub struct Game {
    pub id: u64,
    pub black_uid: String,
    pub white_uid: String,
}

/// What a rendered challenge holds, as plain values.
pub struct ResponseModel {
    pub id: u64,
    pub challenger: UserModel,
    pub color: Color,
}

/// A challenge together with the record of the user who issued it, so that
/// a reader needs no second lookup.
#[derive(Debug, PartialEq, Eq)]
pub struct GameChallengeResponse {
    pub id: u64,
    pub challenger: User,
    pub color: Color,
}

impl View for GameChallenge {
    type V = ChallengeModel;

    open spec fn view(&self) -> ChallengeModel {
        ChallengeModel { id: self.id, challenger_uid: self.challenger_uid@, color: self.color }
    }
}

impl View for Game {
    type V = GameModel;

    open spec fn view(&self) -> GameModel {
        GameModel { id: self.id, black_uid: self.black_uid@, white_uid: self.white_uid@ }
    }
}

impl View for GameChallengeResponse {
    type V = ResponseModel;

    open spec fn view(&self) -> ResponseModel {
        ResponseModel { id: self.id, challenger: self.challenger@, color: self.color }
    }
}

impl Clone for GameChallenge {
    fn clone(&self) -> (copy: GameChallenge)
        ensures
            copy@ == self@,
    {
        GameChallenge {
            id: self.id,
            challenger_uid: self.challenger_uid.clone(),
            color: self.color,
        }
    }
}

impl Clone for Game {
    fn clone(&self) -> (copy: Game)
        ensures
            copy@ == self@,
    {
        Game { id: self.id, black_uid: self.black_uid.clone(), white_uid: self.white_uid.clone() }
    }
}

/// The models of a sequence of challenges, in the same order.
pub open spec fn challenge_models(challenges: Seq<GameChallenge>) -> Seq<ChallengeModel> {
    challenges.map_values(|c: GameChallenge| c@)
}

/// The models of a sequence of games, in the same order.
pub open spec fn game_models(games: Seq<Game>) -> Seq<GameModel> {
    games.map_values(|g: Game| g@)
}

/// The models of a sequence of rendered challenges, in the same order.
pub open spec fn response_models(responses: Seq<GameChallengeResponse>) -> Seq<ResponseModel> {
    responses.map_values(|r: GameChallengeResponse| r@)
}

/// A challenge can be rendered for a user exactly when that user issued it.
pub open spec fn belongs_to(challenge: ChallengeModel, user: UserModel) -> bool {
    challenge.challenger_uid == user.uid
}

/// The challenge with the user's record filled in.
pub open spec fn rendered(challenge: ChallengeModel, user: UserModel) -> ResponseModel {
    ResponseModel { id: challenge.id, challenger: user, color: challenge.color }
}

/// Rendering one challenge: the filled-in challenge, or an assembly error
/// where the challenge is not the user's.
pub open spec fn assembled(challenge: ChallengeModel, user: UserModel) -> Result<
    ResponseModel,
    ServerError,
> {
    if belongs_to(challenge, user) {
        Ok(rendered(challenge, user))
    } else {
        Err(ServerError::AssemblyError)
    }
}

/// Rendering a sequence of challenges: one view for each, in the order of
/// the input, or an assembly error where any of them is not the user's.
pub open spec fn assembled_all(challenges: Seq<ChallengeModel>, user: UserModel) -> Result<
    Seq<ResponseModel>,
    ServerError,
> {
    if forall|i: int| 0 <= i < challenges.len() ==> belongs_to(#[trigger] challenges[i], user) {
        Ok(challenges.map_values(|c: ChallengeModel| rendered(c, user)))
    } else {
        Err(ServerError::AssemblyError)
    }
}

impl GameChallengeResponse {
    /// Renders a challenge for the user who issued it. Nothing is looked
    /// up: all that the view holds is handed in.
    pub fn from_model_with_user(challenge: &GameChallenge, user: User) -> (r: Result<
        GameChallengeResponse,
        ServerError,
    >)
        ensures
            match assembled(challenge@, user@) {
                Ok(model) => r is Ok && r->Ok_0@ == model,
                Err(e) => r == Err::<GameChallengeResponse, ServerError>(e),
            },
    {
        if same_text(challenge.challenger_uid.as_str(), user.uid.as_str()) {
            Ok(GameChallengeResponse { id: challenge.id, challenger: user, color: challenge.color })
        } else {
            Err(ServerError::AssemblyError)
        }
    }
}

/// Renders each challenge of a sequence for one user, keeping the order.
pub fn assemble_all(challenges: &Vec<GameChallenge>, user: &User) -> (r: Result<
    Vec<GameChallengeResponse>,
    ServerError,
>)
    ensures
        match assembled_all(challenge_models(challenges@), user@) {
            Ok(models) => r is Ok && response_models(r->Ok_0@) == models,
            Err(e) => r == Err::<Vec<GameChallengeResponse>, ServerError>(e),
        },
{
    let ghost input = challenge_models(challenges@);
    let mut response: Vec<GameChallengeResponse> = Vec::new();
    let mut i: usize = 0;
    while i < challenges.len()
        invariant
            0 <= i <= challenges.len(),
            input == challenge_models(challenges@),
            response.len() == i,
            forall|k: int| 0 <= k < i ==> belongs_to(#[trigger] input[k], user@),
            forall|k: int| 0 <= k < i ==> (#[trigger] response[k])@ == rendered(input[k], user@),
        decreases challenges.len() - i,
    {
        match GameChallengeResponse::from_model_with_user(&challenges[i], user.clone()) {
            Ok(view) => {
                response.push(view);
            },
            Err(e) => {
                assert(!belongs_to(input[i as int], user@));
                return Err(e);
            },
        }
        i += 1;
    }
    assert(response_models(response@) =~= input.map_values(
        |c: ChallengeModel| rendered(c, user@),
    ));
    Ok(response)
}

/// Rendering keeps the length and the order: the view at each place is
/// that of the challenge at the same place.
pub proof fn assembly_is_stable(challenges: Seq<ChallengeModel>, user: UserModel)
    requires
        assembled_all(challenges, user) is Ok,
    ensures
        assembled_all(challenges, user)->Ok_0.len() == challenges.len(),
        forall|i: int|
            0 <= i < challenges.len() ==> assembled(#[trigger] challenges[i], user) == Ok::<
                ResponseModel,
                ServerError,
            >(assembled_all(challenges, user)->Ok_0[i]),
{
}

/// A challenge that another user issued is never rendered: neither alone
/// nor as one of a sequence.
pub proof fn foreign_challenge_is_refused(
    challenges: Seq<ChallengeModel>,
    i: int,
    user: UserModel,
)
    requires
        0 <= i < challenges.len(),
        challenges[i].challenger_uid != user.uid,
    ensures
        assembled(challenges[i], user) == Err::<ResponseModel, ServerError>(
            ServerError::AssemblyError,
        ),
        assembled_all(challenges, user) == Err::<Seq<ResponseModel>, ServerError>(
            ServerError::AssemblyError,
        ),
{
}

} // verus!
