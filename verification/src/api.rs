//! The operations that the routes serve, each from plain values to a
//! result: who may see what, and what is created.

use vstd::prelude::*;
use vstd::string::*;
use crate::auth::{may_access, AuthenticatedUser};
use crate::challenge::{
    assemble_all, assembled_all, game_models, response_models, Game, GameChallengeResponse,
    GameModel, ResponseModel,
};
use crate::error::ServerError;
use crate::guest::{is_guest_name, random_guest_name};
use crate::store::{StoreModel, UserStore};
use crate::user::{valid_username, NewUserBody, User, UserModel};

verus! {

/// What creating a user answers: the username is judged first, then the
/// store is asked for room.
pub open spec fn creation_outcome(
    store: StoreModel,
    uid: Seq<char>,
    username: Seq<char>,
    is_guest: bool,
) -> Result<UserModel, ServerError> {
    if !valid_username(username) {
        Err(ServerError::ValidationError)
    } else if store.has_user(uid) {
        Err(ServerError::Conflict)
    } else {
        Ok(UserModel { uid, username, is_guest })
    }
}

/// The store after creating a user: changed only where the creation
/// succeeds, and then by that one user.
pub open spec fn store_after_creation(
    store: StoreModel,
    uid: Seq<char>,
    username: Seq<char>,
    is_guest: bool,
) -> StoreModel {
    match creation_outcome(store, uid, username, is_guest) {
        Ok(user) => store.inserted(user),
        Err(_) => store,
    }
}

/// What listing the challenges of `target` answers to `caller`: ownership
/// is decided first, then comes the lookup, then the rendering.
pub open spec fn challenges_outcome(
    store: StoreModel,
    caller: Seq<char>,
    target: Seq<char>,
) -> Result<Seq<ResponseModel>, ServerError> {
    if !may_access(caller, target) {
        Err(ServerError::Forbidden)
    } else {
        match store.find(target) {
            Ok(user) => assembled_all(store.challenges_of(target), user),
            Err(e) => Err(e),
        }
    }
}

/// What listing the games of a user answers, to anyone.
pub open spec fn games_outcome(store: StoreModel, uid: Seq<char>) -> Result<
    Seq<GameModel>,
    ServerError,
> {
    match store.find(uid) {
        Ok(_) => Ok(store.games_of(uid)),
        Err(e) => Err(e),
    }
}

/// The public record of a user, for anyone who knows the identity.
pub fn get_user(store: &UserStore, uid: &str) -> (r: Result<User, ServerError>)
    requires
        store.wf(),
    ensures
        match store@.find(uid@) {
            Ok(model) => r is Ok && r->Ok_0@ == model,
            Err(e) => r == Err::<User, ServerError>(e),
        },
{
    store.find_by_uid(uid)
}

/// Creates the record of `uid` with a given username.
pub fn register(store: &mut UserStore, uid: &str, username: &str, is_guest: bool) -> (r: Result<
    User,
    ServerError,
>)
    requires
        old(store).wf(),
    ensures
        final(store).wf(),
        final(store)@ == store_after_creation(old(store)@, uid@, username@, is_guest),
        match creation_outcome(old(store)@, uid@, username@, is_guest) {
            Ok(model) => r is Ok && r->Ok_0@ == model,
            Err(e) => r == Err::<User, ServerError>(e),
        },
{
    let user = match User::new(uid, username, is_guest) {
        Ok(user) => user,
        Err(e) => {
            return Err(e);
        },
    };
    match store.insert(user.clone()) {
        Ok(()) => Ok(user),
        Err(e) => Err(e),
    }
}

/// Creates the user of the caller, under the username that the body asks
/// for.
pub fn create_user(store: &mut UserStore, body: &NewUserBody, auth_user: &AuthenticatedUser) -> (r:
    Result<User, ServerError>)
    requires
        old(store).wf(),
    ensures
        final(store).wf(),
        final(store)@ == store_after_creation(old(store)@, auth_user.uid@, body.username@, false),
        match creation_outcome(old(store)@, auth_user.uid@, body.username@, false) {
            Ok(model) => r is Ok && r->Ok_0@ == model,
            Err(e) => r == Err::<User, ServerError>(e),
        },
{
    register(store, auth_user.uid.as_str(), body.username.as_str(), false)
}

/// Creates the user of the caller as a guest, under a minted username.
/// The only failure is a conflict, and it leaves the store as it was.
pub fn create_guest_user(store: &mut UserStore, auth_user: &AuthenticatedUser) -> (r: Result<
    User,
    ServerError,
>)
    requires
        old(store).wf(),
    ensures
        final(store).wf(),
        old(store)@.has_user(auth_user.uid@) ==> r == Err::<User, ServerError>(
            ServerError::Conflict,
        ) && final(store)@ == old(store)@,
        !old(store)@.has_user(auth_user.uid@) ==> r is Ok && r->Ok_0.uid@ == auth_user.uid@
            && r->Ok_0.is_guest && is_guest_name(r->Ok_0.username@) && final(store)@ == old(
            store,
        )@.inserted(r->Ok_0@),
{
    let name = random_guest_name();
    register(store, auth_user.uid.as_str(), name.as_str(), true)
}

/// The challenges of a user, rendered for that user and for nobody else.
/// Ownership is decided before the store is read.
pub fn get_user_challenges(store: &UserStore, uid: &str, auth_user: &AuthenticatedUser) -> (r:
    Result<Vec<GameChallengeResponse>, ServerError>)
    requires
        store.wf(),
    ensures
        match challenges_outcome(store@, auth_user.uid@, uid@) {
            Ok(models) => r is Ok && response_models(r->Ok_0@) == models,
            Err(e) => r == Err::<Vec<GameChallengeResponse>, ServerError>(e),
        },
{
    match auth_user.authorize(uid) {
        Ok(()) => {},
        Err(e) => {
            return Err(e);
        },
    }
    let user = match store.find_by_uid(uid) {
        Ok(user) => user,
        Err(e) => {
            return Err(e);
        },
    };
    let challenges = store.get_challenges(uid);
    assemble_all(&challenges, &user)
}

/// The games of a user, for anyone who knows the identity.
pub fn get_user_games(store: &UserStore, uid: &str) -> (r: Result<Vec<Game>, ServerError>)
    requires
        store.wf(),
    ensures
        match games_outcome(store@, uid@) {
            Ok(models) => r is Ok && game_models(r->Ok_0@) == models,
            Err(e) => r == Err::<Vec<Game>, ServerError>(e),
        },
{
    match store.find_by_uid(uid) {
        Ok(_) => Ok(store.get_games(uid)),
        Err(e) => Err(e),
    }
}

/// A caller sees nothing of another identity: asking for the other's
/// challenges is forbidden whatever the store holds, what the caller gets
/// for its own carries no user but the caller's, and what the caller
/// creates is bound to the caller and leaves the other's user as it was.
pub proof fn identities_are_isolated(
    store: StoreModel,
    owner: Seq<char>,
    caller: Seq<char>,
    username: Seq<char>,
    is_guest: bool,
)
    requires
        store.unique(),
        owner != caller,
    ensures
        !may_access(caller, owner),
        challenges_outcome(store, caller, owner) == Err::<Seq<ResponseModel>, ServerError>(
            ServerError::Forbidden,
        ),
        challenges_outcome(store, caller, caller) matches Ok(views) ==> forall|k: int|
            0 <= k < views.len() ==> (#[trigger] views[k]).challenger.uid != owner,
        creation_outcome(store, caller, username, is_guest) matches Ok(user) ==> user.uid
            != owner,
        store_after_creation(store, caller, username, is_guest).find(owner) == store.find(owner),
{
    if let Ok(user) = creation_outcome(store, caller, username, is_guest) {
        store.insertion_keeps_users(user);
        let after = store.inserted(user);
        if !store.has_user(owner) && after.has_user(owner) {
            let k = choose|k: int|
                0 <= k < after.users.len() && (#[trigger] after.users[k]).uid == owner;
            if k < store.users.len() {
                assert(store.users[k].uid == owner);
            }
        }
    }
    if let Ok(views) = challenges_outcome(store, caller, caller) {
        let i = choose|i: int|
            0 <= i < store.users.len() && (#[trigger] store.users[i]).uid == caller;
        store.found_is_the_record(i);
    }
}

/// Listing the challenges of an identity answers `Forbidden` exactly when
/// the caller is not that identity, and then whether or not the identity
/// has a user.
pub proof fn only_the_owner_lists_challenges(
    store: StoreModel,
    caller: Seq<char>,
    target: Seq<char>,
)
    ensures
        challenges_outcome(store, caller, target) == Err::<Seq<ResponseModel>, ServerError>(
            ServerError::Forbidden,
        ) <==> caller != target,
{
}

/// Once an identity has a user, creating another for it is a conflict
/// that leaves the store, and the first user, as they were.
pub proof fn second_creation_conflicts(
    store: StoreModel,
    uid: Seq<char>,
    first: Seq<char>,
    first_is_guest: bool,
    second: Seq<char>,
    second_is_guest: bool,
)
    requires
        store.unique(),
        creation_outcome(store, uid, first, first_is_guest) is Ok,
        valid_username(second),
    ensures
        ({
            let created = creation_outcome(store, uid, first, first_is_guest)->Ok_0;
            let after = store_after_creation(store, uid, first, first_is_guest);
            &&& after.unique()
            &&& after.find(uid) == Ok::<UserModel, ServerError>(created)
            &&& creation_outcome(after, uid, second, second_is_guest) == Err::<
                UserModel,
                ServerError,
            >(ServerError::Conflict)
            &&& store_after_creation(after, uid, second, second_is_guest) == after
        }),
{
    let created = creation_outcome(store, uid, first, first_is_guest)->Ok_0;
    let after = store_after_creation(store, uid, first, first_is_guest);
    store.insertion_keeps_users(created);
    assert(after.users[store.users.len() as int].uid == uid);
}

} // verus!
