//! The store of users, challenges and games that the operations read and
//! fill: at most one user for each identity.

use vstd::prelude::*;
use vstd::string::*;
use crate::challenge::{
    challenge_models, game_models, ChallengeModel, Game, GameChallenge, GameModel,
};
use crate::error::ServerError;
use crate::text::same_text;
use crate::user::{User, UserModel};

verus! {

/// What a store holds, as plain values, each sequence in insertion order.
pub struct StoreModel {
    pub users: Seq<UserModel>,
    pub challenges: Seq<ChallengeModel>,
    pub games: Seq<GameModel>,
}

/// The models of a sequence of users, in the same order.
pub open spec fn user_models(users: Seq<User>) -> Seq<UserModel> {
    users.map_values(|u: User| u@)
}

impl StoreModel {
    /// No two users are bound to one identity.
    pub open spec fn unique(self) -> bool {
        forall|i: int, j: int|
            0 <= i < j < self.users.len() ==> (#[trigger] self.users[i]).uid != (
            #[trigger] self.users[j]).uid
    }

    /// Whether an identity has a user.
    pub open spec fn has_user(self, uid: Seq<char>) -> bool {
        exists|i: int| 0 <= i < self.users.len() && (#[trigger] self.users[i]).uid == uid
    }

    /// The user of an identity that has one.
    pub open spec fn user(self, uid: Seq<char>) -> UserModel {
        self.users[choose|i: int| 0 <= i < self.users.len() && (#[trigger] self.users[i]).uid == uid]
    }

    /// Looking an identity up: its user, or that there is none.
    pub open spec fn find(self, uid: Seq<char>) -> Result<UserModel, ServerError> {
        if self.has_user(uid) {
            Ok(self.user(uid))
        } else {
            Err(ServerError::NotFound)
        }
    }

    /// What an insertion answers: a conflict where the identity already
    /// has a user.
    pub open spec fn insert_outcome(self, user: UserModel) -> Result<(), ServerError> {
        if self.has_user(user.uid) {
            Err(ServerError::Conflict)
        } else {
            Ok(())
        }
    }

    /// The store after an insertion: unchanged on a conflict, else with the
    /// user added at the end.
    pub open spec fn inserted(self, user: UserModel) -> StoreModel {
        if self.has_user(user.uid) {
            self
        } else {
            StoreModel { users: self.users.push(user), ..self }
        }
    }

    /// The challenges that a user issued, in the order of the store.
    pub open spec fn challenges_of(self, uid: Seq<char>) -> Seq<ChallengeModel> {
        self.challenges.filter(|c: ChallengeModel| c.challenger_uid == uid)
    }

    /// The games that a user plays in, on either side, in the order of the
    /// store.
    pub open spec fn games_of(self, uid: Seq<char>) -> Seq<GameModel> {
        self.games.filter(|g: GameModel| g.black_uid == uid || g.white_uid == uid)
    }

    /// In a store without duplicates, the user found for an identity is the
    /// one record that carries it.
    pub proof fn found_is_the_record(self, i: int)
        requires
            self.unique(),
            0 <= i < self.users.len(),
        ensures
            self.find(self.users[i].uid) == Ok::<UserModel, ServerError>(self.users[i]),
    {
        let uid = self.users[i].uid;
        let k = choose|k: int| 0 <= k < self.users.len() && (#[trigger] self.users[k]).uid == uid;
        assert(k == i);
    }

    /// Insertion keeps a store free of duplicates, and never touches a user
    /// that is already there.
    pub proof fn insertion_keeps_users(self, user: UserModel)
        requires
            self.unique(),
        ensures
            self.inserted(user).unique(),
            forall|uid: Seq<char>|
                self.has_user(uid) ==> #[trigger] self.inserted(user).find(uid) == self.find(uid),
            !self.has_user(user.uid) ==> self.inserted(user).find(user.uid) == Ok::<
                UserModel,
                ServerError,
            >(user),
    {
        let after = self.inserted(user);
        if !self.has_user(user.uid) {
            assert forall|i: int, j: int| 0 <= i < j < after.users.len() implies (
            #[trigger] after.users[i]).uid != (#[trigger] after.users[j]).uid by {
                if j == self.users.len() {
                    assert(self.users[i].uid != user.uid);
                }
            }
            after.found_is_the_record(self.users.len() as int);
            assert forall|uid: Seq<char>| self.has_user(uid) implies #[trigger] after.find(uid)
                == self.find(uid) by {
                let i = choose|i: int|
                    0 <= i < self.users.len() && (#[trigger] self.users[i]).uid == uid;
                self.found_is_the_record(i);
                assert(after.users[i] == self.users[i]);
                after.found_is_the_record(i);
            }
        }
    }
}

/// The store. Its fields are private: users come in by `insert` alone.
pub struct UserStore {
    users: Vec<User>,
    challenges: Vec<GameChallenge>,
    games: Vec<Game>,
}

impl View for UserStore {
    type V = StoreModel;

    closed spec fn view(&self) -> StoreModel {
        StoreModel {
            users: user_models(self.users@),
            challenges: challenge_models(self.challenges@),
            games: game_models(self.games@),
        }
    }
}

impl UserStore {
    /// A store is well formed when it holds at most one user for each
    /// identity. `new` gives such a store and every operation keeps it so.
    pub open spec fn wf(&self) -> bool {
        self@.unique()
    }

    /// An empty store.
    pub fn new() -> (store: UserStore)
        ensures
            store@ == (StoreModel {
                users: Seq::empty(),
                challenges: Seq::empty(),
                games: Seq::empty(),
            }),
            store.wf(),
    {
        let store = UserStore { users: Vec::new(), challenges: Vec::new(), games: Vec::new() };
        assert(store@.users =~= Seq::empty());
        assert(store@.challenges =~= Seq::empty());
        assert(store@.games =~= Seq::empty());
        store
    }

    /// The user that an identity is bound to.
    pub fn find_by_uid(&self, uid: &str) -> (r: Result<User, ServerError>)
        requires
            self.wf(),
        ensures
            match self@.find(uid@) {
                Ok(model) => r is Ok && r->Ok_0@ == model,
                Err(e) => r == Err::<User, ServerError>(e),
            },
    {
        let mut i: usize = 0;
        while i < self.users.len()
            invariant
                0 <= i <= self.users.len(),
                self@.unique(),
                forall|k: int| 0 <= k < i ==> (#[trigger] self@.users[k]).uid != uid@,
            decreases self.users.len() - i,
        {
            if same_text(self.users[i].uid.as_str(), uid) {
                proof {
                    assert(self@.users[i as int] == self.users[i as int]@);
                    self@.found_is_the_record(i as int);
                }
                return Ok(self.users[i].clone());
            }
            assert(self@.users[i as int] == self.users[i as int]@);
            i += 1;
        }
        Err(ServerError::NotFound)
    }

    /// Adds a user, unless the identity already has one: then the store
    /// stays as it was.
    pub fn insert(&mut self, user: User) -> (r: Result<(), ServerError>)
        requires
            old(self).wf(),
        ensures
            r == old(self)@.insert_outcome(user@),
            final(self)@ == old(self)@.inserted(user@),
            final(self).wf(),
    {
        proof {
            self@.insertion_keeps_users(user@);
        }
        match self.find_by_uid(user.uid.as_str()) {
            Ok(_) => Err(ServerError::Conflict),
            Err(_) => {
                let ghost before = self@;
                self.users.push(user);
                assert(self@.users =~= before.users.push(user@));
                Ok(())
            },
        }
    }

    /// Records a challenge. The store does not ask whether its identity
    /// has a user.
    pub fn add_challenge(&mut self, challenge: GameChallenge)
        ensures
            final(self)@ == (StoreModel {
                challenges: old(self)@.challenges.push(challenge@),
                ..old(self)@
            }),
            old(self).wf() ==> final(self).wf(),
    {
        let ghost before = self@;
        self.challenges.push(challenge);
        assert(self@.challenges =~= before.challenges.push(challenge@));
    }

    /// Records a game. The store does not ask whether its identities have
    /// users.
    pub fn add_game(&mut self, game: Game)
        ensures
            final(self)@ == (StoreModel { games: old(self)@.games.push(game@), ..old(self)@ }),
            old(self).wf() ==> final(self).wf(),
    {
        let ghost before = self@;
        self.games.push(game);
        assert(self@.games =~= before.games.push(game@));
    }

    /// The challenges that a user issued, in the order in which they came.
    pub fn get_challenges(&self, uid: &str) -> (found: Vec<GameChallenge>)
        ensures
            challenge_models(found@) == self@.challenges_of(uid@),
    {
        let ghost all = self@.challenges;
        let ghost wanted = |c: ChallengeModel| c.challenger_uid == uid@;
        let mut found: Vec<GameChallenge> = Vec::new();
        let mut i: usize = 0;
        proof {
            reveal(Seq::filter);
            assert(all.take(0) =~= Seq::empty());
            assert(challenge_models(found@) =~= all.take(0).filter(wanted));
        }
        while i < self.challenges.len()
            invariant
                0 <= i <= self.challenges.len(),
                all == challenge_models(self.challenges@),
                wanted == |c: ChallengeModel| c.challenger_uid == uid@,
                challenge_models(found@) == all.take(i as int).filter(wanted),
            decreases self.challenges.len() - i,
        {
            let ghost so_far = challenge_models(found@);
            proof {
                reveal(Seq::filter);
                assert(all.take(i + 1).drop_last() =~= all.take(i as int));
                assert(all.take(i + 1).last() == self.challenges[i as int]@);
            }
            if same_text(self.challenges[i].challenger_uid.as_str(), uid) {
                found.push(self.challenges[i].clone());
                assert(challenge_models(found@) =~= so_far.push(self.challenges[i as int]@));
            }
            i += 1;
        }
        assert(all.take(i as int) =~= all);
        found
    }

    /// The games that a user plays in, in the order in which they came.
    pub fn get_games(&self, uid: &str) -> (found: Vec<Game>)
        ensures
            game_models(found@) == self@.games_of(uid@),
    {
        let ghost all = self@.games;
        let ghost wanted = |g: GameModel| g.black_uid == uid@ || g.white_uid == uid@;
        let mut found: Vec<Game> = Vec::new();
        let mut i: usize = 0;
        proof {
            reveal(Seq::filter);
            assert(all.take(0) =~= Seq::empty());
            assert(game_models(found@) =~= all.take(0).filter(wanted));
        }
        while i < self.games.len()
            invariant
                0 <= i <= self.games.len(),
                all == game_models(self.games@),
                wanted == |g: GameModel| g.black_uid == uid@ || g.white_uid == uid@,
                game_models(found@) == all.take(i as int).filter(wanted),
            decreases self.games.len() - i,
        {
            let ghost so_far = game_models(found@);
            proof {
                reveal(Seq::filter);
                assert(all.take(i + 1).drop_last() =~= all.take(i as int));
                assert(all.take(i + 1).last() == self.games[i as int]@);
            }
            let game = &self.games[i];
            if same_text(game.black_uid.as_str(), uid) || same_text(game.white_uid.as_str(), uid) {
                found.push(game.clone());
                assert(game_models(found@) =~= so_far.push(self.games[i as int]@));
            }
            i += 1;
        }
        assert(all.take(i as int) =~= all);
        found
    }
}

} // verus!
