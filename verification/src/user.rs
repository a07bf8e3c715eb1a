//! The user record that an identity is bound to.

use vstd::prelude::*;
use vstd::string::*;
use crate::error::ServerError;

verus! {

/// What a user record holds, as plain values.
pub struct UserModel {
    pub uid: Seq<char>,
    pub username: Seq<char>,
    pub is_guest: bool,
}

/// A user. `uid` is the identity that the record was created under; it
/// comes from authentication only and never changes.
#[derive(Debug, PartialEq, Eq)]
pub struct User {
    pub uid: String,
    pub username: String,
    pub is_guest: bool,
}

/// The body of a request that creates a user.
#[derive(Debug, PartialEq, Eq)]
pub struct NewUserBody {
    pub username: String,
}

impl View for User {
    type V = UserModel;

    open spec fn view(&self) -> UserModel {
        UserModel { uid: self.uid@, username: self.username@, is_guest: self.is_guest }
    }
}

/// A username is acceptable when it is not empty.
pub open spec fn valid_username(username: Seq<char>) -> bool {
    username.len() > 0
}

impl User {
    /// Builds the record for an identity, or refuses the username.
    pub fn new(uid: &str, username: &str, is_guest: bool) -> (r: Result<User, ServerError>)
        ensures
            valid_username(username@) ==> r is Ok && r->Ok_0@ == (UserModel {
                uid: uid@,
                username: username@,
                is_guest,
            }),
            !valid_username(username@) ==> r == Err::<User, ServerError>(
                ServerError::ValidationError,
            ),
    {
        if username.unicode_len() == 0 {
            return Err(ServerError::ValidationError);
        }
        Ok(User { uid: String::from_str(uid), username: String::from_str(username), is_guest })
    }
}

impl Clone for User {
    fn clone(&self) -> (copy: User)
        ensures
            copy@ == self@,
    {
        User {
            uid: self.uid.clone(),
            username: self.username.clone(),
            is_guest: self.is_guest,
        }
    }
}

} // verus!
