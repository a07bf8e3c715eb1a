//! Who is asking, and whether they may.

use vstd::prelude::*;
use vstd::string::*;
use crate::error::ServerError;
use crate::text::same_text;

verus! {

/// The identity that a request was authenticated as.
#[derive(Debug, PartialEq, Eq)]
pub struct AuthenticatedUser {
    pub uid: String,
}

/// A caller may touch what belongs to an identity exactly when the caller
/// is that identity: character for character, with no normalisation.
pub open spec fn may_access(caller: Seq<char>, target: Seq<char>) -> bool {
    caller == target
}

/// The identity that a trust signal asserts: none where the signal is
/// missing or empty.
pub open spec fn bound_identity(signal: Option<Seq<char>>) -> Option<Seq<char>> {
    match signal {
        Some(token) => if token.len() > 0 {
            Some(token)
        } else {
            None
        },
        None => None,
    }
}

impl AuthenticatedUser {
    /// Establishes who is asking from the token that the request presents.
    /// Nothing is looked up and nothing is created.
    pub fn from_signal(signal: Option<&str>) -> (r: Result<AuthenticatedUser, ServerError>)
        ensures
            match bound_identity(
                match signal {
                    Some(token) => Some(token@),
                    None => None,
                },
            ) {
                Some(uid) => r is Ok && r->Ok_0.uid@ == uid,
                None => r == Err::<AuthenticatedUser, ServerError>(ServerError::Unauthenticated),
            },
    {
        match signal {
            Some(token) => {
                if token.unicode_len() == 0 {
                    Err(ServerError::Unauthenticated)
                } else {
                    Ok(AuthenticatedUser { uid: String::from_str(token) })
                }
            },
            None => Err(ServerError::Unauthenticated),
        }
    }

    /// Allows the caller to act on what `target` owns, or refuses.
    pub fn authorize(&self, target: &str) -> (r: Result<(), ServerError>)
        ensures
            may_access(self.uid@, target@) ==> r == Ok::<(), ServerError>(()),
            !may_access(self.uid@, target@) ==> r == Err::<(), ServerError>(ServerError::Forbidden),
    {
        if same_text(self.uid.as_str(), target) {
            Ok(())
        } else {
            Err(ServerError::Forbidden)
        }
    }
}

} // verus!
