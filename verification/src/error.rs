//! The failures that a request can end in.

use vstd::prelude::*;

verus! {

/// Every way in which an operation of this crate can fail.
#[derive(Clone, Copy, Debug, PartialEq, Eq, Structural)]
pub enum ServerError {
    /// The request carried no usable proof of identity.
    Unauthenticated,
    /// The caller is known but does not own the resource.
    Forbidden,
    /// No such user.
    NotFound,
    /// The identity already has a user.
    Conflict,
    /// The payload of a create request is malformed.
    ValidationError,
    /// A challenge does not belong to the user it is rendered for.
    AssemblyError,
    /// The store failed for a reason of its own.
    StoreError,
}

impl ServerError {
    /// A server fault is a defect on this side of the boundary: it is
    /// reported without detail, unlike the failures that the caller caused.
    pub open spec fn server_fault(self) -> bool {
        self == ServerError::AssemblyError || self == ServerError::StoreError
    }

    pub fn is_server_fault(&self) -> (fault: bool)
        ensures
            fault == self.server_fault(),
    {
        match self {
            ServerError::AssemblyError => true,
            ServerError::StoreError => true,
            _ => false,
        }
    }
}

} // verus!
