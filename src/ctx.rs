//! The identity of the caller, bound to a request once authentication passed.
use vstd::prelude::*;

verus! {

/// The per-request context: who is making the request.
#[derive(Debug, Clone, Copy, PartialEq, Eq, Structural)]
pub struct Ctx {
    user_id: u64,
}

impl Ctx {
    /// The user id this context carries.
    pub closed spec fn spec_user_id(&self) -> u64 {
        self.user_id
    }

    /// The context of the given user.
    pub fn new(user_id: u64) -> (r: Ctx)
        ensures
            r.spec_user_id() == user_id,
    {
        Ctx { user_id }
    }

    /// The id of the authenticated user.
    pub fn user_id(&self) -> (r: u64)
        ensures
            r == self.spec_user_id(),
    {
        self.user_id
    }
}

} // verus!
