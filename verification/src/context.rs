use vstd::prelude::*;

verus! {

/// The identity state of one request: the current user record and what the
/// wrapped service asked to be done with it on the way out.
#[derive(Debug, PartialEq, Eq)]
pub struct IdentityContext<U> {
    /// The current identity of the request.
    pub user: U,
    /// Whether the identity was updated while the request was served.
    pub changed: bool,
    /// Whether the identity is to be invalidated on the response.
    pub forget: bool,
}

impl<U> IdentityContext<U> {
    /// The context as it is installed right after a successful lookup.
    pub open spec fn fresh(user: U) -> Self {
        IdentityContext { user, changed: false, forget: false }
    }

    /// The context after the user record was replaced.
    pub open spec fn remembered(self, user: U) -> Self {
        IdentityContext { user, changed: true, forget: self.forget }
    }

    /// The context after invalidation was asked for.
    pub open spec fn forgotten(self) -> Self {
        IdentityContext { user: self.user, changed: true, forget: true }
    }

    /// Builds the context for a user record that was just looked up.
    pub fn new(user: U) -> (context: Self)
        ensures
            context == Self::fresh(user),
    {
        IdentityContext { user, changed: false, forget: false }
    }
}

} // verus!
