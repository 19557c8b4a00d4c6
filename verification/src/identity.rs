use crate::context::IdentityContext;
use vstd::prelude::*;

verus! {

/// The identity storage of one request, and the handle through which the
/// wrapped service reads and changes the identity.
///
/// The slot is private: only the interceptor installs a context and only the
/// interceptor takes it out again. In between, `remember` and `forget` are
/// the only ways to change it, and both leave their mark in `changed`.
#[derive(Debug, PartialEq, Eq)]
pub struct Identity<U> {
    slot: Option<IdentityContext<U>>,
}

/// Read access to the current user for anything that carries the identity
/// storage of a request.
pub trait RequestIdentity {
    type User: Clone;

    /// The context that is installed, if any.
    spec fn installed(&self) -> Option<IdentityContext<Self::User>>;

    /// A copy of the current user. A context must be installed.
    fn get_identity(&self) -> (user: Self::User)
        requires
            self.installed() is Some,
        ensures
            cloned(self.installed()->0.user, user),
    ;
}

impl<U> Identity<U> {
    /// What the slot holds.
    pub closed spec fn context(&self) -> Option<IdentityContext<U>> {
        self.slot
    }

    /// The storage whose slot holds `slot`.
    pub closed spec fn holding(slot: Option<IdentityContext<U>>) -> Self {
        Identity { slot }
    }

    /// `holding` and `context` are inverse to each other.
    pub proof fn lemma_holding(self, slot: Option<IdentityContext<U>>)
        ensures
            Self::holding(slot).context() == slot,
            Self::holding(self.context()) == self,
    {
    }

    /// The storage after the user was replaced: nothing happens to an empty
    /// slot.
    pub open spec fn remembered(self, user: U) -> Self {
        match self.context() {
            Some(context) => Self::holding(Some(context.remembered(user))),
            None => self,
        }
    }

    /// The storage after invalidation was asked for: nothing happens to an
    /// empty slot.
    pub open spec fn forgotten(self) -> Self {
        match self.context() {
            Some(context) => Self::holding(Some(context.forgotten())),
            None => self,
        }
    }

    /// Storage with an empty slot, as a request has it before the
    /// interceptor installs a context.
    pub fn new() -> (identity: Self)
        ensures
            identity == Self::holding(None),
    {
        Identity { slot: None }
    }

    /// Storage with a fresh context for `user`.
    pub(crate) fn install(user: U) -> (identity: Self)
        ensures
            identity == Self::holding(Some(IdentityContext::fresh(user))),
    {
        Identity { slot: Some(IdentityContext::new(user)) }
    }

    /// Removes the context from the slot and returns it.
    pub(crate) fn take(&mut self) -> (context: Option<IdentityContext<U>>)
        ensures
            context == old(self).context(),
            *final(self) == Self::holding(None),
    {
        self.slot.take()
    }

    /// Whether a context is installed.
    pub fn is_installed(&self) -> (installed: bool)
        ensures
            installed == (self.context() is Some),
    {
        self.slot.is_some()
    }

    /// Replaces the stored user and marks the identity as changed.
    pub fn remember(&mut self, user: U)
        ensures
            *final(self) == old(self).remembered(user),
    {
        if let Some(context) = self.slot.take() {
            self.slot = Some(IdentityContext { user, changed: true, forget: context.forget });
        }
    }

    /// Asks for the identity to be invalidated on the response, and marks it
    /// as changed.
    pub fn forget(&mut self)
        ensures
            *final(self) == old(self).forgotten(),
    {
        if let Some(context) = self.slot.take() {
            self.slot = Some(IdentityContext { user: context.user, changed: true, forget: true });
        }
    }
}

impl<U: Clone> Identity<U> {
    /// A copy of the current user. A context must be installed.
    pub fn identity(&self) -> (user: U)
        requires
            self.context() is Some,
        ensures
            cloned(self.context()->0.user, user),
    {
        Self::get_identity(&self.slot)
    }

    fn get_identity(slot: &Option<IdentityContext<U>>) -> (user: U)
        requires
            slot is Some,
        ensures
            cloned(slot->0.user, user),
    {
        match slot {
            Some(context) => context.user.clone(),
            None => unreached(),
        }
    }
}

impl<U: Clone> RequestIdentity for Identity<U> {
    type User = U;

    open spec fn installed(&self) -> Option<IdentityContext<U>> {
        self.context()
    }

    fn get_identity(&self) -> (user: U) {
        Identity::<U>::get_identity(&self.slot)
    }
}

} // verus!
