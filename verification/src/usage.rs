use crate::context::IdentityContext;
use crate::identity::Identity;
use crate::interceptor::{Action, Event, Stage};
use vstd::prelude::*;

verus! {

/// One use that the wrapped service makes of the identity of its request.
pub enum Access<U> {
    /// It reads the current user.
    Read,
    /// It replaces the user.
    Remember(U),
    /// It asks for the identity to be invalidated.
    Forget,
}

/// The storage after the wrapped service has made these uses of it, in this
/// order.
pub open spec fn used<U>(identity: Identity<U>, uses: Seq<Access<U>>) -> Identity<U>
    decreases uses.len(),
{
    if uses.len() == 0 {
        identity
    } else {
        let before = used(identity, uses.drop_last());
        match uses.last() {
            Access::Read => before,
            Access::Remember(user) => before.remembered(user),
            Access::Forget => before.forgotten(),
        }
    }
}

/// The user that was stored last, or `user` if none was stored.
pub open spec fn last_remembered<U>(user: U, uses: Seq<Access<U>>) -> U
    decreases uses.len(),
{
    if uses.len() == 0 {
        user
    } else {
        match uses.last() {
            Access::Remember(stored) => stored,
            _ => last_remembered(user, uses.drop_last()),
        }
    }
}

/// Whether one of the uses changes the identity.
pub open spec fn mutates<U>(uses: Seq<Access<U>>) -> bool {
    exists|i: int| 0 <= i < uses.len() && !(#[trigger] uses[i] is Read)
}

/// Whether one of the uses asks for the identity to be invalidated.
pub open spec fn forgets<U>(uses: Seq<Access<U>>) -> bool {
    exists|i: int| 0 <= i < uses.len() && #[trigger] uses[i] is Forget
}

/// The context that is installed for `user`, after these uses.
pub open spec fn context_after<U>(user: U, uses: Seq<Access<U>>) -> IdentityContext<U> {
    IdentityContext {
        user: last_remembered(user, uses),
        changed: mutates(uses),
        forget: forgets(uses),
    }
}

/// Whatever the wrapped service does with the storage that it was handed,
/// the context stays installed, and it records exactly what was done: the
/// user that was stored last, whether anything was changed, and whether
/// invalidation was asked for.
pub proof fn lemma_context_records_uses<U>(user: U, uses: Seq<Access<U>>)
    ensures
        used(Identity::holding(Some(IdentityContext::fresh(user))), uses) == Identity::holding(
            Some(context_after(user, uses)),
        ),
    decreases uses.len(),
{
    let installed = Identity::holding(Some(IdentityContext::fresh(user)));
    if uses.len() == 0 {
        assert(context_after(user, uses) == IdentityContext::fresh(user));
    } else {
        let earlier = uses.drop_last();
        lemma_context_records_uses(user, earlier);
        let before = Identity::holding(Some(context_after(user, earlier)));
        before.lemma_holding(Some(context_after(user, earlier)));
        assert(mutates(uses) <==> mutates(earlier) || !(uses.last() is Read)) by {
            if mutates(earlier) {
                let i = choose|i: int| 0 <= i < earlier.len() && !(#[trigger] earlier[i] is Read);
                assert(!(uses[i] is Read));
            }
            if !(uses.last() is Read) {
                assert(!(uses[uses.len() - 1] is Read));
            }
            if mutates(uses) {
                let i = choose|i: int| 0 <= i < uses.len() && !(#[trigger] uses[i] is Read);
                if i < earlier.len() {
                    assert(!(earlier[i] is Read));
                }
            }
        }
        assert(forgets(uses) <==> forgets(earlier) || uses.last() is Forget) by {
            if forgets(earlier) {
                let i = choose|i: int| 0 <= i < earlier.len() && #[trigger] earlier[i] is Forget;
                assert(uses[i] is Forget);
            }
            if uses.last() is Forget {
                assert(uses[uses.len() - 1] is Forget);
            }
            if forgets(uses) {
                let i = choose|i: int| 0 <= i < uses.len() && #[trigger] uses[i] is Forget;
                if i < earlier.len() {
                    assert(earlier[i] is Forget);
                }
            }
        }
    }
}

/// The commit is handed what the wrapped service left in the storage: when
/// the service answers with `response` after these uses of the storage that
/// was installed for `user`, the interceptor asks for a commit of the
/// context that records them, on that response.
pub proof fn lemma_commit_reflects_uses<U, R, E>(user: U, uses: Seq<Access<U>>, response: R)
    ensures
        Stage::Serving.next(
            Event::<U, R, E>::Served {
                response,
                identity: Some(used(Identity::holding(Some(IdentityContext::fresh(user))), uses)),
            },
        ) == (Stage::Committing, Action::<U, R, E>::Commit { context: context_after(user, uses), response }),
{
    lemma_context_records_uses(user, uses);
    let left = Identity::holding(Some(context_after(user, uses)));
    left.lemma_holding(Some(context_after(user, uses)));
}

/// When the wrapped service changes nothing, the commit is handed the user
/// that was looked up, marked as unchanged.
pub proof fn lemma_untouched_identity_is_committed<U>(user: U, uses: Seq<Access<U>>)
    requires
        forall|i: int| 0 <= i < uses.len() ==> uses[i] is Read,
    ensures
        context_after(user, uses) == IdentityContext::fresh(user),
    decreases uses.len(),
{
    if uses.len() > 0 {
        lemma_untouched_identity_is_committed(user, uses.drop_last());
        assert(uses[uses.len() - 1] is Read);
    }
}

/// When the wrapped service stores a user, and stores no other after it,
/// the commit is handed that user, marked as changed.
pub proof fn lemma_remembered_user_is_committed<U>(user: U, uses: Seq<Access<U>>, at: int, stored: U)
    requires
        0 <= at < uses.len(),
        uses[at] == Access::Remember(stored),
        forall|i: int| at < i < uses.len() ==> !(uses[i] is Remember),
    ensures
        context_after(user, uses).user == stored,
        context_after(user, uses).changed,
    decreases uses.len(),
{
    assert(!(uses[at] is Read));
    if at < uses.len() - 1 {
        assert(!(uses[uses.len() - 1] is Remember));
        lemma_remembered_user_is_committed(user, uses.drop_last(), at, stored);
    }
}

/// When the wrapped service asks for the identity to be invalidated, the
/// commit is handed a context that says so, marked as changed.
pub proof fn lemma_forgotten_identity_is_committed<U>(user: U, uses: Seq<Access<U>>, at: int)
    requires
        0 <= at < uses.len(),
        uses[at] is Forget,
    ensures
        context_after(user, uses).forget,
        context_after(user, uses).changed,
{
    assert(!(uses[at] is Read));
}

} // verus!
