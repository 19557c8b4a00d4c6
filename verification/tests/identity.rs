use identity_service::{ErrorResponse, Event, FailureCause, Action, Identity, IdentityContext, RequestIdentity, Stage};

#[derive(Clone, Debug, PartialEq, Eq)]
struct Account {
    id: u64,
    name: String,
}

fn account(id: u64, name: &str) -> Account {
    Account { id, name: String::from(name) }
}

fn installed(user: Account) -> Identity<Account> {
    match Stage::LookingUp.step::<Account, (), ()>(Event::Found(user)) {
        (Stage::Serving, Action::Forward(identity)) => identity,
        other => panic!("expected the storage, got {:?}", other),
    }
}

#[test]
fn new_storage_is_empty() {
    let identity: Identity<Account> = Identity::new();
    assert!(!identity.is_installed());
}

#[test]
fn installed_storage_holds_the_looked_up_user() {
    let identity = installed(account(42, "ada"));
    assert!(identity.is_installed());
    assert_eq!(identity.identity(), account(42, "ada"));
    assert_eq!(identity.get_identity(), account(42, "ada"));
}

#[test]
fn reading_changes_nothing() {
    let identity = installed(account(42, "ada"));
    let _ = identity.identity();
    let _ = identity.get_identity();
    let (_, action) =
        Stage::Serving.step::<Account, (), ()>(Event::Served { response: (), identity: Some(identity) });
    assert_eq!(
        action,
        Action::Commit {
            context: IdentityContext { user: account(42, "ada"), changed: false, forget: false },
            response: (),
        }
    );
}

#[test]
fn remember_replaces_the_user() {
    let mut identity = installed(account(42, "ada"));
    identity.remember(account(99, "bob"));
    assert!(identity.is_installed());
    assert_eq!(identity.identity(), account(99, "bob"));
    assert_eq!(identity.get_identity(), account(99, "bob"));
}

#[test]
fn forget_keeps_the_user() {
    let mut identity = installed(account(42, "ada"));
    identity.forget();
    assert!(identity.is_installed());
    assert_eq!(identity.identity(), account(42, "ada"));
}

#[test]
fn remember_on_empty_storage_does_nothing() {
    let mut identity: Identity<Account> = Identity::new();
    identity.remember(account(1, "eve"));
    assert!(!identity.is_installed());
    assert_eq!(identity, Identity::new());
}

#[test]
fn forget_on_empty_storage_does_nothing() {
    let mut identity: Identity<Account> = Identity::new();
    identity.forget();
    assert!(!identity.is_installed());
    assert_eq!(identity, Identity::new());
}

#[test]
fn fresh_context_is_unchanged() {
    let context = IdentityContext::new(account(3, "cy"));
    assert_eq!(context, IdentityContext { user: account(3, "cy"), changed: false, forget: false });
}

#[test]
fn each_cause_has_its_response() {
    assert_eq!(FailureCause::PoolUnavailable.to_response(), ErrorResponse::InternalError);
    assert_eq!(FailureCause::ResolutionFailed.to_response(), ErrorResponse::AuthenticationFailed);
    assert_eq!(FailureCause::TokenAbsent.to_response(), ErrorResponse::AuthenticationFailed);
    assert_eq!(FailureCause::LookupFailed.to_response(), ErrorResponse::AuthenticationFailed);
}
