use identity_service::{
    Action, ErrorResponse, Event, FailureCause, Identity, IdentityContext, Outcome, Stage,
};

#[derive(Clone, Debug, PartialEq, Eq)]
struct User {
    id: u64,
}

type Ev = Event<User, &'static str, &'static str>;
type Act = Action<User, &'static str, &'static str>;

fn token(text: &str) -> Option<String> {
    Some(String::from(text))
}

/// Drives a request up to the point where the wrapped service is called,
/// and returns the storage that is handed to it.
fn serve(text: &str, user: User) -> Identity<User> {
    let (stage, action) = Stage::new().step::<User, &str, &str>(Event::Arrived);
    assert_eq!(action, Act::Acquire);
    let (stage, action) = stage.step::<User, &str, &str>(Event::Acquired);
    assert_eq!(action, Act::Resolve);
    let (stage, action) = stage.step::<User, &str, &str>(Event::Resolved(token(text)));
    assert_eq!(action, Act::Lookup { token: String::from(text) });
    let (stage, action) = stage.step::<User, &str, &str>(Event::Found(user));
    assert_eq!(stage, Stage::Serving);
    match action {
        Action::Forward(identity) => identity,
        other => panic!("expected the storage, got {:?}", other),
    }
}

#[test]
fn a_request_starts_idle() {
    assert_eq!(Stage::new(), Stage::Idle);
    assert!(!Stage::new().is_done());
    assert!(Stage::Done.is_done());
    assert!(!Stage::Serving.is_done());
}

#[test]
fn arrival_asks_for_a_resource() {
    let (stage, action) = Stage::Idle.step::<User, &str, &str>(Event::Arrived);
    assert_eq!(stage, Stage::Acquiring);
    assert_eq!(action, Act::Acquire);
}

#[test]
fn unmodified_identity_is_committed_unchanged() {
    let identity = serve("T1", User { id: 42 });
    assert!(identity.is_installed());
    assert_eq!(identity.identity(), User { id: 42 });
    let (stage, action) =
        Stage::Serving.step::<User, &str, &str>(Event::Served { response: "ok", identity: Some(identity) });
    assert_eq!(stage, Stage::Committing);
    assert_eq!(
        action,
        Act::Commit {
            context: IdentityContext { user: User { id: 42 }, changed: false, forget: false },
            response: "ok",
        }
    );
    let (stage, action) = stage.step::<User, &str, &str>(Event::Committed("ok"));
    assert_eq!(stage, Stage::Done);
    assert_eq!(action, Act::Finish(Outcome::Response("ok")));
}

#[test]
fn absent_token_is_an_authentication_failure() {
    let (stage, _) = Stage::new().step::<User, &str, &str>(Event::Arrived);
    let (stage, _) = stage.step::<User, &str, &str>(Event::Acquired);
    let (stage, action) = stage.step::<User, &str, &str>(Event::Resolved(None));
    assert_eq!(stage, Stage::Done);
    assert_eq!(
        action,
        Act::Finish(Outcome::Rejected {
            answer: ErrorResponse::AuthenticationFailed,
            cause: FailureCause::TokenAbsent,
        })
    );
    let (stage, action) = stage.step::<User, &str, &str>(Event::Found(User { id: 1 }));
    assert_eq!(stage, Stage::Done);
    assert_eq!(action, Act::Refused(Event::Found(User { id: 1 })));
}

#[test]
fn failed_resolution_is_an_authentication_failure() {
    let (stage, action) = Stage::Resolving.step::<User, &str, &str>(Event::ResolveFailed);
    assert_eq!(stage, Stage::Done);
    assert_eq!(
        action,
        Act::Finish(Outcome::Rejected {
            answer: ErrorResponse::AuthenticationFailed,
            cause: FailureCause::ResolutionFailed,
        })
    );
}

#[test]
fn failed_lookup_is_an_authentication_failure() {
    let (stage, _) = Stage::new().step::<User, &str, &str>(Event::Arrived);
    let (stage, _) = stage.step::<User, &str, &str>(Event::Acquired);
    let (stage, action) = stage.step::<User, &str, &str>(Event::Resolved(token("T2")));
    assert_eq!(stage, Stage::LookingUp);
    assert_eq!(action, Act::Lookup { token: String::from("T2") });
    let (stage, action) = stage.step::<User, &str, &str>(Event::NotFound);
    assert_eq!(stage, Stage::Done);
    assert_eq!(
        action,
        Act::Finish(Outcome::Rejected {
            answer: ErrorResponse::AuthenticationFailed,
            cause: FailureCause::LookupFailed,
        })
    );
    let (stage, action) =
        stage.step::<User, &str, &str>(Event::Served { response: "late", identity: None });
    assert_eq!(stage, Stage::Done);
    assert_eq!(action, Act::Refused(Event::Served { response: "late", identity: None }));
}

#[test]
fn remembered_user_is_committed_as_changed() {
    let mut identity = serve("T1", User { id: 42 });
    identity.remember(User { id: 99 });
    assert_eq!(identity.identity(), User { id: 99 });
    let (stage, action) =
        Stage::Serving.step::<User, &str, &str>(Event::Served { response: "ok", identity: Some(identity) });
    assert_eq!(stage, Stage::Committing);
    assert_eq!(
        action,
        Act::Commit {
            context: IdentityContext { user: User { id: 99 }, changed: true, forget: false },
            response: "ok",
        }
    );
}

#[test]
fn last_remembered_user_wins() {
    let mut identity = serve("T1", User { id: 42 });
    identity.remember(User { id: 7 });
    identity.remember(User { id: 8 });
    let (_, action) =
        Stage::Serving.step::<User, &str, &str>(Event::Served { response: "ok", identity: Some(identity) });
    assert_eq!(
        action,
        Act::Commit {
            context: IdentityContext { user: User { id: 8 }, changed: true, forget: false },
            response: "ok",
        }
    );
}

#[test]
fn forgotten_identity_is_committed_as_forgotten() {
    let mut identity = serve("T1", User { id: 42 });
    identity.forget();
    let (stage, action) =
        Stage::Serving.step::<User, &str, &str>(Event::Served { response: "bye", identity: Some(identity) });
    assert_eq!(stage, Stage::Committing);
    assert_eq!(
        action,
        Act::Commit {
            context: IdentityContext { user: User { id: 42 }, changed: true, forget: true },
            response: "bye",
        }
    );
}

#[test]
fn forget_survives_a_later_remember() {
    let mut identity = serve("T1", User { id: 42 });
    identity.forget();
    identity.remember(User { id: 5 });
    let (_, action) =
        Stage::Serving.step::<User, &str, &str>(Event::Served { response: "ok", identity: Some(identity) });
    assert_eq!(
        action,
        Act::Commit {
            context: IdentityContext { user: User { id: 5 }, changed: true, forget: true },
            response: "ok",
        }
    );
}

#[test]
fn exhausted_pool_is_an_internal_error() {
    let (stage, action) = Stage::new().step::<User, &str, &str>(Event::Arrived);
    assert_eq!(action, Act::Acquire);
    let (stage, action) = stage.step::<User, &str, &str>(Event::AcquireFailed);
    assert_eq!(stage, Stage::Done);
    assert_eq!(
        action,
        Act::Finish(Outcome::Rejected {
            answer: ErrorResponse::InternalError,
            cause: FailureCause::PoolUnavailable,
        })
    );
    let (stage, action) = stage.step::<User, &str, &str>(Event::Resolved(token("T1")));
    assert_eq!(stage, Stage::Done);
    assert_eq!(action, Act::Refused(Event::Resolved(token("T1"))));
    let (stage, action) = stage.step::<User, &str, &str>(Event::Found(User { id: 42 }));
    assert_eq!(stage, Stage::Done);
    assert_eq!(action, Act::Refused(Event::Found(User { id: 42 })));
}

#[test]
fn failed_commit_keeps_the_response() {
    let identity = serve("T1", User { id: 42 });
    let (stage, _) =
        Stage::Serving.step::<User, &str, &str>(Event::Served { response: "body", identity: Some(identity) });
    let (stage, action) = stage.step::<User, &str, &str>(Event::CommitFailed("body", "cannot sign"));
    assert_eq!(stage, Stage::Done);
    assert_eq!(
        action,
        Act::Finish(Outcome::CommitFailed { response: "body", error: "cannot sign" })
    );
}

#[test]
fn service_error_is_passed_on() {
    let _identity = serve("T1", User { id: 42 });
    let (stage, action) = Stage::Serving.step::<User, &str, &str>(Event::ServiceFailed("boom"));
    assert_eq!(stage, Stage::Done);
    assert_eq!(action, Act::Finish(Outcome::Error("boom")));
}

#[test]
fn response_without_storage_is_returned_unchanged() {
    let (stage, action) =
        Stage::Serving.step::<User, &str, &str>(Event::Served { response: "plain", identity: None });
    assert_eq!(stage, Stage::Done);
    assert_eq!(action, Act::Finish(Outcome::Response("plain")));
}

#[test]
fn response_with_empty_storage_is_returned_unchanged() {
    let (stage, action) = Stage::Serving
        .step::<User, &str, &str>(Event::Served { response: "plain", identity: Some(Identity::new()) });
    assert_eq!(stage, Stage::Done);
    assert_eq!(action, Act::Finish(Outcome::Response("plain")));
}

#[test]
fn event_out_of_turn_is_handed_back() {
    let cases: Vec<(Stage, Ev)> = vec![
        (Stage::Idle, Event::Acquired),
        (Stage::Idle, Event::Found(User { id: 1 })),
        (Stage::Acquiring, Event::Arrived),
        (Stage::Acquiring, Event::Resolved(token("T"))),
        (Stage::Resolving, Event::Acquired),
        (Stage::Resolving, Event::NotFound),
        (Stage::LookingUp, Event::Resolved(None)),
        (Stage::LookingUp, Event::ServiceFailed("e")),
        (Stage::Serving, Event::Found(User { id: 2 })),
        (Stage::Serving, Event::Committed("r")),
        (Stage::Committing, Event::ServiceFailed("e")),
        (Stage::Committing, Event::Arrived),
        (Stage::Done, Event::Arrived),
        (Stage::Done, Event::CommitFailed("r", "e")),
    ];
    for (stage, event) in cases {
        let expected = format!("{:?}", event);
        let (next, action) = stage.step(event);
        assert_eq!(next, stage);
        match action {
            Action::Refused(back) => assert_eq!(format!("{:?}", back), expected),
            other => panic!("expected a refusal, got {:?}", other),
        }
    }
}

#[test]
fn service_is_called_once_in_a_full_run() {
    let events: Vec<Ev> = vec![
        Event::Arrived,
        Event::Arrived,
        Event::Acquired,
        Event::Resolved(token("T1")),
        Event::Acquired,
        Event::Found(User { id: 42 }),
        Event::Found(User { id: 43 }),
        Event::Served { response: "ok", identity: None },
        Event::Found(User { id: 44 }),
    ];
    let mut stage = Stage::new();
    let mut ranks: Vec<u8> = Vec::new();
    let mut forwards = 0;
    for event in events {
        let (next, action) = stage.step(event);
        stage = next;
        match action {
            Action::Refused(_) => {}
            Action::Acquire => ranks.push(1),
            Action::Resolve => ranks.push(2),
            Action::Lookup { .. } => ranks.push(3),
            Action::Forward(identity) => {
                forwards += 1;
                assert_eq!(identity.identity(), User { id: 42 });
                ranks.push(4)
            }
            Action::Commit { .. } => ranks.push(5),
            Action::Finish(_) => ranks.push(6),
        }
    }
    assert_eq!(forwards, 1);
    assert_eq!(ranks, vec![1, 2, 3, 4, 6]);
    assert_eq!(stage, Stage::Done);
}

#[test]
fn interleaved_requests_keep_their_own_identity() {
    let tokens = ["A", "B", "C"];
    let mut stages = vec![Stage::new(), Stage::new(), Stage::new()];
    for id in [2, 0, 1] {
        let (next, action) = stages[id].step::<User, &str, &str>(Event::Arrived);
        assert_eq!(action, Act::Acquire);
        stages[id] = next;
    }
    for id in [0, 2, 1] {
        let (next, action) = stages[id].step::<User, &str, &str>(Event::Acquired);
        assert_eq!(action, Act::Resolve);
        stages[id] = next;
    }
    for id in [1, 0, 2] {
        let (next, action) = stages[id].step::<User, &str, &str>(Event::Resolved(token(tokens[id])));
        assert_eq!(action, Act::Lookup { token: String::from(tokens[id]) });
        stages[id] = next;
    }
    let mut storages: Vec<Option<Identity<User>>> = vec![None, None, None];
    for id in [2, 1, 0] {
        let (next, action) =
            stages[id].step::<User, &str, &str>(Event::Found(User { id: 100 + id as u64 }));
        stages[id] = next;
        match action {
            Action::Forward(identity) => storages[id] = Some(identity),
            other => panic!("expected the storage, got {:?}", other),
        }
    }
    if let Some(identity) = storages[1].as_mut() {
        identity.remember(User { id: 7 });
    }
    if let Some(identity) = storages[2].as_mut() {
        identity.forget();
    }
    let expected = [
        IdentityContext { user: User { id: 100 }, changed: false, forget: false },
        IdentityContext { user: User { id: 7 }, changed: true, forget: false },
        IdentityContext { user: User { id: 102 }, changed: true, forget: true },
    ];
    let responses = ["r0", "r1", "r2"];
    for (id, context) in expected.into_iter().enumerate() {
        let identity = storages[id].take();
        let (next, action) =
            stages[id].step::<User, &str, &str>(Event::Served { response: responses[id], identity });
        assert_eq!(next, Stage::Committing);
        assert_eq!(action, Act::Commit { context, response: responses[id] });
    }
}
