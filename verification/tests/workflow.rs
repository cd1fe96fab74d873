use autocommit::failure::Failure;
use autocommit::object_id::ObjectId;
use autocommit::workflow::{
    advance, after_signing, start, Action, Message, Outcome, Phase, Stage, State,
};

fn id(byte: u8) -> ObjectId {
    ObjectId { bytes: [byte; 20] }
}

fn text(words: &str) -> Outcome {
    Outcome::Text(String::from(words))
}

/// Reports the outcomes one after the other and returns the state reached.
fn run(push: bool, outcomes: Vec<Outcome>) -> State {
    let mut state = start(push);
    for outcome in outcomes {
        state = advance(state, outcome).state;
    }
    state
}

/// The outcomes of a run that gets as far as asking whether `HEAD` resolves.
fn to_head(tree: ObjectId) -> Vec<Outcome> {
    vec![
        Outcome::Done,
        Outcome::Id(tree),
        Outcome::Done,
        Outcome::Done,
        text("Ada Lovelace"),
        text("ada@example.org"),
    ]
}

/// The outcomes of a run that gets as far as asking for the commit.
fn to_commit(tree: ObjectId, head: Option<ObjectId>) -> Vec<Outcome> {
    let mut outcomes = to_head(tree);
    match head {
        Some(parent) => {
            outcomes.push(Outcome::Done);
            outcomes.push(Outcome::Id(parent));
        }
        None => outcomes.push(Outcome::Failed),
    }
    outcomes
}

fn failed(push: bool, failure: Failure) -> State {
    State { push, stage: Stage::Failed { failure, made: None } }
}

#[test]
fn a_run_starts_by_staging() {
    let state = start(false);
    assert_eq!(state, State { push: false, stage: Stage::Staging });
    assert_eq!(state.request(), Action::StageAll);
    assert_eq!(state.commit(), None);
    assert!(!state.is_over());
    assert_eq!(state.phase(), Phase::Start);
    assert_eq!(start(true), State { push: true, stage: Stage::Staging });
}

#[test]
fn the_requests_come_in_order() {
    let tree = id(0x2a);
    let head = id(0x11);
    let commit = id(0x77);
    let mut state = start(true);
    let mut asked = vec![state.request()];
    let mut outcomes = to_commit(tree, Some(head));
    outcomes.push(Outcome::Id(commit));
    outcomes.push(Outcome::Done);
    outcomes.push(Outcome::Done);
    outcomes.push(Outcome::Done);
    for outcome in outcomes {
        state = advance(state, outcome).state;
        asked.push(state.request());
    }
    assert_eq!(
        asked,
        vec![
            Action::StageAll,
            Action::WriteTree,
            Action::LoadTree { tree },
            Action::LoadConfig,
            Action::ReadUserName,
            Action::ReadUserEmail,
            Action::ResolveHead,
            Action::PeelHead,
            Action::Commit { tree, parent: Some(head), message: Message::AddedNewFunction },
            Action::Announce { commit },
            Action::FindRemote,
            Action::Push,
            Action::Stop,
        ]
    );
    assert_eq!(state, State { push: true, stage: Stage::Finished { commit, pushed: true } });
}

#[test]
fn the_phases_come_in_order() {
    let tree = id(0x2a);
    let commit = id(0x77);
    let mut state = start(true);
    let mut seen = vec![state.phase()];
    let mut outcomes = to_commit(tree, None);
    outcomes.push(Outcome::Id(commit));
    outcomes.push(Outcome::Done);
    outcomes.push(Outcome::Done);
    outcomes.push(Outcome::Done);
    for outcome in outcomes {
        state = advance(state, outcome).state;
        seen.push(state.phase());
    }
    assert_eq!(
        seen,
        vec![
            Phase::Start,
            Phase::Staged,
            Phase::TreeWritten,
            Phase::TreeWritten,
            Phase::TreeWritten,
            Phase::TreeWritten,
            Phase::TreeWritten,
            Phase::TreeWritten,
            Phase::Committed,
            Phase::Committed,
            Phase::PushAttempted,
            Phase::PushSucceeded,
        ]
    );
}

#[test]
fn first_commit_has_no_parent() {
    let tree = id(0x05);
    let state = run(false, to_commit(tree, None));
    assert_eq!(
        state.request(),
        Action::Commit { tree, parent: None, message: Message::InitialCommit }
    );
    let state = run(true, to_commit(tree, None));
    assert_eq!(
        state.request(),
        Action::Commit { tree, parent: None, message: Message::InitialCommit }
    );
}

#[test]
fn head_that_does_not_resolve_is_no_failure() {
    let tree = id(0x05);
    let mut outcomes = to_head(tree);
    outcomes.push(Outcome::Id(id(1)));
    let state = run(false, outcomes);
    assert_eq!(state.stage, Stage::Committing { tree, parent: None });
    let mut outcomes = to_head(tree);
    outcomes.push(text("no"));
    let state = run(false, outcomes);
    assert_eq!(state.stage, Stage::Committing { tree, parent: None });
}

#[test]
fn later_commit_sits_on_head() {
    let tree = id(0x05);
    let head = id(0xc4);
    let state = run(false, to_commit(tree, Some(head)));
    assert_eq!(
        state.request(),
        Action::Commit { tree, parent: Some(head), message: Message::NewChanges }
    );
    assert_eq!(state.stage, Stage::Committing { tree, parent: Some(head) });
}

#[test]
fn later_commit_of_a_pushing_run_has_its_own_message() {
    let tree = id(0x05);
    let head = id(0xc4);
    let state = run(true, to_commit(tree, Some(head)));
    assert_eq!(
        state.request(),
        Action::Commit { tree, parent: Some(head), message: Message::AddedNewFunction }
    );
}

#[test]
fn message_words() {
    assert_eq!(Message::InitialCommit.text(), "Initial Commit");
    assert_eq!(Message::NewChanges.text(), "New Changes");
    assert_eq!(Message::AddedNewFunction.text(), "Added new function");
}

#[test]
fn staging_failure_ends_the_run() {
    let state = run(false, vec![Outcome::Failed]);
    assert_eq!(state, failed(false, Failure::Stage));
    assert_eq!(state.request(), Action::Stop);
    assert!(state.is_over());
    assert_eq!(state.phase(), Phase::Start);
}

#[test]
fn tree_write_failure_ends_the_run() {
    let state = run(true, vec![Outcome::Done, Outcome::Failed]);
    assert_eq!(state, failed(true, Failure::TreeWrite));
    assert_eq!(state.phase(), Phase::Staged);
    let state = run(true, vec![Outcome::Done, Outcome::Done]);
    assert_eq!(state, failed(true, Failure::TreeWrite));
}

#[test]
fn tree_lookup_failure_ends_the_run() {
    let state = run(false, vec![Outcome::Done, Outcome::Id(id(3)), Outcome::Failed]);
    assert_eq!(state, failed(false, Failure::TreeLookup));
    assert_eq!(state.phase(), Phase::TreeWritten);
}

#[test]
fn config_failure_ends_the_run() {
    let state =
        run(false, vec![Outcome::Done, Outcome::Id(id(3)), Outcome::Done, Outcome::Failed]);
    assert_eq!(state, failed(false, Failure::Config));
}

#[test]
fn missing_user_name_commits_nothing() {
    let mut state = start(false);
    let outcomes = vec![
        Outcome::Done,
        Outcome::Id(id(3)),
        Outcome::Done,
        Outcome::Done,
        Outcome::Failed,
        text("ada@example.org"),
        Outcome::Done,
        Outcome::Id(id(4)),
        Outcome::Id(id(5)),
    ];
    for outcome in outcomes {
        assert!(!matches!(state.request(), Action::Commit { .. }));
        state = advance(state, outcome).state;
    }
    assert_eq!(state, failed(false, Failure::UserName));
    assert_eq!(state.request(), Action::Stop);
    assert_eq!(state.commit(), None);
}

#[test]
fn missing_user_email_commits_nothing() {
    let mut state = start(true);
    let outcomes = vec![
        Outcome::Done,
        Outcome::Id(id(3)),
        Outcome::Done,
        Outcome::Done,
        text("Ada Lovelace"),
        Outcome::Failed,
        Outcome::Done,
        Outcome::Id(id(4)),
        Outcome::Id(id(5)),
    ];
    for outcome in outcomes {
        assert!(!matches!(state.request(), Action::Commit { .. }));
        state = advance(state, outcome).state;
    }
    assert_eq!(state, failed(true, Failure::UserEmail));
    assert_eq!(state.request(), Action::Stop);
    assert_eq!(state.commit(), None);
}

#[test]
fn name_is_asked_before_email() {
    let state = run(
        false,
        vec![Outcome::Done, Outcome::Id(id(3)), Outcome::Done, Outcome::Done, Outcome::Done],
    );
    assert_eq!(state, failed(false, Failure::UserName));
}

#[test]
fn head_that_is_no_commit_ends_the_run() {
    let mut outcomes = to_head(id(3));
    outcomes.push(Outcome::Done);
    outcomes.push(Outcome::Failed);
    let state = run(false, outcomes);
    assert_eq!(state, failed(false, Failure::Head));
    assert_eq!(state.commit(), None);
}

#[test]
fn failed_commit_on_head() {
    let mut outcomes = to_commit(id(3), Some(id(4)));
    outcomes.push(Outcome::Failed);
    let state = run(false, outcomes);
    assert_eq!(state, failed(false, Failure::Commit));
    assert_eq!(state.commit(), None);
    assert_eq!(state.phase(), Phase::TreeWritten);
}

#[test]
fn failed_first_commit() {
    let mut outcomes = to_commit(id(3), None);
    outcomes.push(Outcome::Failed);
    let state = run(false, outcomes);
    assert_eq!(state, failed(false, Failure::InitialCommit));
}

#[test]
fn run_without_push_ends_after_the_commit() {
    let commit = id(0x99);
    let mut outcomes = to_commit(id(3), Some(id(4)));
    outcomes.push(Outcome::Id(commit));
    let state = run(false, outcomes.clone());
    assert_eq!(state.request(), Action::Announce { commit });
    assert_eq!(state.commit(), Some(commit));
    assert!(!state.is_over());
    outcomes.push(Outcome::Done);
    let state = run(false, outcomes);
    assert_eq!(state, State { push: false, stage: Stage::Finished { commit, pushed: false } });
    assert_eq!(state.request(), Action::Stop);
    assert_eq!(state.commit(), Some(commit));
    assert!(state.is_over());
    assert_eq!(state.phase(), Phase::Committed);
}

#[test]
fn announcing_cannot_fail() {
    let commit = id(0x99);
    let mut outcomes = to_commit(id(3), None);
    outcomes.push(Outcome::Id(commit));
    outcomes.push(Outcome::Failed);
    let state = run(false, outcomes);
    assert_eq!(state.stage, Stage::Finished { commit, pushed: false });
}

#[test]
fn unchanged_tree_is_committed_all_the_same() {
    // The tree written from the index is the tree of the commit at `HEAD`.
    let head_tree = id(0x42);
    let head = id(0x10);
    let state = run(false, to_commit(head_tree, Some(head)));
    assert_eq!(
        state.request(),
        Action::Commit { tree: head_tree, parent: Some(head), message: Message::NewChanges }
    );
}

#[test]
fn running_twice_commits_twice() {
    let tree = id(0x42);
    let first = id(0xa1);
    let second = id(0xa2);

    let mut outcomes = to_commit(tree, None);
    let one = run(false, outcomes.clone()).request();
    outcomes.push(Outcome::Id(first));
    outcomes.push(Outcome::Done);
    assert_eq!(run(false, outcomes).commit(), Some(first));

    let mut outcomes = to_commit(tree, Some(first));
    let two = run(false, outcomes.clone()).request();
    outcomes.push(Outcome::Id(second));
    outcomes.push(Outcome::Done);
    assert_eq!(run(false, outcomes).commit(), Some(second));

    assert_eq!(one, Action::Commit { tree, parent: None, message: Message::InitialCommit });
    assert_eq!(two, Action::Commit { tree, parent: Some(first), message: Message::NewChanges });
    assert_ne!(one, two);
}

#[test]
fn missing_remote_leaves_the_commit() {
    let commit = id(0x99);
    let mut outcomes = to_commit(id(3), Some(id(4)));
    outcomes.push(Outcome::Id(commit));
    outcomes.push(Outcome::Done);
    outcomes.push(Outcome::Failed);
    let state = run(true, outcomes);
    assert_eq!(
        state,
        State { push: true, stage: Stage::Failed { failure: Failure::Remote, made: Some(commit) } }
    );
    assert_eq!(state.commit(), Some(commit));
    assert_eq!(state.request(), Action::Stop);
    assert_eq!(state.phase(), Phase::PushFailed);
}

#[test]
fn failed_push_leaves_the_commit() {
    let commit = id(0x99);
    let mut outcomes = to_commit(id(3), Some(id(4)));
    outcomes.push(Outcome::Id(commit));
    outcomes.push(Outcome::Done);
    outcomes.push(Outcome::Done);
    let state = run(true, outcomes.clone());
    assert_eq!(state.request(), Action::Push);
    assert_eq!(state.phase(), Phase::PushAttempted);
    outcomes.push(Outcome::Failed);
    let state = run(true, outcomes);
    assert_eq!(
        state,
        State { push: true, stage: Stage::Failed { failure: Failure::Push, made: Some(commit) } }
    );
    assert_eq!(state.commit(), Some(commit));
    assert!(state.is_over());
    assert_eq!(state.phase(), Phase::PushFailed);
}

#[test]
fn a_run_that_is_over_stays_as_it_is() {
    let done = State { push: true, stage: Stage::Finished { commit: id(1), pushed: true } };
    assert_eq!(advance(done.clone(), Outcome::Failed).state, done);
    assert_eq!(advance(done.clone(), Outcome::Id(id(2))).state, done);
    let lost = State {
        push: true,
        stage: Stage::Failed { failure: Failure::Push, made: Some(id(1)) },
    };
    assert_eq!(advance(lost.clone(), Outcome::Done).state, lost);
    assert_eq!(advance(lost.clone(), text("again")).state, lost);
}

#[test]
fn signature_is_made_when_the_email_arrives() {
    let tree = id(0x07);
    let state = State {
        push: false,
        stage: Stage::ReadingEmail { tree, name: String::from("Ada Lovelace") },
    };
    let step = advance(state, text("ada@example.org"));
    assert_eq!(step.state, State { push: false, stage: Stage::ResolvingHead { tree } });
    match step.signing {
        Some(Ok(signature)) => {
            assert_eq!(signature.name().ok(), Some("Ada Lovelace"));
            assert_eq!(signature.email().ok(), Some("ada@example.org"));
            assert!(signature.when().seconds() > 0);
        }
        _ => panic!("no signature was made"),
    }
}

#[test]
fn signature_is_made_by_the_git_library() {
    // The Git library cuts blanks off both ends.
    let state = State {
        push: true,
        stage: Stage::ReadingEmail { tree: id(7), name: String::from("  Ada Lovelace ") },
    };
    let step = advance(state, text(" ada@example.org"));
    assert_eq!(step.state.request(), Action::ResolveHead);
    match step.signing {
        Some(Ok(signature)) => {
            assert_eq!(signature.name().ok(), Some("Ada Lovelace"));
            assert_eq!(signature.email().ok(), Some("ada@example.org"));
        }
        _ => panic!("no signature was made"),
    }
}

#[test]
fn no_other_step_makes_a_signature() {
    let mut state = start(true);
    let mut outcomes = to_commit(id(3), Some(id(4)));
    outcomes.push(Outcome::Id(id(5)));
    outcomes.push(Outcome::Done);
    outcomes.push(Outcome::Done);
    outcomes.push(Outcome::Done);
    let mut made = Vec::new();
    for outcome in outcomes {
        let step = advance(state, outcome);
        made.push(step.signing.is_some());
        state = step.state;
    }
    assert_eq!(
        made,
        vec![false, false, false, false, false, true, false, false, false, false, false, false]
    );
    let state = State { push: false, stage: Stage::ReadingEmail { tree: id(3), name: String::new() } };
    assert!(advance(state, Outcome::Failed).signing.is_none());
}

#[test]
fn angle_brackets_in_the_name_are_refused() {
    let state = State {
        push: false,
        stage: Stage::ReadingEmail { tree: id(7), name: String::from("Ada <Lovelace>") },
    };
    let step = advance(state, text("ada@example.org"));
    assert_eq!(
        step.state,
        failed(
            false,
            Failure::Signature {
                name: String::from("Ada <Lovelace>"),
                email: String::from("ada@example.org"),
            }
        )
    );
    assert!(matches!(step.signing, Some(Err(_))));
    assert_eq!(step.state.request(), Action::Stop);
}

#[test]
fn angle_brackets_in_the_email_are_refused() {
    let state = State {
        push: false,
        stage: Stage::ReadingEmail { tree: id(7), name: String::from("Ada") },
    };
    let step = advance(state, text("<ada@example.org>"));
    assert_eq!(
        step.state,
        failed(
            false,
            Failure::Signature {
                name: String::from("Ada"),
                email: String::from("<ada@example.org>"),
            }
        )
    );
    assert!(matches!(step.signing, Some(Err(_))));
}

#[test]
fn empty_name_is_refused() {
    let state = State {
        push: false,
        stage: Stage::ReadingEmail { tree: id(7), name: String::new() },
    };
    let step = advance(state, text("ada@example.org"));
    assert_eq!(
        step.state,
        failed(
            false,
            Failure::Signature { name: String::new(), email: String::from("ada@example.org") }
        )
    );
    assert!(matches!(step.signing, Some(Err(_))));
}

#[test]
fn empty_email_is_refused() {
    let state = State {
        push: false,
        stage: Stage::ReadingEmail { tree: id(7), name: String::from("Ada") },
    };
    let step = advance(state, text(""));
    assert_eq!(
        step.state,
        failed(false, Failure::Signature { name: String::from("Ada"), email: String::new() })
    );
    assert!(matches!(step.signing, Some(Err(_))));
}

#[test]
fn refused_signature_commits_nothing() {
    let mut state = start(false);
    let outcomes = vec![
        Outcome::Done,
        Outcome::Id(id(3)),
        Outcome::Done,
        Outcome::Done,
        text("Ada"),
        text("a>b"),
        Outcome::Done,
        Outcome::Id(id(4)),
        Outcome::Id(id(5)),
    ];
    for outcome in outcomes {
        assert!(!matches!(state.request(), Action::Commit { .. }));
        state = advance(state, outcome).state;
    }
    assert_eq!(
        state,
        failed(false, Failure::Signature { name: String::from("Ada"), email: String::from("a>b") })
    );
    assert_eq!(
        state.stage,
        Stage::Failed {
            failure: Failure::Signature { name: String::from("Ada"), email: String::from("a>b") },
            made: None
        }
    );
}

#[test]
fn after_signing_goes_on_with_a_signature() {
    let tree = id(0x31);
    let made = git2::Signature::now("Ada", "ada@example.org");
    let step =
        after_signing(true, tree, String::from("Ada"), String::from("ada@example.org"), made);
    assert_eq!(step.state, State { push: true, stage: Stage::ResolvingHead { tree } });
    assert!(matches!(step.signing, Some(Ok(_))));
}

#[test]
fn after_signing_fails_without_a_signature() {
    let tree = id(0x31);
    let made = Err(git2::Error::from_str("refused"));
    let step =
        after_signing(true, tree, String::from("Ada"), String::from("ada@example.org"), made);
    assert_eq!(
        step.state,
        failed(
            true,
            Failure::Signature {
                name: String::from("Ada"),
                email: String::from("ada@example.org"),
            }
        )
    );
    match step.signing {
        Some(Err(error)) => assert_eq!(error.message(), "refused"),
        _ => panic!("the error was not handed back"),
    }
}

#[test]
fn tree_is_carried_to_the_commit() {
    let tree = id(0xee);
    let mut state = start(false);
    for outcome in to_commit(tree, Some(id(1))) {
        state = advance(state, outcome).state;
    }
    match state.request() {
        Action::Commit { tree: committed, .. } => assert_eq!(committed, tree),
        _ => panic!("no commit was asked for"),
    }
}
