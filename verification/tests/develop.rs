use git_flow::branches::{contains_branch, develop_exists, exists_locally_or_remotely, loaded_contains};
use git_flow::develop::{DevelopSetup, GitOp, SetupPhase};
use git_flow::runner::Outcome;

fn s(x: &str) -> String {
    x.to_string()
}

fn run(local: bool, remote: bool, outcomes: Vec<Outcome>) -> (Vec<String>, Vec<GitOp>, DevelopSetup) {
    let mut setup = DevelopSetup::new(local, remote);
    let mut messages = Vec::new();
    let mut ops = Vec::new();
    for o in outcomes {
        let step = setup.next(o);
        messages.extend(step.messages);
        if let Some(op) = step.op {
            ops.push(op);
        }
    }
    (messages, ops, setup)
}

fn ok3() -> Vec<Outcome> {
    vec![Outcome::Succeeded, Outcome::Succeeded, Outcome::Succeeded]
}

#[test]
fn develop_missing_everywhere_is_created_and_pushed() {
    let (m, ops, setup) = run(false, false, ok3());
    assert_eq!(ops, vec![GitOp::CreateBranch(s("develop")), GitOp::Push]);
    assert_eq!(
        m,
        vec![
            s("Creating local develop branch..."),
            s("  Local develop branch created"),
            s("Pushing to remote..."),
            s("  Remote branch develop pushed succesfully"),
            s("Process finished succesfully"),
        ]
    );
    assert_eq!(setup.phase, SetupPhase::Done);
}

#[test]
fn develop_only_remote_is_checked_out() {
    let (m, ops, _) = run(false, true, ok3());
    assert_eq!(ops, vec![GitOp::Checkout(s("develop"))]);
    assert_eq!(
        m,
        vec![
            s("Checking out the develop branch..."),
            s("  Checked out develop branch"),
            s("Process finished succesfully"),
        ]
    );
}

#[test]
fn develop_only_local_is_pushed() {
    let (m, ops, _) = run(true, false, ok3());
    assert_eq!(ops, vec![GitOp::Push]);
    assert_eq!(m.last(), Some(&s("Process finished succesfully")));
}

#[test]
fn develop_everywhere_needs_nothing() {
    let (m, ops, setup) = run(true, true, ok3());
    assert!(ops.is_empty());
    assert_eq!(m, vec![s("Process finished succesfully")]);
    assert_eq!(setup.phase, SetupPhase::Done);
}

#[test]
fn failed_checkout_stops_setup() {
    let (m, ops, _) = run(false, true, vec![Outcome::Succeeded, Outcome::Failed(s("boom")), Outcome::Succeeded]);
    assert_eq!(ops, vec![GitOp::Checkout(s("develop"))]);
    assert_eq!(
        m,
        vec![s("Checking out the develop branch..."), s("Failed to check out the develop branch: boom")]
    );
}

#[test]
fn failed_creation_stops_setup() {
    let (m, ops, _) = run(false, false, vec![Outcome::Succeeded, Outcome::Failed(s("e")), Outcome::Succeeded]);
    assert_eq!(ops, vec![GitOp::CreateBranch(s("develop"))]);
    assert_eq!(m, vec![s("Creating local develop branch..."), s("Error creating develop branch: e")]);
}

#[test]
fn failed_push_still_finishes() {
    let (m, ops, _) = run(true, false, vec![Outcome::Succeeded, Outcome::Failed(s("rejected"))]);
    assert_eq!(ops, vec![GitOp::Push]);
    assert_eq!(
        m,
        vec![
            s("Pushing to remote..."),
            s("Error pushing develop to remote: rejected"),
            s("Process finished succesfully"),
        ]
    );
}

#[test]
fn branch_lookups() {
    let list = vec![s("a"), s("develop"), s("b")];
    assert!(contains_branch(&list, &s("develop")));
    assert!(!contains_branch(&list, &s("dev")));
    assert!(!loaded_contains(&None, &s("a")));
    assert!(loaded_contains(&Some(list.clone()), &s("b")));
    assert!(exists_locally_or_remotely(&None, &Some(vec![s("x")]), &s("x")));
    assert!(exists_locally_or_remotely(&Some(vec![s("x")]), &None, &s("x")));
    assert!(!exists_locally_or_remotely(&Some(vec![s("x")]), &Some(vec![s("y")]), &s("z")));
    assert!(develop_exists(&None, &Some(list)));
    assert!(!develop_exists(&None, &None));
    assert!(!develop_exists(&Some(vec![s("main")]), &Some(vec![s("origin/develop")])));
}
