use git_flow::pipeline::{Precondition, Step};
use git_flow::plans::feature_start;
use git_flow::runner::{FlowRun, Outcome, RunAction};

fn s(x: &str) -> String {
    x.to_string()
}

#[test]
fn run_asks_for_everything_in_order_when_all_succeed() {
    let mut run = FlowRun::new(feature_start("login"));
    let mut actions = Vec::new();
    loop {
        let a = run.next(Outcome::Succeeded);
        let done = matches!(a, RunAction::Finish(_));
        actions.push(a);
        if done {
            break;
        }
    }
    assert_eq!(
        actions,
        vec![
            RunAction::Send(s("Starting creation of feature login...")),
            RunAction::Check(Precondition::RequiresMissingBranch(s("feature/login"))),
            RunAction::Execute(Step::Checkout(s("develop"))),
            RunAction::Execute(Step::Pull),
            RunAction::Execute(Step::CreateBranch(s("feature/login"))),
            RunAction::Send(s("Feature started succesfully")),
            RunAction::Finish(Ok(())),
        ]
    );
    assert!(run.is_finished());
    assert_eq!(run.next(Outcome::Failed(s("late"))), RunAction::Finish(Ok(())));
}

#[test]
fn run_stops_at_failed_precondition() {
    let mut run = FlowRun::new(feature_start("login"));
    assert_eq!(run.next(Outcome::Succeeded), RunAction::Send(s("Starting creation of feature login...")));
    assert_eq!(
        run.next(Outcome::Failed(s("ignored: a message cannot fail"))),
        RunAction::Check(Precondition::RequiresMissingBranch(s("feature/login")))
    );
    assert_eq!(run.next(Outcome::Failed(s("branch exists"))), RunAction::Finish(Err(s("branch exists"))));
    assert!(run.is_finished());
    assert_eq!(run.next(Outcome::Succeeded), RunAction::Finish(Err(s("branch exists"))));
}

#[test]
fn run_stops_at_failed_step() {
    let mut run = FlowRun::new(feature_start("x"));
    run.next(Outcome::Succeeded);
    run.next(Outcome::Succeeded);
    assert_eq!(run.next(Outcome::Succeeded), RunAction::Execute(Step::Checkout(s("develop"))));
    assert_eq!(run.next(Outcome::Failed(s("no develop"))), RunAction::Finish(Err(s("no develop"))));
    assert!(run.is_finished());
}
