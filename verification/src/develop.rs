use vstd::prelude::*;

use crate::runner::{Outcome, OutcomeView};

verus! {

/// A git operation that setting up `develop` may need.
#[derive(Debug, PartialEq, Eq)]
pub enum GitOp {
    /// Check out the named branch, which exists on the remote.
    Checkout(String),
    /// Create the named branch locally.
    CreateBranch(String),
    /// Push the current branch to the remote.
    Push,
}

/// The mathematical value of a [`GitOp`].
pub enum GitOpView {
    Checkout(Seq<char>),
    CreateBranch(Seq<char>),
    Push,
}

impl View for GitOp {
    type V = GitOpView;

    open spec fn view(&self) -> GitOpView {
        match self {
            GitOp::Checkout(b) => GitOpView::Checkout(b@),
            GitOp::CreateBranch(b) => GitOpView::CreateBranch(b@),
            GitOp::Push => GitOpView::Push,
        }
    }
}

/// How far the set-up of `develop` has come.
#[derive(Debug, Clone, Copy, PartialEq, Eq, Structural)]
pub enum SetupPhase {
    /// Nothing done yet.
    Begin,
    /// Waiting for the check-out of the remote `develop`.
    AwaitCheckout,
    /// Waiting for the creation of a local `develop`.
    AwaitCreate,
    /// Waiting for the push of `develop`.
    AwaitPush,
    /// Over.
    Done,
}

/// The set-up of the `develop` branch: whether it existed locally and on
/// the remote when the set-up began, and how far the set-up has come.
#[derive(Debug, Clone, Copy, PartialEq, Eq, Structural)]
pub struct DevelopSetup {
    pub local_exists: bool,
    pub remote_exists: bool,
    pub phase: SetupPhase,
}

/// What one move of the set-up asks for: messages to report, in order,
/// and then the git operation to perform, if any. No operation means that
/// the set-up is over. The window that runs this set-up hands these
/// messages to its console's channel without awaiting the sends, so there
/// they never reach the console; only the operations and the end of the
/// set-up have an effect there.
pub struct SetupStep {
    pub messages: Vec<String>,
    pub op: Option<GitOp>,
}

/// The mathematical value of a [`SetupStep`].
pub struct SetupStepView {
    pub messages: Seq<Seq<char>>,
    pub op: Option<GitOpView>,
}

impl View for SetupStep {
    type V = SetupStepView;

    open spec fn view(&self) -> SetupStepView {
        SetupStepView {
            messages: self.messages@.map_values(|m: String| m@),
            op: match self.op {
                Some(o) => Some(o@),
                None => None,
            },
        }
    }
}

pub open spec fn msg_checking_out() -> Seq<char> { "Checking out the develop branch..."@ }
pub open spec fn msg_checkout_failed() -> Seq<char> { "Failed to check out the develop branch: "@ }
pub open spec fn msg_checked_out() -> Seq<char> { "  Checked out develop branch"@ }
pub open spec fn msg_creating() -> Seq<char> { "Creating local develop branch..."@ }
pub open spec fn msg_create_failed() -> Seq<char> { "Error creating develop branch: "@ }
pub open spec fn msg_created() -> Seq<char> { "  Local develop branch created"@ }
pub open spec fn msg_pushing() -> Seq<char> { "Pushing to remote..."@ }
pub open spec fn msg_push_failed() -> Seq<char> { "Error pushing develop to remote: "@ }
pub open spec fn msg_pushed() -> Seq<char> { "  Remote branch develop pushed succesfully"@ }
pub open spec fn msg_finished() -> Seq<char> { "Process finished succesfully"@ }

/// The move that follows once `develop` exists locally: push it if the
/// remote lacks it, else end.
pub open spec fn after_local_spec(s: DevelopSetup, shown: Seq<Seq<char>>) -> (DevelopSetup, SetupStepView) {
    if !s.remote_exists {
        (DevelopSetup { phase: SetupPhase::AwaitPush, ..s },
         SetupStepView { messages: shown.push(msg_pushing()), op: Some(GitOpView::Push) })
    } else {
        (DevelopSetup { phase: SetupPhase::Done, ..s },
         SetupStepView { messages: shown.push(msg_finished()), op: None })
    }
}

/// One move of the set-up of `develop`, given how the operation asked for
/// last went. A `develop` missing locally is checked out from the remote
/// if it is there, and created otherwise; a failure of either ends the
/// set-up at once. A `develop` missing on the remote is then pushed; a
/// failed push is reported and the set-up still ends as finished.
pub open spec fn setup_step(s: DevelopSetup, o: OutcomeView) -> (DevelopSetup, SetupStepView) {
    match s.phase {
        SetupPhase::Begin => {
            if !s.local_exists {
                if s.remote_exists {
                    (DevelopSetup { phase: SetupPhase::AwaitCheckout, ..s },
                     SetupStepView { messages: seq![msg_checking_out()], op: Some(GitOpView::Checkout("develop"@)) })
                } else {
                    (DevelopSetup { phase: SetupPhase::AwaitCreate, ..s },
                     SetupStepView { messages: seq![msg_creating()], op: Some(GitOpView::CreateBranch("develop"@)) })
                }
            } else {
                after_local_spec(s, Seq::empty())
            }
        },
        SetupPhase::AwaitCheckout => match o {
            OutcomeView::Failed(e) => (DevelopSetup { phase: SetupPhase::Done, ..s },
                SetupStepView { messages: seq![msg_checkout_failed() + e], op: None }),
            OutcomeView::Succeeded => after_local_spec(s, seq![msg_checked_out()]),
        },
        SetupPhase::AwaitCreate => match o {
            OutcomeView::Failed(e) => (DevelopSetup { phase: SetupPhase::Done, ..s },
                SetupStepView { messages: seq![msg_create_failed() + e], op: None }),
            OutcomeView::Succeeded => after_local_spec(s, seq![msg_created()]),
        },
        SetupPhase::AwaitPush => {
            let report = match o {
                OutcomeView::Failed(e) => msg_push_failed() + e,
                OutcomeView::Succeeded => msg_pushed(),
            };
            (DevelopSetup { phase: SetupPhase::Done, ..s },
             SetupStepView { messages: seq![report, msg_finished()], op: None })
        },
        SetupPhase::Done => (s, SetupStepView { messages: Seq::empty(), op: None }),
    }
}

/// A message made of a fixed text followed by an error's text.
fn with_error(text: &str, error: &String) -> (m: String)
    ensures
        m@ == text@ + error@,
{
    let mut m = String::from_str(text);
    m.append(error.as_str());
    m
}

impl DevelopSetup {
    /// The set-up of `develop`, given whether it exists locally and on the
    /// remote.
    pub fn new(local_exists: bool, remote_exists: bool) -> (s: DevelopSetup)
        ensures
            s == (DevelopSetup { local_exists, remote_exists, phase: SetupPhase::Begin }),
    {
        DevelopSetup { local_exists, remote_exists, phase: SetupPhase::Begin }
    }

    fn after_local(&mut self, shown: Vec<String>) -> (step: SetupStep)
        ensures
            (*final(self), step@) == after_local_spec(*old(self), shown@.map_values(|m: String| m@)),
    {
        let ghost before = shown@.map_values(|m: String| m@);
        let mut messages = shown;
        if !self.remote_exists {
            messages.push(String::from_str("Pushing to remote..."));
            self.phase = SetupPhase::AwaitPush;
            let step = SetupStep { messages, op: Some(GitOp::Push) };
            proof {
                assert(step@.messages =~= before.push(msg_pushing()));
            }
            step
        } else {
            messages.push(String::from_str("Process finished succesfully"));
            self.phase = SetupPhase::Done;
            let step = SetupStep { messages, op: None };
            proof {
                assert(step@.messages =~= before.push(msg_finished()));
            }
            step
        }
    }

    /// Reports how the operation asked for last went (ignored when none
    /// was asked for) and returns the next move.
    pub fn next(&mut self, outcome: Outcome) -> (step: SetupStep)
        ensures
            (*final(self), step@) == setup_step(*old(self), outcome@),
    {
        match self.phase {
            SetupPhase::Begin => {
                if !self.local_exists {
                    if self.remote_exists {
                        self.phase = SetupPhase::AwaitCheckout;
                        let step = SetupStep {
                            messages: vec![String::from_str("Checking out the develop branch...")],
                            op: Some(GitOp::Checkout(String::from_str("develop"))),
                        };
                        proof { assert(step@.messages =~= seq![msg_checking_out()]); }
                        step
                    } else {
                        self.phase = SetupPhase::AwaitCreate;
                        let step = SetupStep {
                            messages: vec![String::from_str("Creating local develop branch...")],
                            op: Some(GitOp::CreateBranch(String::from_str("develop"))),
                        };
                        proof { assert(step@.messages =~= seq![msg_creating()]); }
                        step
                    }
                } else {
                    let shown: Vec<String> = Vec::new();
                    proof { assert(shown@.map_values(|m: String| m@) =~= Seq::<Seq<char>>::empty()); }
                    self.after_local(shown)
                }
            },
            SetupPhase::AwaitCheckout => match outcome {
                Outcome::Failed(e) => {
                    self.phase = SetupPhase::Done;
                    let step = SetupStep {
                        messages: vec![with_error("Failed to check out the develop branch: ", &e)],
                        op: None,
                    };
                    proof { assert(step@.messages =~= seq![msg_checkout_failed() + e@]); }
                    step
                },
                Outcome::Succeeded => {
                    let shown = vec![String::from_str("  Checked out develop branch")];
                    proof { assert(shown@.map_values(|m: String| m@) =~= seq![msg_checked_out()]); }
                    self.after_local(shown)
                },
            },
            SetupPhase::AwaitCreate => match outcome {
                Outcome::Failed(e) => {
                    self.phase = SetupPhase::Done;
                    let step = SetupStep {
                        messages: vec![with_error("Error creating develop branch: ", &e)],
                        op: None,
                    };
                    proof { assert(step@.messages =~= seq![msg_create_failed() + e@]); }
                    step
                },
                Outcome::Succeeded => {
                    let shown = vec![String::from_str("  Local develop branch created")];
                    proof { assert(shown@.map_values(|m: String| m@) =~= seq![msg_created()]); }
                    self.after_local(shown)
                },
            },
            SetupPhase::AwaitPush => {
                let report = match &outcome {
                    Outcome::Failed(e) => with_error("Error pushing develop to remote: ", e),
                    Outcome::Succeeded => String::from_str("  Remote branch develop pushed succesfully"),
                };
                self.phase = SetupPhase::Done;
                let ghost r = report@;
                let step = SetupStep {
                    messages: vec![report, String::from_str("Process finished succesfully")],
                    op: None,
                };
                proof { assert(step@.messages =~= seq![r, msg_finished()]); }
                step
            },
            SetupPhase::Done => {
                let step = SetupStep { messages: Vec::new(), op: None };
                proof { assert(step@.messages =~= Seq::<Seq<char>>::empty()); }
                step
            },
        }
    }
}

/// The operation of a move, as a sequence of zero or one operations.
pub open spec fn op_seq(op: Option<GitOpView>) -> Seq<GitOpView> {
    match op {
        Some(o) => seq![o],
        None => Seq::empty(),
    }
}

/// The messages shown and the operations asked for over the moves whose
/// reported outcomes are `outcomes`, and the state reached.
pub open spec fn setup_run(s: DevelopSetup, outcomes: Seq<OutcomeView>) -> (Seq<Seq<char>>, Seq<GitOpView>, DevelopSetup)
    decreases outcomes.len(),
{
    if outcomes.len() == 0 {
        (Seq::empty(), Seq::empty(), s)
    } else {
        let (next, st) = setup_step(s, outcomes[0]);
        let rest = setup_run(next, outcomes.drop_first());
        (st.messages + rest.0, op_seq(st.op) + rest.1, rest.2)
    }
}

/// The operations the set-up of `develop` performs when they all succeed:
/// a check-out of the remote `develop` if only the remote has it, its
/// creation if neither has it, and a push if the remote lacks it.
pub open spec fn develop_ops(local_exists: bool, remote_exists: bool) -> Seq<GitOpView> {
    (if local_exists {
        Seq::empty()
    } else if remote_exists {
        seq![GitOpView::Checkout("develop"@)]
    } else {
        seq![GitOpView::CreateBranch("develop"@)]
    }) + (if remote_exists { Seq::empty() } else { seq![GitOpView::Push] })
}

/// When every operation succeeds, the set-up of `develop` performs exactly
/// the operations of [`develop_ops`], ends within three moves, and its
/// last message says that the process finished.
pub proof fn law_setup_succeeds(local_exists: bool, remote_exists: bool)
    ensures
        ({
            let ok = seq![OutcomeView::Succeeded, OutcomeView::Succeeded, OutcomeView::Succeeded];
            let run = setup_run(DevelopSetup { local_exists, remote_exists, phase: SetupPhase::Begin }, ok);
            &&& run.1 == develop_ops(local_exists, remote_exists)
            &&& run.0.last() == msg_finished()
            &&& run.2.phase == SetupPhase::Done
        }),
{
    reveal_with_fuel(setup_run, 4);
    let ok = seq![OutcomeView::Succeeded, OutcomeView::Succeeded, OutcomeView::Succeeded];
    let s0 = DevelopSetup { local_exists, remote_exists, phase: SetupPhase::Begin };
    let (s1, a) = setup_step(s0, ok[0]);
    let (s2, b) = setup_step(s1, ok[1]);
    let (s3, c) = setup_step(s2, ok[2]);
    let (s4, d) = setup_step(s3, OutcomeView::Succeeded);
    assert(ok.drop_first() =~= seq![OutcomeView::Succeeded, OutcomeView::Succeeded]);
    assert(ok.drop_first().drop_first() =~= seq![OutcomeView::Succeeded]);
    assert(ok.drop_first().drop_first().drop_first() =~= Seq::<OutcomeView>::empty());
    let run = setup_run(s0, ok);
    assert(run.1 =~= develop_ops(local_exists, remote_exists));
    assert(run.0.last() == msg_finished());
}

/// When `develop` is missing locally and checking it out or creating it
/// fails, the set-up ends at once: nothing is pushed, the error is
/// reported, and no message says that the process finished.
pub proof fn law_setup_stops_when_local_fails(remote_exists: bool, e: Seq<char>, later: OutcomeView)
    ensures
        ({
            let outcomes = seq![OutcomeView::Succeeded, OutcomeView::Failed(e), later];
            let run = setup_run(DevelopSetup { local_exists: false, remote_exists, phase: SetupPhase::Begin }, outcomes);
            &&& run.1 == develop_ops(false, remote_exists).take(1)
            &&& run.0.last() == (if remote_exists { msg_checkout_failed() } else { msg_create_failed() }) + e
            &&& !run.0.contains(msg_finished())
            &&& run.2.phase == SetupPhase::Done
        }),
{
    reveal_with_fuel(setup_run, 4);
    let outcomes = seq![OutcomeView::Succeeded, OutcomeView::Failed(e), later];
    let s0 = DevelopSetup { local_exists: false, remote_exists, phase: SetupPhase::Begin };
    assert(outcomes.drop_first() =~= seq![OutcomeView::Failed(e), later]);
    assert(outcomes.drop_first().drop_first() =~= seq![later]);
    assert(outcomes.drop_first().drop_first().drop_first() =~= Seq::<OutcomeView>::empty());
    let run = setup_run(s0, outcomes);
    assert(run.1 =~= develop_ops(false, remote_exists).take(1));
    let failed = (if remote_exists { msg_checkout_failed() } else { msg_create_failed() }) + e;
    let first = if remote_exists { msg_checking_out() } else { msg_creating() };
    assert(run.0 =~= seq![first, failed]);
    reveal_strlit("Process finished succesfully");
    reveal_strlit("Checking out the develop branch...");
    reveal_strlit("Creating local develop branch...");
    reveal_strlit("Failed to check out the develop branch: ");
    reveal_strlit("Error creating develop branch: ");
    assert(first[0] != msg_finished()[0]);
    assert(failed[0] != msg_finished()[0]);
}

/// A failed push of `develop` is reported, and the set-up still ends with
/// the message that the process finished.
pub proof fn law_setup_push_failure_still_finishes(local_exists: bool, e: Seq<char>)
    ensures
        ({
            let outcomes = if local_exists {
                seq![OutcomeView::Succeeded, OutcomeView::Failed(e)]
            } else {
                seq![OutcomeView::Succeeded, OutcomeView::Succeeded, OutcomeView::Failed(e)]
            };
            let run = setup_run(DevelopSetup { local_exists, remote_exists: false, phase: SetupPhase::Begin }, outcomes);
            &&& run.1.last() == GitOpView::Push
            &&& run.0.last() == msg_finished()
            &&& run.0[run.0.len() - 2] == msg_push_failed() + e
            &&& run.2.phase == SetupPhase::Done
        }),
{
    reveal_with_fuel(setup_run, 4);
    let outcomes = if local_exists {
        seq![OutcomeView::Succeeded, OutcomeView::Failed(e)]
    } else {
        seq![OutcomeView::Succeeded, OutcomeView::Succeeded, OutcomeView::Failed(e)]
    };
    let s0 = DevelopSetup { local_exists, remote_exists: false, phase: SetupPhase::Begin };
    if local_exists {
        assert(outcomes.drop_first() =~= seq![OutcomeView::Failed(e)]);
        assert(outcomes.drop_first().drop_first() =~= Seq::<OutcomeView>::empty());
        let run = setup_run(s0, outcomes);
        assert(run.0 =~= seq![msg_pushing(), msg_push_failed() + e, msg_finished()]);
        assert(run.1 =~= seq![GitOpView::Push]);
    } else {
        assert(outcomes.drop_first() =~= seq![OutcomeView::Succeeded, OutcomeView::Failed(e)]);
        assert(outcomes.drop_first().drop_first() =~= seq![OutcomeView::Failed(e)]);
        assert(outcomes.drop_first().drop_first().drop_first() =~= Seq::<OutcomeView>::empty());
        let run = setup_run(s0, outcomes);
        assert(run.0 =~= seq![msg_creating(), msg_created(), msg_pushing(), msg_push_failed() + e, msg_finished()]);
        assert(run.1 =~= seq![GitOpView::CreateBranch("develop"@), GitOpView::Push]);
    }
}

/// A set-up that is over stays over: it shows nothing and asks for no
/// operation.
pub proof fn law_setup_done_stays_done(s: DevelopSetup, o: OutcomeView)
    requires
        s.phase == SetupPhase::Done,
    ensures
        setup_step(s, o) == (s, SetupStepView { messages: Seq::empty(), op: None }),
{
}

} // verus!
