use vstd::prelude::*;

use crate::pipeline::{Precondition, PreconditionView, Step, StepView};
use crate::plans::{FlowPlan, FlowPlanView};

verus! {

/// What the runner of a flow asks its caller to do next.
#[derive(Debug, PartialEq, Eq)]
pub enum RunAction {
    /// Show the message to the user; the outcome is not looked at.
    Send(String),
    /// Check that the repository meets the condition.
    Check(Precondition),
    /// Run the git operation.
    Execute(Step),
    /// The flow is over, with this result: an error carries the message of
    /// the condition or operation that failed.
    Finish(Result<(), String>),
}

/// The mathematical value of a [`RunAction`].
pub enum RunActionView {
    Send(Seq<char>),
    Check(PreconditionView),
    Execute(StepView),
    Finish(Result<(), Seq<char>>),
}

impl View for RunAction {
    type V = RunActionView;

    open spec fn view(&self) -> RunActionView {
        match self {
            RunAction::Send(m) => RunActionView::Send(m@),
            RunAction::Check(c) => RunActionView::Check(c@),
            RunAction::Execute(s) => RunActionView::Execute(s@),
            RunAction::Finish(Ok(())) => RunActionView::Finish(Ok(())),
            RunAction::Finish(Err(e)) => RunActionView::Finish(Err(e@)),
        }
    }
}

/// How the last action that the runner asked for went.
#[derive(Debug, Clone, PartialEq, Eq)]
pub enum Outcome {
    Succeeded,
    /// The condition did not hold or the operation failed, with a message.
    Failed(String),
}

/// The mathematical value of an [`Outcome`].
pub enum OutcomeView {
    Succeeded,
    Failed(Seq<char>),
}

impl View for Outcome {
    type V = OutcomeView;

    open spec fn view(&self) -> OutcomeView {
        match self {
            Outcome::Succeeded => OutcomeView::Succeeded,
            Outcome::Failed(e) => OutcomeView::Failed(e@),
        }
    }
}

/// Every action a flow asks for when everything succeeds, in order: the
/// opening message, a check of each condition, each operation, and the
/// closing message.
pub open spec fn plan_actions(plan: FlowPlanView) -> Seq<RunActionView> {
    seq![RunActionView::Send(plan.start_message)]
        + plan.pipeline.preconditions.map_values(|c: PreconditionView| RunActionView::Check(c))
        + plan.pipeline.steps.map_values(|s: StepView| RunActionView::Execute(s))
        + seq![RunActionView::Send(plan.success_message)]
}

/// The state of a running flow: its plan, how many of its actions it has
/// asked for, and its result once it is over.
pub struct FlowRunView {
    pub plan: FlowPlanView,
    pub issued: int,
    pub result: Option<Result<(), Seq<char>>>,
}

/// The state in which a flow begins.
pub open spec fn run_init(plan: FlowPlanView) -> FlowRunView {
    FlowRunView { plan, issued: 0, result: None }
}

/// Whether an action reports an outcome that can stop the flow.
pub open spec fn can_fail(a: RunActionView) -> bool {
    a is Check || a is Execute
}

/// One move of a flow: given the outcome of the action asked for last, the
/// next state and the next action. A failed condition or operation ends the
/// flow with its message; once all actions have been asked for, the flow
/// ends with success; once over, it stays over.
pub open spec fn run_step(s: FlowRunView, o: OutcomeView) -> (FlowRunView, RunActionView) {
    let actions = plan_actions(s.plan);
    match s.result {
        Some(r) => (s, RunActionView::Finish(r)),
        None => {
            if s.issued > 0 && can_fail(actions[s.issued - 1]) && o is Failed {
                let e = o->Failed_0;
                (FlowRunView { result: Some(Err(e)), ..s }, RunActionView::Finish(Err(e)))
            } else if s.issued < actions.len() {
                (FlowRunView { issued: s.issued + 1, ..s }, actions[s.issued])
            } else {
                (FlowRunView { result: Some(Ok(())), ..s }, RunActionView::Finish(Ok(())))
            }
        }
    }
}

/// The actions asked for when the outcomes of a run are `outcomes`, one
/// move per outcome.
pub open spec fn run_actions(s: FlowRunView, outcomes: Seq<OutcomeView>) -> Seq<RunActionView>
    decreases outcomes.len(),
{
    if outcomes.len() == 0 {
        Seq::empty()
    } else {
        let (next, a) = run_step(s, outcomes[0]);
        seq![a] + run_actions(next, outcomes.drop_first())
    }
}

/// Drives one flow through its plan: the caller performs each action it
/// gets and reports how it went with the next call.
pub struct FlowRun {
    plan: FlowPlan,
    started: bool,
    checked: usize,
    executed: usize,
    closed: bool,
    result: Option<Result<(), String>>,
}

impl View for FlowRun {
    type V = FlowRunView;

    closed spec fn view(&self) -> FlowRunView {
        FlowRunView {
            plan: self.plan@,
            issued: (if self.started { 1int } else { 0int }) + self.checked + self.executed
                + (if self.closed { 1int } else { 0int }),
            result: match self.result {
                None => None,
                Some(Ok(())) => Some(Ok(())),
                Some(Err(e)) => Some(Err(e@)),
            },
        }
    }
}

impl FlowRun {
    #[verifier::type_invariant]
    closed spec fn wf(self) -> bool {
        &&& self.checked <= self.plan.pipeline.preconditions.len()
        &&& self.executed <= self.plan.pipeline.steps.len()
        &&& !self.started ==> self.checked == 0 && self.executed == 0
        &&& self.executed > 0 ==> self.checked == self.plan.pipeline.preconditions.len()
        &&& self.closed ==> self.started && self.checked == self.plan.pipeline.preconditions.len()
            && self.executed == self.plan.pipeline.steps.len()
    }

    /// A run of `plan` that has asked for nothing yet.
    pub fn new(plan: FlowPlan) -> (run: FlowRun)
        ensures
            run@ == run_init(plan@),
    {
        FlowRun { plan, started: false, checked: 0, executed: 0, closed: false, result: None }
    }

    /// Whether the flow is over.
    pub fn is_finished(&self) -> (b: bool)
        ensures
            b == (self@.result is Some),
    {
        self.result.is_some()
    }

    /// Reports the outcome of the action asked for last (ignored on the
    /// first call, when nothing has been asked for) and returns the next
    /// action.
    pub fn next(&mut self, outcome: Outcome) -> (action: RunAction)
        ensures
            (final(self)@, action@) == run_step(old(self)@, outcome@),
    {
        proof {
            use_type_invariant(&*self);
        }
        let ghost s = self@;
        let ghost actions = plan_actions(s.plan);
        let ghost pre = s.plan.pipeline.preconditions;
        let ghost steps = s.plan.pipeline.steps;
        proof {
            assert(actions.len() == pre.len() + steps.len() + 2);
            assert(actions[0] == RunActionView::Send(s.plan.start_message));
            assert(actions[(pre.len() + steps.len() + 1) as int] == RunActionView::Send(s.plan.success_message));
            assert forall|i: int| 0 <= i < pre.len() implies #[trigger] actions[1 + i] == RunActionView::Check(pre[i]) by {}
            assert forall|i: int| 0 <= i < steps.len() implies #[trigger] actions[1 + pre.len() + i] == RunActionView::Execute(steps[i]) by {}
        }
        match &self.result {
            Some(Ok(())) => {
                return RunAction::Finish(Ok(()));
            },
            Some(Err(e)) => {
                return RunAction::Finish(Err(e.clone()));
            },
            None => {},
        }
        let last_can_fail = self.started && !self.closed && (self.checked > 0 || self.executed > 0);
        proof {
            if s.issued > 0 {
                let k = s.issued - 1;
                if self.closed {
                    assert(actions[k] == RunActionView::Send(s.plan.success_message));
                } else if self.executed > 0 {
                    assert(actions[1 + pre.len() + (self.executed - 1)] == RunActionView::Execute(steps[self.executed - 1]));
                } else if self.checked > 0 {
                    assert(actions[1 + (self.checked - 1)] == RunActionView::Check(pre[self.checked - 1]));
                } else {
                    assert(actions[0] == RunActionView::Send(s.plan.start_message));
                }
            }
            assert(last_can_fail == (s.issued > 0 && can_fail(actions[s.issued - 1])));
        }
        if last_can_fail {
            if let Outcome::Failed(e) = outcome {
                self.result = Some(Err(e.clone()));
                return RunAction::Finish(Err(e));
            }
        }
        if !self.started {
            self.started = true;
            RunAction::Send(self.plan.start_message.clone())
        } else if self.checked < self.plan.pipeline.preconditions.len() {
            let c = self.plan.pipeline.preconditions[self.checked].duplicate();
            self.checked = self.checked + 1;
            RunAction::Check(c)
        } else if self.executed < self.plan.pipeline.steps.len() {
            let st = self.plan.pipeline.steps[self.executed].duplicate();
            self.executed = self.executed + 1;
            RunAction::Execute(st)
        } else if !self.closed {
            self.closed = true;
            RunAction::Send(self.plan.success_message.clone())
        } else {
            self.result = Some(Ok(()));
            RunAction::Finish(Ok(()))
        }
    }
}

/// The runs that see only successes, from the state that has asked for
/// `s.issued` actions: they ask for the remaining actions and then end with
/// success.
proof fn lemma_run_from_succeeds(s: FlowRunView, outcomes: Seq<OutcomeView>)
    requires
        s.result is None,
        0 <= s.issued <= plan_actions(s.plan).len(),
        outcomes.len() == plan_actions(s.plan).len() + 1 - s.issued,
        forall|j: int| 0 <= j < outcomes.len() ==> #[trigger] outcomes[j] is Succeeded,
    ensures
        run_actions(s, outcomes) == plan_actions(s.plan).skip(s.issued).push(RunActionView::Finish(Ok(()))),
    decreases outcomes.len(),
{
    let actions = plan_actions(s.plan);
    let (next, a) = run_step(s, outcomes[0]);
    assert(run_actions(s, outcomes) == seq![a] + run_actions(next, outcomes.drop_first()));
    if s.issued < actions.len() {
        assert(next.issued == s.issued + 1);
        lemma_run_from_succeeds(next, outcomes.drop_first());
        assert(actions.skip(s.issued) =~= seq![actions[s.issued]] + actions.skip(s.issued + 1));
    } else {
        assert(outcomes.drop_first().len() == 0);
        assert(actions.skip(s.issued) =~= Seq::<RunActionView>::empty());
    }
    assert(run_actions(s, outcomes) =~= plan_actions(s.plan).skip(s.issued).push(RunActionView::Finish(Ok(()))));
}

/// When every condition holds and every operation succeeds, a flow asks,
/// in order, for its opening message, the check of each condition, each
/// operation and its closing message, and then ends with success.
pub proof fn law_run_succeeds(plan: FlowPlanView, outcomes: Seq<OutcomeView>)
    requires
        outcomes.len() == plan_actions(plan).len() + 1,
        forall|j: int| 0 <= j < outcomes.len() ==> #[trigger] outcomes[j] is Succeeded,
    ensures
        run_actions(run_init(plan), outcomes) == plan_actions(plan).push(RunActionView::Finish(Ok(()))),
{
    lemma_run_from_succeeds(run_init(plan), outcomes);
    assert(plan_actions(plan).skip(0) =~= plan_actions(plan));
}

/// The runs that fail at the action with index `i - 1`, from a state that
/// has asked for `s.issued <= i` actions.
proof fn lemma_run_from_fails(s: FlowRunView, outcomes: Seq<OutcomeView>, i: int, e: Seq<char>)
    requires
        s.result is None,
        0 <= s.issued <= i,
        1 <= i <= plan_actions(s.plan).len(),
        can_fail(plan_actions(s.plan)[i - 1]),
        outcomes.len() == i + 1 - s.issued,
        forall|j: int| 0 <= j < outcomes.len() - 1 ==> #[trigger] outcomes[j] is Succeeded,
        outcomes[outcomes.len() - 1] == OutcomeView::Failed(e),
    ensures
        run_actions(s, outcomes) == plan_actions(s.plan).subrange(s.issued, i).push(RunActionView::Finish(Err(e))),
    decreases outcomes.len(),
{
    let actions = plan_actions(s.plan);
    let (next, a) = run_step(s, outcomes[0]);
    assert(run_actions(s, outcomes) == seq![a] + run_actions(next, outcomes.drop_first()));
    if s.issued < i {
        assert(outcomes[0] is Succeeded);
        assert(next.issued == s.issued + 1);
        assert(a == actions[s.issued]);
        let rest = outcomes.drop_first();
        assert(rest[rest.len() - 1] == outcomes[outcomes.len() - 1]);
        lemma_run_from_fails(next, rest, i, e);
        assert(actions.subrange(s.issued, i) =~= seq![actions[s.issued]] + actions.subrange(s.issued + 1, i));
    } else {
        assert(outcomes.len() == 1);
        assert(a == RunActionView::Finish(Err(e)));
        assert(outcomes.drop_first().len() == 0);
        assert(actions.subrange(s.issued, i) =~= Seq::<RunActionView>::empty());
    }
    assert(run_actions(s, outcomes) =~= actions.subrange(s.issued, i).push(RunActionView::Finish(Err(e))));
}

/// A failed condition or operation stops the flow: the actions asked for
/// are those up to the failed one, followed by the end of the flow with
/// the failure's message. No later operation runs and the closing message
/// is not sent.
pub proof fn law_run_stops_at_failure(plan: FlowPlanView, outcomes: Seq<OutcomeView>, i: int, e: Seq<char>)
    requires
        1 <= i <= plan_actions(plan).len(),
        can_fail(plan_actions(plan)[i - 1]),
        outcomes.len() == i + 1,
        forall|j: int| 0 <= j < i ==> #[trigger] outcomes[j] is Succeeded,
        outcomes[i] == OutcomeView::Failed(e),
    ensures
        run_actions(run_init(plan), outcomes) == plan_actions(plan).take(i).push(RunActionView::Finish(Err(e))),
{
    lemma_run_from_fails(run_init(plan), outcomes, i, e);
    assert(plan_actions(plan).subrange(0, i) =~= plan_actions(plan).take(i));
}

/// A flow that is over stays over: whatever is reported, it asks for
/// nothing but its end, with the same result.
pub proof fn law_run_over_stays_over(s: FlowRunView, o: OutcomeView)
    requires
        s.result is Some,
    ensures
        run_step(s, o) == (s, RunActionView::Finish(s.result.unwrap())),
{
}

/// Every condition is checked before any operation runs, and the opening
/// message comes first and the closing message last.
pub proof fn law_conditions_before_operations(plan: FlowPlanView, i: int, j: int)
    requires
        0 <= i < j < plan_actions(plan).len(),
        plan_actions(plan)[j] is Check,
    ensures
        !(plan_actions(plan)[i] is Execute),
        plan_actions(plan)[0] == RunActionView::Send(plan.start_message),
        plan_actions(plan).last() == RunActionView::Send(plan.success_message),
{
    let actions = plan_actions(plan);
    let pre = plan.pipeline.preconditions;
    let steps = plan.pipeline.steps;
    assert(actions.len() == pre.len() + steps.len() + 2);
    if 1 + pre.len() <= j < 1 + pre.len() + steps.len() {
        assert(actions[j] == RunActionView::Execute(steps[j - 1 - pre.len()]));
    }
    if j == actions.len() - 1 {
        assert(actions[j] == RunActionView::Send(plan.success_message));
    }
    assert(j <= pre.len());
    if 1 <= i {
        assert(actions[i] == RunActionView::Check(pre[i - 1]));
    }
}

/// Any git operation of a flow can fail and stop it, whatever the
/// operation: when the conditions hold and the operations before step `j`
/// succeed, a failure reported for step `j` ends the run right after that
/// step with the failure's message. The run has asked for the opening
/// message, every check, and the steps up to `j`, and for nothing after.
pub proof fn law_failed_step_stops_run(plan: FlowPlanView, j: int, outcomes: Seq<OutcomeView>, e: Seq<char>)
    requires
        0 <= j < plan.pipeline.steps.len(),
        outcomes.len() == plan.pipeline.preconditions.len() + j + 3,
        forall|k: int| 0 <= k < outcomes.len() - 1 ==> #[trigger] outcomes[k] is Succeeded,
        outcomes.last() == OutcomeView::Failed(e),
    ensures
        ({
            let actions = run_actions(run_init(plan), outcomes);
            let n = plan.pipeline.preconditions.len() + j + 2;
            &&& actions.len() == n + 1
            &&& actions[n] == RunActionView::Finish(Err(e))
            &&& actions[n - 1] == RunActionView::Execute(plan.pipeline.steps[j])
            &&& actions.take(n) == plan_actions(plan).take(n)
            &&& forall|k: int| 0 <= k < n ==> !(#[trigger] actions[k] is Finish)
        }),
{
    let all = plan_actions(plan);
    let n = plan.pipeline.preconditions.len() + j + 2;
    assert(all[n - 1] == RunActionView::Execute(plan.pipeline.steps[j]));
    law_run_stops_at_failure(plan, outcomes, n, e);
    let actions = run_actions(run_init(plan), outcomes);
    assert(actions.take(n) =~= all.take(n));
    assert forall|k: int| 0 <= k < n implies !(#[trigger] actions[k] is Finish) by {
        assert(actions[k] == all[k]);
        if k == 0 {
        } else if k < 1 + plan.pipeline.preconditions.len() {
            assert(all[k] == RunActionView::Check(plan.pipeline.preconditions[k - 1]));
        } else {
            assert(all[k] == RunActionView::Execute(plan.pipeline.steps[k - 1 - plan.pipeline.preconditions.len()]));
        }
    }
}

/// Any condition of a flow can stop it: when the conditions before
/// condition `j` hold and condition `j` fails, the run ends right after its
/// check with the failure's message, and no git operation has run.
pub proof fn law_failed_condition_stops_run(plan: FlowPlanView, j: int, outcomes: Seq<OutcomeView>, e: Seq<char>)
    requires
        0 <= j < plan.pipeline.preconditions.len(),
        outcomes.len() == j + 3,
        forall|k: int| 0 <= k < outcomes.len() - 1 ==> #[trigger] outcomes[k] is Succeeded,
        outcomes.last() == OutcomeView::Failed(e),
    ensures
        ({
            let actions = run_actions(run_init(plan), outcomes);
            &&& actions.len() == j + 3
            &&& actions[j + 2] == RunActionView::Finish(Err(e))
            &&& actions[j + 1] == RunActionView::Check(plan.pipeline.preconditions[j])
            &&& forall|k: int| 0 <= k < actions.len() ==> !(#[trigger] actions[k] is Execute)
        }),
{
    let all = plan_actions(plan);
    let n = j + 2;
    assert(all[n - 1] == RunActionView::Check(plan.pipeline.preconditions[j]));
    law_run_stops_at_failure(plan, outcomes, n, e);
    let actions = run_actions(run_init(plan), outcomes);
    assert forall|k: int| 0 <= k < actions.len() implies !(#[trigger] actions[k] is Execute) by {
        if k < n {
            assert(actions[k] == all[k]);
            if k > 0 {
                assert(all[k] == RunActionView::Check(plan.pipeline.preconditions[k - 1]));
            }
        }
    }
}

} // verus!
