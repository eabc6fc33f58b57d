use vstd::prelude::*;

use crate::flow::{branch_spec, prefix_spec, FlowAction, FlowKind};
use crate::pipeline::{PipelineView, PreconditionView, StepView};
use crate::plans::{develop_spec, flow_plan_spec};

verus! {

/// A model of the branches of a repository: the local ones, the ones on
/// the remote, and the one checked out.
pub struct RepoModel {
    pub local: Set<Seq<char>>,
    pub remote: Set<Seq<char>>,
    pub current: Seq<char>,
}

/// Whether a condition holds in the model: a missing branch is neither
/// local nor on the remote; an existing local branch is local.
pub open spec fn condition_holds(r: RepoModel, c: PreconditionView) -> bool {
    match c {
        PreconditionView::RequiresMissingBranch(b) => !r.local.contains(b) && !r.remote.contains(b),
        PreconditionView::RequiresExistingLocalBranch(b) => r.local.contains(b),
    }
}

/// The effect of one step on the model, or `None` where it fails: a branch
/// can be checked out if it exists locally or on the remote, and is then
/// local and current; a push puts the current branch on the remote; a new
/// branch must not exist locally and becomes current; a merged branch must
/// exist locally; a deleted branch must exist locally and not be current.
/// Pulls, commits and tags leave the branches as they are.
pub open spec fn apply_step(r: RepoModel, s: StepView) -> Option<RepoModel> {
    match s {
        StepView::Checkout(b) => if r.local.contains(b) || r.remote.contains(b) {
            Some(RepoModel { local: r.local.insert(b), current: b, ..r })
        } else {
            None
        },
        StepView::Pull => Some(r),
        StepView::Push => Some(RepoModel { remote: r.remote.insert(r.current), ..r }),
        StepView::CreateBranch(b) => if r.local.contains(b) {
            None
        } else {
            Some(RepoModel { local: r.local.insert(b), current: b, ..r })
        },
        StepView::Merge(b) => if r.local.contains(b) { Some(r) } else { None },
        StepView::Commit(_) => Some(r),
        StepView::Tag(_) => Some(r),
        StepView::PushTags => Some(r),
        StepView::DeleteBranch(b) => if r.local.contains(b) && r.current != b {
            Some(RepoModel { local: r.local.remove(b), ..r })
        } else {
            None
        },
    }
}

/// The effect of steps run in order, stopping at the first that fails.
pub open spec fn apply_steps(r: RepoModel, steps: Seq<StepView>) -> Option<RepoModel>
    decreases steps.len(),
{
    if steps.len() == 0 {
        Some(r)
    } else {
        match apply_step(r, steps[0]) {
            Some(next) => apply_steps(next, steps.drop_first()),
            None => None,
        }
    }
}

/// The effect of a pipeline in the model: its steps, if every condition
/// holds first.
pub open spec fn run_pipeline(r: RepoModel, p: PipelineView) -> Option<RepoModel> {
    if forall|i: int| 0 <= i < p.preconditions.len() ==> condition_holds(r, #[trigger] p.preconditions[i]) {
        apply_steps(r, p.steps)
    } else {
        None
    }
}

/// `develop` is no flow branch: a flow branch is longer than `develop`.
proof fn lemma_develop_is_no_flow_branch(kind: FlowKind, name: Seq<char>)
    requires
        kind == FlowKind::Feature || kind == FlowKind::Release,
    ensures
        develop_spec() != branch_spec(kind, name),
{
    reveal_strlit("develop");
    reveal_strlit("feature");
    reveal_strlit("release");
    reveal_strlit("/");
    assert(branch_spec(kind, name).len() >= 8);
}

/// In a repository where `develop` exists (and, for a release, the main
/// branch `main` exists and differs from the release branch) and the flow's
/// branch exists nowhere, a started feature or release can be finished
/// once: the start succeeds and leaves the branch local, the finish then
/// succeeds and removes the local branch; after that neither a second
/// finish nor a new start under the same name can run, since the branch is
/// gone locally but was pushed to the remote.
#[verifier::rlimit(40)]
pub proof fn law_started_flow_finishes_once(kind: FlowKind, name: Seq<char>, main: Seq<char>, r: RepoModel)
    requires
        kind == FlowKind::Feature || kind == FlowKind::Release,
        r.local.contains(develop_spec()) || r.remote.contains(develop_spec()),
        !r.local.contains(branch_spec(kind, name)),
        !r.remote.contains(branch_spec(kind, name)),
        kind == FlowKind::Release ==> (r.local.contains(main) || r.remote.contains(main)),
        kind == FlowKind::Release ==> main != branch_spec(kind, name),
    ensures
        ({
            let start = flow_plan_spec(kind, FlowAction::Start, name, main).unwrap().pipeline;
            let finish = flow_plan_spec(kind, FlowAction::Finish, name, main).unwrap().pipeline;
            let b = branch_spec(kind, name);
            &&& run_pipeline(r, start) is Some
            &&& run_pipeline(r, start).unwrap().local.contains(b)
            &&& run_pipeline(run_pipeline(r, start).unwrap(), finish) is Some
            &&& !run_pipeline(run_pipeline(r, start).unwrap(), finish).unwrap().local.contains(b)
            &&& run_pipeline(run_pipeline(run_pipeline(r, start).unwrap(), finish).unwrap(), finish) is None
            &&& run_pipeline(run_pipeline(run_pipeline(r, start).unwrap(), finish).unwrap(), start) is None
        }),
{
    reveal_with_fuel(apply_steps, 15);
    let b = branch_spec(kind, name);
    let d = develop_spec();
    lemma_develop_is_no_flow_branch(kind, name);
    let start = flow_plan_spec(kind, FlowAction::Start, name, main).unwrap().pipeline;
    let finish = flow_plan_spec(kind, FlowAction::Finish, name, main).unwrap().pipeline;
    assert(condition_holds(r, start.preconditions[0]));
    let r1 = RepoModel { local: r.local.insert(d).insert(b), remote: r.remote, current: b };
    assert(apply_steps(r, start.steps) == Some(r1));
    assert(run_pipeline(r, start) == Some(r1));
    assert(condition_holds(r1, finish.preconditions[0]));
    let r2 = run_pipeline(r1, finish);
    assert(r2 is Some && !r2.unwrap().local.contains(b) && r2.unwrap().remote.contains(b));
    let r2 = r2.unwrap();
    assert(!r2.local.contains(b));
    assert(r2.remote.contains(b));
    assert(!condition_holds(r2, finish.preconditions[0]));
    assert(!condition_holds(r2, start.preconditions[0]));
}

} // verus!
