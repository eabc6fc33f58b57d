use vstd::prelude::*;

use crate::flow::{branch_name, branch_spec, prefix_spec, FlowAction, FlowKind};
use crate::pipeline::{Pipeline, PipelineView, Precondition, PreconditionView, Step, StepView};

verus! {

/// Everything a flow does: a message when it begins, the pipeline of git
/// operations, and a message once the pipeline has succeeded.
#[derive(Debug, Clone, PartialEq, Eq)]
pub struct FlowPlan {
    pub start_message: String,
    pub pipeline: Pipeline,
    pub success_message: String,
}

/// The mathematical value of a [`FlowPlan`].
pub struct FlowPlanView {
    pub start_message: Seq<char>,
    pub pipeline: PipelineView,
    pub success_message: Seq<char>,
}

impl View for FlowPlan {
    type V = FlowPlanView;

    open spec fn view(&self) -> FlowPlanView {
        FlowPlanView {
            start_message: self.start_message@,
            pipeline: self.pipeline@,
            success_message: self.success_message@,
        }
    }
}

/// The name of the integration branch.
pub open spec fn develop_spec() -> Seq<char> {
    "develop"@
}

/// Text made of three pieces, one after the other.
fn join3(a: &str, b: &str, c: &str) -> (s: String)
    ensures
        s@ == a@ + b@ + c@,
{
    let mut s = String::from_str(a);
    s.append(b);
    s.append(c);
    s
}

/// What starting the feature `name` does.
pub open spec fn feature_start_spec(name: Seq<char>) -> FlowPlanView {
    let branch = branch_spec(FlowKind::Feature, name);
    FlowPlanView {
        start_message: "Starting creation of feature "@ + name + "..."@,
        pipeline: PipelineView {
            preconditions: seq![PreconditionView::RequiresMissingBranch(branch)],
            steps: seq![
                StepView::Checkout(develop_spec()),
                StepView::Pull,
                StepView::CreateBranch(branch),
            ],
        },
        success_message: "Feature started succesfully"@,
    }
}

/// What finishing the feature `name` does.
pub open spec fn feature_finish_spec(name: Seq<char>) -> FlowPlanView {
    let branch = branch_spec(FlowKind::Feature, name);
    FlowPlanView {
        start_message: "Finishing feature "@ + name + "..."@,
        pipeline: PipelineView {
            preconditions: seq![PreconditionView::RequiresExistingLocalBranch(branch)],
            steps: seq![
                StepView::Checkout(branch),
                StepView::Pull,
                StepView::Push,
                StepView::Checkout(develop_spec()),
                StepView::Pull,
                StepView::Merge(branch),
                StepView::Commit("Merge after "@ + name + " feature merge"@),
                StepView::Push,
                StepView::DeleteBranch(branch),
            ],
        },
        success_message: "Feature finished succesfully"@,
    }
}

/// What starting the release `name` does.
pub open spec fn release_start_spec(name: Seq<char>) -> FlowPlanView {
    let branch = branch_spec(FlowKind::Release, name);
    FlowPlanView {
        start_message: "Starting creation of release "@ + name + "..."@,
        pipeline: PipelineView {
            preconditions: seq![PreconditionView::RequiresMissingBranch(branch)],
            steps: seq![
                StepView::Checkout(develop_spec()),
                StepView::Pull,
                StepView::CreateBranch(branch),
            ],
        },
        success_message: "Release started successfully"@,
    }
}

/// What finishing the release `name` does, where `main` is the name of the
/// repository's main branch.
pub open spec fn release_finish_spec(name: Seq<char>, main: Seq<char>) -> FlowPlanView {
    let branch = branch_spec(FlowKind::Release, name);
    FlowPlanView {
        start_message: "Finishing release "@ + name + "..."@,
        pipeline: PipelineView {
            preconditions: seq![PreconditionView::RequiresExistingLocalBranch(branch)],
            steps: seq![
                StepView::Checkout(branch),
                StepView::Pull,
                StepView::Push,
                StepView::Checkout(main),
                StepView::Pull,
                StepView::Merge(branch),
                StepView::Tag(name),
                StepView::Push,
                StepView::PushTags,
                StepView::Checkout(develop_spec()),
                StepView::Merge(main),
                StepView::Push,
                StepView::DeleteBranch(branch),
            ],
        },
        success_message: "Release finished successfully"@,
    }
}

/// Starts the feature `name`: the branch `feature/<name>` must not exist
/// yet; `develop` is checked out and pulled and the new branch is created
/// from it.
pub fn feature_start(name: &str) -> (plan: FlowPlan)
    ensures
        plan@ == feature_start_spec(name@),
{
    let branch = branch_name(FlowKind::Feature, name);
    let pipeline = Pipeline::new()
        .require(Precondition::RequiresMissingBranch(branch.clone()))
        .step(Step::Checkout(String::from_str("develop")))
        .step(Step::Pull)
        .step(Step::CreateBranch(branch));
    let plan = FlowPlan {
        start_message: join3("Starting creation of feature ", name, "..."),
        pipeline,
        success_message: String::from_str("Feature started succesfully"),
    };
    proof {
        assert(plan@.pipeline.preconditions =~= feature_start_spec(name@).pipeline.preconditions);
        assert(plan@.pipeline.steps =~= feature_start_spec(name@).pipeline.steps);
    }
    plan
}

/// Finishes the feature `name`: the branch `feature/<name>` must exist
/// locally; it is brought up to date with its remote, merged into
/// `develop`, a merge commit is made, `develop` is pushed and the feature
/// branch is deleted.
pub fn feature_finish(name: &str) -> (plan: FlowPlan)
    ensures
        plan@ == feature_finish_spec(name@),
{
    let branch = branch_name(FlowKind::Feature, name);
    let pipeline = Pipeline::new()
        .require(Precondition::RequiresExistingLocalBranch(branch.clone()))
        .step(Step::Checkout(branch.clone()))
        .step(Step::Pull)
        .step(Step::Push)
        .step(Step::Checkout(String::from_str("develop")))
        .step(Step::Pull)
        .step(Step::Merge(branch.clone()))
        .step(Step::Commit(join3("Merge after ", name, " feature merge")))
        .step(Step::Push)
        .step(Step::DeleteBranch(branch));
    let plan = FlowPlan {
        start_message: join3("Finishing feature ", name, "..."),
        pipeline,
        success_message: String::from_str("Feature finished succesfully"),
    };
    proof {
        assert(plan@.pipeline.preconditions =~= feature_finish_spec(name@).pipeline.preconditions);
        assert(plan@.pipeline.steps =~= feature_finish_spec(name@).pipeline.steps);
    }
    plan
}

/// Starts the release `name`: the branch `release/<name>` must not exist
/// yet; `develop` is checked out and pulled and the release branch is
/// created from it.
pub fn release_start(name: &str) -> (plan: FlowPlan)
    ensures
        plan@ == release_start_spec(name@),
{
    let branch = branch_name(FlowKind::Release, name);
    let pipeline = Pipeline::new()
        .require(Precondition::RequiresMissingBranch(branch.clone()))
        .step(Step::Checkout(String::from_str("develop")))
        .step(Step::Pull)
        .step(Step::CreateBranch(branch));
    let plan = FlowPlan {
        start_message: join3("Starting creation of release ", name, "..."),
        pipeline,
        success_message: String::from_str("Release started successfully"),
    };
    proof {
        assert(plan@.pipeline.preconditions =~= release_start_spec(name@).pipeline.preconditions);
        assert(plan@.pipeline.steps =~= release_start_spec(name@).pipeline.steps);
    }
    plan
}

/// Finishes the release `name` into the main branch `main_branch`: the
/// branch `release/<name>` must exist locally; it is brought up to date,
/// merged into the main branch, which is tagged `name` and pushed with its
/// tags; the main branch is then merged into `develop`, which is pushed,
/// and the release branch is deleted.
pub fn release_finish(name: &str, main_branch: &str) -> (plan: FlowPlan)
    ensures
        plan@ == release_finish_spec(name@, main_branch@),
{
    let branch = branch_name(FlowKind::Release, name);
    let main = String::from_str(main_branch);
    let pipeline = Pipeline::new()
        .require(Precondition::RequiresExistingLocalBranch(branch.clone()))
        .step(Step::Checkout(branch.clone()))
        .step(Step::Pull)
        .step(Step::Push)
        .step(Step::Checkout(main.clone()))
        .step(Step::Pull)
        .step(Step::Merge(branch.clone()))
        .step(Step::Tag(String::from_str(name)))
        .step(Step::Push)
        .step(Step::PushTags)
        .step(Step::Checkout(String::from_str("develop")))
        .step(Step::Merge(main))
        .step(Step::Push)
        .step(Step::DeleteBranch(branch));
    let plan = FlowPlan {
        start_message: join3("Finishing release ", name, "..."),
        pipeline,
        success_message: String::from_str("Release finished successfully"),
    };
    proof {
        assert(plan@.pipeline.preconditions =~= release_finish_spec(name@, main_branch@).pipeline.preconditions);
        assert(plan@.pipeline.steps =~= release_finish_spec(name@, main_branch@).pipeline.steps);
    }
    plan
}

/// The plan of a flow, for the kinds whose pipelines this library defines:
/// features and releases. `main` is the main branch, which only the
/// finishing of a release uses.
pub open spec fn flow_plan_spec(kind: FlowKind, action: FlowAction, name: Seq<char>, main: Seq<char>) -> Option<FlowPlanView> {
    match (kind, action) {
        (FlowKind::Feature, FlowAction::Start) => Some(feature_start_spec(name)),
        (FlowKind::Feature, FlowAction::Finish) => Some(feature_finish_spec(name)),
        (FlowKind::Release, FlowAction::Start) => Some(release_start_spec(name)),
        (FlowKind::Release, FlowAction::Finish) => Some(release_finish_spec(name, main)),
        _ => None,
    }
}

/// The plan of the flow of the given kind, action and name. Bugfix and
/// hotfix flows have no pipeline here and give `None`.
pub fn flow_plan(kind: FlowKind, action: FlowAction, name: &str, main_branch: &str) -> (plan: Option<FlowPlan>)
    ensures
        plan is Some <==> (kind == FlowKind::Feature || kind == FlowKind::Release),
        plan matches Some(p) ==> flow_plan_spec(kind, action, name@, main_branch@) == Some(p@),
{
    match (kind, action) {
        (FlowKind::Feature, FlowAction::Start) => Some(feature_start(name)),
        (FlowKind::Feature, FlowAction::Finish) => Some(feature_finish(name)),
        (FlowKind::Release, FlowAction::Start) => Some(release_start(name)),
        (FlowKind::Release, FlowAction::Finish) => Some(release_finish(name, main_branch)),
        _ => None,
    }
}

/// Starting and finishing a feature or a release work on one and the same
/// branch, `<prefix>/<name>`: starting requires that it be missing and
/// creates it; finishing requires that it exist locally, checks it out
/// first and deletes it last.
pub proof fn law_start_and_finish_share_branch(kind: FlowKind, name: Seq<char>, main: Seq<char>)
    requires
        kind == FlowKind::Feature || kind == FlowKind::Release,
    ensures
        ({
            let start = flow_plan_spec(kind, FlowAction::Start, name, main).unwrap();
            let finish = flow_plan_spec(kind, FlowAction::Finish, name, main).unwrap();
            let branch = branch_spec(kind, name);
            &&& start.pipeline.preconditions == seq![PreconditionView::RequiresMissingBranch(branch)]
            &&& start.pipeline.steps.last() == StepView::CreateBranch(branch)
            &&& finish.pipeline.preconditions == seq![PreconditionView::RequiresExistingLocalBranch(branch)]
            &&& finish.pipeline.steps[0] == StepView::Checkout(branch)
            &&& finish.pipeline.steps.last() == StepView::DeleteBranch(branch)
        }),
{
}

/// A started flow branches off `develop`: the pipeline checks out
/// `develop` and pulls it before it creates the new branch.
pub proof fn law_start_branches_from_develop(kind: FlowKind, name: Seq<char>, main: Seq<char>)
    requires
        kind == FlowKind::Feature || kind == FlowKind::Release,
    ensures
        flow_plan_spec(kind, FlowAction::Start, name, main).unwrap().pipeline.steps == seq![
            StepView::Checkout(develop_spec()),
            StepView::Pull,
            StepView::CreateBranch(branch_spec(kind, name)),
        ],
{
}

/// Finishing a feature merges its branch into `develop`: `develop` is
/// checked out, the feature branch is merged into it, and `develop` is
/// pushed before the feature branch is deleted.
pub proof fn law_feature_finish_merges_into_develop(name: Seq<char>)
    ensures
        ({
            let steps = feature_finish_spec(name).pipeline.steps;
            let branch = branch_spec(FlowKind::Feature, name);
            exists|i: int, j: int, k: int|
                0 <= i < j < k < steps.len() - 1
                && steps[i] == StepView::Checkout(develop_spec())
                && steps[j] == StepView::Merge(branch)
                && steps[k] == StepView::Push
                && (forall|m: int| i < m < k ==> !(#[trigger] steps[m] is Checkout))
        }),
{
    let steps = feature_finish_spec(name).pipeline.steps;
    assert(steps[3] == StepView::Checkout(develop_spec()));
    assert(steps[5] == StepView::Merge(branch_spec(FlowKind::Feature, name)));
    assert(steps[7] == StepView::Push);
    assert(forall|m: int| 3 < m < 7 ==> !(#[trigger] steps[m] is Checkout));
}

/// Finishing a release merges its branch into the main branch, tags the
/// result with the release name, and then merges the main branch into
/// `develop`; the tag is pushed.
pub proof fn law_release_finish_merges_main_and_develop(name: Seq<char>, main: Seq<char>)
    ensures
        ({
            let steps = release_finish_spec(name, main).pipeline.steps;
            &&& steps[3] == StepView::Checkout(main)
            &&& steps[5] == StepView::Merge(branch_spec(FlowKind::Release, name))
            &&& steps[6] == StepView::Tag(name)
            &&& steps[8] == StepView::PushTags
            &&& steps[9] == StepView::Checkout(develop_spec())
            &&& steps[10] == StepView::Merge(main)
            &&& (forall|m: int| 3 < m < 9 ==> !(#[trigger] steps[m] is Checkout))
        }),
{
}

/// Distinct flows live on distinct branches: the branch determines both
/// the kind of flow and its name.
pub proof fn law_branch_names_are_distinct(k1: FlowKind, n1: Seq<char>, k2: FlowKind, n2: Seq<char>)
    requires
        branch_spec(k1, n1) == branch_spec(k2, n2),
    ensures
        k1 == k2,
        n1 == n2,
{
    reveal_strlit("feature");
    reveal_strlit("release");
    reveal_strlit("bugfix");
    reveal_strlit("hotfix");
    reveal_strlit("/");
    let b1 = branch_spec(k1, n1);
    let b2 = branch_spec(k2, n2);
    assert(b1[0] == b2[0]);
    if k1 != k2 {
        assert(b1[0] != b2[0]);
    }
    let p = prefix_spec(k1) + "/"@;
    assert(b1 == p + n1);
    assert(b2 == p + n2);
    assert(n1 =~= b1.subrange(p.len() as int, b1.len() as int));
    assert(n2 =~= b2.subrange(p.len() as int, b2.len() as int));
}

} // verus!
