use vstd::prelude::*;

verus! {

/// One git operation of a flow.
#[derive(Debug, Clone, PartialEq, Eq)]
pub enum Step {
    /// Check out the named branch.
    Checkout(String),
    /// Pull the current branch from its remote.
    Pull,
    /// Push the current branch to its remote.
    Push,
    /// Create the named branch from the current one and check it out.
    CreateBranch(String),
    /// Merge the named branch into the current one.
    Merge(String),
    /// Commit with the given message.
    Commit(String),
    /// Tag the current commit with the given name.
    Tag(String),
    /// Push the tags to the remote.
    PushTags,
    /// Delete the named branch.
    DeleteBranch(String),
}

/// The mathematical value of a [`Step`]: its branch, message or tag name
/// taken as a sequence of characters.
pub enum StepView {
    Checkout(Seq<char>),
    Pull,
    Push,
    CreateBranch(Seq<char>),
    Merge(Seq<char>),
    Commit(Seq<char>),
    Tag(Seq<char>),
    PushTags,
    DeleteBranch(Seq<char>),
}

impl View for Step {
    type V = StepView;

    open spec fn view(&self) -> StepView {
        match self {
            Step::Checkout(b) => StepView::Checkout(b@),
            Step::Pull => StepView::Pull,
            Step::Push => StepView::Push,
            Step::CreateBranch(b) => StepView::CreateBranch(b@),
            Step::Merge(b) => StepView::Merge(b@),
            Step::Commit(m) => StepView::Commit(m@),
            Step::Tag(t) => StepView::Tag(t@),
            Step::PushTags => StepView::PushTags,
            Step::DeleteBranch(b) => StepView::DeleteBranch(b@),
        }
    }
}

impl Step {
    /// A copy of the step.
    pub fn duplicate(&self) -> (copy: Step)
        ensures
            copy@ == self@,
    {
        match self {
            Step::Checkout(b) => Step::Checkout(b.clone()),
            Step::Pull => Step::Pull,
            Step::Push => Step::Push,
            Step::CreateBranch(b) => Step::CreateBranch(b.clone()),
            Step::Merge(b) => Step::Merge(b.clone()),
            Step::Commit(m) => Step::Commit(m.clone()),
            Step::Tag(t) => Step::Tag(t.clone()),
            Step::PushTags => Step::PushTags,
            Step::DeleteBranch(b) => Step::DeleteBranch(b.clone()),
        }
    }
}

/// A condition on the repository that must hold before a flow runs.
#[derive(Debug, Clone, PartialEq, Eq)]
pub enum Precondition {
    /// The named branch must not exist yet.
    RequiresMissingBranch(String),
    /// The named branch must exist in the local repository.
    RequiresExistingLocalBranch(String),
}

/// The mathematical value of a [`Precondition`].
pub enum PreconditionView {
    RequiresMissingBranch(Seq<char>),
    RequiresExistingLocalBranch(Seq<char>),
}

impl View for Precondition {
    type V = PreconditionView;

    open spec fn view(&self) -> PreconditionView {
        match self {
            Precondition::RequiresMissingBranch(b) => PreconditionView::RequiresMissingBranch(b@),
            Precondition::RequiresExistingLocalBranch(b) => PreconditionView::RequiresExistingLocalBranch(b@),
        }
    }
}

impl Precondition {
    /// A copy of the condition.
    pub fn duplicate(&self) -> (copy: Precondition)
        ensures
            copy@ == self@,
    {
        match self {
            Precondition::RequiresMissingBranch(b) => Precondition::RequiresMissingBranch(b.clone()),
            Precondition::RequiresExistingLocalBranch(b) => Precondition::RequiresExistingLocalBranch(b.clone()),
        }
    }
}

/// The views of a vector of steps.
pub open spec fn steps_view(steps: Seq<Step>) -> Seq<StepView> {
    steps.map_values(|s: Step| s@)
}

/// The views of a vector of preconditions.
pub open spec fn preconditions_view(conditions: Seq<Precondition>) -> Seq<PreconditionView> {
    conditions.map_values(|c: Precondition| c@)
}

/// A sequence of git operations, guarded by conditions on the repository
/// that are checked, in order, before the first operation runs.
#[derive(Debug, Clone, PartialEq, Eq)]
pub struct Pipeline {
    pub preconditions: Vec<Precondition>,
    pub steps: Vec<Step>,
}

/// The mathematical value of a [`Pipeline`].
pub struct PipelineView {
    pub preconditions: Seq<PreconditionView>,
    pub steps: Seq<StepView>,
}

impl View for Pipeline {
    type V = PipelineView;

    open spec fn view(&self) -> PipelineView {
        PipelineView {
            preconditions: preconditions_view(self.preconditions@),
            steps: steps_view(self.steps@),
        }
    }
}

impl Pipeline {
    /// A pipeline with no condition and no step.
    pub fn new() -> (pipeline: Pipeline)
        ensures
            pipeline@.preconditions == Seq::<PreconditionView>::empty(),
            pipeline@.steps == Seq::<StepView>::empty(),
    {
        let pipeline = Pipeline { preconditions: Vec::new(), steps: Vec::new() };
        proof {
            assert(pipeline@.preconditions =~= Seq::<PreconditionView>::empty());
            assert(pipeline@.steps =~= Seq::<StepView>::empty());
        }
        pipeline
    }

    /// The same pipeline with one more condition, checked after the others.
    pub fn require(self, condition: Precondition) -> (pipeline: Pipeline)
        ensures
            pipeline@.preconditions == self@.preconditions.push(condition@),
            pipeline@.steps == self@.steps,
    {
        let ghost c = condition@;
        let mut pipeline = self;
        pipeline.preconditions.push(condition);
        proof {
            assert(pipeline@.preconditions =~= self@.preconditions.push(c));
        }
        pipeline
    }

    /// The same pipeline with one more step, run after the others.
    pub fn step(self, step: Step) -> (pipeline: Pipeline)
        ensures
            pipeline@.preconditions == self@.preconditions,
            pipeline@.steps == self@.steps.push(step@),
    {
        let ghost s = step@;
        let mut pipeline = self;
        pipeline.steps.push(step);
        proof {
            assert(pipeline@.steps =~= self@.steps.push(s));
        }
        pipeline
    }
}

} // verus!
