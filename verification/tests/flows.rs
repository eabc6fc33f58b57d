use git_flow::flow::{branch_name, category_of, flow_kind_from_category, is_valid_category, FlowAction, FlowKind};
use git_flow::pipeline::{Pipeline, Precondition, Step};
use git_flow::plans::{feature_finish, feature_start, flow_plan, release_finish, release_start};

fn s(x: &str) -> String {
    x.to_string()
}

#[test]
fn category_indices_map_to_kinds() {
    assert_eq!(flow_kind_from_category(0), FlowKind::Feature);
    assert_eq!(flow_kind_from_category(1), FlowKind::Release);
    assert_eq!(flow_kind_from_category(2), FlowKind::Bugfix);
    assert_eq!(flow_kind_from_category(3), FlowKind::Hotfix);
    assert!(is_valid_category(0) && is_valid_category(3));
    assert!(!is_valid_category(4) && !is_valid_category(-1));
}

#[test]
fn category_roundtrip_for_every_kind() {
    for kind in [FlowKind::Feature, FlowKind::Release, FlowKind::Bugfix, FlowKind::Hotfix] {
        assert_eq!(flow_kind_from_category(category_of(kind)), kind);
    }
}

#[test]
fn branch_names_have_prefix_and_slash() {
    assert_eq!(branch_name(FlowKind::Feature, "login"), "feature/login");
    assert_eq!(branch_name(FlowKind::Release, "1.2.0"), "release/1.2.0");
    assert_eq!(branch_name(FlowKind::Bugfix, "crash"), "bugfix/crash");
    assert_eq!(branch_name(FlowKind::Hotfix, "x"), "hotfix/x");
}

#[test]
fn feature_start_plan() {
    let plan = feature_start("login");
    assert_eq!(plan.start_message, "Starting creation of feature login...");
    assert_eq!(plan.success_message, "Feature started succesfully");
    assert_eq!(
        plan.pipeline.preconditions,
        vec![Precondition::RequiresMissingBranch(s("feature/login"))]
    );
    assert_eq!(
        plan.pipeline.steps,
        vec![Step::Checkout(s("develop")), Step::Pull, Step::CreateBranch(s("feature/login"))]
    );
}

#[test]
fn feature_finish_plan() {
    let plan = feature_finish("login");
    assert_eq!(plan.start_message, "Finishing feature login...");
    assert_eq!(plan.success_message, "Feature finished succesfully");
    assert_eq!(
        plan.pipeline.preconditions,
        vec![Precondition::RequiresExistingLocalBranch(s("feature/login"))]
    );
    assert_eq!(
        plan.pipeline.steps,
        vec![
            Step::Checkout(s("feature/login")),
            Step::Pull,
            Step::Push,
            Step::Checkout(s("develop")),
            Step::Pull,
            Step::Merge(s("feature/login")),
            Step::Commit(s("Merge after login feature merge")),
            Step::Push,
            Step::DeleteBranch(s("feature/login")),
        ]
    );
}

#[test]
fn release_start_plan() {
    let plan = release_start("1.0");
    assert_eq!(plan.start_message, "Starting creation of release 1.0...");
    assert_eq!(plan.success_message, "Release started successfully");
    assert_eq!(
        plan.pipeline.preconditions,
        vec![Precondition::RequiresMissingBranch(s("release/1.0"))]
    );
    assert_eq!(
        plan.pipeline.steps,
        vec![Step::Checkout(s("develop")), Step::Pull, Step::CreateBranch(s("release/1.0"))]
    );
}

#[test]
fn release_finish_plan() {
    let plan = release_finish("1.0", "main");
    assert_eq!(plan.start_message, "Finishing release 1.0...");
    assert_eq!(plan.success_message, "Release finished successfully");
    assert_eq!(
        plan.pipeline.preconditions,
        vec![Precondition::RequiresExistingLocalBranch(s("release/1.0"))]
    );
    assert_eq!(
        plan.pipeline.steps,
        vec![
            Step::Checkout(s("release/1.0")),
            Step::Pull,
            Step::Push,
            Step::Checkout(s("main")),
            Step::Pull,
            Step::Merge(s("release/1.0")),
            Step::Tag(s("1.0")),
            Step::Push,
            Step::PushTags,
            Step::Checkout(s("develop")),
            Step::Merge(s("main")),
            Step::Push,
            Step::DeleteBranch(s("release/1.0")),
        ]
    );
}

#[test]
fn start_and_finish_share_the_branch() {
    for (start, finish) in [
        (feature_start("x"), feature_finish("x")),
        (release_start("x"), release_finish("x", "master")),
    ] {
        let created = match start.pipeline.steps.last() {
            Some(Step::CreateBranch(b)) => b.clone(),
            other => panic!("unexpected last step {:?}", other),
        };
        let deleted = match finish.pipeline.steps.last() {
            Some(Step::DeleteBranch(b)) => b.clone(),
            other => panic!("unexpected last step {:?}", other),
        };
        assert_eq!(created, deleted);
        assert_eq!(start.pipeline.preconditions, vec![Precondition::RequiresMissingBranch(created.clone())]);
        assert_eq!(finish.pipeline.preconditions, vec![Precondition::RequiresExistingLocalBranch(deleted)]);
    }
}

#[test]
fn flow_plan_dispatch() {
    assert_eq!(flow_plan(FlowKind::Feature, FlowAction::Start, "a", "main"), Some(feature_start("a")));
    assert_eq!(flow_plan(FlowKind::Feature, FlowAction::Finish, "a", "main"), Some(feature_finish("a")));
    assert_eq!(flow_plan(FlowKind::Release, FlowAction::Start, "a", "main"), Some(release_start("a")));
    assert_eq!(flow_plan(FlowKind::Release, FlowAction::Finish, "a", "trunk"), Some(release_finish("a", "trunk")));
    assert_eq!(flow_plan(FlowKind::Bugfix, FlowAction::Start, "a", "main"), None);
    assert_eq!(flow_plan(FlowKind::Hotfix, FlowAction::Finish, "a", "main"), None);
}

#[test]
fn pipeline_builder_keeps_order() {
    let p = Pipeline::new()
        .require(Precondition::RequiresMissingBranch(s("a")))
        .step(Step::Pull)
        .require(Precondition::RequiresExistingLocalBranch(s("b")))
        .step(Step::PushTags);
    assert_eq!(
        p.preconditions,
        vec![Precondition::RequiresMissingBranch(s("a")), Precondition::RequiresExistingLocalBranch(s("b"))]
    );
    assert_eq!(p.steps, vec![Step::Pull, Step::PushTags]);
    assert_eq!(Step::Merge(s("m")).duplicate(), Step::Merge(s("m")));
    assert_eq!(
        Precondition::RequiresMissingBranch(s("z")).duplicate(),
        Precondition::RequiresMissingBranch(s("z"))
    );
}

#[test]
fn branches_of_distinct_flows_differ() {
    let kinds = [FlowKind::Feature, FlowKind::Release, FlowKind::Bugfix, FlowKind::Hotfix];
    for a in kinds {
        for b in kinds {
            for (n1, n2) in [("x", "x"), ("x", "y"), ("a-b", "a")] {
                let same = branch_name(a, n1) == branch_name(b, n2);
                assert_eq!(same, a == b && n1 == n2);
            }
        }
    }
}
