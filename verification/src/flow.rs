use vstd::prelude::*;

verus! {

/// The kinds of flow that git-flow manages. Each names a branch prefix.
#[derive(Debug, Clone, Copy, PartialEq, Eq, Structural)]
pub enum FlowKind {
    Feature,
    Release,
    Bugfix,
    Hotfix,
}

/// What to do with a flow: open its branch or merge it back.
#[derive(Debug, Clone, Copy, PartialEq, Eq, Structural)]
pub enum FlowAction {
    Start,
    Finish,
}

/// The category index the user interface uses for each kind of flow.
pub open spec fn category_spec(kind: FlowKind) -> int {
    match kind {
        FlowKind::Feature => 0,
        FlowKind::Release => 1,
        FlowKind::Bugfix => 2,
        FlowKind::Hotfix => 3,
    }
}

/// The kind of flow that a category index selects, if any.
pub open spec fn kind_of_category_spec(category: int) -> Option<FlowKind> {
    if category == 0 {
        Some(FlowKind::Feature)
    } else if category == 1 {
        Some(FlowKind::Release)
    } else if category == 2 {
        Some(FlowKind::Bugfix)
    } else if category == 3 {
        Some(FlowKind::Hotfix)
    } else {
        None
    }
}

/// Whether a category index names a kind of flow: only 0 to 3 do; the
/// window's work on any other index stops before doing anything.
pub open spec fn valid_category(category: int) -> bool {
    0 <= category <= 3
}

/// Maps a category index of the user interface to the kind of flow it
/// lists: 0 features, 1 releases, 2 bugfixes, 3 hotfixes.
pub fn flow_kind_from_category(category: i32) -> (kind: FlowKind)
    requires
        valid_category(category as int),
    ensures
        kind_of_category_spec(category as int) == Some(kind),
{
    if category == 0 {
        FlowKind::Feature
    } else if category == 1 {
        FlowKind::Release
    } else if category == 2 {
        FlowKind::Bugfix
    } else {
        FlowKind::Hotfix
    }
}

/// Whether a category index names a kind of flow.
pub fn is_valid_category(category: i32) -> (valid: bool)
    ensures
        valid == valid_category(category as int),
{
    0 <= category && category <= 3
}

/// The category index under which the user interface lists a kind of flow.
pub fn category_of(kind: FlowKind) -> (category: i32)
    ensures
        category as int == category_spec(kind),
{
    match kind {
        FlowKind::Feature => 0,
        FlowKind::Release => 1,
        FlowKind::Bugfix => 2,
        FlowKind::Hotfix => 3,
    }
}

/// The category index and the kind of flow determine each other: exactly
/// the indices 0 to 3 name a flow, and mapping a kind to its index and back
/// gives the kind again.
pub proof fn law_category_roundtrip(kind: FlowKind, category: int)
    ensures
        kind_of_category_spec(category_spec(kind)) == Some(kind),
        kind_of_category_spec(category) is Some <==> 0 <= category < 4,
        kind_of_category_spec(category) == Some(kind) <==> category == category_spec(kind),
{
}

/// The prefix of the branches of a kind of flow.
pub open spec fn prefix_spec(kind: FlowKind) -> Seq<char> {
    match kind {
        FlowKind::Feature => "feature"@,
        FlowKind::Release => "release"@,
        FlowKind::Bugfix => "bugfix"@,
        FlowKind::Hotfix => "hotfix"@,
    }
}

/// The branch of the flow of a given kind and name: the prefix, a slash and
/// the name.
pub open spec fn branch_spec(kind: FlowKind, name: Seq<char>) -> Seq<char> {
    prefix_spec(kind) + "/"@ + name
}

/// The branch on which a flow of the given kind and name lives, such as
/// `feature/login` for the feature `login`.
pub fn branch_name(kind: FlowKind, name: &str) -> (branch: String)
    ensures
        branch@ == branch_spec(kind, name@),
{
    let mut branch = match kind {
        FlowKind::Feature => String::from_str("feature"),
        FlowKind::Release => String::from_str("release"),
        FlowKind::Bugfix => String::from_str("bugfix"),
        FlowKind::Hotfix => String::from_str("hotfix"),
    };
    branch.append("/");
    branch.append(name);
    branch
}

} // verus!
