use vstd::prelude::*;

verus! {

/// The names in a list of branches, as sequences of characters.
pub open spec fn names_view(list: Seq<String>) -> Seq<Seq<char>> {
    list.map_values(|b: String| b@)
}

/// The names in a list of branches that may have failed to load; a list
/// that failed to load counts as empty.
pub open spec fn loaded_names(list: Option<Seq<String>>) -> Seq<Seq<char>> {
    match list {
        Some(l) => names_view(l),
        None => Seq::empty(),
    }
}

/// The view of an optional vector of branch names.
pub open spec fn opt_vec_view(list: &Option<Vec<String>>) -> Option<Seq<String>> {
    match list {
        Some(v) => Some(v@),
        None => None,
    }
}

/// Whether `name` is one of the branches in `list`.
pub fn contains_branch(list: &Vec<String>, name: &String) -> (found: bool)
    ensures
        found == names_view(list@).contains(name@),
{
    let mut i: usize = 0;
    while i < list.len()
        invariant
            i <= list.len(),
            forall|j: int| 0 <= j < i ==> list@[j]@ != name@,
        decreases list.len() - i,
    {
        if list[i] == *name {
            proof {
                assert(names_view(list@)[i as int] == name@);
            }
            return true;
        }
        i = i + 1;
    }
    proof {
        if names_view(list@).contains(name@) {
            let k = choose|k: int| 0 <= k < names_view(list@).len() && names_view(list@)[k] == name@;
            assert(list@[k]@ == name@);
        }
    }
    false
}

/// Whether `name` is in a list of branches that may have failed to load
/// (`None`), which then counts as empty.
pub fn loaded_contains(list: &Option<Vec<String>>, name: &String) -> (found: bool)
    ensures
        found == loaded_names(opt_vec_view(list)).contains(name@),
{
    match list {
        Some(branches) => contains_branch(branches, name),
        None => false,
    }
}

/// Whether `name` is among the local or the remote branches. A list that
/// could not be loaded (`None`) counts as empty.
pub fn exists_locally_or_remotely(local: &Option<Vec<String>>, remote: &Option<Vec<String>>, name: &String) -> (found: bool)
    ensures
        found == (loaded_names(opt_vec_view(local)).contains(name@)
            || loaded_names(opt_vec_view(remote)).contains(name@)),
{
    let mut found = false;
    if loaded_contains(local, name) {
        found = true;
    }
    if loaded_contains(remote, name) {
        found = true;
    }
    found
}

/// Whether a `develop` branch exists locally or on the remote; a list that
/// could not be loaded counts as empty.
pub fn develop_exists(local: &Option<Vec<String>>, remote: &Option<Vec<String>>) -> (exists: bool)
    ensures
        exists == (loaded_names(opt_vec_view(local)).contains("develop"@)
            || loaded_names(opt_vec_view(remote)).contains("develop"@)),
{
    let develop = String::from_str("develop");
    exists_locally_or_remotely(local, remote, &develop)
}

} // verus!
