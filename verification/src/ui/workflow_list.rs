//! Rebuilding the workflow list of the detail view: the workflows whose
//! expanders were open stay open, whether or not their expanders carry the
//! mark of runs still moving.
use crate::collections::{is_listed, key_set};
use crate::ui::run_display::{
    expanded_workflow_id, expander_name, expander_workflow, law_marked_expander_reads_back,
    mark_expander_name, marked_expander_name, without_active_suffix,
};
use vstd::prelude::*;

verus! {

/// The workflow an open expander's name refers to: the name read back
/// after any `_ACTIVE` mark is taken off.
pub open spec fn open_expander_workflow(name: Seq<char>) -> Option<i64> {
    expander_workflow(without_active_suffix(name))
}

/// The workflow ids read back from the names of the open expanders.
pub open spec fn expanded_ids_of(names: Seq<Seq<char>>) -> Set<i64> {
    Set::new(
        |id: i64| exists|i: int| 0 <= i < names.len() && open_expander_workflow(#[trigger] names[i]) == Some(id),
    )
}

/// The views of a list of names.
pub open spec fn name_views(names: Seq<String>) -> Seq<Seq<char>> {
    names.map_values(|n: String| n@)
}

/// Collects the workflow ids of the expanders that were open before the
/// list is rebuilt, marked or not; names that do not read back as a
/// workflow are skipped.
pub fn collect_expanded_ids(open_expander_names: &Vec<String>) -> (ids: Vec<i64>)
    ensures
        key_set(ids@) == expanded_ids_of(name_views(open_expander_names@)),
{
    let ghost names = name_views(open_expander_names@);
    let mut ids: Vec<i64> = Vec::new();
    let mut i: usize = 0;
    while i < open_expander_names.len()
        invariant
            i <= open_expander_names@.len(),
            names == name_views(open_expander_names@),
            forall|id: i64|
                #[trigger] key_set(ids@).contains(id) <==> exists|j: int|
                    0 <= j < i && open_expander_workflow(#[trigger] names[j]) == Some(id),
        decreases open_expander_names@.len() - i,
    {
        let base = mark_expander_name(open_expander_names[i].as_str(), false);
        let found = expanded_workflow_id(base.as_str());
        assert(names[i as int] == open_expander_names@[i as int]@);
        let ghost before = ids@;
        match found {
            Some(id) => {
                ids.push(id);
                assert forall|x: i64| #[trigger] key_set(ids@).contains(x) <==> exists|j: int|
                    0 <= j < i + 1 && open_expander_workflow(#[trigger] names[j]) == Some(x) by {
                    if key_set(ids@).contains(x) {
                        let t = choose|t: int| 0 <= t < ids@.len() && (#[trigger] ids@[t])@ == x;
                        if t < before.len() {
                            assert(before[t] == ids@[t]);
                            assert(key_set(before).contains(x));
                        }
                    }
                    if exists|j: int| 0 <= j < i + 1 && open_expander_workflow(#[trigger] names[j]) == Some(x) {
                        let j = choose|j: int| 0 <= j < i + 1 && open_expander_workflow(#[trigger] names[j]) == Some(x);
                        if j < i {
                            assert(key_set(before).contains(x));
                            let t = choose|t: int| 0 <= t < before.len() && (#[trigger] before[t])@ == x;
                            assert(ids@[t] == before[t]);
                        } else {
                            assert(ids@[before.len() as int] == id);
                        }
                    }
                }
            },
            None => {
                assert forall|x: i64| #[trigger] key_set(ids@).contains(x) <==> exists|j: int|
                    0 <= j < i + 1 && open_expander_workflow(#[trigger] names[j]) == Some(x) by {
                    if exists|j: int| 0 <= j < i + 1 && open_expander_workflow(#[trigger] names[j]) == Some(x) {
                        let j = choose|j: int| 0 <= j < i + 1 && open_expander_workflow(#[trigger] names[j]) == Some(x);
                        assert(j != i);
                    }
                }
            },
        }
        i = i + 1;
    }
    assert(key_set(ids@) =~= expanded_ids_of(names));
    ids
}

/// Whether the rebuilt expander of workflow `workflow_id` starts open.
pub fn should_expand(expanded_ids: &Vec<i64>, workflow_id: i64) -> (open: bool)
    ensures
        open == key_set(expanded_ids@).contains(workflow_id),
{
    is_listed(expanded_ids, &workflow_id)
}

/// A workflow whose expander was open is open again after the list is
/// rebuilt, whether its expander was marked as having runs still moving or
/// not.
pub proof fn law_expansion_survives_rebuild(open_names: Seq<Seq<char>>, workflow_id: i64, active: bool)
    requires
        open_names.contains(marked_expander_name(expander_name(workflow_id), active)),
    ensures
        expanded_ids_of(open_names).contains(workflow_id),
{
    law_marked_expander_reads_back(workflow_id, active);
    let i = choose|i: int|
        0 <= i < open_names.len() && open_names[i] == marked_expander_name(
            expander_name(workflow_id),
            active,
        );
    assert(open_expander_workflow(open_names[i]) == Some(workflow_id));
}

} // verus!
