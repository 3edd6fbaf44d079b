use vstd::prelude::*;

use crate::vault::{add_with_key_model, remove_model, update_model};

verus! {

/// One operation on a vault's contents, with the key it names and, where it
/// stores a value, that value (for an update: what the transform returned).
pub enum Step<T> {
    Add(u128, T),
    AddWithKey(u128, T),
    Remove(u128),
    Update(u128, T),
    Clear,
}

/// The contents after one step.
pub open spec fn apply_step<T>(m: Map<u128, T>, s: Step<T>) -> Map<u128, T> {
    match s {
        Step::Add(k, v) => m.insert(k, v),
        Step::AddWithKey(k, v) => add_with_key_model(m, k, v).0,
        Step::Remove(k) => remove_model(m, k).0,
        Step::Update(k, v) => update_model(m, k, v).0,
        Step::Clear => Map::empty(),
    }
}

/// The contents after a sequence of steps, taken in order from `m`.
pub open spec fn run_steps<T>(m: Map<u128, T>, steps: Seq<Step<T>>) -> Map<u128, T>
    decreases steps.len(),
{
    if steps.len() == 0 {
        m
    } else {
        apply_step(run_steps(m, steps.drop_last()), steps.last())
    }
}

/// Whether a step is an `add` or `add_with_key` that handed out or named `k`.
pub open spec fn step_inserts<T>(s: Step<T>, k: u128) -> bool {
    match s {
        Step::Add(j, _) => j == k,
        Step::AddWithKey(j, _) => j == k,
        _ => false,
    }
}

/// An entry is present right after `add` stored it.
pub proof fn lemma_has_item_after_add<T>(m: Map<u128, T>, k: u128, v: T)
    ensures
        m.insert(k, v).contains_key(k),
{
}

/// Starting from an empty vault, a key that no `add` returned and no
/// `add_with_key` named is never present, whatever the steps.
pub proof fn lemma_absent_unless_inserted<T>(steps: Seq<Step<T>>, k: u128)
    requires
        forall|i: int| 0 <= i < steps.len() ==> !step_inserts(#[trigger] steps[i], k),
    ensures
        !run_steps(Map::<u128, T>::empty(), steps).contains_key(k),
    decreases steps.len(),
{
    if steps.len() > 0 {
        let init = steps.drop_last();
        assert forall|i: int| 0 <= i < init.len() implies !step_inserts(#[trigger] init[i], k) by {
            assert(init[i] == steps[i]);
        }
        lemma_absent_unless_inserted(init, k);
        assert(!step_inserts(steps[steps.len() - 1], k));
    }
}

/// `add_with_key` on a fresh key stores the value and reports true; a second
/// call with that key reports false, and `remove` then hands back the first
/// value.
pub proof fn lemma_add_with_key_twice<T>(m: Map<u128, T>, k: u128, v1: T, v2: T)
    requires
        !m.contains_key(k),
    ensures
        add_with_key_model(m, k, v1).1,
        !add_with_key_model(add_with_key_model(m, k, v1).0, k, v2).1,
        add_with_key_model(add_with_key_model(m, k, v1).0, k, v2).0 == add_with_key_model(
            m,
            k,
            v1,
        ).0,
        remove_model(add_with_key_model(add_with_key_model(m, k, v1).0, k, v2).0, k).1 == Some(
            v1,
        ),
{
}

/// `remove` hands back the value stored under a key, and a second `remove`
/// of that key right after it finds nothing.
pub proof fn lemma_remove_twice<T>(m: Map<u128, T>, k: u128, v: T)
    ensures
        remove_model(m.insert(k, v), k).1 == Some(v),
        remove_model(remove_model(m.insert(k, v), k).0, k).1 == None::<T>,
{
}

/// Starting from an empty vault, `remove` of a key that was never inserted
/// finds nothing, whatever the steps.
pub proof fn lemma_remove_never_inserted<T>(steps: Seq<Step<T>>, k: u128)
    requires
        forall|i: int| 0 <= i < steps.len() ==> !step_inserts(#[trigger] steps[i], k),
    ensures
        remove_model(run_steps(Map::<u128, T>::empty(), steps), k).1 == None::<T>,
{
    lemma_absent_unless_inserted(steps, k);
}

/// `update_item` on a present key reports true, and `remove` then hands back
/// what the transform returned for the stored value.
pub proof fn lemma_update_then_remove<T, F: FnMut(T) -> T>(
    m: Map<u128, T>,
    k: u128,
    operation: F,
    v: T,
)
    requires
        m.contains_key(k),
        operation.ensures((m[k],), v),
    ensures
        update_model(m, k, v).1,
        remove_model(update_model(m, k, v).0, k).1 == Some(v),
{
}

/// `update_item` on an absent key reports false and leaves the contents as
/// they were.
pub proof fn lemma_update_absent<T>(m: Map<u128, T>, k: u128, v: T)
    requires
        !m.contains_key(k),
    ensures
        update_model(m, k, v) == (m, false),
{
}

/// After `clear`, no key that was present before is present.
pub proof fn lemma_clear_removes_all<T>(m: Map<u128, T>, k: u128)
    requires
        m.contains_key(k),
    ensures
        !apply_step(m, Step::Clear).contains_key(k),
{
}

} // verus!
