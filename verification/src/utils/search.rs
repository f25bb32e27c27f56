//! The first place in a sequence where something holds, and the first
//! place where it is least.

use vstd::prelude::*;

verus! {

/// The least index at which `flags` is true, or `flags.len()` if it is true
/// nowhere.
pub open spec fn first_true(flags: Seq<bool>) -> int
    decreases flags.len(),
{
    if flags.len() == 0 {
        0
    } else {
        let before = first_true(flags.drop_last());
        if before < flags.len() - 1 {
            before
        } else if flags.last() {
            flags.len() - 1
        } else {
            flags.len() as int
        }
    }
}

/// `i` is the least index at which `flags` is true, or its length if there
/// is none.
pub open spec fn is_first_true(flags: Seq<bool>, i: int) -> bool {
    &&& 0 <= i <= flags.len()
    &&& forall|k: int| 0 <= k < i ==> !flags[k]
    &&& i < flags.len() ==> flags[i]
}

pub proof fn lemma_first_true(flags: Seq<bool>)
    ensures
        is_first_true(flags, first_true(flags)),
    decreases flags.len(),
{
    if flags.len() > 0 {
        let front = flags.drop_last();
        lemma_first_true(front);
        assert forall|k: int| 0 <= k < first_true(flags) implies !flags[k] by {
            if k < front.len() {
                assert(front[k] == flags[k]);
            }
        }
        if first_true(front) < front.len() {
            assert(front[first_true(front)] == flags[first_true(front)]);
        }
    }
}

pub proof fn lemma_first_true_is(flags: Seq<bool>, i: int)
    requires
        is_first_true(flags, i),
    ensures
        first_true(flags) == i,
{
    lemma_first_true(flags);
    let f = first_true(flags);
    if f < i {
        assert(!flags[f]);
    } else if i < f {
        assert(!flags[i]);
    }
}

/// The least index at which `loads` is least; 0 for an empty sequence.
pub open spec fn first_least(loads: Seq<nat>) -> int
    decreases loads.len(),
{
    if loads.len() <= 1 {
        0
    } else {
        let before = first_least(loads.drop_last());
        if loads.last() < loads[before] {
            loads.len() - 1
        } else {
            before
        }
    }
}

/// No entry of `loads` is below the one at `i`, and none before `i` equals
/// it.
pub open spec fn is_first_least(loads: Seq<nat>, i: int) -> bool {
    &&& 0 <= i < loads.len()
    &&& forall|k: int| 0 <= k < loads.len() ==> loads[i] <= loads[k]
    &&& forall|k: int| 0 <= k < i ==> loads[i] < loads[k]
}

pub proof fn lemma_first_least(loads: Seq<nat>)
    requires
        loads.len() > 0,
    ensures
        is_first_least(loads, first_least(loads)),
    decreases loads.len(),
{
    if loads.len() > 1 {
        let front = loads.drop_last();
        lemma_first_least(front);
        let before = first_least(front);
        let i = first_least(loads);
        assert(front[before] == loads[before]);
        assert forall|k: int| 0 <= k < loads.len() implies loads[i] <= loads[k] by {
            if k < front.len() {
                assert(front[k] == loads[k]);
            }
        }
        assert forall|k: int| 0 <= k < i implies loads[i] < loads[k] by {
            assert(front[k] == loads[k]);
        }
    }
}

pub proof fn lemma_first_least_is(loads: Seq<nat>, i: int)
    requires
        is_first_least(loads, i),
    ensures
        first_least(loads) == i,
{
    lemma_first_least(loads);
    let f = first_least(loads);
    if f < i {
        assert(loads[i] < loads[f]);
        assert(loads[f] <= loads[i]);
    } else if i < f {
        assert(loads[f] < loads[i]);
        assert(loads[i] <= loads[f]);
    }
}

} // verus!
