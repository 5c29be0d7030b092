//! Finding the first set flag in a list of flags.

use vstd::prelude::*;

verus! {

/// `i` is the position of the first set flag.
pub open spec fn leads(flags: Seq<bool>, i: int) -> bool {
    &&& 0 <= i < flags.len()
    &&& flags[i]
    &&& forall|j: int| 0 <= j < i ==> !flags[j]
}

/// Some flag is set.
pub open spec fn any_set(flags: Seq<bool>) -> bool {
    exists|i: int| 0 <= i < flags.len() && flags[i]
}

/// The position of the first set flag, and 0 when no flag is set.
pub open spec fn first_set(flags: Seq<bool>) -> int {
    if any_set(flags) {
        choose|i: int| leads(flags, i)
    } else {
        0
    }
}

/// At most one position leads, and `first_set` names it.
pub proof fn lemma_leader_is_first_set(flags: Seq<bool>, i: int)
    requires
        leads(flags, i),
    ensures
        any_set(flags),
        first_set(flags) == i,
{
    let k = choose|k: int| leads(flags, k);
    assert(leads(flags, k));
    if k < i {
        assert(!flags[k]);
    } else if i < k {
        assert(!flags[i]);
    }
}

/// Whenever a flag is set, some position leads, and none after that flag.
pub proof fn lemma_set_flag_has_leader(flags: Seq<bool>, i: int)
    requires
        0 <= i < flags.len(),
        flags[i],
    ensures
        leads(flags, first_set(flags)),
        first_set(flags) <= i,
    decreases i,
{
    if forall|j: int| 0 <= j < i ==> !flags[j] {
        assert(leads(flags, i));
        lemma_leader_is_first_set(flags, i);
    } else {
        let j = choose|j: int| 0 <= j < i && flags[j];
        lemma_set_flag_has_leader(flags, j);
    }
}

/// `first_set` lies inside a non-empty list.
pub proof fn lemma_first_set_in_range(flags: Seq<bool>)
    requires
        flags.len() > 0,
    ensures
        0 <= first_set(flags) < flags.len(),
{
    if any_set(flags) {
        let i = choose|i: int| 0 <= i < flags.len() && flags[i];
        lemma_set_flag_has_leader(flags, i);
    }
}

/// Finds the position of the first set flag, and gives 0 when none is set.
pub fn first_set_index(flags: &Vec<bool>) -> (index: usize)
    ensures
        index == first_set(flags@),
        any_set(flags@) ==> leads(flags@, index as int),
        !any_set(flags@) ==> index == 0,
{
    let mut i: usize = 0;
    while i < flags.len()
        invariant
            i <= flags.len(),
            forall|j: int| 0 <= j < i ==> !flags@[j],
        decreases flags.len() - i,
    {
        if flags[i] {
            proof {
                lemma_leader_is_first_set(flags@, i as int);
            }
            return i;
        }
        i += 1;
    }
    0
}

} // verus!
