//! Counting the entries of a table of flags that are still unset, to bound
//! the passes of a computation that sets one flag after another.

use vstd::prelude::*;

verus! {

/// How many entries are `false`.
pub open spec fn count_false(flags: Seq<bool>) -> nat
    decreases flags.len(),
{
    if flags.len() == 0 {
        0
    } else {
        count_false(flags.drop_last()) + if flags.last() {
            0nat
        } else {
            1nat
        }
    }
}

/// A new entry counts if it is `false`.
pub proof fn lemma_count_false_push(flags: Seq<bool>, flag: bool)
    ensures
        count_false(flags.push(flag)) == count_false(flags) + if flag {
            0nat
        } else {
            1nat
        },
{
    assert(flags.push(flag).drop_last() == flags);
}

/// Setting an entry that was `false` leaves one less.
pub proof fn lemma_count_false_set(flags: Seq<bool>, at: int)
    requires
        0 <= at < flags.len(),
        !flags[at],
    ensures
        count_false(flags.update(at, true)) + 1 == count_false(flags),
    decreases flags.len(),
{
    let after = flags.update(at, true);
    if at == flags.len() - 1 {
        assert(after.drop_last() == flags.drop_last());
    } else {
        assert(after.drop_last() == flags.drop_last().update(at, true));
        lemma_count_false_set(flags.drop_last(), at);
    }
}

} // verus!
