//! First matches in sequences: the index of the first `true`, the first `Some`.
use vstd::prelude::*;

verus! {

/// The index of the first `true` in `flags`, or -1 when there is none.
pub open spec fn first_true(flags: Seq<bool>) -> int
    decreases flags.len(),
{
    if flags.len() == 0 {
        -1
    } else if flags[0] {
        0
    } else {
        let r = first_true(flags.drop_first());
        if r < 0 {
            -1
        } else {
            r + 1
        }
    }
}

/// A scan that has passed `i` entries that are `false` and stands on a `true`
/// (or at the end) has found `first_true`.
pub proof fn lemma_first_true_scan(flags: Seq<bool>, i: int)
    requires
        0 <= i <= flags.len(),
        forall|j: int| 0 <= j < i ==> !#[trigger] flags[j],
    ensures
        i < flags.len() && flags[i] ==> first_true(flags) == i,
        i == flags.len() ==> first_true(flags) == -1,
    decreases i,
{
    if i > 0 {
        let rest = flags.drop_first();
        assert(!flags[0]);
        assert forall|j: int| 0 <= j < i - 1 implies !#[trigger] rest[j] by {
            assert(rest[j] == flags[j + 1]);
        }
        lemma_first_true_scan(rest, i - 1);
        if i < flags.len() {
            assert(rest[i - 1] == flags[i]);
        }
    }
}

/// `first_true` is the position of the first `true`, or -1 exactly when all are `false`.
pub proof fn lemma_first_true(flags: Seq<bool>)
    ensures
        -1 <= first_true(flags) < flags.len(),
        first_true(flags) >= 0 ==> flags[first_true(flags)],
        forall|j: int| 0 <= j < first_true(flags) ==> !#[trigger] flags[j],
        first_true(flags) < 0 ==> forall|j: int| 0 <= j < flags.len() ==> !#[trigger] flags[j],
    decreases flags.len(),
{
    if flags.len() > 0 && !flags[0] {
        let rest = flags.drop_first();
        lemma_first_true(rest);
        assert forall|j: int| 0 < j < flags.len() implies flags[j] == rest[j - 1] by {}
        if first_true(rest) < 0 {
            assert forall|j: int| 0 <= j < flags.len() implies !#[trigger] flags[j] by {
                if j > 0 {
                    assert(!rest[j - 1]);
                }
            }
        } else {
            assert forall|j: int| 0 <= j < first_true(flags) implies !#[trigger] flags[j] by {
                if j > 0 {
                    assert(!rest[j - 1]);
                }
            }
        }
    }
}

/// The first entry of `items` that is `Some`, or `None` when all are `None`.
pub open spec fn first_some<T>(items: Seq<Option<T>>) -> Option<T>
    decreases items.len(),
{
    if items.len() == 0 {
        None
    } else if items[0] is Some {
        items[0]
    } else {
        first_some(items.drop_first())
    }
}

/// A scan that has passed `i` entries that are `None` and stands on a `Some`
/// (or at the end) has found `first_some`.
pub proof fn lemma_first_some_scan<T>(items: Seq<Option<T>>, i: int)
    requires
        0 <= i <= items.len(),
        forall|j: int| 0 <= j < i ==> #[trigger] items[j] is None,
    ensures
        i < items.len() && items[i] is Some ==> first_some(items) == items[i],
        i == items.len() ==> first_some(items) is None,
    decreases i,
{
    if i > 0 {
        let rest = items.drop_first();
        assert(items[0] is None);
        assert forall|j: int| 0 <= j < i - 1 implies #[trigger] rest[j] is None by {
            assert(rest[j] == items[j + 1]);
        }
        lemma_first_some_scan(rest, i - 1);
        if i < items.len() {
            assert(rest[i - 1] == items[i]);
        }
    }
}

/// The number of `true` entries.
pub open spec fn count_true(flags: Seq<bool>) -> nat
    decreases flags.len(),
{
    if flags.len() == 0 {
        0
    } else {
        count_true(flags.drop_last()) + if flags.last() {
            1nat
        } else {
            0nat
        }
    }
}

pub proof fn lemma_count_true_le_len(flags: Seq<bool>)
    ensures
        count_true(flags) <= flags.len(),
    decreases flags.len(),
{
    if flags.len() > 0 {
        lemma_count_true_le_len(flags.drop_last());
    }
}

} // verus!
