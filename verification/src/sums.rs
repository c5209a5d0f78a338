//! Sums over the batches of a ledger.

use vstd::prelude::*;
use crate::state::CreditBatch;

verus! {

/// The sum of the numbers in `s`.
pub open spec fn total(s: Seq<int>) -> int
    decreases s.len(),
{
    if s.len() == 0 {
        0
    } else {
        total(s.drop_last()) + s.last()
    }
}

/// The amount of each batch, in order.
pub open spec fn amounts(batches: Seq<CreditBatch>) -> Seq<int> {
    Seq::new(batches.len(), |k: int| batches[k].amount as int)
}

/// What of each batch is retired, in order.
pub open spec fn retired_amounts(batches: Seq<CreditBatch>) -> Seq<int> {
    Seq::new(batches.len(), |k: int| batches[k].retired_amount as int)
}

/// The amount of each batch, in order, with 0 for a batch of another project.
pub open spec fn amounts_of(batches: Seq<CreditBatch>, project_id: u64) -> Seq<int> {
    Seq::new(
        batches.len(),
        |k: int|
            if batches[k].project_id == project_id {
                batches[k].amount as int
            } else {
                0
            },
    )
}

/// What of each batch is retired, in order, with 0 for a batch of another
/// project.
pub open spec fn retired_amounts_of(batches: Seq<CreditBatch>, project_id: u64) -> Seq<int> {
    Seq::new(
        batches.len(),
        |k: int|
            if batches[k].project_id == project_id {
                batches[k].retired_amount as int
            } else {
                0
            },
    )
}

/// All credits of the batches.
pub open spec fn issued_total(batches: Seq<CreditBatch>) -> int {
    total(amounts(batches))
}

/// All retired credits of the batches.
pub open spec fn retired_total(batches: Seq<CreditBatch>) -> int {
    total(retired_amounts(batches))
}

/// The credits of the batches of one project.
pub open spec fn issued_for(batches: Seq<CreditBatch>, project_id: u64) -> int {
    total(amounts_of(batches, project_id))
}

/// The retired credits of the batches of one project.
pub open spec fn retired_for(batches: Seq<CreditBatch>, project_id: u64) -> int {
    total(retired_amounts_of(batches, project_id))
}

/// The credits of the first `k` batches.
pub open spec fn issued_before(batches: Seq<CreditBatch>, k: int) -> int {
    issued_total(batches.take(k))
}

/// Appending a number adds it to the sum.
pub proof fn lemma_total_push(s: Seq<int>, x: int)
    ensures
        total(s.push(x)) == total(s) + x,
{
    assert(s.push(x).drop_last() =~= s);
}

/// Replacing a number changes the sum by the difference.
pub proof fn lemma_total_update(s: Seq<int>, i: int, x: int)
    requires
        0 <= i < s.len(),
    ensures
        total(s.update(i, x)) == total(s) - s[i] + x,
    decreases s.len(),
{
    let t = s.update(i, x);
    if i == s.len() - 1 {
        assert(t.drop_last() =~= s.drop_last());
    } else {
        lemma_total_update(s.drop_last(), i, x);
        assert(t.drop_last() =~= s.drop_last().update(i, x));
    }
}

/// A sequence that is nowhere above another has no greater sum.
pub proof fn lemma_total_le(s: Seq<int>, t: Seq<int>)
    requires
        s.len() == t.len(),
        forall|i: int| 0 <= i < s.len() ==> s[i] <= t[i],
    ensures
        total(s) <= total(t),
    decreases s.len(),
{
    if s.len() > 0 {
        lemma_total_le(s.drop_last(), t.drop_last());
    }
}

} // verus!
