//! What holds of the ledger whatever transitions it goes through.

use vstd::prelude::*;
use crate::error::{CarbonCreditError, TokenFailure};
use crate::identity::Identity;
use crate::model::{LedgerView, Transition};
use crate::state::{ProjectType, MAX_REASON_LEN, MAX_STANDARD_LEN, MAX_URI_LEN};
use crate::sums::{
    amounts, amounts_of, issued_before, issued_for, issued_total, lemma_total_le,
    lemma_total_push, lemma_total_update, retired_amounts, retired_amounts_of, retired_for,
    retired_total, total,
};

verus! {

/// With distinct project ids, a project found under an id is the one that
/// the ledger means by that id.
pub proof fn lemma_project_index(l: LedgerView, i: int)
    requires
        l.project_ids_distinct(),
        0 <= i < l.projects.len(),
    ensures
        l.has_project(l.projects[i].project_id),
        l.project_index(l.projects[i].project_id) == i,
        l.project(l.projects[i].project_id) == Some(l.projects[i]),
{
    let id = l.projects[i].project_id;
    let j = l.project_index(id);
    assert(0 <= j < l.projects.len() && l.projects[j].project_id == id);
    if j < i {
        assert(l.projects[j].project_id != l.projects[i].project_id);
    } else if i < j {
        assert(l.projects[i].project_id != l.projects[j].project_id);
    }
}

/// With growing batch ids, a batch found under an id is the one that the
/// ledger means by that id.
pub proof fn lemma_batch_index(l: LedgerView, k: int)
    requires
        l.batch_ids_increase(),
        0 <= k < l.batches.len(),
    ensures
        l.has_batch(l.batches[k].batch_id),
        l.batch_index(l.batches[k].batch_id) == k,
        l.batch(l.batches[k].batch_id) == Some(l.batches[k]),
{
    let id = l.batches[k].batch_id;
    let j = l.batch_index(id);
    assert(0 <= j < l.batches.len() && l.batches[j].batch_id == id);
    if j < k {
        assert(l.batches[j].batch_id < l.batches[k].batch_id);
    } else if k < j {
        assert(l.batches[k].batch_id < l.batches[j].batch_id);
    }
}

/// With no identity retiring twice from one batch, a retirement found for a
/// batch and an identity is the one that the ledger means by them.
pub proof fn lemma_retirement_index(l: LedgerView, n: int)
    requires
        l.retirements_distinct(),
        0 <= n < l.retirements.len(),
    ensures
        l.has_retirement(l.retirements[n].batch_id, l.retirements[n].retired_by),
        l.retirement_index(l.retirements[n].batch_id, l.retirements[n].retired_by) == n,
        l.retirement(l.retirements[n].batch_id, l.retirements[n].retired_by) == Some(
            l.retirements[n],
        ),
{
    let r = l.retirements[n];
    let j = l.retirement_index(r.batch_id, r.retired_by);
    assert(0 <= j < l.retirements.len() && l.retirements[j].batch_id == r.batch_id
        && l.retirements[j].retired_by == r.retired_by);
    if j < n {
        assert(!(l.retirements[j].batch_id == l.retirements[n].batch_id
            && l.retirements[j].retired_by == l.retirements[n].retired_by));
    } else if n < j {
        assert(!(l.retirements[n].batch_id == l.retirements[j].batch_id
            && l.retirements[n].retired_by == l.retirements[j].retired_by));
    }
}

/// The ledger before its initialisation is consistent.
pub proof fn lemma_empty_is_consistent()
    ensures
        LedgerView::empty().inv(),
{
}

/// An initialisation leaves a consistent ledger consistent.
pub proof fn lemma_initialize_keeps_consistent(pre: LedgerView, caller: Identity)
    requires
        pre.inv(),
        pre.initialize_outcome() is Ok,
    ensures
        pre.after_initialize(caller).inv(),
{
    let post = pre.after_initialize(caller);
    assert(amounts(post.batches) =~= Seq::<int>::empty());
    assert(retired_amounts(post.batches) =~= Seq::<int>::empty());
}

/// A registration leaves a consistent ledger consistent.
pub proof fn lemma_create_project_keeps_consistent(
    pre: LedgerView,
    caller: Identity,
    project_id: u64,
    name: String,
    description: String,
    location: String,
    project_type: ProjectType,
    verification_standard: String,
    estimated_credits: u64,
    now: i64,
)
    requires
        pre.inv(),
        pre.create_project_outcome(caller, project_id, name@, description@, location@) is Ok,
        verification_standard@.len() <= MAX_STANDARD_LEN,
        pre.projects.len() < u64::MAX,
    ensures
        pre.after_create_project(
            caller,
            project_id,
            name,
            description,
            location,
            project_type,
            verification_standard,
            estimated_credits,
            now,
        ).inv(),
{
    let post = pre.after_create_project(
        caller,
        project_id,
        name,
        description,
        location,
        project_type,
        verification_standard,
        estimated_credits,
        now,
    );
    let n = pre.projects.len() as int;
    assert(!pre.has_project(project_id));
    assert(post.projects[n].project_id == project_id);
    assert forall|i: int| 0 <= i < post.projects.len() implies {
        let p = #[trigger] post.projects[i];
        &&& p.wf()
        &&& p.issued_credits == issued_for(post.batches, p.project_id)
        &&& p.retired_credits == retired_for(post.batches, p.project_id)
    } by {
        if i < n {
            assert(post.projects[i] == pre.projects[i]);
        } else {
            lemma_no_batch_of_unknown_project(pre, project_id);
        }
    }
    assert forall|i: int, j: int| 0 <= i < j < post.projects.len() implies (
    #[trigger] post.projects[i]).project_id != (#[trigger] post.projects[j]).project_id by {
        assert(post.projects[i] == pre.projects[i]);
        if j < n {
            assert(post.projects[j] == pre.projects[j]);
        }
    }
    assert forall|k: int| 0 <= k < post.batches.len() implies post.has_project(
        (#[trigger] post.batches[k]).project_id,
    ) by {
        let b = pre.batches[k];
        let i = pre.project_index(b.project_id);
        assert(pre.has_project(b.project_id));
        assert(post.projects[i].project_id == b.project_id);
    }
}

/// A project that is not registered has no batches: both of its sums are 0.
pub proof fn lemma_no_batch_of_unknown_project(l: LedgerView, project_id: u64)
    requires
        l.batches_sound(),
        !l.has_project(project_id),
    ensures
        issued_for(l.batches, project_id) == 0,
        retired_for(l.batches, project_id) == 0,
{
    let zeros = Seq::new(l.batches.len(), |k: int| 0int);
    assert forall|k: int| 0 <= k < l.batches.len() implies l.batches[k].project_id
        != project_id by {
        assert(l.has_project((#[trigger] l.batches[k]).project_id));
    }
    assert(amounts_of(l.batches, project_id) =~= zeros);
    assert(retired_amounts_of(l.batches, project_id) =~= zeros);
    lemma_total_zeros(l.batches.len());
}

/// A sequence of zeros sums to 0.
pub proof fn lemma_total_zeros(n: nat)
    ensures
        total(Seq::new(n, |k: int| 0int)) == 0,
    decreases n,
{
    if n > 0 {
        lemma_total_zeros((n - 1) as nat);
        assert(Seq::new(n, |k: int| 0int).drop_last() =~= Seq::new((n - 1) as nat, |k: int| 0int));
    }
}

/// A verification leaves a consistent ledger consistent.
pub proof fn lemma_verify_project_keeps_consistent(
    pre: LedgerView,
    caller: Identity,
    project_id: u64,
    now: i64,
)
    requires
        pre.inv(),
        pre.verify_project_outcome(caller, project_id) is Ok,
    ensures
        pre.after_verify_project(caller, project_id, now).inv(),
{
    let post = pre.after_verify_project(caller, project_id, now);
    let pi = pre.project_index(project_id);
    assert(0 <= pi < pre.projects.len() && pre.projects[pi].project_id == project_id);
    lemma_project_ids_kept(pre, post);
    assert forall|i: int| 0 <= i < post.projects.len() implies {
        let p = #[trigger] post.projects[i];
        &&& p.wf()
        &&& p.issued_credits == issued_for(post.batches, p.project_id)
        &&& p.retired_credits == retired_for(post.batches, p.project_id)
    } by {
        assert(pre.projects[i].wf());
    }
    assert forall|k: int| 0 <= k < post.batches.len() implies post.has_project(
        (#[trigger] post.batches[k]).project_id,
    ) by {
        assert(pre.has_project(pre.batches[k].project_id));
    }
}

/// Where the projects of two ledgers have the same ids in the same places,
/// and the batches and retirements are the same, what is said of ids in one
/// holds in the other.
proof fn lemma_project_ids_kept(pre: LedgerView, post: LedgerView)
    requires
        pre.inv(),
        post.projects.len() == pre.projects.len(),
        forall|i: int|
            0 <= i < pre.projects.len() ==> (#[trigger] post.projects[i]).project_id
                == pre.projects[i].project_id,
    ensures
        post.project_ids_distinct(),
        forall|id: u64| pre.has_project(id) ==> post.has_project(id),
{
    assert forall|i: int, j: int| 0 <= i < j < post.projects.len() implies (
    #[trigger] post.projects[i]).project_id != (#[trigger] post.projects[j]).project_id by {
        assert(pre.projects[i].project_id != pre.projects[j].project_id);
    }
    assert forall|id: u64| pre.has_project(id) implies post.has_project(id) by {
        let i = pre.project_index(id);
        assert(post.projects[i].project_id == id);
    }
}

/// An issuance leaves a consistent ledger consistent.
pub proof fn lemma_issue_credits_keeps_consistent(
    pre: LedgerView,
    caller: Identity,
    project_id: u64,
    amount: u64,
    vintage_year: u16,
    metadata_uri: String,
    recipient: Identity,
    now: i64,
)
    requires
        pre.inv(),
        pre.issue_credits_checked(caller, project_id, amount) is Ok,
        metadata_uri@.len() <= MAX_URI_LEN,
    ensures
        pre.after_issue_credits(
            caller,
            project_id,
            amount,
            vintage_year,
            metadata_uri,
            recipient,
            now,
        ).inv(),
{
    let post = pre.after_issue_credits(
        caller,
        project_id,
        amount,
        vintage_year,
        metadata_uri,
        recipient,
        now,
    );
    let pi = pre.project_index(project_id);
    let n = pre.batches.len() as int;
    let issued = pre.program_state.unwrap().total_credits_issued;
    let b = post.batches[n];
    assert(0 <= pi < pre.projects.len() && pre.projects[pi].project_id == project_id);
    assert(pre.projects[pi].wf());
    assert(b.project_id == project_id && b.batch_id == issued && b.amount == amount
        && b.retired_amount == 0);
    assert(!pre.has_batch(issued));
    lemma_project_ids_kept(pre, post);

    assert(amounts(post.batches) =~= amounts(pre.batches).push(amount as int));
    assert(retired_amounts(post.batches) =~= retired_amounts(pre.batches).push(0));
    lemma_total_push(amounts(pre.batches), amount as int);
    lemma_total_push(retired_amounts(pre.batches), 0);

    assert forall|i: int| 0 <= i < post.projects.len() implies {
        let p = #[trigger] post.projects[i];
        &&& p.wf()
        &&& p.issued_credits == issued_for(post.batches, p.project_id)
        &&& p.retired_credits == retired_for(post.batches, p.project_id)
    } by {
        let id = pre.projects[i].project_id;
        assert(pre.projects[i].wf());
        if i != pi {
            if i < pi {
                assert(pre.projects[i].project_id != pre.projects[pi].project_id);
            } else {
                assert(pre.projects[pi].project_id != pre.projects[i].project_id);
            }
        }
        let mine: int = if id == project_id {
            amount as int
        } else {
            0
        };
        assert(amounts_of(post.batches, id) =~= amounts_of(pre.batches, id).push(mine));
        assert(retired_amounts_of(post.batches, id) =~= retired_amounts_of(pre.batches, id).push(
            0,
        ));
        lemma_total_push(amounts_of(pre.batches, id), mine);
        lemma_total_push(retired_amounts_of(pre.batches, id), 0);
    }
    assert forall|k: int| 0 <= k < post.batches.len() implies {
        let c = #[trigger] post.batches[k];
        &&& c.wf()
        &&& post.has_project(c.project_id)
        &&& c.batch_id == issued_before(post.batches, k)
        &&& c.batch_id + c.amount <= issued_total(post.batches)
    } by {
        if k < n {
            assert(post.batches[k] == pre.batches[k]);
            assert(pre.has_project(pre.batches[k].project_id));
            assert(post.batches.take(k) =~= pre.batches.take(k));
        } else {
            assert(pre.has_project(project_id));
            assert(post.batches.take(k) =~= pre.batches);
        }
    }
    assert forall|k: int, l: int| 0 <= k < l < post.batches.len() implies (
    #[trigger] post.batches[k]).batch_id < (#[trigger] post.batches[l]).batch_id by {
        assert(post.batches[k] == pre.batches[k]);
        if l < n {
            assert(post.batches[l] == pre.batches[l]);
        } else {
            assert(pre.batches[k].batch_id + pre.batches[k].amount <= issued);
            assert(pre.batches[k].batch_id != issued);
        }
    }
    assert forall|m: int| 0 <= m < post.retirements.len() implies post.has_batch(
        (#[trigger] post.retirements[m]).batch_id,
    ) by {
        let id = pre.retirements[m].batch_id;
        assert(pre.has_batch(id));
        let k = pre.batch_index(id);
        assert(post.batches[k].batch_id == id);
    }
}

/// In a consistent ledger, what a batch has left to retire fits into what
/// its project and the program have left: retiring it overflows no counter.
pub proof fn lemma_retirement_fits(l: LedgerView, k: int, amount: u64)
    requires
        l.inv(),
        l.program_state is Some,
        0 <= k < l.batches.len(),
        amount <= l.batches[k].remaining(),
    ensures
        l.has_project(l.batches[k].project_id),
        l.project(l.batches[k].project_id).unwrap().retired_credits + amount <= l.project(
            l.batches[k].project_id,
        ).unwrap().issued_credits,
        l.program_state.unwrap().total_credits_retired + amount
            <= l.program_state.unwrap().total_credits_issued,
{
    let b = l.batches[k];
    let id = b.project_id;
    assert(l.has_project(id));
    let pi = l.project_index(id);
    assert(0 <= pi < l.projects.len() && l.projects[pi].project_id == id);
    let p = l.projects[pi];
    let more: int = b.retired_amount + amount;

    let all = retired_amounts(l.batches).update(k, more);
    assert forall|j: int| 0 <= j < all.len() implies all[j] <= amounts(l.batches)[j] by {
        assert(l.batches[j].wf());
    }
    lemma_total_le(all, amounts(l.batches));
    lemma_total_update(retired_amounts(l.batches), k, more);

    let mine = retired_amounts_of(l.batches, id).update(k, more);
    assert forall|j: int| 0 <= j < mine.len() implies mine[j] <= amounts_of(l.batches, id)[j] by {
        assert(l.batches[j].wf());
    }
    lemma_total_le(mine, amounts_of(l.batches, id));
    lemma_total_update(retired_amounts_of(l.batches, id), k, more);
}

/// A retirement leaves a consistent ledger consistent.
pub proof fn lemma_retire_credits_keeps_consistent(
    pre: LedgerView,
    caller: Identity,
    batch_id: u64,
    amount: u64,
    reason: String,
    now: i64,
)
    requires
        pre.inv(),
        pre.retire_credits_checked(caller, batch_id, amount) is Ok,
        reason@.len() <= MAX_REASON_LEN,
    ensures
        pre.after_retire_credits(caller, batch_id, amount, reason, now).inv(),
{
    let post = pre.after_retire_credits(caller, batch_id, amount, reason, now);
    let bi = pre.batch_index(batch_id);
    assert(0 <= bi < pre.batches.len() && pre.batches[bi].batch_id == batch_id);
    let b = pre.batches[bi];
    let pid = b.project_id;
    let pi = pre.project_index(pid);
    assert(0 <= pi < pre.projects.len() && pre.projects[pi].project_id == pid);
    let n = pre.retirements.len() as int;
    let more: int = b.retired_amount + amount;
    assert(b.wf());
    assert(!pre.has_retirement(batch_id, caller));
    lemma_retirement_fits(pre, bi, amount);
    lemma_project_ids_kept(pre, post);
    assert(post.batches[bi].retired_amount == more);
    assert(post.projects[pi].retired_credits == pre.projects[pi].retired_credits + amount);

    assert(amounts(post.batches) =~= amounts(pre.batches));
    assert(retired_amounts(post.batches) =~= retired_amounts(pre.batches).update(bi, more));
    lemma_total_update(retired_amounts(pre.batches), bi, more);

    assert forall|i: int| 0 <= i < post.projects.len() implies {
        let p = #[trigger] post.projects[i];
        &&& p.wf()
        &&& p.issued_credits == issued_for(post.batches, p.project_id)
        &&& p.retired_credits == retired_for(post.batches, p.project_id)
    } by {
        let id = pre.projects[i].project_id;
        assert(pre.projects[i].wf());
        if i != pi {
            if i < pi {
                assert(pre.projects[i].project_id != pre.projects[pi].project_id);
            } else {
                assert(pre.projects[pi].project_id != pre.projects[i].project_id);
            }
        }
        let mine: int = if id == pid {
            more
        } else {
            0
        };
        assert(amounts_of(post.batches, id) =~= amounts_of(pre.batches, id));
        assert(retired_amounts_of(post.batches, id) =~= retired_amounts_of(pre.batches, id).update(
            bi,
            mine,
        ));
        lemma_total_update(retired_amounts_of(pre.batches, id), bi, mine);
    }
    assert forall|k: int| 0 <= k < post.batches.len() implies {
        let c = #[trigger] post.batches[k];
        &&& c.wf()
        &&& post.has_project(c.project_id)
        &&& c.batch_id == issued_before(post.batches, k)
        &&& c.batch_id + c.amount <= issued_total(post.batches)
    } by {
        assert(pre.batches[k].wf());
        assert(pre.has_project(pre.batches[k].project_id));
        assert(amounts(post.batches.take(k)) =~= amounts(pre.batches.take(k)));
    }
    assert forall|k: int, l: int| 0 <= k < l < post.batches.len() implies (
    #[trigger] post.batches[k]).batch_id < (#[trigger] post.batches[l]).batch_id by {
        assert(pre.batches[k].batch_id < pre.batches[l].batch_id);
    }
    assert forall|m: int| 0 <= m < post.retirements.len() implies {
        let r = #[trigger] post.retirements[m];
        &&& r.wf()
        &&& post.has_batch(r.batch_id)
    } by {
        if m < n {
            let id = pre.retirements[m].batch_id;
            assert(pre.retirements[m].wf());
            assert(pre.has_batch(id));
            let k = pre.batch_index(id);
            assert(post.batches[k].batch_id == id);
        } else {
            assert(post.batches[bi].batch_id == batch_id);
        }
    }
    assert forall|m: int, l: int| 0 <= m < l < post.retirements.len() implies !((
    #[trigger] post.retirements[m]).batch_id == (#[trigger] post.retirements[l]).batch_id
        && post.retirements[m].retired_by == post.retirements[l].retired_by) by {
        assert(post.retirements[m] == pre.retirements[m]);
        if l < n {
            assert(post.retirements[l] == pre.retirements[l]);
        }
    }
}

/// A transition leaves a consistent ledger consistent, whether it goes
/// through or is refused.
pub proof fn lemma_transition_keeps_consistent(pre: LedgerView, t: Transition)
    requires
        pre.inv(),
        t.admissible(),
        pre.projects.len() < u64::MAX,
    ensures
        pre.apply(t).inv(),
{
    if pre.accepts(t) {
        match t {
            Transition::Initialize { caller } => {
                lemma_initialize_keeps_consistent(pre, caller);
            },
            Transition::CreateProject {
                caller,
                project_id,
                name,
                description,
                location,
                project_type,
                verification_standard,
                estimated_credits,
                now,
            } => {
                lemma_create_project_keeps_consistent(
                    pre,
                    caller,
                    project_id,
                    name,
                    description,
                    location,
                    project_type,
                    verification_standard,
                    estimated_credits,
                    now,
                );
            },
            Transition::VerifyProject { caller, project_id, now } => {
                lemma_verify_project_keeps_consistent(pre, caller, project_id, now);
            },
            Transition::IssueCredits {
                caller,
                project_id,
                amount,
                vintage_year,
                metadata_uri,
                recipient,
                now,
                minted,
            } => {
                lemma_issue_credits_keeps_consistent(
                    pre,
                    caller,
                    project_id,
                    amount,
                    vintage_year,
                    metadata_uri,
                    recipient,
                    now,
                );
            },
            Transition::RetireCredits { caller, batch_id, amount, reason, now, burned } => {
                lemma_retire_credits_keeps_consistent(pre, caller, batch_id, amount, reason, now);
            },
            Transition::TransferCredits { .. } => {},
        }
    }
}

/// A transition adds at most one project.
pub proof fn lemma_transition_adds_one_project_at_most(pre: LedgerView, t: Transition)
    ensures
        pre.apply(t).projects.len() <= pre.projects.len() + 1,
{
}

/// Whatever transitions an empty ledger goes through, it is consistent after
/// each of them, and holds no more projects than there were transitions.
pub proof fn lemma_consistent_after_every_run(ts: Seq<Transition>)
    requires
        forall|n: int| 0 <= n < ts.len() ==> (#[trigger] ts[n]).admissible(),
        ts.len() < u64::MAX,
    ensures
        LedgerView::empty().run(ts).inv(),
        LedgerView::empty().run(ts).projects.len() <= ts.len(),
    decreases ts.len(),
{
    if ts.len() > 0 {
        let before = LedgerView::empty().run(ts.drop_last());
        lemma_consistent_after_every_run(ts.drop_last());
        lemma_transition_keeps_consistent(before, ts.last());
        lemma_transition_adds_one_project_at_most(before, ts.last());
    }
}

/// Whatever transitions an empty ledger goes through, no project has more
/// credits issued than its estimate allows.
pub proof fn lemma_issued_within_estimate(ts: Seq<Transition>, i: int)
    requires
        forall|n: int| 0 <= n < ts.len() ==> (#[trigger] ts[n]).admissible(),
        ts.len() < u64::MAX,
        0 <= i < LedgerView::empty().run(ts).projects.len(),
    ensures
        LedgerView::empty().run(ts).projects[i].issued_credits <= LedgerView::empty().run(
            ts,
        ).projects[i].estimated_credits,
{
    lemma_consistent_after_every_run(ts);
    assert(LedgerView::empty().run(ts).projects[i].wf());
}

/// Whatever transitions an empty ledger goes through, no batch has more
/// credits retired than it holds.
pub proof fn lemma_retired_within_amount(ts: Seq<Transition>, k: int)
    requires
        forall|n: int| 0 <= n < ts.len() ==> (#[trigger] ts[n]).admissible(),
        ts.len() < u64::MAX,
        0 <= k < LedgerView::empty().run(ts).batches.len(),
    ensures
        LedgerView::empty().run(ts).batches[k].retired_amount <= LedgerView::empty().run(
            ts,
        ).batches[k].amount,
{
    lemma_consistent_after_every_run(ts);
    assert(LedgerView::empty().run(ts).batches[k].wf());
}

/// Whatever transitions an empty ledger goes through, the program's issued
/// credits are the sum of the amounts of all batches, and its retired credits
/// the sum of what is retired of each.
pub proof fn lemma_totals_are_sums(ts: Seq<Transition>)
    requires
        forall|n: int| 0 <= n < ts.len() ==> (#[trigger] ts[n]).admissible(),
        ts.len() < u64::MAX,
        LedgerView::empty().run(ts).program_state is Some,
    ensures
        LedgerView::empty().run(ts).program_state.unwrap().total_credits_issued == issued_total(
            LedgerView::empty().run(ts).batches,
        ),
        LedgerView::empty().run(ts).program_state.unwrap().total_credits_retired == retired_total(
            LedgerView::empty().run(ts).batches,
        ),
{
    lemma_consistent_after_every_run(ts);
}

/// Two issuances in a row that both go through record two batches, one
/// after the other in the order of issuance. The first batch's id is the
/// number of credits issued before it, the second one's id is greater by the
/// first amount, and the two ids differ. This holds whatever projects and
/// amounts the two issuances name.
pub proof fn lemma_issuances_get_consecutive_ids(
    pre: LedgerView,
    first: Transition,
    second: Transition,
)
    requires
        pre.inv(),
        first is IssueCredits,
        second is IssueCredits,
        first.admissible(),
        pre.accepts(first),
        pre.apply(first).accepts(second),
    ensures
        ({
            let post = pre.apply(first).apply(second);
            let n = pre.batches.len() as int;
            &&& post.batches.len() == n + 2
            &&& post.batches[n].batch_id == pre.program_state.unwrap().total_credits_issued
            &&& post.batches[n].amount == first->IssueCredits_amount
            &&& post.batches[n].project_id == first->IssueCredits_project_id
            &&& post.batches[n + 1].batch_id == post.batches[n].batch_id + post.batches[n].amount
            &&& post.batches[n + 1].amount == second->IssueCredits_amount
            &&& post.batches[n + 1].project_id == second->IssueCredits_project_id
            &&& post.batches[n].batch_id < post.batches[n + 1].batch_id
        }),
{
    let mid = pre.apply(first);
    let post = mid.apply(second);
    let n = pre.batches.len() as int;
    lemma_transition_after_issue_shape(pre, first);
    lemma_transition_after_issue_shape(mid, second);
    assert(post.batches[n] == mid.batches[n]);
    assert(!mid.has_batch(mid.program_state.unwrap().total_credits_issued));
}

/// An issuance that goes through appends one batch for the project that it
/// names: of the amount asked for, with the credits issued before as its id.
/// It adds the amount to the program's issued credits.
pub proof fn lemma_transition_after_issue_shape(pre: LedgerView, t: Transition)
    requires
        t is IssueCredits,
        pre.accepts(t),
    ensures
        ({
            let post = pre.apply(t);
            let n = pre.batches.len() as int;
            &&& pre.program_state is Some
            &&& post.program_state is Some
            &&& post.batches == pre.batches.push(post.batches[n])
            &&& post.batches[n].batch_id == pre.program_state.unwrap().total_credits_issued
            &&& post.batches[n].amount == t->IssueCredits_amount
            &&& post.batches[n].project_id == t->IssueCredits_project_id
            &&& post.batches[n].retired_amount == 0
            &&& post.program_state.unwrap().total_credits_issued
                == pre.program_state.unwrap().total_credits_issued + t->IssueCredits_amount
        }),
{
    let id = t->IssueCredits_project_id;
    let i = pre.project_index(id);
    assert(pre.has_project(id));
    assert(0 <= i < pre.projects.len() && pre.projects[i].project_id == id);
}

/// After an issuance of no credits at all, no further issuance goes
/// through: the next batch would get the id of the empty one.
pub proof fn lemma_empty_batch_ends_issuance(pre: LedgerView, first: Transition, second: Transition)
    requires
        pre.inv(),
        first is IssueCredits,
        second is IssueCredits,
        first.admissible(),
        pre.accepts(first),
        first->IssueCredits_amount == 0,
    ensures
        !pre.apply(first).accepts(second),
{
    let mid = pre.apply(first);
    let n = pre.batches.len() as int;
    lemma_transition_after_issue_shape(pre, first);
    assert(mid.batches[n].batch_id == mid.program_state.unwrap().total_credits_issued);
    assert(mid.has_batch(mid.program_state.unwrap().total_credits_issued));
}

/// Once an identity has retired credits of a batch, its next retirement of
/// credits of that batch is refused as a duplicate, whatever the token
/// service answers, where the amount asked for is within what the batch has
/// left.
pub proof fn lemma_second_retirement_is_duplicate(
    pre: LedgerView,
    caller: Identity,
    batch_id: u64,
    amount: u64,
    reason: String,
    now: i64,
    again: u64,
    burned: Result<(), TokenFailure>,
)
    requires
        pre.inv(),
        pre.retire_credits_checked(caller, batch_id, amount) is Ok,
        reason@.len() <= MAX_REASON_LEN,
        amount + again <= pre.batch(batch_id).unwrap().remaining(),
    ensures
        pre.after_retire_credits(caller, batch_id, amount, reason, now).retire_credits_outcome(
            caller,
            batch_id,
            again,
            burned,
        ) == Err::<(), CarbonCreditError>(CarbonCreditError::DuplicateRetirement),
{
    let post = pre.after_retire_credits(caller, batch_id, amount, reason, now);
    lemma_retire_credits_keeps_consistent(pre, caller, batch_id, amount, reason, now);
    let k = pre.batch_index(batch_id);
    assert(0 <= k < pre.batches.len() && pre.batches[k].batch_id == batch_id);
    lemma_retirement_fits(pre, k, amount);
    assert(post.batches[k].batch_id == batch_id);
    lemma_batch_index(post, k);
    assert(post.has_project(post.batches[k].project_id));
    let n = pre.retirements.len() as int;
    assert(post.retirements[n].batch_id == batch_id && post.retirements[n].retired_by == caller);
    lemma_retirement_index(post, n);
}

/// Once an identity has retired credits of a batch, its next retirement of
/// credits of that batch is refused for want of credits, whatever the token
/// service answers, where the amount asked for is more than the batch has
/// left.
pub proof fn lemma_second_retirement_beyond_the_rest(
    pre: LedgerView,
    caller: Identity,
    batch_id: u64,
    amount: u64,
    reason: String,
    now: i64,
    again: u64,
    burned: Result<(), TokenFailure>,
)
    requires
        pre.inv(),
        pre.retire_credits_checked(caller, batch_id, amount) is Ok,
        reason@.len() <= MAX_REASON_LEN,
        amount + again > pre.batch(batch_id).unwrap().remaining(),
    ensures
        pre.after_retire_credits(caller, batch_id, amount, reason, now).retire_credits_outcome(
            caller,
            batch_id,
            again,
            burned,
        ) == Err::<(), CarbonCreditError>(CarbonCreditError::InsufficientCredits),
{
    let post = pre.after_retire_credits(caller, batch_id, amount, reason, now);
    lemma_retire_credits_keeps_consistent(pre, caller, batch_id, amount, reason, now);
    let k = pre.batch_index(batch_id);
    assert(0 <= k < pre.batches.len() && pre.batches[k].batch_id == batch_id);
    lemma_retirement_fits(pre, k, amount);
    assert(post.batches[k].batch_id == batch_id);
    lemma_batch_index(post, k);
    assert(post.has_project(post.batches[k].project_id));
}

/// No transition takes a counter back: the program's three counters, the
/// running totals of every project and what is retired of every batch stay
/// or grow.
pub proof fn lemma_counters_never_decrease(pre: LedgerView, t: Transition)
    requires
        pre.inv(),
        t.admissible(),
        pre.projects.len() < u64::MAX,
    ensures
        ({
            let post = pre.apply(t);
            &&& pre.program_state is Some ==> {
                &&& post.program_state is Some
                &&& pre.program_state.unwrap().total_credits_issued
                    <= post.program_state.unwrap().total_credits_issued
                &&& pre.program_state.unwrap().total_credits_retired
                    <= post.program_state.unwrap().total_credits_retired
                &&& pre.program_state.unwrap().project_count
                    <= post.program_state.unwrap().project_count
            }
            &&& pre.projects.len() <= post.projects.len()
            &&& forall|i: int|
                0 <= i < pre.projects.len() ==> {
                    &&& (#[trigger] post.projects[i]).project_id == pre.projects[i].project_id
                    &&& pre.projects[i].issued_credits <= post.projects[i].issued_credits
                    &&& pre.projects[i].retired_credits <= post.projects[i].retired_credits
                }
            &&& pre.batches.len() <= post.batches.len()
            &&& forall|k: int|
                0 <= k < pre.batches.len() ==> {
                    &&& (#[trigger] post.batches[k]).batch_id == pre.batches[k].batch_id
                    &&& post.batches[k].amount == pre.batches[k].amount
                    &&& pre.batches[k].retired_amount <= post.batches[k].retired_amount
                }
        }),
{
    let post = pre.apply(t);
    if pre.accepts(t) {
        match t {
            Transition::VerifyProject { caller, project_id, now } => {
                let i = pre.project_index(project_id);
                assert(0 <= i < pre.projects.len() && pre.projects[i].project_id == project_id);
            },
            Transition::IssueCredits { caller, project_id, .. } => {
                let i = pre.project_index(project_id);
                assert(0 <= i < pre.projects.len() && pre.projects[i].project_id == project_id);
                assert(pre.projects[i].wf());
            },
            Transition::RetireCredits { caller, batch_id, amount, .. } => {
                let k = pre.batch_index(batch_id);
                assert(0 <= k < pre.batches.len() && pre.batches[k].batch_id == batch_id);
                let id = pre.batches[k].project_id;
                let i = pre.project_index(id);
                assert(0 <= i < pre.projects.len() && pre.projects[i].project_id == id);
                lemma_batch_index(pre, k);
                lemma_project_index(pre, i);
                lemma_retirement_fits(pre, k, amount);
            },
            _ => {},
        }
    }
}

/// No transition deletes or changes a retirement: once recorded, it stays
/// as it is.
pub proof fn lemma_retirements_are_final(pre: LedgerView, t: Transition, n: int)
    requires
        0 <= n < pre.retirements.len(),
    ensures
        n < pre.apply(t).retirements.len(),
        pre.apply(t).retirements[n] == pre.retirements[n],
{
}

} // verus!
