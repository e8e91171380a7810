//! The batch-level guarantees of a run, proved once and for all from the
//! reconciler's model functions.

use vstd::prelude::*;

use crate::model::{is_eligible, Acceleration};
use crate::reconcile::{
    any_failure_of, eligible_of, ineligible_of, logs_of, remaining_of, AttemptResult,
};

verus! {

/// Eligibility filter: whatever the call outcomes were, the ineligible
/// requests pass through a run untouched — the surviving queue holds
/// exactly the same ineligible requests, in the same order, with the same
/// field values.
pub proof fn lemma_ineligible_pass_through(q: Seq<Acceleration>, res: Seq<AttemptResult>)
    requires
        res.len() == eligible_of(q).len(),
    ensures
        ineligible_of(remaining_of(q, res)) == ineligible_of(q),
    decreases q.len(),
{
    if q.len() == 0 {
    } else if is_eligible(q[0]) {
        lemma_ineligible_pass_through(q.drop_first(), res.drop_first());
        if !res[0].success {
            let rest = remaining_of(q.drop_first(), res.drop_first());
            assert((seq![q[0]] + rest).drop_first() =~= rest);
            assert(ineligible_of(seq![q[0]] + rest) == ineligible_of(rest));
        }
    } else {
        lemma_ineligible_pass_through(q.drop_first(), res);
        let rest = remaining_of(q.drop_first(), res);
        assert((seq![q[0]] + rest).drop_first() =~= rest);
        assert(ineligible_of(remaining_of(q, res)) =~= ineligible_of(q));
    }
}

/// Commit atomicity: one failed call anywhere in the batch sets the
/// batch-wide failure latch, so the commit is suppressed — `queue_to_persist`
/// returns `None` and the durable queue keeps its pre-run state.
pub proof fn lemma_commit_atomicity(res: Seq<AttemptResult>, j: int)
    requires
        0 <= j < res.len(),
        !res[j].success,
    ensures
        any_failure_of(res),
{
}

/// Commit correctness: when every attempted call succeeded, the surviving
/// queue is exactly the original queue minus its eligible requests — the
/// ineligible ones, unchanged and in their original order.
pub proof fn lemma_commit_correctness(q: Seq<Acceleration>, res: Seq<AttemptResult>)
    requires
        res.len() == eligible_of(q).len(),
        forall|j: int| 0 <= j < res.len() ==> res[j].success,
    ensures
        remaining_of(q, res) == ineligible_of(q),
    decreases q.len(),
{
    if q.len() == 0 {
    } else if is_eligible(q[0]) {
        assert(res.len() > 0);
        assert(forall|j: int|
            0 <= j < res.drop_first().len() ==> #[trigger] res.drop_first()[j] == res[j + 1]);
        lemma_commit_correctness(q.drop_first(), res.drop_first());
    } else {
        lemma_commit_correctness(q.drop_first(), res);
    }
}

/// Every request that `ineligible_of` keeps is ineligible.
pub proof fn lemma_ineligible_of_ineligible(q: Seq<Acceleration>)
    ensures
        forall|i: int| 0 <= i < ineligible_of(q).len() ==> !is_eligible(#[trigger] ineligible_of(
            q,
        )[i]),
    decreases q.len(),
{
    if q.len() > 0 {
        lemma_ineligible_of_ineligible(q.drop_first());
        let rest = ineligible_of(q.drop_first());
        assert forall|i: int| 0 <= i < ineligible_of(q).len() implies !is_eligible(
            #[trigger] ineligible_of(q)[i],
        ) by {
            if is_eligible(q[0]) {
                assert(ineligible_of(q)[i] == rest[i]);
            } else {
                assert(ineligible_of(q) == seq![q[0]] + rest);
                if i == 0 {
                    assert(ineligible_of(q)[0] == q[0]);
                } else {
                    assert(ineligible_of(q)[i] == rest[i - 1]);
                }
            }
        }
    }
}

/// A run over a queue with no eligible request is a no-op: nothing is
/// called, nothing is logged, and every request survives unchanged.
pub proof fn lemma_no_eligible_run(s: Seq<Acceleration>)
    requires
        forall|i: int| 0 <= i < s.len() ==> !is_eligible(s[i]),
    ensures
        eligible_of(s) == Seq::<Acceleration>::empty(),
        remaining_of(s, Seq::<AttemptResult>::empty()) == s,
        logs_of(s, Seq::<AttemptResult>::empty()) == Seq::<Seq<char>>::empty(),
    decreases s.len(),
{
    if s.len() == 0 {
        assert(remaining_of(s, Seq::<AttemptResult>::empty()) =~= s);
    } else {
        assert(!is_eligible(s[0]));
        lemma_no_eligible_run(s.drop_first());
        assert(remaining_of(s, Seq::<AttemptResult>::empty()) =~= seq![s[0]] + s.drop_first());
        assert(seq![s[0]] + s.drop_first() =~= s);
    }
}

/// Idempotent retry: after a run in which every call succeeded, the
/// surviving queue holds no eligible request, so a second run over it is a
/// no-op — no call, no log entry, and the queue survives it unchanged.
pub proof fn lemma_idempotent_retry(q: Seq<Acceleration>, res: Seq<AttemptResult>)
    requires
        res.len() == eligible_of(q).len(),
        forall|j: int| 0 <= j < res.len() ==> res[j].success,
    ensures
        eligible_of(remaining_of(q, res)) == Seq::<Acceleration>::empty(),
        remaining_of(remaining_of(q, res), Seq::<AttemptResult>::empty()) == remaining_of(q, res),
        logs_of(remaining_of(q, res), Seq::<AttemptResult>::empty()) == Seq::<Seq<char>>::empty(),
{
    lemma_commit_correctness(q, res);
    lemma_ineligible_of_ineligible(q);
    lemma_no_eligible_run(ineligible_of(q));
}

} // verus!
