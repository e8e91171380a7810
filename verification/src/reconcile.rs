//! The reconciler core: partitions the queue by call outcome, produces the
//! audit-log lines, and latches whether any call failed.

use vstd::prelude::*;

use crate::logline::{build_log_line, log_line};
use crate::model::{is_eligible, Acceleration};

verus! {

/// The recorded outcome of one attempted daemon call: the timestamp taken
/// when the call returned, whether the call succeeded, and the diagnostic
/// text (meaningful only on failure).
pub struct AttemptResult {
    pub timestamp: String,
    pub success: bool,
    pub error: String,
}

/// What one run produces: the requests still pending, the audit-log lines
/// in attempt order, and the batch-wide failure latch.
pub struct RunResult {
    pub remaining: Vec<Acceleration>,
    pub log_entries: Vec<String>,
    pub any_failure: bool,
}

/// The eligible requests of a queue, in queue order.
pub open spec fn eligible_of(q: Seq<Acceleration>) -> Seq<Acceleration>
    decreases q.len(),
{
    if q.len() == 0 {
        Seq::empty()
    } else if is_eligible(q[0]) {
        seq![q[0]] + eligible_of(q.drop_first())
    } else {
        eligible_of(q.drop_first())
    }
}

/// The ineligible requests of a queue, in queue order.
pub open spec fn ineligible_of(q: Seq<Acceleration>) -> Seq<Acceleration>
    decreases q.len(),
{
    if q.len() == 0 {
        Seq::empty()
    } else if is_eligible(q[0]) {
        ineligible_of(q.drop_first())
    } else {
        seq![q[0]] + ineligible_of(q.drop_first())
    }
}

/// The requests that survive a run, given one result per eligible request
/// in queue order: every ineligible request, and every eligible request
/// whose call failed, all in queue order.
pub open spec fn remaining_of(q: Seq<Acceleration>, res: Seq<AttemptResult>) -> Seq<Acceleration>
    decreases q.len(),
{
    if q.len() == 0 {
        Seq::empty()
    } else if is_eligible(q[0]) {
        if res[0].success {
            remaining_of(q.drop_first(), res.drop_first())
        } else {
            seq![q[0]] + remaining_of(q.drop_first(), res.drop_first())
        }
    } else {
        seq![q[0]] + remaining_of(q.drop_first(), res)
    }
}

/// The audit-log lines of a run: one per eligible request, in queue order.
pub open spec fn logs_of(q: Seq<Acceleration>, res: Seq<AttemptResult>) -> Seq<Seq<char>>
    decreases q.len(),
{
    if q.len() == 0 {
        Seq::empty()
    } else if is_eligible(q[0]) {
        seq![
            log_line(
                res[0].timestamp@,
                q[0].txid->0@,
                q[0].fee_delta->0 as int,
                res[0].success,
                res[0].error@,
            ),
        ] + logs_of(q.drop_first(), res.drop_first())
    } else {
        logs_of(q.drop_first(), res)
    }
}

/// Whether any attempted call failed.
pub open spec fn any_failure_of(res: Seq<AttemptResult>) -> bool {
    exists|j: int| 0 <= j < res.len() && !res[j].success
}

/// The views of a sequence of strings.
pub open spec fn views_of(s: Seq<String>) -> Seq<Seq<char>> {
    s.map_values(|x: String| x@)
}

/// There is one log line per eligible request, whatever the outcomes were.
pub proof fn lemma_logs_len(q: Seq<Acceleration>, res: Seq<AttemptResult>)
    ensures
        logs_of(q, res).len() == eligible_of(q).len(),
    decreases q.len(),
{
    if q.len() == 0 {
    } else if is_eligible(q[0]) {
        lemma_logs_len(q.drop_first(), res.drop_first());
    } else {
        lemma_logs_len(q.drop_first(), res);
    }
}

pub(crate) proof fn lemma_any_failure_unfold(res: Seq<AttemptResult>)
    requires
        res.len() > 0,
    ensures
        any_failure_of(res) == (!res[0].success || any_failure_of(res.drop_first())),
{
    if !res[0].success {
        assert(any_failure_of(res));
    } else {
        if any_failure_of(res.drop_first()) {
            let j = choose|j: int| 0 <= j < res.drop_first().len() && !res.drop_first()[j].success;
            assert(!res[j + 1].success);
            assert(any_failure_of(res));
        }
        if any_failure_of(res) {
            let j = choose|j: int| 0 <= j < res.len() && !res[j].success;
            assert(j != 0);
            assert(!res.drop_first()[j - 1].success);
            assert(any_failure_of(res.drop_first()));
        }
    }
}

/// Processes the whole queue for one run. `results` holds one recorded
/// call outcome per eligible request, in queue order. The run keeps every
/// ineligible request and every failed one, emits exactly one audit line
/// per attempted call, and reports whether any call failed.
pub fn process(queue: Vec<Acceleration>, results: Vec<AttemptResult>) -> (r: RunResult)
    requires
        results@.len() == eligible_of(queue@).len(),
    ensures
        r.remaining@ == remaining_of(queue@, results@),
        views_of(r.log_entries@) == logs_of(queue@, results@),
        r.log_entries@.len() == eligible_of(queue@).len(),
        r.any_failure == any_failure_of(results@),
{
    let ghost q0 = queue@;
    let ghost res0 = results@;
    let mut queue = queue;
    let mut results = results;
    let mut remaining: Vec<Acceleration> = Vec::new();
    let mut log_entries: Vec<String> = Vec::new();
    let mut any_failure: bool = false;
    while queue.len() > 0
        invariant
            results@.len() == eligible_of(queue@).len(),
            remaining_of(q0, res0) == remaining@ + remaining_of(queue@, results@),
            logs_of(q0, res0) == views_of(log_entries@) + logs_of(queue@, results@),
            eligible_of(q0).len() == log_entries@.len() + eligible_of(queue@).len(),
            any_failure_of(res0) == (any_failure || any_failure_of(results@)),
        decreases queue.len(),
    {
        let ghost q_pre = queue@;
        let ghost res_pre = results@;
        let a = queue.remove(0);
        proof {
            assert(a == q_pre[0]);
            assert(queue@ =~= q_pre.drop_first());
        }
        if a.eligible() {
            proof {
                assert(eligible_of(q_pre).len() > 0);
                lemma_any_failure_unfold(res_pre);
            }
            let res = results.remove(0);
            proof {
                assert(res == res_pre[0]);
                assert(results@ =~= res_pre.drop_first());
            }
            let txid = match a.txid.as_ref() {
                Some(t) => String::from_str(t.as_str()),
                None => String::new(),
            };
            let fee_delta = match a.fee_delta {
                Some(v) => v,
                None => 0i64,
            };
            let AttemptResult { timestamp, success, error } = res;
            let line = build_log_line(
                timestamp,
                txid.as_str(),
                fee_delta,
                success,
                error.as_str(),
            );
            proof {
                assert(line@ == logs_of(q_pre, res_pre)[0]);
                assert(views_of(log_entries@.push(line)) =~= views_of(log_entries@).push(line@));
                assert(views_of(log_entries@).push(line@) + logs_of(queue@, results@) =~= views_of(
                    log_entries@,
                ) + logs_of(q_pre, res_pre));
            }
            log_entries.push(line);
            if !success {
                any_failure = true;
                proof {
                    assert(remaining@.push(a) + remaining_of(queue@, results@) =~= remaining@
                        + remaining_of(q_pre, res_pre));
                }
                remaining.push(a);
            }
        } else {
            proof {
                assert(remaining@.push(a) + remaining_of(queue@, results@) =~= remaining@
                    + remaining_of(q_pre, res_pre));
            }
            remaining.push(a);
        }
    }
    proof {
        assert(queue@.len() == 0);
        assert(remaining_of(queue@, results@) =~= Seq::<Acceleration>::empty());
        assert(remaining@ + Seq::<Acceleration>::empty() =~= remaining@);
        assert(logs_of(queue@, results@) =~= Seq::<Seq<char>>::empty());
        assert(views_of(log_entries@) + Seq::<Seq<char>>::empty() =~= views_of(log_entries@));
        assert(!any_failure_of(results@));
    }
    RunResult { remaining, log_entries, any_failure }
}

/// The batch-commit decision: the queue is persisted only when no attempted
/// call failed; after any failure nothing is persisted, so the durable
/// queue keeps its pre-run state and the next run retries.
pub fn queue_to_persist(run: RunResult) -> (o: Option<Vec<Acceleration>>)
    ensures
        run.any_failure ==> o is None,
        !run.any_failure ==> o is Some && o->0@ == run.remaining@,
{
    if run.any_failure {
        None
    } else {
        Some(run.remaining)
    }
}

} // verus!
