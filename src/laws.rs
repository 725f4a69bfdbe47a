//! Properties that hold across the queue's operations.

use vstd::prelude::*;
use crate::client::{wait_outcome, WaitStep};
use crate::keys::{processing_key, queue_key, scheduled_key};
use crate::queue::{claim_ops, retry_ops, schedule_ops, submit_ops, BrokerModel, Op};
use crate::registry::chosen_slot;
use crate::task::{backoff_delay, time_after, TaskRecord};
use crate::worker::{claimed_task, finished_task, ClaimOutcome, ExecutionOutcome};

verus! {

proof fn lemma_apply_two(m: BrokerModel, a: Op, b: Op)
    ensures
        m.apply_all(seq![a, b]) == m.apply(a).apply(b),
{
    let s2 = seq![a, b];
    let s1 = seq![b];
    assert(s2.drop_first() =~= s1);
    assert(s1.drop_first() =~= Seq::<Op>::empty());
    let m1 = m.apply(a);
    let m2 = m1.apply(b);
    assert(m2.apply_all(Seq::<Op>::empty()) == m2);
    assert(m1.apply_all(s1) == m2.apply_all(s1.drop_first()));
    assert(m.apply_all(s2) == m1.apply_all(s2.drop_first()));
}

/// Within a queue, a task submitted at a higher priority is always ahead of
/// one submitted at a lower priority: whatever the broker held before and in
/// whichever order the two were submitted, the lower one is not the
/// highest-scored entry, so a claim cannot take it first.
pub proof fn priority_ordering(m: BrokerModel, hi: TaskRecord, hi_json: Seq<char>, lo: TaskRecord, lo_json: Seq<char>)
    requires
        hi.queue == lo.queue,
        hi.priority.spec_score() > lo.priority.spec_score(),
        hi_json != lo_json,
    ensures
        !m.apply_all(submit_ops(hi, hi_json)).apply_all(submit_ops(lo, lo_json)).is_top(
            queue_key(hi.queue), lo_json),
        !m.apply_all(submit_ops(lo, lo_json)).apply_all(submit_ops(hi, hi_json)).is_top(
            queue_key(hi.queue), lo_json),
{
    let k = queue_key(hi.queue);
    lemma_apply_two(m, submit_ops(hi, hi_json)[0], submit_ops(hi, hi_json)[1]);
    let m1 = m.apply_all(submit_ops(hi, hi_json));
    lemma_apply_two(m1, submit_ops(lo, lo_json)[0], submit_ops(lo, lo_json)[1]);
    let m2 = m1.apply_all(submit_ops(lo, lo_json));
    assert(m2.set(k).contains_key(hi_json));
    assert(m2.set(k)[hi_json] > m2.set(k)[lo_json]);
    lemma_apply_two(m, submit_ops(lo, lo_json)[0], submit_ops(lo, lo_json)[1]);
    let n1 = m.apply_all(submit_ops(lo, lo_json));
    lemma_apply_two(n1, submit_ops(hi, hi_json)[0], submit_ops(hi, hi_json)[1]);
    let n2 = n1.apply_all(submit_ops(hi, hi_json));
    assert(n2.set(k).contains_key(hi_json));
    assert(n2.set(k)[hi_json] > n2.set(k)[lo_json] || !n2.set(k).contains_key(lo_json));
}

/// A claim moves its entry out of the queue and into the processing set, so
/// the same entry is never in both, and a second claim cannot take it again.
pub proof fn single_claim(m: BrokerModel, queue: Seq<char>, member: Seq<char>, now: i64)
    ensures
        !m.apply_all(claim_ops(queue, member, now)).set(queue_key(queue)).contains_key(member),
        m.apply_all(claim_ops(queue, member, now)).set(processing_key()).contains_key(member),
        !m.apply_all(claim_ops(queue, member, now)).is_top(queue_key(queue), member),
{
    reveal_strlit("dtq:queue:");
    reveal_strlit("dtq:processing");
    assert(queue_key(queue)[4] != processing_key()[4]);
    lemma_apply_two(m, claim_ops(queue, member, now)[0], claim_ops(queue, member, now)[1]);
}

/// A retried task is in no claim any more: the retry pipeline ends the claim
/// and puts the task, due after its backoff, into the scheduled set.
pub proof fn retry_releases_claim(
    m: BrokerModel,
    claimed: Seq<char>,
    t: TaskRecord,
    json: Seq<char>,
    now: i64,
)
    requires
        t.can_retry(),
    ensures
        ({
            let r = t.retried(now);
            let after = m.apply_all(retry_ops(claimed, r, json));
            &&& !after.set(processing_key()).contains_key(claimed)
            &&& after.set(scheduled_key()).contains_key(json)
            &&& after.set(scheduled_key())[json] == time_after(now,
                backoff_delay(t.retry_config, (t.retry_count + 1) as nat))
        }),
{
    reveal_strlit("dtq:scheduled");
    reveal_strlit("dtq:processing");
    assert(scheduled_key()[5] != processing_key()[5]);
    let r = t.retried(now);
    let due = r.scheduled_at->Some_0;
    let ops = retry_ops(claimed, r, json);
    let a = ops[0];
    let b = ops[1];
    let c = ops[2];
    assert(ops.drop_first() =~= seq![b, c]);
    let m1 = m.apply(a);
    assert(m.apply_all(ops) == m1.apply_all(ops.drop_first()));
    lemma_apply_two(m1, b, c);
}

/// A finished task stays as it is: a claim of a record that has already
/// finished leaves it unchanged (the end of a run and the settling of a
/// retry take only running and retrying records).
pub proof fn terminal_monotonicity(
    t: TaskRecord,
    worker: u128,
    names: Seq<String>,
    accepts: Seq<bool>,
    now: i64,
)
    requires
        t.is_terminal(),
    ensures
        claimed_task(t, worker, names, accepts, now).0 == t,
        claimed_task(t, worker, names, accepts, now).1 == ClaimOutcome::AlreadyFinished,
{
}

/// The task after `n` requests for a retry at `now`, and how many of them were
/// granted.
pub open spec fn retry_requests(t: TaskRecord, n: nat, now: i64) -> (TaskRecord, nat)
    decreases n,
{
    if n == 0 {
        (t, 0)
    } else {
        let (t1, k) = retry_requests(t, (n - 1) as nat, now);
        if t1.can_retry() { (t1.retried(now), k + 1) } else { (t1, k) }
    }
}

/// However often a retry is asked for, at most `max_retries - retry_count`
/// are granted; with the first attempt, a task runs at most `max_retries + 1`
/// times.
pub proof fn retry_budget(t: TaskRecord, n: nat, now: i64)
    requires
        t.retry_count <= t.retry_config.max_retries,
    ensures
        retry_requests(t, n, now).1 <= t.retry_config.max_retries - t.retry_count,
        retry_requests(t, n, now).0.retry_count == t.retry_count + retry_requests(t, n, now).1,
        retry_requests(t, n, now).0.retry_config == t.retry_config,
    decreases n,
{
    if n > 0 {
        retry_budget(t, (n - 1) as nat, now);
    }
}

/// A scheduled task waits in the scheduled set under its due time, so the
/// promotion pass, which takes the entries scored at or before its own time,
/// moves it no earlier than that time.
pub proof fn scheduled_under_due_time(m: BrokerModel, t: TaskRecord, due: i64, json: Seq<char>)
    ensures
        m.apply_all(schedule_ops(t, due, json)).set(scheduled_key()).contains_key(json),
        m.apply_all(schedule_ops(t, due, json)).set(scheduled_key())[json] == due,
{
    lemma_apply_two(m, schedule_ops(t, due, json)[0], schedule_ops(t, due, json)[1]);
}

/// The result of a successful run comes back unchanged from the wait for it.
pub proof fn result_round_trip(
    t: TaskRecord,
    result: String,
    auto_retry: bool,
    timeout: u64,
    now: i64,
    elapsed_ms: u64,
    wait_timeout: Option<u64>,
    r: WaitStep,
)
    requires
        wait_timeout is None || elapsed_ms <= wait_timeout->Some_0 * 1000,
        wait_outcome(
            Some(finished_task(t, ExecutionOutcome::Succeeded(result), auto_retry, timeout, now).0),
            t.id,
            elapsed_ms,
            wait_timeout,
            r,
        ),
    ensures
        r matches WaitStep::Done(Ok(s)) && s@ == result@,
{
}

} // verus!
