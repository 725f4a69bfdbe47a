//! Task records and their lifecycle.

use vstd::prelude::*;
use vstd::arithmetic::power2::{pow2, lemma2_to64, lemma_pow2_unfold, lemma_pow2_pos};
use crate::error::TaskError;
use crate::text::{fresh_id, hyphenated, id_text, utc_now};

verus! {

/// The state of a task in its lifecycle.
#[derive(Debug, Clone, Copy, PartialEq, Eq, Structural)]
pub enum TaskStatus {
    /// Waiting in a queue.
    Pending,
    /// Claimed by a worker and executing.
    Running,
    /// Finished with a result.
    Success,
    /// Finished with an error.
    Failed,
    /// Withdrawn before it ran.
    Cancelled,
    /// Waiting for its due time.
    Scheduled,
    /// Waiting for another attempt.
    Retrying,
}

impl TaskStatus {
    /// Whether the task has finished, with a result or an error.
    pub fn is_terminal(&self) -> (r: bool)
        ensures
            r == (*self is Success || *self is Failed),
    {
        match self {
            TaskStatus::Success => true,
            TaskStatus::Failed => true,
            _ => false,
        }
    }
}

/// The priority of a task: higher priorities leave a queue first.
#[derive(Debug, Clone, Copy, PartialEq, Eq, Structural, PartialOrd, Ord, Hash)]
pub enum TaskPriority {
    Low,
    Normal,
    High,
    Critical,
}

impl TaskPriority {
    /// The score of the priority in a queue's ordered set.
    pub open spec fn spec_score(self) -> i64 {
        match self {
            TaskPriority::Low => 0,
            TaskPriority::Normal => 5,
            TaskPriority::High => 10,
            TaskPriority::Critical => 15,
        }
    }

    /// The score of the priority in a queue's ordered set.
    pub fn score(&self) -> (r: i64)
        ensures
            r == self.spec_score(),
    {
        match self {
            TaskPriority::Low => 0,
            TaskPriority::Normal => 5,
            TaskPriority::High => 10,
            TaskPriority::Critical => 15,
        }
    }
}

impl Default for TaskPriority {
    fn default() -> (r: Self)
        ensures
            r == TaskPriority::Normal,
    {
        TaskPriority::Normal
    }
}

/// How a failed task is retried.
#[derive(Debug, Clone, Copy, PartialEq, Eq, Structural)]
pub struct RetryConfig {
    /// The number of retries after the first attempt.
    pub max_retries: u32,
    /// The delay before the first retry, in seconds.
    pub retry_delay: u64,
    /// Whether the delay doubles with each retry.
    pub exponential_backoff: bool,
    /// The largest delay, in seconds, under exponential backoff.
    pub max_delay: u64,
}

impl RetryConfig {
    /// The default policy: three retries, five seconds doubling up to five
    /// minutes.
    pub open spec fn default_spec() -> RetryConfig {
        RetryConfig { max_retries: 3, retry_delay: 5, exponential_backoff: true, max_delay: 300 }
    }
}

impl Default for RetryConfig {
    fn default() -> (r: Self)
        ensures
            r == RetryConfig::default_spec(),
    {
        RetryConfig { max_retries: 3, retry_delay: 5, exponential_backoff: true, max_delay: 300 }
    }
}

/// The delay in seconds before retry number `attempt` (counted from 1).
pub open spec fn backoff_delay(c: RetryConfig, attempt: nat) -> int {
    if c.exponential_backoff {
        let d = c.retry_delay * pow2((attempt - 1) as nat);
        if d < c.max_delay { d } else { c.max_delay as int }
    } else {
        c.retry_delay as int
    }
}

/// The instant `secs` seconds after `t`, or the last representable instant.
pub open spec fn time_after(t: i64, secs: int) -> i64 {
    if t + secs > i64::MAX { i64::MAX } else { (t + secs) as i64 }
}

/// The instant `secs` seconds after `t`, or the last representable instant.
pub fn add_seconds(t: i64, secs: u64) -> (r: i64)
    ensures
        r == time_after(t, secs as int),
{
    let s: i128 = t as i128 + secs as i128;
    if s > i64::MAX as i128 { i64::MAX } else { s as i64 }
}

proof fn lemma_doubling_stays_above(base: int, k: nat, m: nat, max: int)
    requires
        base >= 0,
        k <= m,
        base * pow2(k) >= max,
    ensures
        base * pow2(m) >= max,
    decreases m - k,
{
    if k < m {
        lemma_pow2_unfold(m);
        lemma_pow2_pos((m - 1) as nat);
        lemma_doubling_stays_above(base, k, (m - 1) as nat, max);
        assert(base * pow2(m) == 2 * (base * pow2((m - 1) as nat))) by (nonlinear_arith)
            requires pow2(m) == 2 * pow2((m - 1) as nat);
    }
}

impl RetryConfig {
    /// The delay in seconds before retry number `attempt` (counted from 1):
    /// under exponential backoff `min(retry_delay * 2^(attempt - 1), max_delay)`,
    /// else `retry_delay`.
    pub fn delay_for_attempt(&self, attempt: u32) -> (r: u64)
        requires
            attempt >= 1,
        ensures
            r == backoff_delay(*self, attempt as nat),
    {
        if !self.exponential_backoff {
            return self.retry_delay;
        }
        let max = self.max_delay;
        let mut d: u64 = self.retry_delay;
        let mut i: u32 = 1;
        proof {
            lemma2_to64();
            assert(pow2(0) == 1);
            assert((i - 1) as nat == 0);
            assert(self.retry_delay * pow2(0) == self.retry_delay);
        }
        while i < attempt && d < max
            invariant
                1 <= i <= attempt,
                d < max ==> d == self.retry_delay * pow2((i - 1) as nat),
                d >= max ==> self.retry_delay * pow2((i - 1) as nat) >= max,
            decreases attempt - i,
        {
            proof {
                lemma_pow2_unfold(i as nat);
            }
            let ghost prev = self.retry_delay * pow2((i - 1) as nat);
            if d >= max - d {
                d = max;
            } else {
                d = d + d;
            }
            i = i + 1;
            proof {
                assert(self.retry_delay * pow2((i - 1) as nat) == 2 * prev) by (nonlinear_arith)
                    requires
                        pow2((i - 1) as nat) == 2 * pow2((i - 2) as nat),
                        prev == self.retry_delay * pow2((i - 2) as nat);
            }
        }
        if d >= max {
            proof {
                lemma_doubling_stays_above(self.retry_delay as int, (i - 1) as nat,
                    (attempt - 1) as nat, max as int);
            }
            max
        } else {
            d
        }
    }
}


/// The view of an optional string.
pub open spec fn opt_text(o: Option<String>) -> Option<Seq<char>> {
    match o {
        Some(s) => Some(s@),
        None => None,
    }
}

/// A copy of an optional string.
pub fn copy_opt_text(o: &Option<String>) -> (r: Option<String>)
    ensures
        opt_text(r) == opt_text(*o),
{
    match o {
        Some(s) => Some(s.clone()),
        None => None,
    }
}

/// A task and its metadata, as stored in the broker.
#[derive(Debug, Clone)]
pub struct TaskDefinition {
    /// The task's identifier; never changes.
    pub id: u128,
    /// The task type, which selects a handler.
    pub name: String,
    /// The serialized payload.
    pub data: String,
    pub priority: TaskPriority,
    pub status: TaskStatus,
    pub retry_config: RetryConfig,
    /// The number of retries so far (0 on the first attempt).
    pub retry_count: u32,
    /// Unix seconds; never changes.
    pub created_at: i64,
    /// Unix seconds of the last change.
    pub updated_at: i64,
    /// When the task is due, for a scheduled task.
    pub scheduled_at: Option<i64>,
    pub started_at: Option<i64>,
    pub finished_at: Option<i64>,
    /// The serialized result of a successful run.
    pub result: Option<String>,
    /// The error message of a failed run.
    pub error: Option<String>,
    /// The queue that the task belongs to.
    pub queue: String,
    /// The worker that last claimed the task.
    pub worker_id: Option<String>,
    /// An advisory estimate of the run time, in seconds.
    pub estimated_duration: Option<u64>,
}

/// The mathematical model of a task record.
pub struct TaskRecord {
    pub id: u128,
    pub name: Seq<char>,
    pub data: Seq<char>,
    pub priority: TaskPriority,
    pub status: TaskStatus,
    pub retry_config: RetryConfig,
    pub retry_count: u32,
    pub created_at: i64,
    pub updated_at: i64,
    pub scheduled_at: Option<i64>,
    pub started_at: Option<i64>,
    pub finished_at: Option<i64>,
    pub result: Option<Seq<char>>,
    pub error: Option<Seq<char>>,
    pub queue: Seq<char>,
    pub worker_id: Option<Seq<char>>,
    pub estimated_duration: Option<u64>,
}

impl View for TaskDefinition {
    type V = TaskRecord;

    open spec fn view(&self) -> TaskRecord {
        TaskRecord {
            id: self.id,
            name: self.name@,
            data: self.data@,
            priority: self.priority,
            status: self.status,
            retry_config: self.retry_config,
            retry_count: self.retry_count,
            created_at: self.created_at,
            updated_at: self.updated_at,
            scheduled_at: self.scheduled_at,
            started_at: self.started_at,
            finished_at: self.finished_at,
            result: opt_text(self.result),
            error: opt_text(self.error),
            queue: self.queue@,
            worker_id: opt_text(self.worker_id),
            estimated_duration: self.estimated_duration,
        }
    }
}

impl TaskRecord {
    /// The invariants that every task record keeps.
    pub open spec fn wf(self) -> bool {
        &&& (self.status is Running ==> self.started_at is Some && self.worker_id is Some)
        &&& (self.status is Success ==> self.result is Some && self.finished_at is Some)
        &&& (self.status is Failed ==> self.error is Some && self.finished_at is Some)
        &&& (self.status is Scheduled ==> self.scheduled_at is Some)
        &&& self.retry_count <= self.retry_config.max_retries
    }

    /// Whether the task has finished, with a result or an error.
    pub open spec fn is_terminal(self) -> bool {
        self.status is Success || self.status is Failed
    }

    /// A fresh pending task.
    pub open spec fn fresh(
        id: u128,
        name: Seq<char>,
        data: Seq<char>,
        queue: Seq<char>,
        priority: TaskPriority,
        retry_config: RetryConfig,
        estimated_duration: Option<u64>,
        now: i64,
    ) -> TaskRecord {
        TaskRecord {
            id,
            name,
            data,
            priority,
            status: TaskStatus::Pending,
            retry_config,
            retry_count: 0,
            created_at: now,
            updated_at: now,
            scheduled_at: None,
            started_at: None,
            finished_at: None,
            result: None,
            error: None,
            queue,
            worker_id: None,
            estimated_duration,
        }
    }

    /// The record after a claim by `worker` at `now`.
    pub open spec fn started(self, worker: Seq<char>, now: i64) -> TaskRecord {
        TaskRecord {
            status: TaskStatus::Running,
            started_at: Some(now),
            updated_at: now,
            worker_id: Some(worker),
            ..self
        }
    }

    /// The record after a successful run that produced `result`.
    pub open spec fn succeeded(self, result: Seq<char>, now: i64) -> TaskRecord {
        TaskRecord {
            status: TaskStatus::Success,
            finished_at: Some(now),
            updated_at: now,
            result: Some(result),
            ..self
        }
    }

    /// The record after a failed run with message `error`.
    pub open spec fn failed(self, error: Seq<char>, now: i64) -> TaskRecord {
        TaskRecord {
            status: TaskStatus::Failed,
            finished_at: Some(now),
            updated_at: now,
            error: Some(error),
            ..self
        }
    }

    /// Whether one more retry is within the budget.
    pub open spec fn can_retry(self) -> bool {
        self.retry_count < self.retry_config.max_retries
    }

    /// The record after a retry is granted at `now`: one more attempt, due after
    /// the backoff delay of that attempt.
    pub open spec fn retried(self, now: i64) -> TaskRecord {
        let attempt = (self.retry_count + 1) as u32;
        TaskRecord {
            retry_count: attempt,
            status: TaskStatus::Retrying,
            updated_at: now,
            started_at: None,
            finished_at: None,
            worker_id: None,
            scheduled_at: Some(time_after(now, backoff_delay(self.retry_config, attempt as nat))),
            ..self
        }
    }

    /// The record once it is moved from the scheduled set to its queue.
    pub open spec fn promoted(self) -> TaskRecord {
        TaskRecord { status: TaskStatus::Pending, ..self }
    }

    /// Whether the task may run at `now`.
    pub open spec fn ready_at(self, now: i64) -> bool {
        match self.scheduled_at {
            Some(t) => now >= t,
            None => true,
        }
    }
}

/// The error for a retry past the budget of task `id`.
pub open spec fn retry_limit_error(e: TaskError, id: u128, max_retries: u32) -> bool {
    &&& e is RetryLimitExceeded
    &&& e->RetryLimitExceeded_task_id@ == hyphenated(id)
    &&& e->RetryLimitExceeded_max_retries == max_retries
}

impl TaskDefinition {
    /// A pending task with the given identifier, created at `now`.
    pub fn create(
        id: u128,
        name: String,
        data: String,
        queue: String,
        priority: TaskPriority,
        retry_config: RetryConfig,
        estimated_duration: Option<u64>,
        now: i64,
    ) -> (r: Self)
        ensures
            r@ == TaskRecord::fresh(id, name@, data@, queue@, priority, retry_config,
                estimated_duration, now),
            r@.wf(),
    {
        TaskDefinition {
            id,
            name,
            data,
            priority,
            status: TaskStatus::Pending,
            retry_config,
            retry_count: 0,
            created_at: now,
            updated_at: now,
            scheduled_at: None,
            started_at: None,
            finished_at: None,
            result: None,
            error: None,
            queue,
            worker_id: None,
            estimated_duration,
        }
    }

    /// A pending task with a fresh random identifier, created now.
    pub fn new(
        name: String,
        data: String,
        queue: String,
        priority: TaskPriority,
        retry_config: RetryConfig,
        estimated_duration: Option<u64>,
    ) -> (r: Self)
        ensures
            r@ == TaskRecord::fresh(r.id, name@, data@, queue@, priority, retry_config,
                estimated_duration, r.created_at),
            r@.wf(),
    {
        let id = fresh_id();
        let now = utc_now();
        Self::create(id, name, data, queue, priority, retry_config, estimated_duration, now)
    }

    /// A task with a fresh random identifier, due at `scheduled_at`.
    pub fn new_scheduled(
        name: String,
        data: String,
        queue: String,
        priority: TaskPriority,
        retry_config: RetryConfig,
        estimated_duration: Option<u64>,
        scheduled_at: i64,
    ) -> (r: Self)
        ensures
            r@ == (TaskRecord {
                status: TaskStatus::Scheduled,
                scheduled_at: Some(scheduled_at),
                ..TaskRecord::fresh(r.id, name@, data@, queue@, priority, retry_config,
                    estimated_duration, r.created_at)
            }),
            r@.wf(),
    {
        let mut t = Self::new(name, data, queue, priority, retry_config, estimated_duration);
        t.status = TaskStatus::Scheduled;
        t.scheduled_at = Some(scheduled_at);
        t
    }

    /// A copy of the record.
    pub fn duplicate(&self) -> (r: Self)
        ensures
            r@ == self@,
    {
        TaskDefinition {
            id: self.id,
            name: self.name.clone(),
            data: self.data.clone(),
            priority: self.priority,
            status: self.status,
            retry_config: self.retry_config,
            retry_count: self.retry_count,
            created_at: self.created_at,
            updated_at: self.updated_at,
            scheduled_at: self.scheduled_at,
            started_at: self.started_at,
            finished_at: self.finished_at,
            result: copy_opt_text(&self.result),
            error: copy_opt_text(&self.error),
            queue: self.queue.clone(),
            worker_id: copy_opt_text(&self.worker_id),
            estimated_duration: self.estimated_duration,
        }
    }

    /// Marks the task as claimed by `worker_id` at `now`.
    pub fn mark_started_at(&mut self, worker_id: String, now: i64)
        ensures
            final(self)@ == old(self)@.started(worker_id@, now),
            old(self)@.wf() ==> final(self)@.wf(),
    {
        self.status = TaskStatus::Running;
        self.started_at = Some(now);
        self.updated_at = now;
        self.worker_id = Some(worker_id);
    }

    /// Marks the task as claimed by `worker_id` now.
    pub fn mark_started(&mut self, worker_id: String)
        ensures
            final(self)@ == old(self)@.started(worker_id@, final(self).updated_at),
    {
        let now = utc_now();
        self.mark_started_at(worker_id, now);
    }

    /// Marks the task as finished at `now` with the serialized `result`.
    pub fn mark_success_at(&mut self, result: String, now: i64)
        ensures
            final(self)@ == old(self)@.succeeded(result@, now),
            old(self)@.wf() ==> final(self)@.wf(),
    {
        self.status = TaskStatus::Success;
        self.finished_at = Some(now);
        self.updated_at = now;
        self.result = Some(result);
    }

    /// Marks the task as finished now with the serialized `result`.
    pub fn mark_success(&mut self, result: String)
        ensures
            final(self)@ == old(self)@.succeeded(result@, final(self).updated_at),
    {
        let now = utc_now();
        self.mark_success_at(result, now);
    }

    /// Marks the task as failed at `now` with the message `error`.
    pub fn mark_failed_at(&mut self, error: &str, now: i64)
        ensures
            final(self)@ == old(self)@.failed(error@, now),
            old(self)@.wf() ==> final(self)@.wf(),
    {
        self.status = TaskStatus::Failed;
        self.finished_at = Some(now);
        self.updated_at = now;
        self.error = Some(String::from_str(error));
    }

    /// Marks the task as failed now with the message `error`.
    pub fn mark_failed(&mut self, error: &str)
        ensures
            final(self)@ == old(self)@.failed(error@, final(self).updated_at),
    {
        let now = utc_now();
        self.mark_failed_at(error, now);
    }

    /// Grants one more attempt at `now`, due after the backoff delay; past the
    /// budget the task is left as it is and `RetryLimitExceeded` comes back.
    pub fn mark_retry_at(&mut self, now: i64) -> (r: Result<(), TaskError>)
        ensures
            old(self)@.can_retry() ==> r is Ok && final(self)@ == old(self)@.retried(now),
            !old(self)@.can_retry() ==> r is Err && final(self)@ == old(self)@
                && retry_limit_error(r->Err_0, old(self).id, old(self).retry_config.max_retries),
            old(self)@.wf() ==> final(self)@.wf(),
    {
        if self.retry_count >= self.retry_config.max_retries {
            return Err(
                TaskError::RetryLimitExceeded {
                    task_id: id_text(self.id),
                    max_retries: self.retry_config.max_retries,
                },
            );
        }
        self.retry_count = self.retry_count + 1;
        self.status = TaskStatus::Retrying;
        self.updated_at = now;
        self.started_at = None;
        self.finished_at = None;
        self.worker_id = None;
        let delay = self.retry_config.delay_for_attempt(self.retry_count);
        self.scheduled_at = Some(add_seconds(now, delay));
        Ok(())
    }

    /// Grants one more attempt now, as `mark_retry_at` does.
    pub fn mark_retry(&mut self) -> (r: Result<(), TaskError>)
        ensures
            old(self)@.can_retry() ==> r is Ok
                && final(self)@ == old(self)@.retried(final(self).updated_at),
            !old(self)@.can_retry() ==> r is Err && final(self)@ == old(self)@
                && retry_limit_error(r->Err_0, old(self).id, old(self).retry_config.max_retries),
    {
        let now = utc_now();
        self.mark_retry_at(now)
    }

    /// Whether one more retry is within the budget.
    pub fn can_retry(&self) -> (r: bool)
        ensures
            r == self@.can_retry(),
    {
        self.retry_count < self.retry_config.max_retries
    }

    /// Whether the task may run at `now`: it has no due time, or that time has come.
    pub fn is_ready_at(&self, now: i64) -> (r: bool)
        ensures
            r == self@.ready_at(now),
    {
        match self.scheduled_at {
            Some(t) => now >= t,
            None => true,
        }
    }

    /// Whether the task may run now.
    pub fn is_ready(&self) -> (r: bool)
        ensures
            self.scheduled_at is None ==> r,
    {
        let now = utc_now();
        self.is_ready_at(now)
    }

    /// The seconds from start to finish, where both are known and the
    /// difference is representable.
    pub fn execution_duration(&self) -> (r: Option<i64>)
        ensures
            r == (match (self.started_at, self.finished_at) {
                (Some(s), Some(f)) => if i64::MIN <= f - s <= i64::MAX {
                    Some((f - s) as i64)
                } else {
                    None
                },
                _ => None,
            }),
    {
        match (self.started_at, self.finished_at) {
            (Some(s), Some(f)) => f.checked_sub(s),
            _ => None,
        }
    }
}

} // verus!
