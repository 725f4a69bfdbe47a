//! Recurring and delayed jobs, and the scheduler that turns due jobs into
//! tasks.

use vstd::prelude::*;
use crate::error::TaskError;
use crate::task::{RetryConfig, TaskDefinition, TaskPriority, TaskRecord};
use crate::text::{fresh_id, hyphenated, id_text, utc_now};

verus! {

/// A whole number of weeks, in seconds, beyond the magnitude of any `i64`:
/// adding it to an instant keeps the time of day and the day of the week.
const WEEKS_SHIFT: u128 = 9223372036855065600;

/// When a job runs.
#[derive(Debug, Clone, PartialEq, Eq)]
pub enum ScheduleExpression {
    /// Once, at the given instant.
    Once(i64),
    /// Once, the given seconds after it is computed.
    Delay(u64),
    /// Every so many seconds.
    EverySeconds(u64),
    /// Every so many minutes.
    EveryMinutes(u64),
    /// Every so many hours.
    EveryHours(u64),
    /// Every day at the given UTC time.
    Daily { hour: u32, minute: u32 },
    /// Every week on the given day (0 is Sunday) at the given UTC time.
    Weekly { day: u32, hour: u32, minute: u32 },
    /// A cron expression; recognized, never due.
    Cron(String),
}

/// The start of the UTC day of `t`.
pub open spec fn day_start(t: i64) -> int {
    t - t % 86400
}

/// The day of the week of `t`, from 0 for Sunday (the epoch fell on a Thursday).
pub open spec fn weekday(t: i64) -> int {
    (t / 86400 + 4) % 7
}

/// `x` as an instant, where it is representable.
pub open spec fn instant(x: int) -> Option<i64> {
    if i64::MIN <= x <= i64::MAX { Some(x as i64) } else { None }
}

/// The first instant after `from` at `hour:minute` UTC, `days_ahead` days on
/// from the day of `from`, or a `period` later where that is not after `from`.
pub open spec fn next_at_time(from: i64, hour: u32, minute: u32, days_ahead: int, period: int) -> Option<i64> {
    if hour < 24 && minute < 60 {
        let at = day_start(from) + hour * 3600 + minute * 60 + days_ahead * 86400;
        instant(if at <= from { at + period } else { at })
    } else {
        None
    }
}

/// The days from weekday `current` to weekday `day`.
pub open spec fn days_until(day: u32, current: int) -> int {
    if day >= current { day - current } else { 7 - (current - day) }
}

impl ScheduleExpression {
    /// The next run of the schedule after `from`.
    pub open spec fn next_after(self, from: i64) -> Option<i64> {
        match self {
            ScheduleExpression::Once(t) => if t > from { Some(t) } else { None },
            ScheduleExpression::Delay(s) => instant(from + s),
            ScheduleExpression::EverySeconds(s) => instant(from + s),
            ScheduleExpression::EveryMinutes(m) => instant(from + m * 60),
            ScheduleExpression::EveryHours(h) => instant(from + h * 3600),
            ScheduleExpression::Daily { hour, minute } => next_at_time(from, hour, minute, 0, 86400),
            ScheduleExpression::Weekly { day, hour, minute } =>
                next_at_time(from, hour, minute, days_until(day, weekday(from)), 604800),
            ScheduleExpression::Cron(_) => None,
        }
    }

    /// Whether the schedule fires more than once.
    pub open spec fn recurring(self) -> bool {
        !(self is Once || self is Delay)
    }

    /// The next run after `from`: `Once(t)` gives `t` if it is later, the
    /// intervals give `from` plus the interval, `Daily` and `Weekly` the next
    /// such UTC time after `from`, and `Cron` nothing. A next run past the
    /// last representable instant is no next run.
    pub fn next_execution(&self, from: i64) -> (r: Option<i64>)
        ensures
            r == self.next_after(from),
    {
        match self {
            ScheduleExpression::Once(t) => if *t > from { Some(*t) } else { None },
            ScheduleExpression::Delay(s) => after_units(from, *s, 1),
            ScheduleExpression::EverySeconds(s) => after_units(from, *s, 1),
            ScheduleExpression::EveryMinutes(m) => after_units(from, *m, 60),
            ScheduleExpression::EveryHours(h) => after_units(from, *h, 3600),
            ScheduleExpression::Daily { hour, minute } => at_time(from, *hour, *minute, 0, 86400),
            ScheduleExpression::Weekly { day, hour, minute } => {
                let current = weekday_of(from);
                let ahead: u32 = if *day >= current { *day - current } else { 7 - (current - *day) };
                at_time(from, *hour, *minute, ahead, 604800)
            },
            ScheduleExpression::Cron(_) => None,
        }
    }

    /// Whether the schedule fires more than once: all but `Once` and `Delay`.
    pub fn is_recurring(&self) -> (r: bool)
        ensures
            r == self.recurring(),
    {
        match self {
            ScheduleExpression::Once(_) => false,
            ScheduleExpression::Delay(_) => false,
            _ => true,
        }
    }
}

fn after_units(from: i64, n: u64, unit: u64) -> (r: Option<i64>)
    requires
        unit == 1 || unit == 60 || unit == 3600,
    ensures
        r == instant(from + n * unit),
{
    proof {
        assert(n * unit <= 18446744073709551615 * 3600) by (nonlinear_arith)
            requires
                n <= 18446744073709551615,
                unit <= 3600,
        ;
    }
    let p: i128 = n as i128 * unit as i128;
    let s: i128 = from as i128 + p;
    if s > i64::MAX as i128 { None } else { Some(s as i64) }
}

/// `from` moved on by whole weeks into the non-negative range, with what it
/// keeps of `from`.
fn shifted(from: i64) -> (x: u128)
    ensures
        x as int == from + WEEKS_SHIFT,
        x % 86400 == from % 86400,
        (x / 86400) % 7 == (from / 86400) % 7,
{
    let x = (from as i128 + WEEKS_SHIFT as i128) as u128;
    proof {
        let q: int = (from as int) / 86400;
        let r: int = (from as int) % 86400;
        let n: int = 15250284452472;
        assert(from == 86400 * q + r && 0 <= r < 86400);
        assert(x as int == 86400 * (q + 7 * n) + r);
        vstd::arithmetic::div_mod::lemma_mod_multiples_vanish(q + 7 * n, r, 86400);
        vstd::arithmetic::div_mod::lemma_div_multiples_vanish_fancy(q + 7 * n, r, 86400);
        vstd::arithmetic::div_mod::lemma_small_mod(r as nat, 86400);
        vstd::arithmetic::div_mod::lemma_mod_multiples_vanish(n, q, 7);
    }
    x
}

fn weekday_of(from: i64) -> (r: u32)
    ensures
        r == weekday(from),
        r < 7,
{
    let x = shifted(from);
    let d = x / 86400;
    proof {
        vstd::arithmetic::div_mod::lemma_add_mod_noop(d as int, 4, 7);
        vstd::arithmetic::div_mod::lemma_add_mod_noop(from / 86400, 4, 7);
    }
    ((d % 7 + 4) % 7) as u32
}

fn at_time(from: i64, hour: u32, minute: u32, days_ahead: u32, period: i64) -> (r: Option<i64>)
    requires
        period == 86400 || period == 604800,
    ensures
        r == next_at_time(from, hour, minute, days_ahead as int, period as int),
{
    if hour >= 24 || minute >= 60 {
        return None;
    }
    let x = shifted(from);
    let start: i128 = from as i128 - (x % 86400) as i128;
    let at: i128 = start + hour as i128 * 3600 + minute as i128 * 60 + days_ahead as i128 * 86400;
    let next: i128 = if at <= from as i128 { at + period as i128 } else { at };
    if next > i64::MAX as i128 || next < i64::MIN as i128 {
        None
    } else {
        Some(next as i64)
    }
}


/// `n + 1`, or `n` where that is the largest count.
pub open spec fn count_up(n: u64) -> u64 {
    if n < u64::MAX { (n + 1) as u64 } else { n }
}

pub(crate) fn counted_up(n: u64) -> (r: u64)
    ensures
        r == count_up(n),
{
    if n < u64::MAX { n + 1 } else { n }
}

impl ScheduleExpression {
    /// A copy of the schedule.
    pub fn duplicate(&self) -> (r: Self)
        ensures
            r == *self,
    {
        match self {
            ScheduleExpression::Once(t) => ScheduleExpression::Once(*t),
            ScheduleExpression::Delay(s) => ScheduleExpression::Delay(*s),
            ScheduleExpression::EverySeconds(s) => ScheduleExpression::EverySeconds(*s),
            ScheduleExpression::EveryMinutes(m) => ScheduleExpression::EveryMinutes(*m),
            ScheduleExpression::EveryHours(h) => ScheduleExpression::EveryHours(*h),
            ScheduleExpression::Daily { hour, minute } =>
                ScheduleExpression::Daily { hour: *hour, minute: *minute },
            ScheduleExpression::Weekly { day, hour, minute } =>
                ScheduleExpression::Weekly { day: *day, hour: *hour, minute: *minute },
            ScheduleExpression::Cron(e) => ScheduleExpression::Cron(e.clone()),
        }
    }
}

/// A job of the scheduler: the template of the task it emits, its schedule
/// and its bookkeeping.
#[derive(Debug, Clone)]
pub struct ScheduledJob {
    pub id: u128,
    pub name: String,
    /// The task type of the emitted tasks.
    pub task_type: String,
    /// The serialized payload of the emitted tasks.
    pub task_data: String,
    /// The queue of the emitted tasks.
    pub queue: String,
    pub priority: TaskPriority,
    pub schedule: ScheduleExpression,
    /// A disabled job is skipped.
    pub enabled: bool,
    pub max_retries: u32,
    /// The next due time; `None` once the job is exhausted.
    pub next_run: Option<i64>,
    pub last_run: Option<i64>,
    pub run_count: u64,
    pub failure_count: u64,
    pub created_at: i64,
    pub updated_at: i64,
}

impl ScheduledJob {
    /// The job after a run at `now` that succeeded or not: a recurring job
    /// gets its next run from the schedule, any other is exhausted and
    /// disabled.
    pub open spec fn executed(self, success: bool, now: i64) -> ScheduledJob {
        ScheduledJob {
            last_run: Some(now),
            run_count: count_up(self.run_count),
            failure_count: if success { self.failure_count } else { count_up(self.failure_count) },
            updated_at: now,
            next_run: if self.schedule.recurring() { self.schedule.next_after(now) } else { None },
            enabled: if self.schedule.recurring() { self.enabled } else { false },
            ..self
        }
    }

    /// Whether the job is enabled and due at `now`.
    pub open spec fn ready_at(self, now: i64) -> bool {
        self.enabled && match self.next_run {
            Some(t) => now >= t,
            None => false,
        }
    }

    /// A fresh job with the given identifier, created at `now`, first due at
    /// the schedule's next run after `now`.
    pub fn create(
        id: u128,
        name: String,
        task_type: String,
        task_data: String,
        queue: String,
        priority: TaskPriority,
        schedule: ScheduleExpression,
        now: i64,
    ) -> (r: Self)
        ensures
            r == (ScheduledJob {
                id,
                name,
                task_type,
                task_data,
                queue,
                priority,
                schedule,
                enabled: true,
                max_retries: 3,
                next_run: schedule.next_after(now),
                last_run: None,
                run_count: 0,
                failure_count: 0,
                created_at: now,
                updated_at: now,
            }),
    {
        let next_run = schedule.next_execution(now);
        ScheduledJob {
            id,
            name,
            task_type,
            task_data,
            queue,
            priority,
            schedule,
            enabled: true,
            max_retries: 3,
            next_run,
            last_run: None,
            run_count: 0,
            failure_count: 0,
            created_at: now,
            updated_at: now,
        }
    }

    /// A fresh job with a random identifier, created now.
    pub fn new(
        name: String,
        task_type: String,
        task_data: String,
        queue: String,
        priority: TaskPriority,
        schedule: ScheduleExpression,
    ) -> (r: Self)
        ensures
            r == (ScheduledJob {
                id: r.id,
                name,
                task_type,
                task_data,
                queue,
                priority,
                schedule,
                enabled: true,
                max_retries: 3,
                next_run: schedule.next_after(r.created_at),
                last_run: None,
                run_count: 0,
                failure_count: 0,
                created_at: r.created_at,
                updated_at: r.created_at,
            }),
    {
        let id = fresh_id();
        let now = utc_now();
        Self::create(id, name, task_type, task_data, queue, priority, schedule, now)
    }

    /// A copy of the job.
    pub fn duplicate(&self) -> (r: Self)
        ensures
            r == *self,
    {
        ScheduledJob {
            id: self.id,
            name: self.name.clone(),
            task_type: self.task_type.clone(),
            task_data: self.task_data.clone(),
            queue: self.queue.clone(),
            priority: self.priority,
            schedule: self.schedule.duplicate(),
            enabled: self.enabled,
            max_retries: self.max_retries,
            next_run: self.next_run,
            last_run: self.last_run,
            run_count: self.run_count,
            failure_count: self.failure_count,
            created_at: self.created_at,
            updated_at: self.updated_at,
        }
    }

    /// Recomputes the next run from `now`.
    pub fn update_next_run_at(&mut self, now: i64)
        ensures
            *final(self) == (ScheduledJob {
                next_run: old(self).schedule.next_after(now),
                updated_at: now,
                ..*old(self)
            }),
    {
        self.next_run = self.schedule.next_execution(now);
        self.updated_at = now;
    }

    /// Recomputes the next run from the time now.
    pub fn update_next_run(&mut self)
        ensures
            *final(self) == (ScheduledJob {
                next_run: old(self).schedule.next_after(final(self).updated_at),
                updated_at: final(self).updated_at,
                ..*old(self)
            }),
    {
        let now = utc_now();
        self.update_next_run_at(now);
    }

    /// Records a run at `now`; counts saturate at the largest `u64`.
    pub fn mark_executed_at(&mut self, success: bool, now: i64)
        ensures
            *final(self) == old(self).executed(success, now),
    {
        self.last_run = Some(now);
        self.run_count = counted_up(self.run_count);
        self.updated_at = now;
        if !success {
            self.failure_count = counted_up(self.failure_count);
        }
        if self.schedule.is_recurring() {
            self.next_run = self.schedule.next_execution(now);
        } else {
            self.next_run = None;
            self.enabled = false;
        }
    }

    /// Records a run now.
    pub fn mark_executed(&mut self, success: bool)
        ensures
            *final(self) == old(self).executed(success, final(self).updated_at),
    {
        let now = utc_now();
        self.mark_executed_at(success, now);
    }

    /// Whether the job is enabled and due at `now`.
    pub fn is_ready_at(&self, now: i64) -> (r: bool)
        ensures
            r == self.ready_at(now),
    {
        if !self.enabled {
            return false;
        }
        match self.next_run {
            Some(t) => now >= t,
            None => false,
        }
    }

    /// Whether the job is enabled and due now.
    pub fn is_ready(&self) -> (r: bool)
        ensures
            r ==> self.enabled && self.next_run is Some,
    {
        let now = utc_now();
        self.is_ready_at(now)
    }

    /// The pending task that the job emits at `now`, with identifier `id`:
    /// the job's template, the default retry policy, no due time.
    pub fn emitted_task(&self, id: u128, now: i64) -> (r: TaskDefinition)
        ensures
            r@ == TaskRecord::fresh(id, self.task_type@, self.task_data@, self.queue@,
                self.priority, RetryConfig::default_spec(), None, now),
            r@.wf(),
    {
        TaskDefinition::create(
            id,
            self.task_type.clone(),
            self.task_data.clone(),
            self.queue.clone(),
            self.priority,
            RetryConfig::default(),
            None,
            now,
        )
    }
}


/// Counts of the scheduler's jobs.
#[derive(Debug, Clone, Copy, PartialEq, Eq, Structural)]
pub struct SchedulerStats {
    pub total_jobs: usize,
    pub enabled_jobs: usize,
    pub disabled_jobs: usize,
    pub ready_jobs: usize,
    pub recurring_jobs: usize,
    pub total_executions: u64,
    pub total_failures: u64,
}

/// The number of jobs in `s` that `p` holds of.
pub open spec fn count_jobs(s: Seq<ScheduledJob>, p: spec_fn(ScheduledJob) -> bool) -> nat
    decreases s.len(),
{
    if s.len() == 0 {
        0
    } else {
        count_jobs(s.drop_last(), p) + if p(s.last()) { 1nat } else { 0nat }
    }
}

/// The sum of `f` over the jobs in `s`.
pub open spec fn sum_jobs(s: Seq<ScheduledJob>, f: spec_fn(ScheduledJob) -> u64) -> nat
    decreases s.len(),
{
    if s.len() == 0 {
        0
    } else {
        sum_jobs(s.drop_last(), f) + f(s.last()) as nat
    }
}

/// The jobs of `s` that `p` holds of, in their order.
pub open spec fn jobs_where(s: Seq<ScheduledJob>, p: spec_fn(ScheduledJob) -> bool) -> Seq<ScheduledJob>
    decreases s.len(),
{
    if s.len() == 0 {
        seq![]
    } else {
        let rest = jobs_where(s.drop_last(), p);
        if p(s.last()) { rest.push(s.last()) } else { rest }
    }
}

/// The number of jobs in `s` that are enabled and due at `now`.
pub open spec fn ready_count(s: Seq<ScheduledJob>, now: i64) -> nat {
    count_jobs(s, |j: ScheduledJob| j.ready_at(now))
}

/// `n`, or the largest `u64` where `n` is larger.
pub open spec fn saturated(n: nat) -> u64 {
    if n <= u64::MAX { n as u64 } else { u64::MAX }
}

/// Whether no two jobs of `s` share an identifier.
pub open spec fn ids_unique(s: Seq<ScheduledJob>) -> bool {
    forall|i: int, j: int| 0 <= i < j < s.len() ==> s[i].id != s[j].id
}

/// Whether `s` has a job with identifier `id`.
pub open spec fn has_job(s: Seq<ScheduledJob>, id: u128) -> bool {
    exists|i: int| 0 <= i < s.len() && s[i].id == id
}

/// The scheduler's table of jobs, in the order they were added.
pub struct TaskScheduler {
    jobs: Vec<ScheduledJob>,
    stopped: bool,
}

impl View for TaskScheduler {
    type V = Seq<ScheduledJob>;

    closed spec fn view(&self) -> Seq<ScheduledJob> {
        self.jobs@
    }
}

impl TaskScheduler {
    /// Whether no two jobs share an identifier.
    pub open spec fn wf(&self) -> bool {
        ids_unique(self@)
    }

    /// Whether a stop was asked for.
    pub closed spec fn stop_requested(&self) -> bool {
        self.stopped
    }

    /// An empty scheduler.
    pub fn new() -> (r: Self)
        ensures
            r@ == Seq::<ScheduledJob>::empty(),
            r.wf(),
            !r.stop_requested(),
    {
        TaskScheduler { jobs: Vec::new(), stopped: false }
    }

    fn position(&self, id: u128) -> (r: Option<usize>)
        ensures
            match r {
                Some(i) => i < self@.len() && self@[i as int].id == id,
                None => !has_job(self@, id),
            },
    {
        let mut i: usize = 0;
        while i < self.jobs.len()
            invariant
                i <= self.jobs@.len(),
                forall|j: int| 0 <= j < i ==> self.jobs@[j].id != id,
            decreases self.jobs@.len() - i,
        {
            if self.jobs[i].id == id {
                return Some(i);
            }
            i = i + 1;
        }
        None
    }

    /// Adds a job, replacing the one with the same identifier if there is one.
    pub fn add_job(&mut self, job: ScheduledJob) -> (r: u128)
        requires
            old(self).wf(),
        ensures
            r == job.id,
            final(self).wf(),
            final(self).stop_requested() == old(self).stop_requested(),
            has_job(old(self)@, job.id) ==> exists|i: int| 0 <= i < old(self)@.len()
                && old(self)@[i].id == job.id && final(self)@ == old(self)@.update(i, job),
            !has_job(old(self)@, job.id) ==> final(self)@ == old(self)@.push(job),
    {
        let id = job.id;
        match self.position(id) {
            Some(i) => {
                self.jobs.set(i, job);
            },
            None => {
                self.jobs.push(job);
            },
        }
        id
    }

    /// Removes the job with identifier `id`; says whether there was one.
    pub fn remove_job(&mut self, id: u128) -> (r: bool)
        requires
            old(self).wf(),
        ensures
            r == has_job(old(self)@, id),
            final(self).wf(),
            final(self).stop_requested() == old(self).stop_requested(),
            r ==> exists|i: int| 0 <= i < old(self)@.len()
                && old(self)@[i].id == id && final(self)@ == old(self)@.remove(i),
            !r ==> final(self)@ == old(self)@,
    {
        match self.position(id) {
            Some(i) => {
                self.jobs.remove(i);
                true
            },
            None => false,
        }
    }

    /// Enables or disables the job with identifier `id` at `now`; an unknown
    /// identifier is a `Scheduler` error.
    pub fn set_job_enabled_at(&mut self, id: u128, enabled: bool, now: i64) -> (r: Result<(), TaskError>)
        requires
            old(self).wf(),
        ensures
            final(self).wf(),
            final(self).stop_requested() == old(self).stop_requested(),
            r is Ok == has_job(old(self)@, id),
            r is Ok ==> exists|i: int| 0 <= i < old(self)@.len()
                && old(self)@[i].id == id && final(self)@ == old(self)@.update(i,
                    ScheduledJob { enabled, updated_at: now, ..old(self)@[i] }),
            r is Err ==> final(self)@ == old(self)@ && r->Err_0 is Scheduler
                && r->Err_0->Scheduler_message@ == "Job not found: "@ + hyphenated(id),
    {
        match self.position(id) {
            Some(i) => {
                let mut job = self.jobs[i].duplicate();
                job.enabled = enabled;
                job.updated_at = now;
                self.jobs.set(i, job);
                Ok(())
            },
            None => {
                let mut m = String::from_str("Job not found: ");
                let t = id_text(id);
                m.append(t.as_str());
                Err(TaskError::Scheduler { message: m })
            },
        }
    }

    /// Enables or disables the job with identifier `id` now.
    pub fn set_job_enabled(&mut self, id: u128, enabled: bool) -> (r: Result<(), TaskError>)
        requires
            old(self).wf(),
        ensures
            final(self).wf(),
            final(self).stop_requested() == old(self).stop_requested(),
            r is Ok == has_job(old(self)@, id),
            r is Ok ==> exists|i: int| 0 <= i < old(self)@.len()
                && old(self)@[i].id == id && final(self)@ == old(self)@.update(i,
                    ScheduledJob { enabled, updated_at: final(self)@[i].updated_at, ..old(self)@[i] }),
            r is Err ==> final(self)@ == old(self)@ && r->Err_0 is Scheduler
                && r->Err_0->Scheduler_message@ == "Job not found: "@ + hyphenated(id),
    {
        let now = utc_now();
        self.set_job_enabled_at(id, enabled, now)
    }

    /// A copy of the job with identifier `id`.
    pub fn get_job(&self, id: u128) -> (r: Option<ScheduledJob>)
        ensures
            match r {
                Some(j) => j.id == id && self@.contains(j),
                None => !has_job(self@, id),
            },
    {
        match self.position(id) {
            Some(i) => Some(self.jobs[i].duplicate()),
            None => None,
        }
    }

    /// Copies of all jobs.
    pub fn list_jobs(&self) -> (r: Vec<ScheduledJob>)
        ensures
            r@ == self@,
    {
        let mut r: Vec<ScheduledJob> = Vec::new();
        let mut i: usize = 0;
        while i < self.jobs.len()
            invariant
                i <= self.jobs@.len(),
                r@ == self.jobs@.subrange(0, i as int),
            decreases self.jobs@.len() - i,
        {
            r.push(self.jobs[i].duplicate());
            i = i + 1;
            assert(r@ =~= self.jobs@.subrange(0, i as int));
        }
        assert(self.jobs@.subrange(0, self.jobs@.len() as int) =~= self.jobs@);
        r
    }

    /// Copies of the jobs that are enabled, or of those that are not.
    pub fn list_jobs_by_status(&self, enabled: bool) -> (r: Vec<ScheduledJob>)
        ensures
            r@ == jobs_where(self@, |j: ScheduledJob| j.enabled == enabled),
    {
        let ghost p = |j: ScheduledJob| j.enabled == enabled;
        let mut r: Vec<ScheduledJob> = Vec::new();
        let mut i: usize = 0;
        while i < self.jobs.len()
            invariant
                i <= self.jobs@.len(),
                p == (|j: ScheduledJob| j.enabled == enabled),
                r@ == jobs_where(self.jobs@.subrange(0, i as int), p),
            decreases self.jobs@.len() - i,
        {
            proof {
                let s1 = self.jobs@.subrange(0, i + 1);
                assert(s1.drop_last() =~= self.jobs@.subrange(0, i as int));
                assert(s1.last() == self.jobs@[i as int]);
                assert(p(s1.last()) == (self.jobs@[i as int].enabled == enabled));
            }
            if self.jobs[i].enabled == enabled {
                r.push(self.jobs[i].duplicate());
            }
            i = i + 1;
        }
        assert(self.jobs@.subrange(0, self.jobs@.len() as int) =~= self.jobs@);
        r
    }

    /// Asks the scheduler to stop.
    pub fn shutdown(&mut self)
        ensures
            final(self)@ == old(self)@,
            final(self).stop_requested(),
    {
        self.stopped = true;
    }

    /// Whether a stop was asked for.
    pub fn is_shut_down(&self) -> (r: bool)
        ensures
            r == self.stop_requested(),
    {
        self.stopped
    }
}


impl TaskScheduler {
    /// The counts of the jobs at `now`; the two sums saturate at the largest
    /// `u64`.
    pub fn get_stats_at(&self, now: i64) -> (r: SchedulerStats)
        ensures
            r.total_jobs == self@.len(),
            r.enabled_jobs == count_jobs(self@, |j: ScheduledJob| j.enabled),
            r.disabled_jobs == self@.len() - count_jobs(self@, |j: ScheduledJob| j.enabled),
            r.ready_jobs == ready_count(self@, now),
            r.recurring_jobs == count_jobs(self@, |j: ScheduledJob| j.schedule.recurring()),
            r.total_executions == saturated(sum_jobs(self@, |j: ScheduledJob| j.run_count)),
            r.total_failures == saturated(sum_jobs(self@, |j: ScheduledJob| j.failure_count)),
    {
        let ghost en = |j: ScheduledJob| j.enabled;
        let ghost rd = |j: ScheduledJob| j.ready_at(now);
        let ghost rc = |j: ScheduledJob| j.schedule.recurring();
        let ghost runs = |j: ScheduledJob| j.run_count;
        let ghost fails = |j: ScheduledJob| j.failure_count;
        let mut enabled: usize = 0;
        let mut ready: usize = 0;
        let mut recurring: usize = 0;
        let mut executions: u64 = 0;
        let mut failures: u64 = 0;
        let mut i: usize = 0;
        while i < self.jobs.len()
            invariant
                i <= self.jobs@.len(),
                en == (|j: ScheduledJob| j.enabled),
                rd == (|j: ScheduledJob| j.ready_at(now)),
                rc == (|j: ScheduledJob| j.schedule.recurring()),
                runs == (|j: ScheduledJob| j.run_count),
                fails == (|j: ScheduledJob| j.failure_count),
                enabled == count_jobs(self.jobs@.subrange(0, i as int), en),
                ready == count_jobs(self.jobs@.subrange(0, i as int), rd),
                recurring == count_jobs(self.jobs@.subrange(0, i as int), rc),
                enabled <= i && ready <= i && recurring <= i,
                executions == saturated(sum_jobs(self.jobs@.subrange(0, i as int), runs)),
                failures == saturated(sum_jobs(self.jobs@.subrange(0, i as int), fails)),
            decreases self.jobs@.len() - i,
        {
            let job = &self.jobs[i];
            proof {
                let s1 = self.jobs@.subrange(0, i + 1);
                assert(s1.drop_last() =~= self.jobs@.subrange(0, i as int));
                assert(s1.last() == self.jobs@[i as int]);
            }
            if job.enabled {
                enabled = enabled + 1;
            }
            if job.is_ready_at(now) {
                ready = ready + 1;
            }
            if job.schedule.is_recurring() {
                recurring = recurring + 1;
            }
            executions = if executions > u64::MAX - job.run_count {
                u64::MAX
            } else {
                executions + job.run_count
            };
            failures = if failures > u64::MAX - job.failure_count {
                u64::MAX
            } else {
                failures + job.failure_count
            };
            i = i + 1;
        }
        assert(self.jobs@.subrange(0, self.jobs@.len() as int) =~= self.jobs@);
        SchedulerStats {
            total_jobs: self.jobs.len(),
            enabled_jobs: enabled,
            disabled_jobs: self.jobs.len() - enabled,
            ready_jobs: ready,
            recurring_jobs: recurring,
            total_executions: executions,
            total_failures: failures,
        }
    }

    /// The counts of the jobs now.
    pub fn get_stats(&self) -> (r: SchedulerStats)
        ensures
            r.total_jobs == self@.len(),
            r.enabled_jobs == count_jobs(self@, |j: ScheduledJob| j.enabled),
            r.disabled_jobs == self@.len() - count_jobs(self@, |j: ScheduledJob| j.enabled),
            exists|now: i64| r.ready_jobs == #[trigger] ready_count(self@, now),
            r.recurring_jobs == count_jobs(self@, |j: ScheduledJob| j.schedule.recurring()),
            r.total_executions == saturated(sum_jobs(self@, |j: ScheduledJob| j.run_count)),
            r.total_failures == saturated(sum_jobs(self@, |j: ScheduledJob| j.failure_count)),
    {
        let now = utc_now();
        self.get_stats_at(now)
    }

    /// The identifiers of the jobs that are enabled and due at `now`, in table
    /// order.
    pub fn due_jobs_at(&self, now: i64) -> (r: Vec<u128>)
        ensures
            r@ == jobs_where(self@, |j: ScheduledJob| j.ready_at(now)).map_values(
                |j: ScheduledJob| j.id,
            ),
    {
        let ghost p = |j: ScheduledJob| j.ready_at(now);
        let mut r: Vec<u128> = Vec::new();
        let mut i: usize = 0;
        while i < self.jobs.len()
            invariant
                i <= self.jobs@.len(),
                p == (|j: ScheduledJob| j.ready_at(now)),
                r@ == jobs_where(self.jobs@.subrange(0, i as int), p).map_values(
                    |j: ScheduledJob| j.id,
                ),
            decreases self.jobs@.len() - i,
        {
            proof {
                let s1 = self.jobs@.subrange(0, i + 1);
                assert(s1.drop_last() =~= self.jobs@.subrange(0, i as int));
                assert(s1.last() == self.jobs@[i as int]);
            }
            if self.jobs[i].is_ready_at(now) {
                r.push(self.jobs[i].id);
                proof {
                    let w = jobs_where(self.jobs@.subrange(0, i + 1), p);
                    assert(r@ =~= w.map_values(|j: ScheduledJob| j.id));
                }
            }
            i = i + 1;
        }
        assert(self.jobs@.subrange(0, self.jobs@.len() as int) =~= self.jobs@);
        r
    }

    /// Records a run of job `id` at `now`: the job is marked executed, then
    /// kept while it is enabled or recurring, and dropped once it is spent.
    pub fn record_run_at(&mut self, id: u128, success: bool, now: i64)
        requires
            old(self).wf(),
        ensures
            final(self).wf(),
            final(self).stop_requested() == old(self).stop_requested(),
            !has_job(old(self)@, id) ==> final(self)@ == old(self)@,
            forall|i: int| 0 <= i < old(self)@.len() && old(self)@[i].id == id ==> {
                let j = old(self)@[i].executed(success, now);
                if j.enabled || j.schedule.recurring() {
                    final(self)@ == old(self)@.update(i, j)
                } else {
                    final(self)@ == old(self)@.remove(i)
                }
            },
    {
        match self.position(id) {
            Some(i) => {
                let mut job = self.jobs[i].duplicate();
                job.mark_executed_at(success, now);
                if job.enabled || job.schedule.is_recurring() {
                    self.jobs.set(i, job);
                } else {
                    self.jobs.remove(i);
                }
            },
            None => {},
        }
    }

    /// The task that job `id` emits at `now` with task identifier `task_id`,
    /// if there is such a job.
    pub fn task_for_job(&self, id: u128, task_id: u128, now: i64) -> (r: Option<TaskDefinition>)
        requires
            self.wf(),
        ensures
            !has_job(self@, id) ==> r is None,
            forall|i: int| 0 <= i < self@.len() && self@[i].id == id ==> {
                let j = self@[i];
                r is Some && r->Some_0@ == TaskRecord::fresh(task_id, j.task_type@, j.task_data@,
                    j.queue@, j.priority, RetryConfig::default_spec(), None, now)
            },
    {
        match self.position(id) {
            Some(i) => {
                Some(self.jobs[i].emitted_task(task_id, now))
            },
            None => None,
        }
    }
}


/// Whether `j` is a fresh job made from the given template and schedule.
pub open spec fn fresh_job(
    j: ScheduledJob,
    name: String,
    task_type: String,
    task_data: String,
    queue: String,
    priority: TaskPriority,
    schedule: ScheduleExpression,
) -> bool {
    &&& j.name == name && j.task_type == task_type && j.task_data == task_data
    &&& j.queue == queue && j.priority == priority && j.schedule == schedule
    &&& j.enabled && j.run_count == 0 && j.failure_count == 0 && j.last_run is None
    &&& j.next_run == schedule.next_after(j.created_at)
}

/// Convenience constructors: each adds a fresh job with one kind of schedule.
impl TaskScheduler {
    fn schedule_job(
        &mut self,
        name: String,
        task_type: String,
        task_data: String,
        queue: String,
        priority: TaskPriority,
        schedule: ScheduleExpression,
    ) -> (r: u128)
        requires
            old(self).wf(),
        ensures
            final(self).wf(),
            exists|i: int| 0 <= i < final(self)@.len() && final(self)@[i].id == r
                && fresh_job(final(self)@[i], name, task_type, task_data, queue, priority, schedule),
    {
        let job = ScheduledJob::new(name, task_type, task_data, queue, priority, schedule);
        let id = self.add_job(job);
        proof {
            if has_job(old(self)@, job.id) {
                let i = choose|i: int| 0 <= i < old(self)@.len() && old(self)@[i].id == job.id
                    && final(self)@ == old(self)@.update(i, job);
                assert(final(self)@[i] == job);
            } else {
                assert(final(self)@[old(self)@.len() as int] == job);
            }
        }
        id
    }

    /// Adds a job that runs once at `at`.
    pub fn schedule_once(
        &mut self,
        name: String,
        task_type: String,
        task_data: String,
        queue: String,
        priority: TaskPriority,
        at: i64,
    ) -> (r: u128)
        requires
            old(self).wf(),
        ensures
            final(self).wf(),
            exists|i: int| 0 <= i < final(self)@.len() && final(self)@[i].id == r
                && fresh_job(final(self)@[i], name, task_type, task_data, queue, priority,
                    ScheduleExpression::Once(at)),
    {
        self.schedule_job(name, task_type, task_data, queue, priority, ScheduleExpression::Once(at))
    }

    /// Adds a job that runs once, `delay_seconds` from now.
    pub fn schedule_after(
        &mut self,
        name: String,
        task_type: String,
        task_data: String,
        queue: String,
        priority: TaskPriority,
        delay_seconds: u64,
    ) -> (r: u128)
        requires
            old(self).wf(),
        ensures
            final(self).wf(),
            exists|i: int| 0 <= i < final(self)@.len() && final(self)@[i].id == r
                && fresh_job(final(self)@[i], name, task_type, task_data, queue, priority,
                    ScheduleExpression::Delay(delay_seconds)),
    {
        self.schedule_job(name, task_type, task_data, queue, priority,
            ScheduleExpression::Delay(delay_seconds))
    }

    /// Adds a job that runs every `seconds` seconds.
    pub fn schedule_every_seconds(
        &mut self,
        name: String,
        task_type: String,
        task_data: String,
        queue: String,
        priority: TaskPriority,
        seconds: u64,
    ) -> (r: u128)
        requires
            old(self).wf(),
        ensures
            final(self).wf(),
            exists|i: int| 0 <= i < final(self)@.len() && final(self)@[i].id == r
                && fresh_job(final(self)@[i], name, task_type, task_data, queue, priority,
                    ScheduleExpression::EverySeconds(seconds)),
    {
        self.schedule_job(name, task_type, task_data, queue, priority,
            ScheduleExpression::EverySeconds(seconds))
    }

    /// Adds a job that runs every `minutes` minutes.
    pub fn schedule_every_minutes(
        &mut self,
        name: String,
        task_type: String,
        task_data: String,
        queue: String,
        priority: TaskPriority,
        minutes: u64,
    ) -> (r: u128)
        requires
            old(self).wf(),
        ensures
            final(self).wf(),
            exists|i: int| 0 <= i < final(self)@.len() && final(self)@[i].id == r
                && fresh_job(final(self)@[i], name, task_type, task_data, queue, priority,
                    ScheduleExpression::EveryMinutes(minutes)),
    {
        self.schedule_job(name, task_type, task_data, queue, priority,
            ScheduleExpression::EveryMinutes(minutes))
    }

    /// Adds a job that runs every day at `hour:minute` UTC.
    pub fn schedule_daily(
        &mut self,
        name: String,
        task_type: String,
        task_data: String,
        queue: String,
        priority: TaskPriority,
        hour: u32,
        minute: u32,
    ) -> (r: u128)
        requires
            old(self).wf(),
        ensures
            final(self).wf(),
            exists|i: int| 0 <= i < final(self)@.len() && final(self)@[i].id == r
                && fresh_job(final(self)@[i], name, task_type, task_data, queue, priority,
                    ScheduleExpression::Daily { hour, minute }),
    {
        self.schedule_job(name, task_type, task_data, queue, priority,
            ScheduleExpression::Daily { hour, minute })
    }

    /// Adds a job that runs every week on `day` (0 is Sunday) at
    /// `hour:minute` UTC.
    pub fn schedule_weekly(
        &mut self,
        name: String,
        task_type: String,
        task_data: String,
        queue: String,
        priority: TaskPriority,
        day: u32,
        hour: u32,
        minute: u32,
    ) -> (r: u128)
        requires
            old(self).wf(),
        ensures
            final(self).wf(),
            exists|i: int| 0 <= i < final(self)@.len() && final(self)@[i].id == r
                && fresh_job(final(self)@[i], name, task_type, task_data, queue, priority,
                    ScheduleExpression::Weekly { day, hour, minute }),
    {
        self.schedule_job(name, task_type, task_data, queue, priority,
            ScheduleExpression::Weekly { day, hour, minute })
    }
}

} // verus!
