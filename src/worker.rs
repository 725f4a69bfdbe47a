//! The decisions of the worker engine: when to poll, what a claim and the end
//! of a run do to the task and to the worker's counters.

use vstd::prelude::*;
use crate::registry::{chosen_slot, holds_name, TaskHandlerRegistry};
use crate::scheduler::count_up;
use crate::task::{TaskDefinition, TaskRecord, TaskStatus};
use crate::text::{decimal, decimal_text, fresh_id, hyphenated, id_text, utc_now};

verus! {

/// Configuration of a worker.
#[derive(Debug, Clone)]
pub struct WorkerConfig {
    pub worker_id: u128,
    /// The queues to poll, in order of preference.
    pub queues: Vec<String>,
    pub max_concurrent_tasks: usize,
    pub polling_interval_ms: u64,
    /// The deadline of one run, in seconds.
    pub task_timeout: u64,
    /// Whether a failed run is retried within the task's budget.
    pub auto_retry: bool,
    /// Seconds between heartbeats.
    pub heartbeat_interval: u64,
    /// Seconds to wait for runs in flight at shutdown.
    pub shutdown_grace_period: u64,
}

impl Default for WorkerConfig {
    fn default() -> (r: Self)
        ensures
            r.queues@.len() == 1,
            r.queues@[0]@ == "default"@,
            r.max_concurrent_tasks == 4,
            r.polling_interval_ms == 1000,
            r.task_timeout == 300,
            r.auto_retry,
            r.heartbeat_interval == 30,
            r.shutdown_grace_period == 30,
    {
        let mut queues: Vec<String> = Vec::new();
        queues.push(String::from_str("default"));
        WorkerConfig {
            worker_id: fresh_id(),
            queues,
            max_concurrent_tasks: 4,
            polling_interval_ms: 1000,
            task_timeout: 300,
            auto_retry: true,
            heartbeat_interval: 30,
            shutdown_grace_period: 30,
        }
    }
}

/// Counters of a worker.
#[derive(Debug, Clone, Copy, PartialEq, Eq, Structural)]
pub struct WorkerStats {
    pub tasks_processed: u64,
    pub tasks_successful: u64,
    pub tasks_failed: u64,
    pub tasks_retried: u64,
    /// The sum of the run times, in milliseconds.
    pub total_execution_time_ms: u64,
    pub last_heartbeat: Option<i64>,
    pub started_at: i64,
}

/// `a + b`, or the largest `u64` where that is larger.
pub open spec fn sat_add(a: u64, b: u64) -> u64 {
    if a + b <= u64::MAX { (a + b) as u64 } else { u64::MAX }
}

fn saturating_sum(a: u64, b: u64) -> (r: u64)
    ensures
        r == sat_add(a, b),
{
    if a > u64::MAX - b { u64::MAX } else { a + b }
}

impl WorkerStats {
    /// Fresh counters of a worker started at `now`.
    pub fn starting_at(now: i64) -> (r: Self)
        ensures
            r == (WorkerStats {
                tasks_processed: 0,
                tasks_successful: 0,
                tasks_failed: 0,
                tasks_retried: 0,
                total_execution_time_ms: 0,
                last_heartbeat: None,
                started_at: now,
            }),
    {
        WorkerStats {
            tasks_processed: 0,
            tasks_successful: 0,
            tasks_failed: 0,
            tasks_retried: 0,
            total_execution_time_ms: 0,
            last_heartbeat: None,
            started_at: now,
        }
    }

    /// The mean run time in milliseconds, rounded down; 0 before any run.
    pub fn average_execution_time_ms(&self) -> (r: u64)
        ensures
            self.tasks_processed == 0 ==> r == 0,
            self.tasks_processed > 0 ==> r == self.total_execution_time_ms / self.tasks_processed,
    {
        if self.tasks_processed == 0 {
            0
        } else {
            self.total_execution_time_ms / self.tasks_processed
        }
    }
}

/// What the polling loop does on a tick.
#[derive(Debug, Clone, Copy, PartialEq, Eq, Structural)]
pub enum PollAction {
    /// Shutdown was signalled: leave the loop.
    Stop,
    /// As many runs as allowed are in flight: skip this tick.
    Wait,
    /// Ask each queue, in order, for a task.
    Poll,
}

/// What a claim leads to.
#[derive(Debug, Clone, Copy, PartialEq, Eq, Structural)]
pub enum ClaimOutcome {
    /// Run the task with the handler in this slot.
    Run(usize),
    /// No handler takes the task: it was marked failed, to be written as such.
    NoHandler,
    /// The claimed record has already finished: it is left as it is and only
    /// the claim ends.
    AlreadyFinished,
}

/// How a run ended.
#[derive(Debug, Clone, PartialEq, Eq)]
pub enum ExecutionOutcome {
    /// The handler returned this serialized result within the deadline.
    Succeeded(String),
    /// The handler returned this error message within the deadline.
    Errored(String),
    /// The deadline passed first.
    TimedOut,
}

/// What is written back after a run.
#[derive(Debug, Clone, Copy, PartialEq, Eq, Structural)]
pub enum FinishAction {
    /// Write the task as completed.
    Complete,
    /// End the claim and requeue the task for its retry.
    Requeue,
    /// Write the task as failed.
    Fail,
}

/// The message for a task type that no handler takes.
pub open spec fn no_handler_message(name: Seq<char>) -> Seq<char> {
    "No handler found for task type: "@ + name
}

/// The message for a run that passed its deadline of `secs` seconds.
pub open spec fn timeout_message(secs: u64) -> Seq<char> {
    "Task execution timed out after "@ + decimal(secs as nat) + " seconds"@
}

/// The task after a run that ended with `outcome`, and what is written back.
pub open spec fn finished_task(
    t: TaskRecord,
    outcome: ExecutionOutcome,
    auto_retry: bool,
    timeout: u64,
    now: i64,
) -> (TaskRecord, FinishAction) {
    match outcome {
        ExecutionOutcome::Succeeded(result) => (t.succeeded(result@, now), FinishAction::Complete),
        ExecutionOutcome::Errored(message) => if auto_retry && t.can_retry() {
            (t.retried(now), FinishAction::Requeue)
        } else {
            (t.failed(message@, now), FinishAction::Fail)
        },
        ExecutionOutcome::TimedOut => (t.failed(timeout_message(timeout), now), FinishAction::Fail),
    }
}

/// The task after a claim at `now` by `worker`, given the registered names
/// and which slots accept its type, and what the claim leads to.
pub open spec fn claimed_task(
    t: TaskRecord,
    worker: u128,
    names: Seq<String>,
    accepts: Seq<bool>,
    now: i64,
) -> (TaskRecord, ClaimOutcome) {
    if t.is_terminal() {
        (t, ClaimOutcome::AlreadyFinished)
    } else {
        let started = t.started(hyphenated(worker), now);
        match chosen_slot(names, t.name, accepts) {
            Some(i) => (started, ClaimOutcome::Run(i as usize)),
            None => (started.failed(no_handler_message(t.name), now), ClaimOutcome::NoHandler),
        }
    }
}

/// The worker engine's state: its configuration, its handler registry, its
/// counters and whether shutdown was signalled.
pub struct Worker {
    pub config: WorkerConfig,
    pub handlers: TaskHandlerRegistry,
    pub stats: WorkerStats,
    pub shutdown: bool,
}

impl Worker {
    /// A worker with no handlers, started at `now`.
    pub fn new_at(config: WorkerConfig, now: i64) -> (r: Self)
        ensures
            r.config == config,
            r.handlers@ == Seq::<String>::empty(),
            r.handlers.wf(),
            r.stats == WorkerStats::starting_at_spec(now),
            !r.shutdown,
    {
        Worker {
            config,
            handlers: TaskHandlerRegistry::new(),
            stats: WorkerStats::starting_at(now),
            shutdown: false,
        }
    }

    /// A worker with no handlers, started now.
    pub fn new(config: WorkerConfig) -> (r: Self)
        ensures
            r.config == config,
            r.handlers@ == Seq::<String>::empty(),
            r.handlers.wf(),
            r.stats == WorkerStats::starting_at_spec(r.stats.started_at),
            !r.shutdown,
    {
        let now = utc_now();
        Self::new_at(config, now)
    }

    /// Registers a handler under `name`; its slot comes back.
    pub fn register_handler(&mut self, name: String) -> (r: usize)
        requires
            old(self).handlers.wf(),
        ensures
            final(self).handlers.wf(),
            holds_name(old(self).handlers@, name@) ==> final(self).handlers@ == old(self).handlers@
                && r < old(self).handlers@.len() && old(self).handlers@[r as int]@ == name@,
            !holds_name(old(self).handlers@, name@) ==> final(self).handlers@
                == old(self).handlers@.push(name) && r == old(self).handlers@.len(),
            final(self).config == old(self).config,
            final(self).stats == old(self).stats,
            final(self).shutdown == old(self).shutdown,
    {
        self.handlers.register(name)
    }

    /// The worker's counters.
    pub fn get_stats(&self) -> (r: WorkerStats)
        ensures
            r == self.stats,
    {
        self.stats
    }

    /// Signals shutdown: every loop stops at its next tick.
    pub fn signal_shutdown(&mut self)
        ensures
            final(self).shutdown,
            final(self).config == old(self).config,
            final(self).stats == old(self).stats,
            final(self).handlers@ == old(self).handlers@,
    {
        self.shutdown = true;
    }

    /// Stamps a heartbeat at `now`.
    pub fn record_heartbeat(&mut self, now: i64)
        ensures
            final(self).stats == (WorkerStats { last_heartbeat: Some(now), ..old(self).stats }),
            final(self).config == old(self).config,
            final(self).shutdown == old(self).shutdown,
            final(self).handlers@ == old(self).handlers@,
    {
        self.stats.last_heartbeat = Some(now);
    }

    /// What the polling loop does with `active` runs in flight.
    pub fn poll_action(&self, active: usize) -> (r: PollAction)
        ensures
            self.shutdown ==> r == PollAction::Stop,
            !self.shutdown && active >= self.config.max_concurrent_tasks ==> r == PollAction::Wait,
            !self.shutdown && active < self.config.max_concurrent_tasks ==> r == PollAction::Poll,
    {
        if self.shutdown {
            PollAction::Stop
        } else if active >= self.config.max_concurrent_tasks {
            PollAction::Wait
        } else {
            PollAction::Poll
        }
    }

    /// Whether shutdown keeps waiting for `active` runs in flight after
    /// `elapsed_ms` milliseconds of the grace period.
    pub fn keep_waiting(&self, active: usize, elapsed_ms: u64) -> (r: bool)
        ensures
            r == (active > 0 && elapsed_ms < self.config.shutdown_grace_period * 1000),
    {
        if active == 0 {
            return false;
        }
        let grace: u128 = self.config.shutdown_grace_period as u128 * 1000;
        (elapsed_ms as u128) < grace
    }

    /// Handles a task claimed at `now`, given for each handler slot whether
    /// it accepts the task's type: an unfinished task is marked running under
    /// this worker and goes to the chosen handler, or, with none, is marked
    /// failed; a finished one is left as it is.
    pub fn claim(&self, task: &mut TaskDefinition, accepts: &Vec<bool>, now: i64) -> (r:
        ClaimOutcome)
        requires
            accepts@.len() == self.handlers@.len(),
        ensures
            (final(task)@, r) == claimed_task(old(task)@, self.config.worker_id, self.handlers@,
                accepts@, now),
    {
        if task.status.is_terminal() {
            return ClaimOutcome::AlreadyFinished;
        }
        task.mark_started_at(id_text(self.config.worker_id), now);
        match self.handlers.select(task.name.as_str(), accepts) {
            Some(i) => ClaimOutcome::Run(i),
            None => {
                let mut m = String::from_str("No handler found for task type: ");
                m.append(task.name.as_str());
                task.mark_failed_at(m.as_str(), now);
                ClaimOutcome::NoHandler
            },
        }
    }

    /// Records the end at `now` of a run of `elapsed_ms` milliseconds:
    /// success completes the task; a handler error within the budget grants a
    /// retry, else fails the task; a timeout fails it. Counters saturate.
    pub fn finish(
        &mut self,
        task: &mut TaskDefinition,
        outcome: ExecutionOutcome,
        elapsed_ms: u64,
        now: i64,
    ) -> (r: FinishAction)
        requires
            old(task).status == TaskStatus::Running,
        ensures
            (final(task)@, r) == finished_task(old(task)@, outcome, old(self).config.auto_retry,
                old(self).config.task_timeout, now),
            final(self).config == old(self).config,
            final(self).shutdown == old(self).shutdown,
            final(self).handlers@ == old(self).handlers@,
            final(self).stats == (WorkerStats {
                tasks_processed: count_up(old(self).stats.tasks_processed),
                total_execution_time_ms: sat_add(old(self).stats.total_execution_time_ms, elapsed_ms),
                tasks_successful: if r == FinishAction::Complete {
                    count_up(old(self).stats.tasks_successful)
                } else {
                    old(self).stats.tasks_successful
                },
                tasks_failed: if r == FinishAction::Fail {
                    count_up(old(self).stats.tasks_failed)
                } else {
                    old(self).stats.tasks_failed
                },
                ..old(self).stats
            }),
    {
        self.stats.tasks_processed = crate::scheduler::counted_up(self.stats.tasks_processed);
        self.stats.total_execution_time_ms = saturating_sum(self.stats.total_execution_time_ms, elapsed_ms);
        match outcome {
            ExecutionOutcome::Succeeded(result) => {
                task.mark_success_at(result, now);
                self.stats.tasks_successful = crate::scheduler::counted_up(self.stats.tasks_successful);
                FinishAction::Complete
            },
            ExecutionOutcome::Errored(message) => {
                if self.config.auto_retry && task.can_retry() {
                    let _ = task.mark_retry_at(now);
                    FinishAction::Requeue
                } else {
                    task.mark_failed_at(message.as_str(), now);
                    self.stats.tasks_failed = crate::scheduler::counted_up(self.stats.tasks_failed);
                    FinishAction::Fail
                }
            },
            ExecutionOutcome::TimedOut => {
                let mut m = String::from_str("Task execution timed out after ");
                let n = decimal_text(self.config.task_timeout);
                m.append(n.as_str());
                m.append(" seconds");
                task.mark_failed_at(m.as_str(), now);
                self.stats.tasks_failed = crate::scheduler::counted_up(self.stats.tasks_failed);
                FinishAction::Fail
            },
        }
    }

    /// Settles a retry once its requeue was tried: a requeue that went
    /// through counts as a retry; one that did not fails the task at `now`
    /// with the run's error `message`.
    pub fn settle_retry(&mut self, task: &mut TaskDefinition, requeued: bool, message: &str, now: i64)
        requires
            old(task).status == TaskStatus::Retrying,
        ensures
            requeued ==> final(task)@ == old(task)@ && final(self).stats == (WorkerStats {
                tasks_retried: count_up(old(self).stats.tasks_retried),
                ..old(self).stats
            }),
            !requeued ==> final(task)@ == old(task)@.failed(message@, now) && final(self).stats
                == (WorkerStats { tasks_failed: count_up(old(self).stats.tasks_failed), ..old(self).stats }),
            final(self).config == old(self).config,
            final(self).shutdown == old(self).shutdown,
            final(self).handlers@ == old(self).handlers@,
    {
        if requeued {
            self.stats.tasks_retried = crate::scheduler::counted_up(self.stats.tasks_retried);
        } else {
            task.mark_failed_at(message, now);
            self.stats.tasks_failed = crate::scheduler::counted_up(self.stats.tasks_failed);
        }
    }
}

impl WorkerStats {
    /// Fresh counters of a worker started at `now`.
    pub open spec fn starting_at_spec(now: i64) -> WorkerStats {
        WorkerStats {
            tasks_processed: 0,
            tasks_successful: 0,
            tasks_failed: 0,
            tasks_retried: 0,
            total_execution_time_ms: 0,
            last_heartbeat: None,
            started_at: now,
        }
    }
}

} // verus!
