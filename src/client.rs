//! The client's decisions: how a submission is shaped, and what a poll for a
//! task's result concludes.

use vstd::prelude::*;
use crate::error::TaskError;
use crate::task::{add_seconds, time_after, TaskDefinition, TaskPriority, TaskRecord, TaskStatus};
use crate::text::{hyphenated, id_text, utc_now};

verus! {

/// Options of a submission.
#[derive(Debug, Clone)]
pub struct TaskSubmissionConfig {
    pub queue: String,
    pub priority: Option<TaskPriority>,
    /// When the task is due; `None` for at once.
    pub scheduled_at: Option<i64>,
}

impl TaskSubmissionConfig {
    /// A submission to `queue` with the task's own priority, due at once.
    pub fn new(queue: &str) -> (r: Self)
        ensures
            r.queue@ == queue@,
            r.priority is None,
            r.scheduled_at is None,
    {
        TaskSubmissionConfig { queue: String::from_str(queue), priority: None, scheduled_at: None }
    }

    /// The same submission at `priority`.
    pub fn with_priority(self, priority: TaskPriority) -> (r: Self)
        ensures
            r == (TaskSubmissionConfig { priority: Some(priority), ..self }),
    {
        TaskSubmissionConfig { priority: Some(priority), ..self }
    }

    /// The same submission due at `at`.
    pub fn scheduled_at(self, at: i64) -> (r: Self)
        ensures
            r == (TaskSubmissionConfig { scheduled_at: Some(at), ..self }),
    {
        TaskSubmissionConfig { scheduled_at: Some(at), ..self }
    }

    /// The same submission due `delay_seconds` after `now`.
    pub fn after_delay_at(self, delay_seconds: u64, now: i64) -> (r: Self)
        ensures
            r == (TaskSubmissionConfig {
                scheduled_at: Some(time_after(now, delay_seconds as int)),
                ..self
            }),
    {
        let at = add_seconds(now, delay_seconds);
        TaskSubmissionConfig { scheduled_at: Some(at), ..self }
    }

    /// The same submission due `delay_seconds` from now.
    pub fn after_delay(self, delay_seconds: u64) -> (r: Self)
        ensures
            r.queue == self.queue,
            r.priority == self.priority,
            exists|now: i64| r.scheduled_at == Some(#[trigger] time_after(now, delay_seconds as int)),
    {
        let now = utc_now();
        self.after_delay_at(delay_seconds, now)
    }

    /// Shapes `task` for this submission: its priority where one is given,
    /// and, where a due time is given, that time and the scheduled state.
    /// Says whether the task takes the scheduled path.
    pub fn apply(&self, task: &mut TaskDefinition) -> (r: bool)
        ensures
            r == self.scheduled_at is Some,
            final(task)@ == (TaskRecord {
                priority: match self.priority {
                    Some(p) => p,
                    None => old(task)@.priority,
                },
                scheduled_at: match self.scheduled_at {
                    Some(t) => Some(t),
                    None => old(task)@.scheduled_at,
                },
                status: match self.scheduled_at {
                    Some(_) => TaskStatus::Scheduled,
                    None => old(task)@.status,
                },
                ..old(task)@
            }),
    {
        match self.priority {
            Some(p) => {
                task.priority = p;
            },
            None => {},
        }
        match self.scheduled_at {
            Some(t) => {
                task.scheduled_at = Some(t);
                task.status = TaskStatus::Scheduled;
                true
            },
            None => false,
        }
    }
}

/// What one poll of `wait_for_result` concludes.
#[derive(Debug, PartialEq, Eq)]
pub enum WaitStep {
    /// The wait is over: the serialized result, or the error.
    Done(Result<String, TaskError>),
    /// The task has not finished: poll again.
    Again,
}

/// What a poll concludes of the record `task` of task `id` (none if the
/// lookup found nothing), `elapsed_ms` into a wait with the given timeout.
pub open spec fn wait_outcome(
    task: Option<TaskRecord>,
    id: u128,
    elapsed_ms: u64,
    timeout_seconds: Option<u64>,
    r: WaitStep,
) -> bool {
    if timeout_seconds is Some && elapsed_ms > timeout_seconds->Some_0 * 1000 {
        r matches WaitStep::Done(Err(e)) && e is Timeout
            && e->Timeout_operation@ == "wait_for_result"@
    } else {
        match task {
            None => r matches WaitStep::Done(Err(e)) && e is TaskNotFound
                && e->TaskNotFound_task_id@ == hyphenated(id),
            Some(t) => match t.status {
                TaskStatus::Success => match t.result {
                    Some(res) => r matches WaitStep::Done(Ok(s)) && s@ == res,
                    None => r matches WaitStep::Done(Err(e)) && e is TaskExecution
                        && e->TaskExecution_message@ == "Task completed but no result found"@,
                },
                TaskStatus::Failed => r matches WaitStep::Done(Err(e)) && e is TaskExecution
                    && e->TaskExecution_message@ == match t.error {
                        Some(m) => m,
                        None => "Unknown error"@,
                    },
                TaskStatus::Cancelled => r matches WaitStep::Done(Err(e)) && e is TaskExecution
                    && e->TaskExecution_message@ == "Task was cancelled"@,
                _ => r == WaitStep::Again,
            },
        }
    }
}

/// One poll of `wait_for_result` on task `id`: past the timeout the wait
/// fails; a missing task is an error; a finished one gives its serialized
/// result or its error; any other asks for another poll.
pub fn wait_step(
    task: Option<&TaskDefinition>,
    id: u128,
    elapsed_ms: u64,
    timeout_seconds: Option<u64>,
) -> (r: WaitStep)
    ensures
        wait_outcome(
            match task {
                Some(t) => Some(t@),
                None => None,
            },
            id,
            elapsed_ms,
            timeout_seconds,
            r,
        ),
{
    match timeout_seconds {
        Some(s) => {
            if elapsed_ms as u128 > s as u128 * 1000 {
                return WaitStep::Done(Err(TaskError::timeout("wait_for_result")));
            }
        },
        None => {},
    }
    match task {
        None => WaitStep::Done(Err(TaskError::TaskNotFound { task_id: id_text(id) })),
        Some(t) => match t.status {
            TaskStatus::Success => match &t.result {
                Some(res) => WaitStep::Done(Ok(res.clone())),
                None => WaitStep::Done(
                    Err(TaskError::task_execution("Task completed but no result found")),
                ),
            },
            TaskStatus::Failed => match &t.error {
                Some(m) => WaitStep::Done(Err(TaskError::task_execution(m.as_str()))),
                None => WaitStep::Done(Err(TaskError::task_execution("Unknown error"))),
            },
            TaskStatus::Cancelled => WaitStep::Done(
                Err(TaskError::task_execution("Task was cancelled")),
            ),
            _ => WaitStep::Again,
        },
    }
}

} // verus!
