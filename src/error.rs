//! Errors of the task queue.

use vstd::prelude::*;
use crate::text::{decimal, decimal_text};

verus! {

/// The errors that the queue, the workers and the scheduler report.
#[derive(Debug, Clone, PartialEq, Eq)]
pub enum TaskError {
    /// The broker refused a connection or a command.
    Redis { message: String },
    /// A record could not be encoded or decoded.
    Serialization { message: String },
    /// A handler returned an error.
    TaskExecution { message: String },
    /// No task has the given id.
    TaskNotFound { task_id: String },
    /// A step of the broker adapter failed.
    QueueOperation { operation: String, reason: String },
    /// A fault inside a worker.
    Worker { message: String },
    /// A fault inside the scheduler.
    Scheduler { message: String },
    /// A bad configuration.
    Config { message: String },
    /// A bounded operation exceeded its deadline.
    Timeout { operation: String },
    /// A retry was asked for past the task's budget.
    RetryLimitExceeded { task_id: String, max_retries: u32 },
    /// Any other fault.
    Internal { message: String },
    /// A local file or socket error.
    Io { message: String },
}

/// Whether an error of this kind may go away when the operation is retried.
pub open spec fn recoverable(e: TaskError) -> bool {
    match e {
        TaskError::Redis { .. } => true,
        TaskError::Timeout { .. } => true,
        TaskError::QueueOperation { .. } => true,
        TaskError::Worker { .. } => true,
        TaskError::TaskExecution { .. } => true,
        TaskError::Io { .. } => true,
        _ => false,
    }
}

/// The human-readable text of an error.
pub open spec fn error_text(e: TaskError) -> Seq<char> {
    match e {
        TaskError::Redis { message } => "Redis error: "@ + message@,
        TaskError::Serialization { message } => "Serialization error: "@ + message@,
        TaskError::TaskExecution { message } => "Task execution failed: "@ + message@,
        TaskError::TaskNotFound { task_id } => "Task not found: "@ + task_id@,
        TaskError::QueueOperation { operation, reason } =>
            "Queue operation failed: "@ + operation@ + ": "@ + reason@,
        TaskError::Worker { message } => "Worker error: "@ + message@,
        TaskError::Scheduler { message } => "Scheduler error: "@ + message@,
        TaskError::Config { message } => "Configuration error: "@ + message@,
        TaskError::Timeout { operation } => "Operation timed out: "@ + operation@,
        TaskError::RetryLimitExceeded { task_id, max_retries } =>
            "Task retry limit exceeded: "@ + task_id@ + " (max retries: "@
                + decimal(max_retries as nat) + ")"@,
        TaskError::Internal { message } => "Internal error: "@ + message@,
        TaskError::Io { message } => "IO error: "@ + message@,
    }
}

fn joined(a: &str, b: &str) -> (r: String)
    ensures
        r@ == a@ + b@,
{
    let mut r = String::from_str(a);
    r.append(b);
    r
}

impl TaskError {
    /// An error of a handler.
    pub fn task_execution(message: &str) -> (r: Self)
        ensures
            r is TaskExecution,
            r->TaskExecution_message@ == message@,
    {
        TaskError::TaskExecution { message: String::from_str(message) }
    }

    /// An error of a step of the broker adapter.
    pub fn queue_operation(operation: &str, reason: &str) -> (r: Self)
        ensures
            r is QueueOperation,
            r->QueueOperation_operation@ == operation@,
            r->QueueOperation_reason@ == reason@,
    {
        TaskError::QueueOperation { operation: String::from_str(operation), reason: String::from_str(reason) }
    }

    /// An error inside a worker.
    pub fn worker(message: &str) -> (r: Self)
        ensures
            r is Worker,
            r->Worker_message@ == message@,
    {
        TaskError::Worker { message: String::from_str(message) }
    }

    /// An error inside the scheduler.
    pub fn scheduler(message: &str) -> (r: Self)
        ensures
            r is Scheduler,
            r->Scheduler_message@ == message@,
    {
        TaskError::Scheduler { message: String::from_str(message) }
    }

    /// A configuration error.
    pub fn config(message: &str) -> (r: Self)
        ensures
            r is Config,
            r->Config_message@ == message@,
    {
        TaskError::Config { message: String::from_str(message) }
    }

    /// A timeout of the named operation.
    pub fn timeout(operation: &str) -> (r: Self)
        ensures
            r is Timeout,
            r->Timeout_operation@ == operation@,
    {
        TaskError::Timeout { operation: String::from_str(operation) }
    }

    /// Whether the operation that failed may succeed when retried.
    pub fn is_recoverable(&self) -> (r: bool)
        ensures
            r == recoverable(*self),
    {
        match self {
            TaskError::Redis { .. } => true,
            TaskError::Timeout { .. } => true,
            TaskError::QueueOperation { .. } => true,
            TaskError::Worker { .. } => true,
            TaskError::TaskExecution { .. } => true,
            TaskError::Serialization { .. } => false,
            TaskError::TaskNotFound { .. } => false,
            TaskError::Config { .. } => false,
            TaskError::RetryLimitExceeded { .. } => false,
            TaskError::Scheduler { .. } => false,
            TaskError::Internal { .. } => false,
            TaskError::Io { .. } => true,
        }
    }

    /// The human-readable text of the error.
    pub fn message(&self) -> (r: String)
        ensures
            r@ == error_text(*self),
    {
        match self {
            TaskError::Redis { message } => joined("Redis error: ", message.as_str()),
            TaskError::Serialization { message } =>
                joined("Serialization error: ", message.as_str()),
            TaskError::TaskExecution { message } =>
                joined("Task execution failed: ", message.as_str()),
            TaskError::TaskNotFound { task_id } => joined("Task not found: ", task_id.as_str()),
            TaskError::QueueOperation { operation, reason } => {
                let mut r = joined("Queue operation failed: ", operation.as_str());
                r.append(": ");
                r.append(reason.as_str());
                r
            },
            TaskError::Worker { message } => joined("Worker error: ", message.as_str()),
            TaskError::Scheduler { message } => joined("Scheduler error: ", message.as_str()),
            TaskError::Config { message } => joined("Configuration error: ", message.as_str()),
            TaskError::Timeout { operation } =>
                joined("Operation timed out: ", operation.as_str()),
            TaskError::RetryLimitExceeded { task_id, max_retries } => {
                let mut r = joined("Task retry limit exceeded: ", task_id.as_str());
                r.append(" (max retries: ");
                let n = decimal_text(*max_retries as u64);
                r.append(n.as_str());
                r.append(")");
                r
            },
            TaskError::Internal { message } => joined("Internal error: ", message.as_str()),
            TaskError::Io { message } => joined("IO error: ", message.as_str()),
        }
    }
}

} // verus!
