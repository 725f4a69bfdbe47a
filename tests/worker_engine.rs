use distributed_task_queue::client::{wait_step, TaskSubmissionConfig, WaitStep};
use distributed_task_queue::error::TaskError;
use distributed_task_queue::registry::TaskHandlerRegistry;
use distributed_task_queue::task::{RetryConfig, TaskDefinition, TaskPriority, TaskStatus};
use distributed_task_queue::worker::{
    ClaimOutcome, ExecutionOutcome, FinishAction, PollAction, Worker, WorkerConfig, WorkerStats,
};

const WORKER: u128 = 0xabc;
const WORKER_TEXT: &str = "00000000-0000-0000-0000-000000000abc";

fn config() -> WorkerConfig {
    WorkerConfig {
        worker_id: WORKER,
        queues: vec!["math".to_string()],
        max_concurrent_tasks: 1,
        polling_interval_ms: 100,
        task_timeout: 2,
        auto_retry: true,
        heartbeat_interval: 30,
        shutdown_grace_period: 30,
    }
}

fn task(name: &str, retry: RetryConfig) -> TaskDefinition {
    TaskDefinition::create(7, name.to_string(), "{\"op\":\"add\",\"x\":2,\"y\":3}".to_string(), "math".to_string(), TaskPriority::Normal, retry, None, 100)
}

#[test]
fn default_worker_config() {
    let c = WorkerConfig::default();
    assert_eq!(c.queues, vec!["default".to_string()]);
    assert_eq!(c.max_concurrent_tasks, 4);
    assert_eq!(c.polling_interval_ms, 1000);
    assert_eq!(c.task_timeout, 300);
    assert!(c.auto_retry);
    assert_eq!(c.heartbeat_interval, 30);
    assert_eq!(c.shutdown_grace_period, 30);
}

#[test]
fn polling_respects_capacity_and_shutdown() {
    let mut w = Worker::new_at(config(), 0);
    assert_eq!(w.poll_action(0), PollAction::Poll);
    assert_eq!(w.poll_action(1), PollAction::Wait);
    assert!(w.keep_waiting(1, 29_999));
    assert!(!w.keep_waiting(1, 30_000));
    assert!(!w.keep_waiting(0, 0));
    w.signal_shutdown();
    assert_eq!(w.poll_action(0), PollAction::Stop);
    w.record_heartbeat(55);
    assert_eq!(w.get_stats().last_heartbeat, Some(55));
}

#[test]
fn registry_prefers_exact_then_first_accepting() {
    let mut r = TaskHandlerRegistry::new();
    assert_eq!(r.register("AddTask".to_string()), 0);
    assert_eq!(r.register("Wildcard".to_string()), 1);
    assert_eq!(r.register("AddTask".to_string()), 0);
    assert_eq!(r.len(), 2);
    assert_eq!(r.find_exact("Wildcard"), Some(1));
    assert_eq!(r.select("AddTask", &vec![false, true]), Some(0));
    assert_eq!(r.select("Other", &vec![false, true]), Some(1));
    assert_eq!(r.select("Other", &vec![false, false]), None);
}

#[test]
fn add_task_succeeds_with_its_result() {
    let mut w = Worker::new_at(config(), 0);
    let slot = w.register_handler("AddTask".to_string());
    let mut t = task("AddTask", RetryConfig::default());
    assert_eq!(w.claim(&mut t, &vec![true], 200), ClaimOutcome::Run(slot));
    assert_eq!(t.status, TaskStatus::Running);
    assert_eq!(t.worker_id.as_deref(), Some(WORKER_TEXT));
    assert_eq!(w.finish(&mut t, ExecutionOutcome::Succeeded("5".to_string()), 40, 201), FinishAction::Complete);
    assert_eq!(t.status, TaskStatus::Success);
    assert_eq!(t.result.as_deref(), Some("5"));
    let s = w.get_stats();
    assert_eq!((s.tasks_processed, s.tasks_successful, s.tasks_failed), (1, 1, 0));
    assert_eq!(wait_step(Some(&t), 7, 0, None), WaitStep::Done(Ok("5".to_string())));
}

#[test]
fn missing_handler_fails_without_retry() {
    let w = Worker::new_at(config(), 0);
    let mut t = task("Unknown", RetryConfig::default());
    assert_eq!(w.claim(&mut t, &vec![], 200), ClaimOutcome::NoHandler);
    assert_eq!(t.status, TaskStatus::Failed);
    assert_eq!(t.error.as_deref(), Some("No handler found for task type: Unknown"));
}

#[test]
fn finished_records_are_not_run_again() {
    let w = Worker::new_at(config(), 0);
    let mut t = task("AddTask", RetryConfig::default());
    t.mark_success_at("5".to_string(), 150);
    assert_eq!(w.claim(&mut t, &vec![], 200), ClaimOutcome::AlreadyFinished);
    assert_eq!(t.status, TaskStatus::Success);
    assert_eq!(t.finished_at, Some(150));
}

#[test]
fn failing_handler_retries_then_fails() {
    let mut w = Worker::new_at(config(), 0);
    w.register_handler("Boom".to_string());
    let retry = RetryConfig { max_retries: 2, retry_delay: 1, exponential_backoff: true, max_delay: 300 };
    let mut t = task("Boom", retry);
    let mut counts = vec![t.retry_count];
    let mut now = 1000;
    loop {
        assert_eq!(w.claim(&mut t, &vec![true], now), ClaimOutcome::Run(0));
        match w.finish(&mut t, ExecutionOutcome::Errored("boom".to_string()), 5, now) {
            FinishAction::Requeue => {
                w.settle_retry(&mut t, true, "boom", now);
                let due = t.scheduled_at.unwrap();
                assert_eq!(due - now, if t.retry_count == 1 { 1 } else { 2 });
                counts.push(t.retry_count);
                now = due;
            }
            FinishAction::Fail => break,
            FinishAction::Complete => unreachable!(),
        }
    }
    assert_eq!(counts, vec![0, 1, 2]);
    assert_eq!(t.status, TaskStatus::Failed);
    assert_eq!(t.error.as_deref(), Some("boom"));
    let s = w.get_stats();
    assert_eq!((s.tasks_processed, s.tasks_retried, s.tasks_failed), (3, 2, 1));
    assert_eq!(
        wait_step(Some(&t), 7, 0, Some(10)),
        WaitStep::Done(Err(TaskError::TaskExecution { message: "boom".to_string() }))
    );
}

#[test]
fn failed_requeue_fails_the_task() {
    let mut w = Worker::new_at(config(), 0);
    w.register_handler("Boom".to_string());
    let mut t = task("Boom", RetryConfig::default());
    w.claim(&mut t, &vec![true], 10);
    assert_eq!(w.finish(&mut t, ExecutionOutcome::Errored("boom".to_string()), 1, 11), FinishAction::Requeue);
    w.settle_retry(&mut t, false, "boom", 12);
    assert_eq!(t.status, TaskStatus::Failed);
    assert_eq!(w.get_stats().tasks_failed, 1);
    assert_eq!(w.get_stats().tasks_retried, 0);
}

#[test]
fn no_retry_without_auto_retry() {
    let mut c = config();
    c.auto_retry = false;
    let mut w = Worker::new_at(c, 0);
    w.register_handler("Boom".to_string());
    let mut t = task("Boom", RetryConfig::default());
    w.claim(&mut t, &vec![true], 10);
    assert_eq!(w.finish(&mut t, ExecutionOutcome::Errored("boom".to_string()), 1, 11), FinishAction::Fail);
    assert_eq!(t.retry_count, 0);
}

#[test]
fn timed_out_run_fails_with_message() {
    let mut w = Worker::new_at(config(), 0);
    w.register_handler("Sleepy".to_string());
    let mut t = task("Sleepy", RetryConfig::default());
    w.claim(&mut t, &vec![true], 10);
    assert_eq!(w.finish(&mut t, ExecutionOutcome::TimedOut, 2000, 12), FinishAction::Fail);
    assert_eq!(t.status, TaskStatus::Failed);
    let msg = t.error.clone().unwrap();
    assert!(msg.contains("timed out after 2 seconds"));
    assert_eq!(msg, "Task execution timed out after 2 seconds");
    assert_eq!(t.retry_count, 0);
}

#[test]
fn scheduled_task_waits_until_due() {
    let cfg = TaskSubmissionConfig::new("math").after_delay_at(5, 1000);
    assert_eq!(cfg.scheduled_at, Some(1005));
    let mut t = task("Echo", RetryConfig::default());
    assert!(cfg.apply(&mut t));
    assert_eq!(t.status, TaskStatus::Scheduled);
    assert!(!t.is_ready_at(1004));
    assert!(t.is_ready_at(1005));
    assert_eq!(wait_step(Some(&t), 7, 0, None), WaitStep::Again);
    let plain = TaskSubmissionConfig::new("math").with_priority(TaskPriority::Critical);
    let mut u = task("Echo", RetryConfig::default());
    assert!(!plain.apply(&mut u));
    assert_eq!(u.priority, TaskPriority::Critical);
    assert_eq!(u.status, TaskStatus::Pending);
    assert_eq!(TaskSubmissionConfig::new("q").scheduled_at(9).scheduled_at, Some(9));
}

#[test]
fn waiting_outcomes() {
    assert_eq!(
        wait_step(None, 7, 0, None),
        WaitStep::Done(Err(TaskError::TaskNotFound { task_id: "00000000-0000-0000-0000-000000000007".to_string() }))
    );
    let t = task("Echo", RetryConfig::default());
    assert_eq!(wait_step(Some(&t), 7, 3001, Some(3)), WaitStep::Done(Err(TaskError::Timeout { operation: "wait_for_result".to_string() })));
    assert_eq!(wait_step(Some(&t), 7, 3000, Some(3)), WaitStep::Again);
    let mut c = task("Echo", RetryConfig::default());
    c.status = TaskStatus::Cancelled;
    assert_eq!(wait_step(Some(&c), 7, 0, None), WaitStep::Done(Err(TaskError::TaskExecution { message: "Task was cancelled".to_string() })));
    let mut f = task("Echo", RetryConfig::default());
    f.status = TaskStatus::Failed;
    assert_eq!(wait_step(Some(&f), 7, 0, None), WaitStep::Done(Err(TaskError::TaskExecution { message: "Unknown error".to_string() })));
    let mut s = task("Echo", RetryConfig::default());
    s.status = TaskStatus::Success;
    assert_eq!(wait_step(Some(&s), 7, 0, None), WaitStep::Done(Err(TaskError::TaskExecution { message: "Task completed but no result found".to_string() })));
}

#[test]
fn average_execution_time() {
    let mut s = WorkerStats::starting_at(0);
    assert_eq!(s.average_execution_time_ms(), 0);
    s.tasks_processed = 3;
    s.total_execution_time_ms = 100;
    assert_eq!(s.average_execution_time_ms(), 33);
}

#[test]
fn registering_a_name_twice_keeps_its_slot() {
    let mut w = Worker::new_at(config(), 0);
    assert_eq!(w.register_handler("A".to_string()), 0);
    assert_eq!(w.register_handler("B".to_string()), 1);
    assert_eq!(w.register_handler("A".to_string()), 0);
    assert_eq!(w.handlers.len(), 2);
}

#[test]
fn delayed_submission_is_due_later() {
    let cfg = TaskSubmissionConfig::new("math").after_delay(60);
    let due = cfg.scheduled_at.unwrap();
    assert!(due >= 60);
}
