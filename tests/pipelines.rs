use std::collections::BTreeMap;

use distributed_task_queue::error::TaskError;
use distributed_task_queue::keys::{
    failed_key_for, processing_key_text, queue_key_for, queue_name_from_key, queue_names,
    result_key_for, scheduled_key_text, task_key_for,
};
use distributed_task_queue::queue::{BrokerCommand, QueueStats, TaskQueue, TaskQueueConfig};
use distributed_task_queue::task::{RetryConfig, TaskDefinition, TaskPriority, TaskStatus};

const ID: u128 = 0x0123456789abcdef0123456789abcdef;
const ID_TEXT: &str = "01234567-89ab-cdef-0123-456789abcdef";

fn task(id: u128, queue: &str, priority: TaskPriority) -> TaskDefinition {
    TaskDefinition::create(id, "AddTask".to_string(), "{}".to_string(), queue.to_string(), priority, RetryConfig::default(), None, 100)
}

#[derive(Default)]
struct Broker {
    sets: BTreeMap<String, BTreeMap<String, i64>>,
    records: BTreeMap<String, BTreeMap<String, String>>,
}

impl Broker {
    fn run(&mut self, cmds: Vec<BrokerCommand>) {
        for c in cmds {
            match c {
                BrokerCommand::ZAdd { key, score, member } => {
                    self.sets.entry(key).or_default().insert(member, score);
                }
                BrokerCommand::ZRem { key, member } => {
                    self.sets.entry(key).or_default().remove(&member);
                }
                BrokerCommand::HSet { key, field, value } => {
                    self.records.entry(key).or_default().insert(field, value);
                }
                BrokerCommand::Expire { .. } => {}
            }
        }
    }

    fn top(&self, key: &str) -> Option<String> {
        let set = self.sets.get(key)?;
        let mut best: Option<(&String, i64)> = None;
        for (m, s) in set {
            if best.map_or(true, |(_, b)| *s > b) {
                best = Some((m, *s));
            }
        }
        best.map(|(m, _)| m.clone())
    }
}

#[test]
fn key_layout() {
    assert_eq!(queue_key_for("math"), "dtq:queue:math");
    assert_eq!(task_key_for(ID), format!("dtq:queue:task:{}", ID_TEXT));
    assert_eq!(result_key_for(ID), format!("dtq:results:result:{}", ID_TEXT));
    assert_eq!(failed_key_for(ID), format!("dtq:failed:failed:{}", ID_TEXT));
    assert_eq!(scheduled_key_text(), "dtq:scheduled");
    assert_eq!(processing_key_text(), "dtq:processing");
}

#[test]
fn queue_names_skip_other_keys() {
    assert_eq!(queue_name_from_key("dtq:queue:math"), Some("math".to_string()));
    assert_eq!(queue_name_from_key("dtq:queue:task:abc"), None);
    assert_eq!(queue_name_from_key("dtq:scheduled"), None);
    let keys = vec![
        "dtq:queue:math".to_string(),
        "dtq:queue:task:1".to_string(),
        "other".to_string(),
        "dtq:queue:emails".to_string(),
        "dtq:queue:".to_string(),
    ];
    assert_eq!(queue_names(&keys), vec!["math".to_string(), "emails".to_string(), String::new()]);
}

#[test]
fn default_config_and_queue() {
    let c = TaskQueueConfig::default();
    assert_eq!(c.redis_url, "redis://127.0.0.1:6379");
    assert_eq!(c.default_queue, "default");
    assert_eq!(c.max_connections, 10);
    assert_eq!(c.result_ttl, 86400);
    assert_eq!(c.failed_ttl, 604800);
    assert_eq!(c.cleanup_interval, 3600);
    let q = TaskQueue::new(c);
    let mut t = task(ID, "", TaskPriority::Normal);
    q.assign_default_queue(&mut t);
    assert_eq!(t.queue, "default");
    let mut u = task(ID, "math", TaskPriority::Normal);
    q.assign_default_queue(&mut u);
    assert_eq!(u.queue, "math");
}

#[test]
fn submit_writes_queue_and_record() {
    let q = TaskQueue::new_default();
    let t = task(ID, "math", TaskPriority::High);
    let cmds = q.submit_pipeline(&t, "J");
    assert_eq!(
        cmds,
        vec![
            BrokerCommand::ZAdd { key: "dtq:queue:math".to_string(), score: 10, member: "J".to_string() },
            BrokerCommand::HSet { key: format!("dtq:queue:task:{}", ID_TEXT), field: "data".to_string(), value: "J".to_string() },
        ]
    );
}

#[test]
fn scheduled_submission_needs_a_due_time() {
    let q = TaskQueue::new_default();
    let mut t = task(ID, "math", TaskPriority::Low);
    assert_eq!(
        q.scheduled_pipeline(&t, "J").unwrap_err(),
        TaskError::QueueOperation { operation: "submit_scheduled".to_string(), reason: "missing scheduled_at".to_string() }
    );
    assert_eq!(q.requeue_pipeline(&t, "J"), q.submit_pipeline(&t, "J"));
    t.scheduled_at = Some(500);
    let cmds = q.scheduled_pipeline(&t, "J").unwrap();
    assert_eq!(cmds[0], BrokerCommand::ZAdd { key: "dtq:scheduled".to_string(), score: 500, member: "J".to_string() });
    assert_eq!(q.requeue_pipeline(&t, "J"), cmds);
}

#[test]
fn claim_completion_and_failure_pipelines() {
    let q = TaskQueue::new_default();
    let t = task(ID, "math", TaskPriority::Normal);
    assert_eq!(
        q.claim_pipeline("math", "J", 42),
        vec![
            BrokerCommand::ZRem { key: "dtq:queue:math".to_string(), member: "J".to_string() },
            BrokerCommand::ZAdd { key: "dtq:processing".to_string(), score: 42, member: "J".to_string() },
        ]
    );
    let done = q.completion_pipeline("J", &t, "K");
    assert_eq!(done.len(), 4);
    assert_eq!(done[0], BrokerCommand::ZRem { key: "dtq:processing".to_string(), member: "J".to_string() });
    assert_eq!(done[2], BrokerCommand::Expire { key: format!("dtq:results:result:{}", ID_TEXT), seconds: 86400 });
    let failed = q.failure_pipeline("J", &t, "K");
    assert_eq!(failed[2], BrokerCommand::Expire { key: format!("dtq:failed:failed:{}", ID_TEXT), seconds: 604800 });
    assert_eq!(failed[3], BrokerCommand::HSet { key: format!("dtq:queue:task:{}", ID_TEXT), field: "data".to_string(), value: "K".to_string() });
    assert_eq!(q.release_pipeline("J"), vec![BrokerCommand::ZRem { key: "dtq:processing".to_string(), member: "J".to_string() }]);
}

#[test]
fn promotion_moves_to_the_queue() {
    let q = TaskQueue::new_default();
    let mut t = task(ID, "math", TaskPriority::Critical);
    t.status = TaskStatus::Scheduled;
    t.scheduled_at = Some(5);
    q.promote(&mut t);
    assert_eq!(t.status, TaskStatus::Pending);
    let cmds = q.promotion_pipeline("OLD", &t, "NEW");
    assert_eq!(cmds[0], BrokerCommand::ZRem { key: "dtq:scheduled".to_string(), member: "OLD".to_string() });
    assert_eq!(cmds[1], BrokerCommand::ZAdd { key: "dtq:queue:math".to_string(), score: 15, member: "NEW".to_string() });
}

#[test]
fn cleanup_cutoff_and_stats() {
    let q = TaskQueue::new_default();
    assert_eq!(q.cleanup_cutoff(100_000), 100_000 - 86400);
    assert_eq!(q.cleanup_cutoff(i64::MIN + 5), i64::MIN);
    let s = QueueStats::from_counts(3, 2, 1);
    assert_eq!(s, QueueStats { pending_tasks: 3, processing_tasks: 2, completed_tasks: 0, failed_tasks: 0, scheduled_tasks: 1 });
    assert_eq!(QueueStats::default().pending_tasks, 0);
}

#[test]
fn critical_task_is_claimed_before_low() {
    let q = TaskQueue::new_default();
    let mut b = Broker::default();
    let a = task(1, "math", TaskPriority::Critical);
    let low = task(2, "math", TaskPriority::Low);
    b.run(q.submit_pipeline(&a, "A"));
    b.run(q.submit_pipeline(&low, "B"));
    let first = b.top("dtq:queue:math").unwrap();
    assert_eq!(first, "A");
    b.run(q.claim_pipeline("math", &first, 7));
    assert!(!b.sets["dtq:queue:math"].contains_key("A"));
    assert_eq!(b.sets["dtq:processing"]["A"], 7);
    assert_eq!(b.top("dtq:queue:math").unwrap(), "B");
    assert_eq!(b.records[&format!("dtq:queue:task:{}", "00000000-0000-0000-0000-000000000001")]["data"], "A");
}

#[test]
fn low_submitted_first_still_waits() {
    let q = TaskQueue::new_default();
    let mut b = Broker::default();
    b.run(q.submit_pipeline(&task(2, "math", TaskPriority::Low), "B"));
    b.run(q.submit_pipeline(&task(1, "math", TaskPriority::Critical), "A"));
    assert_eq!(b.top("dtq:queue:math").unwrap(), "A");
}

#[test]
fn retry_ends_the_claim_and_schedules_in_one_step() {
    let q = TaskQueue::new_default();
    let mut b = Broker::default();
    let mut t = task(ID, "math", TaskPriority::Normal);
    b.run(q.submit_pipeline(&t, "J"));
    b.run(q.claim_pipeline("math", "J", 10));
    t.mark_started_at("w".to_string(), 10);
    assert!(t.mark_retry_at(20).is_ok());
    let cmds = q.retry_pipeline("J", &t, "K");
    assert_eq!(cmds[0], BrokerCommand::ZRem { key: "dtq:processing".to_string(), member: "J".to_string() });
    assert_eq!(cmds.len(), 3);
    b.run(cmds);
    assert!(!b.sets["dtq:processing"].contains_key("J"));
    assert!(!b.sets["dtq:queue:math"].contains_key("J"));
    assert_eq!(b.sets["dtq:scheduled"]["K"], 25);
}

#[test]
fn default_adapter_config() {
    let q = TaskQueue::new_default();
    assert_eq!(q.config.redis_url, "redis://127.0.0.1:6379");
    assert_eq!(q.config.max_connections, 10);
    assert_eq!(q.config.cleanup_interval, 3600);
}
