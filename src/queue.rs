//! The broker adapter: the pipelines of commands that move tasks between the
//! broker's ordered sets and records, and a model of their effect.

use vstd::prelude::*;
use crate::error::TaskError;
use crate::keys::{
    data_field, failed_key, failed_key_for, processing_key, processing_key_text, queue_key,
    queue_key_for, result_key, result_key_for, scheduled_key, scheduled_key_text, task_key,
    task_key_for,
};
use crate::task::{TaskDefinition, TaskRecord, TaskStatus};

verus! {

/// Configuration of the broker adapter.
#[derive(Debug, Clone)]
pub struct TaskQueueConfig {
    /// Where the broker listens.
    pub redis_url: String,
    /// The queue of a task that names none.
    pub default_queue: String,
    /// The most connections to hold open.
    pub max_connections: u32,
    /// How long a result mirror lives, in seconds; also the age at which a
    /// claim is presumed dead.
    pub result_ttl: u64,
    /// How long a failure mirror lives, in seconds.
    pub failed_ttl: u64,
    /// Seconds between cleanups.
    pub cleanup_interval: u64,
}

impl Default for TaskQueueConfig {
    fn default() -> (r: Self)
        ensures
            r.redis_url@ == "redis://127.0.0.1:6379"@,
            r.default_queue@ == "default"@,
            r.max_connections == 10,
            r.result_ttl == 86400,
            r.failed_ttl == 604800,
            r.cleanup_interval == 3600,
    {
        TaskQueueConfig {
            redis_url: String::from_str("redis://127.0.0.1:6379"),
            default_queue: String::from_str("default"),
            max_connections: 10,
            result_ttl: 86400,
            failed_ttl: 604800,
            cleanup_interval: 3600,
        }
    }
}

/// Cardinalities of a queue's sets.
#[derive(Debug, Clone, Copy, PartialEq, Eq, Structural)]
pub struct QueueStats {
    pub pending_tasks: u64,
    pub processing_tasks: u64,
    pub completed_tasks: u64,
    pub failed_tasks: u64,
    pub scheduled_tasks: u64,
}

impl Default for QueueStats {
    fn default() -> (r: Self)
        ensures
            r == (QueueStats {
                pending_tasks: 0,
                processing_tasks: 0,
                completed_tasks: 0,
                failed_tasks: 0,
                scheduled_tasks: 0,
            }),
    {
        QueueStats {
            pending_tasks: 0,
            processing_tasks: 0,
            completed_tasks: 0,
            failed_tasks: 0,
            scheduled_tasks: 0,
        }
    }
}

impl QueueStats {
    /// The statistics of a queue from the cardinalities of its pending set,
    /// the processing set and the scheduled set.
    pub fn from_counts(pending: u64, processing: u64, scheduled: u64) -> (r: Self)
        ensures
            r == (QueueStats {
                pending_tasks: pending,
                processing_tasks: processing,
                completed_tasks: 0,
                failed_tasks: 0,
                scheduled_tasks: scheduled,
            }),
    {
        QueueStats {
            pending_tasks: pending,
            processing_tasks: processing,
            completed_tasks: 0,
            failed_tasks: 0,
            scheduled_tasks: scheduled,
        }
    }
}

/// One mutation of the broker.
#[derive(Debug, Clone, PartialEq, Eq)]
pub enum BrokerCommand {
    /// Put `member` into the ordered set `key` with `score`.
    ZAdd { key: String, score: i64, member: String },
    /// Take `member` out of the ordered set `key`.
    ZRem { key: String, member: String },
    /// Set `field` of the record `key` to `value`.
    HSet { key: String, field: String, value: String },
    /// Let the record `key` expire after `seconds`.
    Expire { key: String, seconds: u64 },
}

/// The mathematical model of a broker command.
pub enum Op {
    ZAdd { key: Seq<char>, score: int, member: Seq<char> },
    ZRem { key: Seq<char>, member: Seq<char> },
    HSet { key: Seq<char>, field: Seq<char>, value: Seq<char> },
    Expire { key: Seq<char>, seconds: int },
}

impl View for BrokerCommand {
    type V = Op;

    open spec fn view(&self) -> Op {
        match self {
            BrokerCommand::ZAdd { key, score, member } =>
                Op::ZAdd { key: key@, score: *score as int, member: member@ },
            BrokerCommand::ZRem { key, member } => Op::ZRem { key: key@, member: member@ },
            BrokerCommand::HSet { key, field, value } =>
                Op::HSet { key: key@, field: field@, value: value@ },
            BrokerCommand::Expire { key, seconds } =>
                Op::Expire { key: key@, seconds: *seconds as int },
        }
    }
}

/// The models of a pipeline of commands.
pub open spec fn ops_of(cmds: Seq<BrokerCommand>) -> Seq<Op> {
    cmds.map_values(|c: BrokerCommand| c@)
}

/// A model of the broker's contents: ordered sets (member to score), records
/// (field to value) and expiries.
pub struct BrokerModel {
    pub sets: Map<Seq<char>, Map<Seq<char>, int>>,
    pub records: Map<Seq<char>, Map<Seq<char>, Seq<char>>>,
    pub expiries: Map<Seq<char>, int>,
}

impl BrokerModel {
    /// The ordered set `key`, empty where there is none.
    pub open spec fn set(self, key: Seq<char>) -> Map<Seq<char>, int> {
        if self.sets.contains_key(key) { self.sets[key] } else { Map::empty() }
    }

    /// The record `key`, empty where there is none.
    pub open spec fn record(self, key: Seq<char>) -> Map<Seq<char>, Seq<char>> {
        if self.records.contains_key(key) { self.records[key] } else { Map::empty() }
    }

    /// The broker after one command.
    pub open spec fn apply(self, op: Op) -> BrokerModel {
        match op {
            Op::ZAdd { key, score, member } => BrokerModel {
                sets: self.sets.insert(key, self.set(key).insert(member, score)),
                ..self
            },
            Op::ZRem { key, member } => BrokerModel {
                sets: self.sets.insert(key, self.set(key).remove(member)),
                ..self
            },
            Op::HSet { key, field, value } => BrokerModel {
                records: self.records.insert(key, self.record(key).insert(field, value)),
                ..self
            },
            Op::Expire { key, seconds } => BrokerModel {
                expiries: self.expiries.insert(key, seconds),
                ..self
            },
        }
    }

    /// The broker after a pipeline, applied in order and as one step.
    pub open spec fn apply_all(self, ops: Seq<Op>) -> BrokerModel
        decreases ops.len(),
    {
        if ops.len() == 0 {
            self
        } else {
            self.apply(ops[0]).apply_all(ops.drop_first())
        }
    }

    /// Whether `member` has the highest score in the ordered set `key`.
    pub open spec fn is_top(self, key: Seq<char>, member: Seq<char>) -> bool {
        &&& self.set(key).contains_key(member)
        &&& forall|m: Seq<char>| #[trigger] self.set(key).contains_key(m)
            ==> self.set(key)[m] <= self.set(key)[member]
    }
}

/// The queue of a task once the default is put in for an empty one.
pub open spec fn resolved_queue(queue: Seq<char>, default_queue: Seq<char>) -> Seq<char> {
    if queue.len() == 0 { default_queue } else { queue }
}

/// The pipeline that puts a task into its queue and its record.
pub open spec fn submit_ops(t: TaskRecord, json: Seq<char>) -> Seq<Op> {
    seq![
        Op::ZAdd { key: queue_key(t.queue), score: t.priority.spec_score() as int, member: json },
        Op::HSet { key: task_key(t.id), field: data_field(), value: json },
    ]
}

/// The pipeline that puts a task due at `due` into the scheduled set and its
/// record.
pub open spec fn schedule_ops(t: TaskRecord, due: i64, json: Seq<char>) -> Seq<Op> {
    seq![
        Op::ZAdd { key: scheduled_key(), score: due as int, member: json },
        Op::HSet { key: task_key(t.id), field: data_field(), value: json },
    ]
}

/// The pipeline that claims `member` of queue `queue` at `now`.
pub open spec fn claim_ops(queue: Seq<char>, member: Seq<char>, now: i64) -> Seq<Op> {
    seq![
        Op::ZRem { key: queue_key(queue), member },
        Op::ZAdd { key: processing_key(), score: now as int, member },
    ]
}

/// The pipeline that moves a due task from the scheduled set to its queue.
pub open spec fn promote_ops(member: Seq<char>, t: TaskRecord, json: Seq<char>) -> Seq<Op> {
    seq![
        Op::ZRem { key: scheduled_key(), member },
        Op::ZAdd { key: queue_key(t.queue), score: t.priority.spec_score() as int, member: json },
        Op::HSet { key: task_key(t.id), field: data_field(), value: json },
    ]
}

/// The pipeline that ends a claim and writes a terminal mirror `mirror` with
/// expiry `ttl`, and the task's record.
pub open spec fn finish_ops(
    claimed: Seq<char>,
    t: TaskRecord,
    json: Seq<char>,
    mirror: Seq<char>,
    ttl: int,
) -> Seq<Op> {
    seq![
        Op::ZRem { key: processing_key(), member: claimed },
        Op::HSet { key: mirror, field: data_field(), value: json },
        Op::Expire { key: mirror, seconds: ttl },
        Op::HSet { key: task_key(t.id), field: data_field(), value: json },
    ]
}

/// The pipeline of a retry: the claim `claimed` ends and the task takes
/// the path of `requeue`.
pub open spec fn retry_ops(claimed: Seq<char>, t: TaskRecord, json: Seq<char>) -> Seq<Op> {
    seq![Op::ZRem { key: processing_key(), member: claimed }] + match t.scheduled_at {
        Some(due) => schedule_ops(t, due, json),
        None => submit_ops(t, json),
    }
}

/// The instant before which, strictly, a claim is presumed dead.
pub open spec fn cutoff(now: i64, ttl: u64) -> i64 {
    if now - ttl < i64::MIN { i64::MIN } else { (now - ttl) as i64 }
}

fn zadd(key: String, score: i64, member: &str) -> (r: BrokerCommand)
    ensures
        r@ == (Op::ZAdd { key: key@, score: score as int, member: member@ }),
{
    BrokerCommand::ZAdd { key, score, member: String::from_str(member) }
}

fn zrem(key: String, member: &str) -> (r: BrokerCommand)
    ensures
        r@ == (Op::ZRem { key: key@, member: member@ }),
{
    BrokerCommand::ZRem { key, member: String::from_str(member) }
}

fn hset_data(key: String, value: &str) -> (r: BrokerCommand)
    ensures
        r@ == (Op::HSet { key: key@, field: data_field(), value: value@ }),
{
    BrokerCommand::HSet { key, field: String::from_str("data"), value: String::from_str(value) }
}

/// The broker adapter: the commands that each queue operation issues.
#[derive(Debug, Clone)]
pub struct TaskQueue {
    pub config: TaskQueueConfig,
}

impl TaskQueue {
    /// An adapter with the given configuration.
    pub fn new(config: TaskQueueConfig) -> (r: Self)
        ensures
            r.config == config,
    {
        TaskQueue { config }
    }

    /// An adapter with the default configuration.
    pub fn new_default() -> (r: Self)
        ensures
            r.config.redis_url@ == "redis://127.0.0.1:6379"@,
            r.config.default_queue@ == "default"@,
            r.config.max_connections == 10,
            r.config.result_ttl == 86400,
            r.config.failed_ttl == 604800,
            r.config.cleanup_interval == 3600,
    {
        TaskQueue { config: TaskQueueConfig::default() }
    }

    /// Puts the default queue in for a task that names none.
    pub fn assign_default_queue(&self, task: &mut TaskDefinition)
        ensures
            final(task)@ == (TaskRecord {
                queue: resolved_queue(old(task).queue@, self.config.default_queue@),
                ..old(task)@
            }),
    {
        if task.queue.unicode_len() == 0 {
            task.queue = self.config.default_queue.clone();
        }
    }

    /// The pipeline of `submit`: the task, serialized as `json` after its
    /// queue was resolved, goes into its queue scored by priority and into its
    /// record.
    pub fn submit_pipeline(&self, task: &TaskDefinition, json: &str) -> (r: Vec<BrokerCommand>)
        ensures
            ops_of(r@) == submit_ops(task@, json@),
    {
        let mut r: Vec<BrokerCommand> = Vec::new();
        r.push(zadd(queue_key_for(task.queue.as_str()), task.priority.score(), json));
        r.push(hset_data(task_key_for(task.id), json));
        assert(ops_of(r@) =~= submit_ops(task@, json@));
        r
    }

    /// The pipeline of `submit_scheduled`: the task goes into the scheduled
    /// set scored by its due time and into its record; a task without a due
    /// time is refused.
    pub fn scheduled_pipeline(&self, task: &TaskDefinition, json: &str) -> (r: Result<
        Vec<BrokerCommand>,
        TaskError,
    >)
        ensures
            match task.scheduled_at {
                Some(due) => r is Ok && ops_of(r->Ok_0@) == schedule_ops(task@, due, json@),
                None => r is Err && r->Err_0 is QueueOperation
                    && r->Err_0->QueueOperation_operation@ == "submit_scheduled"@
                    && r->Err_0->QueueOperation_reason@ == "missing scheduled_at"@,
            },
    {
        match task.scheduled_at {
            Some(due) => {
                let mut r: Vec<BrokerCommand> = Vec::new();
                r.push(zadd(scheduled_key_text(), due, json));
                r.push(hset_data(task_key_for(task.id), json));
                assert(ops_of(r@) =~= schedule_ops(task@, due, json@));
                Ok(r)
            },
            None => Err(TaskError::queue_operation("submit_scheduled", "missing scheduled_at")),
        }
    }

    /// The pipeline of `get_next`: the highest-scored `member` of queue
    /// `queue_name` leaves it for the processing set, scored by `now`.
    pub fn claim_pipeline(&self, queue_name: &str, member: &str, now: i64) -> (r: Vec<
        BrokerCommand,
    >)
        ensures
            ops_of(r@) == claim_ops(queue_name@, member@, now),
    {
        let mut r: Vec<BrokerCommand> = Vec::new();
        r.push(zrem(queue_key_for(queue_name), member));
        r.push(zadd(processing_key_text(), now, member));
        assert(ops_of(r@) =~= claim_ops(queue_name@, member@, now));
        r
    }

    /// The pipeline of `mark_completed`: the claim `claimed` ends, and the
    /// finished task, serialized as `json`, goes to its result mirror, which
    /// expires after `result_ttl`, and to its record.
    pub fn completion_pipeline(&self, claimed: &str, task: &TaskDefinition, json: &str) -> (r:
        Vec<BrokerCommand>)
        ensures
            ops_of(r@) == finish_ops(claimed@, task@, json@, result_key(task.id),
                self.config.result_ttl as int),
    {
        let mut r: Vec<BrokerCommand> = Vec::new();
        r.push(zrem(processing_key_text(), claimed));
        r.push(hset_data(result_key_for(task.id), json));
        r.push(BrokerCommand::Expire { key: result_key_for(task.id), seconds: self.config.result_ttl });
        r.push(hset_data(task_key_for(task.id), json));
        assert(ops_of(r@) =~= finish_ops(claimed@, task@, json@, result_key(task.id),
            self.config.result_ttl as int));
        r
    }

    /// The pipeline of `mark_failed`: as for completion, with the failure
    /// mirror, which expires after `failed_ttl`.
    pub fn failure_pipeline(&self, claimed: &str, task: &TaskDefinition, json: &str) -> (r: Vec<
        BrokerCommand,
    >)
        ensures
            ops_of(r@) == finish_ops(claimed@, task@, json@, failed_key(task.id),
                self.config.failed_ttl as int),
    {
        let mut r: Vec<BrokerCommand> = Vec::new();
        r.push(zrem(processing_key_text(), claimed));
        r.push(hset_data(failed_key_for(task.id), json));
        r.push(BrokerCommand::Expire { key: failed_key_for(task.id), seconds: self.config.failed_ttl });
        r.push(hset_data(task_key_for(task.id), json));
        assert(ops_of(r@) =~= finish_ops(claimed@, task@, json@, failed_key(task.id),
            self.config.failed_ttl as int));
        r
    }

    /// The pipeline that ends the claim `claimed` without a result, before a
    /// retry.
    pub fn release_pipeline(&self, claimed: &str) -> (r: Vec<BrokerCommand>)
        ensures
            ops_of(r@) == seq![Op::ZRem { key: processing_key(), member: claimed@ }],
    {
        let mut r: Vec<BrokerCommand> = Vec::new();
        r.push(zrem(processing_key_text(), claimed));
        assert(ops_of(r@) =~= seq![Op::ZRem { key: processing_key(), member: claimed@ }]);
        r
    }

    /// The pipeline of `requeue`: the scheduled path for a task with a due
    /// time, else the plain one.
    pub fn requeue_pipeline(&self, task: &TaskDefinition, json: &str) -> (r: Vec<BrokerCommand>)
        ensures
            ops_of(r@) == match task.scheduled_at {
                Some(due) => schedule_ops(task@, due, json@),
                None => submit_ops(task@, json@),
            },
    {
        match self.scheduled_pipeline(task, json) {
            Ok(r) => r,
            Err(_) => self.submit_pipeline(task, json),
        }
    }

    /// The pipeline of a retry, run as one step: the claim `claimed` ends
    /// and the task, serialized as `json`, is requeued.
    pub fn retry_pipeline(&self, claimed: &str, task: &TaskDefinition, json: &str) -> (r: Vec<
        BrokerCommand,
    >)
        ensures
            ops_of(r@) == retry_ops(claimed@, task@, json@),
    {
        let mut r = self.release_pipeline(claimed);
        let mut rest = self.requeue_pipeline(task, json);
        let ghost a = r@;
        let ghost b = rest@;
        r.append(&mut rest);
        assert(r@ == a + b);
        assert(ops_of(r@) =~= ops_of(a) + ops_of(b));
        r
    }

    /// A scheduled task made pending again, for its move to its queue.
    pub fn promote(&self, task: &mut TaskDefinition)
        ensures
            final(task)@ == old(task)@.promoted(),
    {
        task.status = TaskStatus::Pending;
    }

    /// The pipeline of `process_scheduled` for one due entry: `member` leaves
    /// the scheduled set, and the promoted task, serialized as `json`, goes
    /// into its queue and its record.
    pub fn promotion_pipeline(&self, member: &str, task: &TaskDefinition, json: &str) -> (r: Vec<
        BrokerCommand,
    >)
        ensures
            ops_of(r@) == promote_ops(member@, task@, json@),
    {
        let mut r: Vec<BrokerCommand> = Vec::new();
        r.push(zrem(scheduled_key_text(), member));
        r.push(zadd(queue_key_for(task.queue.as_str()), task.priority.score(), json));
        r.push(hset_data(task_key_for(task.id), json));
        assert(ops_of(r@) =~= promote_ops(member@, task@, json@));
        r
    }

    /// The claim time before which `cleanup_expired` removes a claim: a
    /// claim scored strictly before `now - result_ttl` is older than the
    /// result lifetime. Below the first representable instant no claim is
    /// older, and the bound is that instant.
    pub fn cleanup_cutoff(&self, now: i64) -> (r: i64)
        ensures
            r == cutoff(now, self.config.result_ttl),
    {
        let c: i128 = now as i128 - self.config.result_ttl as i128;
        if c < i64::MIN as i128 { i64::MIN } else { c as i64 }
    }
}

} // verus!
