use distributed_task_queue::scheduler::{ScheduleExpression, ScheduledJob, TaskScheduler};
use distributed_task_queue::task::TaskPriority;
use distributed_task_queue::error::TaskError;

const MONDAY_10AM: i64 = 1704103200;

fn job(id: u128, schedule: ScheduleExpression, now: i64) -> ScheduledJob {
    ScheduledJob::create(
        id,
        "tick".to_string(),
        "Noop".to_string(),
        "{}".to_string(),
        "default".to_string(),
        TaskPriority::Normal,
        schedule,
        now,
    )
}

#[test]
fn interval_schedules_add_their_unit() {
    assert_eq!(ScheduleExpression::Delay(30).next_execution(100), Some(130));
    assert_eq!(ScheduleExpression::EverySeconds(2).next_execution(100), Some(102));
    assert_eq!(ScheduleExpression::EveryMinutes(5).next_execution(100), Some(400));
    assert_eq!(ScheduleExpression::EveryHours(2).next_execution(100), Some(7300));
    assert_eq!(ScheduleExpression::EveryHours(u64::MAX).next_execution(100), None);
    assert_eq!(ScheduleExpression::EverySeconds(u64::MAX).next_execution(0), None);
    assert_eq!(ScheduleExpression::Delay(1).next_execution(i64::MAX), None);
    assert_eq!(ScheduleExpression::EverySeconds(5).next_execution(i64::MAX - 5), Some(i64::MAX));
    assert_eq!(ScheduleExpression::EveryMinutes(1).next_execution(i64::MAX - 59), None);
}

#[test]
fn once_fires_only_in_the_future() {
    assert_eq!(ScheduleExpression::Once(500).next_execution(100), Some(500));
    assert_eq!(ScheduleExpression::Once(100).next_execution(100), None);
    assert_eq!(ScheduleExpression::Once(50).next_execution(100), None);
}

#[test]
fn daily_is_today_or_tomorrow() {
    let later = ScheduleExpression::Daily { hour: 11, minute: 0 };
    assert_eq!(later.next_execution(MONDAY_10AM), Some(1704106800));
    let earlier = ScheduleExpression::Daily { hour: 9, minute: 30 };
    assert_eq!(earlier.next_execution(MONDAY_10AM), Some(1704187800));
    let exact = ScheduleExpression::Daily { hour: 10, minute: 0 };
    assert_eq!(exact.next_execution(MONDAY_10AM), Some(MONDAY_10AM + 86400));
    assert_eq!(ScheduleExpression::Daily { hour: 0, minute: 0 }.next_execution(-1), Some(0));
    assert_eq!(ScheduleExpression::Daily { hour: 24, minute: 0 }.next_execution(0), None);
    assert_eq!(ScheduleExpression::Daily { hour: 1, minute: 60 }.next_execution(0), None);
    assert_eq!(ScheduleExpression::Daily { hour: 0, minute: 0 }.next_execution(i64::MAX), None);
}

#[test]
fn weekly_counts_days_from_sunday() {
    let sunday = ScheduleExpression::Weekly { day: 0, hour: 9, minute: 0 };
    assert_eq!(sunday.next_execution(MONDAY_10AM), Some(1704618000));
    let monday_past = ScheduleExpression::Weekly { day: 1, hour: 9, minute: 0 };
    assert_eq!(monday_past.next_execution(MONDAY_10AM), Some(1704704400));
    let monday_later = ScheduleExpression::Weekly { day: 1, hour: 11, minute: 0 };
    assert_eq!(monday_later.next_execution(MONDAY_10AM), Some(1704106800));
    let wednesday = ScheduleExpression::Weekly { day: 3, hour: 23, minute: 59 };
    assert_eq!(wednesday.next_execution(-1), Some(604740));
    assert_eq!(ScheduleExpression::Weekly { day: 1, hour: 25, minute: 0 }.next_execution(0), None);
}

#[test]
fn cron_is_never_due_and_recurrence_kinds() {
    let cron = ScheduleExpression::Cron("* * * * *".to_string());
    assert_eq!(cron.next_execution(0), None);
    assert!(cron.is_recurring());
    assert!(!ScheduleExpression::Once(1).is_recurring());
    assert!(!ScheduleExpression::Delay(1).is_recurring());
    assert!(ScheduleExpression::EverySeconds(1).is_recurring());
    assert!(ScheduleExpression::Daily { hour: 1, minute: 1 }.is_recurring());
    assert!(ScheduleExpression::Weekly { day: 1, hour: 1, minute: 1 }.is_recurring());
}

#[test]
fn job_bookkeeping_after_runs() {
    let mut j = job(1, ScheduleExpression::EverySeconds(2), 100);
    assert_eq!(j.next_run, Some(102));
    assert!(!j.is_ready_at(101));
    assert!(j.is_ready_at(102));
    j.mark_executed_at(false, 102);
    assert_eq!(j.run_count, 1);
    assert_eq!(j.failure_count, 1);
    assert_eq!(j.last_run, Some(102));
    assert_eq!(j.next_run, Some(104));
    assert!(j.enabled);
    let mut once = job(2, ScheduleExpression::Once(150), 100);
    assert_eq!(once.next_run, Some(150));
    once.mark_executed_at(true, 150);
    assert_eq!(once.next_run, None);
    assert!(!once.enabled);
    assert!(!once.is_ready_at(1000));
    let mut delayed = job(3, ScheduleExpression::Delay(5), 100);
    delayed.update_next_run_at(200);
    assert_eq!(delayed.next_run, Some(205));
    assert_eq!(delayed.updated_at, 200);
}

#[test]
fn scheduler_table_operations() {
    let mut s = TaskScheduler::new();
    assert_eq!(s.add_job(job(1, ScheduleExpression::EverySeconds(2), 0)), 1);
    assert_eq!(s.add_job(job(2, ScheduleExpression::Once(10), 0)), 2);
    assert_eq!(s.list_jobs().len(), 2);
    assert_eq!(s.add_job(job(1, ScheduleExpression::EverySeconds(3), 0)), 1);
    assert_eq!(s.list_jobs().len(), 2);
    assert_eq!(s.get_job(1).unwrap().schedule, ScheduleExpression::EverySeconds(3));
    assert!(s.set_job_enabled_at(2, false, 5).is_ok());
    assert_eq!(s.list_jobs_by_status(false).len(), 1);
    assert_eq!(s.list_jobs_by_status(true)[0].id, 1);
    let err = s.set_job_enabled_at(7, true, 5).unwrap_err();
    assert_eq!(
        err,
        TaskError::Scheduler { message: "Job not found: 00000000-0000-0000-0000-000000000007".to_string() }
    );
    let stats = s.get_stats_at(3);
    assert_eq!(stats.total_jobs, 2);
    assert_eq!(stats.enabled_jobs, 1);
    assert_eq!(stats.disabled_jobs, 1);
    assert_eq!(stats.ready_jobs, 1);
    assert_eq!(stats.recurring_jobs, 1);
    assert!(s.remove_job(2));
    assert!(!s.remove_job(2));
    assert!(s.get_job(2).is_none());
    assert!(!s.is_shut_down());
    s.shutdown();
    assert!(s.is_shut_down());
}

#[test]
fn every_two_seconds_for_eleven_seconds() {
    let mut s = TaskScheduler::new();
    s.add_job(job(9, ScheduleExpression::EverySeconds(2), 0));
    for now in 1..=11 {
        for id in s.due_jobs_at(now) {
            let task = s.task_for_job(id, 100 + now as u128, now).unwrap();
            assert_eq!(task.name, "Noop");
            assert_eq!(task.queue, "default");
            s.record_run_at(id, true, now);
        }
    }
    let stats = s.get_stats_at(11);
    assert!(stats.total_executions >= 5);
    assert_eq!(stats.total_failures, 0);
    assert_eq!(s.get_job(9).unwrap().run_count, 5);
}

#[test]
fn spent_one_shot_jobs_leave_the_table() {
    let mut s = TaskScheduler::new();
    s.add_job(job(4, ScheduleExpression::Delay(5), 0));
    assert!(s.due_jobs_at(4).is_empty());
    assert_eq!(s.due_jobs_at(5), vec![4]);
    s.record_run_at(4, true, 5);
    assert!(s.get_job(4).is_none());
}

#[test]
fn convenience_constructors_add_jobs() {
    let mut s = TaskScheduler::new();
    let a = s.schedule_every_seconds("a".to_string(), "T".to_string(), "{}".to_string(), "q".to_string(), TaskPriority::Low, 2);
    let b = s.schedule_daily("b".to_string(), "T".to_string(), "{}".to_string(), "q".to_string(), TaskPriority::High, 3, 15);
    let c = s.schedule_weekly("c".to_string(), "T".to_string(), "{}".to_string(), "q".to_string(), TaskPriority::High, 2, 3, 15);
    let d = s.schedule_once("d".to_string(), "T".to_string(), "{}".to_string(), "q".to_string(), TaskPriority::High, 1);
    assert_eq!(s.get_job(a).unwrap().schedule, ScheduleExpression::EverySeconds(2));
    assert_eq!(s.get_job(b).unwrap().schedule, ScheduleExpression::Daily { hour: 3, minute: 15 });
    assert_eq!(s.get_job(c).unwrap().schedule, ScheduleExpression::Weekly { day: 2, hour: 3, minute: 15 });
    assert_eq!(s.get_job(d).unwrap().next_run, None);
    assert_eq!(s.list_jobs().len(), 4);
}

#[test]
fn enabling_with_the_clock_changes_only_the_flag() {
    let mut s = TaskScheduler::new();
    s.add_job(job(5, ScheduleExpression::EverySeconds(2), 0));
    assert!(s.set_job_enabled(5, false).is_ok());
    let j = s.get_job(5).unwrap();
    assert!(!j.enabled);
    assert_eq!(j.next_run, Some(2));
    assert_eq!(j.run_count, 0);
    assert!(j.updated_at > 0);
    assert!(s.get_stats().ready_jobs == 0);
    assert!(s.set_job_enabled(5, true).is_ok());
    assert!(s.get_job(5).unwrap().enabled);
    assert!(matches!(s.set_job_enabled(6, true), Err(TaskError::Scheduler { .. })));
    assert_eq!(s.get_stats().ready_jobs, 1);
}
