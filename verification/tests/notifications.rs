use pomodoro::models::NotificationType;
use pomodoro::notifications::{
    due_time, FollowUp, NotificationManager, ScheduledNotification,
};
use pomodoro::time::Timestamp;

fn ids(manager: &NotificationManager) -> Vec<String> {
    manager.get_scheduled_notifications().into_iter().map(|n| n.id).collect()
}

#[test]
fn a_new_manager_has_nothing_scheduled() {
    let manager = NotificationManager::new();
    assert!(manager.get_scheduled_notifications().is_empty());
}

#[test]
fn a_plain_notification_is_due_after_its_delay() {
    let mut manager = NotificationManager::new();
    let id = manager
        .schedule_notification("Title", "Body", 90, Some("icon"), Timestamp::from_seconds(1_000))
        .unwrap();
    let all = manager.get_scheduled_notifications();
    assert_eq!(all.len(), 1);
    assert_eq!(all[0].id, id);
    assert_eq!(all[0].title, "Title");
    assert_eq!(all[0].body, "Body");
    assert_eq!(all[0].icon, Some("icon".to_string()));
    assert_eq!(all[0].scheduled_time, Timestamp::from_seconds(1_090));
    assert_eq!(all[0].notification_type, NotificationType::PomodoroComplete);
    assert_eq!(all[0].task_id, None);
    assert_eq!(all[0].session_id, None);
}

#[test]
fn identifiers_are_drawn_anew() {
    let mut manager = NotificationManager::new();
    let now = Timestamp::from_seconds(0);
    let first = manager.schedule_notification("a", "b", 1, None, now).unwrap();
    let second = manager.schedule_notification("a", "b", 1, None, now).unwrap();
    assert_ne!(first, second);
    assert_eq!(first.len(), 36);
    assert_eq!(first.matches('-').count(), 4);
    assert_eq!(ids(&manager), vec![first, second]);
}

#[test]
fn a_delay_beyond_what_can_be_counted_schedules_nothing() {
    let mut manager = NotificationManager::new();
    assert!(manager
        .schedule_notification("a", "b", u64::MAX, None, Timestamp::from_seconds(0))
        .is_none());
    assert!(manager
        .schedule_notification("a", "b", 1, None, Timestamp::from_seconds(i64::MAX))
        .is_none());
    assert!(manager.get_scheduled_notifications().is_empty());
    assert_eq!(due_time(Timestamp::from_seconds(5), 5), Some(Timestamp::from_seconds(10)));
    assert_eq!(
        due_time(Timestamp { seconds: 5, nanos: 9 }, 0),
        Some(Timestamp { seconds: 5, nanos: 9 })
    );
    assert_eq!(due_time(Timestamp::from_seconds(5), u64::MAX), None);
}

#[test]
fn the_end_of_work_and_the_end_of_a_break_read_differently() {
    let at = Timestamp::from_seconds(5);
    let work = ScheduledNotification::timer_complete("n1".to_string(), "S1", "Report", false, at);
    assert_eq!(work.title, "Pomodoro Complete! \u{1F345}");
    assert_eq!(work.body, "Great work on \"Report\"! Time for a well-deserved break.");
    assert_eq!(work.notification_type, NotificationType::PomodoroComplete);
    assert_eq!(work.icon, Some("timer-complete".to_string()));
    assert_eq!(work.session_id, Some("S1".to_string()));
    assert_eq!(work.task_id, None);
    assert_eq!(work.scheduled_time, at);
    let rest = ScheduledNotification::timer_complete("n2".to_string(), "S2", "Report", true, at);
    assert_eq!(rest.title, "Break Complete! \u{1F3AF}");
    assert_eq!(rest.body, "Ready to start another focused work session?");
    assert_eq!(rest.notification_type, NotificationType::BreakComplete);
    assert_eq!(rest.id, "n2");
}

#[test]
fn a_reminder_takes_the_message_given_or_the_usual_one() {
    let at = Timestamp::from_seconds(5);
    let usual = ScheduledNotification::task_reminder("n".to_string(), "T1", "Report", at, None);
    assert_eq!(usual.title, "Task Reminder \u{1F4CB}");
    assert_eq!(usual.body, "Don't forget: Report");
    assert_eq!(usual.icon, Some("task-reminder".to_string()));
    assert_eq!(usual.task_id, Some("T1".to_string()));
    assert_eq!(usual.notification_type, NotificationType::TaskReminder);
    let own =
        ScheduledNotification::task_reminder("n".to_string(), "T1", "Report", at, Some("Now!"));
    assert_eq!(own.body, "Now!");
}

#[test]
fn a_task_is_announced_an_hour_before_it_is_due() {
    let mut manager = NotificationManager::new();
    let id = manager
        .schedule_task_due_notification("T1", "Report", Timestamp { seconds: 10_000, nanos: 3 })
        .unwrap();
    let all = manager.get_scheduled_notifications();
    assert_eq!(all[0].id, id);
    assert_eq!(all[0].scheduled_time, Timestamp { seconds: 6_400, nanos: 3 });
    assert_eq!(all[0].title, "Task Due Soon \u{23F0}");
    assert_eq!(all[0].body, "\"Report\" is due in 1 hour");
    assert_eq!(all[0].icon, Some("task-due".to_string()));
    assert_eq!(all[0].notification_type, NotificationType::TaskDue);
    assert_eq!(all[0].task_id, Some("T1".to_string()));
    assert!(manager
        .schedule_task_due_notification("T1", "Report", Timestamp::from_seconds(i64::MIN))
        .is_none());
    assert_eq!(manager.get_scheduled_notifications().len(), 1);
}

#[test]
fn the_summary_of_a_day_is_due_in_its_evening() {
    let mut manager = NotificationManager::new();
    let id = manager
        .schedule_daily_summary_notification(8, 3, 200, Timestamp::from_seconds(1_704_164_645))
        .unwrap();
    let all = manager.get_scheduled_notifications();
    assert_eq!(all[0].id, id);
    assert_eq!(all[0].title, "Daily Summary \u{1F4CA}");
    assert_eq!(all[0].body, "Today: 8 pomodoros, 3 tasks completed, 200 minutes focused");
    assert_eq!(all[0].icon, Some("daily-summary".to_string()));
    assert_eq!(all[0].scheduled_time, Timestamp::from_seconds(1_704_225_600));
    assert_eq!(all[0].notification_type, NotificationType::DailySummary);
    assert!(manager
        .schedule_daily_summary_notification(0, 0, 0, Timestamp::from_seconds(i64::MAX))
        .is_none());
}

#[test]
fn scheduled_notifications_can_be_taken_back_one_by_one() {
    let mut manager = NotificationManager::new();
    let now = Timestamp::from_seconds(0);
    let a = manager.schedule_pomodoro_complete_notification("S1", "t", 60, false, now).unwrap();
    let b = manager.schedule_task_reminder_notification("T1", "t", now, None);
    let c = manager.schedule_pomodoro_complete_notification("S2", "t", 60, true, now).unwrap();
    assert_eq!(ids(&manager), vec![a.clone(), b.clone(), c.clone()]);
    manager.cancel_notification(&b);
    assert_eq!(ids(&manager), vec![a.clone(), c.clone()]);
    manager.cancel_notification("no such notification");
    assert_eq!(ids(&manager), vec![a.clone(), c.clone()]);
    let delivered = manager.take_for_delivery(&a).unwrap();
    assert_eq!(delivered.id, a);
    assert_eq!(delivered.session_id, Some("S1".to_string()));
    assert!(manager.take_for_delivery(&a).is_none());
    assert!(manager.take_for_delivery(&b).is_none());
    assert_eq!(ids(&manager), vec![c]);
    manager.clear_all_scheduled_notifications();
    assert!(manager.get_scheduled_notifications().is_empty());
}

#[test]
fn scheduling_under_an_identifier_in_use_replaces_the_notification() {
    let mut manager = NotificationManager::new();
    let at = Timestamp::from_seconds(1);
    manager.schedule(ScheduledNotification::plain("n".to_string(), "one", "b", None, at));
    manager.schedule(ScheduledNotification::plain("m".to_string(), "other", "b", None, at));
    let id = manager.schedule(ScheduledNotification::plain("n".to_string(), "two", "b", None, at));
    assert_eq!(id, "n");
    let all = manager.get_scheduled_notifications();
    assert_eq!(all.len(), 2);
    assert_eq!(all[0].title, "two");
    assert_eq!(all[1].title, "other");
}

#[test]
fn notifications_are_taken_back_by_task_or_by_session() {
    let mut manager = NotificationManager::new();
    let now = Timestamp::from_seconds(0);
    let r1 = manager.schedule_task_reminder_notification("T1", "t", now, None);
    let s1 = manager.schedule_pomodoro_complete_notification("S1", "t", 60, false, now).unwrap();
    let r2 = manager.schedule_task_reminder_notification("T2", "t", now, None);
    let d1 = manager.schedule_task_due_notification("T1", "t", Timestamp::from_seconds(7_200)).unwrap();
    let s2 = manager.schedule_pomodoro_complete_notification("S2", "t", 60, true, now).unwrap();
    let p = manager.schedule_notification("a", "b", 1, None, now).unwrap();
    manager.cancel_all_notifications_for_task("T1");
    assert_eq!(ids(&manager), vec![s1.clone(), r2.clone(), s2.clone(), p.clone()]);
    manager.cancel_all_notifications_for_task("S1");
    assert_eq!(ids(&manager).len(), 4);
    manager.cancel_all_notifications_for_session("S1");
    assert_eq!(ids(&manager), vec![r2.clone(), s2.clone(), p.clone()]);
    manager.cancel_all_notifications_for_session("T2");
    assert_eq!(ids(&manager), vec![r2, s2, p]);
    manager.cancel_all_notifications_for_task("");
    assert_eq!(ids(&manager).len(), 3);
    assert!(!ids(&manager).contains(&r1));
    assert!(!ids(&manager).contains(&d1));
}

#[test]
fn a_delivery_waits_for_the_whole_seconds_that_are_left() {
    let due = Timestamp { seconds: 100, nanos: 500_000_000 };
    assert_eq!(NotificationManager::delivery_delay(due, Timestamp::from_seconds(90)), Some(10));
    assert_eq!(
        NotificationManager::delivery_delay(due, Timestamp { seconds: 90, nanos: 600_000_000 }),
        Some(9)
    );
    assert_eq!(NotificationManager::delivery_delay(due, due), Some(0));
    assert_eq!(NotificationManager::delivery_delay(due, Timestamp::from_seconds(101)), Some(0));
    assert_eq!(
        NotificationManager::delivery_delay(due, Timestamp { seconds: 100, nanos: 1 }),
        Some(0)
    );
    assert_eq!(
        NotificationManager::delivery_delay(
            Timestamp::from_seconds(86_400),
            Timestamp::from_seconds(0)
        ),
        Some(86_400)
    );
    assert_eq!(
        NotificationManager::delivery_delay(Timestamp::from_seconds(i64::MAX), Timestamp::from_seconds(0)),
        None
    );
}

#[test]
fn what_follows_a_delivery_goes_by_the_kind() {
    let at = Timestamp::from_seconds(0);
    let work = ScheduledNotification::timer_complete("n".to_string(), "S1", "t", false, at);
    match NotificationManager::deliver_notification(&work) {
        FollowUp::TimerSessionComplete { session_id, is_break } => {
            assert_eq!(session_id, Some("S1".to_string()));
            assert!(!is_break);
        }
        other => panic!("unexpected follow-up {:?}", other),
    }
    let rest = ScheduledNotification::timer_complete("n".to_string(), "S1", "t", true, at);
    let follow = NotificationManager::deliver_notification(&rest);
    assert_eq!(follow.event_name(), "timer-session-complete");
    assert!(matches!(follow, FollowUp::TimerSessionComplete { is_break: true, .. }));
    let plain = ScheduledNotification::plain("n".to_string(), "a", "b", None, at);
    assert!(matches!(
        NotificationManager::deliver_notification(&plain),
        FollowUp::TimerSessionComplete { session_id: None, is_break: false }
    ));
    let reminder = ScheduledNotification::task_reminder("n".to_string(), "T1", "t", at, None);
    match NotificationManager::deliver_notification(&reminder) {
        FollowUp::TaskReminderTriggered { task_id, reminder_type } => {
            assert_eq!(task_id, Some("T1".to_string()));
            assert_eq!(reminder_type, NotificationType::TaskReminder);
        }
        other => panic!("unexpected follow-up {:?}", other),
    }
    let due = ScheduledNotification::task_due("n".to_string(), "T1", "t", at);
    let follow = NotificationManager::deliver_notification(&due);
    assert_eq!(follow.event_name(), "task-reminder-triggered");
    assert!(matches!(
        follow,
        FollowUp::TaskReminderTriggered { reminder_type: NotificationType::TaskDue, .. }
    ));
    let summary = ScheduledNotification::daily_summary("n".to_string(), 1, 2, 3, at);
    assert_eq!(summary.body, "Today: 1 pomodoros, 2 tasks completed, 3 minutes focused");
    let follow = NotificationManager::deliver_notification(&summary);
    assert_eq!(follow.event_name(), "daily-summary-notification");
    assert!(matches!(follow, FollowUp::DailySummary));
}
