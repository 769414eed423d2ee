//! Notifications that wait for their time: what each kind says, and the
//! list of those not yet delivered.

use crate::ids::fresh_id;
use crate::keyed::{
    ids_distinct, lemma_collected_distinct, lemma_filter_distinct, lookup, upsert, without, Keyed,
    KeyedList,
};
use crate::models::NotificationType;
use crate::text::{decimal, decimal_text, joined, same_text};
use crate::time::{
    instant_of, seconds_between, seconds_from, shift_instant, shifted_instant, Timestamp,
};
use vstd::prelude::*;

verus! {

/// A notification that waits for its time.
#[derive(Debug)]
pub struct ScheduledNotification {
    pub id: String,
    pub title: String,
    pub body: String,
    pub icon: Option<String>,
    pub scheduled_time: Timestamp,
    pub notification_type: NotificationType,
    pub task_id: Option<String>,
    pub session_id: Option<String>,
}

/// Everything a waiting notification holds.
pub struct ScheduledNotificationView {
    pub id: Seq<char>,
    pub title: Seq<char>,
    pub body: Seq<char>,
    pub icon: Option<Seq<char>>,
    pub scheduled_time: Timestamp,
    pub notification_type: NotificationType,
    pub task_id: Option<Seq<char>>,
    pub session_id: Option<Seq<char>>,
}

impl View for ScheduledNotification {
    type V = ScheduledNotificationView;

    open spec fn view(&self) -> ScheduledNotificationView {
        ScheduledNotificationView {
            id: self.id@,
            title: self.title@,
            body: self.body@,
            icon: self.icon.deep_view(),
            scheduled_time: self.scheduled_time,
            notification_type: self.notification_type,
            task_id: self.task_id.deep_view(),
            session_id: self.session_id.deep_view(),
        }
    }
}

impl Clone for ScheduledNotification {
    fn clone(&self) -> (copy: Self)
        ensures
            copy@ == self@,
    {
        ScheduledNotification {
            id: self.id.clone(),
            title: self.title.clone(),
            body: self.body.clone(),
            icon: self.icon.clone(),
            scheduled_time: self.scheduled_time,
            notification_type: self.notification_type,
            task_id: self.task_id.clone(),
            session_id: self.session_id.clone(),
        }
    }
}

impl Keyed for ScheduledNotification {
    open spec fn id_of(value: ScheduledNotificationView) -> Seq<char> {
        value.id
    }

    fn entity_id(&self) -> (id: &str) {
        self.id.as_str()
    }
}

/// The notification that a timer ran out: of a break, or of a session of
/// work on the task titled `task_title`.
pub open spec fn timer_complete_view(
    id: Seq<char>,
    session_id: Seq<char>,
    task_title: Seq<char>,
    is_break: bool,
    at: Timestamp,
) -> ScheduledNotificationView {
    ScheduledNotificationView {
        id,
        title: if is_break {
            "Break Complete! \u{1F3AF}"@
        } else {
            "Pomodoro Complete! \u{1F345}"@
        },
        body: if is_break {
            "Ready to start another focused work session?"@
        } else {
            "Great work on \""@ + task_title + "\"! Time for a well-deserved break."@
        },
        icon: Some("timer-complete"@),
        scheduled_time: at,
        notification_type: if is_break {
            NotificationType::BreakComplete
        } else {
            NotificationType::PomodoroComplete
        },
        task_id: None,
        session_id: Some(session_id),
    }
}

/// The reminder of the task titled `task_title`, with the message given or
/// else the usual one.
pub open spec fn task_reminder_view(
    id: Seq<char>,
    task_id: Seq<char>,
    task_title: Seq<char>,
    at: Timestamp,
    custom_message: Option<Seq<char>>,
) -> ScheduledNotificationView {
    ScheduledNotificationView {
        id,
        title: "Task Reminder \u{1F4CB}"@,
        body: match custom_message {
            Some(message) => message,
            None => "Don't forget: "@ + task_title,
        },
        icon: Some("task-reminder"@),
        scheduled_time: at,
        notification_type: NotificationType::TaskReminder,
        task_id: Some(task_id),
        session_id: None,
    }
}

/// The notice, shown at `at`, that the task titled `task_title` is due an
/// hour later.
pub open spec fn task_due_view(
    id: Seq<char>,
    task_id: Seq<char>,
    task_title: Seq<char>,
    at: Timestamp,
) -> ScheduledNotificationView {
    ScheduledNotificationView {
        id,
        title: "Task Due Soon \u{23F0}"@,
        body: "\""@ + task_title + "\" is due in 1 hour"@,
        icon: Some("task-due"@),
        scheduled_time: at,
        notification_type: NotificationType::TaskDue,
        task_id: Some(task_id),
        session_id: None,
    }
}

/// The summary of a day.
pub open spec fn daily_summary_view(
    id: Seq<char>,
    completed_pomodoros: u32,
    completed_tasks: u32,
    total_focus_time_minutes: u32,
    at: Timestamp,
) -> ScheduledNotificationView {
    ScheduledNotificationView {
        id,
        title: "Daily Summary \u{1F4CA}"@,
        body: "Today: "@ + decimal_text(completed_pomodoros as nat) + " pomodoros, "@
            + decimal_text(completed_tasks as nat) + " tasks completed, "@ + decimal_text(
            total_focus_time_minutes as nat,
        ) + " minutes focused"@,
        icon: Some("daily-summary"@),
        scheduled_time: at,
        notification_type: NotificationType::DailySummary,
        task_id: None,
        session_id: None,
    }
}

/// A notification with a title and a body of the caller's own.
pub open spec fn plain_view(
    id: Seq<char>,
    title: Seq<char>,
    body: Seq<char>,
    icon: Option<Seq<char>>,
    at: Timestamp,
) -> ScheduledNotificationView {
    ScheduledNotificationView {
        id,
        title,
        body,
        icon,
        scheduled_time: at,
        notification_type: NotificationType::PomodoroComplete,
        task_id: None,
        session_id: None,
    }
}

/// The view of an optional string.
pub open spec fn optional_text(text: Option<&str>) -> Option<Seq<char>> {
    match text {
        Some(t) => Some(t@),
        None => None,
    }
}

impl ScheduledNotification {
    /// The notification that a timer ran out, under the identifier `id`
    /// and due at `at`.
    pub fn timer_complete(id: String, session_id: &str, task_title: &str, is_break: bool, at: Timestamp) -> (notification:
        ScheduledNotification)
        ensures
            notification@ == timer_complete_view(id@, session_id@, task_title@, is_break, at),
    {
        let (title, body, notification_type) = if is_break {
            (
                "Break Complete! \u{1F3AF}".to_owned(),
                "Ready to start another focused work session?".to_owned(),
                NotificationType::BreakComplete,
            )
        } else {
            let mut body = joined("Great work on \"", task_title);
            body.append("\"! Time for a well-deserved break.");
            ("Pomodoro Complete! \u{1F345}".to_owned(), body, NotificationType::PomodoroComplete)
        };
        ScheduledNotification {
            id,
            title,
            body,
            icon: Some("timer-complete".to_owned()),
            scheduled_time: at,
            notification_type,
            task_id: None,
            session_id: Some(session_id.to_owned()),
        }
    }

    /// The reminder of a task, under the identifier `id` and due at `at`.
    pub fn task_reminder(
        id: String,
        task_id: &str,
        task_title: &str,
        at: Timestamp,
        custom_message: Option<&str>,
    ) -> (notification: ScheduledNotification)
        ensures
            notification@ == task_reminder_view(
                id@,
                task_id@,
                task_title@,
                at,
                optional_text(custom_message),
            ),
    {
        ScheduledNotification {
            id,
            title: "Task Reminder \u{1F4CB}".to_owned(),
            body: match custom_message {
                Some(message) => message.to_owned(),
                None => joined("Don't forget: ", task_title),
            },
            icon: Some("task-reminder".to_owned()),
            scheduled_time: at,
            notification_type: NotificationType::TaskReminder,
            task_id: Some(task_id.to_owned()),
            session_id: None,
        }
    }

    /// The notice that a task is due an hour after `at`, under the
    /// identifier `id`.
    pub fn task_due(id: String, task_id: &str, task_title: &str, at: Timestamp) -> (notification:
        ScheduledNotification)
        ensures
            notification@ == task_due_view(id@, task_id@, task_title@, at),
    {
        let mut body = joined("\"", task_title);
        body.append("\" is due in 1 hour");
        ScheduledNotification {
            id,
            title: "Task Due Soon \u{23F0}".to_owned(),
            body,
            icon: Some("task-due".to_owned()),
            scheduled_time: at,
            notification_type: NotificationType::TaskDue,
            task_id: Some(task_id.to_owned()),
            session_id: None,
        }
    }

    /// The summary of a day, under the identifier `id` and due at `at`.
    pub fn daily_summary(
        id: String,
        completed_pomodoros: u32,
        completed_tasks: u32,
        total_focus_time_minutes: u32,
        at: Timestamp,
    ) -> (notification: ScheduledNotification)
        ensures
            notification@ == daily_summary_view(
                id@,
                completed_pomodoros,
                completed_tasks,
                total_focus_time_minutes,
                at,
            ),
    {
        let mut body = joined("Today: ", decimal(completed_pomodoros).as_str());
        body.append(" pomodoros, ");
        body.append(decimal(completed_tasks).as_str());
        body.append(" tasks completed, ");
        body.append(decimal(total_focus_time_minutes).as_str());
        body.append(" minutes focused");
        ScheduledNotification {
            id,
            title: "Daily Summary \u{1F4CA}".to_owned(),
            body,
            icon: Some("daily-summary".to_owned()),
            scheduled_time: at,
            notification_type: NotificationType::DailySummary,
            task_id: None,
            session_id: None,
        }
    }

    /// A notification with a title and a body of the caller's own, under
    /// the identifier `id` and due at `at`.
    pub fn plain(id: String, title: &str, body: &str, icon: Option<&str>, at: Timestamp) -> (notification:
        ScheduledNotification)
        ensures
            notification@ == plain_view(id@, title@, body@, optional_text(icon), at),
    {
        ScheduledNotification {
            id,
            title: title.to_owned(),
            body: body.to_owned(),
            icon: match icon {
                Some(i) => Some(i.to_owned()),
                None => None,
            },
            scheduled_time: at,
            notification_type: NotificationType::PomodoroComplete,
            task_id: None,
            session_id: None,
        }
    }
}

/// What the window is told after a notification was delivered, besides the
/// delivery itself.
#[derive(Debug)]
pub enum FollowUp {
    /// A timer ran out: `timer-session-complete`.
    TimerSessionComplete { session_id: Option<String>, is_break: bool },
    /// A task asks for attention: `task-reminder-triggered`.
    TaskReminderTriggered { task_id: Option<String>, reminder_type: NotificationType },
    /// The day's summary is there: `daily-summary-notification`.
    DailySummary,
}

/// Everything a follow-up holds.
pub enum FollowUpView {
    TimerSessionComplete { session_id: Option<Seq<char>>, is_break: bool },
    TaskReminderTriggered { task_id: Option<Seq<char>>, reminder_type: NotificationType },
    DailySummary,
}

impl View for FollowUp {
    type V = FollowUpView;

    open spec fn view(&self) -> FollowUpView {
        match *self {
            FollowUp::TimerSessionComplete { session_id, is_break } => FollowUpView::TimerSessionComplete {
                session_id: session_id.deep_view(),
                is_break,
            },
            FollowUp::TaskReminderTriggered { task_id, reminder_type } => FollowUpView::TaskReminderTriggered {
                task_id: task_id.deep_view(),
                reminder_type,
            },
            FollowUp::DailySummary => FollowUpView::DailySummary,
        }
    }
}

/// What follows the delivery of `notification`, by its kind.
pub open spec fn follow_up_of(notification: ScheduledNotificationView) -> FollowUpView {
    match notification.notification_type {
        NotificationType::PomodoroComplete => FollowUpView::TimerSessionComplete {
            session_id: notification.session_id,
            is_break: false,
        },
        NotificationType::BreakComplete => FollowUpView::TimerSessionComplete {
            session_id: notification.session_id,
            is_break: true,
        },
        NotificationType::TaskReminder => FollowUpView::TaskReminderTriggered {
            task_id: notification.task_id,
            reminder_type: NotificationType::TaskReminder,
        },
        NotificationType::TaskDue => FollowUpView::TaskReminderTriggered {
            task_id: notification.task_id,
            reminder_type: NotificationType::TaskDue,
        },
        NotificationType::DailySummary => FollowUpView::DailySummary,
    }
}

impl FollowUp {
    /// The name under which the window hears of the follow-up.
    pub fn event_name(&self) -> (name: &'static str)
        ensures
            name@ == match *self {
                FollowUp::TimerSessionComplete { .. } => "timer-session-complete"@,
                FollowUp::TaskReminderTriggered { .. } => "task-reminder-triggered"@,
                FollowUp::DailySummary => "daily-summary-notification"@,
            },
    {
        match self {
            FollowUp::TimerSessionComplete { .. } => "timer-session-complete",
            FollowUp::TaskReminderTriggered { .. } => "task-reminder-triggered",
            FollowUp::DailySummary => "daily-summary-notification",
        }
    }
}

/// The notifications that are not about the task `task_id`.
pub open spec fn not_about_task(task_id: Seq<char>) -> spec_fn(ScheduledNotificationView) -> bool {
    |n: ScheduledNotificationView| n.task_id != Some(task_id)
}

/// The notifications that are not about the session `session_id`.
pub open spec fn not_about_session(session_id: Seq<char>) -> spec_fn(
    ScheduledNotificationView,
) -> bool {
    |n: ScheduledNotificationView| n.session_id != Some(session_id)
}

/// How many seconds a delivery has to wait from `now` on for a
/// notification due at `due`: none where `due` is not later than `now`,
/// else the whole seconds between the two.
pub open spec fn wait_of(due: Timestamp, now: Timestamp) -> Option<u64> {
    if due.later_than(now) {
        match seconds_from(due.seconds, due.nanos, now.seconds, now.nanos) {
            Some(seconds) => Some(
                if seconds < 0 {
                    0u64
                } else {
                    seconds as u64
                },
            ),
            None => None,
        }
    } else {
        Some(0u64)
    }
}

/// Whether one of two optional strings is there and reads `text`.
fn is_text(found: &Option<String>, text: &str) -> (same: bool)
    ensures
        same == (found.deep_view() == Some(text@)),
{
    match found {
        Some(f) => same_text(f.as_str(), text),
        None => false,
    }
}

/// The notifications that wait for their time, each under its identifier.
pub struct NotificationManager {
    scheduled_notifications: KeyedList<ScheduledNotification>,
}

impl NotificationManager {
    /// The waiting notifications, in the order in which they were
    /// scheduled. No two of them share an identifier.
    pub closed spec fn scheduled(&self) -> Seq<ScheduledNotificationView> {
        self.scheduled_notifications@
    }

    /// A manager with nothing scheduled.
    pub fn new() -> (manager: Self)
        ensures
            manager.scheduled() == Seq::<ScheduledNotificationView>::empty(),
    {
        NotificationManager { scheduled_notifications: KeyedList::new() }
    }

    /// Puts `notification` on the list, in place of one with the same
    /// identifier, and hands its identifier back.
    pub fn schedule(&mut self, notification: ScheduledNotification) -> (id: String)
        ensures
            id@ == notification.id@,
            final(self).scheduled() == upsert::<ScheduledNotification>(
                old(self).scheduled(),
                notification@,
            ),
            ids_distinct::<ScheduledNotification>(final(self).scheduled()),
    {
        let id = notification.id.clone();
        self.scheduled_notifications.store(notification);
        id
    }

    /// Schedules a notification of the caller's own for `delay_seconds`
    /// after `now`, under a fresh identifier, which is handed back. Where
    /// that instant cannot be had, nothing is scheduled.
    pub fn schedule_notification(
        &mut self,
        title: &str,
        body: &str,
        delay_seconds: u64,
        icon: Option<&str>,
        now: Timestamp,
    ) -> (id: Option<String>)
        ensures
            match due_after(now, delay_seconds) {
                Some(at) => id matches Some(i) && final(self).scheduled() == upsert::<
                    ScheduledNotification,
                >(old(self).scheduled(), plain_view(i@, title@, body@, optional_text(icon), at))
                    && ids_distinct::<ScheduledNotification>(final(self).scheduled()),
                None => id is None && final(self).scheduled() == old(self).scheduled(),
            },
    {
        match due_time(now, delay_seconds) {
            None => None,
            Some(at) => {
                let notification = ScheduledNotification::plain(fresh_id(), title, body, icon, at);
                Some(self.schedule(notification))
            },
        }
    }

    /// Takes the notification `notification_id` off the list, if it is
    /// there.
    pub fn cancel_notification(&mut self, notification_id: &str)
        ensures
            final(self).scheduled() == without::<ScheduledNotification>(
                old(self).scheduled(),
                notification_id@,
            ),
            ids_distinct::<ScheduledNotification>(final(self).scheduled()),
    {
        let _ = self.scheduled_notifications.remove(notification_id);
    }

    /// Takes the notification `notification_id` off the list for delivery:
    /// it is handed out if it is still there, and not if it was cancelled.
    pub fn take_for_delivery(&mut self, notification_id: &str) -> (notification: Option<
        ScheduledNotification,
    >)
        ensures
            final(self).scheduled() == without::<ScheduledNotification>(
                old(self).scheduled(),
                notification_id@,
            ),
            ids_distinct::<ScheduledNotification>(final(self).scheduled()),
            match notification {
                Some(n) => lookup::<ScheduledNotification>(old(self).scheduled(), notification_id@)
                    == Some(n@),
                None => lookup::<ScheduledNotification>(old(self).scheduled(), notification_id@)
                    is None,
            },
    {
        self.scheduled_notifications.remove(notification_id)
    }

    /// Schedules the notification that the timer of the session
    /// `session_id` ran out, for `delay_seconds` after `now`.
    pub fn schedule_pomodoro_complete_notification(
        &mut self,
        session_id: &str,
        task_title: &str,
        delay_seconds: u64,
        is_break: bool,
        now: Timestamp,
    ) -> (id: Option<String>)
        ensures
            match due_after(now, delay_seconds) {
                Some(at) => id matches Some(i) && final(self).scheduled() == upsert::<
                    ScheduledNotification,
                >(
                    old(self).scheduled(),
                    timer_complete_view(i@, session_id@, task_title@, is_break, at),
                ) && ids_distinct::<ScheduledNotification>(final(self).scheduled()),
                None => id is None && final(self).scheduled() == old(self).scheduled(),
            },
    {
        match due_time(now, delay_seconds) {
            None => None,
            Some(at) => {
                let notification = ScheduledNotification::timer_complete(
                    fresh_id(),
                    session_id,
                    task_title,
                    is_break,
                    at,
                );
                Some(self.schedule(notification))
            },
        }
    }

    /// Schedules the reminder of the task `task_id` for `reminder_time`.
    pub fn schedule_task_reminder_notification(
        &mut self,
        task_id: &str,
        task_title: &str,
        reminder_time: Timestamp,
        custom_message: Option<&str>,
    ) -> (id: String)
        ensures
            final(self).scheduled() == upsert::<ScheduledNotification>(
                old(self).scheduled(),
                task_reminder_view(
                    id@,
                    task_id@,
                    task_title@,
                    reminder_time,
                    optional_text(custom_message),
                ),
            ),
            ids_distinct::<ScheduledNotification>(final(self).scheduled()),
    {
        let notification = ScheduledNotification::task_reminder(
            fresh_id(),
            task_id,
            task_title,
            reminder_time,
            custom_message,
        );
        self.schedule(notification)
    }

    /// Schedules the notice that the task `task_id` is due, for one hour
    /// before `due_time`. Where that instant cannot be had, nothing is
    /// scheduled.
    pub fn schedule_task_due_notification(&mut self, task_id: &str, task_title: &str, due_time: Timestamp) -> (id:
        Option<String>)
        ensures
            match instant_of(shifted_instant(due_time.seconds, due_time.nanos, -3600i64)) {
                Some(at) => id matches Some(i) && final(self).scheduled() == upsert::<
                    ScheduledNotification,
                >(old(self).scheduled(), task_due_view(i@, task_id@, task_title@, at))
                    && ids_distinct::<ScheduledNotification>(final(self).scheduled()),
                None => id is None && final(self).scheduled() == old(self).scheduled(),
            },
    {
        match shift_instant(due_time, -3600) {
            None => None,
            Some(at) => {
                let notification = ScheduledNotification::task_due(
                    fresh_id(),
                    task_id,
                    task_title,
                    at,
                );
                Some(self.schedule(notification))
            },
        }
    }

    /// Schedules the summary of the day of `now` for eight in the evening,
    /// UTC, of that day. Where that instant cannot be had, nothing is
    /// scheduled.
    pub fn schedule_daily_summary_notification(
        &mut self,
        completed_pomodoros: u32,
        completed_tasks: u32,
        total_focus_time_minutes: u32,
        now: Timestamp,
    ) -> (id: Option<String>)
        ensures
            if i64::MIN + 86_400 <= now.seconds <= i64::MAX - 72_000 {
                id matches Some(i) && final(self).scheduled() == upsert::<ScheduledNotification>(
                    old(self).scheduled(),
                    daily_summary_view(
                        i@,
                        completed_pomodoros,
                        completed_tasks,
                        total_focus_time_minutes,
                        Timestamp {
                            seconds: crate::time::evening_seconds(now.seconds as int) as i64,
                            nanos: 0,
                        },
                    ),
                ) && ids_distinct::<ScheduledNotification>(final(self).scheduled())
            } else {
                id is None && final(self).scheduled() == old(self).scheduled()
            },
    {
        match now.evening() {
            None => None,
            Some(at) => {
                let notification = ScheduledNotification::daily_summary(
                    fresh_id(),
                    completed_pomodoros,
                    completed_tasks,
                    total_focus_time_minutes,
                    at,
                );
                Some(self.schedule(notification))
            },
        }
    }

    /// Takes every notification about the task `task_id` off the list.
    pub fn cancel_all_notifications_for_task(&mut self, task_id: &str)
        ensures
            final(self).scheduled() == old(self).scheduled().filter(not_about_task(task_id@)),
            ids_distinct::<ScheduledNotification>(final(self).scheduled()),
    {
        let mut taken = KeyedList::new();
        core::mem::swap(&mut self.scheduled_notifications, &mut taken);
        let ghost views = taken@;
        let ghost keep = not_about_task(task_id@);
        let all = taken.into_entities();
        let mut kept: Vec<ScheduledNotification> = Vec::new();
        proof {
            reveal(Seq::filter);
            assert(views.take(0) =~= Seq::empty());
            assert(kept@.map_values(|n: ScheduledNotification| n@) =~= Seq::empty());
        }
        for notification in iter: all
            invariant
                views == iter.seq().map_values(|n: ScheduledNotification| n@),
                keep == not_about_task(task_id@),
                kept@.map_values(|n: ScheduledNotification| n@) == views.take(
                    iter.index(),
                ).filter(keep),
        {
            proof {
                reveal(Seq::filter);
                assert(views.take(iter.index() + 1).drop_last() =~= views.take(iter.index()));
                assert(views.take(iter.index() + 1).last() == notification@);
            }
            let ghost before = kept@.map_values(|n: ScheduledNotification| n@);
            if !is_text(&notification.task_id, task_id) {
                kept.push(notification);
                assert(kept@.map_values(|n: ScheduledNotification| n@) =~= before.push(
                    notification@,
                ));
            }
        }
        proof {
            assert(views.take(views.len() as int) =~= views);
            lemma_filter_distinct::<ScheduledNotification>(views, keep);
            lemma_collected_distinct::<ScheduledNotification>(views.filter(keep));
        }
        self.scheduled_notifications = KeyedList::from_entities(kept);
    }

    /// Takes every notification about the session `session_id` off the
    /// list.
    pub fn cancel_all_notifications_for_session(&mut self, session_id: &str)
        ensures
            final(self).scheduled() == old(self).scheduled().filter(
                not_about_session(session_id@),
            ),
            ids_distinct::<ScheduledNotification>(final(self).scheduled()),
    {
        let mut taken = KeyedList::new();
        core::mem::swap(&mut self.scheduled_notifications, &mut taken);
        let ghost views = taken@;
        let ghost keep = not_about_session(session_id@);
        let all = taken.into_entities();
        let mut kept: Vec<ScheduledNotification> = Vec::new();
        proof {
            reveal(Seq::filter);
            assert(views.take(0) =~= Seq::empty());
            assert(kept@.map_values(|n: ScheduledNotification| n@) =~= Seq::empty());
        }
        for notification in iter: all
            invariant
                views == iter.seq().map_values(|n: ScheduledNotification| n@),
                keep == not_about_session(session_id@),
                kept@.map_values(|n: ScheduledNotification| n@) == views.take(
                    iter.index(),
                ).filter(keep),
        {
            proof {
                reveal(Seq::filter);
                assert(views.take(iter.index() + 1).drop_last() =~= views.take(iter.index()));
                assert(views.take(iter.index() + 1).last() == notification@);
            }
            let ghost before = kept@.map_values(|n: ScheduledNotification| n@);
            if !is_text(&notification.session_id, session_id) {
                kept.push(notification);
                assert(kept@.map_values(|n: ScheduledNotification| n@) =~= before.push(
                    notification@,
                ));
            }
        }
        proof {
            assert(views.take(views.len() as int) =~= views);
            lemma_filter_distinct::<ScheduledNotification>(views, keep);
            lemma_collected_distinct::<ScheduledNotification>(views.filter(keep));
        }
        self.scheduled_notifications = KeyedList::from_entities(kept);
    }

    /// The waiting notifications, in the order in which they were
    /// scheduled.
    pub fn get_scheduled_notifications(&self) -> (all: Vec<ScheduledNotification>)
        ensures
            all@.map_values(|n: ScheduledNotification| n@) == self.scheduled(),
            ids_distinct::<ScheduledNotification>(self.scheduled()),
    {
        let mut all: Vec<ScheduledNotification> = Vec::new();
        let mut i: usize = 0;
        while i < self.scheduled_notifications.len()
            invariant
                i <= self.scheduled().len(),
                all@.map_values(|n: ScheduledNotification| n@) =~= self.scheduled().take(i as int),
            decreases self.scheduled().len() - i,
        {
            let ghost before = all@.map_values(|n: ScheduledNotification| n@);
            all.push(self.scheduled_notifications.entity_at(i).clone());
            assert(all@.map_values(|n: ScheduledNotification| n@) =~= before.push(
                self.scheduled()[i as int],
            ));
            i += 1;
        }
        assert(self.scheduled().take(self.scheduled().len() as int) =~= self.scheduled());
        all
    }

    /// Takes every notification off the list.
    pub fn clear_all_scheduled_notifications(&mut self)
        ensures
            final(self).scheduled() == Seq::<ScheduledNotificationView>::empty(),
    {
        self.scheduled_notifications.clear();
    }

    /// How many seconds the delivery of a notification due at `due` has to
    /// wait from `now` on. `None` where the time between the two cannot be
    /// had.
    pub fn delivery_delay(due: Timestamp, now: Timestamp) -> (wait: Option<u64>)
        ensures
            wait == wait_of(due, now),
    {
        if due.is_after(&now) {
            match seconds_between(due, now) {
                Some(seconds) => if seconds < 0 {
                    Some(0)
                } else {
                    Some(seconds as u64)
                },
                None => None,
            }
        } else {
            Some(0)
        }
    }

    /// What the window is told after `notification` was delivered.
    pub fn deliver_notification(notification: &ScheduledNotification) -> (then: FollowUp)
        ensures
            then@ == follow_up_of(notification@),
    {
        match notification.notification_type {
            NotificationType::PomodoroComplete => FollowUp::TimerSessionComplete {
                session_id: notification.session_id.clone(),
                is_break: false,
            },
            NotificationType::BreakComplete => FollowUp::TimerSessionComplete {
                session_id: notification.session_id.clone(),
                is_break: true,
            },
            NotificationType::TaskReminder => FollowUp::TaskReminderTriggered {
                task_id: notification.task_id.clone(),
                reminder_type: NotificationType::TaskReminder,
            },
            NotificationType::TaskDue => FollowUp::TaskReminderTriggered {
                task_id: notification.task_id.clone(),
                reminder_type: NotificationType::TaskDue,
            },
            NotificationType::DailySummary => FollowUp::DailySummary,
        }
    }
}

/// The instant `delay_seconds` after `now`, as chrono computes it; none
/// where the delay is more than chrono counts.
pub open spec fn due_after(now: Timestamp, delay_seconds: u64) -> Option<Timestamp> {
    if delay_seconds <= i64::MAX {
        instant_of(shifted_instant(now.seconds, now.nanos, delay_seconds as i64))
    } else {
        None
    }
}

/// The instant `delay_seconds` after `now`.
pub fn due_time(now: Timestamp, delay_seconds: u64) -> (due: Option<Timestamp>)
    ensures
        due == due_after(now, delay_seconds),
{
    if delay_seconds <= i64::MAX as u64 {
        shift_instant(now, delay_seconds as i64)
    } else {
        None
    }
}

} // verus!
