use pomodoro::models::{
    Fraction, NotificationType, PomodoroSession, SessionState, SessionType, Settings, Task,
    TaskPriority, TaskStatus, DEFAULT_VOLUME_BITS,
};
use pomodoro::requests::CreateTaskRequest;
use pomodoro::rows::{read_optional_instant, read_tags, SessionRow, TaskRow};
use pomodoro::time::Timestamp;

fn task_row() -> TaskRow {
    TaskRow {
        id: "T1".to_string(),
        title: "Write report".to_string(),
        description: Some("quarterly".to_string()),
        status: "in_progress".to_string(),
        priority: "high".to_string(),
        due_date: Some("2024-01-02T03:04:05Z".to_string()),
        tags: "[\"work\",\"q1\"]".to_string(),
        estimated_pomodoros: 4,
        completed_pomodoros: 1,
        created_at: "1970-01-01T00:01:40+00:00".to_string(),
        updated_at: "1970-01-01 00:03:20.5Z".to_string(),
    }
}

fn session_row() -> SessionRow {
    SessionRow {
        id: "S1".to_string(),
        task_id: None,
        session_type: "short_break".to_string(),
        state: "paused".to_string(),
        duration_minutes: 5,
        remaining_seconds: 120,
        started_at: Some("1970-01-01T00:00:10Z".to_string()),
        paused_at: Some("not a date".to_string()),
        completed_at: None,
        rating: Some(4),
        notes: Some("ok".to_string()),
        created_at: "1970-01-01T00:00:01Z".to_string(),
        updated_at: "1970-01-01T00:00:02Z".to_string(),
    }
}

#[test]
fn names_stand_for_their_variants() {
    for status in
        [TaskStatus::Pending, TaskStatus::InProgress, TaskStatus::Completed, TaskStatus::Cancelled]
    {
        assert_eq!(TaskStatus::from_name(status.name()), status);
    }
    for priority in
        [TaskPriority::Low, TaskPriority::Medium, TaskPriority::High, TaskPriority::Urgent]
    {
        assert_eq!(TaskPriority::from_name(priority.name()), priority);
    }
    for kind in [SessionType::Work, SessionType::ShortBreak, SessionType::LongBreak] {
        assert_eq!(SessionType::from_name(kind.name()), kind);
    }
    for state in
        [SessionState::Ready, SessionState::Running, SessionState::Paused, SessionState::Completed]
    {
        assert_eq!(SessionState::from_name(state.name()), state);
    }
    assert_eq!(TaskStatus::InProgress.name(), "in_progress");
    assert_eq!(SessionType::LongBreak.name(), "long_break");
    assert_eq!(NotificationType::TaskDue.name(), "task_due");
    assert_eq!(NotificationType::PomodoroComplete.name(), "pomodoro_complete");
}

#[test]
fn unknown_names_fall_back() {
    assert_eq!(TaskStatus::from_name("done"), TaskStatus::Pending);
    assert_eq!(TaskStatus::from_name(""), TaskStatus::Pending);
    assert_eq!(TaskStatus::from_name("Completed"), TaskStatus::Pending);
    assert_eq!(TaskPriority::from_name("critical"), TaskPriority::Medium);
    assert_eq!(SessionType::from_name("nap"), SessionType::Work);
    assert_eq!(SessionState::from_name("stopped"), SessionState::Ready);
}

#[test]
fn a_task_row_is_read_field_by_field() {
    let fallback = Timestamp::from_seconds(-1);
    let task = Task::from_row_or(task_row(), fallback, fallback);
    assert_eq!(task.id, "T1");
    assert_eq!(task.title, "Write report");
    assert_eq!(task.description, Some("quarterly".to_string()));
    assert_eq!(task.status, TaskStatus::InProgress);
    assert_eq!(task.priority, TaskPriority::High);
    assert_eq!(task.due_date, Some(Timestamp::from_seconds(1_704_164_645)));
    assert_eq!(task.tags, vec!["work".to_string(), "q1".to_string()]);
    assert_eq!(task.estimated_pomodoros, 4);
    assert_eq!(task.completed_pomodoros, 1);
    assert_eq!(task.created_at, Timestamp::from_seconds(100));
    assert_eq!(task.updated_at, Timestamp { seconds: 200, nanos: 500_000_000 });
}

#[test]
fn what_cannot_be_read_in_a_task_row_falls_back() {
    let mut row = task_row();
    row.status = "weird".to_string();
    row.priority = "".to_string();
    row.due_date = Some("tomorrow".to_string());
    row.tags = "not json".to_string();
    row.created_at = "".to_string();
    row.updated_at = "2024-13-01T00:00:00Z".to_string();
    let task = Task::from_row_or(row, Timestamp::from_seconds(11), Timestamp::from_seconds(22));
    assert_eq!(task.status, TaskStatus::Pending);
    assert_eq!(task.priority, TaskPriority::Medium);
    assert_eq!(task.due_date, None);
    assert!(task.tags.is_empty());
    assert_eq!(task.created_at, Timestamp::from_seconds(11));
    assert_eq!(task.updated_at, Timestamp::from_seconds(22));
}

#[test]
fn a_task_row_without_instants_takes_the_clock() {
    let mut row = task_row();
    row.created_at = "never".to_string();
    let task = Task::from_row(row);
    assert!(task.created_at.is_after(&Timestamp::from_seconds(1_600_000_000)));
    assert_eq!(task.updated_at, Timestamp { seconds: 200, nanos: 500_000_000 });
    let read = Task::from_row(task_row());
    assert_eq!(read.created_at, Timestamp::from_seconds(100));
}

#[test]
fn a_session_row_is_read_field_by_field() {
    let fallback = Timestamp::from_seconds(-1);
    let session = PomodoroSession::from_row_or(session_row(), fallback, fallback);
    assert_eq!(session.id, "S1");
    assert_eq!(session.task_id, None);
    assert_eq!(session.session_type, SessionType::ShortBreak);
    assert_eq!(session.state, SessionState::Paused);
    assert_eq!(session.duration_minutes, 5);
    assert_eq!(session.remaining_seconds, 120);
    assert_eq!(session.started_at, Some(Timestamp::from_seconds(10)));
    assert_eq!(session.paused_at, None);
    assert_eq!(session.completed_at, None);
    assert_eq!(session.rating, Some(4));
    assert_eq!(session.notes, Some("ok".to_string()));
    assert_eq!(session.created_at, Timestamp::from_seconds(1));
    assert_eq!(session.updated_at, Timestamp::from_seconds(2));
    let read = PomodoroSession::from_row(session_row());
    assert_eq!(read.updated_at, Timestamp::from_seconds(2));
}

#[test]
fn instants_and_tags_are_read_from_their_text() {
    assert_eq!(read_optional_instant(&None), None);
    assert_eq!(
        read_optional_instant(&Some("2001-09-09T01:46:40Z".to_string())),
        Some(Timestamp::from_seconds(1_000_000_000))
    );
    assert_eq!(
        read_optional_instant(&Some("2001-09-09T03:46:40.000000001+02:00".to_string())),
        Some(Timestamp { seconds: 1_000_000_000, nanos: 1 })
    );
    assert_eq!(read_optional_instant(&Some("2001-09-09".to_string())), None);
    assert_eq!(read_tags("[]"), Vec::<String>::new());
    assert_eq!(read_tags("[\"a\"]"), vec!["a".to_string()]);
    assert_eq!(read_tags("[1]"), Vec::<String>::new());
    assert_eq!(read_tags("{\"a\":1}"), Vec::<String>::new());
}

#[test]
fn a_created_task_takes_the_defaults_for_what_is_left_open() {
    let request = CreateTaskRequest {
        title: "t".to_string(),
        description: None,
        priority: None,
        due_date: None,
        tags: None,
        estimated_pomodoros: None,
    };
    let task = Task::create(request, "id-1".to_string(), Timestamp::from_seconds(77));
    assert_eq!(task.id, "id-1");
    assert_eq!(task.title, "t");
    assert_eq!(task.status, TaskStatus::Pending);
    assert_eq!(task.priority, TaskPriority::Medium);
    assert!(task.tags.is_empty());
    assert_eq!(task.estimated_pomodoros, 1);
    assert_eq!(task.completed_pomodoros, 0);
    assert_eq!(task.created_at, Timestamp::from_seconds(77));
    assert_eq!(task.updated_at, Timestamp::from_seconds(77));
    let request = CreateTaskRequest {
        title: "t".to_string(),
        description: Some("d".to_string()),
        priority: Some(TaskPriority::Urgent),
        due_date: Some(Timestamp::from_seconds(5)),
        tags: Some(vec!["x".to_string()]),
        estimated_pomodoros: Some(3),
    };
    let task = Task::create(request, "id-2".to_string(), Timestamp::from_seconds(78));
    assert_eq!(task.priority, TaskPriority::Urgent);
    assert_eq!(task.tags, vec!["x".to_string()]);
    assert_eq!(task.estimated_pomodoros, 3);
    assert_eq!(task.due_date, Some(Timestamp::from_seconds(5)));
    assert_eq!(task.description, Some("d".to_string()));
}

#[test]
fn a_created_session_has_its_whole_duration_left() {
    let session = PomodoroSession::create(
        "S".to_string(),
        Some("T".to_string()),
        SessionType::LongBreak,
        15,
        Timestamp::from_seconds(9),
    );
    assert_eq!(session.remaining_seconds, 900);
    assert_eq!(session.duration_minutes, 15);
    assert_eq!(session.state, SessionState::Ready);
    assert_eq!(session.session_type, SessionType::LongBreak);
    assert_eq!(session.task_id, Some("T".to_string()));
    assert_eq!(session.started_at, None);
    assert_eq!(session.rating, None);
    assert_eq!(session.created_at, Timestamp::from_seconds(9));
    let longest = PomodoroSession::create(
        "S".to_string(),
        None,
        SessionType::Work,
        71_582_788,
        Timestamp::from_seconds(9),
    );
    assert_eq!(longest.remaining_seconds, 4_294_967_280);
}

#[test]
fn fresh_settings_are_the_defaults() {
    let settings = Settings::default();
    assert_eq!(settings.work_duration_minutes, 25);
    assert_eq!(settings.short_break_duration_minutes, 5);
    assert_eq!(settings.long_break_duration_minutes, 15);
    assert_eq!(settings.long_break_interval, 4);
    assert!(!settings.auto_start_breaks);
    assert!(!settings.auto_start_pomodoros);
    assert!(settings.enable_notifications);
    assert!(settings.enable_sounds);
    assert_eq!(settings.sound_volume, Fraction { bits: DEFAULT_VOLUME_BITS });
    assert_eq!(f32::from_bits(settings.sound_volume.bits), 0.8_f32);
    assert_eq!(settings.work_end_sound, "bell");
    assert_eq!(settings.break_end_sound, "chime");
    assert!(settings.minimize_to_tray);
    assert!(!settings.start_minimized);
    assert!(settings.close_to_tray);
    assert!(!settings.enable_startup);
    assert_eq!(settings.theme, "system");
    assert_eq!(settings.language, "en");
    let copy = settings.clone();
    assert_eq!(copy.theme, "system");
}

#[test]
fn evening_is_eight_o_clock_of_the_same_day() {
    assert_eq!(Timestamp::from_seconds(0).evening(), Some(Timestamp::from_seconds(72_000)));
    assert_eq!(Timestamp::from_seconds(86_399).evening(), Some(Timestamp::from_seconds(72_000)));
    assert_eq!(Timestamp::from_seconds(86_400).evening(), Some(Timestamp::from_seconds(158_400)));
    assert_eq!(
        Timestamp { seconds: 80_000, nanos: 5 }.evening(),
        Some(Timestamp::from_seconds(72_000))
    );
    assert_eq!(Timestamp::from_seconds(-1).evening(), Some(Timestamp::from_seconds(-14_400)));
    assert_eq!(Timestamp::from_seconds(-86_400).evening(), Some(Timestamp::from_seconds(-14_400)));
    assert_eq!(Timestamp::from_seconds(-86_401).evening(), Some(Timestamp::from_seconds(-100_800)));
    assert_eq!(Timestamp::from_seconds(i64::MAX).evening(), None);
    assert_eq!(Timestamp::from_seconds(i64::MIN).evening(), None);
}
