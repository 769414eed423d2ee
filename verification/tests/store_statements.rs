use pomodoro::models::{
    Fraction, PomodoroSession, SessionState, SessionType, Settings, Task, TaskPriority,
    TaskStatus,
};
use pomodoro::requests::{UpdateSessionRequest, UpdateTaskRequest};
use pomodoro::rows::{SessionRow, SettingsRow, TaskRow};
use pomodoro::sync::entity::SyncEntity;
use pomodoro::requests::CreateTaskRequest;
use pomodoro::storage::{
    insert_session, insert_task, read_settings_row, update_statement, SqlValue, StorageManager,
    INSERT_SESSION, INSERT_TASK, REPLACE_SESSION, REPLACE_TASK, SESSION_COLUMNS, TASK_COLUMNS,
};
use pomodoro::text::{decimal, joined, parse_count, parse_truth, same_text, truth};
use pomodoro::time::Timestamp;

fn no_change() -> UpdateTaskRequest {
    UpdateTaskRequest {
        title: None,
        description: None,
        status: None,
        priority: None,
        due_date: None,
        tags: None,
        estimated_pomodoros: None,
        completed_pomodoros: None,
    }
}

fn text(value: &SqlValue) -> &str {
    match value {
        SqlValue::Text(t) => t.as_str(),
        other => panic!("no text: {:?}", other),
    }
}

#[test]
fn a_change_of_nothing_still_sets_the_instant_of_the_change() {
    let statement = StorageManager::new().update_task("T1", &no_change(), Timestamp::from_seconds(100)).unwrap();
    assert_eq!(statement.query, "UPDATE tasks SET updated_at = ? WHERE id = ?");
    assert_eq!(
        statement.params,
        vec!["1970-01-01T00:01:40+00:00".to_string(), "T1".to_string()]
    );
}

#[test]
fn a_change_of_a_task_sets_what_it_carries_in_the_order_of_the_fields() {
    let request = UpdateTaskRequest {
        title: Some("New".to_string()),
        description: Some("d".to_string()),
        status: Some(TaskStatus::InProgress),
        priority: Some(TaskPriority::Urgent),
        due_date: Some(Timestamp { seconds: 1_704_164_645, nanos: 250_000_000 }),
        tags: Some(vec!["a".to_string(), "b \"c\"".to_string()]),
        estimated_pomodoros: Some(12),
        completed_pomodoros: Some(0),
    };
    let statement = StorageManager::new().update_task("T9", &request, Timestamp::from_seconds(0)).unwrap();
    assert_eq!(
        statement.query,
        "UPDATE tasks SET title = ?, description = ?, status = ?, priority = ?, due_date = ?, \
         tags = ?, estimated_pomodoros = ?, completed_pomodoros = ?, updated_at = ? WHERE id = ?"
    );
    assert_eq!(
        statement.params,
        vec![
            "New".to_string(),
            "d".to_string(),
            "in_progress".to_string(),
            "urgent".to_string(),
            "2024-01-02T03:04:05.250+00:00".to_string(),
            "[\"a\",\"b \\\"c\\\"\"]".to_string(),
            "12".to_string(),
            "0".to_string(),
            "1970-01-01T00:00:00+00:00".to_string(),
            "T9".to_string(),
        ]
    );
}

#[test]
fn a_change_with_some_fields_skips_the_others() {
    let mut request = no_change();
    request.status = Some(TaskStatus::Completed);
    request.completed_pomodoros = Some(4_294_967_295);
    let statement = StorageManager::new().update_task("T1", &request, Timestamp::from_seconds(1)).unwrap();
    assert_eq!(
        statement.query,
        "UPDATE tasks SET status = ?, completed_pomodoros = ?, updated_at = ? WHERE id = ?"
    );
    assert_eq!(statement.params[0], "completed");
    assert_eq!(statement.params[1], "4294967295");
    assert_eq!(statement.params.len(), 4);
}

#[test]
fn an_instant_without_a_date_cannot_be_written() {
    assert!(StorageManager::new().update_task("T1", &no_change(), Timestamp::from_seconds(i64::MAX)).is_none());
    let mut request = no_change();
    request.due_date = Some(Timestamp { seconds: 0, nanos: 2_000_000_000 });
    assert!(StorageManager::new().update_task("T1", &request, Timestamp::from_seconds(0)).is_none());
}

#[test]
fn a_change_of_a_session_sets_what_it_carries() {
    let request = UpdateSessionRequest {
        state: Some(SessionState::Completed),
        remaining_seconds: Some(0),
        started_at: None,
        paused_at: None,
        completed_at: Some(Timestamp::from_seconds(60)),
        rating: Some(5),
        notes: Some("done".to_string()),
    };
    let statement = StorageManager::new().update_pomodoro_session("S1", &request, Timestamp::from_seconds(61)).unwrap();
    assert_eq!(
        statement.query,
        "UPDATE pomodoro_sessions SET state = ?, remaining_seconds = ?, completed_at = ?, \
         rating = ?, notes = ?, updated_at = ? WHERE id = ?"
    );
    assert_eq!(
        statement.params,
        vec![
            "completed".to_string(),
            "0".to_string(),
            "1970-01-01T00:01:00+00:00".to_string(),
            "5".to_string(),
            "done".to_string(),
            "1970-01-01T00:01:01+00:00".to_string(),
            "S1".to_string(),
        ]
    );
}

#[test]
fn an_update_statement_lists_its_assignments() {
    let statement = update_statement("notes", vec![], "n");
    assert_eq!(statement.query, "UPDATE notes SET  WHERE id = ?");
    assert_eq!(statement.params, vec!["n".to_string()]);
    let statement = update_statement(
        "notes",
        vec![
            ("content".to_string(), "c".to_string()),
            ("updated_at".to_string(), "u".to_string()),
        ],
        "n",
    );
    assert_eq!(statement.query, "UPDATE notes SET content = ?, updated_at = ? WHERE id = ?");
    assert_eq!(statement.params, vec!["c".to_string(), "u".to_string(), "n".to_string()]);
}

#[test]
fn the_query_for_sessions_adds_a_condition_for_each_filter() {
    let all = StorageManager::new().get_pomodoro_sessions(None, None, None);
    assert_eq!(
        all.query,
        format!("SELECT {} FROM pomodoro_sessions WHERE 1=1 ORDER BY created_at DESC", SESSION_COLUMNS)
    );
    assert!(all.params.is_empty());
    let some = StorageManager::new().get_pomodoro_sessions(Some("T1".to_string()), None, Some("2024-02-01".to_string()));
    assert_eq!(
        some.query,
        format!(
            "SELECT {} FROM pomodoro_sessions WHERE 1=1 AND task_id = ? AND created_at <= ? \
             ORDER BY created_at DESC",
            SESSION_COLUMNS
        )
    );
    assert_eq!(some.params, vec!["T1".to_string(), "2024-02-01".to_string()]);
    let every = StorageManager::new().get_pomodoro_sessions(
        Some("T1".to_string()),
        Some("2024-01-01".to_string()),
        Some("2024-02-01".to_string()),
    );
    assert!(every
        .query
        .ends_with("WHERE 1=1 AND task_id = ? AND created_at >= ? AND created_at <= ? ORDER BY created_at DESC"));
    assert_eq!(every.params.len(), 3);
    assert_eq!(every.params[1], "2024-01-01");
}

#[test]
fn the_row_of_a_task_has_a_value_for_each_column() {
    let task = Task {
        id: "T1".to_string(),
        title: "t".to_string(),
        description: None,
        status: TaskStatus::InProgress,
        priority: TaskPriority::Low,
        due_date: Some(Timestamp::from_seconds(60)),
        tags: vec!["x".to_string()],
        estimated_pomodoros: 3,
        completed_pomodoros: 2,
        created_at: Timestamp::from_seconds(1),
        updated_at: Timestamp::from_seconds(2),
    };
    let insert = insert_task(&task, false).unwrap();
    assert_eq!(insert.query, INSERT_TASK);
    assert!(insert.query.starts_with("INSERT INTO tasks (id, title"));
    assert_eq!(insert.params.len(), 11);
    assert_eq!(text(&insert.params[0]), "T1");
    assert_eq!(text(&insert.params[1]), "t");
    assert!(matches!(insert.params[2], SqlValue::Null));
    assert_eq!(text(&insert.params[3]), "in_progress");
    assert_eq!(text(&insert.params[4]), "low");
    assert_eq!(text(&insert.params[5]), "1970-01-01T00:01:00+00:00");
    assert_eq!(text(&insert.params[6]), "[\"x\"]");
    assert!(matches!(insert.params[7], SqlValue::Integer(3)));
    assert!(matches!(insert.params[8], SqlValue::Integer(2)));
    assert_eq!(text(&insert.params[9]), "1970-01-01T00:00:01+00:00");
    assert_eq!(text(&insert.params[10]), "1970-01-01T00:00:02+00:00");
    let replace = insert_task(&task, true).unwrap();
    assert_eq!(replace.query, REPLACE_TASK);
    assert!(replace.query.starts_with("INSERT OR REPLACE INTO tasks"));
    let mut undated = task.clone();
    undated.created_at = Timestamp::from_seconds(i64::MIN);
    assert!(insert_task(&undated, false).is_none());
}

#[test]
fn the_row_of_a_session_has_a_value_for_each_column() {
    let session = PomodoroSession {
        id: "S1".to_string(),
        task_id: Some("T1".to_string()),
        session_type: SessionType::ShortBreak,
        state: SessionState::Running,
        duration_minutes: 5,
        remaining_seconds: 299,
        started_at: Some(Timestamp::from_seconds(3)),
        paused_at: None,
        completed_at: None,
        rating: None,
        notes: None,
        created_at: Timestamp::from_seconds(1),
        updated_at: Timestamp::from_seconds(4),
    };
    let insert = insert_session(&session, true).unwrap();
    assert_eq!(insert.query, REPLACE_SESSION);
    assert_eq!(insert.params.len(), 13);
    assert_eq!(text(&insert.params[0]), "S1");
    assert_eq!(text(&insert.params[1]), "T1");
    assert_eq!(text(&insert.params[2]), "short_break");
    assert_eq!(text(&insert.params[3]), "running");
    assert!(matches!(insert.params[4], SqlValue::Integer(5)));
    assert!(matches!(insert.params[5], SqlValue::Integer(299)));
    assert_eq!(text(&insert.params[6]), "1970-01-01T00:00:03+00:00");
    assert!(matches!(insert.params[7], SqlValue::Null));
    assert!(matches!(insert.params[8], SqlValue::Null));
    assert!(matches!(insert.params[9], SqlValue::Null));
    assert!(matches!(insert.params[10], SqlValue::Null));
    assert_eq!(text(&insert.params[12]), "1970-01-01T00:00:04+00:00");
    assert_eq!(insert_session(&session, false).unwrap().query, INSERT_SESSION);
    let mut rated = session.clone();
    rated.rating = Some(4);
    assert!(matches!(insert_session(&rated, false).unwrap().params[9], SqlValue::Integer(4)));
}

#[test]
fn settings_lie_in_seventeen_rows() {
    let mut settings = Settings::default();
    settings.theme = "dark".to_string();
    settings.auto_start_breaks = true;
    let rows = StorageManager::new().update_settings(&settings, "0.8".to_string());
    let pairs: Vec<(&str, &str)> =
        rows.iter().map(|r| (r.key.as_str(), r.value.as_str())).collect();
    assert_eq!(
        pairs,
        vec![
            ("work_duration_minutes", "25"),
            ("short_break_duration_minutes", "5"),
            ("long_break_duration_minutes", "15"),
            ("long_break_interval", "4"),
            ("auto_start_breaks", "true"),
            ("auto_start_pomodoros", "false"),
            ("enable_notifications", "true"),
            ("enable_sounds", "true"),
            ("sound_volume", "0.8"),
            ("work_end_sound", "bell"),
            ("break_end_sound", "chime"),
            ("minimize_to_tray", "true"),
            ("start_minimized", "false"),
            ("close_to_tray", "true"),
            ("enable_startup", "false"),
            ("theme", "dark"),
            ("language", "en"),
        ]
    );
}

fn setting(key: &str, value: &str) -> SettingsRow {
    SettingsRow { key: key.to_string(), value: value.to_string() }
}

#[test]
fn settings_are_read_back_from_their_rows() {
    let mut settings = Settings::default();
    settings.language = "de".to_string();
    settings.long_break_interval = 6;
    settings.enable_sounds = false;
    let rows = StorageManager::new().update_settings(&settings, "0.5".to_string());
    let read = StorageManager::new().get_settings(rows, Fraction { bits: 0x3f00_0000 });
    assert_eq!(read.language, "de");
    assert_eq!(read.long_break_interval, 6);
    assert!(!read.enable_sounds);
    assert_eq!(read.work_duration_minutes, 25);
    assert_eq!(read.sound_volume, Fraction { bits: 0x3f00_0000 });
    assert_eq!(read.theme, "system");
}

#[test]
fn a_value_that_cannot_be_read_gives_the_default_of_its_setting() {
    let rows = vec![
        setting("work_duration_minutes", "soon"),
        setting("short_break_duration_minutes", "-5"),
        setting("long_break_duration_minutes", "30"),
        setting("long_break_interval", "4294967296"),
        setting("auto_start_breaks", "yes"),
        setting("enable_notifications", "no"),
        setting("enable_sounds", "false"),
        setting("minimize_to_tray", "TRUE"),
        setting("theme", ""),
        setting("unknown", "x"),
        setting("long_break_duration_minutes", "45"),
    ];
    let read = StorageManager::new().get_settings(rows, Fraction { bits: 1 });
    assert_eq!(read.work_duration_minutes, 25);
    assert_eq!(read.short_break_duration_minutes, 5);
    assert_eq!(read.long_break_duration_minutes, 45);
    assert_eq!(read.long_break_interval, 4);
    assert!(!read.auto_start_breaks);
    assert!(read.enable_notifications);
    assert!(!read.enable_sounds);
    assert!(read.minimize_to_tray);
    assert_eq!(read.theme, "");
    assert_eq!(read.language, "en");
    let mut settings = Settings::default();
    assert!(read_settings_row(&mut settings, "sound_volume", "0.1".to_string()));
    assert_eq!(settings.sound_volume, Settings::default().sound_volume);
    assert!(!read_settings_row(&mut settings, "work_end_sound", "gong".to_string()));
    assert_eq!(settings.work_end_sound, "gong");
    assert!(!read_settings_row(&mut settings, "start_minimized", "true".to_string()));
    assert!(settings.start_minimized);
}

#[test]
fn counts_are_read_as_the_standard_library_reads_them() {
    for (input, expected) in [
        ("0", Some(0u32)),
        ("42", Some(42)),
        ("+42", Some(42)),
        ("007", Some(7)),
        ("4294967295", Some(u32::MAX)),
        ("4294967296", None),
        ("99999999999999999999999", None),
        ("", None),
        ("+", None),
        ("-", None),
        ("-1", None),
        ("-0", None),
        ("++1", None),
        ("1+", None),
        (" 1", None),
        ("1 ", None),
        ("1_000", None),
        ("12a", None),
        ("\u{0661}", None),
        ("0x10", None),
    ] {
        assert_eq!(parse_count(input), expected, "input {:?}", input);
        assert_eq!(parse_count(input), input.parse::<u32>().ok(), "input {:?}", input);
    }
}

#[test]
fn truth_values_are_read_as_the_standard_library_reads_them() {
    for input in ["true", "false", "True", "", "1", "yes", " true", "falsee"] {
        assert_eq!(parse_truth(input), input.parse::<bool>().ok(), "input {:?}", input);
    }
    assert_eq!(parse_truth("true"), Some(true));
    assert_eq!(parse_truth("false"), Some(false));
    assert_eq!(truth(true), "true");
    assert_eq!(truth(false), "false");
}

#[test]
fn numbers_are_written_in_decimal() {
    for n in [0u32, 1, 9, 10, 11, 99, 100, 101, 1_000, 65_535, 4_294_967_295] {
        assert_eq!(decimal(n), n.to_string());
    }
    assert_eq!(decimal(1_203), "1203");
}

#[test]
fn texts_are_compared_and_joined_character_by_character() {
    assert!(same_text("", ""));
    assert!(same_text("abc", "abc"));
    assert!(!same_text("abc", "abd"));
    assert!(!same_text("abc", "ab"));
    assert!(!same_text("e\u{301}", "\u{e9}"));
    assert_eq!(joined("ab", "cd"), "abcd");
    assert_eq!(joined("", ""), "");
}

#[test]
fn single_records_are_asked_for_by_identifier() {
    let store = StorageManager::new();
    assert_eq!(
        store.get_all_tasks(),
        format!("SELECT {} FROM tasks ORDER BY updated_at DESC", TASK_COLUMNS)
    );
    let one = store.get_task_by_id("T1");
    assert_eq!(one.query, format!("SELECT {} FROM tasks WHERE id = ?1", TASK_COLUMNS));
    assert_eq!(one.params, vec!["T1".to_string()]);
    let gone = store.delete_task("T2");
    assert_eq!(gone.query, "DELETE FROM tasks WHERE id = ?1");
    assert_eq!(gone.params, vec!["T2".to_string()]);
    let session = store.get_pomodoro_session_by_id("S1");
    assert_eq!(
        session.query,
        format!("SELECT {} FROM pomodoro_sessions WHERE id = ?1", SESSION_COLUMNS)
    );
    assert_eq!(session.params, vec!["S1".to_string()]);
    assert_eq!(TASK_COLUMNS.split(", ").count(), 11);
    assert_eq!(SESSION_COLUMNS.split(", ").count(), 13);
}

#[test]
fn a_record_is_created_together_with_its_row() {
    let store = StorageManager::new();
    let request = CreateTaskRequest {
        title: "t".to_string(),
        description: None,
        priority: None,
        due_date: None,
        tags: None,
        estimated_pomodoros: None,
    };
    let (task, insert) = store.create_task(request, "new".to_string(), Timestamp::from_seconds(5));
    let insert = insert.unwrap();
    assert_eq!(task.id, "new");
    assert_eq!(insert.query, INSERT_TASK);
    assert_eq!(text(&insert.params[0]), "new");
    assert_eq!(text(&insert.params[3]), "pending");
    assert_eq!(text(&insert.params[4]), "medium");
    assert_eq!(text(&insert.params[6]), "[]");
    assert!(matches!(insert.params[7], SqlValue::Integer(1)));
    assert!(matches!(insert.params[8], SqlValue::Integer(0)));
    assert_eq!(text(&insert.params[9]), "1970-01-01T00:00:05+00:00");
    let (session, insert) = store.create_pomodoro_session(
        "s".to_string(),
        None,
        SessionType::Work,
        25,
        Timestamp::from_seconds(5),
    );
    let insert = insert.unwrap();
    assert_eq!(session.remaining_seconds, 1_500);
    assert_eq!(insert.query, INSERT_SESSION);
    assert!(matches!(insert.params[1], SqlValue::Null));
    assert_eq!(text(&insert.params[3]), "ready");
    assert!(matches!(insert.params[4], SqlValue::Integer(25)));
    assert!(matches!(insert.params[5], SqlValue::Integer(1_500)));
    let (_, none) = store.create_pomodoro_session(
        "s".to_string(),
        None,
        SessionType::Work,
        25,
        Timestamp::from_seconds(i64::MAX),
    );
    assert!(none.is_none());
}

fn optional_text(value: &SqlValue) -> Option<String> {
    match value {
        SqlValue::Null => None,
        SqlValue::Text(t) => Some(t.clone()),
        other => panic!("no text: {:?}", other),
    }
}

fn number(value: &SqlValue) -> u32 {
    match value {
        SqlValue::Integer(n) => u32::try_from(*n).unwrap(),
        other => panic!("no number: {:?}", other),
    }
}

fn task_row_of(values: &[SqlValue]) -> TaskRow {
    TaskRow {
        id: text(&values[0]).to_string(),
        title: text(&values[1]).to_string(),
        description: optional_text(&values[2]),
        status: text(&values[3]).to_string(),
        priority: text(&values[4]).to_string(),
        due_date: optional_text(&values[5]),
        tags: text(&values[6]).to_string(),
        estimated_pomodoros: number(&values[7]),
        completed_pomodoros: number(&values[8]),
        created_at: text(&values[9]).to_string(),
        updated_at: text(&values[10]).to_string(),
    }
}

fn session_row_of(values: &[SqlValue]) -> SessionRow {
    SessionRow {
        id: text(&values[0]).to_string(),
        task_id: optional_text(&values[1]),
        session_type: text(&values[2]).to_string(),
        state: text(&values[3]).to_string(),
        duration_minutes: number(&values[4]),
        remaining_seconds: number(&values[5]),
        started_at: optional_text(&values[6]),
        paused_at: optional_text(&values[7]),
        completed_at: optional_text(&values[8]),
        rating: match &values[9] {
            SqlValue::Null => None,
            other => Some(number(other)),
        },
        notes: optional_text(&values[10]),
        created_at: text(&values[11]).to_string(),
        updated_at: text(&values[12]).to_string(),
    }
}

#[test]
fn what_is_written_of_a_task_reads_back_as_the_task() {
    let fallback = Timestamp::from_seconds(-1);
    for status in
        [TaskStatus::Pending, TaskStatus::InProgress, TaskStatus::Completed, TaskStatus::Cancelled]
    {
        for priority in
            [TaskPriority::Low, TaskPriority::Medium, TaskPriority::High, TaskPriority::Urgent]
        {
            let task = Task {
                id: "T1".to_string(),
                title: "t".to_string(),
                description: Some("d".to_string()),
                status,
                priority,
                due_date: Some(Timestamp { seconds: 1_704_164_645, nanos: 1 }),
                tags: vec!["a".to_string(), "b \"c\"".to_string()],
                estimated_pomodoros: 3,
                completed_pomodoros: 2,
                created_at: Timestamp::from_seconds(100),
                updated_at: Timestamp { seconds: 200, nanos: 500_000_000 },
            };
            for replace in [false, true] {
                let insert = insert_task(&task, replace).unwrap();
                let read = Task::from_row_or(task_row_of(&insert.params), fallback, fallback);
                assert!(read.same_content(&task));
            }
        }
    }
}

#[test]
fn a_task_changed_to_in_progress_reads_back_in_progress() {
    let mut request = no_change();
    request.status = Some(TaskStatus::InProgress);
    let statement =
        StorageManager::new().update_task("T1", &request, Timestamp::from_seconds(1)).unwrap();
    assert_eq!(statement.params[0], "in_progress");
    assert_eq!(TaskStatus::from_name(&statement.params[0]), TaskStatus::InProgress);
}

#[test]
fn what_is_written_of_a_session_reads_back_as_the_session() {
    let fallback = Timestamp::from_seconds(-1);
    for session_type in [SessionType::Work, SessionType::ShortBreak, SessionType::LongBreak] {
        for state in [
            SessionState::Ready,
            SessionState::Running,
            SessionState::Paused,
            SessionState::Completed,
        ] {
            let session = PomodoroSession {
                id: "S9".to_string(),
                task_id: Some("T1".to_string()),
                session_type,
                state,
                duration_minutes: 25,
                remaining_seconds: 0,
                started_at: Some(Timestamp::from_seconds(3)),
                paused_at: None,
                completed_at: Some(Timestamp::from_seconds(1_503)),
                rating: Some(4),
                notes: Some("n".to_string()),
                created_at: Timestamp::from_seconds(1),
                updated_at: Timestamp::from_seconds(1_504),
            };
            let insert = insert_session(&session, true).unwrap();
            let read =
                PomodoroSession::from_row_or(session_row_of(&insert.params), fallback, fallback);
            assert!(read.same_content(&session));
        }
    }
    let (created, insert) = StorageManager::new().create_pomodoro_session(
        "S1".to_string(),
        Some("T1".to_string()),
        SessionType::ShortBreak,
        5,
        Timestamp::from_seconds(9),
    );
    let read = PomodoroSession::from_row_or(
        session_row_of(&insert.unwrap().params),
        fallback,
        fallback,
    );
    assert!(read.same_content(&created));
    assert_eq!(read.session_type, SessionType::ShortBreak);
}
