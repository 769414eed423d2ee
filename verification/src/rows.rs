//! Records as the local store's tables hold them, and how they are read.

use crate::json::{parse_text_list, parsed_text_list};
use crate::models::{
    PomodoroSession, PomodoroSessionView, SessionState, SessionType, Task, TaskPriority,
    TaskStatus, TaskView,
};
use crate::time::{current_instant, instant_of, parse_instant, parsed_instant, Timestamp};
use vstd::prelude::*;

verus! {

/// A row of the table of tasks.
#[derive(Debug)]
pub struct TaskRow {
    pub id: String,
    pub title: String,
    pub description: Option<String>,
    pub status: String,
    pub priority: String,
    pub due_date: Option<String>,
    /// The tags, as the text of a JSON array of strings.
    pub tags: String,
    pub estimated_pomodoros: u32,
    pub completed_pomodoros: u32,
    pub created_at: String,
    pub updated_at: String,
}

/// A row of the table of sessions.
#[derive(Debug)]
pub struct SessionRow {
    pub id: String,
    pub task_id: Option<String>,
    pub session_type: String,
    pub state: String,
    pub duration_minutes: u32,
    pub remaining_seconds: u32,
    pub started_at: Option<String>,
    pub paused_at: Option<String>,
    pub completed_at: Option<String>,
    pub rating: Option<u32>,
    pub notes: Option<String>,
    pub created_at: String,
    pub updated_at: String,
}

/// A row of the table of settings: one setting under its name.
#[derive(Debug)]
pub struct SettingsRow {
    pub key: String,
    pub value: String,
}

/// The instant written in an optional column: absent where the column is
/// empty or its text is no instant.
pub open spec fn optional_instant(text: Option<String>) -> Option<Timestamp> {
    match text {
        Some(t) => instant_of(parsed_instant(t@)),
        None => None,
    }
}

/// The instant written in a column, or `fallback` where the text is no
/// instant.
pub open spec fn instant_or(text: Seq<char>, fallback: Timestamp) -> Timestamp {
    match instant_of(parsed_instant(text)) {
        Some(t) => t,
        None => fallback,
    }
}

/// The tags written in a column: none where the text is no JSON array of
/// strings.
pub open spec fn tags_of(text: Seq<char>) -> Seq<Seq<char>> {
    match parsed_text_list(text) {
        Some(list) => list,
        None => Seq::empty(),
    }
}

/// The task that a row stands for. A status or priority that is not one of
/// the known names reads as pending or medium, and where the text of a
/// column is no instant, an optional instant is absent and a mandatory one
/// is the fallback given for it.
pub open spec fn task_of_row(
    row: TaskRow,
    created_fallback: Timestamp,
    updated_fallback: Timestamp,
) -> TaskView {
    TaskView {
        id: row.id@,
        title: row.title@,
        description: row.description.deep_view(),
        status: TaskStatus::named(row.status@),
        priority: TaskPriority::named(row.priority@),
        due_date: optional_instant(row.due_date),
        tags: tags_of(row.tags@),
        estimated_pomodoros: row.estimated_pomodoros,
        completed_pomodoros: row.completed_pomodoros,
        created_at: instant_or(row.created_at@, created_fallback),
        updated_at: instant_or(row.updated_at@, updated_fallback),
    }
}

/// The session that a row stands for, read as a task's row is read.
pub open spec fn session_of_row(
    row: SessionRow,
    created_fallback: Timestamp,
    updated_fallback: Timestamp,
) -> PomodoroSessionView {
    PomodoroSessionView {
        id: row.id@,
        task_id: row.task_id.deep_view(),
        session_type: SessionType::named(row.session_type@),
        state: SessionState::named(row.state@),
        duration_minutes: row.duration_minutes,
        remaining_seconds: row.remaining_seconds,
        started_at: optional_instant(row.started_at),
        paused_at: optional_instant(row.paused_at),
        completed_at: optional_instant(row.completed_at),
        rating: row.rating,
        notes: row.notes.deep_view(),
        created_at: instant_or(row.created_at@, created_fallback),
        updated_at: instant_or(row.updated_at@, updated_fallback),
    }
}

/// Reads the instant out of an optional column.
pub fn read_optional_instant(text: &Option<String>) -> (instant: Option<Timestamp>)
    ensures
        instant == optional_instant(*text),
{
    match text {
        Some(t) => parse_instant(t.as_str()),
        None => None,
    }
}

/// Reads the tags out of their column.
pub fn read_tags(text: &str) -> (tags: Vec<String>)
    ensures
        tags.deep_view() == tags_of(text@),
{
    match parse_text_list(text) {
        Some(list) => list,
        None => {
            let none: Vec<String> = Vec::new();
            assert(none.deep_view() =~= Seq::<Seq<char>>::empty());
            none
        },
    }
}

impl Task {
    /// The task that `row` stands for, with the fallbacks given for the two
    /// mandatory instants.
    pub fn from_row_or(row: TaskRow, created_fallback: Timestamp, updated_fallback: Timestamp) -> (task:
        Task)
        ensures
            task@ == task_of_row(row, created_fallback, updated_fallback),
    {
        let created_at = match parse_instant(row.created_at.as_str()) {
            Some(at) => at,
            None => created_fallback,
        };
        let updated_at = match parse_instant(row.updated_at.as_str()) {
            Some(at) => at,
            None => updated_fallback,
        };
        Task {
            status: TaskStatus::from_name(row.status.as_str()),
            priority: TaskPriority::from_name(row.priority.as_str()),
            due_date: read_optional_instant(&row.due_date),
            tags: read_tags(row.tags.as_str()),
            id: row.id,
            title: row.title,
            description: row.description,
            estimated_pomodoros: row.estimated_pomodoros,
            completed_pomodoros: row.completed_pomodoros,
            created_at,
            updated_at,
        }
    }

    /// The task that `row` stands for. Where the text of a mandatory instant
    /// is no instant, the clock is read in its place.
    pub fn from_row(row: TaskRow) -> (task: Task)
        ensures
            task@ == task_of_row(row, task.created_at, task.updated_at),
    {
        let created_fallback = match parse_instant(row.created_at.as_str()) {
            Some(at) => at,
            None => current_instant(),
        };
        let updated_fallback = match parse_instant(row.updated_at.as_str()) {
            Some(at) => at,
            None => current_instant(),
        };
        Task::from_row_or(row, created_fallback, updated_fallback)
    }
}

impl PomodoroSession {
    /// The session that `row` stands for, with the fallbacks given for the
    /// two mandatory instants.
    pub fn from_row_or(
        row: SessionRow,
        created_fallback: Timestamp,
        updated_fallback: Timestamp,
    ) -> (session: PomodoroSession)
        ensures
            session@ == session_of_row(row, created_fallback, updated_fallback),
    {
        let created_at = match parse_instant(row.created_at.as_str()) {
            Some(at) => at,
            None => created_fallback,
        };
        let updated_at = match parse_instant(row.updated_at.as_str()) {
            Some(at) => at,
            None => updated_fallback,
        };
        PomodoroSession {
            session_type: SessionType::from_name(row.session_type.as_str()),
            state: SessionState::from_name(row.state.as_str()),
            started_at: read_optional_instant(&row.started_at),
            paused_at: read_optional_instant(&row.paused_at),
            completed_at: read_optional_instant(&row.completed_at),
            id: row.id,
            task_id: row.task_id,
            duration_minutes: row.duration_minutes,
            remaining_seconds: row.remaining_seconds,
            rating: row.rating,
            notes: row.notes,
            created_at,
            updated_at,
        }
    }

    /// The session that `row` stands for. Where the text of a mandatory
    /// instant is no instant, the clock is read in its place.
    pub fn from_row(row: SessionRow) -> (session: PomodoroSession)
        ensures
            session@ == session_of_row(row, session.created_at, session.updated_at),
    {
        let created_fallback = match parse_instant(row.created_at.as_str()) {
            Some(at) => at,
            None => current_instant(),
        };
        let updated_fallback = match parse_instant(row.updated_at.as_str()) {
            Some(at) => at,
            None => current_instant(),
        };
        PomodoroSession::from_row_or(row, created_fallback, updated_fallback)
    }
}

} // verus!
