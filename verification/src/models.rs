//! The records that the application keeps: tasks, focus sessions, settings.

use crate::keyed::Keyed;
use crate::sync::entity::SyncEntity;
use crate::text::{same_optional_text, same_text, same_texts};
use crate::time::Timestamp;
use vstd::prelude::*;

verus! {

/// How far a task has come.
#[derive(Clone, Copy, Debug, PartialEq, Eq, Structural)]
pub enum TaskStatus {
    Pending,
    InProgress,
    Completed,
    Cancelled,
}

/// How much a task matters.
#[derive(Clone, Copy, Debug, PartialEq, Eq, Structural)]
pub enum TaskPriority {
    Low,
    Medium,
    High,
    Urgent,
}

/// What a timed session is for.
#[derive(Clone, Copy, Debug, PartialEq, Eq, Structural)]
pub enum SessionType {
    Work,
    ShortBreak,
    LongBreak,
}

/// Where a timed session stands.
#[derive(Clone, Copy, Debug, PartialEq, Eq, Structural)]
pub enum SessionState {
    Ready,
    Running,
    Paused,
    Completed,
}

impl TaskStatus {
    /// The status that a name stands for; a name that stands for none
    /// counts as pending.
    pub open spec fn named(name: Seq<char>) -> TaskStatus {
        if name == "pending"@ {
            TaskStatus::Pending
        } else if name == "in_progress"@ {
            TaskStatus::InProgress
        } else if name == "completed"@ {
            TaskStatus::Completed
        } else if name == "cancelled"@ {
            TaskStatus::Cancelled
        } else {
            TaskStatus::Pending
        }
    }

    /// The name of the status, which the remote service and the local store
    /// write alike.
    pub open spec fn name_text(self) -> Seq<char> {
        match self {
            TaskStatus::Pending => "pending"@,
            TaskStatus::InProgress => "in_progress"@,
            TaskStatus::Completed => "completed"@,
            TaskStatus::Cancelled => "cancelled"@,
        }
    }

    /// The status that `name` stands for.
    pub fn from_name(name: &str) -> (status: TaskStatus)
        ensures
            status == TaskStatus::named(name@),
    {
        if same_text(name, "pending") {
            TaskStatus::Pending
        } else if same_text(name, "in_progress") {
            TaskStatus::InProgress
        } else if same_text(name, "completed") {
            TaskStatus::Completed
        } else if same_text(name, "cancelled") {
            TaskStatus::Cancelled
        } else {
            TaskStatus::Pending
        }
    }

    /// The name of the status.
    pub fn name(&self) -> (name: &'static str)
        ensures
            name@ == self.name_text(),
    {
        match self {
            TaskStatus::Pending => "pending",
            TaskStatus::InProgress => "in_progress",
            TaskStatus::Completed => "completed",
            TaskStatus::Cancelled => "cancelled",
        }
    }
}

impl TaskPriority {
    /// The priority that a name stands for; a name that stands for none
    /// counts as medium.
    pub open spec fn named(name: Seq<char>) -> TaskPriority {
        if name == "low"@ {
            TaskPriority::Low
        } else if name == "medium"@ {
            TaskPriority::Medium
        } else if name == "high"@ {
            TaskPriority::High
        } else if name == "urgent"@ {
            TaskPriority::Urgent
        } else {
            TaskPriority::Medium
        }
    }

    /// The name of the priority, which the remote service and the local
    /// store write alike.
    pub open spec fn name_text(self) -> Seq<char> {
        match self {
            TaskPriority::Low => "low"@,
            TaskPriority::Medium => "medium"@,
            TaskPriority::High => "high"@,
            TaskPriority::Urgent => "urgent"@,
        }
    }

    /// The priority that `name` stands for.
    pub fn from_name(name: &str) -> (priority: TaskPriority)
        ensures
            priority == TaskPriority::named(name@),
    {
        if same_text(name, "low") {
            TaskPriority::Low
        } else if same_text(name, "medium") {
            TaskPriority::Medium
        } else if same_text(name, "high") {
            TaskPriority::High
        } else if same_text(name, "urgent") {
            TaskPriority::Urgent
        } else {
            TaskPriority::Medium
        }
    }

    /// The name of the priority.
    pub fn name(&self) -> (name: &'static str)
        ensures
            name@ == self.name_text(),
    {
        match self {
            TaskPriority::Low => "low",
            TaskPriority::Medium => "medium",
            TaskPriority::High => "high",
            TaskPriority::Urgent => "urgent",
        }
    }
}

impl SessionType {
    /// The kind of session that a name stands for; a name that stands for
    /// none counts as work.
    pub open spec fn named(name: Seq<char>) -> SessionType {
        if name == "work"@ {
            SessionType::Work
        } else if name == "short_break"@ {
            SessionType::ShortBreak
        } else if name == "long_break"@ {
            SessionType::LongBreak
        } else {
            SessionType::Work
        }
    }

    /// The name of the kind, which the remote service and the local store
    /// write alike.
    pub open spec fn name_text(self) -> Seq<char> {
        match self {
            SessionType::Work => "work"@,
            SessionType::ShortBreak => "short_break"@,
            SessionType::LongBreak => "long_break"@,
        }
    }

    /// The kind of session that `name` stands for.
    pub fn from_name(name: &str) -> (kind: SessionType)
        ensures
            kind == SessionType::named(name@),
    {
        if same_text(name, "work") {
            SessionType::Work
        } else if same_text(name, "short_break") {
            SessionType::ShortBreak
        } else if same_text(name, "long_break") {
            SessionType::LongBreak
        } else {
            SessionType::Work
        }
    }

    /// The name of the kind.
    pub fn name(&self) -> (name: &'static str)
        ensures
            name@ == self.name_text(),
    {
        match self {
            SessionType::Work => "work",
            SessionType::ShortBreak => "short_break",
            SessionType::LongBreak => "long_break",
        }
    }
}

impl SessionState {
    /// The state that a name stands for; a name that stands for none counts
    /// as ready.
    pub open spec fn named(name: Seq<char>) -> SessionState {
        if name == "ready"@ {
            SessionState::Ready
        } else if name == "running"@ {
            SessionState::Running
        } else if name == "paused"@ {
            SessionState::Paused
        } else if name == "completed"@ {
            SessionState::Completed
        } else {
            SessionState::Ready
        }
    }

    /// The name of the state, which the remote service and the local store
    /// write alike.
    pub open spec fn name_text(self) -> Seq<char> {
        match self {
            SessionState::Ready => "ready"@,
            SessionState::Running => "running"@,
            SessionState::Paused => "paused"@,
            SessionState::Completed => "completed"@,
        }
    }

    /// The state that `name` stands for.
    pub fn from_name(name: &str) -> (state: SessionState)
        ensures
            state == SessionState::named(name@),
    {
        if same_text(name, "ready") {
            SessionState::Ready
        } else if same_text(name, "running") {
            SessionState::Running
        } else if same_text(name, "paused") {
            SessionState::Paused
        } else if same_text(name, "completed") {
            SessionState::Completed
        } else {
            SessionState::Ready
        }
    }

    /// The name of the state.
    pub fn name(&self) -> (name: &'static str)
        ensures
            name@ == self.name_text(),
    {
        match self {
            SessionState::Ready => "ready",
            SessionState::Running => "running",
            SessionState::Paused => "paused",
            SessionState::Completed => "completed",
        }
    }
}

/// Each name that is written stands for the variant it was written for: what
/// the local store or the remote service writes of a record reads back as
/// it was.
pub proof fn lemma_names_read_back(
    status: TaskStatus,
    priority: TaskPriority,
    kind: SessionType,
    state: SessionState,
)
    ensures
        TaskStatus::named(status.name_text()) == status,
        TaskPriority::named(priority.name_text()) == priority,
        SessionType::named(kind.name_text()) == kind,
        SessionState::named(state.name_text()) == state,
{
    reveal_strlit("pending");
    reveal_strlit("in_progress");
    reveal_strlit("completed");
    reveal_strlit("cancelled");
    reveal_strlit("low");
    reveal_strlit("medium");
    reveal_strlit("high");
    reveal_strlit("urgent");
    reveal_strlit("work");
    reveal_strlit("short_break");
    reveal_strlit("long_break");
    reveal_strlit("ready");
    reveal_strlit("running");
    reveal_strlit("paused");
    assert("pending"@.len() != "in_progress"@.len());
    assert("pending"@[0] != "completed"@[0]);
    assert("in_progress"@[0] != "completed"@[0]);
    assert("pending"@[0] != "cancelled"@[0]);
    assert("in_progress"@[0] != "cancelled"@[0]);
    assert("completed"@[1] != "cancelled"@[1]);
    assert("low"@[0] != "medium"@[0]);
    assert("low"@[0] != "high"@[0]);
    assert("low"@[0] != "urgent"@[0]);
    assert("medium"@[0] != "high"@[0]);
    assert("medium"@[0] != "urgent"@[0]);
    assert("high"@[0] != "urgent"@[0]);
    assert("work"@[0] != "short_break"@[0]);
    assert("work"@[0] != "long_break"@[0]);
    assert("short_break"@[0] != "long_break"@[0]);
    assert("ready"@[1] != "running"@[1]);
    assert("ready"@[0] != "paused"@[0]);
    assert("ready"@[0] != "completed"@[0]);
    assert("running"@[0] != "paused"@[0]);
    assert("running"@[0] != "completed"@[0]);
    assert("paused"@[0] != "completed"@[0]);
}

/// A task.
#[derive(Debug)]
pub struct Task {
    pub id: String,
    pub title: String,
    pub description: Option<String>,
    pub status: TaskStatus,
    pub priority: TaskPriority,
    pub due_date: Option<Timestamp>,
    pub tags: Vec<String>,
    pub estimated_pomodoros: u32,
    pub completed_pomodoros: u32,
    pub created_at: Timestamp,
    pub updated_at: Timestamp,
}

/// Everything a task holds.
pub struct TaskView {
    pub id: Seq<char>,
    pub title: Seq<char>,
    pub description: Option<Seq<char>>,
    pub status: TaskStatus,
    pub priority: TaskPriority,
    pub due_date: Option<Timestamp>,
    pub tags: Seq<Seq<char>>,
    pub estimated_pomodoros: u32,
    pub completed_pomodoros: u32,
    pub created_at: Timestamp,
    pub updated_at: Timestamp,
}

impl View for Task {
    type V = TaskView;

    open spec fn view(&self) -> TaskView {
        TaskView {
            id: self.id@,
            title: self.title@,
            description: self.description.deep_view(),
            status: self.status,
            priority: self.priority,
            due_date: self.due_date,
            tags: self.tags.deep_view(),
            estimated_pomodoros: self.estimated_pomodoros,
            completed_pomodoros: self.completed_pomodoros,
            created_at: self.created_at,
            updated_at: self.updated_at,
        }
    }
}

impl Clone for Task {
    fn clone(&self) -> (copy: Self)
        ensures
            copy@ == self@,
    {
        let copy = Task {
            id: self.id.clone(),
            title: self.title.clone(),
            description: self.description.clone(),
            status: self.status,
            priority: self.priority,
            due_date: self.due_date,
            tags: self.tags.clone(),
            estimated_pomodoros: self.estimated_pomodoros,
            completed_pomodoros: self.completed_pomodoros,
            created_at: self.created_at,
            updated_at: self.updated_at,
        };
        assert(copy.tags.deep_view() =~= self.tags.deep_view());
        copy
    }
}

impl Keyed for Task {
    open spec fn id_of(value: TaskView) -> Seq<char> {
        value.id
    }

    fn entity_id(&self) -> (id: &str) {
        self.id.as_str()
    }
}

impl SyncEntity for Task {
    open spec fn modified_of(value: TaskView) -> Timestamp {
        value.updated_at
    }

    fn last_modified(&self) -> (at: Timestamp) {
        self.updated_at
    }

    fn same_content(&self, other: &Self) -> (same: bool) {
        same_text(self.id.as_str(), other.id.as_str()) && same_text(
            self.title.as_str(),
            other.title.as_str(),
        ) && same_optional_text(&self.description, &other.description) && self.status
            == other.status && self.priority == other.priority && same_optional_instant(
            &self.due_date,
            &other.due_date,
        ) && same_texts(&self.tags, &other.tags) && self.estimated_pomodoros
            == other.estimated_pomodoros && self.completed_pomodoros == other.completed_pomodoros
            && self.created_at == other.created_at && self.updated_at == other.updated_at
    }

    fn duplicate(&self) -> (copy: Self) {
        self.clone()
    }
}

/// Whether both instants are absent, or both present and the same.
pub fn same_optional_instant(a: &Option<Timestamp>, b: &Option<Timestamp>) -> (same: bool)
    ensures
        same == (*a == *b),
{
    match (a, b) {
        (None, None) => true,
        (Some(x), Some(y)) => *x == *y,
        _ => false,
    }
}

/// A timed focus session or break.
#[derive(Debug)]
pub struct PomodoroSession {
    pub id: String,
    pub task_id: Option<String>,
    pub session_type: SessionType,
    pub state: SessionState,
    pub duration_minutes: u32,
    pub remaining_seconds: u32,
    pub started_at: Option<Timestamp>,
    pub paused_at: Option<Timestamp>,
    pub completed_at: Option<Timestamp>,
    pub rating: Option<u32>,
    pub notes: Option<String>,
    pub created_at: Timestamp,
    pub updated_at: Timestamp,
}

/// Everything a session holds.
pub struct PomodoroSessionView {
    pub id: Seq<char>,
    pub task_id: Option<Seq<char>>,
    pub session_type: SessionType,
    pub state: SessionState,
    pub duration_minutes: u32,
    pub remaining_seconds: u32,
    pub started_at: Option<Timestamp>,
    pub paused_at: Option<Timestamp>,
    pub completed_at: Option<Timestamp>,
    pub rating: Option<u32>,
    pub notes: Option<Seq<char>>,
    pub created_at: Timestamp,
    pub updated_at: Timestamp,
}

impl View for PomodoroSession {
    type V = PomodoroSessionView;

    open spec fn view(&self) -> PomodoroSessionView {
        PomodoroSessionView {
            id: self.id@,
            task_id: self.task_id.deep_view(),
            session_type: self.session_type,
            state: self.state,
            duration_minutes: self.duration_minutes,
            remaining_seconds: self.remaining_seconds,
            started_at: self.started_at,
            paused_at: self.paused_at,
            completed_at: self.completed_at,
            rating: self.rating,
            notes: self.notes.deep_view(),
            created_at: self.created_at,
            updated_at: self.updated_at,
        }
    }
}

impl Clone for PomodoroSession {
    fn clone(&self) -> (copy: Self)
        ensures
            copy@ == self@,
    {
        PomodoroSession {
            id: self.id.clone(),
            task_id: self.task_id.clone(),
            session_type: self.session_type,
            state: self.state,
            duration_minutes: self.duration_minutes,
            remaining_seconds: self.remaining_seconds,
            started_at: self.started_at,
            paused_at: self.paused_at,
            completed_at: self.completed_at,
            rating: self.rating,
            notes: self.notes.clone(),
            created_at: self.created_at,
            updated_at: self.updated_at,
        }
    }
}

impl Keyed for PomodoroSession {
    open spec fn id_of(value: PomodoroSessionView) -> Seq<char> {
        value.id
    }

    fn entity_id(&self) -> (id: &str) {
        self.id.as_str()
    }
}

impl SyncEntity for PomodoroSession {
    open spec fn modified_of(value: PomodoroSessionView) -> Timestamp {
        value.updated_at
    }

    fn last_modified(&self) -> (at: Timestamp) {
        self.updated_at
    }

    fn same_content(&self, other: &Self) -> (same: bool) {
        same_text(self.id.as_str(), other.id.as_str()) && same_optional_text(
            &self.task_id,
            &other.task_id,
        ) && self.session_type == other.session_type && self.state == other.state
            && self.duration_minutes == other.duration_minutes && self.remaining_seconds
            == other.remaining_seconds && same_optional_instant(&self.started_at, &other.started_at)
            && same_optional_instant(&self.paused_at, &other.paused_at) && same_optional_instant(
            &self.completed_at,
            &other.completed_at,
        ) && same_optional_count(&self.rating, &other.rating) && same_optional_text(
            &self.notes,
            &other.notes,
        ) && self.created_at == other.created_at && self.updated_at == other.updated_at
    }

    fn duplicate(&self) -> (copy: Self) {
        self.clone()
    }
}

/// Whether both numbers are absent, or both present and the same.
pub fn same_optional_count(a: &Option<u32>, b: &Option<u32>) -> (same: bool)
    ensures
        same == (*a == *b),
{
    match (a, b) {
        (None, None) => true,
        (Some(x), Some(y)) => *x == *y,
        _ => false,
    }
}

/// A fraction, held as the bit pattern of the 32-bit binary number that the
/// rest of the application computes with.
#[derive(Clone, Copy, Debug, PartialEq, Eq, Structural)]
pub struct Fraction {
    pub bits: u32,
}

/// The bit pattern of the volume that a fresh installation starts with,
/// eight tenths of full volume.
pub const DEFAULT_VOLUME_BITS: u32 = 0x3f4c_cccd;

/// The preferences of one installation, kept and moved as a whole.
#[derive(Debug)]
pub struct Settings {
    pub work_duration_minutes: u32,
    pub short_break_duration_minutes: u32,
    pub long_break_duration_minutes: u32,
    pub long_break_interval: u32,
    pub auto_start_breaks: bool,
    pub auto_start_pomodoros: bool,
    pub enable_notifications: bool,
    pub enable_sounds: bool,
    pub sound_volume: Fraction,
    pub work_end_sound: String,
    pub break_end_sound: String,
    pub minimize_to_tray: bool,
    pub start_minimized: bool,
    pub close_to_tray: bool,
    pub enable_startup: bool,
    pub theme: String,
    pub language: String,
}

/// Everything the settings hold.
pub struct SettingsView {
    pub work_duration_minutes: u32,
    pub short_break_duration_minutes: u32,
    pub long_break_duration_minutes: u32,
    pub long_break_interval: u32,
    pub auto_start_breaks: bool,
    pub auto_start_pomodoros: bool,
    pub enable_notifications: bool,
    pub enable_sounds: bool,
    pub sound_volume: Fraction,
    pub work_end_sound: Seq<char>,
    pub break_end_sound: Seq<char>,
    pub minimize_to_tray: bool,
    pub start_minimized: bool,
    pub close_to_tray: bool,
    pub enable_startup: bool,
    pub theme: Seq<char>,
    pub language: Seq<char>,
}

impl View for Settings {
    type V = SettingsView;

    open spec fn view(&self) -> SettingsView {
        SettingsView {
            work_duration_minutes: self.work_duration_minutes,
            short_break_duration_minutes: self.short_break_duration_minutes,
            long_break_duration_minutes: self.long_break_duration_minutes,
            long_break_interval: self.long_break_interval,
            auto_start_breaks: self.auto_start_breaks,
            auto_start_pomodoros: self.auto_start_pomodoros,
            enable_notifications: self.enable_notifications,
            enable_sounds: self.enable_sounds,
            sound_volume: self.sound_volume,
            work_end_sound: self.work_end_sound@,
            break_end_sound: self.break_end_sound@,
            minimize_to_tray: self.minimize_to_tray,
            start_minimized: self.start_minimized,
            close_to_tray: self.close_to_tray,
            enable_startup: self.enable_startup,
            theme: self.theme@,
            language: self.language@,
        }
    }
}

impl Clone for Settings {
    fn clone(&self) -> (copy: Self)
        ensures
            copy@ == self@,
    {
        Settings {
            work_duration_minutes: self.work_duration_minutes,
            short_break_duration_minutes: self.short_break_duration_minutes,
            long_break_duration_minutes: self.long_break_duration_minutes,
            long_break_interval: self.long_break_interval,
            auto_start_breaks: self.auto_start_breaks,
            auto_start_pomodoros: self.auto_start_pomodoros,
            enable_notifications: self.enable_notifications,
            enable_sounds: self.enable_sounds,
            sound_volume: self.sound_volume,
            work_end_sound: self.work_end_sound.clone(),
            break_end_sound: self.break_end_sound.clone(),
            minimize_to_tray: self.minimize_to_tray,
            start_minimized: self.start_minimized,
            close_to_tray: self.close_to_tray,
            enable_startup: self.enable_startup,
            theme: self.theme.clone(),
            language: self.language.clone(),
        }
    }
}

/// The settings of a fresh installation.
pub open spec fn default_settings() -> SettingsView {
    SettingsView {
        work_duration_minutes: 25,
        short_break_duration_minutes: 5,
        long_break_duration_minutes: 15,
        long_break_interval: 4,
        auto_start_breaks: false,
        auto_start_pomodoros: false,
        enable_notifications: true,
        enable_sounds: true,
        sound_volume: Fraction { bits: DEFAULT_VOLUME_BITS },
        work_end_sound: "bell"@,
        break_end_sound: "chime"@,
        minimize_to_tray: true,
        start_minimized: false,
        close_to_tray: true,
        enable_startup: false,
        theme: "system"@,
        language: "en"@,
    }
}

impl Default for Settings {
    fn default() -> (settings: Self)
        ensures
            settings@ == default_settings(),
    {
        Settings {
            work_duration_minutes: 25,
            short_break_duration_minutes: 5,
            long_break_duration_minutes: 15,
            long_break_interval: 4,
            auto_start_breaks: false,
            auto_start_pomodoros: false,
            enable_notifications: true,
            enable_sounds: true,
            sound_volume: Fraction { bits: DEFAULT_VOLUME_BITS },
            work_end_sound: "bell".to_owned(),
            break_end_sound: "chime".to_owned(),
            minimize_to_tray: true,
            start_minimized: false,
            close_to_tray: true,
            enable_startup: false,
            theme: "system".to_owned(),
            language: "en".to_owned(),
        }
    }
}

/// What one synchronization run came to.
#[derive(Debug)]
pub struct SyncResult {
    /// No phase failed.
    pub success: bool,
    /// Tasks created or updated by the run, on either side.
    pub synced_tasks: u32,
    /// Sessions created or updated by the run, on either side.
    pub synced_sessions: u32,
    /// Conflicts settled by the run, over tasks and sessions.
    pub conflicts: u32,
    /// One description for each phase that failed, in the order of the phases.
    pub errors: Vec<String>,
    /// When the run finished.
    pub last_sync: Timestamp,
}

/// What a notification is about.
#[derive(Clone, Copy, Debug, PartialEq, Eq, Structural)]
pub enum NotificationType {
    PomodoroComplete,
    BreakComplete,
    TaskReminder,
    TaskDue,
    DailySummary,
}

impl NotificationType {
    /// The name of the kind as the window reads it.
    pub open spec fn name_text(self) -> Seq<char> {
        match self {
            NotificationType::PomodoroComplete => "pomodoro_complete"@,
            NotificationType::BreakComplete => "break_complete"@,
            NotificationType::TaskReminder => "task_reminder"@,
            NotificationType::TaskDue => "task_due"@,
            NotificationType::DailySummary => "daily_summary"@,
        }
    }

    /// The name of the kind as the window reads it.
    pub fn name(&self) -> (name: &'static str)
        ensures
            name@ == self.name_text(),
    {
        match self {
            NotificationType::PomodoroComplete => "pomodoro_complete",
            NotificationType::BreakComplete => "break_complete",
            NotificationType::TaskReminder => "task_reminder",
            NotificationType::TaskDue => "task_due",
            NotificationType::DailySummary => "daily_summary",
        }
    }
}

/// A notification as it was shown or is to be shown.
#[derive(Debug, Clone)]
pub struct Notification {
    pub id: String,
    pub title: String,
    pub body: String,
    pub icon: Option<String>,
    pub scheduled_at: Timestamp,
    pub delivered_at: Option<Timestamp>,
    pub notification_type: NotificationType,
}

/// A step of a task.
#[derive(Debug, Clone)]
pub struct Subtask {
    pub id: String,
    pub task_id: String,
    pub title: String,
    pub completed: bool,
    pub order: u32,
    pub created_at: Timestamp,
    pub updated_at: Timestamp,
}

/// A note on a task.
#[derive(Debug, Clone)]
pub struct Note {
    pub id: String,
    pub task_id: String,
    pub content: String,
    pub created_at: Timestamp,
    pub updated_at: Timestamp,
}

/// A reminder of a task.
#[derive(Debug, Clone)]
pub struct Reminder {
    pub id: String,
    pub task_id: String,
    pub reminder_time: Timestamp,
    pub message: Option<String>,
    pub completed: bool,
    pub created_at: Timestamp,
    pub updated_at: Timestamp,
}

/// What was done on one day.
#[derive(Debug, Clone)]
pub struct DailySummary {
    pub date: Timestamp,
    pub completed_pomodoros: u32,
    pub completed_tasks: u32,
    pub total_focus_time_minutes: u32,
    pub productivity_score: Fraction,
    pub top_tasks: Vec<String>,
}

} // verus!
