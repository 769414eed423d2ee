//! What is handed to the local store to create or change a record.

use crate::models::{
    PomodoroSession, PomodoroSessionView, SessionState, SessionType, Task, TaskPriority,
    TaskStatus, TaskView,
};
use crate::time::Timestamp;
use vstd::prelude::*;

verus! {

/// The fields from which the local store creates a task.
#[derive(Debug)]
pub struct CreateTaskRequest {
    pub title: String,
    pub description: Option<String>,
    pub priority: Option<TaskPriority>,
    pub due_date: Option<Timestamp>,
    pub tags: Option<Vec<String>>,
    pub estimated_pomodoros: Option<u32>,
}

/// Everything a request to create a task holds.
pub struct CreateTaskRequestView {
    pub title: Seq<char>,
    pub description: Option<Seq<char>>,
    pub priority: Option<TaskPriority>,
    pub due_date: Option<Timestamp>,
    pub tags: Option<Seq<Seq<char>>>,
    pub estimated_pomodoros: Option<u32>,
}

impl View for CreateTaskRequest {
    type V = CreateTaskRequestView;

    open spec fn view(&self) -> CreateTaskRequestView {
        CreateTaskRequestView {
            title: self.title@,
            description: self.description.deep_view(),
            priority: self.priority,
            due_date: self.due_date,
            tags: self.tags.deep_view(),
            estimated_pomodoros: self.estimated_pomodoros,
        }
    }
}

/// The fields of a task that the local store is to change; an absent field
/// stays as it is.
#[derive(Debug)]
pub struct UpdateTaskRequest {
    pub title: Option<String>,
    pub description: Option<String>,
    pub status: Option<TaskStatus>,
    pub priority: Option<TaskPriority>,
    pub due_date: Option<Timestamp>,
    pub tags: Option<Vec<String>>,
    pub estimated_pomodoros: Option<u32>,
    pub completed_pomodoros: Option<u32>,
}

/// Everything a request to change a task holds.
pub struct UpdateTaskRequestView {
    pub title: Option<Seq<char>>,
    pub description: Option<Seq<char>>,
    pub status: Option<TaskStatus>,
    pub priority: Option<TaskPriority>,
    pub due_date: Option<Timestamp>,
    pub tags: Option<Seq<Seq<char>>>,
    pub estimated_pomodoros: Option<u32>,
    pub completed_pomodoros: Option<u32>,
}

impl View for UpdateTaskRequest {
    type V = UpdateTaskRequestView;

    open spec fn view(&self) -> UpdateTaskRequestView {
        UpdateTaskRequestView {
            title: self.title.deep_view(),
            description: self.description.deep_view(),
            status: self.status,
            priority: self.priority,
            due_date: self.due_date,
            tags: self.tags.deep_view(),
            estimated_pomodoros: self.estimated_pomodoros,
            completed_pomodoros: self.completed_pomodoros,
        }
    }
}

/// The fields of a session that the local store is to change; an absent
/// field stays as it is.
#[derive(Debug)]
pub struct UpdateSessionRequest {
    pub state: Option<SessionState>,
    pub remaining_seconds: Option<u32>,
    pub started_at: Option<Timestamp>,
    pub paused_at: Option<Timestamp>,
    pub completed_at: Option<Timestamp>,
    pub rating: Option<u32>,
    pub notes: Option<String>,
}

/// Everything a request to change a session holds.
pub struct UpdateSessionRequestView {
    pub state: Option<SessionState>,
    pub remaining_seconds: Option<u32>,
    pub started_at: Option<Timestamp>,
    pub paused_at: Option<Timestamp>,
    pub completed_at: Option<Timestamp>,
    pub rating: Option<u32>,
    pub notes: Option<Seq<char>>,
}

impl View for UpdateSessionRequest {
    type V = UpdateSessionRequestView;

    open spec fn view(&self) -> UpdateSessionRequestView {
        UpdateSessionRequestView {
            state: self.state,
            remaining_seconds: self.remaining_seconds,
            started_at: self.started_at,
            paused_at: self.paused_at,
            completed_at: self.completed_at,
            rating: self.rating,
            notes: self.notes.deep_view(),
        }
    }
}

/// The task that the local store creates from `request` under the
/// identifier `id` at the instant `now`: pending, with nothing completed,
/// of medium priority, without tags and estimated at one unit where the
/// request leaves these open.
pub open spec fn created_task(request: CreateTaskRequestView, id: Seq<char>, now: Timestamp) -> TaskView {
    TaskView {
        id,
        title: request.title,
        description: request.description,
        status: TaskStatus::Pending,
        priority: match request.priority {
            Some(p) => p,
            None => TaskPriority::Medium,
        },
        due_date: request.due_date,
        tags: match request.tags {
            Some(t) => t,
            None => Seq::empty(),
        },
        estimated_pomodoros: match request.estimated_pomodoros {
            Some(n) => n,
            None => 1,
        },
        completed_pomodoros: 0,
        created_at: now,
        updated_at: now,
    }
}

/// The session that the local store creates: ready, with the whole duration
/// remaining.
pub open spec fn created_session(
    id: Seq<char>,
    task_id: Option<Seq<char>>,
    session_type: SessionType,
    duration_minutes: u32,
    now: Timestamp,
) -> PomodoroSessionView {
    PomodoroSessionView {
        id,
        task_id,
        session_type,
        state: SessionState::Ready,
        duration_minutes,
        remaining_seconds: (duration_minutes * 60) as u32,
        started_at: None,
        paused_at: None,
        completed_at: None,
        rating: None,
        notes: None,
        created_at: now,
        updated_at: now,
    }
}

impl Task {
    /// The task that the local store creates from `request` under the
    /// identifier `id` at the instant `now`.
    pub fn create(request: CreateTaskRequest, id: String, now: Timestamp) -> (task: Task)
        ensures
            task@ == created_task(request@, id@, now),
    {
        let tags = match request.tags {
            Some(tags) => tags,
            None => {
                let none: Vec<String> = Vec::new();
                assert(none.deep_view() =~= Seq::<Seq<char>>::empty());
                none
            },
        };
        Task {
            id,
            title: request.title,
            description: request.description,
            status: TaskStatus::Pending,
            priority: match request.priority {
                Some(p) => p,
                None => TaskPriority::Medium,
            },
            due_date: request.due_date,
            tags,
            estimated_pomodoros: match request.estimated_pomodoros {
                Some(n) => n,
                None => 1,
            },
            completed_pomodoros: 0,
            created_at: now,
            updated_at: now,
        }
    }
}

impl PomodoroSession {
    /// The session that the local store creates under the identifier `id`
    /// at the instant `now`. The duration in seconds has to fit the counter
    /// of remaining seconds.
    pub fn create(
        id: String,
        task_id: Option<String>,
        session_type: SessionType,
        duration_minutes: u32,
        now: Timestamp,
    ) -> (session: PomodoroSession)
        requires
            duration_minutes * 60 <= u32::MAX,
        ensures
            session@ == created_session(
                id@,
                task_id.deep_view(),
                session_type,
                duration_minutes,
                now,
            ),
    {
        PomodoroSession {
            id,
            task_id,
            session_type,
            state: SessionState::Ready,
            duration_minutes,
            remaining_seconds: duration_minutes * 60,
            started_at: None,
            paused_at: None,
            completed_at: None,
            rating: None,
            notes: None,
            created_at: now,
            updated_at: now,
        }
    }
}

} // verus!
