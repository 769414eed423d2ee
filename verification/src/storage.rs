//! What the local store is asked in SQL, and how the settings lie in their
//! table.

use crate::json::{parsed_text_list, text_list_json, text_list_to_json};
use crate::models::{
    lemma_names_read_back, Fraction, PomodoroSession, PomodoroSessionView, SessionType, Settings,
    SettingsView, Task, TaskView,
};
use crate::requests::{
    created_session, created_task, CreateTaskRequest, UpdateSessionRequest,
    UpdateSessionRequestView, UpdateTaskRequest, UpdateTaskRequestView,
};
use crate::rows::{session_of_row, task_of_row, SessionRow, SettingsRow, TaskRow};
use crate::text::{
    decimal, decimal_text, joined, parse_count, parse_truth, parsed_count, parsed_truth,
    same_text, truth, truth_text,
};
use crate::time::{format_instant, parsed_instant, rfc3339_text, Timestamp};
use vstd::prelude::*;

verus! {

/// A statement with the values for its placeholders, in their order.
#[derive(Debug)]
pub struct SqlStatement {
    pub query: String,
    pub params: Vec<String>,
}

/// The columns that a change sets, each with its new value.
pub type Sets = Seq<(Seq<char>, Seq<char>)>;

/// The assignment of `value` to `column`, where there is a value.
pub open spec fn set_clause(column: Seq<char>, value: Option<Seq<char>>) -> Sets {
    match value {
        Some(v) => seq![(column, v)],
        None => Seq::empty(),
    }
}

/// The assignments as they stand after `SET`: `column = ?` for each, with
/// commas between.
pub open spec fn set_list_text(sets: Sets) -> Seq<char>
    decreases sets.len(),
{
    if sets.len() == 0 {
        Seq::empty()
    } else if sets.len() == 1 {
        sets[0].0 + " = ?"@
    } else {
        set_list_text(sets.drop_last()) + ", "@ + sets.last().0 + " = ?"@
    }
}

/// The values of the assignments, in order.
pub open spec fn set_values(sets: Sets) -> Seq<Seq<char>> {
    sets.map_values(|s: (Seq<char>, Seq<char>)| s.1)
}

/// The text of an optional instant.
pub open spec fn optional_rfc3339(at: Option<Timestamp>) -> Option<Seq<char>> {
    match at {
        Some(t) => rfc3339_text(t.seconds, t.nanos),
        None => None,
    }
}

/// An optional instant can be written: it is absent, or it has a text.
pub open spec fn writable(at: Option<Timestamp>) -> bool {
    at is Some ==> optional_rfc3339(at) is Some
}

/// What a change of a task sets at the instant `now`: each field that the
/// change carries, in the order of the fields, and the instant of the
/// change. `None` where an instant or the tags cannot be written.
pub open spec fn task_update_sets(request: UpdateTaskRequestView, now: Timestamp) -> Option<Sets> {
    let tags = match request.tags {
        Some(t) => text_list_json(t),
        None => None,
    };
    if !writable(request.due_date) || (request.tags is Some && tags is None) || rfc3339_text(
        now.seconds,
        now.nanos,
    ) is None {
        None
    } else {
        Some(
            set_clause("title"@, request.title) + set_clause("description"@, request.description)
                + set_clause(
                "status"@,
                match request.status {
                    Some(s) => Some(s.name_text()),
                    None => None,
                },
            ) + set_clause(
                "priority"@,
                match request.priority {
                    Some(p) => Some(p.name_text()),
                    None => None,
                },
            ) + set_clause("due_date"@, optional_rfc3339(request.due_date)) + set_clause(
                "tags"@,
                tags,
            ) + set_clause(
                "estimated_pomodoros"@,
                match request.estimated_pomodoros {
                    Some(n) => Some(decimal_text(n as nat)),
                    None => None,
                },
            ) + set_clause(
                "completed_pomodoros"@,
                match request.completed_pomodoros {
                    Some(n) => Some(decimal_text(n as nat)),
                    None => None,
                },
            ) + seq![("updated_at"@, rfc3339_text(now.seconds, now.nanos)->0)],
        )
    }
}

/// What a change of a session sets at the instant `now`, as
/// `task_update_sets` says it for a task.
pub open spec fn session_update_sets(request: UpdateSessionRequestView, now: Timestamp) -> Option<
    Sets,
> {
    if !writable(request.started_at) || !writable(request.paused_at) || !writable(
        request.completed_at,
    ) || rfc3339_text(now.seconds, now.nanos) is None {
        None
    } else {
        Some(
            set_clause(
                "state"@,
                match request.state {
                    Some(s) => Some(s.name_text()),
                    None => None,
                },
            ) + set_clause(
                "remaining_seconds"@,
                match request.remaining_seconds {
                    Some(n) => Some(decimal_text(n as nat)),
                    None => None,
                },
            ) + set_clause("started_at"@, optional_rfc3339(request.started_at)) + set_clause(
                "paused_at"@,
                optional_rfc3339(request.paused_at),
            ) + set_clause("completed_at"@, optional_rfc3339(request.completed_at)) + set_clause(
                "rating"@,
                match request.rating {
                    Some(n) => Some(decimal_text(n as nat)),
                    None => None,
                },
            ) + set_clause("notes"@, request.notes) + seq![
                ("updated_at"@, rfc3339_text(now.seconds, now.nanos)->0),
            ],
        )
    }
}

/// The statement that sets `sets` in the row `id` of `table`.
pub open spec fn update_query_text(table: Seq<char>, sets: Sets) -> Seq<char> {
    "UPDATE "@ + table + " SET "@ + set_list_text(sets) + " WHERE id = ?"@
}

/// Adds the assignment of `value` to `column`, where there is a value.
fn push_set(sets: &mut Vec<(String, String)>, column: &str, value: Option<String>)
    ensures
        final(sets).deep_view() == old(sets).deep_view() + set_clause(column@, value.deep_view()),
{
    let ghost before = sets.deep_view();
    match value {
        Some(v) => {
            sets.push((column.to_owned(), v));
            assert(sets.deep_view() =~= before + seq![(column@, v@)]);
        },
        None => {
            assert(sets.deep_view() =~= before + Seq::empty());
        },
    }
}

/// Writes an optional instant; the outer `None` says that it cannot be
/// written.
fn write_optional_instant(at: &Option<Timestamp>) -> (text: Option<Option<String>>)
    ensures
        match text {
            Some(t) => writable(*at) && t.deep_view() == optional_rfc3339(*at),
            None => !writable(*at),
        },
{
    match at {
        None => Some(None),
        Some(t) => match format_instant(*t) {
            Some(text) => Some(Some(text)),
            None => None,
        },
    }
}

/// Writes an optional count in decimal.
fn write_optional_count(count: &Option<u32>) -> (text: Option<String>)
    ensures
        text.deep_view() == match *count {
            Some(n) => Some(decimal_text(n as nat)),
            None => None,
        },
{
    match count {
        Some(n) => Some(decimal(*n)),
        None => None,
    }
}

/// The statement that sets `sets` in the row `id` of `table`, with the
/// values and then `id` for its placeholders.
pub fn update_statement(table: &str, sets: Vec<(String, String)>, id: &str) -> (statement:
    SqlStatement)
    ensures
        statement.query@ == update_query_text(table@, sets.deep_view()),
        statement.params.deep_view() == set_values(sets.deep_view()).push(id@),
{
    let mut list = String::new();
    let mut params: Vec<String> = Vec::new();
    let ghost all = sets.deep_view();
    let mut i: usize = 0;
    assert(all.take(0) =~= Seq::empty());
    assert(params.deep_view() =~= set_values(all.take(0)));
    while i < sets.len()
        invariant
            i <= sets.len(),
            all == sets.deep_view(),
            list@ == set_list_text(all.take(i as int)),
            params.deep_view() == set_values(all.take(i as int)),
        decreases sets.len() - i,
    {
        let ghost front = all.take(i as int);
        let ghost next = all.take(i + 1);
        let ghost params_before = params.deep_view();
        assert(next.drop_last() =~= front);
        assert(next.last() == all[i as int]);
        assert(all[i as int] == (sets[i as int].0@, sets[i as int].1@));
        if i > 0 {
            list.append(", ");
        } else {
            assert(front =~= Seq::empty());
            assert(list@ + next[0].0 =~= next[0].0);
        }
        list.append(sets[i].0.as_str());
        list.append(" = ?");
        assert(list@ =~= set_list_text(next));
        params.push(sets[i].1.clone());
        assert(params.deep_view() =~= params_before.push(all[i as int].1));
        assert(params.deep_view() =~= set_values(next));
        i += 1;
    }
    assert(all.take(all.len() as int) =~= all);
    let ghost values = params.deep_view();
    params.push(id.to_owned());
    assert(params.deep_view() =~= values.push(id@));
    let mut query = joined("UPDATE ", table);
    query.append(" SET ");
    query.append(list.as_str());
    query.append(" WHERE id = ?");
    SqlStatement { query, params }
}

/// The columns of a task, as every query for tasks names them.
pub const TASK_COLUMNS: &'static str =
    "id, title, description, status, priority, due_date, tags, estimated_pomodoros, completed_pomodoros, created_at, updated_at";

/// The columns of a session, as every query for sessions names them.
pub const SESSION_COLUMNS: &'static str =
    "id, task_id, session_type, state, duration_minutes, remaining_seconds, started_at, paused_at, completed_at, rating, notes, created_at, updated_at";

/// The condition that a filter adds to a query, where the filter is set.
pub open spec fn filter_text(condition: Seq<char>, value: Option<Seq<char>>) -> Seq<char> {
    match value {
        Some(_) => condition,
        None => Seq::empty(),
    }
}

/// The query for the sessions of a task, from a date on and up to a date,
/// as far as the three filters are set; the newest first.
pub open spec fn sessions_query_text(
    task_id: Option<Seq<char>>,
    start_date: Option<Seq<char>>,
    end_date: Option<Seq<char>>,
) -> Seq<char> {
    "SELECT "@ + SESSION_COLUMNS@ + " FROM pomodoro_sessions WHERE 1=1"@ + filter_text(
        " AND task_id = ?"@,
        task_id,
    ) + filter_text(" AND created_at >= ?"@, start_date) + filter_text(
        " AND created_at <= ?"@,
        end_date,
    ) + " ORDER BY created_at DESC"@
}

/// The value of a filter, where the filter is set.
pub open spec fn filter_value(value: Option<Seq<char>>) -> Seq<Seq<char>> {
    match value {
        Some(v) => seq![v],
        None => Seq::empty(),
    }
}

/// Adds a filter to a query, where the filter is set.
fn push_filter(query: &mut String, params: &mut Vec<String>, condition: &str, value: Option<String>)
    ensures
        final(query)@ == old(query)@ + filter_text(condition@, value.deep_view()),
        final(params).deep_view() == old(params).deep_view() + filter_value(value.deep_view()),
{
    let ghost before = params.deep_view();
    match value {
        Some(v) => {
            query.append(condition);
            params.push(v);
            assert(params.deep_view() =~= before + seq![v@]);
        },
        None => {
            assert(query@ + Seq::<char>::empty() =~= query@);
            assert(params.deep_view() =~= before + Seq::empty());
        },
    }
}

/// The rows in which the settings lie in their table, the volume written
/// as `volume`.
pub open spec fn settings_rows_of(settings: SettingsView, volume: Seq<char>) -> Seq<
    (Seq<char>, Seq<char>),
> {
    seq![
        ("work_duration_minutes"@, decimal_text(settings.work_duration_minutes as nat)),
        (
            "short_break_duration_minutes"@,
            decimal_text(settings.short_break_duration_minutes as nat),
        ),
        ("long_break_duration_minutes"@, decimal_text(settings.long_break_duration_minutes as nat)),
        ("long_break_interval"@, decimal_text(settings.long_break_interval as nat)),
        ("auto_start_breaks"@, truth_text(settings.auto_start_breaks)),
        ("auto_start_pomodoros"@, truth_text(settings.auto_start_pomodoros)),
        ("enable_notifications"@, truth_text(settings.enable_notifications)),
        ("enable_sounds"@, truth_text(settings.enable_sounds)),
        ("sound_volume"@, volume),
        ("work_end_sound"@, settings.work_end_sound),
        ("break_end_sound"@, settings.break_end_sound),
        ("minimize_to_tray"@, truth_text(settings.minimize_to_tray)),
        ("start_minimized"@, truth_text(settings.start_minimized)),
        ("close_to_tray"@, truth_text(settings.close_to_tray)),
        ("enable_startup"@, truth_text(settings.enable_startup)),
        ("theme"@, settings.theme),
        ("language"@, settings.language),
    ]
}

/// The key and the value of each row.
pub open spec fn rows_view(rows: Seq<SettingsRow>) -> Seq<(Seq<char>, Seq<char>)> {
    rows.map_values(|r: SettingsRow| (r.key@, r.value@))
}

fn row(key: &str, value: String) -> (row: SettingsRow)
    ensures
        row.key@ == key@,
        row.value == value,
{
    SettingsRow { key: key.to_owned(), value }
}

/// A count read from its text, or `fallback` where the text writes none.
pub open spec fn count_or(text: Seq<char>, fallback: u32) -> u32 {
    match parsed_count(text) {
        Some(n) => n,
        None => fallback,
    }
}

/// A truth value read from its text, or `fallback` where the text writes
/// none.
pub open spec fn truth_or(text: Seq<char>, fallback: bool) -> bool {
    match parsed_truth(text) {
        Some(b) => b,
        None => fallback,
    }
}

/// The settings after the row `key`, `value` has been read into them: the
/// setting named `key` takes the value, or its default where the text
/// writes no value of its kind. The volume is left to the caller, and a key
/// that names no setting changes nothing.
pub open spec fn settings_with_row(
    settings: SettingsView,
    key: Seq<char>,
    value: Seq<char>,
) -> SettingsView {
    if key == "work_duration_minutes"@ {
        SettingsView { work_duration_minutes: count_or(value, 25), ..settings }
    } else if key == "short_break_duration_minutes"@ {
        SettingsView { short_break_duration_minutes: count_or(value, 5), ..settings }
    } else if key == "long_break_duration_minutes"@ {
        SettingsView { long_break_duration_minutes: count_or(value, 15), ..settings }
    } else if key == "long_break_interval"@ {
        SettingsView { long_break_interval: count_or(value, 4), ..settings }
    } else if key == "auto_start_breaks"@ {
        SettingsView { auto_start_breaks: truth_or(value, false), ..settings }
    } else if key == "auto_start_pomodoros"@ {
        SettingsView { auto_start_pomodoros: truth_or(value, false), ..settings }
    } else if key == "enable_notifications"@ {
        SettingsView { enable_notifications: truth_or(value, true), ..settings }
    } else if key == "enable_sounds"@ {
        SettingsView { enable_sounds: truth_or(value, true), ..settings }
    } else if key == "work_end_sound"@ {
        SettingsView { work_end_sound: value, ..settings }
    } else if key == "break_end_sound"@ {
        SettingsView { break_end_sound: value, ..settings }
    } else if key == "minimize_to_tray"@ {
        SettingsView { minimize_to_tray: truth_or(value, true), ..settings }
    } else if key == "start_minimized"@ {
        SettingsView { start_minimized: truth_or(value, false), ..settings }
    } else if key == "close_to_tray"@ {
        SettingsView { close_to_tray: truth_or(value, true), ..settings }
    } else if key == "enable_startup"@ {
        SettingsView { enable_startup: truth_or(value, false), ..settings }
    } else if key == "theme"@ {
        SettingsView { theme: value, ..settings }
    } else if key == "language"@ {
        SettingsView { language: value, ..settings }
    } else {
        settings
    }
}

fn read_count(text: &str, fallback: u32) -> (count: u32)
    ensures
        count == count_or(text@, fallback),
{
    match parse_count(text) {
        Some(n) => n,
        None => fallback,
    }
}

fn read_truth(text: &str, fallback: bool) -> (flag: bool)
    ensures
        flag == truth_or(text@, fallback),
{
    match parse_truth(text) {
        Some(b) => b,
        None => fallback,
    }
}

/// Reads one row of the table of settings into `settings`. The result
/// tells whether the row holds the volume, which is left to the caller.
pub fn read_settings_row(settings: &mut Settings, key: &str, value: String) -> (is_volume: bool)
    ensures
        final(settings)@ == settings_with_row(old(settings)@, key@, value@),
        is_volume == (key@ == "sound_volume"@),
{
    if same_text(key, "work_duration_minutes") {
        settings.work_duration_minutes = read_count(value.as_str(), 25);
    } else if same_text(key, "short_break_duration_minutes") {
        settings.short_break_duration_minutes = read_count(value.as_str(), 5);
    } else if same_text(key, "long_break_duration_minutes") {
        settings.long_break_duration_minutes = read_count(value.as_str(), 15);
    } else if same_text(key, "long_break_interval") {
        settings.long_break_interval = read_count(value.as_str(), 4);
    } else if same_text(key, "auto_start_breaks") {
        settings.auto_start_breaks = read_truth(value.as_str(), false);
    } else if same_text(key, "auto_start_pomodoros") {
        settings.auto_start_pomodoros = read_truth(value.as_str(), false);
    } else if same_text(key, "enable_notifications") {
        settings.enable_notifications = read_truth(value.as_str(), true);
    } else if same_text(key, "enable_sounds") {
        settings.enable_sounds = read_truth(value.as_str(), true);
    } else if same_text(key, "work_end_sound") {
        settings.work_end_sound = value;
    } else if same_text(key, "break_end_sound") {
        settings.break_end_sound = value;
    } else if same_text(key, "minimize_to_tray") {
        settings.minimize_to_tray = read_truth(value.as_str(), true);
    } else if same_text(key, "start_minimized") {
        settings.start_minimized = read_truth(value.as_str(), false);
    } else if same_text(key, "close_to_tray") {
        settings.close_to_tray = read_truth(value.as_str(), true);
    } else if same_text(key, "enable_startup") {
        settings.enable_startup = read_truth(value.as_str(), false);
    } else if same_text(key, "theme") {
        settings.theme = value;
    } else if same_text(key, "language") {
        settings.language = value;
    }
    same_text(key, "sound_volume")
}

/// The settings after `rows` have been read into them, one after the
/// other.
pub open spec fn settings_with_rows(settings: SettingsView, rows: Seq<(Seq<char>, Seq<char>)>) -> SettingsView
    decreases rows.len(),
{
    if rows.len() == 0 {
        settings
    } else {
        settings_with_row(
            settings_with_rows(settings, rows.drop_last()),
            rows.last().0,
            rows.last().1,
        )
    }
}

/// A value for a placeholder of a statement.
#[derive(Debug)]
pub enum SqlValue {
    Null,
    Text(String),
    Integer(i64),
}

/// What a value for a placeholder holds.
pub enum SqlValueView {
    Null,
    Text(Seq<char>),
    Integer(i64),
}

impl View for SqlValue {
    type V = SqlValueView;

    open spec fn view(&self) -> SqlValueView {
        match *self {
            SqlValue::Null => SqlValueView::Null,
            SqlValue::Text(t) => SqlValueView::Text(t@),
            SqlValue::Integer(i) => SqlValueView::Integer(i),
        }
    }
}

/// The views of `values`, in order.
pub open spec fn values_view(values: Seq<SqlValue>) -> Seq<SqlValueView> {
    values.map_values(|v: SqlValue| v@)
}

/// An insertion with the values for its placeholders, in their order.
#[derive(Debug)]
pub struct SqlInsert {
    pub query: &'static str,
    pub params: Vec<SqlValue>,
}

/// The insertion of a task that is new to the table.
pub const INSERT_TASK: &'static str =
    "INSERT INTO tasks (id, title, description, status, priority, due_date, tags, estimated_pomodoros, completed_pomodoros, created_at, updated_at) VALUES (?1, ?2, ?3, ?4, ?5, ?6, ?7, ?8, ?9, ?10, ?11)";

/// The insertion of a task in place of the row with its identifier, if
/// there is one.
pub const REPLACE_TASK: &'static str =
    "INSERT OR REPLACE INTO tasks (id, title, description, status, priority, due_date, tags, estimated_pomodoros, completed_pomodoros, created_at, updated_at) VALUES (?1, ?2, ?3, ?4, ?5, ?6, ?7, ?8, ?9, ?10, ?11)";

/// The insertion of a session that is new to the table.
pub const INSERT_SESSION: &'static str =
    "INSERT INTO pomodoro_sessions (id, task_id, session_type, state, duration_minutes, remaining_seconds, started_at, paused_at, completed_at, rating, notes, created_at, updated_at) VALUES (?1, ?2, ?3, ?4, ?5, ?6, ?7, ?8, ?9, ?10, ?11, ?12, ?13)";

/// The insertion of a session in place of the row with its identifier, if
/// there is one.
pub const REPLACE_SESSION: &'static str =
    "INSERT OR REPLACE INTO pomodoro_sessions (id, task_id, session_type, state, duration_minutes, remaining_seconds, started_at, paused_at, completed_at, rating, notes, created_at, updated_at) VALUES (?1, ?2, ?3, ?4, ?5, ?6, ?7, ?8, ?9, ?10, ?11, ?12, ?13)";

/// An optional text as a value: absent, it is null.
pub open spec fn text_or_null(text: Option<Seq<char>>) -> SqlValueView {
    match text {
        Some(t) => SqlValueView::Text(t),
        None => SqlValueView::Null,
    }
}

/// The values of the row of a task, in the order of its columns. `None`
/// where an instant or the tags cannot be written.
pub open spec fn task_row_values(task: TaskView) -> Option<Seq<SqlValueView>> {
    let created = rfc3339_text(task.created_at.seconds, task.created_at.nanos);
    let updated = rfc3339_text(task.updated_at.seconds, task.updated_at.nanos);
    let tags = text_list_json(task.tags);
    if !writable(task.due_date) || tags is None || created is None || updated is None {
        None
    } else {
        Some(
            seq![
                SqlValueView::Text(task.id),
                SqlValueView::Text(task.title),
                text_or_null(task.description),
                SqlValueView::Text(task.status.name_text()),
                SqlValueView::Text(task.priority.name_text()),
                text_or_null(optional_rfc3339(task.due_date)),
                SqlValueView::Text(tags->0),
                SqlValueView::Integer(task.estimated_pomodoros as i64),
                SqlValueView::Integer(task.completed_pomodoros as i64),
                SqlValueView::Text(created->0),
                SqlValueView::Text(updated->0),
            ],
        )
    }
}

/// The values of the row of a session, in the order of its columns. `None`
/// where an instant cannot be written.
pub open spec fn session_row_values(session: PomodoroSessionView) -> Option<Seq<SqlValueView>> {
    let created = rfc3339_text(session.created_at.seconds, session.created_at.nanos);
    let updated = rfc3339_text(session.updated_at.seconds, session.updated_at.nanos);
    if !writable(session.started_at) || !writable(session.paused_at) || !writable(
        session.completed_at,
    ) || created is None || updated is None {
        None
    } else {
        Some(
            seq![
                SqlValueView::Text(session.id),
                text_or_null(session.task_id),
                SqlValueView::Text(session.session_type.name_text()),
                SqlValueView::Text(session.state.name_text()),
                SqlValueView::Integer(session.duration_minutes as i64),
                SqlValueView::Integer(session.remaining_seconds as i64),
                text_or_null(optional_rfc3339(session.started_at)),
                text_or_null(optional_rfc3339(session.paused_at)),
                text_or_null(optional_rfc3339(session.completed_at)),
                match session.rating {
                    Some(r) => SqlValueView::Integer(r as i64),
                    None => SqlValueView::Null,
                },
                text_or_null(session.notes),
                SqlValueView::Text(created->0),
                SqlValueView::Text(updated->0),
            ],
        )
    }
}

fn nullable(text: Option<String>) -> (value: SqlValue)
    ensures
        value@ == text_or_null(text.deep_view()),
{
    match text {
        Some(t) => SqlValue::Text(t),
        None => SqlValue::Null,
    }
}

/// The insertion of the row of `task`, which holds the task whole: as a new
/// row, or with `replace` in place of the row with its identifier, which is
/// what a command of a reconciliation asks of the local store. `None`
/// where an instant or the tags cannot be written.
pub fn insert_task(task: &Task, replace: bool) -> (insert: Option<SqlInsert>)
    ensures
        match task_row_values(task@) {
            Some(values) => insert matches Some(i) && values_view(i.params@) == values && i.query@
                == (if replace {
                REPLACE_TASK@
            } else {
                INSERT_TASK@
            }),
            None => insert is None,
        },
{
    let due = match write_optional_instant(&task.due_date) {
        Some(text) => text,
        None => {
            return None;
        },
    };
    let tags = match text_list_to_json(&task.tags) {
        Some(text) => text,
        None => {
            return None;
        },
    };
    let created = match format_instant(task.created_at) {
        Some(text) => text,
        None => {
            return None;
        },
    };
    let updated = match format_instant(task.updated_at) {
        Some(text) => text,
        None => {
            return None;
        },
    };
    let mut params: Vec<SqlValue> = Vec::new();
    params.push(SqlValue::Text(task.id.clone()));
    params.push(SqlValue::Text(task.title.clone()));
    params.push(nullable(task.description.clone()));
    params.push(SqlValue::Text(task.status.name().to_owned()));
    params.push(SqlValue::Text(task.priority.name().to_owned()));
    params.push(nullable(due));
    params.push(SqlValue::Text(tags));
    params.push(SqlValue::Integer(task.estimated_pomodoros as i64));
    params.push(SqlValue::Integer(task.completed_pomodoros as i64));
    params.push(SqlValue::Text(created));
    params.push(SqlValue::Text(updated));
    assert(values_view(params@) =~= task_row_values(task@)->0);
    Some(
        SqlInsert {
            query: if replace {
                REPLACE_TASK
            } else {
                INSERT_TASK
            },
            params,
        },
    )
}

/// The insertion of the row of `session`, which holds the session whole:
/// as a new row, or with `replace` in place of the row with its identifier,
/// which is what a command of a reconciliation asks of the local store.
/// `None` where an instant cannot be written.
pub fn insert_session(session: &PomodoroSession, replace: bool) -> (insert: Option<SqlInsert>)
    ensures
        match session_row_values(session@) {
            Some(values) => insert matches Some(i) && values_view(i.params@) == values && i.query@
                == (if replace {
                REPLACE_SESSION@
            } else {
                INSERT_SESSION@
            }),
            None => insert is None,
        },
{
    let started = match write_optional_instant(&session.started_at) {
        Some(text) => text,
        None => {
            return None;
        },
    };
    let paused = match write_optional_instant(&session.paused_at) {
        Some(text) => text,
        None => {
            return None;
        },
    };
    let completed = match write_optional_instant(&session.completed_at) {
        Some(text) => text,
        None => {
            return None;
        },
    };
    let created = match format_instant(session.created_at) {
        Some(text) => text,
        None => {
            return None;
        },
    };
    let updated = match format_instant(session.updated_at) {
        Some(text) => text,
        None => {
            return None;
        },
    };
    let mut params: Vec<SqlValue> = Vec::new();
    params.push(SqlValue::Text(session.id.clone()));
    params.push(nullable(session.task_id.clone()));
    params.push(SqlValue::Text(session.session_type.name().to_owned()));
    params.push(SqlValue::Text(session.state.name().to_owned()));
    params.push(SqlValue::Integer(session.duration_minutes as i64));
    params.push(SqlValue::Integer(session.remaining_seconds as i64));
    params.push(nullable(started));
    params.push(nullable(paused));
    params.push(nullable(completed));
    params.push(
        match session.rating {
            Some(r) => SqlValue::Integer(r as i64),
            None => SqlValue::Null,
        },
    );
    params.push(nullable(session.notes.clone()));
    params.push(SqlValue::Text(created));
    params.push(SqlValue::Text(updated));
    assert(values_view(params@) =~= session_row_values(session@)->0);
    Some(
        SqlInsert {
            query: if replace {
                REPLACE_SESSION
            } else {
                INSERT_SESSION
            },
            params,
        },
    )
}

/// The instant reads back: chrono reads out of the text that it writes for
/// the instant the instant itself.
pub open spec fn reads_back(at: Timestamp) -> bool {
    match rfc3339_text(at.seconds, at.nanos) {
        Some(text) => parsed_instant(text) == Some((at.seconds, at.nanos)),
        None => false,
    }
}

/// The optional instant is absent or reads back.
pub open spec fn optional_reads_back(at: Option<Timestamp>) -> bool {
    match at {
        Some(t) => reads_back(t),
        None => true,
    }
}

/// The tags read back: serde_json reads out of the text that it writes for
/// the tags the tags themselves.
pub open spec fn tags_read_back(tags: Seq<Seq<char>>) -> bool {
    match text_list_json(tags) {
        Some(text) => parsed_text_list(text) == Some(tags),
        None => false,
    }
}

/// The row of the table of tasks holds `values`, column by column.
pub open spec fn task_row_holds(row: TaskRow, values: Seq<SqlValueView>) -> bool {
    &&& values.len() == 11
    &&& values[0] == SqlValueView::Text(row.id@)
    &&& values[1] == SqlValueView::Text(row.title@)
    &&& values[2] == text_or_null(row.description.deep_view())
    &&& values[3] == SqlValueView::Text(row.status@)
    &&& values[4] == SqlValueView::Text(row.priority@)
    &&& values[5] == text_or_null(row.due_date.deep_view())
    &&& values[6] == SqlValueView::Text(row.tags@)
    &&& values[7] == SqlValueView::Integer(row.estimated_pomodoros as i64)
    &&& values[8] == SqlValueView::Integer(row.completed_pomodoros as i64)
    &&& values[9] == SqlValueView::Text(row.created_at@)
    &&& values[10] == SqlValueView::Text(row.updated_at@)
}

/// The row of the table of sessions holds `values`, column by column.
pub open spec fn session_row_holds(row: SessionRow, values: Seq<SqlValueView>) -> bool {
    &&& values.len() == 13
    &&& values[0] == SqlValueView::Text(row.id@)
    &&& values[1] == text_or_null(row.task_id.deep_view())
    &&& values[2] == SqlValueView::Text(row.session_type@)
    &&& values[3] == SqlValueView::Text(row.state@)
    &&& values[4] == SqlValueView::Integer(row.duration_minutes as i64)
    &&& values[5] == SqlValueView::Integer(row.remaining_seconds as i64)
    &&& values[6] == text_or_null(row.started_at.deep_view())
    &&& values[7] == text_or_null(row.paused_at.deep_view())
    &&& values[8] == text_or_null(row.completed_at.deep_view())
    &&& values[9] == match row.rating {
        Some(r) => SqlValueView::Integer(r as i64),
        None => SqlValueView::Null,
    }
    &&& values[10] == text_or_null(row.notes.deep_view())
    &&& values[11] == SqlValueView::Text(row.created_at@)
    &&& values[12] == SqlValueView::Text(row.updated_at@)
}

/// What is written of a task reads back as the task: a row that holds the
/// values written for the task stands for the task in every field,
/// identifier, status, priority and timestamps included, whatever the
/// fallbacks, wherever its instants and its tags read back.
pub proof fn law_task_row_reads_back(
    task: TaskView,
    row: TaskRow,
    created_fallback: Timestamp,
    updated_fallback: Timestamp,
)
    ensures
        ({
            &&& task_row_values(task) matches Some(values)
            &&& task_row_holds(row, values)
            &&& reads_back(task.created_at)
            &&& reads_back(task.updated_at)
            &&& optional_reads_back(task.due_date)
            &&& tags_read_back(task.tags)
        }) ==> task_of_row(row, created_fallback, updated_fallback) == task,
{
    lemma_names_read_back(
        task.status,
        task.priority,
        crate::models::SessionType::Work,
        crate::models::SessionState::Ready,
    );
}

/// What is written of a session reads back as the session, as
/// `law_task_row_reads_back` says it of a task.
pub proof fn law_session_row_reads_back(
    session: PomodoroSessionView,
    row: SessionRow,
    created_fallback: Timestamp,
    updated_fallback: Timestamp,
)
    ensures
        ({
            &&& session_row_values(session) matches Some(values)
            &&& session_row_holds(row, values)
            &&& reads_back(session.created_at)
            &&& reads_back(session.updated_at)
            &&& optional_reads_back(session.started_at)
            &&& optional_reads_back(session.paused_at)
            &&& optional_reads_back(session.completed_at)
        }) ==> session_of_row(row, created_fallback, updated_fallback) == session,
{
    lemma_names_read_back(
        crate::models::TaskStatus::Pending,
        crate::models::TaskPriority::Low,
        session.session_type,
        session.state,
    );
}

/// What the local store is asked: the statements for each of its
/// operations, and how its rows are read.
#[derive(Clone, Copy, Debug)]
pub struct StorageManager;

impl StorageManager {
    pub fn new() -> (manager: Self)
        ensures
            manager == StorageManager,
    {
        StorageManager
    }

    /// The query for all tasks, the one changed last first.
    pub fn get_all_tasks(&self) -> (query: String)
        ensures
            query@ == "SELECT "@ + TASK_COLUMNS@ + " FROM tasks ORDER BY updated_at DESC"@,
    {
        let mut query = joined("SELECT ", TASK_COLUMNS);
        query.append(" FROM tasks ORDER BY updated_at DESC");
        query
    }

    /// The query for the task `task_id`.
    pub fn get_task_by_id(&self, task_id: &str) -> (statement: SqlStatement)
        ensures
            statement.query@ == "SELECT "@ + TASK_COLUMNS@ + " FROM tasks WHERE id = ?1"@,
            statement.params.deep_view() == seq![task_id@],
    {
        let mut query = joined("SELECT ", TASK_COLUMNS);
        query.append(" FROM tasks WHERE id = ?1");
        let mut params: Vec<String> = Vec::new();
        params.push(task_id.to_owned());
        assert(params.deep_view() =~= seq![task_id@]);
        SqlStatement { query, params }
    }

    /// The task that `request` creates under the identifier `id` at the
    /// instant `now`, and the insertion of its row; no insertion where an
    /// instant or the tags cannot be written.
    pub fn create_task(&self, request: CreateTaskRequest, id: String, now: Timestamp) -> (created: (
        Task,
        Option<SqlInsert>,
    ))
        ensures
            created.0@ == created_task(request@, id@, now),
            match task_row_values(created.0@) {
                Some(values) => created.1 matches Some(i) && values_view(i.params@) == values
                    && i.query@ == INSERT_TASK@,
                None => created.1 is None,
            },
    {
        let task = Task::create(request, id, now);
        let insert = insert_task(&task, false);
        (task, insert)
    }

    /// The statement that takes the task `task_id` out of its table.
    pub fn delete_task(&self, task_id: &str) -> (statement: SqlStatement)
        ensures
            statement.query@ == "DELETE FROM tasks WHERE id = ?1"@,
            statement.params.deep_view() == seq![task_id@],
    {
        let mut params: Vec<String> = Vec::new();
        params.push(task_id.to_owned());
        assert(params.deep_view() =~= seq![task_id@]);
        SqlStatement { query: "DELETE FROM tasks WHERE id = ?1".to_owned(), params }
    }

    /// The session of the kind and duration given that is created under
    /// the identifier `id` at the instant `now`, and the insertion of its
    /// row; no insertion where the instant cannot be written. The duration
    /// in seconds has to fit the counter of remaining seconds.
    pub fn create_pomodoro_session(
        &self,
        id: String,
        task_id: Option<String>,
        session_type: SessionType,
        duration_minutes: u32,
        now: Timestamp,
    ) -> (created: (PomodoroSession, Option<SqlInsert>))
        requires
            duration_minutes * 60 <= u32::MAX,
        ensures
            created.0@ == created_session(
                id@,
                task_id.deep_view(),
                session_type,
                duration_minutes,
                now,
            ),
            match session_row_values(created.0@) {
                Some(values) => created.1 matches Some(i) && values_view(i.params@) == values
                    && i.query@ == INSERT_SESSION@,
                None => created.1 is None,
            },
    {
        let session = PomodoroSession::create(id, task_id, session_type, duration_minutes, now);
        let insert = insert_session(&session, false);
        (session, insert)
    }

    /// The query for the session `session_id`.
    pub fn get_pomodoro_session_by_id(&self, session_id: &str) -> (statement: SqlStatement)
        ensures
            statement.query@ == "SELECT "@ + SESSION_COLUMNS@
                + " FROM pomodoro_sessions WHERE id = ?1"@,
            statement.params.deep_view() == seq![session_id@],
    {
        let mut query = joined("SELECT ", SESSION_COLUMNS);
        query.append(" FROM pomodoro_sessions WHERE id = ?1");
        let mut params: Vec<String> = Vec::new();
        params.push(session_id.to_owned());
        assert(params.deep_view() =~= seq![session_id@]);
        SqlStatement { query, params }
    }

    /// The statement that changes the task `task_id` as `request` says, at the
    /// instant `now`. `None` where an instant or the tags cannot be written.
    pub fn update_task(&self, task_id: &str, request: &UpdateTaskRequest, now: Timestamp) -> (statement:
        Option<SqlStatement>)
        ensures
            match task_update_sets(request@, now) {
                Some(sets) => statement matches Some(s) && s.query@ == update_query_text(
                    "tasks"@,
                    sets,
                ) && s.params.deep_view() == set_values(sets).push(task_id@),
                None => statement is None,
            },
    {
        let due = match write_optional_instant(&request.due_date) {
            Some(due) => due,
            None => {
                return None;
            },
        };
        let tags = match &request.tags {
            Some(tags) => match text_list_to_json(tags) {
                Some(text) => Some(text),
                None => {
                    return None;
                },
            },
            None => None,
        };
        let now_text = match format_instant(now) {
            Some(text) => text,
            None => {
                return None;
            },
        };
        let mut sets: Vec<(String, String)> = Vec::new();
        assert(sets.deep_view() =~= Seq::empty());
        push_set(&mut sets, "title", request.title.clone());
        push_set(&mut sets, "description", request.description.clone());
        push_set(
            &mut sets,
            "status",
            match request.status {
                Some(s) => Some(s.name().to_owned()),
                None => None,
            },
        );
        push_set(
            &mut sets,
            "priority",
            match request.priority {
                Some(p) => Some(p.name().to_owned()),
                None => None,
            },
        );
        push_set(&mut sets, "due_date", due);
        push_set(&mut sets, "tags", tags);
        push_set(&mut sets, "estimated_pomodoros", write_optional_count(&request.estimated_pomodoros));
        push_set(&mut sets, "completed_pomodoros", write_optional_count(&request.completed_pomodoros));
        push_set(&mut sets, "updated_at", Some(now_text));
        assert(sets.deep_view() =~= task_update_sets(request@, now)->0);
        Some(update_statement("tasks", sets, task_id))
    }

    /// The statement that changes the session `session_id` as `request` says,
    /// at the instant `now`. `None` where an instant cannot be written.
    pub fn update_pomodoro_session(&self, session_id: &str, request: &UpdateSessionRequest, now: Timestamp) -> (statement:
        Option<SqlStatement>)
        ensures
            match session_update_sets(request@, now) {
                Some(sets) => statement matches Some(s) && s.query@ == update_query_text(
                    "pomodoro_sessions"@,
                    sets,
                ) && s.params.deep_view() == set_values(sets).push(session_id@),
                None => statement is None,
            },
    {
        let started = match write_optional_instant(&request.started_at) {
            Some(text) => text,
            None => {
                return None;
            },
        };
        let paused = match write_optional_instant(&request.paused_at) {
            Some(text) => text,
            None => {
                return None;
            },
        };
        let completed = match write_optional_instant(&request.completed_at) {
            Some(text) => text,
            None => {
                return None;
            },
        };
        let now_text = match format_instant(now) {
            Some(text) => text,
            None => {
                return None;
            },
        };
        let mut sets: Vec<(String, String)> = Vec::new();
        assert(sets.deep_view() =~= Seq::empty());
        push_set(
            &mut sets,
            "state",
            match request.state {
                Some(s) => Some(s.name().to_owned()),
                None => None,
            },
        );
        push_set(&mut sets, "remaining_seconds", write_optional_count(&request.remaining_seconds));
        push_set(&mut sets, "started_at", started);
        push_set(&mut sets, "paused_at", paused);
        push_set(&mut sets, "completed_at", completed);
        push_set(&mut sets, "rating", write_optional_count(&request.rating));
        push_set(&mut sets, "notes", request.notes.clone());
        push_set(&mut sets, "updated_at", Some(now_text));
        assert(sets.deep_view() =~= session_update_sets(request@, now)->0);
        Some(update_statement("pomodoro_sessions", sets, session_id))
    }

    /// The query for the sessions that pass the filters that are set.
    pub fn get_pomodoro_sessions(
        &self,
        task_id: Option<String>,
        start_date: Option<String>,
        end_date: Option<String>,
    ) -> (statement: SqlStatement)
        ensures
            statement.query@ == sessions_query_text(
                task_id.deep_view(),
                start_date.deep_view(),
                end_date.deep_view(),
            ),
            statement.params.deep_view() == filter_value(task_id.deep_view()) + filter_value(
                start_date.deep_view(),
            ) + filter_value(end_date.deep_view()),
    {
        let mut query = joined("SELECT ", SESSION_COLUMNS);
        query.append(" FROM pomodoro_sessions WHERE 1=1");
        let mut params: Vec<String> = Vec::new();
        assert(params.deep_view() =~= Seq::empty());
        push_filter(&mut query, &mut params, " AND task_id = ?", task_id);
        push_filter(&mut query, &mut params, " AND created_at >= ?", start_date);
        push_filter(&mut query, &mut params, " AND created_at <= ?", end_date);
        query.append(" ORDER BY created_at DESC");
        assert(params.deep_view() =~= filter_value(task_id.deep_view()) + filter_value(
            start_date.deep_view(),
        ) + filter_value(end_date.deep_view()));
        SqlStatement { query, params }
    }

    /// The rows in which `settings` lie in their table. The volume is written
    /// by the caller, who knows how to write fractions.
    pub fn update_settings(&self, settings: &Settings, volume: String) -> (rows: Vec<SettingsRow>)
        ensures
            rows_view(rows@) == settings_rows_of(settings@, volume@),
    {
        let mut rows: Vec<SettingsRow> = Vec::new();
        rows.push(row("work_duration_minutes", decimal(settings.work_duration_minutes)));
        rows.push(row("short_break_duration_minutes", decimal(settings.short_break_duration_minutes)));
        rows.push(row("long_break_duration_minutes", decimal(settings.long_break_duration_minutes)));
        rows.push(row("long_break_interval", decimal(settings.long_break_interval)));
        rows.push(row("auto_start_breaks", truth(settings.auto_start_breaks).to_owned()));
        rows.push(row("auto_start_pomodoros", truth(settings.auto_start_pomodoros).to_owned()));
        rows.push(row("enable_notifications", truth(settings.enable_notifications).to_owned()));
        rows.push(row("enable_sounds", truth(settings.enable_sounds).to_owned()));
        rows.push(row("sound_volume", volume));
        rows.push(row("work_end_sound", settings.work_end_sound.clone()));
        rows.push(row("break_end_sound", settings.break_end_sound.clone()));
        rows.push(row("minimize_to_tray", truth(settings.minimize_to_tray).to_owned()));
        rows.push(row("start_minimized", truth(settings.start_minimized).to_owned()));
        rows.push(row("close_to_tray", truth(settings.close_to_tray).to_owned()));
        rows.push(row("enable_startup", truth(settings.enable_startup).to_owned()));
        rows.push(row("theme", settings.theme.clone()));
        rows.push(row("language", settings.language.clone()));
        assert(rows_view(rows@) =~= settings_rows_of(settings@, volume@));
        rows
    }

    /// The settings that `rows` hold over the defaults, but for the volume:
    /// that is `volume`, which the caller has read from the rows.
    pub fn get_settings(&self, rows: Vec<SettingsRow>, volume: Fraction) -> (settings: Settings)
        ensures
            settings@ == (SettingsView {
                sound_volume: volume,
                ..settings_with_rows(crate::models::default_settings(), rows_view(rows@))
            }),
    {
        let mut settings = Settings::default();
        let ghost all = rows_view(rows@);
        assert(all.take(0) =~= Seq::empty());
        for row in iter: rows
            invariant
                all == rows_view(iter.seq()),
                settings@ == settings_with_rows(
                    crate::models::default_settings(),
                    all.take(iter.index()),
                ),
        {
            assert(all.take(iter.index() + 1).drop_last() =~= all.take(iter.index()));
            assert(all.take(iter.index() + 1).last() == (row.key@, row.value@));
            let SettingsRow { key, value } = row;
            let _ = read_settings_row(&mut settings, key.as_str(), value);
        }
        assert(all.take(all.len() as int) =~= all);
        settings.sound_volume = volume;
        settings
    }
}

} // verus!
