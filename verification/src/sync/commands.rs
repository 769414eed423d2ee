//! The two collections that are reconciled, and what each command asks of
//! the local store or of the remote service.

use crate::api::HttpMethod;
use crate::keyed::{collected, ids_distinct, upsert, Keyed};
use crate::models::{PomodoroSession, Settings, SettingsView, Task};
use crate::sync::entity::SyncEntity;
use crate::sync::laws::law_second_run_finds_nothing;
use crate::sync::outcome::{after_steps, apply_step};
use crate::sync::reconcile::{reconcile, sync_plan, Side, SyncPlan, SyncStep};
use crate::sync::settings::SettingsStep;
use crate::sync::snapshot::Snapshot;
use crate::text::joined;
use vstd::prelude::*;

verus! {

/// The endpoint that lists the remote tasks, under the member `tasks`.
pub const TASKS_SYNC_ENDPOINT: &'static str = "/sync/tasks";

/// The endpoint that lists the remote sessions, under the member `sessions`.
pub const SESSIONS_SYNC_ENDPOINT: &'static str = "/sync/pomodoro-sessions";

/// The endpoint that holds the remote settings, under the member `settings`.
pub const SETTINGS_SYNC_ENDPOINT: &'static str = "/sync/settings";

/// The endpoint of the remote tasks; a task stands below it under its
/// identifier.
pub const TASKS_ENDPOINT: &'static str = "/tasks";

/// The endpoint of the remote sessions; a session stands below it under its
/// identifier.
pub const SESSIONS_ENDPOINT: &'static str = "/pomodoro/sessions";

/// Reconciles the tasks read from the local store with those that the
/// remote service listed.
pub fn sync_tasks(local: Vec<Task>, remote: Vec<Task>) -> (plan: SyncPlan<Task>)
    ensures
        plan@ == sync_plan::<Task>(
            collected::<Task>(local@.map_values(|t: Task| t@)),
            collected::<Task>(remote@.map_values(|t: Task| t@)),
        ),
{
    let local = Snapshot::from_entities(local);
    let remote = Snapshot::from_entities(remote);
    reconcile(&local, &remote)
}

/// Reconciles the sessions read from the local store with those that the
/// remote service listed.
pub fn sync_pomodoro_sessions(local: Vec<PomodoroSession>, remote: Vec<PomodoroSession>) -> (plan:
    SyncPlan<PomodoroSession>)
    ensures
        plan@ == sync_plan::<PomodoroSession>(
            collected::<PomodoroSession>(local@.map_values(|s: PomodoroSession| s@)),
            collected::<PomodoroSession>(remote@.map_values(|s: PomodoroSession| s@)),
        ),
{
    let local = Snapshot::from_entities(local);
    let remote = Snapshot::from_entities(remote);
    reconcile(&local, &remote)
}

/// What a command asks for. Every command carries its record whole,
/// identifier and timestamps included, and asks the side it goes to to keep
/// the record as it is.
#[derive(Debug)]
pub enum SyncCommand<T> {
    /// Keep `record` in the local store, in place of the local copy with
    /// its identifier.
    UpdateLocal { record: T },
    /// Keep `record` in the local store, which has none with its
    /// identifier.
    CreateLocal { record: T },
    /// Send `record` to the remote service.
    Upload { method: HttpMethod, endpoint: String, record: T },
}

/// Everything a command holds.
pub enum SyncCommandView<T> {
    UpdateLocal { record: T },
    CreateLocal { record: T },
    Upload { method: HttpMethod, endpoint: Seq<char>, record: T },
}

impl<E: SyncEntity> View for SyncCommand<E> {
    type V = SyncCommandView<E::V>;

    open spec fn view(&self) -> SyncCommandView<E::V> {
        match *self {
            SyncCommand::UpdateLocal { record } => SyncCommandView::UpdateLocal { record: record@ },
            SyncCommand::CreateLocal { record } => SyncCommandView::CreateLocal { record: record@ },
            SyncCommand::Upload { method, endpoint, record } => SyncCommandView::Upload {
                method,
                endpoint: endpoint@,
                record: record@,
            },
        }
    }
}

/// A command on tasks.
pub type TaskCommand = SyncCommand<Task>;

/// A command on sessions.
pub type SessionCommand = SyncCommand<PomodoroSession>;

/// What a step of a reconciliation asks for, in a collection whose remote
/// records stand at `endpoint`: a remote record that wins is kept locally in
/// place of the local copy, a remote record that is new is kept locally as
/// it is, a local record that wins is put at its own address below
/// `endpoint`, and a local record that is new is posted to `endpoint`.
pub open spec fn command_of<E: SyncEntity>(step: SyncStep<E::V>, endpoint: Seq<char>) -> SyncCommandView<
    E::V,
> {
    match step {
        SyncStep::UpdateLocal(r) => SyncCommandView::UpdateLocal { record: r },
        SyncStep::ResolveConflict(r) => SyncCommandView::UpdateLocal { record: r },
        SyncStep::CreateLocal(r) => SyncCommandView::CreateLocal { record: r },
        SyncStep::UpdateRemote(l) => SyncCommandView::Upload {
            method: HttpMethod::Put,
            endpoint: endpoint + "/"@ + E::id_of(l),
            record: l,
        },
        SyncStep::CreateRemote(l) => SyncCommandView::Upload {
            method: HttpMethod::Post,
            endpoint,
            record: l,
        },
    }
}

/// What `step` asks of the local store or of the remote service, in a
/// collection whose remote records stand at `endpoint`.
pub fn command<E: SyncEntity>(step: &SyncStep<E>, endpoint: &str) -> (command: SyncCommand<E>)
    ensures
        command@ == command_of::<E>(step@, endpoint@),
{
    match step {
        SyncStep::UpdateLocal(r) => SyncCommand::UpdateLocal { record: r.duplicate() },
        SyncStep::ResolveConflict(r) => SyncCommand::UpdateLocal { record: r.duplicate() },
        SyncStep::CreateLocal(r) => SyncCommand::CreateLocal { record: r.duplicate() },
        SyncStep::UpdateRemote(l) => {
            let mut address = joined(endpoint, "/");
            address.append(l.entity_id());
            SyncCommand::Upload { method: HttpMethod::Put, endpoint: address, record: l.duplicate() }
        },
        SyncStep::CreateRemote(l) => SyncCommand::Upload {
            method: HttpMethod::Post,
            endpoint: endpoint.to_owned(),
            record: l.duplicate(),
        },
    }
}

/// What a step of a reconciliation of tasks asks for.
pub fn task_command(step: &SyncStep<Task>) -> (command: TaskCommand)
    ensures
        command@ == command_of::<Task>(step@, TASKS_ENDPOINT@),
{
    command(step, TASKS_ENDPOINT)
}

/// What a step of a reconciliation of sessions asks for.
pub fn session_command(step: &SyncStep<PomodoroSession>) -> (command: SessionCommand)
    ensures
        command@ == command_of::<PomodoroSession>(step@, SESSIONS_ENDPOINT@),
{
    command(step, SESSIONS_ENDPOINT)
}

/// The records of the side `side` once `command` has been carried out: a
/// side that is asked to keep a record has it under its identifier, as it
/// is, and the other side is what it was.
pub open spec fn command_effect<E: SyncEntity>(
    records: Seq<E::V>,
    command: SyncCommandView<E::V>,
    side: Side,
) -> Seq<E::V> {
    match command {
        SyncCommandView::UpdateLocal { record } => if side == Side::Local {
            upsert::<E>(records, record)
        } else {
            records
        },
        SyncCommandView::CreateLocal { record } => if side == Side::Local {
            upsert::<E>(records, record)
        } else {
            records
        },
        SyncCommandView::Upload { record, .. } => if side == Side::Remote {
            upsert::<E>(records, record)
        } else {
            records
        },
    }
}

/// The commands that the steps of a plan ask for, in order.
pub open spec fn commands_of<E: SyncEntity>(steps: Seq<SyncStep<E::V>>, endpoint: Seq<char>) -> Seq<
    SyncCommandView<E::V>,
> {
    steps.map_values(|s: SyncStep<E::V>| command_of::<E>(s, endpoint))
}

/// The records of the side `side` once all of `commands` have been carried
/// out, in order.
pub open spec fn after_commands<E: SyncEntity>(
    records: Seq<E::V>,
    commands: Seq<SyncCommandView<E::V>>,
    side: Side,
) -> Seq<E::V>
    decreases commands.len(),
{
    if commands.len() == 0 {
        records
    } else {
        command_effect::<E>(
            after_commands::<E>(records, commands.drop_last(), side),
            commands.last(),
            side,
        )
    }
}

/// Carrying out the command of a step does to either side what the step
/// says: the command leaves nothing of the record out and adds nothing.
pub proof fn law_command_carries_its_step<E: SyncEntity>(
    records: Seq<E::V>,
    step: SyncStep<E::V>,
    endpoint: Seq<char>,
    side: Side,
)
    ensures
        command_effect::<E>(records, command_of::<E>(step, endpoint), side) == apply_step::<E>(
            records,
            step,
            side,
        ),
{
}

/// Carrying out the commands of a plan, in order, does to either side what
/// the plan says.
pub proof fn law_commands_carry_their_plan<E: SyncEntity>(
    records: Seq<E::V>,
    steps: Seq<SyncStep<E::V>>,
    endpoint: Seq<char>,
    side: Side,
)
    ensures
        after_commands::<E>(records, commands_of::<E>(steps, endpoint), side) == after_steps::<E>(
            records,
            steps,
            side,
        ),
    decreases steps.len(),
{
    let commands = commands_of::<E>(steps, endpoint);
    if steps.len() > 0 {
        law_commands_carry_their_plan::<E>(records, steps.drop_last(), endpoint, side);
        assert(commands.drop_last() =~= commands_of::<E>(steps.drop_last(), endpoint));
        assert(commands.last() == command_of::<E>(steps.last(), endpoint));
        law_command_carries_its_step::<E>(
            after_steps::<E>(records, steps.drop_last(), side),
            steps.last(),
            endpoint,
            side,
        );
    }
}

/// Idempotence of the commands: once the commands of a plan have been
/// carried out on both sides, reconciling the two sides again asks for
/// nothing.
pub proof fn law_commands_leave_nothing_to_do<E: SyncEntity>(
    local: Seq<E::V>,
    remote: Seq<E::V>,
    endpoint: Seq<char>,
)
    requires
        ids_distinct::<E>(local),
        ids_distinct::<E>(remote),
    ensures
        ({
            let commands = commands_of::<E>(sync_plan::<E>(local, remote), endpoint);
            commands_of::<E>(
                sync_plan::<E>(
                    after_commands::<E>(local, commands, Side::Local),
                    after_commands::<E>(remote, commands, Side::Remote),
                ),
                endpoint,
            ) == Seq::<SyncCommandView<E::V>>::empty()
        }),
{
    let plan = sync_plan::<E>(local, remote);
    law_commands_carry_their_plan::<E>(local, plan, endpoint, Side::Local);
    law_commands_carry_their_plan::<E>(remote, plan, endpoint, Side::Remote);
    law_second_run_finds_nothing::<E>(local, remote);
    assert(commands_of::<E>(Seq::<SyncStep<E::V>>::empty(), endpoint) =~= Seq::empty());
}

/// What the one command of a settings reconciliation asks for.
#[derive(Debug)]
pub enum SettingsCommand {
    /// Send the settings to the remote service.
    Upload { method: HttpMethod, endpoint: &'static str, settings: Settings },
    /// Keep the settings in the local store, in place of those it has.
    OverwriteLocal { settings: Settings },
}

/// Everything a command on settings holds.
pub enum SettingsCommandView {
    Upload { method: HttpMethod, endpoint: Seq<char>, settings: SettingsView },
    OverwriteLocal { settings: SettingsView },
}

impl View for SettingsCommand {
    type V = SettingsCommandView;

    open spec fn view(&self) -> SettingsCommandView {
        match *self {
            SettingsCommand::Upload { method, endpoint, settings } => SettingsCommandView::Upload {
                method,
                endpoint: endpoint@,
                settings: settings@,
            },
            SettingsCommand::OverwriteLocal { settings } => SettingsCommandView::OverwriteLocal {
                settings: settings@,
            },
        }
    }
}

/// What a step of a settings reconciliation asks for: local settings that
/// go up are posted to the endpoint of the settings, and remote settings
/// that win are kept locally as they are.
pub open spec fn settings_command_of(step: SettingsStep<SettingsView>) -> SettingsCommandView {
    match step {
        SettingsStep::UploadLocal(s) => SettingsCommandView::Upload {
            method: HttpMethod::Post,
            endpoint: SETTINGS_SYNC_ENDPOINT@,
            settings: s,
        },
        SettingsStep::OverwriteLocal(s) => SettingsCommandView::OverwriteLocal { settings: s },
    }
}

/// What `step` asks of the local store or of the remote service.
pub fn settings_command(step: SettingsStep<Settings>) -> (command: SettingsCommand)
    ensures
        command@ == settings_command_of(step@),
{
    match step {
        SettingsStep::UploadLocal(settings) => SettingsCommand::Upload {
            method: HttpMethod::Post,
            endpoint: SETTINGS_SYNC_ENDPOINT,
            settings,
        },
        SettingsStep::OverwriteLocal(settings) => SettingsCommand::OverwriteLocal { settings },
    }
}

} // verus!
