use pomodoro::keyed::KeyedList;
use pomodoro::models::{
    PomodoroSession, SessionState, SessionType, Settings, Task, TaskPriority, TaskStatus,
};
use pomodoro::sync::commands::{
    session_command, settings_command, sync_pomodoro_sessions, sync_tasks, task_command,
    SessionCommand, SettingsCommand, TaskCommand,
};
use pomodoro::api::HttpMethod;
use pomodoro::sync::entity::SyncEntity;
use pomodoro::sync::errors::{Collection, SyncError};
use pomodoro::sync::orchestrator::{sync_data, PhaseOutcome, SyncPhase, SyncRun};
use pomodoro::sync::reconcile::{reconcile, Side, SyncStep, Tally};
use pomodoro::sync::run::PhaseRun;
use pomodoro::sync::settings::{reconcile_settings, SettingsStep};
use pomodoro::sync::snapshot::Snapshot;
use pomodoro::time::Timestamp;

fn task(id: &str, title: &str, last_modified: i64) -> Task {
    Task {
        id: id.to_string(),
        title: title.to_string(),
        description: None,
        status: TaskStatus::Pending,
        priority: TaskPriority::Medium,
        due_date: None,
        tags: vec!["home".to_string()],
        estimated_pomodoros: 2,
        completed_pomodoros: 0,
        created_at: Timestamp::from_seconds(10),
        updated_at: Timestamp::from_seconds(last_modified),
    }
}

fn session(id: &str, remaining: u32, last_modified: i64) -> PomodoroSession {
    PomodoroSession {
        id: id.to_string(),
        task_id: Some("T1".to_string()),
        session_type: SessionType::Work,
        state: SessionState::Running,
        duration_minutes: 25,
        remaining_seconds: remaining,
        started_at: Some(Timestamp::from_seconds(50)),
        paused_at: None,
        completed_at: None,
        rating: None,
        notes: None,
        created_at: Timestamp::from_seconds(10),
        updated_at: Timestamp::from_seconds(last_modified),
    }
}

fn snapshot(tasks: Vec<Task>) -> Snapshot<Task> {
    KeyedList::from_entities(tasks)
}

fn no_tasks() -> Snapshot<Task> {
    KeyedList::new()
}

#[test]
fn local_only_task_is_uploaded() {
    let mut local = snapshot(vec![task("T1", "write", 100)]);
    let mut remote = no_tasks();
    let plan = reconcile(&local, &remote);
    assert_eq!(plan.len(), 1);
    assert!(matches!(&plan.steps[0], SyncStep::CreateRemote(t) if t.id == "T1"));
    assert_eq!(plan.tally(1), Tally { synced: 1, conflicts: 0 });
    plan.carry_out(&mut local, &mut remote);
    let uploaded = remote.get("T1").expect("the remote side has the task");
    assert!(uploaded.same_content(&task("T1", "write", 100)));
    assert_eq!(local.len(), 1);
}

#[test]
fn remote_newer_task_overwrites_local() {
    let mut local = snapshot(vec![task("T2", "old title", 100)]);
    let mut remote = snapshot(vec![task("T2", "new title", 200)]);
    let plan = reconcile(&local, &remote);
    assert_eq!(plan.len(), 1);
    assert!(matches!(&plan.steps[0], SyncStep::UpdateLocal(t) if t.title == "new title"));
    assert_eq!(plan.tally(1).synced, 1);
    assert_eq!(plan.tally(1).conflicts, 0);
    plan.carry_out(&mut local, &mut remote);
    assert!(local.get("T2").unwrap().same_content(remote.get("T2").unwrap()));
    assert_eq!(local.get("T2").unwrap().title, "new title");
    assert_eq!(local.get("T2").unwrap().updated_at, Timestamp::from_seconds(200));
}

#[test]
fn local_newer_task_is_put_on_the_remote_side() {
    let mut local = snapshot(vec![task("T2", "mine", 300)]);
    let mut remote = snapshot(vec![task("T2", "theirs", 200)]);
    let plan = reconcile(&local, &remote);
    assert_eq!(plan.len(), 1);
    assert!(matches!(&plan.steps[0], SyncStep::UpdateRemote(t) if t.title == "mine"));
    assert_eq!(plan.steps[0].target(), Side::Remote);
    assert_eq!(plan.tally(1), Tally { synced: 1, conflicts: 0 });
    plan.carry_out(&mut local, &mut remote);
    assert_eq!(remote.get("T2").unwrap().title, "mine");
    assert_eq!(local.get("T2").unwrap().title, "mine");
}

#[test]
fn same_timestamp_different_titles_is_a_conflict_that_remote_wins() {
    let mut local = snapshot(vec![task("T3", "local title", 150)]);
    let mut remote = snapshot(vec![task("T3", "remote title", 150)]);
    let plan = reconcile(&local, &remote);
    assert_eq!(plan.len(), 1);
    assert!(matches!(&plan.steps[0], SyncStep::ResolveConflict(t) if t.title == "remote title"));
    assert!(plan.steps[0].is_conflict());
    assert_eq!(plan.steps[0].target(), Side::Local);
    assert_eq!(plan.tally(1), Tally { synced: 0, conflicts: 1 });
    plan.carry_out(&mut local, &mut remote);
    assert_eq!(local.get("T3").unwrap().title, "remote title");
    assert_eq!(remote.get("T3").unwrap().title, "remote title");
}

#[test]
fn nanoseconds_decide_between_equal_seconds() {
    let mut newer = task("T4", "newer", 150);
    newer.updated_at = Timestamp { seconds: 150, nanos: 7 };
    let local = snapshot(vec![task("T4", "older", 150)]);
    let remote = snapshot(vec![newer]);
    let plan = reconcile(&local, &remote);
    assert!(matches!(&plan.steps[0], SyncStep::UpdateLocal(t) if t.title == "newer"));
    assert!(Timestamp { seconds: 150, nanos: 7 }.is_after(&Timestamp::from_seconds(150)));
    assert!(!Timestamp::from_seconds(150).is_after(&Timestamp::from_seconds(150)));
    assert!(Timestamp::from_seconds(151).is_after(&Timestamp { seconds: 150, nanos: 999 }));
}

#[test]
fn identical_copies_need_nothing() {
    let local = snapshot(vec![task("T1", "same", 100), task("T2", "same too", 5)]);
    let remote = snapshot(vec![task("T2", "same too", 5), task("T1", "same", 100)]);
    let plan = reconcile(&local, &remote);
    assert_eq!(plan.len(), 0);
    assert_eq!(plan.tally(0), Tally { synced: 0, conflicts: 0 });
}

#[test]
fn empty_snapshots_need_nothing() {
    let plan = reconcile(&no_tasks(), &no_tasks());
    assert_eq!(plan.len(), 0);
}

#[test]
fn a_difference_in_any_field_is_a_conflict() {
    let base = task("T1", "title", 100);
    let mut with_tag = task("T1", "title", 100);
    with_tag.tags.push("extra".to_string());
    let mut with_description = task("T1", "title", 100);
    with_description.description = Some("".to_string());
    let mut with_due = task("T1", "title", 100);
    with_due.due_date = Some(Timestamp::from_seconds(0));
    let mut with_count = task("T1", "title", 100);
    with_count.completed_pomodoros = 1;
    let mut with_created = task("T1", "title", 100);
    with_created.created_at = Timestamp { seconds: 10, nanos: 1 };
    for other in [with_tag, with_description, with_due, with_count, with_created] {
        assert!(!base.same_content(&other));
        let plan = reconcile(&snapshot(vec![task("T1", "title", 100)]), &snapshot(vec![other]));
        assert_eq!(plan.tally(plan.len()), Tally { synced: 0, conflicts: 1 });
    }
    assert!(base.same_content(&base.clone()));
}

#[test]
fn second_run_after_carrying_out_finds_nothing() {
    let mut local = snapshot(vec![
        task("A", "only local", 1),
        task("B", "local newer", 9),
        task("C", "remote newer", 2),
        task("D", "tie local", 4),
        task("E", "same", 5),
    ]);
    let mut remote = snapshot(vec![
        task("E", "same", 5),
        task("D", "tie remote", 4),
        task("C", "remote newer!", 3),
        task("B", "local newer?", 8),
        task("F", "only remote", 6),
    ]);
    let plan = reconcile(&local, &remote);
    assert_eq!(plan.len(), 5);
    assert_eq!(plan.tally(5), Tally { synced: 4, conflicts: 1 });
    plan.carry_out(&mut local, &mut remote);
    let again = reconcile(&local, &remote);
    assert_eq!(again.len(), 0);
    assert_eq!(again.tally(0), Tally { synced: 0, conflicts: 0 });
    assert_eq!(local.len(), 6);
    assert_eq!(remote.len(), 6);
    for id in ["A", "B", "C", "D", "E", "F"] {
        assert!(local.get(id).unwrap().same_content(remote.get(id).unwrap()));
    }
    assert_eq!(local.get("D").unwrap().title, "tie remote");
    assert_eq!(local.get("B").unwrap().title, "local newer");
    assert_eq!(local.get("C").unwrap().title, "remote newer!");
}

#[test]
fn commands_follow_the_remote_records_then_the_local_leftovers() {
    let local = snapshot(vec![task("A", "a", 1), task("B", "b", 9), task("Z", "z", 1)]);
    let remote = snapshot(vec![task("F", "f", 6), task("B", "b remote", 8)]);
    let plan = reconcile(&local, &remote);
    assert_eq!(plan.len(), 4);
    assert!(matches!(&plan.steps[0], SyncStep::CreateLocal(t) if t.id == "F"));
    assert!(matches!(&plan.steps[1], SyncStep::UpdateRemote(t) if t.id == "B" && t.title == "b"));
    assert!(matches!(&plan.steps[2], SyncStep::CreateRemote(t) if t.id == "A"));
    assert!(matches!(&plan.steps[3], SyncStep::CreateRemote(t) if t.id == "Z"));
}

#[test]
fn the_order_of_the_records_does_not_change_counts_or_outcome() {
    let locals = || vec![task("A", "a", 1), task("B", "b", 9), task("C", "c", 2), task("D", "d", 4)];
    let remotes =
        || vec![task("D", "d!", 4), task("C", "c!", 3), task("B", "b?", 8), task("F", "f", 6)];
    let mut local_one = snapshot(locals());
    let mut remote_one = snapshot(remotes());
    let mut reversed_local = locals();
    reversed_local.reverse();
    let mut reversed_remote = remotes();
    reversed_remote.reverse();
    let mut local_two = snapshot(reversed_local);
    let mut remote_two = snapshot(reversed_remote);
    let one = reconcile(&local_one, &remote_one);
    let two = reconcile(&local_two, &remote_two);
    assert_eq!(one.tally(one.len()), two.tally(two.len()));
    one.carry_out(&mut local_one, &mut remote_one);
    two.carry_out(&mut local_two, &mut remote_two);
    for id in ["A", "B", "C", "D", "F"] {
        assert!(local_one.get(id).unwrap().same_content(local_two.get(id).unwrap()));
        assert!(remote_one.get(id).unwrap().same_content(remote_two.get(id).unwrap()));
    }
}

#[test]
fn a_tie_adds_one_conflict_and_nothing_else() {
    let others_local = vec![task("A", "a", 1), task("C", "c", 2)];
    let others_remote = vec![task("C", "c!", 3)];
    let without = reconcile(&snapshot(others_local.clone()), &snapshot(others_remote.clone()));
    let mut with_local = others_local;
    with_local.push(task("T", "local", 50));
    let mut with_remote = others_remote;
    with_remote.push(task("T", "remote", 50));
    let mut local = snapshot(with_local);
    let mut remote = snapshot(with_remote);
    let with = reconcile(&local, &remote);
    let before = without.tally(without.len());
    let after = with.tally(with.len());
    assert_eq!(after.conflicts, before.conflicts + 1);
    assert_eq!(after.synced, before.synced);
    let about_t: Vec<&SyncStep<Task>> =
        with.steps.iter().filter(|s| s.record().id == "T").collect();
    assert_eq!(about_t.len(), 1);
    assert!(matches!(about_t[0], SyncStep::ResolveConflict(t) if t.title == "remote"));
    with.carry_out(&mut local, &mut remote);
    assert_eq!(local.get("T").unwrap().title, "remote");
}

#[test]
fn a_single_remote_newer_record_touches_nothing_else() {
    let mut local = snapshot(vec![task("A", "a", 1), task("T", "old", 10), task("B", "b", 2)]);
    let mut remote = snapshot(vec![task("B", "b", 2), task("T", "new", 11), task("A", "a", 1)]);
    let plan = reconcile(&local, &remote);
    assert_eq!(plan.len(), 1);
    assert!(matches!(&plan.steps[0], SyncStep::UpdateLocal(t) if t.id == "T" && t.title == "new"));
    plan.carry_out(&mut local, &mut remote);
    assert!(local.get("T").unwrap().same_content(&task("T", "new", 11)));
    assert!(local.get("A").unwrap().same_content(&task("A", "a", 1)));
    assert!(local.get("B").unwrap().same_content(&task("B", "b", 2)));
    assert_eq!(local.len(), 3);
    assert_eq!(remote.len(), 3);
    assert!(remote.get("T").unwrap().same_content(&task("T", "new", 11)));
}

#[test]
fn discovery_goes_both_ways() {
    let local = snapshot(vec![task("L", "local only", 1), task("S", "shared", 1)]);
    let remote = snapshot(vec![task("S", "shared", 1), task("R", "remote only", 1)]);
    let plan = reconcile(&local, &remote);
    let about = |id: &str| -> Vec<&SyncStep<Task>> {
        plan.steps.iter().filter(|s| s.record().id == id).collect()
    };
    assert_eq!(about("L").len(), 1);
    assert!(matches!(about("L")[0], SyncStep::CreateRemote(_)));
    assert_eq!(about("R").len(), 1);
    assert!(matches!(about("R")[0], SyncStep::CreateLocal(_)));
    assert_eq!(about("S").len(), 0);
    assert_eq!(plan.tally(plan.len()), Tally { synced: 2, conflicts: 0 });
}

#[test]
fn tally_counts_only_what_was_carried_out() {
    let local = snapshot(vec![task("A", "a", 1), task("D", "d", 4)]);
    let remote = snapshot(vec![task("D", "d!", 4), task("F", "f", 6)]);
    let plan = reconcile(&local, &remote);
    assert_eq!(plan.len(), 3);
    assert_eq!(plan.tally(0), Tally { synced: 0, conflicts: 0 });
    assert_eq!(plan.tally(1), Tally { synced: 0, conflicts: 1 });
    assert_eq!(plan.tally(2), Tally { synced: 1, conflicts: 1 });
    assert_eq!(plan.tally(3), Tally { synced: 2, conflicts: 1 });
}

#[test]
fn sync_tasks_keys_the_lists_before_reconciling() {
    let local = vec![task("A", "first", 1), task("A", "second", 2)];
    let remote = vec![task("A", "second", 2)];
    let plan = sync_tasks(local, remote);
    assert_eq!(plan.len(), 0);
    let plan = sync_tasks(vec![task("A", "a", 1)], vec![]);
    assert_eq!(plan.len(), 1);
    assert!(matches!(&plan.steps[0], SyncStep::CreateRemote(_)));
}

#[test]
fn sessions_are_reconciled_like_tasks() {
    let local = vec![session("S1", 100, 5), session("S2", 10, 7), session("S4", 1, 1)];
    let remote = vec![session("S1", 90, 6), session("S2", 20, 7), session("S3", 0, 1)];
    let plan = sync_pomodoro_sessions(local, remote);
    assert_eq!(plan.len(), 4);
    assert!(matches!(&plan.steps[0], SyncStep::UpdateLocal(s) if s.remaining_seconds == 90));
    assert!(matches!(&plan.steps[1], SyncStep::ResolveConflict(s) if s.remaining_seconds == 20));
    assert!(matches!(&plan.steps[2], SyncStep::CreateLocal(s) if s.id == "S3"));
    assert!(matches!(&plan.steps[3], SyncStep::CreateRemote(s) if s.id == "S4"));
    assert_eq!(plan.tally(4), Tally { synced: 3, conflicts: 1 });
    assert_eq!(session("S1", 1, 2).last_modified(), Timestamp::from_seconds(2));
}

#[test]
fn task_commands_carry_the_record_whole() {
    let mut remote_task = task("T1", "remote", 200);
    remote_task.description = Some("d".to_string());
    remote_task.status = TaskStatus::InProgress;
    remote_task.completed_pomodoros = 2;
    for step in [
        SyncStep::UpdateLocal(remote_task.clone()),
        SyncStep::ResolveConflict(remote_task.clone()),
    ] {
        match task_command(&step) {
            TaskCommand::UpdateLocal { record } => assert!(record.same_content(&remote_task)),
            other => panic!("unexpected command {:?}", other),
        }
    }
    match task_command(&SyncStep::CreateLocal(remote_task.clone())) {
        TaskCommand::CreateLocal { record } => {
            assert!(record.same_content(&remote_task));
            assert_eq!(record.id, "T1");
            assert_eq!(record.status, TaskStatus::InProgress);
            assert_eq!(record.updated_at, Timestamp::from_seconds(200));
        }
        other => panic!("unexpected command {:?}", other),
    }
    match task_command(&SyncStep::UpdateRemote(remote_task.clone())) {
        TaskCommand::Upload { method, endpoint, record } => {
            assert_eq!(method, HttpMethod::Put);
            assert_eq!(endpoint, "/tasks/T1");
            assert!(record.same_content(&remote_task));
        }
        other => panic!("unexpected command {:?}", other),
    }
    match task_command(&SyncStep::CreateRemote(remote_task.clone())) {
        TaskCommand::Upload { method, endpoint, record } => {
            assert_eq!(method, HttpMethod::Post);
            assert_eq!(endpoint, "/tasks");
            assert!(record.same_content(&remote_task));
        }
        other => panic!("unexpected command {:?}", other),
    }
}

#[test]
fn session_commands_carry_the_record_whole() {
    let mut done = session("S9", 0, 3);
    done.state = SessionState::Completed;
    done.rating = Some(4);
    match session_command(&SyncStep::CreateLocal(done.clone())) {
        SessionCommand::CreateLocal { record } => {
            assert!(record.same_content(&done));
            assert_eq!(record.id, "S9");
            assert_eq!(record.state, SessionState::Completed);
            assert_eq!(record.remaining_seconds, 0);
            assert_eq!(record.rating, Some(4));
        }
        other => panic!("unexpected command {:?}", other),
    }
    match session_command(&SyncStep::UpdateLocal(done.clone())) {
        SessionCommand::UpdateLocal { record } => assert!(record.same_content(&done)),
        other => panic!("unexpected command {:?}", other),
    }
    assert!(matches!(
        session_command(&SyncStep::UpdateRemote(done.clone())),
        SessionCommand::Upload { method: HttpMethod::Put, endpoint, .. }
            if endpoint == "/pomodoro/sessions/S9"
    ));
    assert!(matches!(
        session_command(&SyncStep::CreateRemote(done)),
        SessionCommand::Upload { method: HttpMethod::Post, endpoint, .. }
            if endpoint == "/pomodoro/sessions"
    ));
}

/// Carries the commands of a plan out on two snapshots: a side that is
/// asked to keep a record keeps it as it is.
fn carry_out_commands(
    commands: Vec<TaskCommand>,
    local: &mut Snapshot<Task>,
    remote: &mut Snapshot<Task>,
) {
    for command in commands {
        match command {
            TaskCommand::UpdateLocal { record } | TaskCommand::CreateLocal { record } => {
                local.store(record)
            }
            TaskCommand::Upload { record, .. } => remote.store(record),
        }
    }
}

#[test]
fn a_second_run_after_the_commands_asks_for_nothing() {
    let mut done = task("R", "only remote", 6);
    done.status = TaskStatus::Completed;
    done.completed_pomodoros = 2;
    let mut blank = task("D", "tie remote", 4);
    blank.description = None;
    let mut described = task("D", "tie local", 4);
    described.description = Some("kept?".to_string());
    let mut local = snapshot(vec![task("A", "only local", 1), task("C", "c", 2), described]);
    let mut remote = snapshot(vec![blank, task("C", "c!", 3), done]);
    let plan = reconcile(&local, &remote);
    let commands: Vec<TaskCommand> = plan.steps.iter().map(task_command).collect();
    assert_eq!(commands.len(), 4);
    carry_out_commands(commands, &mut local, &mut remote);
    assert_eq!(reconcile(&local, &remote).len(), 0);
    assert_eq!(local.get("R").unwrap().status, TaskStatus::Completed);
    assert_eq!(local.get("R").unwrap().updated_at, Timestamp::from_seconds(6));
    assert_eq!(local.get("D").unwrap().description, None);
    assert_eq!(local.get("D").unwrap().title, "tie remote");
    assert_eq!(local.get("C").unwrap().updated_at, Timestamp::from_seconds(3));
    for id in ["A", "C", "D", "R"] {
        assert!(local.get(id).unwrap().same_content(remote.get(id).unwrap()));
    }
}

#[test]
fn the_settings_command_says_what_each_side_is_asked() {
    let mut local = Settings::default();
    local.theme = "dark".to_string();
    match settings_command(reconcile_settings(&local, None)) {
        SettingsCommand::Upload { method, endpoint, settings } => {
            assert_eq!(method, HttpMethod::Post);
            assert_eq!(endpoint, "/sync/settings");
            assert_eq!(settings.theme, "dark");
        }
        other => panic!("unexpected command {:?}", other),
    }
    let mut remote = Settings::default();
    remote.language = "fr".to_string();
    match settings_command(reconcile_settings(&local, Some(&remote))) {
        SettingsCommand::OverwriteLocal { settings } => {
            assert_eq!(settings.language, "fr");
            assert_eq!(settings.theme, "system");
        }
        other => panic!("unexpected command {:?}", other),
    }
}

#[test]
fn settings_go_up_when_the_remote_has_none_and_come_down_otherwise() {
    let mut local = Settings::default();
    local.theme = "dark".to_string();
    let step = reconcile_settings(&local, None);
    let uploaded = match step {
        SettingsStep::UploadLocal(s) => s,
        other => panic!("unexpected step {:?}", other),
    };
    assert_eq!(uploaded.theme, "dark");
    assert_eq!(uploaded.work_duration_minutes, 25);
    let again = reconcile_settings(&local, Some(&uploaded));
    match again {
        SettingsStep::OverwriteLocal(s) => {
            assert_eq!(s.theme, local.theme);
            assert_eq!(s.language, local.language);
            assert_eq!(s.sound_volume, local.sound_volume);
        }
        other => panic!("unexpected step {:?}", other),
    }
    let mut remote = Settings::default();
    remote.language = "fr".to_string();
    remote.work_duration_minutes = 50;
    match reconcile_settings(&local, Some(&remote)) {
        SettingsStep::OverwriteLocal(s) => {
            assert_eq!(s.language, "fr");
            assert_eq!(s.work_duration_minutes, 50);
            assert_eq!(s.theme, "system");
        }
        other => panic!("unexpected step {:?}", other),
    }
}

#[test]
fn a_failed_session_phase_leaves_the_other_phases_alone() {
    let result = sync_data(
        PhaseOutcome::completed(Tally { synced: 3, conflicts: 1 }),
        PhaseOutcome::failed(Tally { synced: 2, conflicts: 1 }, "connection reset".to_string()),
        PhaseOutcome::completed(Tally { synced: 0, conflicts: 0 }),
        Timestamp::from_seconds(1_000),
    );
    assert!(!result.success);
    assert_eq!(result.errors, vec!["Session sync error: connection reset".to_string()]);
    assert_eq!(result.synced_tasks, 3);
    assert_eq!(result.synced_sessions, 2);
    assert_eq!(result.conflicts, 2);
    assert_eq!(result.last_sync, Timestamp::from_seconds(1_000));
}

#[test]
fn conflicts_alone_are_no_failure() {
    let result = sync_data(
        PhaseOutcome::completed(Tally { synced: 0, conflicts: 4 }),
        PhaseOutcome::completed(Tally { synced: 1, conflicts: 2 }),
        PhaseOutcome::completed(Tally { synced: 0, conflicts: 0 }),
        Timestamp::from_seconds(7),
    );
    assert!(result.success);
    assert!(result.errors.is_empty());
    assert_eq!(result.conflicts, 6);
    assert_eq!(result.synced_tasks, 0);
    assert_eq!(result.synced_sessions, 1);
}

#[test]
fn every_failed_phase_adds_its_own_line_in_order() {
    let result = sync_data(
        PhaseOutcome::failed(Tally { synced: 0, conflicts: 0 }, "a".to_string()),
        PhaseOutcome::failed(Tally { synced: 0, conflicts: 0 }, "b".to_string()),
        PhaseOutcome::failed(Tally { synced: 9, conflicts: 9 }, "c".to_string()),
        Timestamp::from_seconds(7),
    );
    assert!(!result.success);
    assert_eq!(
        result.errors,
        vec![
            "Task sync error: a".to_string(),
            "Session sync error: b".to_string(),
            "Settings sync error: c".to_string(),
        ]
    );
    assert_eq!(result.synced_tasks, 0);
    assert_eq!(result.conflicts, 0);
}

#[test]
fn a_run_goes_through_its_phases_whatever_fails() {
    let mut run = SyncRun::start();
    assert_eq!(run.pending(), Some(SyncPhase::Tasks));
    run.record(PhaseOutcome::failed(Tally { synced: 1, conflicts: 0 }, "boom".to_string()));
    assert_eq!(run.pending(), Some(SyncPhase::Sessions));
    run.record(PhaseOutcome::completed(Tally { synced: 5, conflicts: 2 }));
    assert_eq!(run.pending(), Some(SyncPhase::Settings));
    run.record(PhaseOutcome::completed(Tally { synced: 0, conflicts: 0 }));
    assert_eq!(run.pending(), None);
    let result = run.finish(Timestamp::from_seconds(3));
    assert!(!result.success);
    assert_eq!(result.errors, vec!["Task sync error: boom".to_string()]);
    assert_eq!(result.synced_tasks, 1);
    assert_eq!(result.synced_sessions, 5);
    assert_eq!(result.conflicts, 2);
    assert_eq!(SyncPhase::Tasks.next(), Some(SyncPhase::Sessions));
    assert_eq!(SyncPhase::Settings.next(), None);
    assert_eq!(SyncPhase::Settings.describe_failure("x"), "Settings sync error: x");
}

#[test]
fn every_kind_of_error_becomes_one_description() {
    assert_eq!(SyncError::Transport("t".to_string()).describe(), "t");
    assert_eq!(SyncError::Serialization("s".to_string()).describe(), "s");
    assert_eq!(SyncError::Storage("d".to_string()).describe(), "d");
    assert_eq!(SyncError::NotFound(Collection::Tasks).describe(), "Task not found after update");
    assert_eq!(
        SyncError::NotFound(Collection::Sessions).describe(),
        "Session not found after update"
    );
    let failed = PhaseOutcome::of(
        Tally { synced: 1, conflicts: 0 },
        Some(SyncError::NotFound(Collection::Tasks)),
    );
    assert_eq!(failed.failure, Some("Task not found after update".to_string()));
    assert_eq!(failed.tally.synced, 1);
    let passed = PhaseOutcome::of(Tally { synced: 1, conflicts: 0 }, None);
    assert_eq!(passed.failure, None);
}

#[test]
fn a_snapshot_keeps_one_record_per_identifier() {
    let mut snap = snapshot(vec![task("A", "first", 1), task("B", "b", 1), task("A", "second", 2)]);
    assert_eq!(snap.len(), 2);
    assert_eq!(snap.get("A").unwrap().title, "second");
    assert_eq!(snap.find("A"), Some(0));
    assert_eq!(snap.find("B"), Some(1));
    assert_eq!(snap.find("C"), None);
    assert!(snap.contains("B"));
    assert!(!snap.contains("b"));
    snap.store(task("C", "c", 1));
    assert_eq!(snap.len(), 3);
    assert_eq!(snap.entity_at(2).id, "C");
    let removed = snap.remove("B").unwrap();
    assert_eq!(removed.title, "b");
    assert!(snap.remove("B").is_none());
    assert_eq!(snap.len(), 2);
    assert_eq!(snap.into_entities().len(), 2);
}

#[test]
fn a_phase_stops_at_the_first_command_that_fails() {
    let local = snapshot(vec![task("A", "a", 1), task("D", "d", 4)]);
    let remote = snapshot(vec![task("D", "d!", 4), task("F", "f", 6)]);
    let mut run = PhaseRun::begin(reconcile(&local, &remote));
    assert!(matches!(run.next_step(), Some(SyncStep::ResolveConflict(t)) if t.id == "D"));
    run.step_done(Ok(()));
    assert!(matches!(run.next_step(), Some(SyncStep::CreateLocal(t)) if t.id == "F"));
    run.step_done(Ok(()));
    assert!(matches!(run.next_step(), Some(SyncStep::CreateRemote(t)) if t.id == "A"));
    run.step_done(Err(SyncError::Transport("timed out".to_string())));
    assert!(run.next_step().is_none());
    let outcome = run.finish();
    assert_eq!(outcome.tally, Tally { synced: 1, conflicts: 1 });
    assert_eq!(outcome.failure, Some("timed out".to_string()));
}

#[test]
fn a_phase_without_failures_counts_every_command() {
    let local = snapshot(vec![task("A", "a", 1), task("D", "d", 4)]);
    let remote = snapshot(vec![task("D", "d!", 4), task("F", "f", 6)]);
    let mut run = PhaseRun::begin(reconcile(&local, &remote));
    let mut carried_out = 0;
    while run.next_step().is_some() {
        run.step_done(Ok(()));
        carried_out += 1;
    }
    assert_eq!(carried_out, 3);
    let outcome = run.finish();
    assert_eq!(outcome.tally, Tally { synced: 2, conflicts: 1 });
    assert_eq!(outcome.failure, None);
    let idle = PhaseRun::begin(reconcile(&no_tasks(), &no_tasks()));
    assert!(idle.next_step().is_none());
    assert_eq!(idle.finish().tally, Tally { synced: 0, conflicts: 0 });
}

#[test]
fn a_failed_phase_reports_what_it_carried_out_before() {
    let local = snapshot(vec![task("A", "a", 1), task("B", "b", 1)]);
    let mut sessions = PhaseRun::begin(reconcile(&local, &no_tasks()));
    sessions.step_done(Ok(()));
    sessions.step_done(Err(SyncError::Storage("disk full".to_string())));
    let result = sync_data(
        PhaseOutcome::completed(Tally { synced: 4, conflicts: 0 }),
        sessions.finish(),
        PhaseOutcome::completed(Tally { synced: 0, conflicts: 0 }),
        Timestamp::from_seconds(1),
    );
    assert!(!result.success);
    assert_eq!(result.errors, vec!["Session sync error: disk full".to_string()]);
    assert_eq!(result.synced_tasks, 4);
    assert_eq!(result.synced_sessions, 1);
}

#[test]
fn no_copy_is_older_after_a_run_than_before() {
    let locals = vec![task("A", "a", 1), task("B", "b", 9), task("C", "c", 2), task("D", "d", 4)];
    let remotes = vec![task("D", "d!", 4), task("C", "c!", 3), task("B", "b?", 8), task("F", "f", 6)];
    let mut local = snapshot(locals.clone());
    let mut remote = snapshot(remotes.clone());
    reconcile(&local, &remote).carry_out(&mut local, &mut remote);
    for before in &locals {
        let after = local.get(&before.id).unwrap();
        assert!(!before.updated_at.is_after(&after.updated_at));
    }
    for before in &remotes {
        let after = remote.get(&before.id).unwrap();
        assert!(!before.updated_at.is_after(&after.updated_at));
    }
}

#[test]
fn every_command_carries_a_record_of_the_other_side() {
    let local = snapshot(vec![task("A", "a", 1), task("B", "b", 9), task("D", "d", 4)]);
    let remote = snapshot(vec![task("D", "d!", 4), task("B", "b?", 8), task("F", "f", 6)]);
    let plan = reconcile(&local, &remote);
    assert_eq!(plan.len(), 4);
    for step in &plan.steps {
        let source = match step.target() {
            Side::Local => &remote,
            Side::Remote => &local,
        };
        assert!(source.get(&step.record().id).unwrap().same_content(step.record()));
    }
}
