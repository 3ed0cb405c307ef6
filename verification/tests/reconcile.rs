use nebulet::engine::{apply_outcome, plan_action, run_tick, ActionOutcome, RuntimeAction, StoreCommand};
use nebulet::record::ContainerRecord;
use nebulet::status::ContainerStatus;

fn rec(id: &str, status: ContainerStatus, runtime_id: Option<&str>) -> ContainerRecord {
    ContainerRecord {
        id: id.to_owned(),
        name: "web".to_owned(),
        image: "nginx".to_owned(),
        status,
        runtime_id: runtime_id.map(|s| s.to_owned()),
        created_at: 100,
        updated_at: 200,
    }
}

#[test]
fn plan_pending_is_creation() {
    let a = plan_action(&rec("c1", ContainerStatus::Pending, None));
    assert_eq!(
        a,
        RuntimeAction::CreateWorkload { name: "web".to_owned(), image: "nginx".to_owned() }
    );
}

#[test]
fn plan_created_without_handle_is_a_no_op() {
    assert_eq!(plan_action(&rec("c1", ContainerStatus::Created, None)), RuntimeAction::NoOp);
}

#[test]
fn plan_by_status_uses_the_stored_handle() {
    assert_eq!(
        plan_action(&rec("c1", ContainerStatus::Created, Some("rt-1"))),
        RuntimeAction::StartWorkload { runtime_id: "rt-1".to_owned() }
    );
    assert_eq!(
        plan_action(&rec("c1", ContainerStatus::Running, Some("rt-1"))),
        RuntimeAction::InspectWorkload { runtime_id: "rt-1".to_owned() }
    );
    assert_eq!(
        plan_action(&rec("c1", ContainerStatus::Removing, Some("rt-1"))),
        RuntimeAction::TeardownWorkload { runtime_id: "rt-1".to_owned() }
    );
    assert_eq!(
        plan_action(&rec("c1", ContainerStatus::Stopped, Some("rt-1"))),
        RuntimeAction::RemoveWorkload { runtime_id: "rt-1".to_owned() }
    );
    assert_eq!(
        plan_action(&rec("c1", ContainerStatus::Failed, Some("rt-1"))),
        RuntimeAction::RemoveWorkload { runtime_id: "rt-1".to_owned() }
    );
}

#[test]
fn pending_record_is_created_after_one_tick() {
    let records = vec![rec("c1", ContainerStatus::Pending, None)];
    let outcomes = vec![ActionOutcome::CreateOk { runtime_id: "rt-1".to_owned() }];
    let out = run_tick(&records, &outcomes, 300);
    assert_eq!(out.len(), 1);
    assert_eq!(out[0].id, "c1");
    assert_eq!(out[0].status, ContainerStatus::Created);
    assert_eq!(out[0].runtime_id.as_deref(), Some("rt-1"));
    assert!(out[0].updated_at > records[0].updated_at);
    assert_eq!(out[0].updated_at, 300);
    assert_eq!(out[0].created_at, 100);
}

#[test]
fn failed_start_marks_the_record_failed() {
    let records = vec![rec("c1", ContainerStatus::Created, Some("rt-1"))];
    let outcomes = vec![ActionOutcome::StartFailed];
    let out = run_tick(&records, &outcomes, 300);
    assert_eq!(out.len(), 1);
    assert_eq!(out[0].id, "c1");
    assert_eq!(out[0].status, ContainerStatus::Failed);
    assert_eq!(out[0].runtime_id.as_deref(), Some("rt-1"));
}

#[test]
fn failed_creation_marks_the_record_failed() {
    let cmd = apply_outcome(&rec("c1", ContainerStatus::Pending, None), &ActionOutcome::CreateFailed, 300);
    match cmd {
        StoreCommand::Persist { record } => {
            assert_eq!(record.status, ContainerStatus::Failed);
            assert_eq!(record.runtime_id, None);
            assert_eq!(record.updated_at, 300);
        }
        other => panic!("unexpected command: {:?}", other),
    }
}

#[test]
fn exited_workload_moves_the_record_to_stopped() {
    let records = vec![rec("c1", ContainerStatus::Running, Some("rt-1"))];
    let outcomes = vec![ActionOutcome::InspectOk { state: "exited".to_owned() }];
    let out = run_tick(&records, &outcomes, 300);
    assert_eq!(out.len(), 1);
    assert_eq!(out[0].status, ContainerStatus::Stopped);
    assert_eq!(out[0].runtime_id.as_deref(), Some("rt-1"));
}

#[test]
fn running_report_leaves_the_record_untouched() {
    let r = rec("c1", ContainerStatus::Running, Some("rt-1"));
    let cmd = apply_outcome(&r, &ActionOutcome::InspectOk { state: "running".to_owned() }, 300);
    assert_eq!(cmd, StoreCommand::Keep);
    let out = run_tick(&vec![r], &vec![ActionOutcome::InspectOk { state: "running".to_owned() }], 300);
    assert_eq!(out.len(), 1);
    assert_eq!(out[0].status, ContainerStatus::Running);
    assert_eq!(out[0].runtime_id.as_deref(), Some("rt-1"));
    assert_eq!(out[0].updated_at, 200);
}

#[test]
fn inspect_failure_is_transient() {
    let cmd = apply_outcome(
        &rec("c1", ContainerStatus::Running, Some("rt-1")),
        &ActionOutcome::InspectFailed,
        300,
    );
    assert_eq!(cmd, StoreCommand::Keep);
}

#[test]
fn removing_record_is_deleted_even_when_stop_fails() {
    let records = vec![rec("c1", ContainerStatus::Removing, Some("rt-1"))];
    let outcomes = vec![ActionOutcome::TeardownDone { stop_ok: false, remove_ok: true }];
    let out = run_tick(&records, &outcomes, 300);
    assert!(out.is_empty());
}

#[test]
fn removing_record_is_deleted_even_when_everything_fails() {
    let cmd = apply_outcome(
        &rec("c1", ContainerStatus::Removing, Some("rt-1")),
        &ActionOutcome::TeardownDone { stop_ok: false, remove_ok: false },
        300,
    );
    assert_eq!(cmd, StoreCommand::Delete);
}

#[test]
fn removing_record_without_handle_is_still_deleted() {
    let cmd = apply_outcome(&rec("c1", ContainerStatus::Removing, None), &ActionOutcome::Skipped, 300);
    assert_eq!(cmd, StoreCommand::Delete);
}

#[test]
fn terminal_records_stay_put_when_cleanup_fails() {
    for status in [ContainerStatus::Stopped, ContainerStatus::Failed] {
        let cmd = apply_outcome(
            &rec("c1", status, Some("rt-1")),
            &ActionOutcome::CleanupDone { remove_ok: false },
            300,
        );
        assert_eq!(cmd, StoreCommand::Keep);
    }
}

#[test]
fn one_failure_does_not_stop_the_other_records() {
    let records = vec![
        rec("c1", ContainerStatus::Pending, None),
        rec("c2", ContainerStatus::Pending, None),
        rec("c3", ContainerStatus::Created, Some("rt-3")),
    ];
    let outcomes = vec![
        ActionOutcome::CreateOk { runtime_id: "rt-1".to_owned() },
        ActionOutcome::CreateFailed,
        ActionOutcome::StartOk,
    ];
    let out = run_tick(&records, &outcomes, 300);
    assert_eq!(out.len(), 3);
    assert_eq!(out[0].id, "c1");
    assert_eq!(out[0].status, ContainerStatus::Created);
    assert_eq!(out[0].runtime_id.as_deref(), Some("rt-1"));
    assert_eq!(out[1].id, "c2");
    assert_eq!(out[1].status, ContainerStatus::Failed);
    assert_eq!(out[2].id, "c3");
    assert_eq!(out[2].status, ContainerStatus::Running);
}
