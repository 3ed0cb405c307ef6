use vstd::prelude::*;
use vstd::seq_lib::*;

use crate::record::{ContainerRecord, RecordModel};
use crate::status::ContainerStatus;
use crate::text::str_eq;

verus! {

// ---------------------------------------------------------------------------
// The engine's vocabulary: one runtime action per record and tick, the
// outcome the driver reported for it, and the store write that follows.
// ---------------------------------------------------------------------------

/// Model of the single runtime operation a record's status calls for.
pub ghost enum ActionModel {
    CreateWorkload { name: Seq<char>, image: Seq<char> },
    StartWorkload { runtime_id: Seq<char> },
    InspectWorkload { runtime_id: Seq<char> },
    TeardownWorkload { runtime_id: Seq<char> },
    RemoveWorkload { runtime_id: Seq<char> },
    NoOp,
}

/// Model of what the runtime driver reported back for an action.
pub ghost enum OutcomeModel {
    CreateOk { runtime_id: Seq<char> },
    CreateFailed,
    StartOk,
    StartFailed,
    InspectOk { state: Seq<char> },
    InspectFailed,
    TeardownDone { stop_ok: bool, remove_ok: bool },
    CleanupDone { remove_ok: bool },
    Skipped,
}

/// Model of the store write that closes one record's reconcile step.
pub ghost enum CommandModel {
    Persist { record: RecordModel },
    Delete,
    Keep,
}

/// The single runtime operation a record's status calls for.
#[derive(Debug, PartialEq)]
pub enum RuntimeAction {
    /// Create the workload in the runtime from `name` and `image`.
    CreateWorkload { name: String, image: String },
    /// Start the workload known to the runtime as `runtime_id`.
    StartWorkload { runtime_id: String },
    /// Ask the runtime for the workload's current state.
    InspectWorkload { runtime_id: String },
    /// Stop the workload and then remove it, each best-effort.
    TeardownWorkload { runtime_id: String },
    /// Remove the workload, best-effort.
    RemoveWorkload { runtime_id: String },
    /// No runtime call is due for this record.
    NoOp,
}

impl View for RuntimeAction {
    type V = ActionModel;

    open spec fn view(&self) -> ActionModel {
        match self {
            RuntimeAction::CreateWorkload { name, image } => ActionModel::CreateWorkload {
                name: name@,
                image: image@,
            },
            RuntimeAction::StartWorkload { runtime_id } => ActionModel::StartWorkload {
                runtime_id: runtime_id@,
            },
            RuntimeAction::InspectWorkload { runtime_id } => ActionModel::InspectWorkload {
                runtime_id: runtime_id@,
            },
            RuntimeAction::TeardownWorkload { runtime_id } => ActionModel::TeardownWorkload {
                runtime_id: runtime_id@,
            },
            RuntimeAction::RemoveWorkload { runtime_id } => ActionModel::RemoveWorkload {
                runtime_id: runtime_id@,
            },
            RuntimeAction::NoOp => ActionModel::NoOp,
        }
    }
}

/// What the runtime driver reported back for an action.
#[derive(Debug, PartialEq)]
pub enum ActionOutcome {
    /// Creation succeeded; the runtime returned this handle.
    CreateOk { runtime_id: String },
    CreateFailed,
    StartOk,
    StartFailed,
    /// Inspection succeeded; the runtime reported this state string.
    InspectOk { state: String },
    InspectFailed,
    /// Stop and remove were both attempted; each flag tells whether the
    /// respective call succeeded.
    TeardownDone { stop_ok: bool, remove_ok: bool },
    /// A best-effort remove was attempted for a terminal record.
    CleanupDone { remove_ok: bool },
    /// No runtime call was made.
    Skipped,
}

impl View for ActionOutcome {
    type V = OutcomeModel;

    open spec fn view(&self) -> OutcomeModel {
        match self {
            ActionOutcome::CreateOk { runtime_id } => OutcomeModel::CreateOk {
                runtime_id: runtime_id@,
            },
            ActionOutcome::CreateFailed => OutcomeModel::CreateFailed,
            ActionOutcome::StartOk => OutcomeModel::StartOk,
            ActionOutcome::StartFailed => OutcomeModel::StartFailed,
            ActionOutcome::InspectOk { state } => OutcomeModel::InspectOk { state: state@ },
            ActionOutcome::InspectFailed => OutcomeModel::InspectFailed,
            ActionOutcome::TeardownDone { stop_ok, remove_ok } => OutcomeModel::TeardownDone {
                stop_ok: *stop_ok,
                remove_ok: *remove_ok,
            },
            ActionOutcome::CleanupDone { remove_ok } => OutcomeModel::CleanupDone {
                remove_ok: *remove_ok,
            },
            ActionOutcome::Skipped => OutcomeModel::Skipped,
        }
    }
}

/// The store write that closes one record's reconcile step.
#[derive(Debug, PartialEq)]
pub enum StoreCommand {
    /// Write this record back under its key.
    Persist { record: ContainerRecord },
    /// Delete the record from the store.
    Delete,
    /// Leave the store untouched for this record.
    Keep,
}

impl View for StoreCommand {
    type V = CommandModel;

    open spec fn view(&self) -> CommandModel {
        match self {
            StoreCommand::Persist { record } => CommandModel::Persist { record: record@ },
            StoreCommand::Delete => CommandModel::Delete,
            StoreCommand::Keep => CommandModel::Keep,
        }
    }
}

// ---------------------------------------------------------------------------
// The decision table.
// ---------------------------------------------------------------------------

/// Which runtime action a record's status calls for.  A `Pending` record is
/// always submitted for creation, even in the anomalous case where it already
/// carries a runtime handle: a duplicate creation then surfaces as a driver
/// failure rather than being silently ignored.
pub open spec fn plan(r: RecordModel) -> ActionModel {
    match r.status {
        ContainerStatus::Pending => ActionModel::CreateWorkload { name: r.name, image: r.image },
        ContainerStatus::Created => match r.runtime_id {
            Option::Some(rid) => ActionModel::StartWorkload { runtime_id: rid },
            Option::None => ActionModel::NoOp,
        },
        ContainerStatus::Running => match r.runtime_id {
            Option::Some(rid) => ActionModel::InspectWorkload { runtime_id: rid },
            Option::None => ActionModel::NoOp,
        },
        ContainerStatus::Removing => match r.runtime_id {
            Option::Some(rid) => ActionModel::TeardownWorkload { runtime_id: rid },
            Option::None => ActionModel::NoOp,
        },
        ContainerStatus::Stopped | ContainerStatus::Failed => match r.runtime_id {
            Option::Some(rid) => ActionModel::RemoveWorkload { runtime_id: rid },
            Option::None => ActionModel::NoOp,
        },
    }
}

/// Whether an outcome is one the planned action can report: each action has
/// its own family of outcomes, and only a `NoOp` is `Skipped`.
pub open spec fn corresponds(o: OutcomeModel, a: ActionModel) -> bool {
    match o {
        OutcomeModel::CreateOk { .. } | OutcomeModel::CreateFailed => a is CreateWorkload,
        OutcomeModel::StartOk | OutcomeModel::StartFailed => a is StartWorkload,
        OutcomeModel::InspectOk { .. } | OutcomeModel::InspectFailed => a is InspectWorkload,
        OutcomeModel::TeardownDone { .. } => a is TeardownWorkload,
        OutcomeModel::CleanupDone { .. } => a is RemoveWorkload,
        OutcomeModel::Skipped => a is NoOp,
    }
}

/// The status a runtime-reported state string stands for: the states with a
/// counterpart in the enumeration map to it, anything unrecognized counts as
/// `Stopped`.
pub open spec fn report_status(s: Seq<char>) -> ContainerStatus {
    if s == "running"@ {
        ContainerStatus::Running
    } else if s == "created"@ {
        ContainerStatus::Created
    } else {
        ContainerStatus::Stopped
    }
}

/// The store write that follows from a record's status and the driver's
/// outcome, with `updated_at` refreshed to `now` on every write.  An outcome
/// that does not belong to the status's own action leaves the store
/// untouched.
pub open spec fn next_command(r: RecordModel, o: OutcomeModel, now: int) -> CommandModel {
    match r.status {
        ContainerStatus::Pending => match o {
            OutcomeModel::CreateOk { runtime_id } => CommandModel::Persist {
                record: RecordModel {
                    status: ContainerStatus::Created,
                    runtime_id: Option::Some(runtime_id),
                    updated_at: now,
                    ..r
                },
            },
            OutcomeModel::CreateFailed => CommandModel::Persist {
                record: RecordModel { status: ContainerStatus::Failed, updated_at: now, ..r },
            },
            _ => CommandModel::Keep,
        },
        ContainerStatus::Created => match o {
            OutcomeModel::StartOk => CommandModel::Persist {
                record: RecordModel { status: ContainerStatus::Running, updated_at: now, ..r },
            },
            OutcomeModel::StartFailed => CommandModel::Persist {
                record: RecordModel { status: ContainerStatus::Failed, updated_at: now, ..r },
            },
            _ => CommandModel::Keep,
        },
        ContainerStatus::Running => match o {
            OutcomeModel::InspectOk { state } => if state == "running"@ {
                CommandModel::Keep
            } else {
                CommandModel::Persist {
                    record: RecordModel { status: report_status(state), updated_at: now, ..r },
                }
            },
            _ => CommandModel::Keep,
        },
        ContainerStatus::Removing => CommandModel::Delete,
        ContainerStatus::Stopped | ContainerStatus::Failed => CommandModel::Keep,
    }
}

// ---------------------------------------------------------------------------
// Executable decisions, proved against the table.
// ---------------------------------------------------------------------------

impl ContainerStatus {
    /// Maps a runtime-reported state string into the enumeration.
    pub fn from_report(s: &str) -> (r: ContainerStatus)
        ensures
            r == report_status(s@),
    {
        if str_eq(s, "running") {
            ContainerStatus::Running
        } else if str_eq(s, "created") {
            ContainerStatus::Created
        } else {
            ContainerStatus::Stopped
        }
    }
}

/// Decides which runtime action is due for `record`.
pub fn plan_action(record: &ContainerRecord) -> (a: RuntimeAction)
    ensures
        a@ == plan(record@),
{
    match record.status {
        ContainerStatus::Pending => RuntimeAction::CreateWorkload {
            name: record.name.clone(),
            image: record.image.clone(),
        },
        ContainerStatus::Created => match &record.runtime_id {
            Option::Some(rid) => RuntimeAction::StartWorkload { runtime_id: rid.clone() },
            Option::None => RuntimeAction::NoOp,
        },
        ContainerStatus::Running => match &record.runtime_id {
            Option::Some(rid) => RuntimeAction::InspectWorkload { runtime_id: rid.clone() },
            Option::None => RuntimeAction::NoOp,
        },
        ContainerStatus::Removing => match &record.runtime_id {
            Option::Some(rid) => RuntimeAction::TeardownWorkload { runtime_id: rid.clone() },
            Option::None => RuntimeAction::NoOp,
        },
        ContainerStatus::Stopped | ContainerStatus::Failed => match &record.runtime_id {
            Option::Some(rid) => RuntimeAction::RemoveWorkload { runtime_id: rid.clone() },
            Option::None => RuntimeAction::NoOp,
        },
    }
}

/// Turns the driver's outcome for `record` into the store write that closes
/// this record's step.  Every write refreshes `updated_at` to `now`, and a
/// well-formed record is written back well-formed.
pub fn apply_outcome(record: &ContainerRecord, outcome: &ActionOutcome, now: i64) -> (cmd:
    StoreCommand)
    requires
        record@.time_ok(),
        now >= record@.updated_at,
    ensures
        cmd@ == next_command(record@, outcome@, now as int),
        record@.wf() ==> (cmd@ matches CommandModel::Persist { record: r2 } ==> r2.wf()),
{
    match record.status {
        ContainerStatus::Pending => match outcome {
            ActionOutcome::CreateOk { runtime_id } => {
                let mut r2 = record.clone();
                r2.update_status(ContainerStatus::Created, now);
                r2.set_runtime_id(runtime_id.clone(), now);
                StoreCommand::Persist { record: r2 }
            },
            ActionOutcome::CreateFailed => {
                let mut r2 = record.clone();
                r2.update_status(ContainerStatus::Failed, now);
                StoreCommand::Persist { record: r2 }
            },
            _ => StoreCommand::Keep,
        },
        ContainerStatus::Created => match outcome {
            ActionOutcome::StartOk => {
                let mut r2 = record.clone();
                r2.update_status(ContainerStatus::Running, now);
                StoreCommand::Persist { record: r2 }
            },
            ActionOutcome::StartFailed => {
                let mut r2 = record.clone();
                r2.update_status(ContainerStatus::Failed, now);
                StoreCommand::Persist { record: r2 }
            },
            _ => StoreCommand::Keep,
        },
        ContainerStatus::Running => match outcome {
            ActionOutcome::InspectOk { state } => {
                if str_eq(state.as_str(), "running") {
                    StoreCommand::Keep
                } else {
                    let mut r2 = record.clone();
                    r2.update_status(ContainerStatus::from_report(state.as_str()), now);
                    StoreCommand::Persist { record: r2 }
                }
            },
            _ => StoreCommand::Keep,
        },
        ContainerStatus::Removing => StoreCommand::Delete,
        ContainerStatus::Stopped | ContainerStatus::Failed => StoreCommand::Keep,
    }
}

// ---------------------------------------------------------------------------
// One tick over a whole record set.
// ---------------------------------------------------------------------------

/// What one record contributes to the store after its step: its update under
/// `Persist`, nothing under `Delete`, itself unchanged under `Keep`.
pub open spec fn record_fate(r: RecordModel, o: OutcomeModel, now: int) -> Seq<RecordModel> {
    match next_command(r, o, now) {
        CommandModel::Persist { record } => seq![record],
        CommandModel::Delete => seq![],
        CommandModel::Keep => seq![r],
    }
}

/// The store contents after one tick: every record's fate, in store order.
/// Each record is decided from its own status and outcome alone.
pub open spec fn tick_result(rs: Seq<RecordModel>, os: Seq<OutcomeModel>, now: int) -> Seq<
    RecordModel,
>
    decreases rs.len(),
{
    if rs.len() == 0 {
        Seq::empty()
    } else {
        tick_result(rs.drop_last(), os.drop_last(), now) + record_fate(rs.last(), os.last(), now)
    }
}

/// The models of a sequence of records.
pub open spec fn records_view(rs: Seq<ContainerRecord>) -> Seq<RecordModel> {
    rs.map_values(|r: ContainerRecord| r@)
}

/// The models of a sequence of outcomes.
pub open spec fn outcomes_view(os: Seq<ActionOutcome>) -> Seq<OutcomeModel> {
    os.map_values(|o: ActionOutcome| o@)
}

/// The record-wise conditions under which a tick may run: ordered timestamps,
/// and a tick time no earlier than any record's last update.
pub open spec fn tick_inputs_ok(rs: Seq<RecordModel>, now: int) -> bool {
    forall|k: int|
        0 <= k < rs.len() ==> (#[trigger] rs[k]).time_ok() && now >= rs[k].updated_at
}

/// Runs one tick against an in-memory record set: applies each record's
/// outcome in order and returns the store contents that result.
pub fn run_tick(records: &Vec<ContainerRecord>, outcomes: &Vec<ActionOutcome>, now: i64) -> (out:
    Vec<ContainerRecord>)
    requires
        records@.len() == outcomes@.len(),
        tick_inputs_ok(records_view(records@), now as int),
    ensures
        records_view(out@) == tick_result(
            records_view(records@),
            outcomes_view(outcomes@),
            now as int,
        ),
{
    let ghost rv = records_view(records@);
    let ghost ov = outcomes_view(outcomes@);
    let mut out: Vec<ContainerRecord> = Vec::new();
    let mut i: usize = 0;
    while i < records.len()
        invariant
            i <= records@.len(),
            records@.len() == outcomes@.len(),
            rv == records_view(records@),
            ov == outcomes_view(outcomes@),
            tick_inputs_ok(rv, now as int),
            records_view(out@) == tick_result(rv.take(i as int), ov.take(i as int), now as int),
        decreases records@.len() - i,
    {
        let ghost prev = records_view(out@);
        proof {
            assert(rv[i as int] == records@[i as int]@);
            assert(rv[i as int].time_ok());
        }
        let cmd = apply_outcome(&records[i], &outcomes[i], now);
        match cmd {
            StoreCommand::Persist { record } => out.push(record),
            StoreCommand::Delete => {},
            StoreCommand::Keep => out.push(records[i].clone()),
        }
        proof {
            let fate = record_fate(rv[i as int], ov[i as int], now as int);
            assert(records_view(out@) =~= prev + fate);
            assert(rv.take(i + 1).drop_last() =~= rv.take(i as int));
            assert(ov.take(i + 1).drop_last() =~= ov.take(i as int));
            assert(rv.take(i + 1).last() == rv[i as int]);
            assert(records_view(out@) == tick_result(rv.take(i + 1), ov.take(i + 1), now as int));
        }
        i += 1;
    }
    proof {
        assert(rv.take(rv.len() as int) =~= rv);
        assert(ov.take(ov.len() as int) =~= ov);
    }
    out
}

} // verus!
