use vstd::prelude::*;
use vstd::seq_lib::*;

use crate::engine::{
    corresponds, next_command, plan, record_fate, tick_result, CommandModel, OutcomeModel,
};
use crate::record::RecordModel;

verus! {

// ---------------------------------------------------------------------------
// Guarantees of a single reconcile step.
// ---------------------------------------------------------------------------

/// A `Pending` record whose creation succeeded: one pass moves it to
/// `Created`, stores exactly the handle the driver returned, and strictly
/// advances `updated_at`.
pub proof fn lemma_pending_creation(r: RecordModel, rid: Seq<char>, now: int)
    requires
        r.wf(),
        r.status is Pending,
        now > r.updated_at,
    ensures
        ({
            let cmd = next_command(r, OutcomeModel::CreateOk { runtime_id: rid }, now);
            &&& cmd matches CommandModel::Persist { record: r2 }
            &&& r2.status is Created
            &&& r2.runtime_id == Some(rid)
            &&& r2.updated_at == now
            &&& r2.updated_at > r.updated_at
            &&& r2.id == r.id
            &&& r2.name == r.name
            &&& r2.image == r.image
            &&& r2.created_at == r.created_at
            &&& r2.wf()
        }),
{
}

/// Whether an outcome reports a driver failure during its action.
pub open spec fn reports_failure(o: OutcomeModel) -> bool {
    match o {
        OutcomeModel::CreateFailed => true,
        OutcomeModel::StartFailed => true,
        OutcomeModel::InspectFailed => true,
        OutcomeModel::TeardownDone { stop_ok, remove_ok } => !stop_ok || !remove_ok,
        OutcomeModel::CleanupDone { remove_ok } => !remove_ok,
        _ => false,
    }
}

/// A driver failure never strays: it moves a `Pending` or `Created` record to
/// `Failed` with every other field untouched, leaves a `Running`, `Stopped`
/// or `Failed` record exactly as it was, and still deletes a `Removing`
/// record — never a silent change to an unrelated value.
pub proof fn lemma_failure_never_strays(r: RecordModel, o: OutcomeModel, now: int)
    requires
        corresponds(o, plan(r)),
        reports_failure(o),
    ensures
        r.status is Pending || r.status is Created ==> ({
            let cmd = next_command(r, o, now);
            &&& cmd matches CommandModel::Persist { record: r2 }
            &&& r2.status is Failed
            &&& r2.runtime_id == r.runtime_id
            &&& r2.id == r.id
            &&& r2.name == r.name
            &&& r2.image == r.image
            &&& r2.created_at == r.created_at
        }),
        r.status is Running || r.status is Stopped || r.status is Failed ==> next_command(
            r,
            o,
            now,
        ) is Keep,
        r.status is Removing ==> next_command(r, o, now) is Delete,
{
}

/// Reconciling a `Running` record whose inspection still reports "running"
/// is a no-op: no store write, so status, handle and timestamps all stay.
pub proof fn lemma_running_steady(r: RecordModel, now: int)
    requires
        r.status is Running,
    ensures
        next_command(r, OutcomeModel::InspectOk { state: "running"@ }, now) is Keep,
{
}

/// Whatever the driver's stop and remove calls did, one pass over a
/// `Removing` record ends with the record deleted from the store.
pub proof fn lemma_removing_deleted(r: RecordModel, o: OutcomeModel, now: int)
    requires
        r.status is Removing,
    ensures
        next_command(r, o, now) is Delete,
{
}

// ---------------------------------------------------------------------------
// Guarantees of a whole tick.
// ---------------------------------------------------------------------------

/// A record's fate never changes its key: whatever a step writes back, it
/// writes back under the record's own id.
pub proof fn lemma_fate_keeps_id(r: RecordModel, o: OutcomeModel, now: int)
    ensures
        forall|j: int|
            0 <= j < record_fate(r, o, now).len() ==> (#[trigger] record_fate(r, o, now)[j]).id
                == r.id,
{
}

/// After a tick, no record remains under a key that only `Removing` records
/// held before the tick.
pub proof fn lemma_removing_absent_after_tick(
    rs: Seq<RecordModel>,
    os: Seq<OutcomeModel>,
    now: int,
    key: Seq<char>,
)
    requires
        rs.len() == os.len(),
        forall|i: int| 0 <= i < rs.len() && (#[trigger] rs[i]).id == key ==> rs[i].status is Removing,
    ensures
        forall|j: int|
            0 <= j < tick_result(rs, os, now).len() ==> (#[trigger] tick_result(rs, os, now)[j]).id
                != key,
    decreases rs.len(),
{
    if rs.len() > 0 {
        lemma_removing_absent_after_tick(rs.drop_last(), os.drop_last(), now, key);
        lemma_fate_keeps_id(rs.last(), os.last(), now);
        if rs.last().id == key {
            assert(rs.last().status is Removing);
            assert(record_fate(rs.last(), os.last(), now) =~= Seq::<RecordModel>::empty());
        }
    }
}

/// A step started no later than `now` hands back only well-formed records:
/// the timestamps stay ordered and only the creation step, which moves the
/// record out of `Pending`, ever sets the runtime handle.
pub proof fn lemma_fate_preserves_wf(r: RecordModel, o: OutcomeModel, now: int)
    requires
        r.wf(),
        r.updated_at <= now,
    ensures
        forall|j: int|
            0 <= j < record_fate(r, o, now).len() ==> (#[trigger] record_fate(r, o, now)[j]).wf(),
{
}

/// The record invariants survive a whole tick: a store of well-formed
/// records is still well-formed after every record's step.
pub proof fn lemma_tick_preserves_wf(rs: Seq<RecordModel>, os: Seq<OutcomeModel>, now: int)
    requires
        rs.len() == os.len(),
        forall|i: int| 0 <= i < rs.len() ==> (#[trigger] rs[i]).wf(),
        forall|i: int| 0 <= i < rs.len() ==> (#[trigger] rs[i]).updated_at <= now,
    ensures
        forall|j: int|
            0 <= j < tick_result(rs, os, now).len() ==> (#[trigger] tick_result(rs, os, now)[j]).wf(),
    decreases rs.len(),
{
    if rs.len() > 0 {
        assert forall|i: int| 0 <= i < rs.drop_last().len() implies (#[trigger] rs.drop_last()[i]).wf()
            && rs.drop_last()[i].updated_at <= now by {
            assert(rs.drop_last()[i] == rs[i]);
        }
        lemma_tick_preserves_wf(rs.drop_last(), os.drop_last(), now);
        assert(rs.last().wf() && rs.last().updated_at <= now);
        lemma_fate_preserves_wf(rs.last(), os.last(), now);
        let prefix = tick_result(rs.drop_last(), os.drop_last(), now);
        let fate = record_fate(rs.last(), os.last(), now);
        assert forall|j: int| 0 <= j < tick_result(rs, os, now).len() implies (#[trigger] tick_result(
            rs,
            os,
            now,
        )[j]).wf() by {
            if j < prefix.len() {
                assert(tick_result(rs, os, now)[j] == prefix[j]);
            } else {
                assert(tick_result(rs, os, now)[j] == fate[j - prefix.len()]);
            }
        }
    }
}

/// One tick decomposes around any position: what stands before and after a
/// record contributes exactly its own fates, with the record's own fate in
/// between.
pub proof fn lemma_tick_split(rs: Seq<RecordModel>, os: Seq<OutcomeModel>, now: int, i: int)
    requires
        rs.len() == os.len(),
        0 <= i < rs.len(),
    ensures
        tick_result(rs, os, now) == tick_result(rs.take(i), os.take(i), now) + record_fate(
            rs[i],
            os[i],
            now,
        ) + tick_result(rs.skip(i + 1), os.skip(i + 1), now),
    decreases rs.len(),
{
    if i == rs.len() - 1 {
        assert(rs.drop_last() =~= rs.take(i));
        assert(os.drop_last() =~= os.take(i));
        assert(rs.skip(i + 1) =~= Seq::<RecordModel>::empty());
        assert(os.skip(i + 1) =~= Seq::<OutcomeModel>::empty());
        assert(tick_result(rs, os, now) =~= tick_result(rs.take(i), os.take(i), now)
            + record_fate(rs[i], os[i], now) + tick_result(
            rs.skip(i + 1),
            os.skip(i + 1),
            now,
        ));
    } else {
        lemma_tick_split(rs.drop_last(), os.drop_last(), now, i);
        assert(rs.drop_last().take(i) =~= rs.take(i));
        assert(os.drop_last().take(i) =~= os.take(i));
        assert(rs.drop_last()[i] == rs[i]);
        assert(rs.drop_last().skip(i + 1) =~= rs.skip(i + 1).drop_last());
        assert(os.drop_last().skip(i + 1) =~= os.skip(i + 1).drop_last());
        assert(rs.skip(i + 1).last() == rs.last());
        assert(os.skip(i + 1).last() == os.last());
        assert(rs.skip(i + 1).len() > 0);
        assert(tick_result(rs, os, now) =~= tick_result(rs.take(i), os.take(i), now)
            + record_fate(rs[i], os[i], now) + tick_result(
            rs.skip(i + 1),
            os.skip(i + 1),
            now,
        ));
    }
}

/// Isolation: however one record's outcome turns out — a driver failure
/// included — every other record of the tick contributes exactly the same
/// result.
pub proof fn lemma_tick_isolation(
    rs: Seq<RecordModel>,
    os1: Seq<OutcomeModel>,
    os2: Seq<OutcomeModel>,
    now: int,
    i: int,
)
    requires
        rs.len() == os1.len(),
        rs.len() == os2.len(),
        0 <= i < rs.len(),
        forall|j: int| 0 <= j < rs.len() && j != i ==> (#[trigger] os1[j]) == os2[j],
    ensures
        tick_result(rs, os1, now) == tick_result(rs.take(i), os1.take(i), now) + record_fate(
            rs[i],
            os1[i],
            now,
        ) + tick_result(rs.skip(i + 1), os1.skip(i + 1), now),
        tick_result(rs, os2, now) == tick_result(rs.take(i), os1.take(i), now) + record_fate(
            rs[i],
            os2[i],
            now,
        ) + tick_result(rs.skip(i + 1), os1.skip(i + 1), now),
{
    lemma_tick_split(rs, os1, now, i);
    lemma_tick_split(rs, os2, now, i);
    assert(os1.take(i) =~= os2.take(i));
    assert(os1.skip(i + 1) =~= os2.skip(i + 1));
}

} // verus!

