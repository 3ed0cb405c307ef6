use vstd::prelude::*;

use crate::status::ContainerStatus;

verus! {

/// Mathematical model of a container record: the fields the engine reasons
/// about, with strings as character sequences and timestamps as integers.
#[verifier::ext_equal]
pub ghost struct RecordModel {
    pub id: Seq<char>,
    pub name: Seq<char>,
    pub image: Seq<char>,
    pub status: ContainerStatus,
    pub runtime_id: Option<Seq<char>>,
    pub created_at: int,
    pub updated_at: int,
}

impl RecordModel {
    /// Well-formedness: timestamps are ordered, and a record that the
    /// runtime does not know about yet carries no runtime handle.
    pub open spec fn wf(self) -> bool {
        &&& self.time_ok()
        &&& (self.status is Pending ==> self.runtime_id is None)
    }

    /// The timestamp part of well-formedness on its own: every update
    /// refreshes `updated_at`, so it never lies before `created_at`.
    pub open spec fn time_ok(self) -> bool {
        self.created_at <= self.updated_at
    }
}

/// A persisted container record: the unit the reconciliation engine works on.
///
/// `id` is the immutable store key; `runtime_id` is the opaque handle the
/// runtime driver returned once the workload was created there, and is absent
/// until then.  Timestamps count seconds since the Unix epoch.
#[derive(Debug, PartialEq)]
pub struct ContainerRecord {
    pub id: String,
    pub name: String,
    pub image: String,
    pub status: ContainerStatus,
    pub runtime_id: Option<String>,
    pub created_at: i64,
    pub updated_at: i64,
}

impl View for ContainerRecord {
    type V = RecordModel;

    open spec fn view(&self) -> RecordModel {
        RecordModel {
            id: self.id@,
            name: self.name@,
            image: self.image@,
            status: self.status,
            runtime_id: match self.runtime_id {
                Option::Some(s) => Option::Some(s@),
                Option::None => Option::None,
            },
            created_at: self.created_at as int,
            updated_at: self.updated_at as int,
        }
    }
}

impl Clone for ContainerRecord {
    fn clone(&self) -> (res: Self)
        ensures
            res@ == self@,
    {
        let res = ContainerRecord {
            id: self.id.clone(),
            name: self.name.clone(),
            image: self.image.clone(),
            status: self.status,
            runtime_id: match &self.runtime_id {
                Option::Some(s) => Option::Some(s.clone()),
                Option::None => Option::None,
            },
            created_at: self.created_at,
            updated_at: self.updated_at,
        };
        proof {
            assert(res@ =~= self@);
        }
        res
    }
}

/// Relies on uuid::Uuid::new_v4 and its Display form: a random version-4
/// identifier rendered as 36 hyphenated characters.  Nothing is assumed
/// beyond the length, since the value is random.
#[verifier::external_body]
fn fresh_record_id() -> (id: String)
    ensures
        id@.len() == 36,
{
    uuid::Uuid::new_v4().to_string()
}

/// Relies on chrono::Utc::now and chrono::DateTime::timestamp: the current
/// wall-clock time as whole seconds since the Unix epoch.  Nothing is assumed
/// of the value, since it depends on the clock.
#[verifier::external_body]
fn clock_now() -> (t: i64) {
    chrono::Utc::now().timestamp()
}

/// A timestamp for the next change to `r`: the current clock reading, held
/// back to `r.updated_at` if the clock lags behind it, so that `updated_at`
/// never moves backwards.
pub fn next_timestamp(r: &ContainerRecord) -> (t: i64)
    ensures
        t >= r@.updated_at,
{
    let c = clock_now();
    if c > r.updated_at {
        c
    } else {
        r.updated_at
    }
}

impl ContainerRecord {
    /// Builds a fresh record around the given key: the state the creation
    /// path persists, before the engine has done anything.
    pub fn new(id: String, name: String, image: String, now: i64) -> (r: ContainerRecord)
        ensures
            r@ == (RecordModel {
                id: id@,
                name: name@,
                image: image@,
                status: ContainerStatus::Pending,
                runtime_id: None,
                created_at: now as int,
                updated_at: now as int,
            }),
            r@.wf(),
    {
        let r = ContainerRecord {
            id,
            name,
            image,
            status: ContainerStatus::Pending,
            runtime_id: None,
            created_at: now,
            updated_at: now,
        };
        r
    }

    /// The record the external creation request persists: a fresh random
    /// key, status `Pending`, and both timestamps read from the clock now.
    pub fn create(name: String, image: String) -> (r: ContainerRecord)
        ensures
            r@.name == name@,
            r@.image == image@,
            r@.status is Pending,
            r@.runtime_id is None,
            r@.created_at == r@.updated_at,
            r@.id.len() == 36,
            r@.wf(),
    {
        let id = fresh_record_id();
        let now = clock_now();
        ContainerRecord::new(id, name, image, now)
    }

    /// Moves the record to `status` and refreshes `updated_at`.  The engine
    /// never moves a record back to `Pending`, so that state is excluded.
    pub fn update_status(&mut self, status: ContainerStatus, now: i64)
        requires
            old(self)@.time_ok(),
            now >= old(self)@.updated_at,
            !(status is Pending),
        ensures
            final(self)@ == (RecordModel {
                status: status,
                updated_at: now as int,
                ..old(self)@
            }),
            final(self)@.time_ok(),
            old(self)@.wf() ==> final(self)@.wf(),
    {
        self.status = status;
        self.updated_at = now;
    }

    /// Stores the handle the runtime driver returned and refreshes
    /// `updated_at`.  A record still in `Pending` carries no handle, so the
    /// caller moves it out of `Pending` first.
    pub fn set_runtime_id(&mut self, runtime_id: String, now: i64)
        requires
            old(self)@.time_ok(),
            now >= old(self)@.updated_at,
            !(old(self)@.status is Pending),
        ensures
            final(self)@ == (RecordModel {
                runtime_id: Some(runtime_id@),
                updated_at: now as int,
                ..old(self)@
            }),
            final(self)@.time_ok(),
            old(self)@.wf() ==> final(self)@.wf(),
    {
        self.runtime_id = Some(runtime_id);
        self.updated_at = now;
    }

    /// Marks the record for deletion: the engine will tear the workload down
    /// and then drop the record from the store.
    pub fn request_removal(&mut self, now: i64)
        requires
            old(self)@.time_ok(),
            now >= old(self)@.updated_at,
        ensures
            final(self)@ == (RecordModel {
                status: ContainerStatus::Removing,
                updated_at: now as int,
                ..old(self)@
            }),
            final(self)@.time_ok(),
            old(self)@.wf() ==> final(self)@.wf(),
    {
        self.status = ContainerStatus::Removing;
        self.updated_at = now;
    }
}

} // verus!
