use vstd::prelude::*;

use crate::text::str_eq;

verus! {

/// Lifecycle states of a container record.  A status is persisted in the
/// record store under exactly the string that `status_name` gives.
#[derive(Clone, Copy, Debug, PartialEq, Eq, Structural)]
pub enum ContainerStatus {
    /// The record exists but no runtime counterpart does yet.
    Pending,
    /// The runtime counterpart exists but has not been started.
    Created,
    /// The runtime counterpart is believed to be running.
    Running,
    /// The runtime counterpart exists but is not running.
    Stopped,
    /// An operation failed; the record is retained for diagnostics.
    Failed,
    /// Deletion was requested; the runtime counterpart is to be torn down
    /// and the record then removed from the store.
    Removing,
}

/// The exact string under which a status is persisted.
pub open spec fn status_name(s: ContainerStatus) -> Seq<char> {
    match s {
        ContainerStatus::Pending => "Pending"@,
        ContainerStatus::Created => "Created"@,
        ContainerStatus::Running => "Running"@,
        ContainerStatus::Stopped => "Stopped"@,
        ContainerStatus::Failed => "Failed"@,
        ContainerStatus::Removing => "Removing"@,
    }
}

/// The status that a persisted string denotes, if it denotes one at all.
pub open spec fn parse_status(s: Seq<char>) -> Option<ContainerStatus> {
    if s == status_name(ContainerStatus::Pending) {
        Some(ContainerStatus::Pending)
    } else if s == status_name(ContainerStatus::Created) {
        Some(ContainerStatus::Created)
    } else if s == status_name(ContainerStatus::Running) {
        Some(ContainerStatus::Running)
    } else if s == status_name(ContainerStatus::Stopped) {
        Some(ContainerStatus::Stopped)
    } else if s == status_name(ContainerStatus::Failed) {
        Some(ContainerStatus::Failed)
    } else if s == status_name(ContainerStatus::Removing) {
        Some(ContainerStatus::Removing)
    } else {
        None
    }
}

impl ContainerStatus {
    /// The persisted form of this status.
    pub fn as_str(&self) -> (r: &'static str)
        ensures
            r@ == status_name(*self),
    {
        match self {
            ContainerStatus::Pending => "Pending",
            ContainerStatus::Created => "Created",
            ContainerStatus::Running => "Running",
            ContainerStatus::Stopped => "Stopped",
            ContainerStatus::Failed => "Failed",
            ContainerStatus::Removing => "Removing",
        }
    }

    /// Reads a status back from its persisted form; unknown strings are
    /// rejected rather than mapped to a default.
    pub fn parse(s: &str) -> (r: Option<ContainerStatus>)
        ensures
            r == parse_status(s@),
    {
        if str_eq(s, "Pending") {
            Some(ContainerStatus::Pending)
        } else if str_eq(s, "Created") {
            Some(ContainerStatus::Created)
        } else if str_eq(s, "Running") {
            Some(ContainerStatus::Running)
        } else if str_eq(s, "Stopped") {
            Some(ContainerStatus::Stopped)
        } else if str_eq(s, "Failed") {
            Some(ContainerStatus::Failed)
        } else if str_eq(s, "Removing") {
            Some(ContainerStatus::Removing)
        } else {
            None
        }
    }
}

/// Serialization of a status is lossless: parsing the persisted name gives
/// the status back.
pub proof fn lemma_status_name_round_trip(s: ContainerStatus)
    ensures
        parse_status(status_name(s)) == Some(s),
{
    reveal_strlit("Pending");
    reveal_strlit("Created");
    reveal_strlit("Running");
    reveal_strlit("Stopped");
    reveal_strlit("Failed");
    reveal_strlit("Removing");
    assert(("Pending"@).len() == 7);
    assert(("Created"@).len() == 7);
    assert(("Running"@).len() == 7);
    assert(("Stopped"@).len() == 7);
    assert(("Failed"@).len() == 6);
    assert(("Removing"@).len() == 8);
    assert(("Pending"@)[0] == 'P');
    assert(("Created"@)[0] == 'C');
    assert(("Running"@)[0] == 'R');
    assert(("Stopped"@)[0] == 'S');
}

} // verus!
