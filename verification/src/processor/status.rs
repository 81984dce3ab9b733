//! Service-level synchronization status and its wire form.

use vstd::prelude::*;

use crate::database::types::str_eq;

verus! {

/// Synchronization status of the bridge, as persisted in the service status
/// row. Transitions follow `Unsynced -> Pending -> Synced -> Unsynced`, with
/// a forced re-entry to `Unsynced` from any state on detected drift.
#[derive(Debug, Clone, Copy, PartialEq, Eq, Structural)]
pub enum BridgeStatus {
    Unsynced,
    Pending,
    Synced,
}

/// Error returned when a persisted status string names no known status.
#[derive(Debug, Clone, Copy, PartialEq, Eq, Structural)]
pub struct UnknownStatus;

/// What `BridgeStatus::from_str` returns on a given character sequence.
pub open spec fn spec_bridge_status_from_str(s: Seq<char>) -> Result<BridgeStatus, UnknownStatus> {
    if s == "unsynced"@ {
        Ok(BridgeStatus::Unsynced)
    } else if s == "pending"@ {
        Ok(BridgeStatus::Pending)
    } else if s == "synced"@ {
        Ok(BridgeStatus::Synced)
    } else {
        Err(UnknownStatus)
    }
}

/// The column form under which a bridge status is persisted: the store binds
/// the status value itself, which encodes as its lower-case name.
pub open spec fn spec_bridge_status_column(s: BridgeStatus) -> Seq<char> {
    match s {
        BridgeStatus::Unsynced => "unsynced"@,
        BridgeStatus::Pending => "pending"@,
        BridgeStatus::Synced => "synced"@,
    }
}

/// The borrowed-string form of a bridge status. Note that the synced form
/// here is capitalized and is not accepted by `from_str`; the persisted
/// column form is `spec_bridge_status_column`, which is lower-case.
pub open spec fn spec_bridge_status_str(s: BridgeStatus) -> Seq<char> {
    match s {
        BridgeStatus::Unsynced => "unsynced"@,
        BridgeStatus::Pending => "pending"@,
        BridgeStatus::Synced => "Synced"@,
    }
}

impl BridgeStatus {
    /// Parses the persisted wire form of a status. Only the three lower-case
    /// names are accepted.
    pub fn from_str(s: &str) -> (r: Result<BridgeStatus, UnknownStatus>)
        ensures
            r == spec_bridge_status_from_str(s@),
    {
        if str_eq(s, "unsynced") {
            Ok(BridgeStatus::Unsynced)
        } else if str_eq(s, "pending") {
            Ok(BridgeStatus::Pending)
        } else if str_eq(s, "synced") {
            Ok(BridgeStatus::Synced)
        } else {
            Err(UnknownStatus)
        }
    }

    /// Parses a status from a borrowed string; same behaviour as `from_str`.
    pub fn try_from(s: &str) -> (r: Result<BridgeStatus, UnknownStatus>)
        ensures
            r == spec_bridge_status_from_str(s@),
    {
        BridgeStatus::from_str(s)
    }

    /// The column form under which this status is persisted.
    pub fn column_str(&self) -> (r: &'static str)
        ensures
            r@ == spec_bridge_status_column(*self),
    {
        match self {
            BridgeStatus::Unsynced => "unsynced",
            BridgeStatus::Pending => "pending",
            BridgeStatus::Synced => "synced",
        }
    }

    /// The borrowed-string form of this status. The synced form is
    /// capitalized and does not parse back; the store never binds it, since
    /// a synced status is bound as its column form directly.
    pub fn as_db_str(&self) -> (r: &'static str)
        ensures
            r@ == spec_bridge_status_str(*self),
    {
        match self {
            BridgeStatus::Unsynced => "unsynced",
            BridgeStatus::Pending => "pending",
            BridgeStatus::Synced => "Synced",
        }
    }
}

/// The persisted column form of a bridge status parses back to the status it
/// came from.
pub proof fn lemma_bridge_status_column_parses(s: BridgeStatus)
    ensures
        spec_bridge_status_from_str(spec_bridge_status_column(s)) == Ok::<
            BridgeStatus,
            UnknownStatus,
        >(s),
{
    reveal_strlit("unsynced");
    reveal_strlit("pending");
    reveal_strlit("synced");
    assert("unsynced"@.len() == 8);
    assert("pending"@.len() == 7);
    assert("synced"@.len() == 6);
    assert("pending"@ != "unsynced"@);
    assert("synced"@ != "unsynced"@);
    assert("synced"@ != "pending"@);
}

} // verus!
