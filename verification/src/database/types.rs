//! Row types of the persisted store and their wire forms.

use vstd::prelude::*;

verus! {

/// The service status row as handed to callers: the status in its persisted
/// string form, and the time of the last transition into the synced state.
#[derive(Debug, Clone, PartialEq)]
pub struct ServerStatus {
    pub status: String,
    pub last_synced: Option<u64>,
}

/// Lifecycle status of a propagation transaction.
#[derive(Debug, Clone, Copy, PartialEq, Eq, Structural)]
pub enum TxStatus {
    Pending,
    Mined,
    Finalized,
    Failed,
}

/// Error returned when a persisted status string names no known status.
#[derive(Debug, Clone, Copy, PartialEq, Eq, Structural)]
pub struct UnknownStatus;

/// Abstract value of one transaction log record.
pub struct TxRecordView {
    pub transaction_id: Seq<char>,
    pub status: TxStatus,
    pub created_at: u64,
}

/// What `TxStatus::from_str` returns on a given character sequence.
pub open spec fn spec_tx_status_from_str(s: Seq<char>) -> Result<TxStatus, UnknownStatus> {
    if s == "failed"@ {
        Ok(TxStatus::Failed)
    } else if s == "pending"@ {
        Ok(TxStatus::Pending)
    } else if s == "mined"@ {
        Ok(TxStatus::Mined)
    } else if s == "finalized"@ {
        Ok(TxStatus::Finalized)
    } else {
        Err(UnknownStatus)
    }
}

/// The column form under which a transaction status is persisted.
pub open spec fn spec_tx_status_str(s: TxStatus) -> Seq<char> {
    match s {
        TxStatus::Pending => "pending"@,
        TxStatus::Mined => "mined"@,
        TxStatus::Finalized => "finalized"@,
        TxStatus::Failed => "failed"@,
    }
}

/// Compares two string slices by content.
pub(crate) fn str_eq(a: &str, b: &str) -> (r: bool)
    ensures
        r == (a@ == b@),
{
    let x: String = a.to_owned();
    let y: String = b.to_owned();
    x == y
}

impl TxStatus {
    /// Parses the persisted column form of a transaction status.
    pub fn from_str(s: &str) -> (r: Result<TxStatus, UnknownStatus>)
        ensures
            r == spec_tx_status_from_str(s@),
    {
        if str_eq(s, "failed") {
            Ok(TxStatus::Failed)
        } else if str_eq(s, "pending") {
            Ok(TxStatus::Pending)
        } else if str_eq(s, "mined") {
            Ok(TxStatus::Mined)
        } else if str_eq(s, "finalized") {
            Ok(TxStatus::Finalized)
        } else {
            Err(UnknownStatus)
        }
    }

    /// Parses a transaction status from a borrowed string; same behaviour as
    /// `from_str`.
    pub fn try_from(s: &str) -> (r: Result<TxStatus, UnknownStatus>)
        ensures
            r == spec_tx_status_from_str(s@),
    {
        TxStatus::from_str(s)
    }

    /// The column form under which this status is persisted.
    pub fn as_db_str(&self) -> (r: &'static str)
        ensures
            r@ == spec_tx_status_str(*self),
    {
        match self {
            TxStatus::Pending => "pending",
            TxStatus::Mined => "mined",
            TxStatus::Finalized => "finalized",
            TxStatus::Failed => "failed",
        }
    }
}

/// The persisted column form of a transaction status parses back to the
/// status it came from.
pub proof fn lemma_tx_status_str_parses(s: TxStatus)
    ensures
        spec_tx_status_from_str(spec_tx_status_str(s)) == Ok::<TxStatus, UnknownStatus>(s),
{
    reveal_strlit("failed");
    reveal_strlit("pending");
    reveal_strlit("mined");
    reveal_strlit("finalized");
    assert("pending"@.len() == 7);
    assert("failed"@.len() == 6);
    assert("mined"@.len() == 5);
    assert("finalized"@.len() == 9);
    assert("pending"@ != "failed"@);
    assert("mined"@ != "failed"@);
    assert("mined"@ != "pending"@);
    assert("finalized"@ != "failed"@);
    assert("finalized"@ != "pending"@);
    assert("finalized"@ != "mined"@);
}

} // verus!
