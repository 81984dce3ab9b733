//! State-mutating store accesses, and the conflict-retry executor that wraps
//! them.

use vstd::prelude::*;

use crate::database::Database;
use crate::processor::status::BridgeStatus;

verus! {

impl Database {
    /// Marks the server status as pending.
    pub fn mark_status_as_pending(&mut self)
        ensures
            final(self)@.transactions == old(self)@.transactions,
            final(self)@.service_status == (match old(self)@.service_status {
                Some(row) => Some(
                    crate::database::ServiceStatusRow {
                        status: BridgeStatus::Pending,
                        last_synced: row.last_synced,
                    },
                ),
                None => None,
            }),
    {
        // The timestamp only matters on a transition into the synced state.
        self.update_server_status(BridgeStatus::Pending, 0);
    }

    /// Marks the server status as synced and stamps the last-synced time.
    pub fn mark_status_as_synced(&mut self, now: u64)
        ensures
            final(self)@.transactions == old(self)@.transactions,
            final(self)@.service_status == (match old(self)@.service_status {
                Some(_) => Some(
                    crate::database::ServiceStatusRow {
                        status: BridgeStatus::Synced,
                        last_synced: Some(now),
                    },
                ),
                None => None,
            }),
    {
        self.update_server_status(BridgeStatus::Synced, now);
    }

    /// Marks the server status as unsynced.
    pub fn mark_status_as_unsynced(&mut self)
        ensures
            final(self)@.transactions == old(self)@.transactions,
            final(self)@.service_status == (match old(self)@.service_status {
                Some(row) => Some(
                    crate::database::ServiceStatusRow {
                        status: BridgeStatus::Unsynced,
                        last_synced: row.last_synced,
                    },
                ),
                None => None,
            }),
    {
        self.update_server_status(BridgeStatus::Unsynced, 0);
    }
}

/// What the conflict-retry executor did: how many attempts it made and
/// whether one of them committed.
#[derive(Debug, Clone, Copy, PartialEq, Eq, Structural)]
pub struct RetryResult {
    pub attempts: usize,
    pub committed: bool,
}

/// Runs a unit of work under the conflict-retry policy: each attempt either
/// commits or hits a serialization conflict, and a conflicted attempt is
/// retried up to the attempt budget. `conflicts[i]` says whether attempt `i`
/// would hit a conflict; the result says how many attempts were made and
/// whether the work committed. Exhausting the budget surfaces as a worker
/// error at the caller.
pub fn retry_tx(conflicts: &Vec<bool>, max_attempts: usize) -> (r: RetryResult)
    ensures
        r.committed <==> exists|i: int|
            0 <= i < conflicts@.len() && i < max_attempts && !conflicts@[i],
        r.committed ==> r.attempts <= max_attempts && 0 < r.attempts <= conflicts@.len()
            && !conflicts@[r.attempts - 1] && forall|j: int|
            0 <= j < r.attempts - 1 ==> conflicts@[j],
        !r.committed ==> r.attempts == (if conflicts@.len() < max_attempts {
            conflicts@.len() as int
        } else {
            max_attempts as int
        }),
{
    let mut attempts: usize = 0;
    let bound = if conflicts.len() < max_attempts {
        conflicts.len()
    } else {
        max_attempts
    };
    while attempts < bound
        invariant
            attempts <= bound,
            bound <= conflicts@.len(),
            bound <= max_attempts,
            bound == (if conflicts@.len() < max_attempts {
                conflicts@.len() as int
            } else {
                max_attempts as int
            }),
            forall|j: int| 0 <= j < attempts ==> conflicts@[j],
        decreases bound - attempts,
    {
        if !conflicts[attempts] {
            return RetryResult { attempts: attempts + 1, committed: true };
        }
        attempts = attempts + 1;
    }
    RetryResult { attempts, committed: false }
}

} // verus!
