//! The sync checker: each tick it holds the chain's answer against the
//! persisted state, converges the status, and arms the propagator on drift.

use vstd::prelude::*;

use crate::database::query::spec_last_status;
use crate::database::spec_update_server_status;
use crate::database::types::TxStatus;
use crate::processor::status::BridgeStatus;
use crate::task_monitor::{spec_effective_status, ServiceState, ServiceStateView, TaskMonitor};

verus! {

/// One tick of the sync checker. With the roots agreeing and the status
/// pending, the propagation is complete: the status converges to synced.
/// With the roots agreeing otherwise, or with confirmation of a pending
/// transaction still outstanding, nothing is done. Otherwise the bridge has
/// drifted: the status is set to unsynced and the propagator is woken.
pub open spec fn spec_check_sync(
    s: ServiceStateView,
    is_synced: bool,
    now: u64,
) -> ServiceStateView {
    let tx_pending = spec_last_status(s.database.transactions) == Some(TxStatus::Pending);
    let db_state_pending = spec_effective_status(s.database) == BridgeStatus::Pending;
    if is_synced && db_state_pending {
        ServiceStateView {
            database: spec_update_server_status(s.database, BridgeStatus::Synced, now),
            ..s
        }
    } else if is_synced || (tx_pending && db_state_pending) {
        s
    } else {
        ServiceStateView {
            database: spec_update_server_status(s.database, BridgeStatus::Unsynced, now),
            wake_pending: true,
            ..s
        }
    }
}

/// One tick of the sync checker, applied to the shared state. `is_synced`
/// is the chain's answer for this tick; a failed chain read is handed in as
/// false rather than aborting the worker.
pub fn check_sync(state: &mut ServiceState, is_synced: bool, now: u64)
    ensures
        final(state)@ == spec_check_sync(old(state)@, is_synced, now),
{
    let tx_pending = TaskMonitor::check_last_transaction_status(
        &state.database,
        TxStatus::Pending,
    );
    let db_state_pending = TaskMonitor::check_db_state(&state.database, BridgeStatus::Pending);
    if is_synced && db_state_pending {
        state.database.mark_status_as_synced(now);
    } else if is_synced || (tx_pending && db_state_pending) {
        // Already converged, or confirmation still outstanding: do not wake
        // the propagator.
    } else {
        state.database.mark_status_as_unsynced();
        state.wake_up_notify.notify_one();
    }
}

} // verus!
