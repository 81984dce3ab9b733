//! The propagator: woken by the sync checker, it re-verifies against the
//! store that work is owed, submits the propagation transaction, and records
//! it in the right order.

use vstd::prelude::*;

use crate::database::query::{has_transaction, spec_last_status};
use crate::database::spec_update_server_status;
use crate::database::types::{TxRecordView, TxStatus};
use crate::database::{Database, DatabaseView, Error};
use crate::processor::status::BridgeStatus;
use crate::task_monitor::{spec_effective_status, ServiceState, ServiceStateView, TaskMonitor};
use crate::TransactionId;

verus! {

/// Whether a submission is owed: the persisted status reads unsynced and no
/// transaction is pending. The wake notifier can fire spuriously or late, so
/// this re-check against the store is the sole duplicate-submission guard.
pub open spec fn spec_propagate_guard(db: DatabaseView) -> bool {
    &&& spec_effective_status(db) == BridgeStatus::Unsynced
    &&& spec_last_status(db.transactions) != Some(TxStatus::Pending)
}

/// Evaluates the duplicate-submission guard against the store.
pub fn propagate_guard(database: &Database) -> (r: bool)
    ensures
        r == spec_propagate_guard(database@),
{
    let is_unsynced = TaskMonitor::check_db_state(database, BridgeStatus::Unsynced);
    let tx_pending = TaskMonitor::check_last_transaction_status(database, TxStatus::Pending);
    is_unsynced && !tx_pending
}

/// What recording a successful submission does: the transaction row is
/// appended, the id is queued for the confirmation worker, and the status
/// becomes pending.
pub open spec fn spec_propagate_commit(
    s: ServiceStateView,
    tx_id: Seq<char>,
    now: u64,
) -> ServiceStateView {
    ServiceStateView {
        database: spec_update_server_status(
            DatabaseView {
                transactions: s.database.transactions.push(
                    TxRecordView {
                        transaction_id: tx_id,
                        status: TxStatus::Pending,
                        created_at: now,
                    },
                ),
                ..s.database
            },
            BridgeStatus::Pending,
            now,
        ),
        monitored_txs: s.monitored_txs.push(tx_id),
        ..s
    }
}

/// Records a submitted propagation transaction. The order matters for crash
/// safety: the transaction row exists before the id is handed off, and the
/// hand-off happens before the status flips to pending, so a crash
/// mid-sequence leaves an orphaned pending transaction that the finalizer
/// can still reconcile.
///
/// The caller holds the duplicate-submission guard and room in the hand-off
/// queue: a send on a full queue blocks outside this model. A duplicate id
/// is refused by the store and leaves everything unchanged.
pub fn propagate_root(state: &mut ServiceState, tx_id: &TransactionId, now: u64) -> (r: Result<
    (),
    Error,
>)
    requires
        spec_propagate_guard(old(state)@.database),
        old(state)@.monitored_txs.len() < old(state)@.monitored_txs_capacity,
    ensures
        r is Ok <==> !has_transaction(old(state)@.database.transactions, tx_id@),
        r is Ok ==> final(state)@ == spec_propagate_commit(old(state)@, tx_id@, now),
        r is Err ==> final(state)@ == old(state)@,
{
    match state.database.insert_new_transaction(tx_id, now) {
        Ok(_) => {},
        Err(e) => {
            return Err(e);
        },
    }
    state.monitored_txs.send(tx_id.clone());
    state.database.mark_status_as_pending();
    Ok(())
}

} // verus!
