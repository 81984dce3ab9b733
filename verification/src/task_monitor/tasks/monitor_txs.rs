//! The confirmation worker: the single consumer of the hand-off queue. For
//! each received id it asks the chain for confirmation and records the
//! result.

use vstd::prelude::*;

use crate::database::types::{TxRecordView, TxStatus};
use crate::database::Database;
use crate::TransactionId;

verus! {

/// Every log record carrying the given id set to the given status; the
/// others unchanged.
pub open spec fn spec_mark_transaction(
    txs: Seq<TxRecordView>,
    id: Seq<char>,
    status: TxStatus,
) -> Seq<TxRecordView> {
    txs.map(
        |_i: int, t: TxRecordView|
            if t.transaction_id == id {
                TxRecordView { status, ..t }
            } else {
                t
            },
    )
}

/// Records the confirmation outcome for one received transaction. The
/// transaction is recorded as mined whether or not the confirmation call
/// succeeded: a failed call does not change what is written, only what the
/// caller logs.
pub fn monitor_txs(database: &mut Database, tx: &TransactionId, mined: bool)
    ensures
        final(database)@.service_status == old(database)@.service_status,
        final(database)@.transactions == spec_mark_transaction(
            old(database)@.transactions,
            tx@,
            TxStatus::Mined,
        ),
{
    if mined {
        database.update_transaction(tx, TxStatus::Mined);
    } else {
        // The confirmation call failed; the failure is still recorded as
        // mined.
        database.update_transaction(tx, TxStatus::Mined);
    }
    proof {
        assert(database@.transactions =~= spec_mark_transaction(
            old(database)@.transactions,
            tx@,
            TxStatus::Mined,
        ));
    }
}

} // verus!
