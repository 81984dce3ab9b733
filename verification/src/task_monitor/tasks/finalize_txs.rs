//! The finalizer: an independent safety net. Each tick it holds the most
//! recent pending transaction against the chain's bulk list of confirmed
//! ids, so a confirmation the monitor missed is still recorded.

use vstd::prelude::*;

use crate::database::query::spec_last_pending_id;
use crate::database::types::TxStatus;
use crate::database::{Database, DatabaseView};
use crate::task_monitor::tasks::monitor_txs::spec_mark_transaction;
use crate::{spec_transaction_ids, TransactionId};

verus! {

/// One tick of the finalizer: if the most recent pending transaction's id
/// appears among the confirmed ids, that transaction becomes mined;
/// otherwise nothing changes.
pub open spec fn spec_finalize_txs(db: DatabaseView, mined: Seq<Seq<char>>) -> DatabaseView {
    match spec_last_pending_id(db.transactions) {
        Some(id) => if mined.contains(id) {
            DatabaseView {
                transactions: spec_mark_transaction(db.transactions, id, TxStatus::Mined),
                ..db
            }
        } else {
            db
        },
        None => db,
    }
}

/// Whether the given id appears in a fetched id list.
pub fn contains_transaction(transactions: &Vec<TransactionId>, id: &TransactionId) -> (r: bool)
    ensures
        r == spec_transaction_ids(transactions@).contains(id@),
{
    let n = transactions.len();
    for i in 0..n
        invariant
            n == transactions@.len(),
            forall|j: int| 0 <= j < i ==> spec_transaction_ids(transactions@)[j] != id@,
    {
        if transactions[i] == *id {
            proof {
                assert(spec_transaction_ids(transactions@)[i as int] == id@);
            }
            return true;
        }
    }
    false
}

/// One tick of the finalizer, applied to the store. `mined_transactions` is
/// the bulk list of confirmed ids fetched from the chain this tick.
pub fn finalize_txs(database: &mut Database, mined_transactions: &Vec<TransactionId>)
    ensures
        final(database)@ == spec_finalize_txs(
            old(database)@,
            spec_transaction_ids(mined_transactions@),
        ),
{
    match database.get_last_transaction_id() {
        Some(id) => {
            if contains_transaction(mined_transactions, &id) {
                database.update_transaction(&id, TxStatus::Mined);
                proof {
                    assert(database@.transactions =~= spec_mark_transaction(
                        old(database)@.transactions,
                        id@,
                        TxStatus::Mined,
                    ));
                }
            }
        },
        None => {
            // No pending transaction: nothing to reconcile.
        },
    }
}

} // verus!
