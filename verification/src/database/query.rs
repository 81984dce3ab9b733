//! The individual queries against the store, each a single atomic step.

use vstd::prelude::*;

use crate::database::types::{ServerStatus, TxRecordView, TxStatus};
use crate::database::{Database, Error, ServiceStatusRow, TxRecord};
use crate::processor::status::{spec_bridge_status_column, BridgeStatus};
use crate::TransactionId;

verus! {

/// How many log records hold a pending transaction.
pub open spec fn pending_count(txs: Seq<TxRecordView>) -> int {
    txs.filter(|t: TxRecordView| t.status == TxStatus::Pending).len() as int
}

/// Whether some log record carries the given transaction id.
pub open spec fn has_transaction(txs: Seq<TxRecordView>, id: Seq<char>) -> bool {
    exists|i: int| 0 <= i < txs.len() && txs[i].transaction_id == id
}

/// The id of the most recent pending transaction, if any.
pub open spec fn spec_last_pending_id(txs: Seq<TxRecordView>) -> Option<Seq<char>>
    decreases txs.len(),
{
    if txs.len() == 0 {
        None
    } else if txs.last().status == TxStatus::Pending {
        Some(txs.last().transaction_id)
    } else {
        spec_last_pending_id(txs.drop_last())
    }
}

/// The status of the most recent transaction, if any.
pub open spec fn spec_last_status(txs: Seq<TxRecordView>) -> Option<TxStatus> {
    if txs.len() == 0 {
        None
    } else {
        Some(txs.last().status)
    }
}

impl Database {
    /// Creates the service status row at first boot: status unsynced, the
    /// last-synced column stamped with the creation time. A present row is
    /// left as it stands.
    pub fn initialize_server(&mut self, now: u64)
        ensures
            final(self)@.transactions == old(self)@.transactions,
            final(self)@.service_status == (match old(self)@.service_status {
                Some(row) => Some(row),
                None => Some(
                    ServiceStatusRow { status: BridgeStatus::Unsynced, last_synced: Some(now) },
                ),
            }),
    {
        if self.service_status.is_none() {
            self.service_status = Some(
                ServiceStatusRow { status: BridgeStatus::Unsynced, last_synced: Some(now) },
            );
        }
    }

    /// Whether the service status row exists.
    pub fn server_initialized(&self) -> (r: bool)
        ensures
            r == self@.service_status is Some,
    {
        self.service_status.is_some()
    }

    /// Appends a new pending transaction to the log. The transaction id is
    /// unique in the log: a duplicate is refused and the store is unchanged.
    pub fn insert_new_transaction(&mut self, transaction_id: &TransactionId, now: u64) -> (r:
        Result<(), Error>)
        ensures
            r is Ok <==> !has_transaction(old(self)@.transactions, transaction_id@),
            r is Ok ==> final(self)@.transactions == old(self)@.transactions.push(
                TxRecordView {
                    transaction_id: transaction_id@,
                    status: TxStatus::Pending,
                    created_at: now,
                },
            ),
            r is Err ==> final(self)@.transactions == old(self)@.transactions,
            final(self)@.service_status == old(self)@.service_status,
    {
        let n = self.transactions.len();
        for i in 0..n
            invariant
                n == self.transactions.len(),
                forall|j: int| 0 <= j < i ==> self@.transactions[j].transaction_id != transaction_id@,
        {
            if self.transactions[i].transaction_id == *transaction_id {
                proof {
                    assert(old(self)@.transactions[i as int].transaction_id == transaction_id@);
                }
                return Err(Error::InternalError("duplicate transaction id".to_owned()));
            }
        }
        let record = TxRecord {
            transaction_id: transaction_id.clone(),
            status: TxStatus::Pending,
            created_at: now,
        };
        self.transactions.push(record);
        proof {
            assert(final(self)@.transactions =~= old(self)@.transactions.push(
                TxRecordView {
                    transaction_id: transaction_id@,
                    status: TxStatus::Pending,
                    created_at: now,
                },
            ));
        }
        Ok(())
    }

    /// Sets the status of every log record that carries the given id; other
    /// records keep their fields.
    pub fn update_transaction(&mut self, transaction_id: &TransactionId, tx_status: TxStatus)
        ensures
            final(self)@.service_status == old(self)@.service_status,
            final(self)@.transactions.len() == old(self)@.transactions.len(),
            forall|i: int|
                0 <= i < old(self)@.transactions.len() ==> final(self)@.transactions[i] == (
                if old(self)@.transactions[i].transaction_id == transaction_id@ {
                    TxRecordView { status: tx_status, ..old(self)@.transactions[i] }
                } else {
                    old(self)@.transactions[i]
                }),
    {
        let n = self.transactions.len();
        for i in 0..n
            invariant
                n == self.transactions.len(),
                self@.service_status == old(self)@.service_status,
                forall|j: int|
                    i <= j < n ==> self@.transactions[j] == old(self)@.transactions[j],
                forall|j: int|
                    0 <= j < i ==> self@.transactions[j] == (
                    if old(self)@.transactions[j].transaction_id == transaction_id@ {
                        TxRecordView { status: tx_status, ..old(self)@.transactions[j] }
                    } else {
                        old(self)@.transactions[j]
                    }),
        {
            let ghost prev = *self;
            if self.transactions[i].transaction_id == *transaction_id {
                self.transactions[i].status = tx_status;
            }
            proof {
                assert(self.transactions@.len() == prev.transactions@.len());
                assert forall|j: int| 0 <= j < i + 1 implies self@.transactions[j] == (
                if old(self)@.transactions[j].transaction_id == transaction_id@ {
                    TxRecordView { status: tx_status, ..old(self)@.transactions[j] }
                } else {
                    old(self)@.transactions[j]
                }) by {
                    assert(self@.transactions[j] == self.transactions@[j]@);
                    assert(prev@.transactions[j] == prev.transactions@[j]@);
                    if j < i {
                        assert(self.transactions@[j] == prev.transactions@[j]);
                    }
                }
            }
        }
    }

    /// Sets the status of the service status row. The last-synced column is
    /// stamped only on a transition into the synced state; `now` is unused
    /// otherwise. A missing row is left missing.
    pub fn update_server_status(&mut self, status: BridgeStatus, now: u64)
        ensures
            final(self)@.transactions == old(self)@.transactions,
            final(self)@.service_status == (match old(self)@.service_status {
                Some(row) => Some(
                    ServiceStatusRow {
                        status,
                        last_synced: if status == BridgeStatus::Synced {
                            Some(now)
                        } else {
                            row.last_synced
                        },
                    },
                ),
                None => None,
            }),
    {
        match &self.service_status {
            Some(row) => {
                let last_synced = if matches!(status, BridgeStatus::Synced) {
                    Some(now)
                } else {
                    row.last_synced
                };
                self.service_status = Some(ServiceStatusRow { status, last_synced });
            },
            None => {},
        }
    }

    /// The status of the most recent transaction, if the log is not empty.
    pub fn get_last_transaction_status(&self) -> (r: Option<TxStatus>)
        ensures
            r == spec_last_status(self@.transactions),
    {
        match self.transactions.last() {
            Some(record) => Some(record.status),
            None => None,
        }
    }

    /// The id of the most recent pending transaction, if any.
    pub fn get_last_transaction_id(&self) -> (r: Option<TransactionId>)
        ensures
            match r {
                Some(id) => spec_last_pending_id(self@.transactions) == Some(id@),
                None => spec_last_pending_id(self@.transactions) is None,
            },
    {
        let mut i = self.transactions.len();
        proof {
            assert(self@.transactions.take(i as int) =~= self@.transactions);
        }
        while i > 0
            invariant
                i <= self.transactions.len(),
                spec_last_pending_id(self@.transactions) == spec_last_pending_id(
                    self@.transactions.take(i as int),
                ),
            decreases i,
        {
            i = i - 1;
            proof {
                assert(self@.transactions.take(i + 1 as int).drop_last() =~= self@
                    .transactions.take(i as int));
                assert(self@.transactions.take(i + 1 as int).last() == self@.transactions[i as int]);
            }
            if matches!(self.transactions[i].status, TxStatus::Pending) {
                return Some(self.transactions[i].transaction_id.clone());
            }
        }
        proof {
            assert(self@.transactions.take(0) =~= Seq::<TxRecordView>::empty());
        }
        None
    }

    /// The service status row in its caller-facing form: the status as its
    /// persisted column string, and the last-synced time.
    pub fn get_service_status(&self) -> (r: Option<ServerStatus>)
        ensures
            match (r, self@.service_status) {
                (Some(s), Some(row)) => s.status@ == spec_bridge_status_column(row.status)
                    && s.last_synced == row.last_synced,
                (None, None) => true,
                _ => false,
            },
    {
        match &self.service_status {
            Some(row) => Some(
                ServerStatus {
                    status: row.status.column_str().to_owned(),
                    last_synced: row.last_synced,
                },
            ),
            None => None,
        }
    }

    /// The persisted column string of the service status, if the row exists.
    pub fn get_db_status(&self) -> (r: Option<String>)
        ensures
            match (r, self@.service_status) {
                (Some(s), Some(row)) => s@ == spec_bridge_status_column(row.status),
                (None, None) => true,
                _ => false,
            },
    {
        match &self.service_status {
            Some(row) => Some(row.status.column_str().to_owned()),
            None => None,
        }
    }
}

} // verus!
