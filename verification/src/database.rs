//! The persisted store: one service status row and an append-only
//! transaction log, modelled as verified in-memory state.

pub mod query;
pub mod transaction;
pub mod types;

use vstd::prelude::*;

use crate::database::types::{TxStatus, TxRecordView};
use crate::processor::status::BridgeStatus;
use crate::TransactionId;

verus! {

/// One record of the append-only transaction log.
#[derive(Debug, Clone)]
pub struct TxRecord {
    pub transaction_id: TransactionId,
    pub status: TxStatus,
    pub created_at: u64,
}

impl View for TxRecord {
    type V = TxRecordView;

    open spec fn view(&self) -> TxRecordView {
        TxRecordView {
            transaction_id: self.transaction_id@,
            status: self.status,
            created_at: self.created_at,
        }
    }
}

/// The single service status row. Present once the server is initialized;
/// never deleted.
#[derive(Debug, Clone, Copy)]
pub struct ServiceStatusRow {
    pub status: BridgeStatus,
    pub last_synced: Option<u64>,
}

/// Abstract state of the store.
pub struct DatabaseView {
    pub service_status: Option<ServiceStatusRow>,
    pub transactions: Seq<TxRecordView>,
}

/// The persisted store. The service status row is created once at first
/// boot; the transaction log only ever grows, and a record keeps its place,
/// so recency is the position in the log.
#[derive(Debug)]
pub struct Database {
    pub service_status: Option<ServiceStatusRow>,
    pub transactions: Vec<TxRecord>,
}

impl View for Database {
    type V = DatabaseView;

    open spec fn view(&self) -> DatabaseView {
        DatabaseView {
            service_status: self.service_status,
            transactions: self.transactions@.map_values(|t: TxRecord| t@),
        }
    }
}

/// What setting the service status does to the store's abstract state: the
/// row, if present, takes the new status, and the last-synced column is
/// stamped only on a transition into the synced state.
pub open spec fn spec_update_server_status(
    db: DatabaseView,
    status: BridgeStatus,
    now: u64,
) -> DatabaseView {
    DatabaseView {
        service_status: match db.service_status {
            Some(row) => Some(
                ServiceStatusRow {
                    status,
                    last_synced: if status == BridgeStatus::Synced {
                        Some(now)
                    } else {
                        row.last_synced
                    },
                },
            ),
            None => None,
        },
        ..db
    }
}

/// Store error, surfaced where a query cannot be applied.
#[derive(Debug, Clone, PartialEq)]
pub enum Error {
    InternalError(String),
}

impl Database {
    /// An empty store: not yet initialized, no transactions.
    pub fn new() -> (r: Database)
        ensures
            r@.service_status is None,
            r@.transactions.len() == 0,
    {
        Database { service_status: None, transactions: Vec::new() }
    }
}

/// Outcome of holding the applied migration state against the latest known
/// schema version at startup. Anything but `UpToDate` aborts startup: no
/// partial operation is permitted.
#[derive(Debug, Clone, Copy, PartialEq, Eq, Structural)]
pub enum SchemaCheck {
    /// The applied schema version equals the latest known version.
    UpToDate,
    /// A migration was started and not finished.
    IncompleteMigration,
    /// The schema is older than this software expects: migrate first.
    Behind,
    /// The schema is newer than this software: update the software.
    Ahead,
}

/// Decides whether the store's schema state allows startup, from the dirty
/// flag and the applied and latest migration versions.
pub fn schema_version_check(dirty: bool, applied_version: i64, latest_version: i64) -> (r:
    SchemaCheck)
    ensures
        r == (if dirty {
            SchemaCheck::IncompleteMigration
        } else if applied_version < latest_version {
            SchemaCheck::Behind
        } else if applied_version > latest_version {
            SchemaCheck::Ahead
        } else {
            SchemaCheck::UpToDate
        }),
{
    if dirty {
        SchemaCheck::IncompleteMigration
    } else if applied_version < latest_version {
        SchemaCheck::Behind
    } else if applied_version > latest_version {
        SchemaCheck::Ahead
    } else {
        SchemaCheck::UpToDate
    }
}

} // verus!
