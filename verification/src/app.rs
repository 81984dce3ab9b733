//! The caller-facing operations of the service: first-boot initialization
//! and the status read the endpoints answer with.

use vstd::prelude::*;

use crate::database::types::ServerStatus;
use crate::database::{Database, DatabaseView, ServiceStatusRow};
use crate::processor::status::{spec_bridge_status_column, BridgeStatus};
use crate::server::data::ServerStatusResponse;
use crate::server::error::Error;

verus! {

/// What first-boot initialization does to the store: an absent status row is
/// created unsynced, stamped with the boot time; a present row is left
/// alone.
pub open spec fn spec_initialize_server(db: DatabaseView, now: u64) -> DatabaseView {
    match db.service_status {
        Some(_) => db,
        None => DatabaseView {
            service_status: Some(
                ServiceStatusRow { status: BridgeStatus::Unsynced, last_synced: Some(now) },
            ),
            ..db
        },
    }
}

/// Initializes the server state: on the first boot the status row is
/// created and marked unsynced; on any later boot nothing changes.
pub fn initialize_server(database: &mut Database, now: u64)
    ensures
        final(database)@ == spec_initialize_server(old(database)@, now),
{
    if !database.server_initialized() {
        database.initialize_server(now);
        database.mark_status_as_unsynced();
    }
}

/// Initializing twice is initializing once: later boots change nothing,
/// whatever time they run at.
pub proof fn lemma_initialize_server_idempotent(db: DatabaseView, now1: u64, now2: u64)
    ensures
        spec_initialize_server(spec_initialize_server(db, now1), now2) == spec_initialize_server(
            db,
            now1,
        ),
{
}

/// Answers the status endpoint: the persisted row in its caller-facing
/// form, or the uninitialized error while no row exists yet.
pub fn get_service_status(database: &Database) -> (r: Result<ServerStatusResponse, Error>)
    ensures
        r is Ok <==> database@.service_status is Some,
        match (r, database@.service_status) {
            (Ok(resp), Some(row)) => resp.0.status@ == spec_bridge_status_column(row.status)
                && resp.0.last_synced == row.last_synced,
            (Err(e), None) => e == Error::UNITIALIZED,
            _ => false,
        },
{
    let status: ServerStatus = match database.get_service_status() {
        Some(status) => status,
        None => {
            return Err(Error::UNITIALIZED);
        },
    };
    Ok(ServerStatusResponse(status))
}

} // verus!
