//! Core of a service that keeps a Merkle identity root published on a
//! primary ledger in sync with a mirrored copy held by a bridge contract on
//! a secondary ledger.
//!
//! The library holds the verified reconciliation logic: the status types and
//! their wire forms, a model of the persisted store, the decision and step
//! functions of the four cooperating workers, the coalesced wake notifier,
//! the bounded hand-off queue, and the supervisor state machine. Chain and
//! database I/O stay outside; the functions here take what was fetched as
//! plain values and say exactly what is decided from it.

pub mod app;
pub mod contracts;
pub mod database;
pub mod ethereum;
pub mod processor;
pub mod server;
pub mod task_monitor;

use vstd::prelude::*;

verus! {

/// Identifier of a submitted propagation transaction.
pub type TransactionId = String;

/// The ids a sequence of transaction identifiers carries, as character
/// sequences.
pub open spec fn spec_transaction_ids(items: Seq<TransactionId>) -> Seq<Seq<char>> {
    items.map_values(|t: TransactionId| t@)
}

} // verus!
