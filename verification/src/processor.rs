//! Bridge processor: the decision layer between the workers and the chain.
//!
//! Each method takes what was fetched from the chain as plain values and
//! says exactly what is decided or handed on.

pub mod status;

use vstd::prelude::*;

use crate::contracts::{
    FeeError, PropagateRootRequest, Root, ScrollBridge, spec_parsed_ether_wei,
};
use crate::ethereum::Ethereum;

pub use crate::TransactionId;

verus! {

/// The processor interface the rest of the service works against.
pub trait Processor: Sized {
    /// Builds the propagation transaction request.
    fn propagate_root(&self) -> Result<PropagateRootRequest, FeeError>;

    /// Whether the two ledgers agree, from the roots that were read.
    fn check_sync_state(
        &self,
        scroll_latest_root: Option<Root>,
        world_id_latest_root: Option<Root>,
    ) -> bool;

    /// The confirmed transaction ids, as fetched in bulk from the chain.
    fn get_mined_transactions(&self, fetched: Vec<TransactionId>) -> Vec<TransactionId>;

    /// The confirmation outcome for one transaction.
    fn mine_transaction(&self, transaction_id: TransactionId, mined: bool) -> bool;
}

/// The processor bound to the bridge contracts.
pub struct BridgeProcessor {
    pub ethereum: Ethereum,
    pub scroll_bridge: ScrollBridge,
}

impl BridgeProcessor {
    /// Bundles the chain handles the processor works through.
    pub fn new(ethereum: Ethereum, scroll_bridge: ScrollBridge) -> (r: BridgeProcessor)
        ensures
            r.ethereum == ethereum,
            r.scroll_bridge == scroll_bridge,
    {
        BridgeProcessor { ethereum, scroll_bridge }
    }
}

impl Processor for BridgeProcessor {
    /// Builds the propagation transaction request against the bridge
    /// contract, carrying the fixed fee.
    fn propagate_root(&self) -> (r: Result<PropagateRootRequest, FeeError>)
        ensures
            r is Ok <==> spec_parsed_ether_wei("0.1"@) is Some,
            match r {
                Ok(req) => req.to == self.scroll_bridge.bridge_abi.address && Some(req.value_wei)
                    == spec_parsed_ether_wei("0.1"@),
                Err(_) => true,
            },
    {
        self.scroll_bridge.propagate_root()
    }

    /// Whether the two ledgers agree, from the roots that were read. A
    /// failed read of either root counts as not synced, never as fatal.
    fn check_sync_state(
        &self,
        scroll_latest_root: Option<Root>,
        world_id_latest_root: Option<Root>,
    ) -> (r: bool)
        ensures
            r == (match (scroll_latest_root, world_id_latest_root) {
                (Some(s), Some(w)) => s == w,
                _ => false,
            }),
    {
        self.scroll_bridge.check_sync_state(scroll_latest_root, world_id_latest_root)
    }

    /// Hands the bulk-fetched confirmed ids on unchanged.
    fn get_mined_transactions(&self, fetched: Vec<TransactionId>) -> (r: Vec<TransactionId>)
        ensures
            r == fetched,
    {
        fetched
    }

    /// Hands one transaction's confirmation outcome on unchanged.
    fn mine_transaction(&self, transaction_id: TransactionId, mined: bool) -> (r: bool)
        ensures
            r == mined,
    {
        let _ = transaction_id;
        mined
    }
}

} // verus!
