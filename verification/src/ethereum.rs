//! The chain-access handles, reduced to what the reconciliation logic reads
//! of them: which network a provider speaks to and which account signs.

use vstd::prelude::*;

pub use crate::TransactionId;

verus! {

/// A 160-bit account or contract address, held as a 32-bit high part and a
/// 128-bit low part. The logic only stores and compares addresses.
#[derive(Debug, Clone, Copy, PartialEq, Eq, Structural)]
pub struct Address {
    pub hi: u32,
    pub lo: u128,
}

/// A read-side connection to a ledger: what the logic reads of it is the
/// chain it is bound to.
#[derive(Debug, Clone, Copy, PartialEq, Eq, Structural)]
pub struct ReadProvider {
    pub chain_id: u64,
}

/// A write-side connection: what the logic reads of it is the signing
/// account's address.
#[derive(Debug, Clone, Copy, PartialEq, Eq, Structural)]
pub struct WriteProvider {
    pub address: Address,
}

/// The pair of ledger connections the service works against: reads on both
/// ledgers, writes on the primary one.
#[derive(Debug, Clone, Copy, PartialEq, Eq, Structural)]
pub struct Ethereum {
    pub l1_read_provider: ReadProvider,
    pub l1_write_provider: WriteProvider,
    pub l2_read_provider: ReadProvider,
}

impl Ethereum {
    /// Bundles the connections that startup established.
    pub fn new(
        l1_read_provider: ReadProvider,
        l1_write_provider: WriteProvider,
        l2_read_provider: ReadProvider,
    ) -> (r: Ethereum)
        ensures
            r == (Ethereum { l1_read_provider, l1_write_provider, l2_read_provider }),
    {
        Ethereum { l1_read_provider, l1_write_provider, l2_read_provider }
    }

    /// The read-side connection to the primary ledger.
    pub fn l1_provider(&self) -> (r: &ReadProvider)
        ensures
            *r == self.l1_read_provider,
    {
        &self.l1_read_provider
    }

    /// The read-side connection to the secondary ledger.
    pub fn l2_provider(&self) -> (r: &ReadProvider)
        ensures
            *r == self.l2_read_provider,
    {
        &self.l2_read_provider
    }

    /// The signing account on the primary ledger.
    pub fn address(&self) -> (r: Address)
        ensures
            r == self.l1_write_provider.address,
    {
        self.l1_write_provider.address
    }
}

} // verus!
