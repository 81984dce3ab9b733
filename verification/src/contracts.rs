//! The bridge-facing contract logic: what the service decides from the
//! values it reads off the two ledgers.
//!
//! Chain access itself (RPC transport, signing, broadcasting) stays outside;
//! the functions here take the fetched roots, code probes and history
//! entries as plain values.

use vstd::prelude::*;

use crate::ethereum::{Address, Ethereum};

verus! {

/// A ledger root: a 256-bit word held as four 64-bit limbs, least
/// significant first. The reconciliation logic only compares roots and asks
/// whether one is zero.
#[derive(Debug, Clone, Copy, PartialEq, Eq, Structural)]
pub struct Root {
    pub w0: u64,
    pub w1: u64,
    pub w2: u64,
    pub w3: u64,
}

impl Root {
    /// The zero root, which the primary ledger returns for a root it has
    /// never seen.
    pub fn zero() -> (r: Root)
        ensures
            r.spec_is_zero(),
    {
        Root { w0: 0, w1: 0, w2: 0, w3: 0 }
    }

    /// Whether every limb is zero.
    pub open spec fn spec_is_zero(&self) -> bool {
        self.w0 == 0 && self.w1 == 0 && self.w2 == 0 && self.w3 == 0
    }

    /// Whether this is the zero root.
    pub fn is_zero(&self) -> (r: bool)
        ensures
            r == self.spec_is_zero(),
    {
        self.w0 == 0 && self.w1 == 0 && self.w2 == 0 && self.w3 == 0
    }
}

/// A binding to a deployed contract: what the logic reads of it is the
/// address it lives at.
#[derive(Debug, Clone, Copy, PartialEq, Eq, Structural)]
pub struct ContractBinding {
    pub address: Address,
}

/// The fixed fee amount could not be represented in wei.
#[derive(Debug, Clone, Copy, PartialEq, Eq, Structural)]
pub struct FeeError;

/// Startup found no code deployed where a contract was required.
#[derive(Debug, Clone, Copy, PartialEq, Eq, Structural)]
pub enum DeploymentError {
    /// The mirror contract's address on the secondary ledger holds no code.
    ScrollWorldIdCodeMissing,
    /// The identity manager's address on the primary ledger holds no code.
    WorldIdCodeMissing,
}

/// What startup found deployed: each contract's address, and whether code is
/// present at it.
#[derive(Debug, Clone, Copy, PartialEq, Eq, Structural)]
pub struct DeploymentSurvey {
    pub bridge_address: Address,
    pub bridge_code_present: bool,
    pub scroll_world_id_address: Address,
    pub scroll_world_id_code_present: bool,
    pub world_id_address: Address,
    pub world_id_code_present: bool,
}

/// A transaction request that pushes the primary root to the bridge: its
/// destination and the value it carries, in wei.
#[derive(Debug, Clone, Copy, PartialEq, Eq, Structural)]
pub struct PropagateRootRequest {
    pub to: Address,
    pub value_wei: u64,
}

/// The wei amount that a decimal ether string converts to, where it exists
/// and fits 64 bits.
pub uninterp spec fn spec_parsed_ether_wei(s: Seq<char>) -> Option<u64>;

/// Relies on `ethers_core::utils::parse_ether`: converts a decimal ether
/// amount into wei. The result is a function of the characters alone. The
/// amount must be ASCII — the parser truncates an over-long decimal part at
/// a byte offset, which panics off a character boundary — and short: the
/// parser scales the parsed amount by ten to the eighteenth in 256-bit
/// arithmetic whose multiply panics on overflow, and forty characters keep
/// the scaled value well below that bound.
#[verifier::external_body]
fn parse_ether_wei(s: &str) -> (r: Option<u64>)
    requires
        s@.len() <= 40,
        forall|i: int| 0 <= i < s@.len() ==> (s@[i] as u32) < 128,
    ensures
        r == spec_parsed_ether_wei(s@),
{
    match ethers_core::utils::parse_ether(s) {
        Ok(v) => match u64::try_from(v) {
            Ok(w) => Some(w),
            Err(_) => None,
        },
        Err(_) => None,
    }
}

/// Whether a root counts as mined on the secondary ledger, from what the
/// two ledgers answered: it must be known to the primary ledger, and on the
/// mirror it must either be superseded (a recorded history timestamp) or be
/// the latest root.
pub open spec fn spec_is_root_mined(
    root: Root,
    root_on_mainnet: Root,
    root_timestamp: u64,
    latest_root: Root,
) -> bool {
    if root_on_mainnet.spec_is_zero() {
        false
    } else if root_timestamp == 0 && root != latest_root {
        false
    } else {
        true
    }
}

/// The interface to the bridge contract and the two identity contracts it
/// ties together.
#[derive(Debug, Clone, Copy, PartialEq, Eq, Structural)]
pub struct ScrollBridge {
    pub ethereum: Ethereum,
    pub bridge_abi: ContractBinding,
    pub scroll_world_id_abi: ContractBinding,
    pub world_id_abi: ContractBinding,
}

impl ScrollBridge {
    /// The binding to the bridge contract on the primary ledger.
    pub fn bridge_abi(&self) -> (r: &ContractBinding)
        ensures
            *r == self.bridge_abi,
    {
        &self.bridge_abi
    }

    /// The binding to the mirror contract on the secondary ledger.
    pub fn scroll_world_id_abi(&self) -> (r: &ContractBinding)
        ensures
            *r == self.scroll_world_id_abi,
    {
        &self.scroll_world_id_abi
    }

    /// The binding to the identity manager on the primary ledger.
    pub fn world_id_abi(&self) -> (r: &ContractBinding)
        ensures
            *r == self.world_id_abi,
    {
        &self.world_id_abi
    }

    /// Binds the three contracts from what startup found deployed. A missing
    /// mirror or identity manager is startup-fatal and refused here; a bare
    /// bridge address is tolerated (it is only sent to, never read).
    pub fn new(ethereum: Ethereum, survey: DeploymentSurvey) -> (r: Result<
        ScrollBridge,
        DeploymentError,
    >)
        ensures
            match r {
                Ok(bridge) => survey.scroll_world_id_code_present && survey.world_id_code_present
                    && bridge == (ScrollBridge {
                    ethereum,
                    bridge_abi: ContractBinding { address: survey.bridge_address },
                    scroll_world_id_abi: ContractBinding {
                        address: survey.scroll_world_id_address,
                    },
                    world_id_abi: ContractBinding { address: survey.world_id_address },
                }),
                Err(DeploymentError::ScrollWorldIdCodeMissing) => !survey
                    .scroll_world_id_code_present,
                Err(DeploymentError::WorldIdCodeMissing) => survey.scroll_world_id_code_present
                    && !survey.world_id_code_present,
            },
    {
        if !survey.scroll_world_id_code_present {
            return Err(DeploymentError::ScrollWorldIdCodeMissing);
        }
        if !survey.world_id_code_present {
            return Err(DeploymentError::WorldIdCodeMissing);
        }
        Ok(
            ScrollBridge {
                ethereum,
                bridge_abi: ContractBinding { address: survey.bridge_address },
                scroll_world_id_abi: ContractBinding { address: survey.scroll_world_id_address },
                world_id_abi: ContractBinding { address: survey.world_id_address },
            },
        )
    }

    /// Builds the propagation transaction request: the bridge contract as
    /// destination, carrying the fixed fee of a tenth of an ether as its
    /// value. Fails only if that amount has no 64-bit wei form.
    pub fn propagate_root(&self) -> (r: Result<PropagateRootRequest, FeeError>)
        ensures
            r is Ok <==> spec_parsed_ether_wei("0.1"@) is Some,
            match r {
                Ok(req) => req.to == self.bridge_abi.address && Some(req.value_wei)
                    == spec_parsed_ether_wei("0.1"@),
                Err(_) => true,
            },
    {
        proof {
            reveal_strlit("0.1");
        }
        match parse_ether_wei("0.1") {
            Some(value_wei) => Ok(
                PropagateRootRequest { to: self.bridge_abi.address, value_wei },
            ),
            None => Err(FeeError),
        }
    }

    /// Whether the two ledgers agree, from the roots that were read. A
    /// failed read of either root is absorbed and counts as not synced,
    /// never as a fatal error: a chain read failure must not crash
    /// reconciliation.
    pub fn check_sync_state(
        &self,
        scroll_latest_root: Option<Root>,
        world_id_latest_root: Option<Root>,
    ) -> (r: bool)
        ensures
            r == (match (scroll_latest_root, world_id_latest_root) {
                (Some(s), Some(w)) => s == w,
                _ => false,
            }),
    {
        match (scroll_latest_root, world_id_latest_root) {
            (Some(s), Some(w)) => s == w,
            _ => false,
        }
    }

    /// Whether a root is mined on the secondary ledger, from the primary
    /// ledger's record of it, the mirror's history timestamp for it, and the
    /// mirror's latest root.
    pub fn is_root_mined(
        &self,
        root: Root,
        root_on_mainnet: Root,
        root_timestamp: u64,
        latest_root: Root,
    ) -> (r: bool)
        ensures
            r == spec_is_root_mined(root, root_on_mainnet, root_timestamp, latest_root),
    {
        if root_on_mainnet.is_zero() {
            return false;
        }
        // The history only records superseded roots, so the latest root has
        // no timestamp yet and still counts as mined.
        if root_timestamp == 0 && !(root == latest_root) {
            return false;
        }
        true
    }
}

} // verus!
