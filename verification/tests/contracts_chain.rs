use scroll_service::contracts::{DeploymentError, DeploymentSurvey, Root, ScrollBridge};
use scroll_service::ethereum::{Address, Ethereum, ReadProvider, WriteProvider};
use scroll_service::processor::{BridgeProcessor, Processor};

fn addr(n: u128) -> Address {
    Address { hi: 0, lo: n }
}

fn root(n: u64) -> Root {
    Root { w0: n, w1: 0, w2: 0, w3: 0 }
}

fn test_ethereum() -> Ethereum {
    Ethereum::new(
        ReadProvider { chain_id: 1 },
        WriteProvider { address: addr(77) },
        ReadProvider { chain_id: 534352 },
    )
}

fn full_survey() -> DeploymentSurvey {
    DeploymentSurvey {
        bridge_address: addr(1),
        bridge_code_present: true,
        scroll_world_id_address: addr(2),
        scroll_world_id_code_present: true,
        world_id_address: addr(3),
        world_id_code_present: true,
    }
}

#[test]
fn ethereum_exposes_its_connections() {
    let eth = test_ethereum();
    assert_eq!(eth.l1_provider().chain_id, 1);
    assert_eq!(eth.l2_provider().chain_id, 534352);
    assert_eq!(eth.address(), addr(77));
}

#[test]
fn zero_root_is_zero() {
    assert!(Root::zero().is_zero());
    assert!(!root(5).is_zero());
    assert!(!Root { w0: 0, w1: 0, w2: 0, w3: 1 }.is_zero());
}

#[test]
fn bridge_binds_surveyed_addresses() {
    let bridge = ScrollBridge::new(test_ethereum(), full_survey()).unwrap();
    assert_eq!(bridge.bridge_abi().address, addr(1));
    assert_eq!(bridge.scroll_world_id_abi().address, addr(2));
    assert_eq!(bridge.world_id_abi().address, addr(3));
}

#[test]
fn bridge_refuses_missing_contract_code() {
    let mut survey = full_survey();
    survey.scroll_world_id_code_present = false;
    assert_eq!(
        ScrollBridge::new(test_ethereum(), survey),
        Err(DeploymentError::ScrollWorldIdCodeMissing)
    );

    let mut survey = full_survey();
    survey.world_id_code_present = false;
    assert_eq!(
        ScrollBridge::new(test_ethereum(), survey),
        Err(DeploymentError::WorldIdCodeMissing)
    );

    // A bare bridge address alone is tolerated.
    let mut survey = full_survey();
    survey.bridge_code_present = false;
    assert!(ScrollBridge::new(test_ethereum(), survey).is_ok());
}

#[test]
fn propagation_request_carries_a_tenth_of_an_ether() {
    let bridge = ScrollBridge::new(test_ethereum(), full_survey()).unwrap();
    let request = bridge.propagate_root().unwrap();
    assert_eq!(request.to, addr(1));
    assert_eq!(request.value_wei, 100_000_000_000_000_000u64);
}

#[test]
fn sync_check_compares_the_fetched_roots() {
    let bridge = ScrollBridge::new(test_ethereum(), full_survey()).unwrap();
    // A failed read of either root is absorbed as not synced, never fatal.
    assert!(!bridge.check_sync_state(None, Some(root(4))));
    assert!(!bridge.check_sync_state(None, None));
    assert!(!bridge.check_sync_state(Some(root(4)), None));
    assert!(bridge.check_sync_state(Some(root(4)), Some(root(4))));
    assert!(!bridge.check_sync_state(Some(root(4)), Some(root(5))));
}

#[test]
fn root_mined_needs_mainnet_record_and_mirror_evidence() {
    let bridge = ScrollBridge::new(test_ethereum(), full_survey()).unwrap();
    // Unknown to the primary ledger: not mined.
    assert!(!bridge.is_root_mined(root(9), Root::zero(), 5, root(9)));
    // Known, superseded in the mirror's history: mined.
    assert!(bridge.is_root_mined(root(9), root(9), 5, root(8)));
    // Known, not superseded, but the mirror's latest: mined.
    assert!(bridge.is_root_mined(root(9), root(9), 0, root(9)));
    // Known, not superseded, not the latest: not mined.
    assert!(!bridge.is_root_mined(root(9), root(9), 0, root(8)));
}

#[test]
fn processor_delegates_to_the_bridge() {
    let bridge = ScrollBridge::new(test_ethereum(), full_survey()).unwrap();
    let processor = BridgeProcessor::new(test_ethereum(), bridge);
    let request = processor.propagate_root().unwrap();
    assert_eq!(request.to, addr(1));
    assert_eq!(request.value_wei, 100_000_000_000_000_000u64);
    assert!(processor.check_sync_state(Some(root(1)), Some(root(1))));
    assert!(!processor.check_sync_state(Some(root(1)), None));

    let fetched = vec![String::from("a"), String::from("b")];
    assert_eq!(processor.get_mined_transactions(fetched.clone()), fetched);
    assert!(processor.mine_transaction(String::from("a"), true));
    assert!(!processor.mine_transaction(String::from("a"), false));
}
