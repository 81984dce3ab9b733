use scroll_service::database::types::TxStatus;
use scroll_service::processor::status::BridgeStatus;

#[test]
fn bridge_status_parses_lower_case_names() {
    assert_eq!(BridgeStatus::from_str("unsynced"), Ok(BridgeStatus::Unsynced));
    assert_eq!(BridgeStatus::from_str("pending"), Ok(BridgeStatus::Pending));
    assert_eq!(BridgeStatus::from_str("synced"), Ok(BridgeStatus::Synced));
}

#[test]
fn bridge_status_rejects_unknown_names() {
    assert!(BridgeStatus::from_str("Synced").is_err());
    assert!(BridgeStatus::from_str("").is_err());
    assert!(BridgeStatus::from_str("mined").is_err());
    assert!(BridgeStatus::from_str("unsynced ").is_err());
}

#[test]
fn bridge_status_try_from_matches_from_str() {
    assert_eq!(BridgeStatus::try_from("pending"), Ok(BridgeStatus::Pending));
    assert!(BridgeStatus::try_from("other").is_err());
}

#[test]
fn bridge_status_column_form_round_trips() {
    for status in [BridgeStatus::Unsynced, BridgeStatus::Pending, BridgeStatus::Synced] {
        assert_eq!(BridgeStatus::from_str(status.column_str()), Ok(status));
    }
}

#[test]
fn bridge_status_borrowed_form_keeps_capitalized_synced() {
    assert_eq!(BridgeStatus::Unsynced.as_db_str(), "unsynced");
    assert_eq!(BridgeStatus::Pending.as_db_str(), "pending");
    // The borrowed form of the synced status is capitalized and does not
    // parse back; only the lower-case column form does.
    assert_eq!(BridgeStatus::Synced.as_db_str(), "Synced");
    assert!(BridgeStatus::from_str(BridgeStatus::Synced.as_db_str()).is_err());
}

#[test]
fn tx_status_parses_column_names() {
    assert_eq!(TxStatus::from_str("pending"), Ok(TxStatus::Pending));
    assert_eq!(TxStatus::from_str("mined"), Ok(TxStatus::Mined));
    assert_eq!(TxStatus::from_str("finalized"), Ok(TxStatus::Finalized));
    assert_eq!(TxStatus::from_str("failed"), Ok(TxStatus::Failed));
    assert!(TxStatus::from_str("unsynced").is_err());
    assert!(TxStatus::from_str("Mined").is_err());
}

#[test]
fn tx_status_try_from_matches_from_str() {
    assert_eq!(TxStatus::try_from("mined"), Ok(TxStatus::Mined));
    assert!(TxStatus::try_from("").is_err());
}

#[test]
fn tx_status_column_form_round_trips() {
    for status in [TxStatus::Pending, TxStatus::Mined, TxStatus::Finalized, TxStatus::Failed] {
        assert_eq!(TxStatus::from_str(status.as_db_str()), Ok(status));
    }
}
