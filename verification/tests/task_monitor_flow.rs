use scroll_service::database::types::TxStatus;
use scroll_service::processor::status::BridgeStatus;
use scroll_service::task_monitor::tasks::check_sync::check_sync;
use scroll_service::task_monitor::tasks::finalize_txs::{contains_transaction, finalize_txs};
use scroll_service::task_monitor::tasks::monitor_txs::monitor_txs;
use scroll_service::task_monitor::tasks::propagate_root::{propagate_guard, propagate_root};
use scroll_service::task_monitor::{
    supervise_worker_exit, MonitoredTxQueue, RunningInstance, ServiceState, SupervisorAction,
    TaskMonitor, WakeNotifier, WorkerExit, WORKER_COUNT,
};

fn booted_state(capacity: usize) -> ServiceState {
    let mut state = ServiceState::new(capacity);
    scroll_service::app::initialize_server(&mut state.database, 1);
    state
}

#[test]
fn wake_signals_coalesce_into_one_delivery() {
    let mut notify = WakeNotifier::new();
    assert!(!notify.notified());

    // Many signals before one consumption collapse into a single wake.
    notify.notify_one();
    notify.notify_one();
    notify.notify_one();
    assert!(notify.notified());
    assert!(!notify.notified());
}

#[test]
fn queue_hands_ids_over_in_order_and_bounds_them() {
    let mut queue = MonitoredTxQueue::new(2);
    assert!(queue.is_empty());
    assert!(!queue.is_full());
    queue.send(String::from("a"));
    queue.send(String::from("b"));
    assert!(queue.is_full());
    assert_eq!(queue.len(), 2);
    assert_eq!(queue.recv(), Some(String::from("a")));
    assert_eq!(queue.recv(), Some(String::from("b")));
    assert_eq!(queue.recv(), None);
}

#[test]
fn supervisor_starts_once_and_stops_idempotently() {
    let mut monitor = TaskMonitor::new();
    assert!(monitor.start());
    // A second start warns and is a no-op, not an error.
    assert!(!monitor.start());
    let instance = monitor.shutdown().unwrap();
    assert_eq!(instance.worker_count, WORKER_COUNT);
    assert!(monitor.shutdown().is_none());
    // The supervisor can run a fresh worker set afterwards.
    assert!(monitor.start());
}

#[test]
fn shutdown_returns_the_first_worker_error() {
    let instance = RunningInstance { worker_count: WORKER_COUNT };
    let all_ok: Vec<Result<(), String>> = vec![Ok(()), Ok(()), Ok(()), Ok(())];
    assert_eq!(instance.shutdown(&all_ok), Ok(()));

    let instance = RunningInstance { worker_count: WORKER_COUNT };
    let mixed: Vec<Result<(), String>> =
        vec![Ok(()), Err(String::from("first")), Err(String::from("second")), Ok(())];
    assert_eq!(instance.shutdown(&mixed), Err(String::from("first")));
}

#[test]
fn failed_workers_restart_after_backoff() {
    assert_eq!(
        supervise_worker_exit(WorkerExit::Failed, 5),
        SupervisorAction::Restart { backoff_secs: 5 }
    );
    assert_eq!(supervise_worker_exit(WorkerExit::Cancelled, 5), SupervisorAction::Exit);
}

#[test]
fn store_checks_read_the_effective_status() {
    let mut state = ServiceState::new(4);
    // A missing row reads as unsynced.
    assert!(TaskMonitor::check_db_state(&state.database, BridgeStatus::Unsynced));
    assert!(!TaskMonitor::check_db_state(&state.database, BridgeStatus::Pending));

    scroll_service::app::initialize_server(&mut state.database, 1);
    state.database.mark_status_as_pending();
    assert!(TaskMonitor::check_db_state(&state.database, BridgeStatus::Pending));
    assert!(!TaskMonitor::check_db_state(&state.database, BridgeStatus::Synced));

    // No transaction yet: no last status to match.
    assert!(!TaskMonitor::check_last_transaction_status(&state.database, TxStatus::Pending));
    let id = String::from("tx");
    state.database.insert_new_transaction(&id, 2).unwrap();
    assert!(TaskMonitor::check_last_transaction_status(&state.database, TxStatus::Pending));
    assert!(!TaskMonitor::check_last_transaction_status(&state.database, TxStatus::Mined));
}

#[test]
fn drift_wakes_the_propagator_for_exactly_one_submission() {
    // Status unsynced, no pending transaction, chain roots differ.
    let mut state = booted_state(4);
    check_sync(&mut state, false, 10);
    assert_eq!(state.database.service_status.unwrap().status, BridgeStatus::Unsynced);
    assert!(state.wake_up_notify.notified());

    // The guard holds: exactly one submission is recorded.
    assert!(propagate_guard(&state.database));
    let id = String::from("0xfeed");
    propagate_root(&mut state, &id, 11).unwrap();
    assert_eq!(state.database.transactions.len(), 1);
    assert_eq!(state.database.transactions[0].status, TxStatus::Pending);
    assert_eq!(state.database.service_status.unwrap().status, BridgeStatus::Pending);
    assert_eq!(state.monitored_txs.recv(), Some(id));

    // A spurious wake finds the guard failing: no second transaction is
    // submitted.
    state.wake_up_notify.notify_one();
    assert!(state.wake_up_notify.notified());
    assert!(!propagate_guard(&state.database));
    assert_eq!(state.database.transactions.len(), 1);
}

#[test]
fn synced_roots_converge_a_pending_status() {
    let mut state = booted_state(4);
    check_sync(&mut state, false, 10);
    state.wake_up_notify.notified();
    propagate_root(&mut state, &String::from("0xbeef"), 11).unwrap();

    // The roots now agree: the next tick sets synced and stamps the time.
    check_sync(&mut state, true, 20);
    let row = state.database.service_status.unwrap();
    assert_eq!(row.status, BridgeStatus::Synced);
    assert_eq!(row.last_synced, Some(20));
    assert!(!state.wake_up_notify.notified());
}

#[test]
fn later_drift_flips_synced_back_to_unsynced_and_wakes() {
    let mut state = booted_state(4);
    state.database.mark_status_as_synced(5);

    check_sync(&mut state, false, 30);
    let row = state.database.service_status.unwrap();
    assert_eq!(row.status, BridgeStatus::Unsynced);
    assert_eq!(row.last_synced, Some(5));
    assert!(state.wake_up_notify.notified());
}

#[test]
fn pending_confirmation_outstanding_is_left_alone() {
    let mut state = booted_state(4);
    check_sync(&mut state, false, 10);
    state.wake_up_notify.notified();
    propagate_root(&mut state, &String::from("0xdead"), 11).unwrap();

    // Roots still differ, but a pending transaction under a pending status
    // is confirmation outstanding: no change, no wake.
    check_sync(&mut state, false, 12);
    assert_eq!(state.database.service_status.unwrap().status, BridgeStatus::Pending);
    assert!(!state.wake_up_notify.notified());
    assert_eq!(state.database.transactions.len(), 1);
}

#[test]
fn monitor_records_mined_even_when_the_call_fails() {
    let mut state = booted_state(4);
    let id = String::from("0xaa");
    state.database.insert_new_transaction(&id, 1).unwrap();
    monitor_txs(&mut state.database, &id, false);
    assert_eq!(state.database.transactions[0].status, TxStatus::Mined);

    let other = String::from("0xbb");
    state.database.insert_new_transaction(&other, 2).unwrap();
    monitor_txs(&mut state.database, &other, true);
    assert_eq!(state.database.transactions[1].status, TxStatus::Mined);
}

#[test]
fn finalizer_reconciles_the_pending_id_against_the_confirmed_list() {
    let mut state = booted_state(4);
    let id = String::from("0xcc");
    state.database.insert_new_transaction(&id, 1).unwrap();

    // A list without the id changes nothing.
    finalize_txs(&mut state.database, &vec![String::from("0xdd")]);
    assert_eq!(state.database.transactions[0].status, TxStatus::Pending);

    // A list carrying the id marks the transaction mined.
    let confirmed = vec![String::from("0xdd"), id.clone()];
    assert!(contains_transaction(&confirmed, &id));
    finalize_txs(&mut state.database, &confirmed);
    assert_eq!(state.database.transactions[0].status, TxStatus::Mined);
}

#[test]
fn finalizer_recovers_an_orphaned_pending_transaction() {
    // A crash between persisting the transaction and flipping the status
    // leaves a pending row under an unsynced status.
    let mut state = booted_state(4);
    let id = String::from("0xorphan");
    state.database.insert_new_transaction(&id, 1).unwrap();
    assert_eq!(state.database.service_status.unwrap().status, BridgeStatus::Unsynced);

    // Once the chain confirms it, a finalizer tick still reconciles it.
    finalize_txs(&mut state.database, &vec![id.clone()]);
    assert_eq!(state.database.transactions[0].status, TxStatus::Mined);
}
