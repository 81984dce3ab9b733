//! The supervisor and the coordination primitives the four workers share:
//! the coalesced wake notifier, the bounded hand-off queue, and the
//! supervisor's own two-state lifecycle.
//!
//! The workers themselves run as concurrently scheduled loops outside the
//! library; their per-iteration decisions live in [`tasks`], acting on a
//! [`ServiceState`].

pub mod properties;
pub mod tasks;

use vstd::prelude::*;

use crate::database::query::spec_last_status;
use crate::database::types::TxStatus;
use crate::database::{Database, DatabaseView};
use crate::processor::status::{spec_bridge_status_column, BridgeStatus};
use crate::{spec_transaction_ids, TransactionId};

verus! {

/// Seconds a failed propagation worker waits before it is restarted.
pub const PROPAGATE_ROOT_BACKOFF_SECS: u64 = 5;

/// Seconds a failed sync-check worker waits before it is restarted.
pub const CHECK_SYNC_STATE_BACKOFF_SECS: u64 = 5;

/// Seconds a failed confirmation worker waits before it is restarted.
pub const MONITOR_TXNS_BACKOFF_SECS: u64 = 5;

/// Seconds a failed finalizer worker waits before it is restarted.
pub const FINALIZE_TXNS_BACKOFF_SECS: u64 = 5;

/// How many workers the supervisor runs.
pub const WORKER_COUNT: usize = 4;

/// The coalesced wake notifier: a single slot that remembers at most one
/// pending signal. A signal sent while one is pending collapses into it;
/// consuming takes whatever is pending.
#[derive(Debug, Clone, Copy, PartialEq, Eq, Structural)]
pub struct WakeNotifier {
    pub pending: bool,
}

impl WakeNotifier {
    /// A notifier with no signal pending.
    pub fn new() -> (r: WakeNotifier)
        ensures
            !r.pending,
    {
        WakeNotifier { pending: false }
    }

    /// Sends one wake signal. Signals coalesce: the slot is full afterwards
    /// however many were sent before.
    pub fn notify_one(&mut self)
        ensures
            final(self).pending,
    {
        self.pending = true;
    }

    /// Consumes the pending signal, if any, and says whether there was one.
    pub fn notified(&mut self) -> (was_pending: bool)
        ensures
            !final(self).pending,
            was_pending == old(self).pending,
    {
        let was = self.pending;
        self.pending = false;
        was
    }
}

/// The bounded hand-off queue carrying submitted transaction ids from the
/// propagator to the confirmation worker. A full queue blocks the producer,
/// so unconfirmed transactions cannot pile up without bound.
#[derive(Debug)]
pub struct MonitoredTxQueue {
    pub items: Vec<TransactionId>,
    pub capacity: usize,
}

impl MonitoredTxQueue {
    /// An empty queue with the given capacity.
    pub fn new(capacity: usize) -> (r: MonitoredTxQueue)
        ensures
            r.items@.len() == 0,
            r.capacity == capacity,
    {
        MonitoredTxQueue { items: Vec::new(), capacity }
    }

    /// How many ids are queued.
    pub fn len(&self) -> (r: usize)
        ensures
            r == self.items@.len(),
    {
        self.items.len()
    }

    /// Whether nothing is queued.
    pub fn is_empty(&self) -> (r: bool)
        ensures
            r == (self.items@.len() == 0),
    {
        self.items.is_empty()
    }

    /// Whether the queue is at capacity; the producer must wait before it
    /// can send.
    pub fn is_full(&self) -> (r: bool)
        ensures
            r == (self.items@.len() >= self.capacity),
    {
        self.items.len() >= self.capacity
    }

    /// Enqueues an id at the back. The producer only proceeds once there is
    /// room: a send on a full queue blocks outside this model.
    pub fn send(&mut self, tx: TransactionId)
        requires
            old(self).items@.len() < old(self).capacity,
        ensures
            final(self).capacity == old(self).capacity,
            final(self).items@ == old(self).items@.push(tx),
            spec_transaction_ids(final(self).items@) == spec_transaction_ids(old(self).items@).push(
                tx@,
            ),
    {
        let ghost before = self.items@;
        self.items.push(tx);
        proof {
            assert(spec_transaction_ids(self.items@) =~= spec_transaction_ids(before).push(
                self.items@.last()@,
            ));
        }
    }

    /// Dequeues the id at the front, if any. The single consumer blocks on
    /// an empty queue outside this model.
    pub fn recv(&mut self) -> (r: Option<TransactionId>)
        ensures
            final(self).capacity == old(self).capacity,
            match r {
                Some(tx) => old(self).items@.len() > 0 && tx == old(self).items@[0]
                    && final(self).items@ == old(self).items@.drop_first(),
                None => old(self).items@.len() == 0 && final(self).items@ == old(self).items@,
            },
    {
        if self.items.is_empty() {
            None
        } else {
            let tx = self.items.remove(0);
            proof {
                assert(self.items@ =~= old(self).items@.drop_first());
            }
            Some(tx)
        }
    }
}

/// Abstract state of everything the workers share.
pub struct ServiceStateView {
    pub database: DatabaseView,
    pub wake_pending: bool,
    pub monitored_txs: Seq<Seq<char>>,
    pub monitored_txs_capacity: nat,
}

/// Everything the workers share: the persisted store, the wake notifier
/// from the checker to the propagator, and the hand-off queue from the
/// propagator to the confirmation worker. The store is the single source of
/// truth; the other two carry no authority.
#[derive(Debug)]
pub struct ServiceState {
    pub database: Database,
    pub wake_up_notify: WakeNotifier,
    pub monitored_txs: MonitoredTxQueue,
}

impl View for ServiceState {
    type V = ServiceStateView;

    open spec fn view(&self) -> ServiceStateView {
        ServiceStateView {
            database: self.database@,
            wake_pending: self.wake_up_notify.pending,
            monitored_txs: spec_transaction_ids(self.monitored_txs.items@),
            monitored_txs_capacity: self.monitored_txs.capacity as nat,
        }
    }
}

impl ServiceState {
    /// A fresh service: empty store, no signal pending, empty queue with
    /// the configured capacity.
    pub fn new(monitored_txs_capacity: usize) -> (r: ServiceState)
        ensures
            r@.database.service_status is None,
            r@.database.transactions.len() == 0,
            !r@.wake_pending,
            r@.monitored_txs.len() == 0,
            r@.monitored_txs_capacity == monitored_txs_capacity,
    {
        let r = ServiceState {
            database: Database::new(),
            wake_up_notify: WakeNotifier::new(),
            monitored_txs: MonitoredTxQueue::new(monitored_txs_capacity),
        };
        proof {
            assert(r@.monitored_txs =~= Seq::<Seq<char>>::empty());
        }
        r
    }
}

/// What a worker loop ended with, as the supervisor sees it.
#[derive(Debug, Clone, Copy, PartialEq, Eq, Structural)]
pub enum WorkerExit {
    /// The worker honoured the cancellation signal.
    Cancelled,
    /// The worker returned an error out of a loop iteration.
    Failed,
}

/// What the restart-with-backoff wrapper does next.
#[derive(Debug, Clone, Copy, PartialEq, Eq, Structural)]
pub enum SupervisorAction {
    /// Run the worker again after waiting the given number of seconds.
    Restart { backoff_secs: u64 },
    /// Let the worker end.
    Exit,
}

/// Decides whether a finished worker is restarted: an error is retried after
/// the fixed backoff, a clean cancellation ends the worker.
pub fn supervise_worker_exit(exit: WorkerExit, backoff_secs: u64) -> (r: SupervisorAction)
    ensures
        r == (match exit {
            WorkerExit::Failed => SupervisorAction::Restart { backoff_secs },
            WorkerExit::Cancelled => SupervisorAction::Exit,
        }),
{
    match exit {
        WorkerExit::Failed => SupervisorAction::Restart { backoff_secs },
        WorkerExit::Cancelled => SupervisorAction::Exit,
    }
}

/// The record of a started worker set: how many workers were spawned and
/// hold a cancellation receiver.
#[derive(Debug, Clone, Copy, PartialEq, Eq, Structural)]
pub struct RunningInstance {
    pub worker_count: usize,
}

impl RunningInstance {
    /// Collects the workers' completions after the cancellation signal was
    /// broadcast: the first worker error is returned, the rest are only
    /// logged by the caller.
    pub fn shutdown(self, worker_results: &Vec<Result<(), String>>) -> (r: Result<(), String>)
        ensures
            r is Ok ==> forall|i: int| 0 <= i < worker_results@.len() ==> worker_results@[i] is Ok,
            r is Err ==> exists|i: int|
                {
                    &&& 0 <= i < worker_results@.len()
                    &&& #[trigger] worker_results@[i] is Err
                    &&& r->Err_0@ == worker_results@[i]->Err_0@
                    &&& forall|j: int| 0 <= j < i ==> worker_results@[j] is Ok
                },
    {
        let n = worker_results.len();
        for i in 0..n
            invariant
                n == worker_results@.len(),
                forall|j: int| 0 <= j < i ==> worker_results@[j] is Ok,
        {
            match &worker_results[i] {
                Ok(_) => {},
                Err(message) => {
                    let m = message.clone();
                    proof {
                        assert(worker_results@[i as int] is Err);
                    }
                    return Err(m);
                },
            }
        }
        Ok(())
    }
}

/// The supervisor: owns the workers' lifecycle. Either stopped, or running
/// one set of workers; starting and stopping swap this state under a single
/// exclusive section and never hold it across worker execution.
#[derive(Debug)]
pub struct TaskMonitor {
    pub instance: Option<RunningInstance>,
}

impl TaskMonitor {
    /// A stopped supervisor.
    pub fn new() -> (r: TaskMonitor)
        ensures
            r.instance is None,
    {
        TaskMonitor { instance: None }
    }

    /// Starts the worker set exactly once. Called while already running it
    /// is a no-op, not an error: the caller logs a warning where `started`
    /// is false.
    pub fn start(&mut self) -> (started: bool)
        ensures
            old(self).instance is Some ==> !started && final(self).instance == old(self).instance,
            old(self).instance is None ==> started && final(self).instance == Some(
                RunningInstance { worker_count: WORKER_COUNT },
            ),
    {
        if self.instance.is_some() {
            return false;
        }
        self.instance = Some(RunningInstance { worker_count: WORKER_COUNT });
        true
    }

    /// Takes the running instance for shutdown, leaving the supervisor
    /// stopped. Idempotent: a stopped supervisor yields nothing and stays
    /// stopped. The caller broadcasts the cancellation signal, awaits the
    /// workers, and hands their results to [`RunningInstance::shutdown`].
    pub fn shutdown(&mut self) -> (r: Option<RunningInstance>)
        ensures
            final(self).instance is None,
            r == old(self).instance,
    {
        self.instance.take()
    }
}

/// The status the persisted row answers with: a missing row reads as
/// unsynced.
pub open spec fn spec_effective_status(db: DatabaseView) -> BridgeStatus {
    match db.service_status {
        Some(row) => row.status,
        None => BridgeStatus::Unsynced,
    }
}

impl TaskMonitor {
    /// Whether the persisted status reads as the given one. A missing row
    /// and an unparseable status string both read as unsynced.
    pub fn check_db_state(database: &Database, status_check: BridgeStatus) -> (r: bool)
        ensures
            r == (spec_effective_status(database@) == status_check),
    {
        let status = match database.get_db_status() {
            Some(s) => s,
            None => "unsynced".to_owned(),
        };
        let bridge_status = match BridgeStatus::from_str(status.as_str()) {
            Ok(parsed) => parsed,
            Err(_) => BridgeStatus::Unsynced,
        };
        proof {
            match database@.service_status {
                Some(row) => {
                    crate::processor::status::lemma_bridge_status_column_parses(row.status);
                },
                None => {
                    crate::processor::status::lemma_bridge_status_column_parses(
                        BridgeStatus::Unsynced,
                    );
                },
            }
        }
        bridge_status == status_check
    }

    /// Whether the most recent transaction has the given status.
    pub fn check_last_transaction_status(database: &Database, status_check: TxStatus) -> (r: bool)
        ensures
            r == (spec_last_status(database@.transactions) == Some(status_check)),
    {
        match database.get_last_transaction_status() {
            Some(status) => status == status_check,
            None => false,
        }
    }
}

} // verus!
