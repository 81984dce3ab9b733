//! System-level guarantees of the reconciliation loop.
//!
//! The workers' per-iteration steps are gathered into one transition
//! relation, [`next`]: a state and a scheduling event give the next state.
//! Each exec step function ensures that it implements its event's case, so
//! what is proved of `next` holds of every interleaving of the workers. The
//! lemmas here state the load-bearing guarantees: the pending-transaction
//! invariant, the shape of the status transitions, the coalescing of wake
//! signals, the duplicate-submission guard, and the finalizer's recovery of
//! an orphaned pending transaction.

use vstd::prelude::*;

use crate::database::query::{
    has_transaction, pending_count, spec_last_pending_id, spec_last_status,
};
use crate::database::types::{TxRecordView, TxStatus};
use crate::database::DatabaseView;
use crate::processor::status::BridgeStatus;
use crate::task_monitor::tasks::check_sync::spec_check_sync;
use crate::task_monitor::tasks::finalize_txs::spec_finalize_txs;
use crate::task_monitor::tasks::monitor_txs::spec_mark_transaction;
use crate::task_monitor::tasks::propagate_root::{spec_propagate_commit, spec_propagate_guard};
use crate::task_monitor::{spec_effective_status, ServiceStateView};

verus! {

/// One scheduling event: which worker ran one iteration, with the chain's
/// answers for that iteration carried as abstract values.
pub enum Event {
    /// The sync checker ticked, with the chain's answer on agreement.
    SyncCheckerTick { is_synced: bool, now: u64 },
    /// Someone signalled the wake notifier.
    WakeSignal,
    /// The propagator woke and stood down: its guard failed, or the
    /// submission itself failed. Either way the wake is consumed.
    PropagatorSkip,
    /// The propagator woke, its guard held, the chain accepted the
    /// submission under the given id, and the outcome was recorded.
    PropagatorCommit { tx_id: Seq<char>, now: u64 },
    /// The confirmation worker received the queued id at the front and
    /// recorded the chain's confirmation outcome.
    MonitorReceive { mined: bool },
    /// The finalizer ticked, with the chain's bulk list of confirmed ids.
    FinalizerTick { mined_transactions: Seq<Seq<char>> },
}

/// What the confirmation worker's iteration does: on an empty queue it
/// blocks (no change here); otherwise the front id leaves the queue and its
/// transaction is recorded as mined, whatever the confirmation call said.
pub open spec fn spec_monitor_step(s: ServiceStateView) -> ServiceStateView {
    if s.monitored_txs.len() == 0 {
        s
    } else {
        ServiceStateView {
            database: DatabaseView {
                transactions: spec_mark_transaction(
                    s.database.transactions,
                    s.monitored_txs[0],
                    TxStatus::Mined,
                ),
                ..s.database
            },
            monitored_txs: s.monitored_txs.drop_first(),
            ..s
        }
    }
}

/// The transition relation of the whole loop: one event applied to one
/// state. A propagator commit happens only where its guard holds, the id is
/// fresh and the hand-off queue has room; otherwise the wake is consumed and
/// nothing else changes.
pub open spec fn next(s: ServiceStateView, e: Event) -> ServiceStateView {
    match e {
        Event::SyncCheckerTick { is_synced, now } => spec_check_sync(s, is_synced, now),
        Event::WakeSignal => ServiceStateView { wake_pending: true, ..s },
        Event::PropagatorSkip => ServiceStateView { wake_pending: false, ..s },
        Event::PropagatorCommit { tx_id, now } => {
            let consumed = ServiceStateView { wake_pending: false, ..s };
            if spec_propagate_guard(s.database) && !has_transaction(
                s.database.transactions,
                tx_id,
            ) && s.monitored_txs.len() < s.monitored_txs_capacity {
                spec_propagate_commit(consumed, tx_id, now)
            } else {
                consumed
            }
        },
        Event::MonitorReceive { mined: _ } => spec_monitor_step(s),
        Event::FinalizerTick { mined_transactions } => ServiceStateView {
            database: spec_finalize_txs(s.database, mined_transactions),
            ..s
        },
    }
}

/// A pending transaction can only be the most recent one: everything before
/// it has already left the pending state.
pub open spec fn pending_is_most_recent(txs: Seq<TxRecordView>) -> bool {
    forall|i: int|
        0 <= i < txs.len() && (#[trigger] txs[i]).status == TxStatus::Pending ==> i == txs.len()
            - 1
}

/// The invariant of every reachable state: a pending transaction is unique
/// (it can only be the most recent record), a pending service status is
/// backed by at least one recorded transaction, and the hand-off queue never
/// exceeds its capacity.
pub open spec fn inv(s: ServiceStateView) -> bool {
    &&& pending_is_most_recent(s.database.transactions)
    &&& (spec_effective_status(s.database) == BridgeStatus::Pending
        ==> s.database.transactions.len() > 0)
    &&& s.monitored_txs.len() <= s.monitored_txs_capacity
}

/// A fresh service satisfies the invariant.
pub proof fn lemma_initial_state_satisfies_invariant(s: ServiceStateView)
    requires
        s.database.transactions.len() == 0,
        s.database.service_status is None,
        s.monitored_txs.len() == 0,
    ensures
        inv(s),
{
}

/// Every event preserves the invariant, so it holds of every state reachable
/// from a fresh service.
pub proof fn lemma_next_preserves_invariant(s: ServiceStateView, e: Event)
    requires
        inv(s),
    ensures
        inv(next(s, e)),
{
    let txs = s.database.transactions;
    match e {
        Event::PropagatorCommit { tx_id, now } => {
            if spec_propagate_guard(s.database) && !has_transaction(txs, tx_id)
                && s.monitored_txs.len() < s.monitored_txs_capacity {
                // The guard says the most recent transaction is not pending,
                // and the invariant says any pending one would be the most
                // recent: so nothing is pending before the new record.
                assert(forall|i: int|
                    0 <= i < txs.len() ==> (#[trigger] txs[i]).status != TxStatus::Pending);
            }
        },
        Event::MonitorReceive { mined: _ } => {
            if s.monitored_txs.len() > 0 {
                let marked = spec_mark_transaction(txs, s.monitored_txs[0], TxStatus::Mined);
                assert forall|i: int|
                    0 <= i < marked.len() && (#[trigger] marked[i]).status == TxStatus::Pending
                    implies i == marked.len() - 1 by {
                    assert(txs[i].status == TxStatus::Pending);
                }
            }
        },
        Event::FinalizerTick { mined_transactions } => {
            match spec_last_pending_id(txs) {
                Some(id) => {
                    if mined_transactions.contains(id) {
                        let marked = spec_mark_transaction(txs, id, TxStatus::Mined);
                        assert forall|i: int|
                            0 <= i < marked.len() && (#[trigger] marked[i]).status
                                == TxStatus::Pending implies i == marked.len() - 1 by {
                            assert(txs[i].status == TxStatus::Pending);
                        }
                    }
                },
                None => {},
            }
        },
        _ => {},
    }
}

/// The state a run of events ends in, applied in order from the given
/// starting state.
pub open spec fn run(init: ServiceStateView, events: Seq<Event>) -> ServiceStateView
    decreases events.len(),
{
    if events.len() == 0 {
        init
    } else {
        next(run(init, events.drop_last()), events.last())
    }
}

/// The invariant holds of every reachable state: any run of events from a
/// state satisfying it ends in a state satisfying it.
pub proof fn lemma_run_preserves_invariant(init: ServiceStateView, events: Seq<Event>)
    requires
        inv(init),
    ensures
        inv(run(init, events)),
    decreases events.len(),
{
    if events.len() > 0 {
        lemma_run_preserves_invariant(init, events.drop_last());
        lemma_next_preserves_invariant(run(init, events.drop_last()), events.last());
    }
}

/// Along any run from a state satisfying the invariant, no step takes a
/// direct synced-to-pending or unsynced-to-synced edge.
pub proof fn lemma_no_skipped_edge_along_run(init: ServiceStateView, events: Seq<Event>, k: int)
    requires
        inv(init),
        0 <= k < events.len(),
    ensures
        !(spec_effective_status(run(init, events.take(k)).database) == BridgeStatus::Synced
            && spec_effective_status(run(init, events.take(k + 1)).database)
            == BridgeStatus::Pending),
        !(spec_effective_status(run(init, events.take(k)).database) == BridgeStatus::Unsynced
            && spec_effective_status(run(init, events.take(k + 1)).database)
            == BridgeStatus::Synced),
{
    lemma_run_preserves_invariant(init, events.take(k));
    assert(events.take(k + 1).drop_last() =~= events.take(k));
    assert(events.take(k + 1).last() == events[k]);
    lemma_no_skipped_status_edge(run(init, events.take(k)), events[k]);
}

/// The invariant's form of uniqueness, restated as the count the observer
/// sees: the number of pending transactions is zero or one.
pub proof fn lemma_at_most_one_pending(txs: Seq<TxRecordView>)
    requires
        pending_is_most_recent(txs),
    ensures
        0 <= pending_count(txs) <= 1,
    decreases txs.len(),
{
    reveal(Seq::filter);
    let pred = |t: TxRecordView| t.status == TxStatus::Pending;
    if txs.len() == 0 {
        assert(txs.filter(pred) =~= Seq::<TxRecordView>::empty());
    } else {
        let rest = txs.drop_last();
        assert forall|i: int|
            0 <= i < rest.len() implies (#[trigger] rest[i]).status != TxStatus::Pending by {
            assert(rest[i] == txs[i]);
        }
        lemma_no_pending_empty_filter(rest);
    }
}

/// A log with no pending record filters to nothing pending.
proof fn lemma_no_pending_empty_filter(txs: Seq<TxRecordView>)
    requires
        forall|i: int| 0 <= i < txs.len() ==> (#[trigger] txs[i]).status != TxStatus::Pending,
    ensures
        pending_count(txs) == 0,
    decreases txs.len(),
{
    reveal(Seq::filter);
    let pred = |t: TxRecordView| t.status == TxStatus::Pending;
    if txs.len() == 0 {
        assert(txs.filter(pred) =~= Seq::<TxRecordView>::empty());
    } else {
        let rest = txs.drop_last();
        assert forall|i: int|
            0 <= i < rest.len() implies (#[trigger] rest[i]).status != TxStatus::Pending by {
            assert(rest[i] == txs[i]);
        }
        lemma_no_pending_empty_filter(rest);
        assert(txs.last().status != TxStatus::Pending);
    }
}

/// The status never takes a direct synced-to-pending or unsynced-to-synced
/// edge: every path between those states passes through the intervening
/// status.
pub proof fn lemma_no_skipped_status_edge(s: ServiceStateView, e: Event)
    requires
        inv(s),
    ensures
        !(spec_effective_status(s.database) == BridgeStatus::Synced && spec_effective_status(
            next(s, e).database,
        ) == BridgeStatus::Pending),
        !(spec_effective_status(s.database) == BridgeStatus::Unsynced && spec_effective_status(
            next(s, e).database,
        ) == BridgeStatus::Synced),
{
}

/// The last-synced time is stamped only on a step that lands in the synced
/// status; every other step carries it along unchanged.
pub proof fn lemma_last_synced_stamped_only_when_synced(s: ServiceStateView, e: Event)
    ensures
        match (s.database.service_status, next(s, e).database.service_status) {
            (Some(before), Some(after)) => after.last_synced == before.last_synced
                || after.status == BridgeStatus::Synced,
            _ => true,
        },
{
}

/// Wake signals coalesce: however many are sent before one is consumed, the
/// state is the state after one signal.
pub proof fn lemma_wake_signals_coalesce(s: ServiceStateView)
    ensures
        next(next(s, Event::WakeSignal), Event::WakeSignal) == next(s, Event::WakeSignal),
{
}

/// The state after `n` wake signals in a row.
pub open spec fn signalled(s: ServiceStateView, n: nat) -> ServiceStateView
    decreases n,
{
    if n == 0 {
        s
    } else {
        next(signalled(s, (n - 1) as nat), Event::WakeSignal)
    }
}

/// Sending the wake signal any number of times before it is consumed leaves
/// the state of a single signal: at most one propagation attempt follows.
pub proof fn lemma_n_signals_equal_one(s: ServiceStateView, n: nat)
    requires
        n >= 1,
    ensures
        signalled(s, n) == next(s, Event::WakeSignal),
    decreases n,
{
    if n == 1 {
        assert(signalled(s, 0) == s);
    } else {
        lemma_n_signals_equal_one(s, (n - 1) as nat);
        lemma_wake_signals_coalesce(s);
    }
}

/// A recorded submission disarms the guard: after a commit, a further wake
/// consumes the signal and changes nothing else, whatever id or time it
/// would carry. One armed wake yields at most one submission.
pub proof fn lemma_commit_disarms_guard(
    s: ServiceStateView,
    tx_id: Seq<char>,
    now: u64,
    tx_id2: Seq<char>,
    now2: u64,
)
    requires
        inv(s),
        spec_propagate_guard(s.database),
        !has_transaction(s.database.transactions, tx_id),
        s.monitored_txs.len() < s.monitored_txs_capacity,
    ensures
        !spec_propagate_guard(next(s, Event::PropagatorCommit { tx_id, now }).database),
        next(
            next(s, Event::PropagatorCommit { tx_id, now }),
            Event::PropagatorCommit { tx_id: tx_id2, now: now2 },
        ) == (ServiceStateView {
            wake_pending: false,
            ..next(s, Event::PropagatorCommit { tx_id, now })
        }),
{
    let s2 = next(s, Event::PropagatorCommit { tx_id, now });
    assert(spec_last_status(s2.database.transactions) == Some(TxStatus::Pending));
}

/// With a transaction already pending, a wake produces no second
/// submission: the guard fails and only the wake signal is consumed.
pub proof fn lemma_pending_transaction_blocks_submission(
    s: ServiceStateView,
    tx_id: Seq<char>,
    now: u64,
)
    requires
        spec_last_status(s.database.transactions) == Some(TxStatus::Pending),
    ensures
        next(s, Event::PropagatorCommit { tx_id, now }) == (ServiceStateView {
            wake_pending: false,
            ..s
        }),
{
}

/// An orphaned pending transaction is still recovered: whatever else the
/// crash left behind, once the chain's confirmed list carries the pending
/// id, a finalizer tick records that transaction as mined.
pub proof fn lemma_orphaned_pending_recovered(
    s: ServiceStateView,
    id: Seq<char>,
    mined_transactions: Seq<Seq<char>>,
)
    requires
        spec_last_pending_id(s.database.transactions) == Some(id),
        mined_transactions.contains(id),
    ensures
        forall|i: int|
            0 <= i < s.database.transactions.len() && (#[trigger] s.database.transactions[i])
                .transaction_id == id ==> next(
                s,
                Event::FinalizerTick { mined_transactions },
            ).database.transactions[i].status == TxStatus::Mined,
{
}

} // verus!
