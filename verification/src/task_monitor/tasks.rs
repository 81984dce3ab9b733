//! One module per worker: each holds the worker's per-iteration step as a
//! verified function over the shared service state, with the chain's answers
//! passed in as plain values.

pub mod check_sync;
pub mod finalize_txs;
pub mod monitor_txs;
pub mod propagate_root;
