//! The coordination core of a fleet of task workers: the key layout, the task
//! record, the claim and lease protocol, the worker's and the monitor's
//! decisions, stated over a model of the key-value store they share.

pub mod key;
pub mod status;
pub mod json;
pub mod record;
pub mod store;
pub mod txn;
pub mod invariants;
pub mod request;
pub mod task;
pub mod queue;
pub mod handler;
pub mod monitor;
pub mod range;
pub mod progress;
pub mod resume;
pub mod liveness;
pub mod spawn;
