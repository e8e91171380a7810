//! Reconciles a queue of pending fee-acceleration requests against an
//! external transaction-relay daemon: eligible requests are mapped to
//! daemon commands, outcomes are recorded as audit-log lines, and the
//! queue is committed only when every attempted call succeeded.

pub mod decimal;
pub mod laws;
pub mod logline;
pub mod model;
pub mod reconcile;
pub mod stamp;

pub use model::Acceleration;
pub use reconcile::AttemptResult;
pub use reconcile::RunResult;
