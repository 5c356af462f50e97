//! A rate-controlled HTTP load generator: the accounting of a run (call
//! budget, exhaustion signal, dispatch state machine), validation of the
//! target address, and aggregation of the observed outcomes.
pub mod address;
pub mod budget;
pub mod dispatch;
pub mod results;
pub mod errors;
pub mod signal;
