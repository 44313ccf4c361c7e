//! Probing: the outcome of a probe, how a response is judged, the alert
//! state machine and the scheduler's bookkeeping.

pub mod alert;
pub mod checker;
pub mod result;
pub mod scheduler;
pub mod scheduler_laws;
