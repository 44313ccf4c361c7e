//! Service health monitoring: configuration model and validation, hot-reload
//! diffing, probe evaluation, the alert state machine, the probe scheduler's
//! bookkeeping and the shared status registry.
//!
//! The library holds the decisions; whatever performs I/O (reading files,
//! sending requests, sleeping, spawning tasks) lives with its callers and hands
//! plain values in and out.

pub mod cli;
pub mod config;
pub mod daemon;
pub mod error;
pub mod health;
pub mod notification;
pub mod service;
pub mod status;
pub mod strmap;
pub mod text;
pub mod web;
