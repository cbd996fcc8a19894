//! Operational monitor library: long-poll command dispatch, endpoint and
//! certificate health checks, a shared pause state machine, report
//! formatting, and webhook authentication.

pub mod api;
pub mod config;
pub mod monitor;
pub mod telegram;
pub mod text;
pub mod website;
