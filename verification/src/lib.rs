//! Error classification and notification planning for a command framework.
//!
//! A failure is handed in as a [`FailureEvent`]; [`dispatch`] decides what the
//! invoker is told and what the operator's log receives.

pub mod causal;
pub mod chain;
pub mod discord;
pub mod dispatch;
pub mod event;
pub mod notice;
pub mod plan;
pub mod text;

pub use causal::{CausalChain, Cause, UserError};
pub use chain::dedup_error_chain;
pub use dispatch::{conclude, dispatch, handling_failed};
pub use event::FailureEvent;
pub use notice::{Footer, Level, LogRecord, Notification, Outcome, Severity};
