//! A listener for repository webhooks that keeps working copies up to date.
//!
//! A delivery is authenticated, matched against the configured repositories
//! and answered; where an entry matches, its working copy is fetched and
//! reset to the remote branch, and its deployment command is launched. The
//! library decides and formats; running processes and serving HTTP is left to
//! the program around it, which reports back what happened.
//!
//! - [`models`]: the configuration.
//! - [`dto`]: the kinds of events.
//! - [`signature`]: authentication of a body by its signature header.
//! - [`payload`]: what is read out of a delivery's body.
//! - [`matcher`]: which entry a delivery selects.
//! - [`git`]: the synchronization of a working copy, step by step.
//! - [`executor`]: the deployment command and its log lines.
//! - [`handler`]: the decisions on a delivery, from headers to answer.
//! - [`text`]: bytes, lines and numbers.

pub mod dto;
pub mod executor;
pub mod git;
pub mod handler;
pub mod matcher;
pub mod models;
pub mod payload;
pub mod signature;
pub mod text;
