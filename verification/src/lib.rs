//! Request/response correlation between a host process and a remote script
//! engine that can only answer through one-way notifications.
//!
//! The host injects a script into the remote engine and wants its value back
//! as if it had made a call. The engine cannot answer a call; it can only
//! emit notifications that every listener hears. This library holds what
//! joins the two:
//!
//! - [`token`] hands out the fresh token that marks one execution;
//! - [`script`] prepares the caller's snippet and wraps it in the text that
//!   reports the snippet's outcome, tagged with the token;
//! - [`registry`] keeps, under its token, the result channel of every
//!   execution that waits;
//! - [`notification`] reads a notification's payload, and [`correlator`]
//!   completes the execution that the notification names, and no other;
//! - [`dispatcher`] follows one execution from its registration to its
//!   clean-up and says which envelope the caller gets;
//! - [`envelope`] is that outcome.
//!
//! Injecting the script, subscribing to the notifications and waiting on the
//! result channel are left to the caller. [`json`] holds the calls into
//! `serde_json`, whose contracts are taken on trust.

mod channel;
pub mod correlator;
pub mod dispatcher;
pub mod envelope;
pub mod json;
pub mod notification;
pub mod registry;
pub mod script;
pub mod token;
