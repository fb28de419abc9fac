//! The decision core of a client-side transport channel for an RPC protocol that
//! runs over a multiplexed stream transport.
//!
//! Everything here is a plain value or a function between plain values. Dialing,
//! the handshake, sending and timers are done by the caller, who reports what
//! happened as events and carries out the actions that the library returns.
//!
//! - [`endpoint`]: the configuration of a channel.
//! - [`settings`]: the parameters of the handshake, for the channel and for each
//!   connection attempt.
//! - [`pipeline`]: the layers of a channel, their order, and what they do to a
//!   request.
//! - [`call`]: one call and its deadline.
//! - [`factory`]: one connection attempt, from dialing to the handle.
//! - [`handle`]: the handle on a live session.
//! - [`reconnect`]: the layer that holds the current handle and has a new one
//!   made when it is needed.
//! - [`connection`]: the channel as its user sees it.
//! - [`request`], [`uri`], [`span`], [`error`], [`readiness`]: the values that
//!   the others speak of.

pub mod call;
pub mod connection;
pub mod endpoint;
pub mod error;
pub mod factory;
pub mod handle;
pub mod pipeline;
pub mod readiness;
pub mod reconnect;
pub mod request;
pub mod settings;
pub mod span;
pub mod uri;
