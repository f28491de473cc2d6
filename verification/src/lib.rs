//! Protocol bridge core between a remote-control device ("R2") and a
//! home-automation hub ("HA").
//!
//! The crate holds the decision logic of the bridge: the session registry,
//! the controller state machine with its reconnect policy, the driver-setup
//! state machine, URL normalization for the hub address, and the upstream
//! client's request-id bookkeeping.  All I/O (WebSockets, timers, the actor
//! mailboxes) lives outside; callers feed events in and perform the returned
//! actions.

pub mod controller;
pub mod errors;
pub mod ha_client;
pub mod messages;
pub mod media_player;
pub mod requests;
pub mod session;
pub mod settings;
pub mod setup_flow;
pub mod text;
pub mod url_norm;
