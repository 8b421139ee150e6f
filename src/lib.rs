//! Control plane and rednet broker for a fleet of intermittently online computers.
//!
//! The library holds the decisions: the resource model, the owner-reference
//! derivation, the plans that the cluster and gateway reconcilers apply, the
//! per-computer diff that produces wake commands, route matching for proxied
//! HTTP requests, and the tables of the broker that correlates requests with
//! replies. Talking to the orchestrator, HTTP and WebSocket I/O live outside.

pub mod api;
pub mod error;
pub mod meta;
pub mod cluster;
pub mod owned;
pub mod hub;
pub mod rednet;
pub mod broker;
pub mod fanout;
