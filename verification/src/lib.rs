//! Core of a bridge from a decentralized event feed to push notifications for
//! one monitored identity.
//!
//! The library holds the logic worth stating precisely: the subscription
//! filter builder, the per-event classification and live-event deduplication
//! rules, the routing of accepted events, the debounced payment aggregator,
//! and the live-event record builder with its reminder schedule. Transport,
//! storage and HTTP delivery are collaborators outside this crate; they hand
//! the library plain values and carry its decisions out.

pub mod aggregate;
pub mod classify;
pub mod event;
pub mod filters;
pub mod live;
pub mod notify;
pub mod zap;
