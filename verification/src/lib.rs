//! A small topic-routed publish/subscribe broadcast hub.
//!
//! One publisher sends a framed message per logical channel on a fixed
//! cadence; one subscriber session per channel filters incoming traffic by
//! topic and decodes payloads. The networking itself lives outside the
//! library; here are the configuration snapshot, the channel registry, the
//! message construction and filtering rules, and the hub's launch plan.

pub mod config;
pub mod fault;
pub mod hub;
pub mod message;
pub mod publisher;
pub mod registry;
pub mod session;
