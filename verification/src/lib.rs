//! A service registry and discovery hub.
//!
//! Service instances announce themselves to the [`hub::Hub`], leave it again, are
//! listed by service name and are watched: every change of a service's membership
//! or health is published on that service's broadcast channel.
//!
//! The hub is verified as a sequential state machine. Each operation takes the hub
//! by `&mut` and its contract relates the state before the call to the state after
//! it; whoever shares a hub between tasks serialises the calls.

pub mod client;
pub mod fabric;
pub mod health_service;
pub mod hub;
pub mod laws;
pub mod model;
pub mod prober;
pub mod store;
pub mod text;
pub mod types;
