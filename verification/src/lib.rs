//! A verified bridge between a phone-based face tracker and the VTube Studio
//! puppeteering host.
//!
//! The library holds the logic of the bridge: the protocol client state
//! machine that authenticates against the host, registers custom parameters
//! and streams injected parameter values under a strict one-request-in-flight
//! discipline; the parameter mapper that turns a tracking frame into clamped
//! parameter values through user-authored formulas; and the single-slot
//! latest-wins hand-off between the tracking receiver and the client.
//! Sockets, files and JSON encoding live outside the library; formulas are
//! compiled and evaluated by the `evalexpr` crate behind trusted wrappers.

pub mod config;
pub mod expr;
pub mod mapper;
pub mod requests;
pub mod responces;
pub mod slot;
pub mod vtspc;
pub mod vtsphone;
pub mod value_bits;
