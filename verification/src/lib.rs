//! Verified core of a keyboard-and-mouse sharing application: the input
//! model and held-input tracking, the macOS and Windows key tables and event
//! interpretation, routing and hand-off between machines, the set of
//! connected peers, clipboard loop breaking, configuration rules and schema
//! migration, and peer discovery bookkeeping.

pub mod keycode;
pub mod modifiers;
pub mod event;
pub mod state;
pub mod state_laws;
pub mod error;
pub mod macos;
pub mod windows;
pub mod clipboard;
pub mod inject;
pub mod capture;
pub mod routing;
pub mod handoff;
pub mod lexical;
pub mod device;
pub mod peers;
pub mod discovery;
pub mod config;
pub mod logging;
pub mod status;
pub mod engine;
