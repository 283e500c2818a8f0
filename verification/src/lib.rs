//! Core logic of a desktop volume mixer backed by a native sound server.
//!
//! The crate models the audio-session engine: multi-channel volume levels
//! with their percent-conversion strategies, the capability tags that route
//! commands, the connection state machine, the cross-thread command gate,
//! the subscription router that turns raw change notifications into typed
//! messages, and the pool of peak-metering sub-streams.  The surrounding
//! process (the event loop thread, the native calls, the widget tree) drives
//! these state machines and performs the actions they decide on.

pub mod accent;
pub mod anchor;
pub mod app;
pub mod error;
pub mod kind;
pub mod levels;
pub mod server;
pub mod style;
pub mod text;
pub mod volume;
pub mod widgets;
pub mod xdg;
