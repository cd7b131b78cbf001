//! Event aggregation for a desktop status bar.
//!
//! Four adapters watch the desktop: the window manager's event socket, the
//! host's counters, a media player, and the audio server. Each turns the raw
//! text of its source into typed events; every event travels in a
//! [`payload::Payload`] envelope that carries the opcode of its kind, and a
//! [`supervisor::Supervisor`] forwards the envelopes until the first adapter
//! ends.
//!
//! The crate holds the decisions only, each with a contract that says what
//! it returns. Reading sockets, running subprocesses, keeping time and
//! writing the output stream are left to the caller, which feeds lines in and
//! gets events back.
//!
//! - [`payload`], [`wire`], [`err`]: the envelope, the shape of what goes on
//!   the output stream, and the errors.
//! - [`hyprland`], [`sysinfo`], [`spotify`], [`volume`]: the adapters.
//! - [`supervisor`], [`args`]: the termination policy and the settings.
//! - [`text`], [`number`]: the text algorithms that the adapters share.

pub mod args;
pub mod err;
pub mod hyprland;
pub mod number;
pub mod payload;
pub mod spotify;
pub mod supervisor;
pub mod sysinfo;
pub mod text;
pub mod volume;
pub mod wire;
