//! Client-side logic for driving a UCI-style chess engine over
//! newline-terminated text pipes: command formatting, timeout-bounded
//! line scanning, and the sequencing rules that interpret the engine's
//! replies (handshake, option enumeration, best-move extraction).
//!
//! The session itself lives in [`session`]; the OS-level process and
//! pipe plumbing is left to the embedding program, which hands the
//! session plain values (spawned-child transports, lines, liveness).

pub mod commands;
pub mod session;
pub mod text;
