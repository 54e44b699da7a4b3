//! Core of a desktop music player: a cyclic play queue, a playback
//! controller with lazy position tracking, and the naming scheme for
//! on-disk audio assets.
//!
//! The controller is a pure state machine over plain values: the caller
//! supplies monotonic clock readings in milliseconds and performs the
//! hardware side effects (resume, halt, gain changes) that each operation
//! prescribes.

pub mod files;
pub mod player;
pub mod queue;
