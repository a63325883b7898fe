//! Core runtime for a frame-driven interactive program: a stack-based
//! control-flow state machine, an input-normalization pipeline, and the
//! per-frame resource context that hooks receive.
//!
//! Everything host-specific (rendering surface, audio playback, durable
//! storage, the display-refresh callback) stays outside this crate; the
//! machine here works on plain values and hands actions back to its caller.

pub mod bitmap;
pub mod events;
pub mod level;
pub mod machine;
pub mod sound;
