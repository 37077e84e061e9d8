//! Verified core of a packet-metadata-to-audio pipeline.
//!
//! Fixed-width packet records arrive from per-channel capture buffers; the
//! library decodes them, maps each source address to a set of audible voices,
//! and normalizes per-voice gain so that the mixed output stays within a fixed
//! amplitude budget no matter how many packets or workers are active. The
//! surrounding process (capture attachment, async scheduling, audio device)
//! lives outside the library and exchanges plain values with it.

pub mod packet;
pub mod tone;
pub mod mix;
pub mod collector;
pub mod dispatch;
