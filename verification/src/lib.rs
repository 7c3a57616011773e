//! Replays a recorded terminal session: a frame-delimited byte stream in
//! which each frame carries a millisecond timecode and an opaque payload.
//! The library decodes the stream (transparently decompressing known
//! container formats), parses frames, decides the pacing of each frame
//! against a wall clock, and renders the status overlay.

pub mod fmt;
pub mod frames;
pub mod input;
pub mod player;
pub mod schedule;
pub mod status;
