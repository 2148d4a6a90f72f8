//! Playback control core of a small desktop music player.
//!
//! The library owns the logic of the player: the track descriptors, the
//! playback state machine, the serialized command queue, and the rules that
//! order and filter a music library.  Audio output, file decoding and the
//! user interface live outside the library and are driven by the actions
//! these functions return.

pub mod command;
pub mod laws;
pub mod loadfile;
pub mod queue;
pub mod track;
