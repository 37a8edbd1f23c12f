//! Core of a multi-timbral software instrument: MIDI message decoding and
//! filtering, the render graph of synthesis nodes with its command protocol,
//! the beat scheduler (musical clock and step sequencer), and the buffer
//! discipline of the audio bridge.
//!
//! Audio and MIDI hardware I/O, JSON transport, and the synthesis engines
//! themselves live outside this crate; this crate holds the decisions and
//! data structures they drive, with their contracts.

pub mod buffers;
pub mod clock;
pub mod graph;
pub mod midi;
pub mod midi_filter;
pub mod node;
pub mod path;
pub mod preset_map;
pub mod rhythm;
pub mod sequencer;
pub mod util;
pub mod velocity_map;
pub mod voices;
