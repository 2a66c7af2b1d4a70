//! Control-surface mapping for a grid MIDI controller: semantic key types,
//! their raw-byte codecs, event translation and LED command building.
pub mod enums;
pub mod errors;
pub mod io;
