//! A plugin host and media bridge for callback-driven emulation cores.
//!
//! The library holds the verified heart of a frontend: the session state that
//! the plugin's callbacks write into, the conversion of raw framebuffers to a
//! canonical RGBA8 encoding, the batching of interleaved audio samples, the
//! pacing of run steps against real time, and the letterboxed placement of the
//! frame in a window. The unverifiable edges - dynamic library loading, the
//! foreign callback trampolines, file reading, and presentation - live in the
//! surrounding application, which hands this library plain values.

pub mod data;
pub mod error;
pub mod pacing;
pub mod scale;
pub mod session;
pub mod video;
