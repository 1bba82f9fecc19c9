//! Typed failures of the plugin host, one enum per phase.

use vstd::prelude::*;

verus! {

/// Failure while loading the plugin binary itself.
#[derive(Clone, Copy, Debug, PartialEq, Eq, Structural)]
pub enum LoadError {
    /// The dynamic library at the given path could not be opened.
    LibraryNotFound,
    /// The library opened, but one of the required entry points is absent.
    /// No partially bound function table is ever kept.
    MissingSymbol,
}

/// Failure while loading the content file the plugin is asked to run.
#[derive(Clone, Copy, Debug, PartialEq, Eq, Structural)]
pub enum ContentError {
    /// The content file could not be read into memory.
    Unreadable,
}

/// Failure while converting a raw framebuffer to the canonical encoding.
/// A malformed frame is dropped and the previous valid frame is retained;
/// it never aborts the session.
#[derive(Clone, Copy, Debug, PartialEq, Eq, Structural)]
pub enum ConversionError {
    /// The raw buffer's length is not an exact multiple of the row pitch.
    SizeNotMultipleOfPitch,
    /// The packed buffer's length is not an exact multiple of the pixel size.
    SizeNotMultipleOfPixel,
    /// The row pitch is shorter than one row of visible pixels.
    PitchTooSmall,
    /// The negotiated pixel format cannot be converted, or none has been
    /// negotiated at all.
    UnsupportedPixelFormat,
}

} // verus!
