//! Plain data carried between the plugin's callbacks and the session's readers.

use vstd::prelude::*;
use vstd::slice::slice_to_vec;

verus! {

/// Dimensions and timing of the loaded content, reported by the plugin once
/// after content load and immutable thereafter. The frame rate and sample
/// rate are kept in whole frames and samples per second, which is the
/// precision the pacing logic and the audio sink configuration consume.
#[derive(Clone, Copy, Debug, PartialEq, Eq, Structural)]
pub struct ContentData {
    pub width: u32,
    pub height: u32,
    pub fps: u32,
    pub sample_rate: u32,
}

impl ContentData {
    pub fn new(width: u32, height: u32, fps: u32, sample_rate: u32) -> (r: Self)
        ensures
            r.width == width,
            r.height == height,
            r.fps == fps,
            r.sample_rate == sample_rate,
    {
        Self { width, height, fps, sample_rate }
    }
}

/// One complete video frame in the canonical encoding: RGBA8, row-major,
/// four bytes per pixel, no stride padding.
#[derive(Debug)]
pub struct VideoData {
    pub width: u32,
    pub height: u32,
    pub buffer: Vec<u8>,
}

impl VideoData {
    pub fn new(width: u32, height: u32, buffer: &[u8]) -> (r: Self)
        ensures
            r.width == width,
            r.height == height,
            r.buffer@ == buffer@,
    {
        Self { width, height, buffer: slice_to_vec(buffer) }
    }
}

impl Clone for VideoData {
    fn clone(&self) -> (r: Self)
        ensures
            r.width == self.width,
            r.height == self.height,
            r.buffer@ == self.buffer@,
    {
        VideoData::new(self.width, self.height, self.buffer.as_slice())
    }
}

/// One batch of interleaved 16-bit stereo samples, exactly as the plugin
/// delivered it: no resampling and no channel remixing.
#[derive(Debug)]
pub struct AudioData {
    pub buffer: Vec<i16>,
}

impl AudioData {
    pub fn new(buffer: &[i16]) -> (r: Self)
        ensures
            r.buffer@ == buffer@,
    {
        Self { buffer: slice_to_vec(buffer) }
    }
}

impl Clone for AudioData {
    fn clone(&self) -> (r: Self)
        ensures
            r.buffer@ == self.buffer@,
    {
        AudioData::new(self.buffer.as_slice())
    }
}

} // verus!
