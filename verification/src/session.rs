//! The session's shared state and the decisions its callbacks make.
//!
//! The plugin runs synchronously inside the host's run step and talks back
//! through free callbacks; everything those callbacks decide and record is
//! gathered here, on plain values, so the trampolines at the foreign
//! boundary only decode their raw arguments and call in. Readers poll the
//! most recent complete frame, audio batch and content descriptor; a write
//! replaces a value whole, so a reader sees the previous value or the new
//! one, never a torn one.

use vstd::prelude::*;
use crate::data::{AudioData, ContentData, VideoData};
use crate::error::{ContentError, ConversionError, LoadError};
use crate::video::{canonical_frame_spec, convert_frame, frame_error_spec, frame_shape_ok, PixelFormat};

verus! {

/// How many entry points a plugin must export. Loading binds them all or
/// fails without keeping any: no partially bound table is ever observed.
pub const REQUIRED_ENTRY_POINTS: usize = 25;

/// A request the plugin sends through the environment callback, decoded
/// from its wire form. The callback's reply must say truthfully whether
/// the request was handled; claiming an unhandled one is a protocol
/// violation.
#[derive(Clone, Copy, Debug, PartialEq, Eq, Structural)]
pub enum EnvironmentCommand {
    /// May the host be handed the same frame twice in a row?
    QueryCanDupe,
    /// Switch to the pixel encoding carrying this wire code.
    SetPixelFormat(u32),
    /// Hand the plugin a logging sink.
    GetLogInterface,
    /// Any request the host does not recognize.
    Other,
}

/// The state shared between the plugin-invoked callbacks (writers) and the
/// session's public readers: what is loaded, what was negotiated, and the
/// latest media the plugin produced.
pub struct SessionState {
    /// Whether a plugin is currently loaded.
    pub core_loaded: bool,
    /// The pixel encoding negotiated so far, if any. A renegotiation takes
    /// effect for subsequent frames only.
    pub pixel_format: Option<PixelFormat>,
    /// The content descriptor, recorded once after content load.
    pub content: Option<ContentData>,
    /// The most recent complete frame, already canonical.
    pub video: Option<VideoData>,
    /// The most recent audio batch.
    pub audio: Option<AudioData>,
}

/// The two states agree on everything but the latest frame.
pub open spec fn same_but_video(pre: SessionState, post: SessionState) -> bool {
    &&& post.core_loaded == pre.core_loaded
    &&& post.pixel_format == pre.pixel_format
    &&& post.content == pre.content
    &&& post.audio == pre.audio
}

/// The two states agree on everything but the latest audio batch.
pub open spec fn same_but_audio(pre: SessionState, post: SessionState) -> bool {
    &&& post.core_loaded == pre.core_loaded
    &&& post.pixel_format == pre.pixel_format
    &&& post.content == pre.content
    &&& post.video == pre.video
}

/// The two states agree on everything but the negotiated pixel format.
pub open spec fn same_but_format(pre: SessionState, post: SessionState) -> bool {
    &&& post.core_loaded == pre.core_loaded
    &&& post.content == pre.content
    &&& post.video == pre.video
    &&& post.audio == pre.audio
}

/// The two states agree on every field.
pub open spec fn same_state(pre: SessionState, post: SessionState) -> bool {
    same_but_video(pre, post) && post.video == pre.video
}

impl SessionState {
    /// A fresh session: nothing loaded, nothing negotiated, no media yet.
    pub fn new() -> (r: Self)
        ensures
            !r.core_loaded,
            r.pixel_format is None,
            r.content is None,
            r.video is None,
            r.audio is None,
    {
        SessionState { core_loaded: false, pixel_format: None, content: None, video: None, audio: None }
    }

    /// Record that a plugin's entry points were bound. Loading over a live
    /// plugin replaces it; the state negotiated so far is kept until the
    /// new plugin renegotiates or the session is torn down.
    pub fn on_core_loaded(&mut self)
        ensures
            final(self).core_loaded,
            final(self).pixel_format == old(self).pixel_format,
            final(self).content == old(self).content,
            final(self).video == old(self).video,
            final(self).audio == old(self).audio,
    {
        self.core_loaded = true;
    }

    /// Record the content descriptor the plugin reported after content
    /// load; the pacing, scaling and audio readers take it verbatim.
    pub fn on_content_loaded(&mut self, content: ContentData)
        ensures
            final(self).content == Some(content),
            final(self).core_loaded == old(self).core_loaded,
            final(self).pixel_format == old(self).pixel_format,
            final(self).video == old(self).video,
            final(self).audio == old(self).audio,
    {
        self.content = Some(content);
    }

    /// Answer one environment request. The reply says exactly whether the
    /// request was handled: capability and logging queries always are, a
    /// pixel-format switch only for an encoding the host can convert (the
    /// 15-bit one is rejected here, at negotiation time, rather than
    /// failing later on a frame), and anything else never is. Only an
    /// accepted format switch changes any state.
    pub fn on_environment(&mut self, command: EnvironmentCommand) -> (handled: bool)
        ensures
            match command {
                EnvironmentCommand::QueryCanDupe => handled && same_state(*old(self), *final(self)),
                EnvironmentCommand::GetLogInterface => handled && same_state(
                    *old(self),
                    *final(self),
                ),
                EnvironmentCommand::Other => !handled && same_state(*old(self), *final(self)),
                EnvironmentCommand::SetPixelFormat(code) => match PixelFormat::spec_from_code(
                    code,
                ) {
                    Some(f) => if f.spec_supported() {
                        handled && final(self).pixel_format == Some(f) && same_but_format(
                            *old(self),
                            *final(self),
                        )
                    } else {
                        !handled && same_state(*old(self), *final(self))
                    },
                    None => !handled && same_state(*old(self), *final(self)),
                },
            },
    {
        match command {
            EnvironmentCommand::QueryCanDupe => true,
            EnvironmentCommand::GetLogInterface => true,
            EnvironmentCommand::Other => false,
            EnvironmentCommand::SetPixelFormat(code) => match PixelFormat::from_code(code) {
                Some(f) => if f.is_supported() {
                    self.pixel_format = Some(f);
                    true
                } else {
                    false
                },
                None => false,
            },
        }
    }

    /// The answer to the duplicate-frame capability query: the host always
    /// accepts receiving the same frame twice.
    pub fn duplicate_frame_supported() -> (b: bool)
        ensures
            b,
    {
        true
    }

    /// Take one video-refresh callback. No buffer means "no change" and
    /// leaves the previous frame untouched; a raw buffer is converted and,
    /// on success, replaces the frame whole. A malformed buffer, or one
    /// arriving before any format was negotiated, is reported and dropped,
    /// the previous valid frame retained, so one bad frame cannot end the
    /// session.
    pub fn on_video_refresh(
        &mut self,
        data: Option<&Vec<u8>>,
        width: u32,
        height: u32,
        pitch: usize,
    ) -> (r: Result<(), ConversionError>)
        ensures
            match data {
                None => r == Ok::<(), ConversionError>(()) && same_state(*old(self), *final(self)),
                Some(d) => match old(self).pixel_format {
                    None => r == Err::<(), ConversionError>(
                        ConversionError::UnsupportedPixelFormat,
                    ) && same_state(*old(self), *final(self)),
                    Some(f) => if frame_shape_ok(f, d@.len(), width as nat, pitch as nat) {
                        &&& r == Ok::<(), ConversionError>(())
                        &&& same_but_video(*old(self), *final(self))
                        &&& final(self).video matches Some(v) && v.width == width && v.height
                            == height && v.buffer@ == canonical_frame_spec(
                            f,
                            d@,
                            width as nat,
                            pitch as nat,
                        )
                    } else {
                        r == Err::<(), ConversionError>(
                            frame_error_spec(f, width as nat, pitch as nat),
                        ) && same_state(*old(self), *final(self))
                    },
                },
            },
    {
        match data {
            None => Ok(()),
            Some(d) => {
                let format = match self.pixel_format {
                    None => {
                        return Err(ConversionError::UnsupportedPixelFormat);
                    },
                    Some(f) => f,
                };
                match convert_frame(format, d.as_slice(), width, height, pitch) {
                    Ok(v) => {
                        self.video = Some(v);
                        Ok(())
                    },
                    Err(e) => Err(e),
                }
            },
        }
    }

    /// Take one audio-batch callback: the interleaved stereo samples are
    /// wrapped whole into the latest batch, replacing the previous one, and
    /// the number of frames consumed (two samples each) is returned - always
    /// all of them, since partial consumption is not supported.
    pub fn on_audio_batch(&mut self, samples: &[i16]) -> (consumed: usize)
        ensures
            consumed == samples@.len() / 2,
            same_but_audio(*old(self), *final(self)),
            final(self).audio matches Some(a) && a.buffer@ == samples@,
    {
        self.audio = Some(AudioData::new(samples));
        samples.len() / 2
    }

    /// Tear the session down. Safe at any point, including before anything
    /// was loaded, in which case it changes nothing; afterwards no plugin
    /// is loaded and the negotiated format, latest frame and latest audio
    /// are gone. The content descriptor is kept, as the readers that hold
    /// it configure long-lived collaborators.
    pub fn deinit(&mut self)
        ensures
            !final(self).core_loaded,
            final(self).pixel_format is None,
            final(self).video is None,
            final(self).audio is None,
            final(self).content == old(self).content,
    {
        self.core_loaded = false;
        self.pixel_format = None;
        self.video = None;
        self.audio = None;
    }

    /// The content descriptor, if the plugin has reported one.
    pub fn get_content_data(&self) -> (r: Option<ContentData>)
        ensures
            r == self.content,
    {
        self.content
    }

    /// A copy of the most recent complete frame, if any.
    pub fn get_video_data(&self) -> (r: Option<VideoData>)
        ensures
            r is Some <==> self.video is Some,
            r matches Some(v) ==> self.video matches Some(w) && v.width == w.width && v.height
                == w.height && v.buffer@ == w.buffer@,
    {
        match &self.video {
            None => None,
            Some(v) => Some(v.clone()),
        }
    }

    /// A copy of the most recent audio batch, if any.
    pub fn get_audio_data(&self) -> (r: Option<AudioData>)
        ensures
            r is Some <==> self.audio is Some,
            r matches Some(a) ==> self.audio matches Some(b) && a.buffer@ == b.buffer@,
    {
        match &self.audio {
            None => None,
            Some(a) => Some(a.clone()),
        }
    }
}

/// Decide how loading the plugin binary ends, given what the unverified
/// edge observed: whether the dynamic library opened, and which of the
/// required entry points resolved. Loading succeeds exactly when the
/// library opened and every entry point is present; otherwise the first
/// failure wins, and no partial table is kept.
pub fn load_outcome(library_opened: bool, resolved: &Vec<bool>) -> (r: Result<(), LoadError>)
    ensures
        match r {
            Ok(_) => library_opened && forall|i: int|
                0 <= i < resolved@.len() ==> #[trigger] resolved@[i],
            Err(e) => if !library_opened {
                e == LoadError::LibraryNotFound
            } else {
                e == LoadError::MissingSymbol && exists|i: int|
                    0 <= i < resolved@.len() && !(#[trigger] resolved@[i])
            },
        },
{
    if !library_opened {
        return Err(LoadError::LibraryNotFound);
    }
    let mut i: usize = 0;
    while i < resolved.len()
        invariant
            library_opened,
            i <= resolved@.len(),
            forall|j: int| 0 <= j < i ==> #[trigger] resolved@[j],
        decreases resolved@.len() - i,
    {
        if !resolved[i] {
            proof {
                assert(!resolved@[i as int]);
            }
            return Err(LoadError::MissingSymbol);
        }
        i += 1;
    }
    Ok(())
}

/// Decide how loading the content file ends: reading it into memory is the
/// only step that can fail, and its failure is the only content error.
pub fn content_read_outcome(read_ok: bool) -> (r: Result<(), ContentError>)
    ensures
        match r {
            Ok(_) => read_ok,
            Err(e) => !read_ok && e == ContentError::Unreadable,
        },
{
    if read_ok {
        Ok(())
    } else {
        Err(ContentError::Unreadable)
    }
}

} // verus!
