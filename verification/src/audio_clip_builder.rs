//! Audio clip construction.
//!
//! [`AudioClipParams`] holds an audio clip's fields (required ones through
//! [`AudioClipParams::new`], the rest with defaults); [`AudioClipBuilder`]
//! validates them into an [`AudioClipDef`].

use vstd::prelude::*;
use crate::clip_builder::time_range_error;
use crate::text::{label, labelled};
use crate::model::AudioClipDef;
use crate::seconds::{Scalar, Seconds};
use crate::validation::{BuilderError, BuilderErrors, ErrorView};

verus! {

/// The binary32 pattern of 1.0.
pub const ONE_BITS: u32 = 0x3F80_0000;

/// Fields of an audio clip. Required: `id`, `path`, `end_time`; every other
/// field has a default.
pub struct AudioClipParams {
    /// Unique identifier for reference.
    pub id: String,
    /// Path to the audio file, relative to the project.
    pub path: String,
    /// Audio track the clip occupies. Default 0.
    pub track: u32,
    /// When the clip starts playing, in seconds. Default 0.
    pub start_time: Seconds,
    /// When the clip stops playing, in seconds.
    pub end_time: Seconds,
    /// Volume level. Default 1.0.
    pub volume: Scalar,
    /// Offset into the source file where playback begins. Default 0.
    pub source_offset: Seconds,
    /// Offset into the source file where playback ends; 0 plays to the end.
    /// Default 0.
    pub trim_end: Seconds,
}

impl AudioClipParams {
    /// Audio clip fields with the required values and every default.
    pub fn new(id: &str, path: &str, end_time: Seconds) -> (r: AudioClipParams)
        ensures
            r.id@ == id@,
            r.path@ == path@,
            r.track == 0,
            r.start_time.bits == 0,
            r.end_time == end_time,
            r.volume.bits == ONE_BITS,
            r.source_offset.bits == 0,
            r.trim_end.bits == 0,
    {
        AudioClipParams {
            id: String::from_str(id),
            path: String::from_str(path),
            track: 0,
            start_time: Seconds::zero(),
            end_time,
            volume: Scalar::from_bits(ONE_BITS),
            source_offset: Seconds::zero(),
            trim_end: Seconds::zero(),
        }
    }
}

/// The context segment naming an audio clip in error paths.
pub open spec fn audio_context(p: AudioClipParams) -> Seq<char> {
    labelled("audio clip"@, p.id@)
}

/// Every validation error of an audio clip.
pub open spec fn audio_errors(p: AudioClipParams) -> Seq<ErrorView> {
    if !p.start_time.below(p.end_time) {
        seq![time_range_error(audio_context(p))]
    } else {
        Seq::empty()
    }
}

/// `c` is the audio clip built from `p`.
pub open spec fn is_audio_clip(c: AudioClipDef, p: AudioClipParams) -> bool {
    &&& c.id@ == p.id@
    &&& c.path@ == p.path@
    &&& c.track == p.track
    &&& c.start_time == p.start_time
    &&& c.end_time == p.end_time
    &&& c.volume == p.volume
    &&& c.source_offset == p.source_offset
    &&& c.trim_end == p.trim_end
}

/// Builder for an [`AudioClipDef`] with validation.
pub struct AudioClipBuilder {
    params: AudioClipParams,
}

impl AudioClipBuilder {
    /// The audio clip fields.
    pub closed spec fn params(&self) -> AudioClipParams {
        self.params
    }

    /// Creates a builder from audio clip fields.
    pub fn new(params: AudioClipParams) -> (r: AudioClipBuilder)
        ensures
            r.params() == params,
    {
        AudioClipBuilder { params }
    }

    /// Consumes the builder, validates, and returns the audio clip.
    ///
    /// Validation: `end_time` must be greater than `start_time`.
    pub fn build(self) -> (r: Result<AudioClipDef, BuilderErrors>)
        ensures
            match r {
                Ok(c) => audio_errors(self.params()).len() == 0 && is_audio_clip(c, self.params()),
                Err(e) => audio_errors(self.params()).len() > 0 && e@ == audio_errors(
                    self.params(),
                ),
            },
    {
        let p = self.params;
        let mut errors = BuilderErrors::new();
        if !p.start_time.lt(&p.end_time) {
            let ctx = label("audio clip", p.id.as_str());
            errors.push(
                BuilderError::new("end_time must be greater than start_time").in_context(
                    ctx.as_str(),
                ),
            );
        }
        proof {
            assert(errors@ =~= audio_errors(p));
        }
        match errors.into_result() {
            Err(e) => Err(e),
            Ok(()) => Ok(
                AudioClipDef {
                    id: p.id,
                    path: p.path,
                    track: p.track,
                    start_time: p.start_time,
                    end_time: p.end_time,
                    volume: p.volume,
                    source_offset: p.source_offset,
                    trim_end: p.trim_end,
                },
            ),
        }
    }
}

} // verus!

verus! {

/// `a` builds without errors.
pub open spec fn audio_ok(a: AudioClipBuilder) -> bool {
    audio_errors(a.params()).len() == 0
}

/// The errors of building each audio clip, concatenated in order.
pub open spec fn audios_errors(audios: Seq<AudioClipBuilder>) -> Seq<ErrorView>
    decreases audios.len(),
{
    if audios.len() == 0 {
        Seq::empty()
    } else {
        audios_errors(audios.drop_last()) + audio_errors(audios.last().params())
    }
}

/// The ids and end times of the audio clips that build, in order.
pub open spec fn ok_audio_stamps(audios: Seq<AudioClipBuilder>) -> Seq<(Seq<char>, Seconds)>
    decreases audios.len(),
{
    if audios.len() == 0 {
        Seq::empty()
    } else {
        let rest = ok_audio_stamps(audios.drop_last());
        if audio_ok(audios.last()) {
            rest.push((audios.last().params().id@, audios.last().params().end_time))
        } else {
            rest
        }
    }
}

/// The ids and end times of audio clips.
pub open spec fn audio_stamps(clips: Seq<AudioClipDef>) -> Seq<(Seq<char>, Seconds)> {
    clips.map_values(|c: AudioClipDef| (c.id@, c.end_time))
}

/// `clips` are the audio clips built from `audios`, one each, in order.
pub open spec fn are_audio_clips(clips: Seq<AudioClipDef>, audios: Seq<AudioClipBuilder>) -> bool {
    &&& clips.len() == audios.len()
    &&& forall|i: int| #![trigger clips[i]] 0 <= i < audios.len() ==> is_audio_clip(clips[i], audios[i].params())
}

/// Builds every audio clip, keeping those that build and collecting the
/// errors of those that do not.
pub fn build_audio_clips(audios: Vec<AudioClipBuilder>) -> (r: (Vec<AudioClipDef>, BuilderErrors))
    ensures
        r.1@ == audios_errors(audios@),
        audio_stamps(r.0@) == ok_audio_stamps(audios@),
        audios_errors(audios@).len() == 0 ==> are_audio_clips(r.0@, audios@),
{
    let ghost orig = audios@;
    let mut audios = audios;
    let mut clips: Vec<AudioClipDef> = Vec::new();
    let mut errors = BuilderErrors::new();
    let n: usize = audios.len();
    let mut i: usize = 0;
    while i < n
        invariant
            n == orig.len(),
            i <= n,
            audios@ == orig.skip(i as int),
            errors@ == audios_errors(orig.take(i as int)),
            audio_stamps(clips@) == ok_audio_stamps(orig.take(i as int)),
            audios_errors(orig.take(i as int)).len() == 0 ==> are_audio_clips(clips@, orig.take(i as int)),
        decreases n - i,
    {
        let a = audios.remove(0);
        proof {
            assert(a == orig[i as int]);
            assert(audios@ =~= orig.skip(i + 1));
            assert(orig.take(i + 1).drop_last() =~= orig.take(i as int));
        }
        let ghost before = clips@;
        match a.build() {
            Ok(c) => {
                clips.push(c);
                proof {
                    assert(audio_stamps(clips@) =~= audio_stamps(before).push((c.id@, c.end_time)));
                    if audios_errors(orig.take(i + 1)).len() == 0 {
                        assert forall|j: int| #![trigger clips@[j]] 0 <= j < i + 1 implies is_audio_clip(
                            clips@[j],
                            orig.take(i + 1)[j].params(),
                        ) by {
                            if j < i {
                                assert(clips@[j] == before[j]);
                                assert(orig.take(i + 1)[j] == orig.take(i as int)[j]);
                            }
                        }
                    }
                }
            },
            Err(e) => {
                errors.merge(e);
            },
        }
        i = i + 1;
    }
    proof {
        assert(orig.take(n as int) =~= orig);
    }
    (clips, errors)
}

} // verus!
