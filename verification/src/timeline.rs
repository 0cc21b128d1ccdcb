//! Timeline bookkeeping: how many track rows to show, and the pointer
//! gesture state machine (click to seek, press and drag to scrub).
//!
//! Geometry and drawing are done by the application; it maps the pointer
//! position of a gesture to a time.

use vstd::prelude::*;
use crate::model::{AudioClipDef, ItemDef, Project};
use crate::seconds::Seconds;

verus! {

/// An action from the timeline.
#[derive(Debug, Clone, Copy, PartialEq, Eq, Structural)]
pub enum TimelineAction {
    /// Press and release without significant movement: seek to the time.
    Click(Seconds),
    /// The pointer is held down: seek to the time every frame.
    Scrub(Seconds),
}

/// The largest track index among `items`, 0 when there are none.
pub open spec fn max_item_track(items: Seq<ItemDef>) -> u32
    decreases items.len(),
{
    if items.len() == 0 {
        0
    } else {
        let m = max_item_track(items.drop_last());
        if items.last().track > m {
            items.last().track
        } else {
            m
        }
    }
}

/// The largest track index among audio clips, 0 when there are none.
pub open spec fn max_audio_track(clips: Seq<AudioClipDef>) -> u32
    decreases clips.len(),
{
    if clips.len() == 0 {
        0
    } else {
        let m = max_audio_track(clips.drop_last());
        if clips.last().track > m {
            clips.last().track
        } else {
            m
        }
    }
}

/// The largest item track is at least every item's track and, when there
/// are items, is the track of one of them.
proof fn lemma_max_item_track(items: Seq<ItemDef>)
    ensures
        forall|i: int| 0 <= i < items.len() ==> (#[trigger] items[i]).track <= max_item_track(items),
        items.len() == 0 ==> max_item_track(items) == 0,
        items.len() > 0 ==> exists|i: int| 0 <= i < items.len() && (#[trigger] items[i]).track == max_item_track(items),
    decreases items.len(),
{
    if items.len() > 0 {
        let rest = items.drop_last();
        lemma_max_item_track(rest);
        assert forall|i: int| 0 <= i < rest.len() implies rest[i] == items[i] by {}
        let last = items.len() - 1;
        assert(items[last] == items.last());
        if items.last().track > max_item_track(rest) {
            assert(items[last].track == max_item_track(items));
        } else if rest.len() == 0 {
            assert(items[last].track == max_item_track(items));
        } else {
            let k = choose|k: int| 0 <= k < rest.len() && (#[trigger] rest[k]).track == max_item_track(rest);
            assert(items[k].track == max_item_track(items));
        }
    }
}

/// The largest audio track is at least every clip's track and, when there
/// are clips, is the track of one of them.
proof fn lemma_max_audio_track(clips: Seq<AudioClipDef>)
    ensures
        forall|i: int| 0 <= i < clips.len() ==> (#[trigger] clips[i]).track <= max_audio_track(clips),
        clips.len() > 0 ==> exists|i: int| 0 <= i < clips.len() && (#[trigger] clips[i]).track == max_audio_track(clips),
    decreases clips.len(),
{
    if clips.len() > 0 {
        let rest = clips.drop_last();
        lemma_max_audio_track(rest);
        assert forall|i: int| 0 <= i < rest.len() implies rest[i] == clips[i] by {}
        let last = clips.len() - 1;
        assert(clips[last] == clips.last());
        if clips.last().track > max_audio_track(rest) {
            assert(clips[last].track == max_audio_track(clips));
        } else if rest.len() == 0 {
            assert(clips[last].track == max_audio_track(clips));
        } else {
            let k = choose|k: int| 0 <= k < rest.len() && (#[trigger] rest[k]).track == max_audio_track(rest);
            assert(clips[k].track == max_audio_track(clips));
        }
    }
}

/// The number of video track rows (one past the largest item track; at
/// least one) and of audio track rows (none without audio clips, else one
/// past the largest audio track).
pub fn track_counts(project: &Project) -> (r: (usize, usize))
    requires
        max_item_track(project.items@) < u32::MAX,
        max_audio_track(project.audio_clips@) < u32::MAX,
    ensures
        r.0 == max_item_track(project.items@) + 1,
        r.1 == (if project.audio_clips@.len() == 0 {
            0
        } else {
            max_audio_track(project.audio_clips@) + 1
        }),
        forall|i: int| 0 <= i < project.items@.len() ==> (#[trigger] project.items@[i]).track < r.0,
        r.0 == 1 || exists|i: int| 0 <= i < project.items@.len() && (#[trigger] project.items@[i]).track == r.0 - 1,
        forall|j: int| 0 <= j < project.audio_clips@.len() ==> (#[trigger] project.audio_clips@[j]).track < r.1,
        project.audio_clips@.len() == 0 ==> r.1 == 0,
        project.audio_clips@.len() > 0 ==> exists|j: int|
            0 <= j < project.audio_clips@.len() && (#[trigger] project.audio_clips@[j]).track == r.1 - 1,
{
    proof {
        lemma_max_item_track(project.items@);
        lemma_max_audio_track(project.audio_clips@);
    }
    let mut video: u32 = 0;
    let n: usize = project.items.len();
    let mut i: usize = 0;
    while i < n
        invariant
            n == project.items@.len(),
            i <= n,
            video == max_item_track(project.items@.take(i as int)),
        decreases n - i,
    {
        proof {
            assert(project.items@.take(i + 1).drop_last() =~= project.items@.take(i as int));
        }
        if project.items[i].track > video {
            video = project.items[i].track;
        }
        i = i + 1;
    }
    proof {
        assert(project.items@.take(n as int) =~= project.items@);
    }
    let mut audio: u32 = 0;
    let m: usize = project.audio_clips.len();
    let mut j: usize = 0;
    while j < m
        invariant
            m == project.audio_clips@.len(),
            j <= m,
            audio == max_audio_track(project.audio_clips@.take(j as int)),
        decreases m - j,
    {
        proof {
            assert(project.audio_clips@.take(j + 1).drop_last() =~= project.audio_clips@.take(j as int));
        }
        if project.audio_clips[j].track > audio {
            audio = project.audio_clips[j].track;
        }
        j = j + 1;
    }
    proof {
        assert(project.audio_clips@.take(m as int) =~= project.audio_clips@);
    }
    let videos: usize = (video + 1) as usize;
    let audios: usize = if m == 0 {
        0
    } else {
        (audio + 1) as usize
    };
    (videos, audios)
}

/// The pointer as the timeline sees it in one frame.
#[derive(Debug, Clone, Copy, PartialEq, Eq, Structural)]
pub struct PointerInput {
    /// The primary button is down (anywhere).
    pub primary_down: bool,
    /// The primary button was pressed down on the timeline.
    pub pressed_on_timeline: bool,
    /// The timeline registered a click (press and release without a drag).
    pub clicked: bool,
    /// A current pointer position is known.
    pub has_position: bool,
    /// The position of the interaction with the timeline is known.
    pub has_interaction_position: bool,
}

/// Which pointer position a gesture is read at.
#[derive(Debug, Clone, Copy, PartialEq, Eq, Structural)]
pub enum PointerSource {
    /// The current pointer position.
    Current,
    /// The position where the pointer interacted with the timeline.
    Interaction,
}

/// A gesture detected in one frame; the application maps the position to a
/// time to make the [`TimelineAction`].
#[derive(Debug, Clone, Copy, PartialEq, Eq, Structural)]
pub enum Gesture {
    Idle,
    Scrub(PointerSource),
    Click(PointerSource),
}

/// The gesture and next scrubbing flag for a frame.
pub open spec fn gesture_step(scrubbing: bool, p: PointerInput) -> (bool, Gesture) {
    if scrubbing {
        if p.primary_down {
            (true, if p.has_position { Gesture::Scrub(PointerSource::Current) } else { Gesture::Idle })
        } else {
            (false, if p.clicked && p.has_interaction_position {
                Gesture::Click(PointerSource::Interaction)
            } else {
                Gesture::Idle
            })
        }
    } else if p.pressed_on_timeline {
        if p.has_interaction_position {
            (true, Gesture::Scrub(PointerSource::Interaction))
        } else {
            (false, Gesture::Idle)
        }
    } else if p.clicked && p.has_interaction_position {
        (false, Gesture::Click(PointerSource::Interaction))
    } else {
        (false, Gesture::Idle)
    }
}

/// Releasing the button ends a scrub; a press on the timeline at a known
/// position starts one; without a scrub in progress and without a press on
/// the timeline, none starts, and with no click either the frame gives no
/// gesture.
pub proof fn law_scrub_lifecycle(p: PointerInput)
    ensures
        !p.primary_down ==> !gesture_step(true, p).0,
        p.pressed_on_timeline && p.has_interaction_position ==> gesture_step(false, p).0,
        !p.pressed_on_timeline ==> !gesture_step(false, p).0,
        !p.pressed_on_timeline && !p.clicked ==> gesture_step(false, p) == (false, Gesture::Idle),
{
}

/// The binary64 patterns of the ruler's thresholds and tick spacings.
pub const TEN_SECONDS: u64 = 0x4024_0000_0000_0000;
pub const SIXTY_SECONDS: u64 = 0x404E_0000_0000_0000;
pub const THREE_HUNDRED_SECONDS: u64 = 0x4072_C000_0000_0000;
pub const ONE_SECOND: u64 = 0x3FF0_0000_0000_0000;
pub const FIVE_SECONDS: u64 = 0x4014_0000_0000_0000;
pub const THIRTY_SECONDS: u64 = 0x403E_0000_0000_0000;

/// The tick spacing of the time ruler for a duration: 1 s up to 10 s, 5 s
/// up to a minute, 10 s up to 5 minutes, else (a NaN duration included)
/// 30 s.
pub open spec fn tick_spacing(duration: Seconds) -> Seconds {
    if duration.at_most(Seconds { bits: TEN_SECONDS }) {
        Seconds { bits: ONE_SECOND }
    } else if duration.at_most(Seconds { bits: SIXTY_SECONDS }) {
        Seconds { bits: FIVE_SECONDS }
    } else if duration.at_most(Seconds { bits: THREE_HUNDRED_SECONDS }) {
        Seconds { bits: TEN_SECONDS }
    } else {
        Seconds { bits: THIRTY_SECONDS }
    }
}

/// The tick spacing of the time ruler (see [`tick_spacing`]).
pub fn tick_interval(duration: Seconds) -> (r: Seconds)
    ensures
        r == tick_spacing(duration),
{
    if duration.le(&Seconds::from_bits(TEN_SECONDS)) {
        Seconds::from_bits(ONE_SECOND)
    } else if duration.le(&Seconds::from_bits(SIXTY_SECONDS)) {
        Seconds::from_bits(FIVE_SECONDS)
    } else if duration.le(&Seconds::from_bits(THREE_HUNDRED_SECONDS)) {
        Seconds::from_bits(TEN_SECONDS)
    } else {
        Seconds::from_bits(THIRTY_SECONDS)
    }
}

/// Whether a scrub (press and drag) is in progress on the timeline.
#[derive(Debug)]
pub struct ScrubState {
    scrubbing: bool,
}

impl ScrubState {
    /// Whether a scrub is in progress.
    pub closed spec fn active(&self) -> bool {
        self.scrubbing
    }

    /// No scrub in progress.
    pub fn new() -> (r: ScrubState)
        ensures
            !r.active(),
    {
        ScrubState { scrubbing: false }
    }

    /// Whether a scrub is in progress (the cursor shows grabbing).
    pub fn is_scrubbing(&self) -> (r: bool)
        ensures
            r == self.active(),
    {
        self.scrubbing
    }

    /// Handles one frame of pointer input. While scrubbing, a held button
    /// scrubs at the current position and a release ends the scrub (a
    /// release that is a click seeks). Otherwise a press on the timeline
    /// starts a scrub, and a click seeks.
    pub fn step(&mut self, p: PointerInput) -> (r: Gesture)
        ensures
            (final(self).active(), r) == gesture_step(old(self).active(), p),
    {
        if self.scrubbing {
            if p.primary_down {
                if p.has_position {
                    Gesture::Scrub(PointerSource::Current)
                } else {
                    Gesture::Idle
                }
            } else {
                self.scrubbing = false;
                if p.clicked && p.has_interaction_position {
                    Gesture::Click(PointerSource::Interaction)
                } else {
                    Gesture::Idle
                }
            }
        } else if p.pressed_on_timeline {
            if p.has_interaction_position {
                self.scrubbing = true;
                Gesture::Scrub(PointerSource::Interaction)
            } else {
                Gesture::Idle
            }
        } else if p.clicked && p.has_interaction_position {
            Gesture::Click(PointerSource::Interaction)
        } else {
            Gesture::Idle
        }
    }
}

} // verus!
