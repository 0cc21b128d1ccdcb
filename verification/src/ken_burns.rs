//! Ken Burns effect: pan and zoom across images with stacked crossfades.
//!
//! Each segment becomes one clip spanning the whole effect. Clips are stacked
//! by z-index (the first segment on top); each holds, then fades out to
//! reveal the next. The floating-point arithmetic (fade times as sums of
//! hold and fade durations, pan distances as fractions of the resolution,
//! focal offsets) is supplied by the caller as closures; this module
//! resolves per-segment settings, lays out the fade times, maps directions
//! to keyframe values and assembles the clips.

use vstd::prelude::*;
use crate::anim_builder::{AnimBuilder, TrackView};
use crate::clip_builder::{
    builder_views, clip_context, clip_errors, empty_animation_errors, fit_rect_cover, ClipBuilder, ClipParams, HALF_BITS,
};
use crate::model::{AnimatableProperty, Easing, FitAnchor, FitMode, Keyframe, Sizing};
use crate::seconds::{Scalar, Seconds};
use crate::text::{decimal, decimal_string, law_decimal_injective};
use crate::audio_clip_builder::ONE_BITS;

verus! {

/// Pan/zoom direction of a segment. `FocalPoint` positions are fractions in
/// `[0, 1]`, `(0, 0)` being the top-left corner.
#[derive(Debug, Clone, Copy, PartialEq, Eq)]
pub enum KenBurnsDirection {
    ZoomInCenter,
    ZoomInLeft,
    ZoomInRight,
    ZoomInUp,
    ZoomInDown,
    ZoomOutCenter,
    ZoomOutLeft,
    ZoomOutRight,
    ZoomOutUp,
    ZoomOutDown,
    FocalPoint { start: [Scalar; 2], end: [Scalar; 2] },
}

/// Translate and scale keyframe values of a segment.
#[derive(Debug, Clone, Copy, PartialEq, Eq)]
pub struct DirectionKeyframes {
    /// Start and end of the horizontal translation; `None` for no pan.
    pub translate_x: Option<(Scalar, Scalar)>,
    /// Start and end of the vertical translation; `None` for no pan.
    pub translate_y: Option<(Scalar, Scalar)>,
    pub scale_start: Scalar,
    pub scale_end: Scalar,
}

/// Pan distances: the pan fraction times the horizontal and the vertical
/// resolution.
#[derive(Debug, Clone, Copy, PartialEq, Eq, Structural)]
pub struct PanAmounts {
    pub x: Scalar,
    pub y: Scalar,
}

/// Focal-point translations: `(0.5 - start.x) × width × zoom_start`, the
/// same with `end` and `zoom_end`, and likewise for y with the height.
#[derive(Debug, Clone, Copy, PartialEq, Eq, Structural)]
pub struct FocalOffsets {
    pub x_start: Scalar,
    pub x_end: Scalar,
    pub y_start: Scalar,
    pub y_end: Scalar,
}

/// The binary32 zero.
pub open spec fn zero32() -> Scalar {
    Scalar { bits: 0 }
}

/// The binary32 negation of `v` (its sign bit flipped).
pub open spec fn negated(v: Scalar) -> Scalar {
    Scalar { bits: v.bits ^ 0x8000_0000u32 }
}

/// Negates a binary32 value exactly.
pub fn negate(v: Scalar) -> (r: Scalar)
    ensures
        r == negated(v),
{
    Scalar { bits: v.bits ^ 0x8000_0000u32 }
}

/// The keyframe values of a direction. Zoom-in directions scale from
/// `zoom_start` to `zoom_end`, zoom-out ones the other way; left/right pan
/// horizontally, up/down vertically (zoom-in from 0 to ±pan, zoom-out from
/// ±pan to 0); a focal point translates on both axes.
pub open spec fn direction_keyframes(
    d: KenBurnsDirection,
    pan: PanAmounts,
    focal: FocalOffsets,
    zoom_start: Scalar,
    zoom_end: Scalar,
) -> DirectionKeyframes {
    let zin = DirectionKeyframes { translate_x: None, translate_y: None, scale_start: zoom_start, scale_end: zoom_end };
    let zout = DirectionKeyframes { translate_x: None, translate_y: None, scale_start: zoom_end, scale_end: zoom_start };
    match d {
        KenBurnsDirection::ZoomInCenter => zin,
        KenBurnsDirection::ZoomInLeft => DirectionKeyframes { translate_x: Some((zero32(), pan.x)), ..zin },
        KenBurnsDirection::ZoomInRight => DirectionKeyframes { translate_x: Some((zero32(), negated(pan.x))), ..zin },
        KenBurnsDirection::ZoomInUp => DirectionKeyframes { translate_y: Some((zero32(), pan.y)), ..zin },
        KenBurnsDirection::ZoomInDown => DirectionKeyframes { translate_y: Some((zero32(), negated(pan.y))), ..zin },
        KenBurnsDirection::ZoomOutCenter => zout,
        KenBurnsDirection::ZoomOutLeft => DirectionKeyframes { translate_x: Some((pan.x, zero32())), ..zout },
        KenBurnsDirection::ZoomOutRight => DirectionKeyframes { translate_x: Some((negated(pan.x), zero32())), ..zout },
        KenBurnsDirection::ZoomOutUp => DirectionKeyframes { translate_y: Some((pan.y, zero32())), ..zout },
        KenBurnsDirection::ZoomOutDown => DirectionKeyframes { translate_y: Some((negated(pan.y), zero32())), ..zout },
        KenBurnsDirection::FocalPoint { .. } => DirectionKeyframes {
            translate_x: Some((focal.x_start, focal.x_end)),
            translate_y: Some((focal.y_start, focal.y_end)),
            ..zin
        },
    }
}

/// Maps a direction to its translate and scale keyframe values (see
/// [`direction_keyframes`]).
pub fn direction_to_keyframes(
    direction: &KenBurnsDirection,
    pan: PanAmounts,
    focal: FocalOffsets,
    zoom_start: Scalar,
    zoom_end: Scalar,
) -> (r: DirectionKeyframes)
    ensures
        r == direction_keyframes(*direction, pan, focal, zoom_start, zoom_end),
{
    let zero = Scalar::from_bits(0);
    let zin = DirectionKeyframes { translate_x: None, translate_y: None, scale_start: zoom_start, scale_end: zoom_end };
    let zout = DirectionKeyframes { translate_x: None, translate_y: None, scale_start: zoom_end, scale_end: zoom_start };
    match direction {
        KenBurnsDirection::ZoomInCenter => zin,
        KenBurnsDirection::ZoomInLeft => DirectionKeyframes { translate_x: Some((zero, pan.x)), ..zin },
        KenBurnsDirection::ZoomInRight => DirectionKeyframes { translate_x: Some((zero, negate(pan.x))), ..zin },
        KenBurnsDirection::ZoomInUp => DirectionKeyframes { translate_y: Some((zero, pan.y)), ..zin },
        KenBurnsDirection::ZoomInDown => DirectionKeyframes { translate_y: Some((zero, negate(pan.y))), ..zin },
        KenBurnsDirection::ZoomOutCenter => zout,
        KenBurnsDirection::ZoomOutLeft => DirectionKeyframes { translate_x: Some((pan.x, zero)), ..zout },
        KenBurnsDirection::ZoomOutRight => DirectionKeyframes { translate_x: Some((negate(pan.x), zero)), ..zout },
        KenBurnsDirection::ZoomOutUp => DirectionKeyframes { translate_y: Some((pan.y, zero)), ..zout },
        KenBurnsDirection::ZoomOutDown => DirectionKeyframes { translate_y: Some((negate(pan.y), zero)), ..zout },
        KenBurnsDirection::FocalPoint { .. } => DirectionKeyframes {
            translate_x: Some((focal.x_start, focal.x_end)),
            translate_y: Some((focal.y_start, focal.y_end)),
            ..zin
        },
    }
}

/// When a segment's clip fades: it holds at full opacity until
/// `fade_start` and reaches zero at `fade_end`.
#[derive(Debug, Clone, Copy, PartialEq, Eq, Structural)]
pub struct SegmentTiming {
    pub fade_start: Seconds,
    pub fade_end: Seconds,
}

/// Per-segment settings; each `None` falls back to the effect's default.
#[derive(Debug)]
pub struct KenBurnsSegmentParams {
    pub image_path: String,
    pub direction: KenBurnsDirection,
    pub hold_duration: Option<Seconds>,
    pub fade_duration: Option<Seconds>,
    pub zoom_start: Option<Scalar>,
    pub zoom_end: Option<Scalar>,
    pub pan_fraction: Option<Scalar>,
    pub easing: Option<Easing>,
}

impl KenBurnsSegmentParams {
    /// A segment with an image and a direction, every other setting left to
    /// the effect's defaults.
    pub fn new(image_path: &str, direction: KenBurnsDirection) -> (r: KenBurnsSegmentParams)
        ensures
            r.image_path@ == image_path@,
            r.direction == direction,
            r.hold_duration.is_none(),
            r.fade_duration.is_none(),
            r.zoom_start.is_none(),
            r.zoom_end.is_none(),
            r.pan_fraction.is_none(),
            r.easing.is_none(),
    {
        KenBurnsSegmentParams {
            image_path: String::from_str(image_path),
            direction,
            hold_duration: None,
            fade_duration: None,
            zoom_start: None,
            zoom_end: None,
            pan_fraction: None,
            easing: None,
        }
    }
}

/// The binary64 pattern of 10.0.
pub const TEN_SECONDS_BITS: u64 = 0x4024_0000_0000_0000;
/// The binary64 pattern of 2.0.
pub const TWO_SECONDS_BITS: u64 = 0x4000_0000_0000_0000;
/// The binary32 pattern of 1.3.
pub const ZOOM_END_BITS: u32 = 0x3FA6_6666;
/// The binary32 pattern of 0.1.
pub const PAN_FRACTION_BITS: u32 = 0x3DCC_CCCD;

/// Effect-wide settings. Required: `duration`, `resolution`; the defaults
/// apply to segments that do not set their own value.
#[derive(Debug, Clone, Copy)]
pub struct KenBurnsParams {
    /// Total effect duration in seconds.
    pub duration: Seconds,
    /// Output resolution `[width, height]`.
    pub resolution: [u32; 2],
    /// Default hold duration in seconds. Default 10.
    pub default_hold_duration: Seconds,
    /// Default fade duration in seconds. Default 2.
    pub default_fade_duration: Seconds,
    /// Default starting zoom. Default 1.0.
    pub default_zoom_start: Scalar,
    /// Default ending zoom. Default 1.3.
    pub default_zoom_end: Scalar,
    /// Default pan as a fraction of the resolution. Default 0.1.
    pub default_pan_fraction: Scalar,
    /// Default easing. Default sine in-out.
    pub default_easing: Easing,
    /// z-index of the bottom clip. Default 0.
    pub base_z_index: i32,
}

impl KenBurnsParams {
    /// Effect settings with the required values and every default.
    pub fn new(duration: Seconds, resolution: [u32; 2]) -> (r: KenBurnsParams)
        ensures
            r.duration == duration,
            r.resolution == resolution,
            r.default_hold_duration.bits == TEN_SECONDS_BITS,
            r.default_fade_duration.bits == TWO_SECONDS_BITS,
            r.default_zoom_start.bits == ONE_BITS,
            r.default_zoom_end.bits == ZOOM_END_BITS,
            r.default_pan_fraction.bits == PAN_FRACTION_BITS,
            r.default_easing == Easing::SineInOut,
            r.base_z_index == 0,
    {
        KenBurnsParams {
            duration,
            resolution,
            default_hold_duration: Seconds::from_bits(TEN_SECONDS_BITS),
            default_fade_duration: Seconds::from_bits(TWO_SECONDS_BITS),
            default_zoom_start: Scalar::from_bits(ONE_BITS),
            default_zoom_end: Scalar::from_bits(ZOOM_END_BITS),
            default_pan_fraction: Scalar::from_bits(PAN_FRACTION_BITS),
            default_easing: Easing::SineInOut,
            base_z_index: 0,
        }
    }
}

impl KenBurnsParams {
    /// Whether segments needing `total` seconds run past the effect's
    /// duration (`total` greater than the duration); the last clips then
    /// do not fade completely.
    pub fn is_overrun(&self, total: Seconds) -> (r: bool)
        ensures
            r == self.duration.below(total),
    {
        self.duration.lt(&total)
    }

    /// The warning for segments that need `total` seconds: `None` when they
    /// fit in the effect's duration; otherwise the message of
    /// [`overrun_message`] with `total` and the duration as `text` writes
    /// them (one decimal place).
    pub fn overrun_warning<T: Fn(Seconds) -> String>(&self, total: Seconds, text: &T) -> (r: Option<String>)
        requires
            forall|t: Seconds| text.requires((t,)),
        ensures
            is_overrun_warning(r, total, self.duration, *text),
    {
        if self.is_overrun(total) {
            let required = text(total);
            let available = text(self.duration);
            let w = overrun_text(required.as_str(), available.as_str());
            Some(w)
        } else {
            None
        }
    }
}

/// The warning given when segments need `required` seconds and the effect
/// lasts `available` seconds, both written as text.
pub open spec fn overrun_message(required: Seq<char>, available: Seq<char>) -> Seq<char> {
    "Ken Burns segments require "@ + required + "s but effect duration is "@ + available
        + "s. Some clips may not fade completely."@
}

/// `w` is the warning for segments needing `total` seconds in an effect of
/// `duration` seconds, times written by `text`: a warning exactly when the
/// total exceeds the duration, with the message of [`overrun_message`].
pub open spec fn is_overrun_warning<T: Fn(Seconds) -> String>(
    w: Option<String>,
    total: Seconds,
    duration: Seconds,
    text: T,
) -> bool {
    &&& (w is Some <==> duration.below(total))
    &&& (w matches Some(m) ==> exists|a: String, b: String|
        #![trigger text.ensures((total,), a), text.ensures((duration,), b)]
        text.ensures((total,), a) && text.ensures((duration,), b) && m@ == overrun_message(a@, b@))
}

/// Builds the message of [`overrun_message`].
pub fn overrun_text(required: &str, available: &str) -> (r: String)
    ensures
        r@ == overrun_message(required@, available@),
{
    let mut r = String::from_str("Ken Burns segments require ");
    r.append(required);
    r.append("s but effect duration is ");
    r.append(available);
    r.append("s. Some clips may not fade completely.");
    r
}

/// A segment with every setting resolved.
#[derive(Debug)]
pub struct KenBurnsSegment {
    pub image_path: String,
    pub direction: KenBurnsDirection,
    pub hold_duration: Seconds,
    pub fade_duration: Seconds,
    pub zoom_start: Scalar,
    pub zoom_end: Scalar,
    pub pan_fraction: Scalar,
    pub easing: Easing,
}

/// The value of an optional setting, or its default.
pub open spec fn or_default<T>(v: Option<T>, d: T) -> T {
    match v {
        Some(x) => x,
        None => d,
    }
}

/// `s` with its unset settings taken from `p`.
pub open spec fn resolved_segment(s: KenBurnsSegmentParams, p: KenBurnsParams) -> KenBurnsSegment {
    KenBurnsSegment {
        image_path: s.image_path,
        direction: s.direction,
        hold_duration: or_default(s.hold_duration, p.default_hold_duration),
        fade_duration: or_default(s.fade_duration, p.default_fade_duration),
        zoom_start: or_default(s.zoom_start, p.default_zoom_start),
        zoom_end: or_default(s.zoom_end, p.default_zoom_end),
        pan_fraction: or_default(s.pan_fraction, p.default_pan_fraction),
        easing: or_default(s.easing, p.default_easing),
    }
}

/// `t` are the fade times of a stack of segments with hold durations `h`
/// and fade durations `f`, summed with the binary64 addition `sum`:
/// segment `i` starts fading `h[i]` after the segment above it finished
/// (after 0 for the top one) and finishes `f[i]` later.
pub open spec fn are_segment_timings<A: Fn(Seconds, Seconds) -> Seconds>(
    t: Seq<SegmentTiming>,
    h: Seq<Seconds>,
    f: Seq<Seconds>,
    sum: A,
) -> bool {
    &&& t.len() == h.len()
    &&& forall|i: int|
        #![trigger t[i]]
        0 <= i < t.len() ==> sum.ensures((window_start(t, i), h[i]), t[i].fade_start)
            && sum.ensures((t[i].fade_start, f[i]), t[i].fade_end)
}

/// Each segment's fade starts no earlier than its visibility window and
/// ends no earlier than it starts, when `sum` never goes below its first
/// argument for a non-negative second one and the durations are
/// non-negative.
proof fn lemma_timings_ordered<A: Fn(Seconds, Seconds) -> Seconds>(
    t: Seq<SegmentTiming>,
    h: Seq<Seconds>,
    f: Seq<Seconds>,
    sum: A,
    k: int,
)
    requires
        are_segment_timings(t, h, f, sum),
        f.len() == h.len(),
        forall|a: Seconds, b: Seconds, r: Seconds|
            #[trigger] sum.ensures((a, b), r) && !a.nan() && (Seconds { bits: 0 }).at_most(b) ==> a.at_most(r),
        forall|i: int| 0 <= i < h.len() ==> (Seconds { bits: 0 }).at_most(#[trigger] h[i]),
        forall|i: int| 0 <= i < f.len() ==> (Seconds { bits: 0 }).at_most(#[trigger] f[i]),
        0 <= k < t.len(),
    ensures
        window_start(t, k).at_most(t[k].fade_start),
        t[k].fade_start.at_most(t[k].fade_end),
    decreases k,
{
    if k > 0 {
        lemma_timings_ordered(t, h, f, sum, k - 1);
    }
    assert(sum.ensures((window_start(t, k), h[k]), t[k].fade_start));
    assert(sum.ensures((t[k].fade_start, f[k]), t[k].fade_end));
}

/// The stack pops one segment at a time: when `sum` never goes below its
/// first argument for a non-negative second one and the durations are
/// non-negative, a segment's fade ends no later than any later segment's
/// fade starts (no overlap), and each segment's visibility window starts
/// exactly where the fade of the segment above ended (no gap).
pub proof fn law_fades_in_stack_order<A: Fn(Seconds, Seconds) -> Seconds>(
    t: Seq<SegmentTiming>,
    h: Seq<Seconds>,
    f: Seq<Seconds>,
    sum: A,
    i: int,
    j: int,
)
    requires
        are_segment_timings(t, h, f, sum),
        f.len() == h.len(),
        forall|a: Seconds, b: Seconds, r: Seconds|
            #[trigger] sum.ensures((a, b), r) && !a.nan() && (Seconds { bits: 0 }).at_most(b) ==> a.at_most(r),
        forall|k: int| 0 <= k < h.len() ==> (Seconds { bits: 0 }).at_most(#[trigger] h[k]),
        forall|k: int| 0 <= k < f.len() ==> (Seconds { bits: 0 }).at_most(#[trigger] f[k]),
        0 <= i < j < t.len(),
    ensures
        t[i].fade_end.at_most(t[j].fade_start),
        window_start(t, i + 1) == t[i].fade_end,
    decreases j - i,
{
    lemma_timings_ordered(t, h, f, sum, j);
    if j > i + 1 {
        law_fades_in_stack_order(t, h, f, sum, i, j - 1);
        lemma_timings_ordered(t, h, f, sum, j - 1);
    }
}

/// The fade times of each segment of the stack (see
/// [`are_segment_timings`]); `sum` is the binary64 addition.
pub fn compute_segment_timings<A: Fn(Seconds, Seconds) -> Seconds>(
    hold_durations: &Vec<Seconds>,
    fade_durations: &Vec<Seconds>,
    sum: &A,
) -> (r: Vec<SegmentTiming>)
    requires
        hold_durations@.len() == fade_durations@.len(),
        forall|a: Seconds, b: Seconds| sum.requires((a, b)),
    ensures
        are_segment_timings(r@, hold_durations@, fade_durations@, *sum),
{
    let n: usize = hold_durations.len();
    let mut timings: Vec<SegmentTiming> = Vec::new();
    let mut accumulated = Seconds::zero();
    let mut i: usize = 0;
    while i < n
        invariant
            n == hold_durations@.len(),
            n == fade_durations@.len(),
            i <= n,
            forall|a: Seconds, b: Seconds| sum.requires((a, b)),
            timings@.len() == i,
            accumulated == window_start(timings@, i as int),
            forall|j: int|
                #![trigger timings@[j]]
                0 <= j < i ==> sum.ensures((window_start(timings@, j), hold_durations@[j]), timings@[j].fade_start)
                    && sum.ensures((timings@[j].fade_start, fade_durations@[j]), timings@[j].fade_end),
        decreases n - i,
    {
        let fade_start = sum(accumulated, hold_durations[i]);
        let fade_end = sum(fade_start, fade_durations[i]);
        let ghost prev = timings@;
        timings.push(SegmentTiming { fade_start, fade_end });
        proof {
            assert forall|j: int| #![trigger timings@[j]] 0 <= j < i + 1 implies
                sum.ensures((window_start(timings@, j), hold_durations@[j]), timings@[j].fade_start)
                    && sum.ensures((timings@[j].fade_start, fade_durations@[j]), timings@[j].fade_end)
            by {
                if j < i {
                    assert(timings@[j] == prev[j]);
                    if j > 0 {
                        assert(timings@[j - 1] == prev[j - 1]);
                    }
                } else if j > 0 {
                    assert(timings@[j - 1] == prev[j - 1]);
                }
            }
        }
        accumulated = fade_end;
        i = i + 1;
    }
    timings
}

/// Negative zero, the neutral element of binary64 addition, from which a
/// sum of durations starts.
pub open spec fn neg_zero() -> Seconds {
    Seconds { bits: 0x8000_0000_0000_0000 }
}

/// `p` are the running sums of `s` under the binary64 addition `sum`:
/// `p[0]` is negative zero and `p[i + 1]` is `sum` of `p[i]` and `s[i]`.
pub open spec fn are_running_sums<A: Fn(Seconds, Seconds) -> Seconds>(p: Seq<Seconds>, s: Seq<Seconds>, sum: A) -> bool {
    &&& p.len() == s.len() + 1
    &&& p[0] == neg_zero()
    &&& forall|i: int| #![trigger s[i]] 0 <= i < s.len() ==> sum.ensures((p[i], s[i]), p[i + 1])
}

/// `total` is the time a stack of segments needs: the sum of all hold
/// durations `h` plus the sum of all fade durations `f`, each summed in
/// order from negative zero with `sum`.
pub open spec fn is_segment_total<A: Fn(Seconds, Seconds) -> Seconds>(
    total: Seconds,
    h: Seq<Seconds>,
    f: Seq<Seconds>,
    sum: A,
) -> bool {
    exists|ph: Seq<Seconds>, pf: Seq<Seconds>|
        #![trigger are_running_sums(ph, h, sum), are_running_sums(pf, f, sum)]
        are_running_sums(ph, h, sum) && are_running_sums(pf, f, sum) && sum.ensures((ph.last(), pf.last()), total)
}

/// The running total of `s` under `sum`, with the running sums as a ghost.
fn running_total<A: Fn(Seconds, Seconds) -> Seconds>(s: &Vec<Seconds>, sum: &A) -> (r: (Seconds, Ghost<Seq<Seconds>>))
    requires
        forall|a: Seconds, b: Seconds| sum.requires((a, b)),
    ensures
        are_running_sums(r.1@, s@, *sum),
        r.0 == r.1@.last(),
{
    let mut acc = Seconds::from_bits(0x8000_0000_0000_0000);
    let ghost mut p: Seq<Seconds> = seq![acc];
    let n: usize = s.len();
    let mut i: usize = 0;
    while i < n
        invariant
            n == s@.len(),
            i <= n,
            forall|a: Seconds, b: Seconds| sum.requires((a, b)),
            p.len() == i + 1,
            p[0] == neg_zero(),
            acc == p[i as int],
            forall|j: int| #![trigger s@[j]] 0 <= j < i ==> sum.ensures((p[j], s@[j]), p[j + 1]),
        decreases n - i,
    {
        let next = sum(acc, s[i]);
        proof {
            let q = p.push(next);
            assert forall|j: int| #![trigger s@[j]] 0 <= j < i + 1 implies sum.ensures((q[j], s@[j]), q[j + 1]) by {
                if j < i {
                    assert(q[j] == p[j]);
                    assert(q[j + 1] == p[j + 1]);
                }
            }
            p = q;
        }
        acc = next;
        i = i + 1;
    }
    (acc, Ghost(p))
}

/// The time a stack of segments needs (see [`is_segment_total`]); `sum` is
/// the binary64 addition.
pub fn total_segment_time<A: Fn(Seconds, Seconds) -> Seconds>(
    hold_durations: &Vec<Seconds>,
    fade_durations: &Vec<Seconds>,
    sum: &A,
) -> (r: Seconds)
    requires
        hold_durations@.len() == fade_durations@.len(),
        forall|a: Seconds, b: Seconds| sum.requires((a, b)),
    ensures
        is_segment_total(r, hold_durations@, fade_durations@, *sum),
{
    let (holds, Ghost(ph)) = running_total(hold_durations, sum);
    let (fades, Ghost(pf)) = running_total(fade_durations, sum);
    let total = sum(holds, fades);
    proof {
        assert(are_running_sums(ph, hold_durations@, *sum) && are_running_sums(pf, fade_durations@, *sum));
    }
    total
}

/// The pan distances and focal offsets of segment `s` at resolution `res`:
/// each pan distance is `pan` of the pan fraction and the axis length; for
/// a focal point each offset is `offset` of the fractional coordinate, the
/// axis length and the zoom at that end (other directions do not read the
/// offsets).
pub open spec fn motion_inputs<P: Fn(Scalar, u32) -> Scalar, O: Fn(Scalar, u32, Scalar) -> Scalar>(
    pa: PanAmounts,
    fo: FocalOffsets,
    s: KenBurnsSegment,
    res: [u32; 2],
    pan: P,
    offset: O,
) -> bool {
    &&& pan.ensures((s.pan_fraction, res[0]), pa.x)
    &&& pan.ensures((s.pan_fraction, res[1]), pa.y)
    &&& match s.direction {
        KenBurnsDirection::FocalPoint { start, end } => {
            &&& offset.ensures((start[0], res[0], s.zoom_start), fo.x_start)
            &&& offset.ensures((end[0], res[0], s.zoom_end), fo.x_end)
            &&& offset.ensures((start[1], res[1], s.zoom_start), fo.y_start)
            &&& offset.ensures((end[1], res[1], s.zoom_end), fo.y_end)
        },
        _ => true,
    }
}

/// The hold durations of `segs`.
pub open spec fn holds_of(segs: Seq<KenBurnsSegment>) -> Seq<Seconds> {
    Seq::new(segs.len(), |i: int| segs[i].hold_duration)
}

/// The fade durations of `segs`.
pub open spec fn fades_of(segs: Seq<KenBurnsSegment>) -> Seq<Seconds> {
    Seq::new(segs.len(), |i: int| segs[i].fade_duration)
}

/// The segments of `segs` with their settings resolved against `p`.
pub open spec fn resolved_segments(segs: Seq<KenBurnsSegmentParams>, p: KenBurnsParams) -> Seq<KenBurnsSegment> {
    Seq::new(segs.len(), |i: int| resolved_segment(segs[i], p))
}

/// Every `inputs[i]` holds the pan distances and focal offsets of `segs[i]`.
pub open spec fn are_motion_inputs<P: Fn(Scalar, u32) -> Scalar, O: Fn(Scalar, u32, Scalar) -> Scalar>(
    inputs: Seq<(PanAmounts, FocalOffsets)>,
    segs: Seq<KenBurnsSegment>,
    res: [u32; 2],
    pan: P,
    offset: O,
) -> bool {
    &&& inputs.len() == segs.len()
    &&& forall|i: int|
        #![trigger inputs[i]]
        0 <= i < segs.len() ==> motion_inputs(inputs[i].0, inputs[i].1, segs[i], res, pan, offset)
}

/// `clips` are the clips of a Ken Burns effect with settings `p` and
/// segments `segs`: for some fade times and pan/focal inputs computed with
/// `sum`, `pan` and `offset`, clip `i` is the clip of resolved segment `i`
/// with the keyframe values its direction maps to.
pub open spec fn are_effect_clips<
    A: Fn(Seconds, Seconds) -> Seconds,
    P: Fn(Scalar, u32) -> Scalar,
    O: Fn(Scalar, u32, Scalar) -> Scalar,
>(
    clips: Seq<ClipBuilder>,
    p: KenBurnsParams,
    segs: Seq<KenBurnsSegmentParams>,
    sum: A,
    pan: P,
    offset: O,
) -> bool {
    let resolved = resolved_segments(segs, p);
    &&& clips.len() == segs.len()
    &&& exists|timings: Seq<SegmentTiming>, inputs: Seq<(PanAmounts, FocalOffsets)>|
        #![trigger are_segment_timings(timings, holds_of(resolved), fades_of(resolved), sum), are_motion_inputs(inputs, resolved, p.resolution, pan, offset)]
        are_segment_timings(timings, holds_of(resolved), fades_of(resolved), sum)
            && are_motion_inputs(inputs, resolved, p.resolution, pan, offset)
            && forall|i: int|
                #![trigger clips[i]]
                0 <= i < segs.len() ==> is_segment_clip(
                    clips[i],
                    i,
                    segs.len() as int,
                    p,
                    resolved[i],
                    timings,
                    direction_keyframes(resolved[i].direction, inputs[i].0, inputs[i].1, resolved[i].zoom_start, resolved[i].zoom_end),
                )
}

/// Accumulates segments, then assembles the clips of the effect.
#[derive(Debug)]
pub struct KenBurnsBuilder {
    params: KenBurnsParams,
    segments: Vec<KenBurnsSegmentParams>,
}

impl KenBurnsBuilder {
    /// The effect settings.
    pub closed spec fn settings(&self) -> KenBurnsParams {
        self.params
    }

    /// The segments, first (top of the stack) first.
    pub closed spec fn segment_list(&self) -> Seq<KenBurnsSegmentParams> {
        self.segments@
    }

    /// A builder with effect settings and no segments.
    pub fn new(params: KenBurnsParams) -> (r: KenBurnsBuilder)
        ensures
            r.settings() == params,
            r.segment_list() == Seq::<KenBurnsSegmentParams>::empty(),
    {
        KenBurnsBuilder { params, segments: Vec::new() }
    }

    /// Adds a segment below those already added (the first added is the
    /// top of the stack and fades first).
    pub fn add_segment(self, segment: KenBurnsSegmentParams) -> (r: KenBurnsBuilder)
        ensures
            r.settings() == self.settings(),
            r.segment_list() == self.segment_list().push(segment),
    {
        let mut r = self;
        r.segments.push(segment);
        r
    }

    /// The time the segments need, each with its settings resolved (see
    /// [`is_segment_total`]); `sum` is the binary64 addition.
    pub fn segment_time<A: Fn(Seconds, Seconds) -> Seconds>(&self, sum: &A) -> (r: Seconds)
        requires
            forall|a: Seconds, b: Seconds| sum.requires((a, b)),
        ensures
            is_segment_total(
                r,
                holds_of(resolved_segments(self.segment_list(), self.settings())),
                fades_of(resolved_segments(self.segment_list(), self.settings())),
                *sum,
            ),
    {
        let ghost rs = resolved_segments(self.segment_list(), self.settings());
        let mut holds: Vec<Seconds> = Vec::new();
        let mut fades: Vec<Seconds> = Vec::new();
        let n: usize = self.segments.len();
        let mut i: usize = 0;
        while i < n
            invariant
                n == self.segments@.len(),
                rs == resolved_segments(self.segments@, self.params),
                i <= n,
                holds@.len() == i,
                fades@.len() == i,
                forall|j: int| #![trigger holds@[j]] 0 <= j < i ==> holds@[j] == rs[j].hold_duration,
                forall|j: int| #![trigger fades@[j]] 0 <= j < i ==> fades@[j] == rs[j].fade_duration,
            decreases n - i,
        {
            let seg = &self.segments[i];
            let h = match seg.hold_duration {
                Some(v) => v,
                None => self.params.default_hold_duration,
            };
            let f = match seg.fade_duration {
                Some(v) => v,
                None => self.params.default_fade_duration,
            };
            let ghost ph = holds@;
            let ghost pf = fades@;
            holds.push(h);
            fades.push(f);
            proof {
                assert forall|j: int| #![trigger holds@[j]] 0 <= j < i + 1 implies holds@[j] == rs[j].hold_duration by {
                    if j < i {
                        assert(holds@[j] == ph[j]);
                    }
                }
                assert forall|j: int| #![trigger fades@[j]] 0 <= j < i + 1 implies fades@[j] == rs[j].fade_duration by {
                    if j < i {
                        assert(fades@[j] == pf[j]);
                    }
                }
            }
            i = i + 1;
        }
        assert(holds@ =~= holds_of(rs));
        assert(fades@ =~= fades_of(rs));
        total_segment_time(&holds, &fades, sum)
    }

    /// The effect settings and every segment with its settings resolved.
    pub fn resolve(self) -> (r: (KenBurnsParams, Vec<KenBurnsSegment>))
        ensures
            r.0 == self.settings(),
            r.1@.len() == self.segment_list().len(),
            forall|i: int| #![trigger r.1@[i]] 0 <= i < r.1@.len() ==> r.1@[i] == resolved_segment(self.segment_list()[i], r.0),
            forall|i: int|
                #![trigger r.1@[i]]
                0 <= i < r.1@.len() ==> {
                    let s = self.segment_list()[i];
                    let q = r.1@[i];
                    &&& q.image_path == s.image_path
                    &&& q.direction == s.direction
                    &&& q.hold_duration == (match s.hold_duration {
                        Some(v) => v,
                        None => r.0.default_hold_duration,
                    })
                    &&& q.fade_duration == (match s.fade_duration {
                        Some(v) => v,
                        None => r.0.default_fade_duration,
                    })
                    &&& q.zoom_start == (match s.zoom_start {
                        Some(v) => v,
                        None => r.0.default_zoom_start,
                    })
                    &&& q.zoom_end == (match s.zoom_end {
                        Some(v) => v,
                        None => r.0.default_zoom_end,
                    })
                    &&& q.pan_fraction == (match s.pan_fraction {
                        Some(v) => v,
                        None => r.0.default_pan_fraction,
                    })
                    &&& q.easing == (match s.easing {
                        Some(v) => v,
                        None => r.0.default_easing,
                    })
                },
    {
        let KenBurnsBuilder { params, segments } = self;
        let ghost orig = segments@;
        let mut segments = segments;
        let mut out: Vec<KenBurnsSegment> = Vec::new();
        let n: usize = segments.len();
        let mut i: usize = 0;
        while i < n
            invariant
                n == orig.len(),
                i <= n,
                segments@ == orig.skip(i as int),
                out@.len() == i,
                forall|j: int| #![trigger out@[j]] 0 <= j < i ==> out@[j] == resolved_segment(orig[j], params),
            decreases n - i,
        {
            let s = segments.remove(0);
            proof {
                assert(s == orig[i as int]);
                assert(segments@ =~= orig.skip(i + 1));
            }
            let r = KenBurnsSegment {
                image_path: s.image_path,
                direction: s.direction,
                hold_duration: match s.hold_duration { Some(v) => v, None => params.default_hold_duration },
                fade_duration: match s.fade_duration { Some(v) => v, None => params.default_fade_duration },
                zoom_start: match s.zoom_start { Some(v) => v, None => params.default_zoom_start },
                zoom_end: match s.zoom_end { Some(v) => v, None => params.default_zoom_end },
                pan_fraction: match s.pan_fraction { Some(v) => v, None => params.default_pan_fraction },
                easing: match s.easing { Some(v) => v, None => params.default_easing },
            };
            let ghost prev = out@;
            out.push(r);
            proof {
                assert forall|j: int| #![trigger out@[j]] 0 <= j < i + 1 implies out@[j] == resolved_segment(orig[j], params) by {
                    if j < i {
                        assert(out@[j] == prev[j]);
                    }
                }
            }
            i = i + 1;
        }
        (params, out)
    }

    /// Builds the clips of the effect (see [`are_effect_clips`]): one per
    /// segment, first segment on top. `sum` is the binary64 addition of
    /// the fade times, `pan` the pan distance of a fraction and an axis
    /// length, `offset` the focal translation `(0.5 - fraction) × length ×
    /// zoom`.
    pub fn build<A, P, O>(self, sum: &A, pan: &P, offset: &O) -> (r: Vec<ClipBuilder>)
        where
            A: Fn(Seconds, Seconds) -> Seconds,
            P: Fn(Scalar, u32) -> Scalar,
            O: Fn(Scalar, u32, Scalar) -> Scalar,
        requires
            forall|a: Seconds, b: Seconds| sum.requires((a, b)),
            forall|f: Scalar, n: u32| pan.requires((f, n)),
            forall|f: Scalar, n: u32, z: Scalar| offset.requires((f, n, z)),
            self.segment_list().len() <= i32::MAX,
            self.settings().base_z_index + self.segment_list().len() - 1 <= i32::MAX,
        ensures
            are_effect_clips(r@, self.settings(), self.segment_list(), *sum, *pan, *offset),
    {
        let ghost segs = self.segment_list();
        let (params, resolved) = self.resolve();
        let ghost rs = resolved_segments(segs, params);
        assert(resolved@ =~= rs);
        let n: usize = resolved.len();
        let mut holds: Vec<Seconds> = Vec::new();
        let mut fades: Vec<Seconds> = Vec::new();
        let mut motions: Vec<DirectionKeyframes> = Vec::new();
        let ghost mut inputs: Seq<(PanAmounts, FocalOffsets)> = Seq::empty();
        let mut i: usize = 0;
        while i < n
            invariant
                n == resolved@.len(),
                resolved@ == rs,
                i <= n,
                forall|f: Scalar, n: u32| pan.requires((f, n)),
                forall|f: Scalar, n: u32, z: Scalar| offset.requires((f, n, z)),
                holds@.len() == i,
                fades@.len() == i,
                motions@.len() == i,
                inputs.len() == i,
                forall|j: int| #![trigger holds@[j]] 0 <= j < i ==> holds@[j] == rs[j].hold_duration,
                forall|j: int| #![trigger fades@[j]] 0 <= j < i ==> fades@[j] == rs[j].fade_duration,
                forall|j: int|
                    #![trigger motions@[j]]
                    0 <= j < i ==> motion_inputs(inputs[j].0, inputs[j].1, rs[j], params.resolution, *pan, *offset)
                        && motions@[j] == direction_keyframes(rs[j].direction, inputs[j].0, inputs[j].1, rs[j].zoom_start, rs[j].zoom_end),
            decreases n - i,
        {
            let seg = &resolved[i];
            let pa = PanAmounts {
                x: pan(seg.pan_fraction, params.resolution[0]),
                y: pan(seg.pan_fraction, params.resolution[1]),
            };
            let zero = Scalar::from_bits(0);
            let fo = match seg.direction {
                KenBurnsDirection::FocalPoint { start, end } => FocalOffsets {
                    x_start: offset(start[0], params.resolution[0], seg.zoom_start),
                    x_end: offset(end[0], params.resolution[0], seg.zoom_end),
                    y_start: offset(start[1], params.resolution[1], seg.zoom_start),
                    y_end: offset(end[1], params.resolution[1], seg.zoom_end),
                },
                _ => FocalOffsets { x_start: zero, x_end: zero, y_start: zero, y_end: zero },
            };
            let k = direction_to_keyframes(&seg.direction, pa, fo, seg.zoom_start, seg.zoom_end);
            let ghost ph = holds@;
            let ghost pf = fades@;
            let ghost pm = motions@;
            let ghost pi = inputs;
            holds.push(seg.hold_duration);
            fades.push(seg.fade_duration);
            motions.push(k);
            proof {
                inputs = inputs.push((pa, fo));
                assert forall|j: int| #![trigger holds@[j]] 0 <= j < i + 1 implies holds@[j] == rs[j].hold_duration by {
                    if j < i {
                        assert(holds@[j] == ph[j]);
                    }
                }
                assert forall|j: int| #![trigger fades@[j]] 0 <= j < i + 1 implies fades@[j] == rs[j].fade_duration by {
                    if j < i {
                        assert(fades@[j] == pf[j]);
                    }
                }
                assert forall|j: int| #![trigger motions@[j]] 0 <= j < i + 1 implies
                    motion_inputs(inputs[j].0, inputs[j].1, rs[j], params.resolution, *pan, *offset)
                        && motions@[j] == direction_keyframes(rs[j].direction, inputs[j].0, inputs[j].1, rs[j].zoom_start, rs[j].zoom_end)
                by {
                    if j < i {
                        assert(motions@[j] == pm[j]);
                        assert(inputs[j] == pi[j]);
                    }
                }
            }
            i = i + 1;
        }
        assert(holds@ =~= holds_of(rs));
        assert(fades@ =~= fades_of(rs));
        let timings = compute_segment_timings(&holds, &fades, sum);
        let clips = assemble_clips(&params, resolved, &timings, &motions);
        proof {
            assert forall|i: int| #![trigger inputs[i]] 0 <= i < rs.len() implies
                motion_inputs(inputs[i].0, inputs[i].1, rs[i], params.resolution, *pan, *offset)
            by {
                assert(i < n);
                assert(motions@[i] == direction_keyframes(rs[i].direction, inputs[i].0, inputs[i].1, rs[i].zoom_start, rs[i].zoom_end));
            }
            assert(are_motion_inputs(inputs, rs, params.resolution, *pan, *offset));
            assert(are_segment_timings(timings@, holds_of(rs), fades_of(rs), *sum));
            assert forall|i: int| #![trigger clips@[i]] 0 <= i < segs.len() implies is_segment_clip(
                clips@[i],
                i,
                segs.len() as int,
                params,
                rs[i],
                timings@,
                direction_keyframes(rs[i].direction, inputs[i].0, inputs[i].1, rs[i].zoom_start, rs[i].zoom_end),
            ) by {
                assert(motions@[i] == direction_keyframes(rs[i].direction, inputs[i].0, inputs[i].1, rs[i].zoom_start, rs[i].zoom_end));
            }
        }
        clips
    }

    /// Builds the clips of the effect as [`KenBurnsBuilder::build`] does,
    /// with the warning to give when the segments need more time than the
    /// effect lasts (see [`is_overrun_warning`]; `text` writes a time with
    /// one decimal place). The clips are built either way.
    pub fn build_with_warning<A, P, O, T>(self, sum: &A, pan: &P, offset: &O, text: &T) -> (r: (
        Vec<ClipBuilder>,
        Option<String>,
    ))
        where
            A: Fn(Seconds, Seconds) -> Seconds,
            P: Fn(Scalar, u32) -> Scalar,
            O: Fn(Scalar, u32, Scalar) -> Scalar,
            T: Fn(Seconds) -> String,
        requires
            forall|a: Seconds, b: Seconds| sum.requires((a, b)),
            forall|f: Scalar, n: u32| pan.requires((f, n)),
            forall|f: Scalar, n: u32, z: Scalar| offset.requires((f, n, z)),
            forall|t: Seconds| text.requires((t,)),
            self.segment_list().len() <= i32::MAX,
            self.settings().base_z_index + self.segment_list().len() - 1 <= i32::MAX,
        ensures
            are_effect_clips(r.0@, self.settings(), self.segment_list(), *sum, *pan, *offset),
            exists|total: Seconds|
                #![trigger is_segment_total(
                    total,
                    holds_of(resolved_segments(self.segment_list(), self.settings())),
                    fades_of(resolved_segments(self.segment_list(), self.settings())),
                    *sum,
                )]
                is_segment_total(
                    total,
                    holds_of(resolved_segments(self.segment_list(), self.settings())),
                    fades_of(resolved_segments(self.segment_list(), self.settings())),
                    *sum,
                ) && is_overrun_warning(r.1, total, self.settings().duration, *text),
    {
        let total = self.segment_time(sum);
        let warning = self.params.overrun_warning(total, text);
        let clips = self.build(sum, pan, offset);
        (clips, warning)
    }
}

/// Full opacity, the binary32 value 1.0.
pub open spec fn opaque() -> Scalar {
    Scalar { bits: ONE_BITS }
}

/// A two-keyframe track from `(t0, v0)` to `(t1, v1)` with easing `e`.
pub open spec fn two_keyframes(p: AnimatableProperty, t0: Seconds, v0: Scalar, t1: Seconds, v1: Scalar, e: Easing) -> TrackView {
    TrackView {
        property: p,
        keyframes: seq![Keyframe { time: t0, value: v0, easing: e }, Keyframe { time: t1, value: v1, easing: e }],
    }
}

/// The animations of a segment's clip: scale x and y from `seg_start` to
/// `seg_end` (the window where the clip is the top visible layer), the
/// translations the direction has over the same window, and the opacity
/// fade from 1 at `fade_start` to 0 at `fade_end`.
pub open spec fn segment_tracks(
    seg_start: Seconds,
    timing: SegmentTiming,
    k: DirectionKeyframes,
    e: Easing,
) -> Seq<TrackView> {
    let seg_end = timing.fade_end;
    let scales = seq![
        two_keyframes(AnimatableProperty::ScaleX, seg_start, k.scale_start, seg_end, k.scale_end, e),
        two_keyframes(AnimatableProperty::ScaleY, seg_start, k.scale_start, seg_end, k.scale_end, e),
    ];
    let tx = match k.translate_x {
        Some((a, b)) => seq![two_keyframes(AnimatableProperty::TranslateX, seg_start, a, seg_end, b, e)],
        None => Seq::empty(),
    };
    let ty = match k.translate_y {
        Some((a, b)) => seq![two_keyframes(AnimatableProperty::TranslateY, seg_start, a, seg_end, b, e)],
        None => Seq::empty(),
    };
    scales + tx + ty + seq![
        two_keyframes(AnimatableProperty::Opacity, timing.fade_start, opaque(), timing.fade_end, zero32(), e),
    ]
}

/// The start of segment `i`'s visibility window: 0 for the top segment,
/// else the end of the fade of the segment above.
pub open spec fn window_start(timings: Seq<SegmentTiming>, i: int) -> Seconds {
    if i > 0 {
        timings[i - 1].fade_end
    } else {
        Seconds { bits: 0 }
    }
}

/// `c` is the clip of segment `i` of `n`.
pub open spec fn is_segment_clip(
    c: ClipBuilder,
    i: int,
    n: int,
    p: KenBurnsParams,
    s: KenBurnsSegment,
    timings: Seq<SegmentTiming>,
    k: DirectionKeyframes,
) -> bool {
    &&& c.params().id@ == "ken_burns_"@ + decimal(i as nat)
    &&& c.params().path@ == s.image_path@
    &&& c.params().track == 0
    &&& c.params().start_time == Seconds { bits: 0 }
    &&& c.params().end_time == p.duration
    &&& c.params().z_index == p.base_z_index + (n - 1 - i)
    &&& c.params().sizing == (Sizing::FitRect {
        x: 0,
        y: 0,
        w: p.resolution[0],
        h: p.resolution[1],
        mode: FitMode::Cover,
        anchor: FitAnchor::Center,
    })
    &&& c.params().pivot[0].bits == HALF_BITS
    &&& c.params().pivot[1].bits == HALF_BITS
    &&& c.animations() == segment_tracks(window_start(timings, i), timings[i], k, s.easing)
}

/// The clips of the stack are ordered by z-index with the earlier segment
/// above the later one, and every clip spans the whole effect.
pub proof fn law_stack_order(
    ci: ClipBuilder,
    cj: ClipBuilder,
    i: int,
    j: int,
    n: int,
    p: KenBurnsParams,
    si: KenBurnsSegment,
    sj: KenBurnsSegment,
    timings: Seq<SegmentTiming>,
    ki: DirectionKeyframes,
    kj: DirectionKeyframes,
)
    requires
        0 <= i < j < n,
        is_segment_clip(ci, i, n, p, si, timings, ki),
        is_segment_clip(cj, j, n, p, sj, timings, kj),
    ensures
        ci.params().z_index > cj.params().z_index,
        ci.params().start_time == cj.params().start_time,
        ci.params().end_time == cj.params().end_time,
        ci.params().end_time == p.duration,
{
}

/// A direction pans horizontally exactly for the left, right and
/// focal-point moves and vertically exactly for the up, down and
/// focal-point moves; zoom-in and focal-point moves scale from `zoom_start`
/// to `zoom_end`, zoom-out moves the other way.
pub proof fn law_direction_translates(
    d: KenBurnsDirection,
    pan: PanAmounts,
    focal: FocalOffsets,
    zoom_start: Scalar,
    zoom_end: Scalar,
)
    ensures
        direction_keyframes(d, pan, focal, zoom_start, zoom_end).translate_x is Some <==> (d is ZoomInLeft
            || d is ZoomInRight || d is ZoomOutLeft || d is ZoomOutRight || d is FocalPoint),
        direction_keyframes(d, pan, focal, zoom_start, zoom_end).translate_y is Some <==> (d is ZoomInUp
            || d is ZoomInDown || d is ZoomOutUp || d is ZoomOutDown || d is FocalPoint),
        (d is ZoomOutCenter || d is ZoomOutLeft || d is ZoomOutRight || d is ZoomOutUp || d is ZoomOutDown)
            ==> direction_keyframes(d, pan, focal, zoom_start, zoom_end).scale_start == zoom_end
            && direction_keyframes(d, pan, focal, zoom_start, zoom_end).scale_end == zoom_start,
        !(d is ZoomOutCenter || d is ZoomOutLeft || d is ZoomOutRight || d is ZoomOutUp || d is ZoomOutDown)
            ==> direction_keyframes(d, pan, focal, zoom_start, zoom_end).scale_start == zoom_start
            && direction_keyframes(d, pan, focal, zoom_start, zoom_end).scale_end == zoom_end,
{
}

/// The animations of a segment's clip: scale x, then scale y, then a
/// translation on x if the direction has one, then on y if it has one, and
/// the opacity fade last; every one has exactly two keyframes, both with
/// the segment's easing.
pub proof fn law_segment_track_shape(seg_start: Seconds, timing: SegmentTiming, k: DirectionKeyframes, e: Easing)
    ensures
        segment_tracks(seg_start, timing, k, e).len() == 3 + (if k.translate_x is Some {
            1int
        } else {
            0int
        }) + (if k.translate_y is Some {
            1int
        } else {
            0int
        }),
        segment_tracks(seg_start, timing, k, e)[0].property == AnimatableProperty::ScaleX,
        segment_tracks(seg_start, timing, k, e)[1].property == AnimatableProperty::ScaleY,
        k.translate_x is Some ==> segment_tracks(seg_start, timing, k, e)[2].property
            == AnimatableProperty::TranslateX,
        k.translate_y is Some ==> segment_tracks(seg_start, timing, k, e)[segment_tracks(
            seg_start,
            timing,
            k,
            e,
        ).len() - 2].property == AnimatableProperty::TranslateY,
        segment_tracks(seg_start, timing, k, e)[segment_tracks(seg_start, timing, k, e).len() - 1].property
            == AnimatableProperty::Opacity,
        forall|j: int|
            #![trigger segment_tracks(seg_start, timing, k, e)[j]]
            0 <= j < segment_tracks(seg_start, timing, k, e).len() ==> segment_tracks(seg_start, timing, k, e)[j].keyframes.len()
                == 2 && segment_tracks(seg_start, timing, k, e)[j].keyframes[0].easing == e
                && segment_tracks(seg_start, timing, k, e)[j].keyframes[1].easing == e,
{
    let t = segment_tracks(seg_start, timing, k, e);
    assert forall|j: int| #![trigger t[j]] 0 <= j < t.len() implies t[j].keyframes.len() == 2
        && t[j].keyframes[0].easing == e && t[j].keyframes[1].easing == e by {
        let x = t[j];
        assert(x.keyframes.len() == 2);
    }
}

/// Tracks that all have keyframes raise no empty-animation error.
proof fn lemma_no_empty_animation_errors(anims: Seq<TrackView>, ctx: Seq<char>)
    requires
        forall|i: int| 0 <= i < anims.len() ==> (#[trigger] anims[i]).keyframes.len() > 0,
    ensures
        empty_animation_errors(anims, ctx).len() == 0,
    decreases anims.len(),
{
    if anims.len() > 0 {
        let rest = anims.drop_last();
        assert forall|i: int| 0 <= i < rest.len() implies (#[trigger] rest[i]).keyframes.len() > 0 by {
            assert(rest[i] == anims[i]);
        }
        lemma_no_empty_animation_errors(rest, ctx);
        assert(anims.last() == anims[anims.len() - 1]);
    }
}

/// When the effect's duration is positive, every clip of the effect builds:
/// it runs from 0 to the duration and each of its animations has
/// keyframes, so it has no validation error.
pub proof fn law_segment_clip_builds(
    c: ClipBuilder,
    i: int,
    n: int,
    p: KenBurnsParams,
    s: KenBurnsSegment,
    timings: Seq<SegmentTiming>,
    k: DirectionKeyframes,
)
    requires
        is_segment_clip(c, i, n, p, s, timings, k),
        (Seconds { bits: 0 }).below(p.duration),
    ensures
        clip_errors(c.params(), c.animations()).len() == 0,
{
    law_segment_track_shape(window_start(timings, i), timings[i], k, s.easing);
    let anims = c.animations();
    assert forall|j: int| 0 <= j < anims.len() implies (#[trigger] anims[j]).keyframes.len() > 0 by {
        assert(anims[j] == segment_tracks(window_start(timings, i), timings[i], k, s.easing)[j]);
    }
    lemma_no_empty_animation_errors(anims, clip_context(c.params()));
}

/// Whether a direction moves along x: the left, right and focal-point moves.
pub open spec fn pans_horizontally(d: KenBurnsDirection) -> bool {
    d is ZoomInLeft || d is ZoomInRight || d is ZoomOutLeft || d is ZoomOutRight || d is FocalPoint
}

/// Whether a direction moves along y: the up, down and focal-point moves.
pub open spec fn pans_vertically(d: KenBurnsDirection) -> bool {
    d is ZoomInUp || d is ZoomInDown || d is ZoomOutUp || d is ZoomOutDown || d is FocalPoint
}

/// Each clip of an effect, as its segment and the settings determine it:
/// clip `i` is named `ken_burns_i` and shows segment `i`'s image from 0 to
/// the effect's duration, fit to cover the resolution; it animates scale x,
/// scale y, a translation on x exactly when the direction moves along x,
/// one on y exactly when it moves along y, and the opacity last, each with
/// two keyframes in the segment's easing (the default where it has none).
/// With a positive duration every clip builds without error.
pub proof fn law_effect_clip<
    A: Fn(Seconds, Seconds) -> Seconds,
    P: Fn(Scalar, u32) -> Scalar,
    O: Fn(Scalar, u32, Scalar) -> Scalar,
>(
    clips: Seq<ClipBuilder>,
    p: KenBurnsParams,
    segs: Seq<KenBurnsSegmentParams>,
    sum: A,
    pan: P,
    offset: O,
    i: int,
)
    requires
        are_effect_clips(clips, p, segs, sum, pan, offset),
        0 <= i < segs.len(),
    ensures
        clips.len() == segs.len(),
        clips[i].params().id@ == "ken_burns_"@ + decimal(i as nat),
        clips[i].params().path@ == segs[i].image_path@,
        clips[i].params().start_time == (Seconds { bits: 0 }),
        clips[i].params().end_time == p.duration,
        clips[i].params().sizing == (Sizing::FitRect {
            x: 0,
            y: 0,
            w: p.resolution[0],
            h: p.resolution[1],
            mode: FitMode::Cover,
            anchor: FitAnchor::Center,
        }),
        clips[i].animations().len() == 3 + (if pans_horizontally(segs[i].direction) {
            1int
        } else {
            0int
        }) + (if pans_vertically(segs[i].direction) {
            1int
        } else {
            0int
        }),
        clips[i].animations()[0].property == AnimatableProperty::ScaleX,
        clips[i].animations()[1].property == AnimatableProperty::ScaleY,
        pans_horizontally(segs[i].direction) ==> clips[i].animations()[2].property == AnimatableProperty::TranslateX,
        pans_vertically(segs[i].direction) ==> clips[i].animations()[clips[i].animations().len() - 2].property
            == AnimatableProperty::TranslateY,
        clips[i].animations()[clips[i].animations().len() - 1].property == AnimatableProperty::Opacity,
        forall|j: int|
            #![trigger clips[i].animations()[j]]
            0 <= j < clips[i].animations().len() ==> clips[i].animations()[j].keyframes.len() == 2
                && clips[i].animations()[j].keyframes[0].easing == or_default(segs[i].easing, p.default_easing)
                && clips[i].animations()[j].keyframes[1].easing == or_default(segs[i].easing, p.default_easing),
        (Seconds { bits: 0 }).below(p.duration) ==> clip_errors(clips[i].params(), clips[i].animations()).len()
            == 0,
{
    let rs = resolved_segments(segs, p);
    let (timings, inputs) = choose|timings: Seq<SegmentTiming>, inputs: Seq<(PanAmounts, FocalOffsets)>|
        #![trigger are_segment_timings(timings, holds_of(rs), fades_of(rs), sum), are_motion_inputs(inputs, rs, p.resolution, pan, offset)]
        are_segment_timings(timings, holds_of(rs), fades_of(rs), sum)
            && are_motion_inputs(inputs, rs, p.resolution, pan, offset)
            && forall|k: int|
                #![trigger clips[k]]
                0 <= k < segs.len() ==> is_segment_clip(
                    clips[k],
                    k,
                    segs.len() as int,
                    p,
                    rs[k],
                    timings,
                    direction_keyframes(rs[k].direction, inputs[k].0, inputs[k].1, rs[k].zoom_start, rs[k].zoom_end),
                );
    let c = clips[i];
    let s = rs[i];
    assert(s == resolved_segment(segs[i], p));
    let k = direction_keyframes(s.direction, inputs[i].0, inputs[i].1, s.zoom_start, s.zoom_end);
    assert(is_segment_clip(c, i, segs.len() as int, p, s, timings, k));
    law_direction_translates(s.direction, inputs[i].0, inputs[i].1, s.zoom_start, s.zoom_end);
    law_segment_track_shape(window_start(timings, i), timings[i], k, s.easing);
    if (Seconds { bits: 0 }).below(p.duration) {
        law_segment_clip_builds(c, i, segs.len() as int, p, s, timings, k);
    }
    let t = c.animations();
    assert forall|j: int| #![trigger t[j]] 0 <= j < t.len() implies t[j].keyframes.len() == 2
        && t[j].keyframes[0].easing == or_default(segs[i].easing, p.default_easing)
        && t[j].keyframes[1].easing == or_default(segs[i].easing, p.default_easing) by {
        assert(t[j] == segment_tracks(window_start(timings, i), timings[i], k, s.easing)[j]);
    }
}

/// No two clips of an effect share an id.
pub proof fn law_effect_clip_ids_distinct<
    A: Fn(Seconds, Seconds) -> Seconds,
    P: Fn(Scalar, u32) -> Scalar,
    O: Fn(Scalar, u32, Scalar) -> Scalar,
>(
    clips: Seq<ClipBuilder>,
    p: KenBurnsParams,
    segs: Seq<KenBurnsSegmentParams>,
    sum: A,
    pan: P,
    offset: O,
    i: int,
    j: int,
)
    requires
        are_effect_clips(clips, p, segs, sum, pan, offset),
        0 <= i < segs.len(),
        0 <= j < segs.len(),
        i != j,
    ensures
        clips[i].params().id@ != clips[j].params().id@,
{
    law_effect_clip(clips, p, segs, sum, pan, offset, i);
    law_effect_clip(clips, p, segs, sum, pan, offset, j);
    let prefix = "ken_burns_"@;
    if clips[i].params().id@ == clips[j].params().id@ {
        let a = prefix + decimal(i as nat);
        let b = prefix + decimal(j as nat);
        assert(a.skip(prefix.len() as int) =~= decimal(i as nat));
        assert(b.skip(prefix.len() as int) =~= decimal(j as nat));
        law_decimal_injective(i as nat, j as nat);
    }
}

/// Negating twice gives the value back.
proof fn lemma_negated_twice(v: Scalar)
    ensures
        negated(negated(v)) == v,
{
    let b = v.bits;
    assert(b ^ 0x8000_0000u32 ^ 0x8000_0000u32 == b) by (bit_vector);
}

/// Whether a direction zooms out (scales from the end zoom back to the
/// start zoom).
pub open spec fn zooms_out(d: KenBurnsDirection) -> bool {
    d is ZoomOutCenter || d is ZoomOutLeft || d is ZoomOutRight || d is ZoomOutUp || d is ZoomOutDown
}

/// The settings of each clip of an effect come from its segment, each
/// unset one from the effect's default. With `zs`, `ze`, `pf`, `h`, `f`
/// and `e` the segment's zoom start, zoom end, pan fraction, hold, fade and
/// easing (its own value when set, else the effect's default):
/// - both scale tracks run from `zs` to `ze` (from `ze` to `zs` when
///   zooming out);
/// - a left/right/up/down move translates between 0 and `pan` of `pf` and
///   the width (height for up/down): to it when zooming in, from it when
///   zooming out, negated for right and down;
/// - a focal point translates from `offset` of its start coordinate, the
///   axis length and `zs` to `offset` of its end coordinate, the length
///   and `ze`;
/// - the opacity fade starts `h` after the previous clip's fade ended (0
///   for the first clip), ends `f` after it starts, and the scale tracks
///   span from the previous clip's fade end to this clip's;
/// - every keyframe has easing `e`.
pub proof fn law_effect_clip_settings<
    A: Fn(Seconds, Seconds) -> Seconds,
    P: Fn(Scalar, u32) -> Scalar,
    O: Fn(Scalar, u32, Scalar) -> Scalar,
>(
    clips: Seq<ClipBuilder>,
    p: KenBurnsParams,
    segs: Seq<KenBurnsSegmentParams>,
    sum: A,
    pan: P,
    offset: O,
    i: int,
)
    requires
        are_effect_clips(clips, p, segs, sum, pan, offset),
        0 <= i < segs.len(),
    ensures
        ({
            let s = segs[i];
            let d = s.direction;
            let a = clips[i].animations();
            let n = a.len();
            let zs = match s.zoom_start {
                Some(v) => v,
                None => p.default_zoom_start,
            };
            let ze = match s.zoom_end {
                Some(v) => v,
                None => p.default_zoom_end,
            };
            let pf = match s.pan_fraction {
                Some(v) => v,
                None => p.default_pan_fraction,
            };
            let h = match s.hold_duration {
                Some(v) => v,
                None => p.default_hold_duration,
            };
            let f = match s.fade_duration {
                Some(v) => v,
                None => p.default_fade_duration,
            };
            let e = match s.easing {
                Some(v) => v,
                None => p.default_easing,
            };
            let prev_end = if i == 0 {
                Seconds { bits: 0 }
            } else {
                clips[i - 1].animations()[clips[i - 1].animations().len() - 1].keyframes[1].time
            };
            &&& n >= 3
            &&& a[0].keyframes[0].value == (if zooms_out(d) { ze } else { zs })
            &&& a[0].keyframes[1].value == (if zooms_out(d) { zs } else { ze })
            &&& a[1].keyframes[0].value == a[0].keyframes[0].value
            &&& a[1].keyframes[1].value == a[0].keyframes[1].value
            &&& d is ZoomInLeft ==> a[2].keyframes[0].value == zero32() && pan.ensures(
                (pf, p.resolution[0]),
                a[2].keyframes[1].value,
            )
            &&& d is ZoomOutLeft ==> a[2].keyframes[1].value == zero32() && pan.ensures(
                (pf, p.resolution[0]),
                a[2].keyframes[0].value,
            )
            &&& d is ZoomInRight ==> a[2].keyframes[0].value == zero32() && pan.ensures(
                (pf, p.resolution[0]),
                negated(a[2].keyframes[1].value),
            )
            &&& d is ZoomOutRight ==> a[2].keyframes[1].value == zero32() && pan.ensures(
                (pf, p.resolution[0]),
                negated(a[2].keyframes[0].value),
            )
            &&& d is ZoomInUp ==> a[2].keyframes[0].value == zero32() && pan.ensures(
                (pf, p.resolution[1]),
                a[2].keyframes[1].value,
            )
            &&& d is ZoomOutUp ==> a[2].keyframes[1].value == zero32() && pan.ensures(
                (pf, p.resolution[1]),
                a[2].keyframes[0].value,
            )
            &&& d is ZoomInDown ==> a[2].keyframes[0].value == zero32() && pan.ensures(
                (pf, p.resolution[1]),
                negated(a[2].keyframes[1].value),
            )
            &&& d is ZoomOutDown ==> a[2].keyframes[1].value == zero32() && pan.ensures(
                (pf, p.resolution[1]),
                negated(a[2].keyframes[0].value),
            )
            &&& d matches KenBurnsDirection::FocalPoint { start, end } ==> {
                &&& offset.ensures((start[0], p.resolution[0], zs), a[2].keyframes[0].value)
                &&& offset.ensures((end[0], p.resolution[0], ze), a[2].keyframes[1].value)
                &&& offset.ensures((start[1], p.resolution[1], zs), a[3].keyframes[0].value)
                &&& offset.ensures((end[1], p.resolution[1], ze), a[3].keyframes[1].value)
            }
            &&& a[n - 1].keyframes[0].value == opaque()
            &&& a[n - 1].keyframes[1].value == zero32()
            &&& sum.ensures((prev_end, h), a[n - 1].keyframes[0].time)
            &&& sum.ensures((a[n - 1].keyframes[0].time, f), a[n - 1].keyframes[1].time)
            &&& a[0].keyframes[0].time == prev_end
            &&& a[0].keyframes[1].time == a[n - 1].keyframes[1].time
            &&& forall|j: int|
                #![trigger a[j]]
                0 <= j < n ==> a[j].keyframes.len() == 2 && a[j].keyframes[0].easing == e && a[j].keyframes[1].easing
                    == e
        }),
{
    let rs = resolved_segments(segs, p);
    let (timings, inputs) = choose|timings: Seq<SegmentTiming>, inputs: Seq<(PanAmounts, FocalOffsets)>|
        #![trigger are_segment_timings(timings, holds_of(rs), fades_of(rs), sum), are_motion_inputs(inputs, rs, p.resolution, pan, offset)]
        are_segment_timings(timings, holds_of(rs), fades_of(rs), sum)
            && are_motion_inputs(inputs, rs, p.resolution, pan, offset)
            && forall|k: int|
                #![trigger clips[k]]
                0 <= k < segs.len() ==> is_segment_clip(
                    clips[k],
                    k,
                    segs.len() as int,
                    p,
                    rs[k],
                    timings,
                    direction_keyframes(rs[k].direction, inputs[k].0, inputs[k].1, rs[k].zoom_start, rs[k].zoom_end),
                );
    let sg = rs[i];
    assert(sg == resolved_segment(segs[i], p));
    let k = direction_keyframes(sg.direction, inputs[i].0, inputs[i].1, sg.zoom_start, sg.zoom_end);
    assert(is_segment_clip(clips[i], i, segs.len() as int, p, sg, timings, k));
    assert(motion_inputs(inputs[i].0, inputs[i].1, sg, p.resolution, pan, offset));
    assert(timings[i] == timings[i]);
    let ws = window_start(timings, i);
    if i > 0 {
        let sp = rs[i - 1];
        let kp = direction_keyframes(sp.direction, inputs[i - 1].0, inputs[i - 1].1, sp.zoom_start, sp.zoom_end);
        assert(is_segment_clip(clips[i - 1], i - 1, segs.len() as int, p, sp, timings, kp));
        law_segment_track_shape(window_start(timings, i - 1), timings[i - 1], kp, sp.easing);
        let ap = clips[i - 1].animations();
        assert(ap[ap.len() - 1] == two_keyframes(
            AnimatableProperty::Opacity,
            timings[i - 1].fade_start,
            opaque(),
            timings[i - 1].fade_end,
            zero32(),
            sp.easing,
        ));
    }
    law_segment_track_shape(ws, timings[i], k, sg.easing);
    let t = segment_tracks(ws, timings[i], k, sg.easing);
    let a = clips[i].animations();
    assert(a == t);
    assert(a[a.len() - 1] == two_keyframes(
        AnimatableProperty::Opacity,
        timings[i].fade_start,
        opaque(),
        timings[i].fade_end,
        zero32(),
        sg.easing,
    ));
    assert(a[0] == two_keyframes(AnimatableProperty::ScaleX, ws, k.scale_start, timings[i].fade_end, k.scale_end, sg.easing));
    assert(a[1] == two_keyframes(AnimatableProperty::ScaleY, ws, k.scale_start, timings[i].fade_end, k.scale_end, sg.easing));
    match k.translate_x {
        Some((x0, x1)) => {
            assert(a[2] == two_keyframes(AnimatableProperty::TranslateX, ws, x0, timings[i].fade_end, x1, sg.easing));
        },
        None => {
            match k.translate_y {
                Some((y0, y1)) => {
                    assert(a[2] == two_keyframes(AnimatableProperty::TranslateY, ws, y0, timings[i].fade_end, y1, sg.easing));
                },
                None => {},
            }
        },
    }
    match (k.translate_x, k.translate_y) {
        (Some(_), Some((y0, y1))) => {
            assert(a[3] == two_keyframes(AnimatableProperty::TranslateY, ws, y0, timings[i].fade_end, y1, sg.easing));
        },
        _ => {},
    }
    lemma_negated_twice(inputs[i].0.x);
    lemma_negated_twice(inputs[i].0.y);
    match sg.direction {
        KenBurnsDirection::FocalPoint { start, end } => {
            assert(a[2].keyframes[0].value == inputs[i].1.x_start);
            assert(a[2].keyframes[1].value == inputs[i].1.x_end);
            assert(a[3].keyframes[0].value == inputs[i].1.y_start);
            assert(a[3].keyframes[1].value == inputs[i].1.y_end);
            assert(offset.ensures((start[0], p.resolution[0], sg.zoom_start), a[2].keyframes[0].value));
            assert(offset.ensures((end[0], p.resolution[0], sg.zoom_end), a[2].keyframes[1].value));
            assert(offset.ensures((start[1], p.resolution[1], sg.zoom_start), a[3].keyframes[0].value));
            assert(offset.ensures((end[1], p.resolution[1], sg.zoom_end), a[3].keyframes[1].value));
        },
        _ => {},
    }
}

/// A two-keyframe animation builder.
fn two_keyframe_builder(base: AnimBuilder, t0: Seconds, v0: Scalar, t1: Seconds, v1: Scalar, e: Easing) -> (r: AnimBuilder)
    requires
        base@.keyframes.len() == 0,
    ensures
        r@ == two_keyframes(base@.property, t0, v0, t1, v1, e),
{
    let r = base.keyframe_with_easing(t0, v0, e).keyframe_with_easing(t1, v1, e);
    proof {
        assert(r@.keyframes =~= two_keyframes(base@.property, t0, v0, t1, v1, e).keyframes);
    }
    r
}

/// Assembles the clips of the effect: one per segment, spanning the whole
/// effect, with descending z-index (the first segment on top), fit to
/// cover the resolution, animated as [`segment_tracks`] says.
/// `timings[i]` and `motions[i]` are the fade times and keyframe values of
/// segment `i`.
pub fn assemble_clips(
    params: &KenBurnsParams,
    segments: Vec<KenBurnsSegment>,
    timings: &Vec<SegmentTiming>,
    motions: &Vec<DirectionKeyframes>,
) -> (r: Vec<ClipBuilder>)
    requires
        timings@.len() == segments@.len(),
        motions@.len() == segments@.len(),
        segments@.len() <= i32::MAX,
        params.base_z_index + segments@.len() - 1 <= i32::MAX,
    ensures
        r@.len() == segments@.len(),
        forall|i: int|
            #![trigger r@[i]]
            0 <= i < segments@.len() ==> is_segment_clip(
                r@[i],
                i,
                segments@.len() as int,
                *params,
                segments@[i],
                timings@,
                motions@[i],
            ),
{
    let ghost orig = segments@;
    let mut segments = segments;
    let n: usize = segments.len();
    let mut clips: Vec<ClipBuilder> = Vec::new();
    let mut i: usize = 0;
    while i < n
        invariant
            n == orig.len(),
            i <= n,
            segments@ == orig.skip(i as int),
            timings@.len() == n,
            motions@.len() == n,
            n <= i32::MAX,
            params.base_z_index + n - 1 <= i32::MAX,
            clips@.len() == i,
            forall|j: int|
                #![trigger clips@[j]]
                0 <= j < i ==> is_segment_clip(clips@[j], j, n as int, *params, orig[j], timings@, motions@[j]),
        decreases n - i,
    {
        let seg = segments.remove(0);
        proof {
            assert(seg == orig[i as int]);
            assert(segments@ =~= orig.skip(i + 1));
        }
        let z_index: i32 = params.base_z_index + ((n as i32) - 1 - (i as i32));
        let mut id = String::from_str("ken_burns_");
        let num = decimal_string(i);
        id.append(num.as_str());
        let mut clip_params = ClipParams::new(id.as_str(), seg.image_path.as_str(), params.duration);
        clip_params.z_index = z_index;
        clip_params.sizing = fit_rect_cover(0, 0, params.resolution[0], params.resolution[1]);
        let k = motions[i];
        let timing = timings[i];
        let seg_start = if i > 0 {
            timings[i - 1].fade_end
        } else {
            Seconds::zero()
        };
        let seg_end = timing.fade_end;
        let e = seg.easing;
        let mut clip = ClipBuilder::new(clip_params);
        clip = clip.add_animation(two_keyframe_builder(AnimBuilder::scale_x(), seg_start, k.scale_start, seg_end, k.scale_end, e));
        clip = clip.add_animation(two_keyframe_builder(AnimBuilder::scale_y(), seg_start, k.scale_start, seg_end, k.scale_end, e));
        let ghost after_scales = clip.animations();
        match k.translate_x {
            Some((a, b)) => {
                clip = clip.add_animation(two_keyframe_builder(AnimBuilder::translate_x(), seg_start, a, seg_end, b, e));
            },
            None => {},
        }
        let ghost after_tx = clip.animations();
        match k.translate_y {
            Some((a, b)) => {
                clip = clip.add_animation(two_keyframe_builder(AnimBuilder::translate_y(), seg_start, a, seg_end, b, e));
            },
            None => {},
        }
        let ghost after_ty = clip.animations();
        clip = clip.add_animation(
            two_keyframe_builder(AnimBuilder::opacity(), timing.fade_start, Scalar::from_bits(ONE_BITS), timing.fade_end, Scalar::from_bits(0), e),
        );
        proof {
            let tx = match k.translate_x {
                Some((a, b)) => seq![two_keyframes(AnimatableProperty::TranslateX, seg_start, a, seg_end, b, e)],
                None => Seq::<TrackView>::empty(),
            };
            let ty = match k.translate_y {
                Some((a, b)) => seq![two_keyframes(AnimatableProperty::TranslateY, seg_start, a, seg_end, b, e)],
                None => Seq::<TrackView>::empty(),
            };
            assert(after_tx =~= after_scales + tx);
            assert(after_ty =~= after_scales + tx + ty);
            assert(clip.animations() =~= segment_tracks(seg_start, timing, k, e));
        }
        let ghost prev = clips@;
        clips.push(clip);
        proof {
            assert forall|j: int| #![trigger clips@[j]] 0 <= j < i + 1 implies is_segment_clip(
                clips@[j],
                j,
                n as int,
                *params,
                orig[j],
                timings@,
                motions@[j],
            ) by {
                if j < i {
                    assert(clips@[j] == prev[j]);
                }
            }
        }
        i = i + 1;
    }
    clips
}

} // verus!
