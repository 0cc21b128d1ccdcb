//! Animation track builder with keyframe accumulation.
//!
//! [`AnimBuilder`] constructs [`AnimationTrack`]s by accumulating keyframes
//! through a method chain: create a builder for a property (e.g.
//! [`AnimBuilder::opacity`]), chain `keyframe` calls, finish with `build`.
//!
//! At run time the compositor holds the first keyframe's value before it, the
//! last one's after it, and interpolates between adjacent pairs. Validation
//! (at least one keyframe) is left to the parent builder.

use vstd::prelude::*;
use crate::model::{AnimatableProperty, AnimationTrack, Easing, Keyframe};
use crate::seconds::{Scalar, Seconds};

verus! {

/// The abstract content of an animation track or of its builder.
pub ghost struct TrackView {
    pub property: AnimatableProperty,
    pub keyframes: Seq<Keyframe>,
}

impl View for AnimationTrack {
    type V = TrackView;

    open spec fn view(&self) -> TrackView {
        TrackView { property: self.property, keyframes: self.keyframes@ }
    }
}

/// `after` is `before` with each keyframe time replaced by a result of
/// `shift` on it; values and easings are kept.
pub open spec fn times_shifted<F: Fn(Seconds) -> Seconds>(
    before: Seq<Keyframe>,
    after: Seq<Keyframe>,
    shift: F,
) -> bool {
    &&& after.len() == before.len()
    &&& forall|i: int|
        #![trigger after[i]]
        0 <= i < before.len() ==> shift.ensures((before[i].time,), after[i].time)
            && after[i].value == before[i].value
            && after[i].easing == before[i].easing
}

/// `after` is `before` with each keyframe value replaced by a result of
/// `scale` on it; times and easings are kept.
pub open spec fn values_scaled<F: Fn(Scalar) -> Scalar>(
    before: Seq<Keyframe>,
    after: Seq<Keyframe>,
    scale: F,
) -> bool {
    &&& after.len() == before.len()
    &&& forall|i: int|
        #![trigger after[i]]
        0 <= i < before.len() ==> scale.ensures((before[i].value,), after[i].value)
            && after[i].time == before[i].time
            && after[i].easing == before[i].easing
}

/// Builder for an [`AnimationTrack`] with accumulated keyframes.
pub struct AnimBuilder {
    property: AnimatableProperty,
    keyframes: Vec<Keyframe>,
}

impl View for AnimBuilder {
    type V = TrackView;

    closed spec fn view(&self) -> TrackView {
        TrackView { property: self.property, keyframes: self.keyframes@ }
    }
}

impl AnimBuilder {
    /// A builder targeting `property`, with no keyframes yet.
    fn for_property(property: AnimatableProperty) -> (r: AnimBuilder)
        ensures
            r@ == (TrackView { property, keyframes: Seq::empty() }),
    {
        let r = AnimBuilder { property, keyframes: Vec::new() };
        proof {
            assert(r@.keyframes =~= Seq::<Keyframe>::empty());
        }
        r
    }

    /// Creates a builder targeting the `ScaleX` property.
    pub fn scale_x() -> (r: AnimBuilder)
        ensures
            r@ == (TrackView { property: AnimatableProperty::ScaleX, keyframes: Seq::empty() }),
    {
        Self::for_property(AnimatableProperty::ScaleX)
    }

    /// Creates a builder targeting the `ScaleY` property.
    pub fn scale_y() -> (r: AnimBuilder)
        ensures
            r@ == (TrackView { property: AnimatableProperty::ScaleY, keyframes: Seq::empty() }),
    {
        Self::for_property(AnimatableProperty::ScaleY)
    }

    /// Creates a builder targeting the `TranslateX` property.
    pub fn translate_x() -> (r: AnimBuilder)
        ensures
            r@ == (TrackView { property: AnimatableProperty::TranslateX, keyframes: Seq::empty() }),
    {
        Self::for_property(AnimatableProperty::TranslateX)
    }

    /// Creates a builder targeting the `TranslateY` property.
    pub fn translate_y() -> (r: AnimBuilder)
        ensures
            r@ == (TrackView { property: AnimatableProperty::TranslateY, keyframes: Seq::empty() }),
    {
        Self::for_property(AnimatableProperty::TranslateY)
    }

    /// Creates a builder targeting the `Rotation` property.
    pub fn rotation() -> (r: AnimBuilder)
        ensures
            r@ == (TrackView { property: AnimatableProperty::Rotation, keyframes: Seq::empty() }),
    {
        Self::for_property(AnimatableProperty::Rotation)
    }

    /// Creates a builder targeting the `Opacity` property.
    pub fn opacity() -> (r: AnimBuilder)
        ensures
            r@ == (TrackView { property: AnimatableProperty::Opacity, keyframes: Seq::empty() }),
    {
        Self::for_property(AnimatableProperty::Opacity)
    }

    /// Appends a keyframe with linear easing.
    pub fn keyframe(self, time: Seconds, value: Scalar) -> (r: AnimBuilder)
        ensures
            r@ == (TrackView {
                property: self@.property,
                keyframes: self@.keyframes.push(Keyframe { time, value, easing: Easing::Linear }),
            }),
    {
        self.keyframe_with_easing(time, value, Easing::Linear)
    }

    /// Appends a keyframe with an explicit easing curve.
    pub fn keyframe_with_easing(self, time: Seconds, value: Scalar, easing: Easing) -> (r:
        AnimBuilder)
        ensures
            r@ == (TrackView {
                property: self@.property,
                keyframes: self@.keyframes.push(Keyframe { time, value, easing }),
            }),
    {
        let mut r = self;
        r.keyframes.push(Keyframe { time, value, easing });
        r
    }

    /// Consumes the builder and returns the track, without validation.
    pub fn build(self) -> (r: AnimationTrack)
        ensures
            r@ == self@,
    {
        AnimationTrack { property: self.property, keyframes: self.keyframes }
    }

    /// The property being animated.
    pub fn property(&self) -> (r: AnimatableProperty)
        ensures
            r == self@.property,
    {
        self.property
    }

    /// The number of keyframes accumulated so far.
    pub fn keyframe_count(&self) -> (r: usize)
        ensures
            r == self@.keyframes.len(),
    {
        self.keyframes.len()
    }

    /// Read-only access to the accumulated keyframes.
    pub fn keyframes(&self) -> (r: &[Keyframe])
        ensures
            r@ == self@.keyframes,
    {
        self.keyframes.as_slice()
    }

    /// A builder from pre-built keyframes.
    pub fn from_keyframes(property: AnimatableProperty, keyframes: Vec<Keyframe>) -> (r:
        AnimBuilder)
        ensures
            r@ == (TrackView { property, keyframes: keyframes@ }),
    {
        AnimBuilder { property, keyframes }
    }

    /// The same property with every keyframe value replaced by `scale` of it
    /// (the value multiplied by a factor); times and easings are kept.
    pub fn with_scaled_values<F: Fn(Scalar) -> Scalar>(self, scale: F) -> (r: AnimBuilder)
        requires
            forall|v: Scalar| scale.requires((v,)),
        ensures
            r@.property == self@.property,
            values_scaled(self@.keyframes, r@.keyframes, scale),
    {
        let n: usize = self.keyframes.len();
        let mut out: Vec<Keyframe> = Vec::new();
        let mut i: usize = 0;
        while i < n
            invariant
                n == self.keyframes@.len(),
                i <= n,
                forall|v: Scalar| scale.requires((v,)),
                out@.len() == i,
                forall|j: int|
                    #![trigger out@[j]]
                    0 <= j < i ==> scale.ensures((self.keyframes@[j].value,), out@[j].value)
                        && out@[j].time == self.keyframes@[j].time
                        && out@[j].easing == self.keyframes@[j].easing,
            decreases n - i,
        {
            let kf = self.keyframes[i];
            let value = scale(kf.value);
            let ghost prev = out@;
            out.push(Keyframe { time: kf.time, value, easing: kf.easing });
            i = i + 1;
            proof {
                assert forall|j: int| #![trigger out@[j]] 0 <= j < i implies
                    scale.ensures((self.keyframes@[j].value,), out@[j].value)
                        && out@[j].time == self.keyframes@[j].time
                        && out@[j].easing == self.keyframes@[j].easing
                by {
                    if j < i - 1 {
                        assert(out@[j] == prev[j]);
                        assert(scale.ensures((self.keyframes@[j].value,), prev[j].value));
                    } else {
                        assert(kf == self.keyframes@[j]);
                        assert(out@[j].value == value);
                    }
                }
            }
        }
        AnimBuilder { property: self.property, keyframes: out }
    }

    /// The same property with every keyframe time replaced by `shift` of it
    /// (the time plus an offset); values and easings are kept.
    pub fn with_time_offset<F: Fn(Seconds) -> Seconds>(self, shift: &F) -> (r: AnimBuilder)
        requires
            forall|t: Seconds| shift.requires((t,)),
        ensures
            r@.property == self@.property,
            times_shifted(self@.keyframes, r@.keyframes, *shift),
    {
        let n: usize = self.keyframes.len();
        let mut out: Vec<Keyframe> = Vec::new();
        let mut i: usize = 0;
        while i < n
            invariant
                n == self.keyframes@.len(),
                i <= n,
                forall|t: Seconds| shift.requires((t,)),
                out@.len() == i,
                forall|j: int|
                    #![trigger out@[j]]
                    0 <= j < i ==> shift.ensures((self.keyframes@[j].time,), out@[j].time)
                        && out@[j].value == self.keyframes@[j].value
                        && out@[j].easing == self.keyframes@[j].easing,
            decreases n - i,
        {
            let kf = self.keyframes[i];
            let time = shift(kf.time);
            let ghost prev = out@;
            out.push(Keyframe { time, value: kf.value, easing: kf.easing });
            i = i + 1;
            proof {
                assert forall|j: int| #![trigger out@[j]] 0 <= j < i implies
                    shift.ensures((self.keyframes@[j].time,), out@[j].time)
                        && out@[j].value == self.keyframes@[j].value
                        && out@[j].easing == self.keyframes@[j].easing
                by {
                    if j < i - 1 {
                        assert(out@[j] == prev[j]);
                        assert(shift.ensures((self.keyframes@[j].time,), prev[j].time));
                    } else {
                        assert(kf == self.keyframes@[j]);
                        assert(out@[j].time == time);
                    }
                }
            }
        }
        AnimBuilder { property: self.property, keyframes: out }
    }
}

} // verus!
