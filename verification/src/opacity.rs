//! Opacity transforms for batches of clips.
//!
//! [`opacity`] is destructive: it multiplies the values of each clip's
//! opacity animation by a factor, or gives a clip without one a constant
//! opacity of the factor. [`group_opacity`] is non-destructive: it wraps the
//! built clips in a group whose own constant opacity multiplies into the
//! children when rendered.

use vstd::prelude::*;
use crate::anim_builder::{values_scaled, AnimBuilder, TrackView};
use crate::clip_builder::{are_clip_items, build_clips, builder_views, clips_errors, track_views, ClipBuilder, HALF_BITS};
use crate::group_builder::{earliest_start, latest_end, time_span};
use crate::model::{AnimatableProperty, AnimationTrack, Easing, ItemContent, ItemDef, Keyframe, Sizing};
use crate::seconds::{Scalar, Seconds};
use crate::validation::{BuilderError, BuilderErrors, ErrorView};

verus! {

/// The index of the first opacity animation in `anims`, or -1 if none.
pub open spec fn first_opacity(anims: Seq<TrackView>) -> int
    decreases anims.len(),
{
    if anims.len() == 0 {
        -1
    } else if anims[0].property == AnimatableProperty::Opacity {
        0
    } else {
        let r = first_opacity(anims.skip(1));
        if r < 0 {
            -1
        } else {
            r + 1
        }
    }
}

/// A constant opacity of `factor`: one linear keyframe at time 0.
pub open spec fn constant_opacity(factor: Scalar) -> TrackView {
    TrackView {
        property: AnimatableProperty::Opacity,
        keyframes: seq![Keyframe { time: Seconds { bits: 0 }, value: factor, easing: Easing::Linear }],
    }
}

/// `after` is `before` with opacity applied: the first opacity animation's
/// values are replaced by `scale` of them (all else kept), or, without one,
/// a constant opacity of `factor` is appended.
pub open spec fn opacity_applied<F: Fn(Scalar) -> Scalar>(
    before: Seq<TrackView>,
    after: Seq<TrackView>,
    factor: Scalar,
    scale: F,
) -> bool {
    let k = first_opacity(before);
    if k < 0 {
        after == before.push(constant_opacity(factor))
    } else {
        &&& after.len() == before.len()
        &&& forall|j: int| 0 <= j < before.len() && j != k ==> #[trigger] after[j] == before[j]
        &&& after[k].property == AnimatableProperty::Opacity
        &&& values_scaled(before[k].keyframes, after[k].keyframes, scale)
    }
}

proof fn lemma_first_opacity(anims: Seq<TrackView>, i: int)
    requires
        0 <= i <= anims.len(),
        forall|j: int| 0 <= j < i ==> (#[trigger] anims[j]).property != AnimatableProperty::Opacity,
    ensures
        i < anims.len() && anims[i].property == AnimatableProperty::Opacity ==> first_opacity(anims) == i,
        i == anims.len() ==> first_opacity(anims) == -1,
    decreases i,
{
    if i > 0 {
        let rest = anims.skip(1);
        assert forall|j: int| 0 <= j < i - 1 implies (#[trigger] rest[j]).property != AnimatableProperty::Opacity by {
            assert(rest[j] == anims[j + 1]);
        }
        lemma_first_opacity(rest, i - 1);
        assert(anims[0].property != AnimatableProperty::Opacity);
        if i < anims.len() {
            assert(rest[i - 1] == anims[i]);
        }
    } else if anims.len() == 0 {
    }
}

/// Applies opacity to one clip (see [`opacity_applied`]).
fn transform_clip_opacity<F: Fn(Scalar) -> Scalar>(clip: ClipBuilder, factor: Scalar, scale: &F) -> (r:
    ClipBuilder)
    requires
        forall|v: Scalar| scale.requires((v,)),
    ensures
        r.params() == clip.params(),
        opacity_applied(clip.animations(), r.animations(), factor, *scale),
{
    let (params, anims) = clip.into_parts();
    let ghost orig = anims@;
    let ghost views = builder_views(orig);
    let n: usize = anims.len();
    let mut k: usize = 0;
    while k < n && anims[k].property() != AnimatableProperty::Opacity
        invariant
            n == anims@.len(),
            anims@ == orig,
            views == builder_views(orig),
            k <= n,
            forall|j: int| 0 <= j < k ==> (#[trigger] views[j]).property != AnimatableProperty::Opacity,
        decreases n - k,
    {
        proof {
            assert(views[k as int] == anims@[k as int]@);
        }
        k = k + 1;
    }
    proof {
        lemma_first_opacity(views, k as int);
    }
    if k == n {
        let mut anims = anims;
        let added = AnimBuilder::opacity().keyframe(Seconds::zero(), factor);
        anims.push(added);
        proof {
            assert(added@.keyframes =~= constant_opacity(factor).keyframes);
            assert(builder_views(anims@) =~= views.push(constant_opacity(factor)));
        }
        return ClipBuilder::from_parts(params, anims);
    }
    let mut anims = anims;
    let mut out: Vec<AnimBuilder> = Vec::new();
    let mut i: usize = 0;
    while i < n
        invariant
            n == orig.len(),
            k < n,
            views == builder_views(orig),
            views[k as int].property == AnimatableProperty::Opacity,
            i <= n,
            anims@ == orig.skip(i as int),
            out@.len() == i,
            forall|v: Scalar| scale.requires((v,)),
            forall|j: int| 0 <= j < i && j != k ==> #[trigger] out@[j]@ == views[j],
            k < i ==> out@[k as int]@.property == AnimatableProperty::Opacity && values_scaled(
                views[k as int].keyframes,
                out@[k as int]@.keyframes,
                *scale,
            ),
        decreases n - i,
    {
        let a = anims.remove(0);
        proof {
            assert(a == orig[i as int]);
            assert(anims@ =~= orig.skip(i + 1));
        }
        let ghost prev = out@;
        if i == k {
            out.push(a.with_scaled_values(scale));
        } else {
            out.push(a);
        }
        proof {
            assert forall|j: int| 0 <= j < i + 1 && j != k implies #[trigger] out@[j]@ == views[j] by {
                if j < i {
                    assert(out@[j] == prev[j]);
                }
            }
            if k < i {
                assert(out@[k as int] == prev[k as int]);
            }
        }
        i = i + 1;
    }
    let r = ClipBuilder::from_parts(params, out);
    proof {
        assert forall|j: int| 0 <= j < views.len() && j != k implies #[trigger] r.animations()[j] == views[j] by {
            assert(r.animations()[j] == out@[j]@);
        }
        assert(r.animations()[k as int] == out@[k as int]@);
    }
    r
}

/// Uniformly scales opacity across a batch of clips: each clip's first
/// opacity animation has its values replaced by `scale` of them (the value
/// multiplied by `factor`); a clip without one gets a constant opacity of
/// `factor`. Other animations are untouched.
pub fn opacity<F: Fn(Scalar) -> Scalar>(clips: Vec<ClipBuilder>, factor: Scalar, scale: &F) -> (r: Vec<
    ClipBuilder,
>)
    requires
        forall|v: Scalar| scale.requires((v,)),
    ensures
        r@.len() == clips@.len(),
        forall|i: int|
            #![trigger r@[i]]
            0 <= i < clips@.len() ==> r@[i].params() == clips@[i].params() && opacity_applied(
                clips@[i].animations(),
                r@[i].animations(),
                factor,
                *scale,
            ),
{
    let ghost orig = clips@;
    let mut clips = clips;
    let mut out: Vec<ClipBuilder> = Vec::new();
    let n: usize = clips.len();
    let mut i: usize = 0;
    while i < n
        invariant
            n == orig.len(),
            i <= n,
            clips@ == orig.skip(i as int),
            out@.len() == i,
            forall|v: Scalar| scale.requires((v,)),
            forall|j: int|
                #![trigger out@[j]]
                0 <= j < i ==> out@[j].params() == orig[j].params() && opacity_applied(
                    orig[j].animations(),
                    out@[j].animations(),
                    factor,
                    *scale,
                ),
        decreases n - i,
    {
        let c = clips.remove(0);
        proof {
            assert(c == orig[i as int]);
            assert(clips@ =~= orig.skip(i + 1));
        }
        let ghost prev = out@;
        out.push(transform_clip_opacity(c, factor, scale));
        proof {
            assert forall|j: int| #![trigger out@[j]] 0 <= j < i + 1 implies out@[j].params()
                == orig[j].params() && opacity_applied(orig[j].animations(), out@[j].animations(), factor, *scale) by {
                if j < i {
                    assert(out@[j] == prev[j]);
                }
            }
        }
        i = i + 1;
    }
    out
}

/// The error reported by [`group_opacity`] when given no clips.
pub open spec fn no_opacity_clips_error() -> ErrorView {
    ErrorView::plain("group_opacity requires at least one clip"@)
}

/// Wraps the built clips in a group with a constant opacity of `factor`
/// (non-destructive: the children's own opacity is kept and multiplied by
/// the group's when rendered). The group spans from the earliest clip start
/// to the latest clip end, on track 0 at z-index 0.
///
/// Errors: the clips' own build errors if any clip fails; otherwise, when
/// there are no clips, a single error saying at least one is required.
pub fn group_opacity(id: &str, clips: Vec<ClipBuilder>, factor: Scalar) -> (r: Result<ItemDef, BuilderErrors>)
    ensures
        match r {
            Ok(item) => {
                &&& clips_errors(clips@).len() == 0
                &&& clips@.len() > 0
                &&& item.id@ == id@
                &&& (item.content matches ItemContent::Group { children } && are_clip_items(children@, clips@)
                    && item.start_time == earliest_start(children@) && item.end_time == latest_end(
                    children@,
                ))
                &&& item.track == 0
                &&& item.z_index == 0
                &&& item.sizing == Sizing::Natural
                &&& item.pivot[0].bits == HALF_BITS
                &&& item.pivot[1].bits == HALF_BITS
                &&& track_views(item.animations@) == seq![constant_opacity(factor)]
            },
            Err(e) => if clips_errors(clips@).len() > 0 {
                e@ == clips_errors(clips@)
            } else {
                clips@.len() == 0 && e@ == seq![no_opacity_clips_error()]
            },
        },
{
    let (children, errors) = build_clips(clips);
    if !errors.is_empty() {
        return Err(errors);
    }
    if children.len() == 0 {
        let mut errs = BuilderErrors::new();
        errs.push(BuilderError::new("group_opacity requires at least one clip"));
        return Err(errs);
    }
    let (start_time, end_time) = time_span(&children);
    let mut keyframes: Vec<Keyframe> = Vec::new();
    keyframes.push(Keyframe { time: Seconds::zero(), value: factor, easing: Easing::Linear });
    let mut animations: Vec<AnimationTrack> = Vec::new();
    animations.push(AnimationTrack { property: AnimatableProperty::Opacity, keyframes });
    proof {
        assert(track_views(animations@) =~= seq![constant_opacity(factor)]);
    }
    Ok(
        ItemDef {
            id: String::from_str(id),
            content: ItemContent::Group { children },
            track: 0,
            start_time,
            end_time,
            z_index: 0,
            sizing: Sizing::Natural,
            pivot: [Scalar::from_bits(HALF_BITS), Scalar::from_bits(HALF_BITS)],
            animations,
        },
    )
}

} // verus!
