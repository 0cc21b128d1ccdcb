//! Clip construction with sizing and animations.
//!
//! [`ClipParams`] holds a clip's fields (required ones through
//! [`ClipParams::new`], the rest with defaults); [`ClipBuilder`] adds
//! animation accumulation and the validation done by [`ClipBuilder::build`].

use vstd::prelude::*;
use crate::anim_builder::{times_shifted, AnimBuilder, TrackView};
use crate::model::{AnimatableProperty, AnimationTrack, FitAnchor, FitMode, ItemContent, ItemDef, Sizing};
use crate::seconds::{Scalar, Seconds};
use crate::text::{label, labelled};
use crate::validation::{BuilderError, BuilderErrors, ErrorView};

verus! {

/// Natural sizing: the image's native dimensions.
pub fn natural() -> (r: Sizing)
    ensures
        r == Sizing::Natural,
{
    Sizing::Natural
}

/// Explicit width and height in pixels.
pub fn explicit(width: u32, height: u32) -> (r: Sizing)
    ensures
        r == (Sizing::Explicit { width, height }),
{
    Sizing::Explicit { width, height }
}

/// Fit to cover a rectangle (may crop), anchored at the center.
pub fn fit_rect_cover(x: i32, y: i32, w: u32, h: u32) -> (r: Sizing)
    ensures
        r == (Sizing::FitRect { x, y, w, h, mode: FitMode::Cover, anchor: FitAnchor::Center }),
{
    Sizing::FitRect { x, y, w, h, mode: FitMode::Cover, anchor: FitAnchor::Center }
}

/// Fit to be contained in a rectangle (may letterbox), anchored at the center.
pub fn fit_rect_contain(x: i32, y: i32, w: u32, h: u32) -> (r: Sizing)
    ensures
        r == (Sizing::FitRect { x, y, w, h, mode: FitMode::Contain, anchor: FitAnchor::Center }),
{
    Sizing::FitRect { x, y, w, h, mode: FitMode::Contain, anchor: FitAnchor::Center }
}

/// A uniform scale factor.
pub fn scale(factor: Scalar) -> (r: Sizing)
    ensures
        r == Sizing::Scale(factor),
{
    Sizing::Scale(factor)
}

/// The user-facing name of a property (its serialized name).
pub open spec fn property_name(p: AnimatableProperty) -> Seq<char> {
    match p {
        AnimatableProperty::ScaleX => "scale_x"@,
        AnimatableProperty::ScaleY => "scale_y"@,
        AnimatableProperty::TranslateX => "translate_x"@,
        AnimatableProperty::TranslateY => "translate_y"@,
        AnimatableProperty::Rotation => "rotation"@,
        AnimatableProperty::Opacity => "opacity"@,
    }
}

/// Returns the user-facing name of a property, for error messages.
pub fn property_display_name(p: AnimatableProperty) -> (r: &'static str)
    ensures
        r@ == property_name(p),
{
    match p {
        AnimatableProperty::ScaleX => "scale_x",
        AnimatableProperty::ScaleY => "scale_y",
        AnimatableProperty::TranslateX => "translate_x",
        AnimatableProperty::TranslateY => "translate_y",
        AnimatableProperty::Rotation => "rotation",
        AnimatableProperty::Opacity => "opacity",
    }
}

/// The error for a time range whose end is not after its start.
pub open spec fn time_range_error(ctx: Seq<char>) -> ErrorView {
    ErrorView::plain("end_time must be greater than start_time"@).within(ctx)
}

/// The error for an animation without keyframes, inside element `ctx`.
pub open spec fn empty_animation_error(p: AnimatableProperty, ctx: Seq<char>) -> ErrorView {
    ErrorView::plain("animation has no keyframes"@).within(labelled("animation"@, property_name(p))).within(
        ctx,
    )
}

/// One error per animation without keyframes, in order.
pub open spec fn empty_animation_errors(anims: Seq<TrackView>, ctx: Seq<char>) -> Seq<ErrorView>
    decreases anims.len(),
{
    if anims.len() == 0 {
        Seq::empty()
    } else {
        let rest = empty_animation_errors(anims.drop_last(), ctx);
        if anims.last().keyframes.len() == 0 {
            rest.push(empty_animation_error(anims.last().property, ctx))
        } else {
            rest
        }
    }
}

/// The views of a sequence of animation builders.
pub open spec fn builder_views(v: Seq<AnimBuilder>) -> Seq<TrackView> {
    v.map_values(|b: AnimBuilder| b@)
}

/// The views of a sequence of animation tracks.
pub open spec fn track_views(v: Seq<AnimationTrack>) -> Seq<TrackView> {
    v.map_values(|t: AnimationTrack| t@)
}

/// Builds every animation builder into its track, and reports, inside
/// element `ctx`, each one that has no keyframes.
pub fn build_animations(anims: Vec<AnimBuilder>, ctx: &str, errors: &mut BuilderErrors) -> (r: Vec<
    AnimationTrack,
>)
    ensures
        track_views(r@) == builder_views(anims@),
        final(errors)@ == old(errors)@ + empty_animation_errors(builder_views(anims@), ctx@),
{
    let ghost orig = anims@;
    let ghost views = builder_views(anims@);
    let ghost start = errors@;
    let mut anims = anims;
    let mut tracks: Vec<AnimationTrack> = Vec::new();
    let n: usize = anims.len();
    let mut i: usize = 0;
    while i < n
        invariant
            n == orig.len(),
            i <= n,
            views == builder_views(orig),
            anims@ == orig.skip(i as int),
            track_views(tracks@) == views.take(i as int),
            errors@ == start + empty_animation_errors(views.take(i as int), ctx@),
        decreases n - i,
    {
        let b = anims.remove(0);
        proof {
            assert(b == orig[i as int]);
            assert(anims@ =~= orig.skip(i + 1));
        }
        let track = b.build();
        if track.keyframes.len() == 0 {
            let name = label("animation", property_display_name(track.property));
            errors.push(BuilderError::new("animation has no keyframes").in_context(name.as_str()).in_context(ctx));
        }
        let ghost before = tracks@;
        tracks.push(track);
        proof {
            assert(views.take(i + 1).drop_last() =~= views.take(i as int));
            assert(track_views(tracks@) =~= track_views(before).push(track@));
        }
        i = i + 1;
    }
    proof {
        assert(views.take(n as int) =~= views);
    }
    tracks
}

/// Fields of a clip. Required: `id`, `path`, `end_time` (see
/// [`ClipParams::new`]); every other field has a default.
pub struct ClipParams {
    /// Unique identifier for the clip.
    pub id: String,
    /// Path to the source image, relative to the project.
    pub path: String,
    /// Track lane index. Default 0.
    pub track: u32,
    /// Start time in seconds. Default 0.
    pub start_time: Seconds,
    /// End time in seconds.
    pub end_time: Seconds,
    /// Z-order for rendering; higher renders on top. Default 0.
    pub z_index: i32,
    /// Sizing mode. Default natural.
    pub sizing: Sizing,
    /// Pivot point in [0, 1] relative to the clip bounds. Default (0.5, 0.5).
    pub pivot: [Scalar; 2],
}

/// The binary32 pattern of 0.5.
pub const HALF_BITS: u32 = 0x3F00_0000;

impl ClipParams {
    /// Clip fields with the required values and every default.
    pub fn new(id: &str, path: &str, end_time: Seconds) -> (r: ClipParams)
        ensures
            r.id@ == id@,
            r.path@ == path@,
            r.track == 0,
            r.start_time.bits == 0,
            r.end_time == end_time,
            r.z_index == 0,
            r.sizing == Sizing::Natural,
            r.pivot[0].bits == HALF_BITS,
            r.pivot[1].bits == HALF_BITS,
    {
        ClipParams {
            id: String::from_str(id),
            path: String::from_str(path),
            track: 0,
            start_time: Seconds::zero(),
            end_time,
            z_index: 0,
            sizing: Sizing::Natural,
            pivot: [Scalar::from_bits(HALF_BITS), Scalar::from_bits(HALF_BITS)],
        }
    }
}

/// The context segment naming a clip in error paths.
pub open spec fn clip_context(p: ClipParams) -> Seq<char> {
    labelled("clip"@, p.id@)
}

/// Every validation error of a clip, in the order they are reported.
pub open spec fn clip_errors(p: ClipParams, anims: Seq<TrackView>) -> Seq<ErrorView> {
    let ctx = clip_context(p);
    let time = if !p.start_time.below(p.end_time) {
        seq![time_range_error(ctx)]
    } else {
        Seq::empty()
    };
    time + empty_animation_errors(anims, ctx)
}

/// There are no empty-animation errors exactly when every animation has a
/// keyframe; each animation without one has its error.
pub proof fn law_empty_animations_reported(anims: Seq<TrackView>, ctx: Seq<char>)
    ensures
        empty_animation_errors(anims, ctx).len() == 0 <==> forall|j: int|
            0 <= j < anims.len() ==> (#[trigger] anims[j]).keyframes.len() > 0,
        forall|j: int|
            0 <= j < anims.len() && (#[trigger] anims[j]).keyframes.len() == 0 ==> empty_animation_errors(
                anims,
                ctx,
            ).contains(empty_animation_error(anims[j].property, ctx)),
    decreases anims.len(),
{
    if anims.len() > 0 {
        let rest = anims.drop_last();
        law_empty_animations_reported(rest, ctx);
        let o = empty_animation_errors(anims, ctx);
        let ro = empty_animation_errors(rest, ctx);
        let last = anims.len() - 1;
        assert(anims[last] == anims.last());
        assert forall|j: int| 0 <= j < rest.len() implies rest[j] == anims[j] by {}
        assert forall|j: int| 0 <= j < anims.len() && (#[trigger] anims[j]).keyframes.len() == 0 implies o.contains(
            empty_animation_error(anims[j].property, ctx),
        ) by {
            if j < rest.len() {
                assert(rest[j] == anims[j]);
                let k = choose|k: int| 0 <= k < ro.len() && ro[k] == empty_animation_error(rest[j].property, ctx);
                assert(o[k] == ro[k]);
            } else {
                assert(o[o.len() - 1] == empty_animation_error(anims[j].property, ctx));
            }
        }
        if o.len() == 0 {
            assert forall|j: int| 0 <= j < anims.len() implies (#[trigger] anims[j]).keyframes.len() > 0 by {
                if j < rest.len() {
                    assert(rest[j] == anims[j]);
                }
            }
        }
        if forall|j: int| 0 <= j < anims.len() ==> (#[trigger] anims[j]).keyframes.len() > 0 {
            assert forall|j: int| 0 <= j < rest.len() implies (#[trigger] rest[j]).keyframes.len() > 0 by {
                assert(anims[j].keyframes.len() > 0);
            }
            assert(anims[last].keyframes.len() > 0);
        }
    }
}

/// A clip builds exactly when it starts before it ends and every one of
/// its animations has a keyframe.
pub proof fn law_clip_builds_exactly_when_valid(p: ClipParams, anims: Seq<TrackView>)
    ensures
        clip_errors(p, anims).len() == 0 <==> p.start_time.below(p.end_time) && forall|j: int|
            0 <= j < anims.len() ==> (#[trigger] anims[j]).keyframes.len() > 0,
{
    law_empty_animations_reported(anims, clip_context(p));
}

/// `item` is the clip built from `p` with animations `anims`.
pub open spec fn is_clip_item(item: ItemDef, p: ClipParams, anims: Seq<TrackView>) -> bool {
    &&& item.id@ == p.id@
    &&& (item.content matches ItemContent::Image { path } && path@ == p.path@)
    &&& item.track == p.track
    &&& item.start_time == p.start_time
    &&& item.end_time == p.end_time
    &&& item.z_index == p.z_index
    &&& item.sizing == p.sizing
    &&& item.pivot == p.pivot
    &&& track_views(item.animations@) == anims
}

/// `after` is the clip `before` moved on the timeline by `shift`: its
/// start and end times and every keyframe time are replaced by `shift` of
/// them; everything else is kept.
pub open spec fn clip_moved<F: Fn(Seconds) -> Seconds>(before: ClipBuilder, after: ClipBuilder, shift: F) -> bool {
    &&& shift.ensures((before.params().start_time,), after.params().start_time)
    &&& shift.ensures((before.params().end_time,), after.params().end_time)
    &&& after.params().id == before.params().id
    &&& after.params().path == before.params().path
    &&& after.params().track == before.params().track
    &&& after.params().z_index == before.params().z_index
    &&& after.params().sizing == before.params().sizing
    &&& after.params().pivot == before.params().pivot
    &&& after.animations().len() == before.animations().len()
    &&& forall|i: int|
        #![trigger after.animations()[i]]
        0 <= i < before.animations().len() ==> after.animations()[i].property == before.animations()[i].property
            && times_shifted(before.animations()[i].keyframes, after.animations()[i].keyframes, shift)
}

/// Builder for a clip item with optional animations.
pub struct ClipBuilder {
    params: ClipParams,
    anim_builders: Vec<AnimBuilder>,
}

impl ClipBuilder {
    /// The clip fields.
    pub closed spec fn params(&self) -> ClipParams {
        self.params
    }

    /// The accumulated animations.
    pub closed spec fn animations(&self) -> Seq<TrackView> {
        builder_views(self.anim_builders@)
    }

    /// Creates a builder from clip fields, with no animations.
    pub fn new(params: ClipParams) -> (r: ClipBuilder)
        ensures
            r.params() == params,
            r.animations() == Seq::<TrackView>::empty(),
    {
        let r = ClipBuilder { params, anim_builders: Vec::new() };
        proof {
            assert(r.animations() =~= Seq::<TrackView>::empty());
        }
        r
    }

    /// Reassembles a builder from fields and animation builders.
    pub fn from_parts(params: ClipParams, anims: Vec<AnimBuilder>) -> (r: ClipBuilder)
        ensures
            r.params() == params,
            r.animations() == builder_views(anims@),
    {
        ClipBuilder { params, anim_builders: anims }
    }

    /// Splits the builder into its fields and animation builders.
    pub fn into_parts(self) -> (r: (ClipParams, Vec<AnimBuilder>))
        ensures
            r.0 == self.params(),
            builder_views(r.1@) == self.animations(),
    {
        (self.params, self.anim_builders)
    }

    /// Appends an animation; it is built and validated by [`ClipBuilder::build`].
    pub fn add_animation(self, anim: AnimBuilder) -> (r: ClipBuilder)
        ensures
            r.params() == self.params(),
            r.animations() == self.animations().push(anim@),
    {
        let mut r = self;
        r.anim_builders.push(anim);
        proof {
            assert(r.animations() =~= self.animations().push(anim@));
        }
        r
    }

    /// The clip moved on the timeline by `shift` (adding an offset): its
    /// start and end times and every keyframe time are replaced by `shift`
    /// of them; everything else is kept.
    pub fn with_offset<F: Fn(Seconds) -> Seconds>(self, shift: &F) -> (r: ClipBuilder)
        requires
            forall|t: Seconds| shift.requires((t,)),
        ensures
            clip_moved(self, r, *shift),
    {
        let ClipBuilder { params, anim_builders } = self;
        let mut params = params;
        params.start_time = shift(params.start_time);
        params.end_time = shift(params.end_time);
        let anims = shift_animations(anim_builders, shift);
        ClipBuilder { params, anim_builders: anims }
    }

    /// Consumes the builder, validates, and returns the clip item.
    ///
    /// Validation: `end_time` must be greater than `start_time`, and every
    /// animation must have at least one keyframe. All errors are collected
    /// (see [`clip_errors`]) rather than stopping at the first.
    pub fn build(self) -> (r: Result<ItemDef, BuilderErrors>)
        ensures
            match r {
                Ok(item) => clip_errors(self.params(), self.animations()).len() == 0
                    && is_clip_item(item, self.params(), self.animations()),
                Err(e) => clip_errors(self.params(), self.animations()).len() > 0 && e@
                    == clip_errors(self.params(), self.animations()),
            },
    {
        let ClipBuilder { params, anim_builders } = self;
        let mut errors = BuilderErrors::new();
        let ctx = label("clip", params.id.as_str());
        if !params.start_time.lt(&params.end_time) {
            errors.push(
                BuilderError::new("end_time must be greater than start_time").in_context(
                    ctx.as_str(),
                ),
            );
        }
        let animations = build_animations(anim_builders, ctx.as_str(), &mut errors);
        proof {
            assert(errors@ =~= clip_errors(params, builder_views(self.anim_builders@)));
        }
        match errors.into_result() {
            Err(e) => Err(e),
            Ok(()) => Ok(
                ItemDef {
                    id: params.id,
                    content: ItemContent::Image { path: params.path },
                    track: params.track,
                    start_time: params.start_time,
                    end_time: params.end_time,
                    z_index: params.z_index,
                    sizing: params.sizing,
                    pivot: params.pivot,
                    animations,
                },
            ),
        }
    }
}

/// Every animation builder with its keyframe times replaced by `shift` of them.
pub fn shift_animations<F: Fn(Seconds) -> Seconds>(anims: Vec<AnimBuilder>, shift: &F) -> (r: Vec<
    AnimBuilder,
>)
    requires
        forall|t: Seconds| shift.requires((t,)),
    ensures
        r@.len() == anims@.len(),
        forall|i: int|
            #![trigger r@[i]]
            0 <= i < anims@.len() ==> r@[i]@.property == anims@[i]@.property && times_shifted(
                anims@[i]@.keyframes,
                r@[i]@.keyframes,
                *shift,
            ),
{
    let ghost orig = anims@;
    let mut anims = anims;
    let mut out: Vec<AnimBuilder> = Vec::new();
    let n: usize = anims.len();
    let mut i: usize = 0;
    while i < n
        invariant
            n == orig.len(),
            i <= n,
            anims@ == orig.skip(i as int),
            out@.len() == i,
            forall|t: Seconds| shift.requires((t,)),
            forall|j: int|
                #![trigger out@[j]]
                0 <= j < i ==> out@[j]@.property == orig[j]@.property && times_shifted(
                    orig[j]@.keyframes,
                    out@[j]@.keyframes,
                    *shift,
                ),
        decreases n - i,
    {
        let b = anims.remove(0);
        proof {
            assert(b == orig[i as int]);
            assert(anims@ =~= orig.skip(i + 1));
        }
        let shifted = b.with_time_offset(shift);
        let ghost prev = out@;
        out.push(shifted);
        proof {
            assert forall|j: int| #![trigger out@[j]] 0 <= j < i + 1 implies out@[j]@.property
                == orig[j]@.property && times_shifted(orig[j]@.keyframes, out@[j]@.keyframes, *shift) by {
                if j < i {
                    assert(out@[j] == prev[j]);
                }
            }
        }
        i = i + 1;
    }
    out
}

} // verus!

verus! {

/// `c` builds without errors.
pub open spec fn clip_ok(c: ClipBuilder) -> bool {
    clip_errors(c.params(), c.animations()).len() == 0
}

/// The errors of building each clip, concatenated in order.
pub open spec fn clips_errors(clips: Seq<ClipBuilder>) -> Seq<ErrorView>
    decreases clips.len(),
{
    if clips.len() == 0 {
        Seq::empty()
    } else {
        clips_errors(clips.drop_last()) + clip_errors(clips.last().params(), clips.last().animations())
    }
}

/// The id and end time of an item.
pub open spec fn stamp(item: ItemDef) -> (Seq<char>, Seconds) {
    (item.id@, item.end_time)
}

/// The ids and end times of a sequence of items.
pub open spec fn stamps(items: Seq<ItemDef>) -> Seq<(Seq<char>, Seconds)> {
    items.map_values(|it: ItemDef| stamp(it))
}

/// The ids and end times of the clips that build without errors, in order.
pub open spec fn ok_clip_stamps(clips: Seq<ClipBuilder>) -> Seq<(Seq<char>, Seconds)>
    decreases clips.len(),
{
    if clips.len() == 0 {
        Seq::empty()
    } else {
        let rest = ok_clip_stamps(clips.drop_last());
        if clip_ok(clips.last()) {
            rest.push((clips.last().params().id@, clips.last().params().end_time))
        } else {
            rest
        }
    }
}

/// `items` are the clips built from `clips`, one per clip, in order.
pub open spec fn are_clip_items(items: Seq<ItemDef>, clips: Seq<ClipBuilder>) -> bool {
    &&& items.len() == clips.len()
    &&& forall|i: int|
        #![trigger items[i]]
        0 <= i < clips.len() ==> is_clip_item(items[i], clips[i].params(), clips[i].animations())
}

/// Builds every clip, keeping the items that build and collecting the
/// errors of those that do not.
pub fn build_clips(clips: Vec<ClipBuilder>) -> (r: (Vec<ItemDef>, BuilderErrors))
    ensures
        r.1@ == clips_errors(clips@),
        stamps(r.0@) == ok_clip_stamps(clips@),
        clips_errors(clips@).len() == 0 ==> are_clip_items(r.0@, clips@),
{
    let ghost orig = clips@;
    let mut clips = clips;
    let mut items: Vec<ItemDef> = Vec::new();
    let mut errors = BuilderErrors::new();
    let n: usize = clips.len();
    let mut i: usize = 0;
    while i < n
        invariant
            n == orig.len(),
            i <= n,
            clips@ == orig.skip(i as int),
            errors@ == clips_errors(orig.take(i as int)),
            stamps(items@) == ok_clip_stamps(orig.take(i as int)),
            clips_errors(orig.take(i as int)).len() == 0 ==> are_clip_items(items@, orig.take(i as int)),
        decreases n - i,
    {
        let c = clips.remove(0);
        proof {
            assert(c == orig[i as int]);
            assert(clips@ =~= orig.skip(i + 1));
            assert(orig.take(i + 1).drop_last() =~= orig.take(i as int));
        }
        let ghost before = items@;
        match c.build() {
            Ok(item) => {
                items.push(item);
                proof {
                    assert(stamps(items@) =~= stamps(before).push(stamp(item)));
                    if clips_errors(orig.take(i + 1)).len() == 0 {
                        assert forall|j: int| #![trigger items@[j]] 0 <= j < i + 1 implies is_clip_item(
                            items@[j],
                            orig.take(i + 1)[j].params(),
                            orig.take(i + 1)[j].animations(),
                        ) by {
                            if j < i {
                                assert(items@[j] == before[j]);
                                assert(orig.take(i + 1)[j] == orig.take(i as int)[j]);
                            }
                        }
                    }
                }
            },
            Err(e) => {
                errors.merge(e);
            },
        }
        i = i + 1;
    }
    proof {
        assert(orig.take(n as int) =~= orig);
    }
    (items, errors)
}

} // verus!
