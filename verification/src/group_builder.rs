//! Group construction with child items and animations.
//!
//! [`GroupParams`] holds a group's fields; [`GroupBuilder`] adds animation
//! accumulation and validation. [`group_from_clips`] wraps clip builders
//! into group fields whose time range spans the clips.

use vstd::prelude::*;
use crate::anim_builder::{times_shifted, AnimBuilder, TrackView};
use crate::clip_builder::{
    build_animations, builder_views, clip_errors, clip_moved, empty_animation_errors, is_clip_item,
    law_empty_animations_reported,
    shift_animations, time_range_error, track_views, ClipBuilder, HALF_BITS,
    build_clips, clips_errors, are_clip_items,
};
use crate::model::{AnimationTrack, ItemContent, ItemDef, Sizing};
use crate::seconds::{Scalar, Seconds, INFINITY_BITS, NEG_INFINITY_BITS};
use crate::text::{label, labelled};
use crate::validation::{
    child_past_end_message, fixed_issues, lemma_fixed_reports, lemma_reports_concat, reports,
    reports_all, BuilderError, BuilderErrors, ErrorView, Issue,
};

verus! {

/// The built tracks `after` are `before` with keyframe times shifted.
pub open spec fn tracks_shifted<F: Fn(Seconds) -> Seconds>(
    before: Seq<AnimationTrack>,
    after: Seq<AnimationTrack>,
    shift: F,
) -> bool {
    &&& after.len() == before.len()
    &&& forall|i: int|
        #![trigger after[i]]
        0 <= i < before.len() ==> after[i].property == before[i].property && times_shifted(
            before[i].keyframes@,
            after[i].keyframes@,
            shift,
        )
}

/// `after` is `before` moved on the timeline by `shift`: its start and end
/// times, its keyframe times and, recursively, its children are shifted;
/// everything else is kept.
pub open spec fn item_shifted<F: Fn(Seconds) -> Seconds>(before: ItemDef, after: ItemDef, shift: F) -> bool
    decreases before,
{
    &&& after.id@ == before.id@
    &&& after.track == before.track
    &&& shift.ensures((before.start_time,), after.start_time)
    &&& shift.ensures((before.end_time,), after.end_time)
    &&& after.z_index == before.z_index
    &&& after.sizing == before.sizing
    &&& after.pivot == before.pivot
    &&& tracks_shifted(before.animations@, after.animations@, shift)
    &&& match before.content {
        ItemContent::Image { path } => after.content matches ItemContent::Image { path: moved } && moved@ == path@,
        ItemContent::Group { children } => match after.content {
            ItemContent::Group { children: moved } => moved@.len() == children@.len() && forall|i: int|
                #![trigger moved@[i]]
                0 <= i < children@.len() ==> item_shifted(children@[i], moved@[i], shift),
            _ => false,
        },
    }
}

/// Built tracks with their keyframe times shifted.
fn shift_tracks<F: Fn(Seconds) -> Seconds>(tracks: Vec<AnimationTrack>, shift: &F) -> (r: Vec<AnimationTrack>)
    requires
        forall|t: Seconds| shift.requires((t,)),
    ensures
        tracks_shifted(tracks@, r@, *shift),
{
    let ghost orig = tracks@;
    let mut tracks = tracks;
    let mut out: Vec<AnimationTrack> = Vec::new();
    let n: usize = tracks.len();
    let mut i: usize = 0;
    while i < n
        invariant
            n == orig.len(),
            i <= n,
            tracks@ == orig.skip(i as int),
            out@.len() == i,
            forall|t: Seconds| shift.requires((t,)),
            forall|j: int|
                #![trigger out@[j]]
                0 <= j < i ==> out@[j].property == orig[j].property && times_shifted(
                    orig[j].keyframes@,
                    out@[j].keyframes@,
                    *shift,
                ),
        decreases n - i,
    {
        let t = tracks.remove(0);
        proof {
            assert(t == orig[i as int]);
            assert(tracks@ =~= orig.skip(i + 1));
        }
        let AnimationTrack { property, keyframes } = t;
        let shifted = AnimBuilder::from_keyframes(property, keyframes).with_time_offset(shift).build();
        let ghost prev = out@;
        out.push(shifted);
        proof {
            assert forall|j: int| #![trigger out@[j]] 0 <= j < i + 1 implies out@[j].property
                == orig[j].property && times_shifted(orig[j].keyframes@, out@[j].keyframes@, *shift) by {
                if j < i {
                    assert(out@[j] == prev[j]);
                }
            }
        }
        i = i + 1;
    }
    out
}

impl ItemDef {
    /// The item moved on the timeline by `shift` (adding an offset), with
    /// its children moved recursively (see [`item_shifted`]).
    pub fn with_time_offset<F: Fn(Seconds) -> Seconds>(self, shift: &F) -> (r: ItemDef)
        requires
            forall|t: Seconds| shift.requires((t,)),
        ensures
            item_shifted(self, r, *shift),
        decreases self,
    {
        let ghost before = self;
        let ItemDef { id, content, track, start_time, end_time, z_index, sizing, pivot, animations } =
            self;
        let content = match content {
            ItemContent::Image { path } => ItemContent::Image { path },
            ItemContent::Group { children } => {
                let ghost orig = children@;
                proof {
                    assert(decreases_to!(before => children));
                }
                let mut children = children;
                let mut moved: Vec<ItemDef> = Vec::new();
                let n: usize = children.len();
                let mut i: usize = 0;
                #[verifier::loop_isolation(false)]
                while i < n
                    invariant
                        n == orig.len(),
                        i <= n,
                        children@ == orig.skip(i as int),
                        moved@.len() == i,
                        forall|t: Seconds| shift.requires((t,)),
                        forall|k: int| 0 <= k < orig.len() ==> decreases_to!(before => #[trigger] orig[k]),
                        forall|j: int|
                            #![trigger moved@[j]]
                            0 <= j < i ==> item_shifted(orig[j], moved@[j], *shift),
                    decreases n - i,
                {
                    let c = children.remove(0);
                    proof {
                        assert(c == orig[i as int]);
                        assert(children@ =~= orig.skip(i + 1));
                        assert(decreases_to!(before => orig[i as int]));
                        assert(decreases_to!(before => c));
                    }
                    let m = c.with_time_offset(shift);
                    let ghost prev = moved@;
                    moved.push(m);
                    proof {
                        assert forall|j: int| #![trigger moved@[j]] 0 <= j < i + 1 implies item_shifted(
                            orig[j],
                            moved@[j],
                            *shift,
                        ) by {
                            if j < i {
                                assert(moved@[j] == prev[j]);
                            }
                        }
                    }
                    i = i + 1;
                }
                ItemContent::Group { children: moved }
            },
        };
        ItemDef {
            id,
            content,
            track,
            start_time: shift(start_time),
            end_time: shift(end_time),
            z_index,
            sizing,
            pivot,
            animations: shift_tracks(animations, shift),
        }
    }
}

} // verus!

verus! {

/// Fields of a group. Required: `id`, `children`, `end_time`; every other
/// field has a default. Children are built, already validated items.
#[derive(Debug)]
pub struct GroupParams {
    /// Unique identifier for the group.
    pub id: String,
    /// Pre-built child items.
    pub children: Vec<ItemDef>,
    /// Track lane index. Default 0.
    pub track: u32,
    /// Start time in seconds. Default 0.
    pub start_time: Seconds,
    /// End time in seconds.
    pub end_time: Seconds,
    /// Z-order for rendering; higher renders on top. Default 0.
    pub z_index: i32,
    /// Pivot point in [0, 1] relative to the group bounds. Default (0.5, 0.5).
    pub pivot: [Scalar; 2],
}

impl GroupParams {
    /// Group fields with the required values and every default.
    pub fn new(id: &str, children: Vec<ItemDef>, end_time: Seconds) -> (r: GroupParams)
        ensures
            r.id@ == id@,
            r.children == children,
            r.track == 0,
            r.start_time.bits == 0,
            r.end_time == end_time,
            r.z_index == 0,
            r.pivot[0].bits == HALF_BITS,
            r.pivot[1].bits == HALF_BITS,
    {
        GroupParams {
            id: String::from_str(id),
            children,
            track: 0,
            start_time: Seconds::zero(),
            end_time,
            z_index: 0,
            pivot: [Scalar::from_bits(HALF_BITS), Scalar::from_bits(HALF_BITS)],
        }
    }
}

/// The context segment naming a group in error paths.
pub open spec fn group_context(p: GroupParams) -> Seq<char> {
    labelled("group"@, p.id@)
}

/// The error for a group without children.
pub open spec fn no_children_error(ctx: Seq<char>) -> ErrorView {
    ErrorView::plain("group must have at least one child"@).within(ctx)
}

/// One issue per child (of the first `children.len()`) whose end time is
/// not at most the group's end time (a NaN end included).
pub open spec fn overflow_issues(children: Seq<ItemDef>, p: GroupParams) -> Seq<Issue>
    decreases children.len(),
{
    if children.len() == 0 {
        Seq::empty()
    } else {
        let rest = overflow_issues(children.drop_last(), p);
        let c = children.last();
        if !c.end_time.at_most(p.end_time) {
            rest.push(
                Issue::ChildPastGroupEnd {
                    group: group_context(p),
                    child: c.id@,
                    child_end: c.end_time,
                    group_end: p.end_time,
                },
            )
        } else {
            rest
        }
    }
}

/// The issue reported for child `c` of the group `p` ending after it.
pub open spec fn child_past_end(p: GroupParams, c: ItemDef) -> Issue {
    Issue::ChildPastGroupEnd { group: labelled("group"@, p.id@), child: c.id@, child_end: c.end_time, group_end: p.end_time }
}

/// Every child that ends after the group has its issue among the overflow
/// issues, and there are none only when every child ends within the group.
proof fn lemma_overflow_issues(cs: Seq<ItemDef>, p: GroupParams)
    ensures
        forall|k: int| 0 <= k < cs.len() && !(#[trigger] cs[k]).end_time.at_most(p.end_time)
            ==> overflow_issues(cs, p).contains(child_past_end(p, cs[k])),
        overflow_issues(cs, p).len() == 0 <==> forall|k: int| 0 <= k < cs.len() ==> (#[trigger] cs[k]).end_time.at_most(p.end_time),
    decreases cs.len(),
{
    if cs.len() > 0 {
        let rest = cs.drop_last();
        lemma_overflow_issues(rest, p);
        let o = overflow_issues(cs, p);
        let ro = overflow_issues(rest, p);
        let last = cs.len() - 1;
        assert(cs[last] == cs.last());
        assert forall|k: int| 0 <= k < cs.len() && !(#[trigger] cs[k]).end_time.at_most(p.end_time)
            implies o.contains(child_past_end(p, cs[k])) by {
            if k < rest.len() {
                assert(rest[k] == cs[k]);
                let j = choose|j: int| 0 <= j < ro.len() && ro[j] == child_past_end(p, rest[k]);
                assert(o[j] == ro[j]);
            } else {
                assert(o[o.len() - 1] == child_past_end(p, cs[k]));
            }
        }
        if o.len() == 0 {
            assert forall|k: int| 0 <= k < cs.len() implies (#[trigger] cs[k]).end_time.at_most(p.end_time) by {
                if k < rest.len() {
                    assert(rest[k] == cs[k]);
                }
            }
        }
        if forall|k: int| 0 <= k < cs.len() ==> (#[trigger] cs[k]).end_time.at_most(p.end_time) {
            assert forall|k: int| 0 <= k < rest.len() implies (#[trigger] rest[k]).end_time.at_most(p.end_time) by {
                assert(cs[k].end_time.at_most(p.end_time));
            }
            assert(cs[last].end_time.at_most(p.end_time));
        }
    }
}

/// A group builds exactly when its start is before its end, it has a
/// child, every child ends within it and every animation has a keyframe;
/// each child that ends after the group is reported by name.
pub proof fn law_group_children_within(g: GroupBuilder)
    ensures
        group_issues(g.fields(), g.animations()).len() == 0 <==> {
            &&& g.fields().start_time.below(g.fields().end_time)
            &&& g.fields().children@.len() > 0
            &&& forall|k: int| 0 <= k < g.fields().children@.len()
                ==> (#[trigger] g.fields().children@[k]).end_time.at_most(g.fields().end_time)
            &&& forall|j: int| 0 <= j < g.animations().len() ==> (#[trigger] g.animations()[j]).keyframes.len() > 0
        },
        group_issues(g.fields(), g.animations()).len() == 0 ==> {
            &&& g.fields().start_time.below(g.fields().end_time)
            &&& g.fields().children@.len() > 0
            &&& forall|k: int| 0 <= k < g.fields().children@.len()
                ==> (#[trigger] g.fields().children@[k]).end_time.at_most(g.fields().end_time)
        },
        forall|k: int| 0 <= k < g.fields().children@.len() && !(#[trigger] g.fields().children@[k]).end_time.at_most(
            g.fields().end_time,
        ) ==> group_issues(g.fields(), g.animations()).contains(child_past_end(g.fields(), g.fields().children@[k])),
{
    let p = g.fields();
    let anims = g.animations();
    lemma_overflow_issues(p.children@, p);
    law_empty_animations_reported(anims, group_context(p));
    let time = if !p.start_time.below(p.end_time) {
        seq![time_range_error(group_context(p))]
    } else {
        Seq::empty()
    };
    let empty = if p.children@.len() == 0 {
        seq![no_children_error(group_context(p))]
    } else {
        Seq::empty()
    };
    let pre = fixed_issues(time) + fixed_issues(empty);
    let o = overflow_issues(p.children@, p);
    let post = fixed_issues(empty_animation_errors(anims, group_context(p)));
    assert(group_issues(p, anims) == pre + o + post);
    assert forall|k: int| 0 <= k < p.children@.len() && !(#[trigger] p.children@[k]).end_time.at_most(p.end_time)
        implies group_issues(p, anims).contains(child_past_end(p, p.children@[k])) by {
        let j = choose|j: int| 0 <= j < o.len() && o[j] == child_past_end(p, p.children@[k]);
        assert(group_issues(p, anims)[pre.len() + j] == o[j]);
    }
}

/// Every issue of a group, in the order it is reported.
pub open spec fn group_issues(p: GroupParams, anims: Seq<TrackView>) -> Seq<Issue> {
    let ctx = group_context(p);
    let time = if !p.start_time.below(p.end_time) {
        seq![time_range_error(ctx)]
    } else {
        Seq::empty()
    };
    let empty = if p.children@.len() == 0 {
        seq![no_children_error(ctx)]
    } else {
        Seq::empty()
    };
    fixed_issues(time) + fixed_issues(empty) + overflow_issues(p.children@, p) + fixed_issues(
        empty_animation_errors(anims, ctx),
    )
}

/// `item` is the group built from `p` with animations `anims`.
pub open spec fn is_group_item(item: ItemDef, p: GroupParams, anims: Seq<TrackView>) -> bool {
    &&& item.id@ == p.id@
    &&& (item.content matches ItemContent::Group { children } && children == p.children)
    &&& item.track == p.track
    &&& item.start_time == p.start_time
    &&& item.end_time == p.end_time
    &&& item.z_index == p.z_index
    &&& item.sizing == Sizing::Natural
    &&& item.pivot == p.pivot
    &&& track_views(item.animations@) == anims
}

/// `after` is the group `before` moved on the timeline by `shift`: its
/// start and end times, its keyframe times and, recursively, its children
/// are shifted; everything else is kept.
pub open spec fn group_moved<F: Fn(Seconds) -> Seconds>(before: GroupBuilder, after: GroupBuilder, shift: F) -> bool {
    &&& shift.ensures((before.fields().start_time,), after.fields().start_time)
    &&& shift.ensures((before.fields().end_time,), after.fields().end_time)
    &&& after.fields().id == before.fields().id
    &&& after.fields().track == before.fields().track
    &&& after.fields().z_index == before.fields().z_index
    &&& after.fields().pivot == before.fields().pivot
    &&& after.fields().children@.len() == before.fields().children@.len()
    &&& forall|i: int|
        #![trigger after.fields().children@[i]]
        0 <= i < before.fields().children@.len() ==> item_shifted(
            before.fields().children@[i],
            after.fields().children@[i],
            shift,
        )
    &&& after.animations().len() == before.animations().len()
    &&& forall|i: int|
        #![trigger after.animations()[i]]
        0 <= i < before.animations().len() ==> after.animations()[i].property == before.animations()[i].property
            && times_shifted(before.animations()[i].keyframes, after.animations()[i].keyframes, shift)
}

/// Builder for a group item with optional animations.
pub struct GroupBuilder {
    params: GroupParams,
    anim_builders: Vec<AnimBuilder>,
}

impl GroupBuilder {
    /// The group fields.
    pub closed spec fn fields(&self) -> GroupParams {
        self.params
    }

    /// The accumulated animations.
    pub closed spec fn animations(&self) -> Seq<TrackView> {
        builder_views(self.anim_builders@)
    }

    /// Creates a builder from group fields, with no animations.
    pub fn new(params: GroupParams) -> (r: GroupBuilder)
        ensures
            r.fields() == params,
            r.animations() == Seq::<TrackView>::empty(),
    {
        let r = GroupBuilder { params, anim_builders: Vec::new() };
        proof {
            assert(r.animations() =~= Seq::<TrackView>::empty());
        }
        r
    }

    /// Appends an animation; it is built and validated by [`GroupBuilder::build`].
    pub fn add_animation(self, anim: AnimBuilder) -> (r: GroupBuilder)
        ensures
            r.fields() == self.fields(),
            r.animations() == self.animations().push(anim@),
    {
        let mut r = self;
        r.anim_builders.push(anim);
        proof {
            assert(r.animations() =~= self.animations().push(anim@));
        }
        r
    }

    /// Read-only access to the group fields.
    pub fn params(&self) -> (r: &GroupParams)
        ensures
            *r == self.fields(),
    {
        &self.params
    }

    /// The group moved on the timeline by `shift` (adding an offset): its
    /// start and end times, its keyframe times and, recursively, its
    /// children are shifted.
    pub fn with_offset<F: Fn(Seconds) -> Seconds>(self, shift: &F) -> (r: GroupBuilder)
        requires
            forall|t: Seconds| shift.requires((t,)),
        ensures
            group_moved(self, r, *shift),
    {
        let GroupBuilder { params, anim_builders } = self;
        let GroupParams { id, children, track, start_time, end_time, z_index, pivot } = params;
        let ghost orig = children@;
        let mut children = children;
        let mut moved: Vec<ItemDef> = Vec::new();
        let n: usize = children.len();
        let mut i: usize = 0;
        while i < n
            invariant
                n == orig.len(),
                i <= n,
                children@ == orig.skip(i as int),
                moved@.len() == i,
                forall|t: Seconds| shift.requires((t,)),
                forall|j: int|
                    #![trigger moved@[j]]
                    0 <= j < i ==> item_shifted(orig[j], moved@[j], *shift),
            decreases n - i,
        {
            let c = children.remove(0);
            proof {
                assert(c == orig[i as int]);
                assert(children@ =~= orig.skip(i + 1));
            }
            let m = c.with_time_offset(shift);
            let ghost prev = moved@;
            moved.push(m);
            proof {
                assert forall|j: int| #![trigger moved@[j]] 0 <= j < i + 1 implies item_shifted(
                    orig[j],
                    moved@[j],
                    *shift,
                ) by {
                    if j < i {
                        assert(moved@[j] == prev[j]);
                    }
                }
            }
            i = i + 1;
        }
        let params = GroupParams {
            id,
            children: moved,
            track,
            start_time: shift(start_time),
            end_time: shift(end_time),
            z_index,
            pivot,
        };
        GroupBuilder { params, anim_builders: shift_animations(anim_builders, shift) }
    }

    /// Consumes the builder, validates, and returns the group item.
    ///
    /// Validation: `end_time` must be greater than `start_time`; there must
    /// be at least one child; no child may end after the group; every
    /// animation must have at least one keyframe. All issues are collected
    /// (see [`group_issues`]); times in messages are written by `text`.
    pub fn build<F: Fn(Seconds) -> String>(self, text: &F) -> (r: Result<ItemDef, BuilderErrors>)
        requires
            forall|t: Seconds| text.requires((t,)),
        ensures
            match r {
                Ok(item) => group_issues(self.fields(), self.animations()).len() == 0
                    && is_group_item(item, self.fields(), self.animations()),
                Err(e) => group_issues(self.fields(), self.animations()).len() > 0 && reports_all(
                    group_issues(self.fields(), self.animations()),
                    e@,
                    *text,
                ),
            },
    {
        let ghost p0 = self.params;
        let ghost anims0 = self.animations();
        let GroupBuilder { params, anim_builders } = self;
        let ctx = label("group", params.id.as_str());
        let mut fixed = BuilderErrors::new();
        if !params.start_time.lt(&params.end_time) {
            fixed.push(
                BuilderError::new("end_time must be greater than start_time").in_context(
                    ctx.as_str(),
                ),
            );
        }
        if params.children.len() == 0 {
            fixed.push(BuilderError::new("group must have at least one child").in_context(ctx.as_str()));
        }
        let ghost head = fixed@;
        proof {
            lemma_fixed_reports(head, *text);
        }
        let mut overflow = BuilderErrors::new();
        let n: usize = params.children.len();
        let mut i: usize = 0;
        while i < n
            invariant
                n == params.children@.len(),
                i <= n,
                params == p0,
                ctx@ == group_context(p0),
                forall|t: Seconds| text.requires((t,)),
                reports_all(overflow_issues(params.children@.take(i as int), p0), overflow@, *text),
            decreases n - i,
        {
            proof {
                assert(params.children@.take(i + 1).drop_last() =~= params.children@.take(i as int));
            }
            let child = &params.children[i];
            if !child.end_time.le(&params.end_time) {
                let a = text(child.end_time);
                let b = text(params.end_time);
                let mut msg = String::from_str("child \"");
                msg.append(child.id.as_str());
                msg.append("\" end_time (");
                msg.append(a.as_str());
                msg.append(") exceeds group end_time (");
                msg.append(b.as_str());
                msg.append(")");
                let err = BuilderError::new(msg.as_str()).in_context(ctx.as_str());
                let ghost prev = overflow@;
                overflow.push(err);
                proof {
                    let issue = Issue::ChildPastGroupEnd {
                        group: group_context(p0),
                        child: child.id@,
                        child_end: child.end_time,
                        group_end: p0.end_time,
                    };
                    assert(msg@ == child_past_end_message(child.id@, a@, b@));
                    assert(err@ == ErrorView::plain(child_past_end_message(child.id@, a@, b@)).within(
                        group_context(p0),
                    ));
                    assert(err@ == ErrorView::plain(child_past_end_message(child.id@, a@, b@)).within(
                        group_context(p0),
                    ));
                    assert(reports(issue, err@, *text));
                    assert(overflow_issues(params.children@.take(i + 1), p0) == overflow_issues(
                        params.children@.take(i as int),
                        p0,
                    ).push(issue));
                    lemma_reports_concat(
                        overflow_issues(params.children@.take(i as int), p0),
                        prev,
                        seq![issue],
                        seq![err@],
                        *text,
                    );
                    assert(overflow@ =~= prev + seq![err@]);
                    assert(overflow_issues(params.children@.take(i as int), p0) + seq![issue]
                        =~= overflow_issues(params.children@.take(i + 1), p0));
                }
            }
            i = i + 1;
        }
        proof {
            assert(params.children@.take(n as int) =~= params.children@);
        }
        let ghost mid = overflow@;
        let mut anim_errors = BuilderErrors::new();
        let animations = build_animations(anim_builders, ctx.as_str(), &mut anim_errors);
        let ghost tail = anim_errors@;
        proof {
            assert(tail =~= empty_animation_errors(anims0, group_context(p0)));
            lemma_fixed_reports(tail, *text);
            lemma_reports_concat(
                fixed_issues(head),
                head,
                overflow_issues(p0.children@, p0),
                mid,
                *text,
            );
            lemma_reports_concat(
                fixed_issues(head) + overflow_issues(p0.children@, p0),
                head + mid,
                fixed_issues(tail),
                tail,
                *text,
            );
            let time = if !p0.start_time.below(p0.end_time) {
                seq![time_range_error(group_context(p0))]
            } else {
                Seq::empty()
            };
            let empty = if p0.children@.len() == 0 {
                seq![no_children_error(group_context(p0))]
            } else {
                Seq::empty()
            };
            assert(head =~= time + empty);
            assert(fixed_issues(time + empty) =~= fixed_issues(time) + fixed_issues(empty));
        }
        fixed.merge(overflow);
        fixed.merge(anim_errors);
        proof {
            assert(fixed@ =~= head + mid + tail);
        }
        match fixed.into_result() {
            Err(e) => Err(e),
            Ok(()) => Ok(
                ItemDef {
                    id: params.id,
                    content: ItemContent::Group { children: params.children },
                    track: params.track,
                    start_time: params.start_time,
                    end_time: params.end_time,
                    z_index: params.z_index,
                    sizing: Sizing::Natural,
                    pivot: params.pivot,
                    animations,
                },
            ),
        }
    }
}

/// The earliest start time of `items`, as a binary64 `min` fold from
/// positive infinity.
pub open spec fn earliest_start(items: Seq<ItemDef>) -> Seconds
    decreases items.len(),
{
    if items.len() == 0 {
        Seconds { bits: INFINITY_BITS }
    } else {
        earliest_start(items.drop_last()).min_of(items.last().start_time)
    }
}

/// The latest end time of `items`, as a binary64 `max` fold from negative
/// infinity.
pub open spec fn latest_end(items: Seq<ItemDef>) -> Seconds
    decreases items.len(),
{
    if items.len() == 0 {
        Seconds { bits: NEG_INFINITY_BITS }
    } else {
        latest_end(items.drop_last()).max_of(items.last().end_time)
    }
}

/// Moving a clip and then building it gives the built clip moved: where
/// both builds succeed, the item built from the moved clip is the item
/// built from the clip, shifted (see [`item_shifted`]).
pub proof fn law_move_then_build<F: Fn(Seconds) -> Seconds>(
    before: ClipBuilder,
    after: ClipBuilder,
    shift: F,
    built_before: ItemDef,
    built_after: ItemDef,
)
    requires
        clip_moved(before, after, shift),
        is_clip_item(built_before, before.params(), before.animations()),
        is_clip_item(built_after, after.params(), after.animations()),
    ensures
        item_shifted(built_before, built_after, shift),
{
    let tb = built_before.animations@;
    let ta = built_after.animations@;
    assert(tb.len() == track_views(tb).len());
    assert(ta.len() == track_views(ta).len());
    assert forall|i: int| #![trigger ta[i]] 0 <= i < tb.len() implies ta[i].property == tb[i].property
        && times_shifted(tb[i].keyframes@, ta[i].keyframes@, shift) by {
        assert(track_views(tb)[i] == tb[i]@);
        assert(track_views(ta)[i] == ta[i]@);
        assert(after.animations()[i].property == before.animations()[i].property);
    }
    assert(tracks_shifted(tb, ta, shift));
}

/// The earliest start is never NaN and is at most the start of every item
/// whose start is not NaN; likewise the latest end is never NaN and is at
/// least every end that is not NaN. So a group spanning from one to the
/// other covers all its children.
pub proof fn law_span_covers_items(items: Seq<ItemDef>, k: int)
    requires
        0 <= k < items.len(),
    ensures
        !earliest_start(items).nan(),
        !latest_end(items).nan(),
        !items[k].start_time.nan() ==> earliest_start(items).at_most(items[k].start_time),
        !items[k].end_time.nan() ==> items[k].end_time.at_most(latest_end(items)),
    decreases items.len(),
{
    let rest = items.drop_last();
    if k < items.len() - 1 {
        law_span_covers_items(rest, k);
        assert(rest[k] == items[k]);
    } else if rest.len() > 0 {
        law_span_covers_items(rest, 0);
    }
}

/// The earliest start and the latest end of `items`.
pub fn time_span(items: &Vec<ItemDef>) -> (r: (Seconds, Seconds))
    ensures
        r.0 == earliest_start(items@),
        r.1 == latest_end(items@),
{
    let mut start = Seconds::infinity();
    let mut end = Seconds::neg_infinity();
    let n: usize = items.len();
    let mut i: usize = 0;
    while i < n
        invariant
            n == items@.len(),
            i <= n,
            start == earliest_start(items@.take(i as int)),
            end == latest_end(items@.take(i as int)),
        decreases n - i,
    {
        proof {
            assert(items@.take(i + 1).drop_last() =~= items@.take(i as int));
        }
        start = start.min(items[i].start_time);
        end = end.max(items[i].end_time);
        i = i + 1;
    }
    proof {
        assert(items@.take(n as int) =~= items@);
    }
    (start, end)
}

/// The error reported by [`group_from_clips`] when given no clips.
pub open spec fn no_clips_error() -> ErrorView {
    ErrorView::plain("group_from_clips requires at least one clip"@)
}

/// Builds `clips` and wraps them into group fields whose start is the
/// earliest clip start and whose end is the latest clip end.
///
/// Errors: the clips' own build errors if any clip fails; otherwise, when
/// there are no clips, a single error saying at least one is required.
pub fn group_from_clips(id: &str, clips: Vec<ClipBuilder>) -> (r: Result<GroupParams, BuilderErrors>)
    ensures
        match r {
            Ok(p) => clips_errors(clips@).len() == 0 && clips@.len() > 0 && p.id@ == id@
                && are_clip_items(p.children@, clips@) && p.track == 0 && p.start_time
                == earliest_start(p.children@) && p.end_time == latest_end(p.children@) && p.z_index
                == 0 && p.pivot[0].bits == HALF_BITS && p.pivot[1].bits == HALF_BITS,
            Err(e) => if clips_errors(clips@).len() > 0 {
                e@ == clips_errors(clips@)
            } else {
                clips@.len() == 0 && e@ == seq![no_clips_error()]
            },
        },
{
    let (children, errors) = build_clips(clips);
    if !errors.is_empty() {
        return Err(errors);
    }
    if children.len() == 0 {
        let mut errs = BuilderErrors::new();
        errs.push(BuilderError::new("group_from_clips requires at least one clip"));
        return Err(errs);
    }
    let (start_time, end_time) = time_span(&children);
    Ok(
        GroupParams {
            id: String::from_str(id),
            children,
            track: 0,
            start_time,
            end_time,
            z_index: 0,
            pivot: [Scalar::from_bits(HALF_BITS), Scalar::from_bits(HALF_BITS)],
        },
    )
}

} // verus!

verus! {

/// `g` builds without issues.
pub open spec fn group_ok(g: GroupBuilder) -> bool {
    group_issues(g.fields(), g.animations()).len() == 0
}

/// The issues of building each group, concatenated in order.
pub open spec fn groups_issues(groups: Seq<GroupBuilder>) -> Seq<Issue>
    decreases groups.len(),
{
    if groups.len() == 0 {
        Seq::empty()
    } else {
        groups_issues(groups.drop_last()) + group_issues(groups.last().fields(), groups.last().animations())
    }
}

/// The ids and end times of the groups that build without issues, in order.
pub open spec fn ok_group_stamps(groups: Seq<GroupBuilder>) -> Seq<(Seq<char>, Seconds)>
    decreases groups.len(),
{
    if groups.len() == 0 {
        Seq::empty()
    } else {
        let rest = ok_group_stamps(groups.drop_last());
        if group_ok(groups.last()) {
            rest.push((groups.last().fields().id@, groups.last().fields().end_time))
        } else {
            rest
        }
    }
}

/// `items` are the groups built from `groups`, one per group, in order.
pub open spec fn are_group_items(items: Seq<ItemDef>, groups: Seq<GroupBuilder>) -> bool {
    &&& items.len() == groups.len()
    &&& forall|i: int|
        #![trigger items[i]]
        0 <= i < groups.len() ==> is_group_item(items[i], groups[i].fields(), groups[i].animations())
}

/// Builds every group, keeping the items that build and collecting the
/// errors of those that do not.
pub fn build_groups<F: Fn(Seconds) -> String>(groups: Vec<GroupBuilder>, text: &F) -> (r: (
    Vec<ItemDef>,
    BuilderErrors,
))
    requires
        forall|t: Seconds| text.requires((t,)),
    ensures
        reports_all(groups_issues(groups@), r.1@, *text),
        crate::clip_builder::stamps(r.0@) == ok_group_stamps(groups@),
        groups_issues(groups@).len() == 0 ==> are_group_items(r.0@, groups@),
{
    let ghost orig = groups@;
    let mut groups = groups;
    let mut items: Vec<ItemDef> = Vec::new();
    let mut errors = BuilderErrors::new();
    let n: usize = groups.len();
    let mut i: usize = 0;
    while i < n
        invariant
            n == orig.len(),
            i <= n,
            groups@ == orig.skip(i as int),
            forall|t: Seconds| text.requires((t,)),
            reports_all(groups_issues(orig.take(i as int)), errors@, *text),
            crate::clip_builder::stamps(items@) == ok_group_stamps(orig.take(i as int)),
            groups_issues(orig.take(i as int)).len() == 0 ==> are_group_items(items@, orig.take(i as int)),
        decreases n - i,
    {
        let g = groups.remove(0);
        proof {
            assert(g == orig[i as int]);
            assert(groups@ =~= orig.skip(i + 1));
            assert(orig.take(i + 1).drop_last() =~= orig.take(i as int));
        }
        let ghost before = items@;
        let ghost before_errs = errors@;
        match g.build(text) {
            Ok(item) => {
                items.push(item);
                proof {
                    assert(crate::clip_builder::stamps(items@) =~= crate::clip_builder::stamps(before).push(crate::clip_builder::stamp(item)));
                    assert(groups_issues(orig.take(i + 1)) =~= groups_issues(orig.take(i as int)));
                    if groups_issues(orig.take(i + 1)).len() == 0 {
                        assert forall|j: int| #![trigger items@[j]] 0 <= j < i + 1 implies is_group_item(
                            items@[j],
                            orig.take(i + 1)[j].fields(),
                            orig.take(i + 1)[j].animations(),
                        ) by {
                            if j < i {
                                assert(items@[j] == before[j]);
                                assert(orig.take(i + 1)[j] == orig.take(i as int)[j]);
                            }
                        }
                    }
                }
            },
            Err(e) => {
                proof {
                    lemma_reports_concat(
                        groups_issues(orig.take(i as int)),
                        before_errs,
                        group_issues(g.fields(), g.animations()),
                        e@,
                        *text,
                    );
                }
                errors.merge(e);
            },
        }
        i = i + 1;
    }
    proof {
        assert(orig.take(n as int) =~= orig);
    }
    (items, errors)
}

} // verus!
