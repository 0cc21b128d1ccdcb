//! Top-level project assembly and validation.
//!
//! [`ProjectParams`] holds the project settings (required ones through
//! [`ProjectParams::new`], the rest with defaults); [`ProjectBuilder`]
//! accumulates clips, groups, pre-built items and audio clips, and
//! [`ProjectBuilder::build`] validates everything in one pass.

use vstd::prelude::*;
use crate::audio_clip_builder::{
    are_audio_clips, audio_ok, audio_stamps, audios_errors, build_audio_clips, ok_audio_stamps,
    AudioClipBuilder,
};
use crate::clip_builder::{
    are_clip_items, build_clips, clip_moved, clip_ok, clips_errors, is_clip_item, ok_clip_stamps, stamp, stamps,
    ClipBuilder,
};
use crate::group_builder::{
    are_group_items, build_groups, group_moved, group_ok, groups_issues, is_group_item, ok_group_stamps, GroupBuilder,
};
use crate::model::{AudioClipDef, EncodingConfig, ItemDef, Project};
use crate::seconds::Seconds;
use crate::text::{label, labelled};
use crate::validation::{
    fixed_issues, item_past_duration_message, audio_past_duration_message, lemma_fixed_reports,
    lemma_reports_concat, reports, reports_all, BuilderError, BuilderErrors, ErrorView, Issue,
};

verus! {

/// Project settings. Required: `resolution`, `fps`, `duration`, `output`;
/// `background` and `encoding` have defaults.
pub struct ProjectParams {
    /// Output resolution `[width, height]` in pixels.
    pub resolution: [u32; 2],
    /// Output frames per second.
    pub fps: u32,
    /// Total duration in seconds.
    pub duration: Seconds,
    /// Output file path.
    pub output: String,
    /// Background color `[R, G, B, A]`. Default dark gray `[0x2c, 0x2e, 0x34, 0xff]`.
    pub background: [u8; 4],
    /// Encoding settings. Default [`EncodingConfig::default`].
    pub encoding: EncodingConfig,
}

impl ProjectParams {
    /// Project settings with the required values and every default.
    pub fn new(resolution: [u32; 2], fps: u32, duration: Seconds, output: &str) -> (r: ProjectParams)
        ensures
            r.resolution == resolution,
            r.fps == fps,
            r.duration == duration,
            r.output@ == output@,
            r.background == [0x2cu8, 0x2eu8, 0x34u8, 0xffu8],
            r.encoding.is_default(),
    {
        ProjectParams {
            resolution,
            fps,
            duration,
            output: String::from_str(output),
            background: [0x2c, 0x2e, 0x34, 0xff],
            encoding: EncodingConfig::default(),
        }
    }
}

/// The errors of the project-level settings, in order.
pub open spec fn settings_errors(p: ProjectParams) -> Seq<ErrorView> {
    let d = if !(Seconds { bits: 0 }).below(p.duration) {
        seq![ErrorView::plain("duration must be greater than 0"@)]
    } else {
        Seq::empty()
    };
    let f = if p.fps == 0 {
        seq![ErrorView::plain("fps must be greater than 0"@)]
    } else {
        Seq::empty()
    };
    let r = if p.resolution[0] == 0 || p.resolution[1] == 0 {
        seq![ErrorView::plain("resolution width and height must be greater than 0"@)]
    } else {
        Seq::empty()
    };
    d + f + r
}

/// One issue per item (given by id and end time) whose end is not at most
/// `duration` (a NaN end included).
pub open spec fn item_overrun_issues(s: Seq<(Seq<char>, Seconds)>, duration: Seconds) -> Seq<Issue>
    decreases s.len(),
{
    if s.len() == 0 {
        Seq::empty()
    } else {
        let rest = item_overrun_issues(s.drop_last(), duration);
        if !s.last().1.at_most(duration) {
            rest.push(Issue::ItemPastDuration { id: s.last().0, end: s.last().1, duration })
        } else {
            rest
        }
    }
}

/// One issue per audio clip (given by id and end time) whose end is not at
/// most `duration` (a NaN end included).
pub open spec fn audio_overrun_issues(s: Seq<(Seq<char>, Seconds)>, duration: Seconds) -> Seq<Issue>
    decreases s.len(),
{
    if s.len() == 0 {
        Seq::empty()
    } else {
        let rest = audio_overrun_issues(s.drop_last(), duration);
        if !s.last().1.at_most(duration) {
            rest.push(Issue::AudioPastDuration { id: s.last().0, end: s.last().1, duration })
        } else {
            rest
        }
    }
}

/// Top-level builder assembling a [`Project`] from clips, groups, pre-built
/// items and audio clips.
pub struct ProjectBuilder {
    params: ProjectParams,
    clip_builders: Vec<ClipBuilder>,
    audio_clip_builders: Vec<AudioClipBuilder>,
    group_builders: Vec<GroupBuilder>,
    items: Vec<ItemDef>,
}

impl ProjectBuilder {
    /// The project settings.
    pub closed spec fn settings(&self) -> ProjectParams {
        self.params
    }

    /// The accumulated clip builders.
    pub closed spec fn clips(&self) -> Seq<ClipBuilder> {
        self.clip_builders@
    }

    /// The accumulated audio clip builders.
    pub closed spec fn audio_clips(&self) -> Seq<AudioClipBuilder> {
        self.audio_clip_builders@
    }

    /// The accumulated group builders.
    pub closed spec fn groups(&self) -> Seq<GroupBuilder> {
        self.group_builders@
    }

    /// The accumulated pre-built items.
    pub closed spec fn prebuilt(&self) -> Seq<ItemDef> {
        self.items@
    }

    /// The ids and end times of the items a build produces: built clips,
    /// then built groups, then pre-built items.
    pub open spec fn item_stamps(&self) -> Seq<(Seq<char>, Seconds)> {
        ok_clip_stamps(self.clips()) + ok_group_stamps(self.groups()) + stamps(self.prebuilt())
    }

    /// Every issue of the project, in the order it is reported: settings,
    /// clips, groups, audio clips, then (only for a positive duration) the
    /// items and audio clips that end after the project.
    pub open spec fn issues(&self) -> Seq<Issue> {
        let p = self.settings();
        let overrun = if (Seconds { bits: 0 }).below(p.duration) {
            item_overrun_issues(self.item_stamps(), p.duration) + audio_overrun_issues(
                ok_audio_stamps(self.audio_clips()),
                p.duration,
            )
        } else {
            Seq::empty()
        };
        fixed_issues(settings_errors(p)) + fixed_issues(clips_errors(self.clips())) + groups_issues(
            self.groups(),
        ) + fixed_issues(audios_errors(self.audio_clips())) + overrun
    }

    /// Creates a builder with the given settings and nothing on the timeline.
    pub fn new(params: ProjectParams) -> (r: ProjectBuilder)
        ensures
            r.settings() == params,
            r.clips() == Seq::<ClipBuilder>::empty(),
            r.audio_clips() == Seq::<AudioClipBuilder>::empty(),
            r.groups() == Seq::<GroupBuilder>::empty(),
            r.prebuilt() == Seq::<ItemDef>::empty(),
    {
        ProjectBuilder {
            params,
            clip_builders: Vec::new(),
            audio_clip_builders: Vec::new(),
            group_builders: Vec::new(),
            items: Vec::new(),
        }
    }

    /// Appends a clip builder.
    pub fn add_clip(self, clip: ClipBuilder) -> (r: ProjectBuilder)
        ensures
            r.settings() == self.settings(),
            r.clips() == self.clips().push(clip),
            r.audio_clips() == self.audio_clips(),
            r.groups() == self.groups(),
            r.prebuilt() == self.prebuilt(),
    {
        let mut r = self;
        r.clip_builders.push(clip);
        r
    }

    /// Appends several clip builders, in order, without moving them in time.
    pub fn add_clips(self, clips: Vec<ClipBuilder>) -> (r: ProjectBuilder)
        ensures
            r.settings() == self.settings(),
            r.clips() == self.clips() + clips@,
            r.audio_clips() == self.audio_clips(),
            r.groups() == self.groups(),
            r.prebuilt() == self.prebuilt(),
    {
        let mut r = self;
        let mut clips = clips;
        r.clip_builders.append(&mut clips);
        r
    }

    /// Moves each clip by `shift` (adding an offset, see
    /// [`ClipBuilder::with_offset`]) and appends them, in order.
    pub fn add_clips_at<F: Fn(Seconds) -> Seconds>(self, shift: &F, clips: Vec<ClipBuilder>) -> (r:
        ProjectBuilder)
        requires
            forall|t: Seconds| shift.requires((t,)),
        ensures
            r.settings() == self.settings(),
            r.clips().len() == self.clips().len() + clips@.len(),
            r.clips().take(self.clips().len() as int) == self.clips(),
            forall|i: int|
                #![trigger r.clips()[self.clips().len() + i]]
                0 <= i < clips@.len() ==> clip_moved(clips@[i], r.clips()[self.clips().len() + i], *shift),
            r.audio_clips() == self.audio_clips(),
            r.groups() == self.groups(),
            r.prebuilt() == self.prebuilt(),
    {
        let ghost orig = clips@;
        let ghost start = self.clip_builders@;
        let mut r = self;
        let mut clips = clips;
        let n: usize = clips.len();
        let mut i: usize = 0;
        while i < n
            invariant
                n == orig.len(),
                i <= n,
                clips@ == orig.skip(i as int),
                r.params == self.params,
                r.audio_clip_builders == self.audio_clip_builders,
                r.group_builders == self.group_builders,
                r.items == self.items,
                r.clip_builders@.len() == start.len() + i,
                r.clip_builders@.take(start.len() as int) == start,
                forall|t: Seconds| shift.requires((t,)),
                forall|j: int|
                    #![trigger r.clip_builders@[start.len() + j]]
                    0 <= j < i ==> clip_moved(orig[j], r.clip_builders@[start.len() + j], *shift),
            decreases n - i,
        {
            let c = clips.remove(0);
            proof {
                assert(c == orig[i as int]);
                assert(clips@ =~= orig.skip(i + 1));
            }
            let moved = c.with_offset(shift);
            let ghost prev = r.clip_builders@;
            r.clip_builders.push(moved);
            proof {
                assert(r.clip_builders@.take(start.len() as int) =~= prev.take(start.len() as int));
                assert forall|j: int| #![trigger r.clip_builders@[start.len() + j]] 0 <= j < i + 1 implies clip_moved(
                    orig[j],
                    r.clip_builders@[start.len() + j],
                    *shift,
                ) by {
                    if j < i {
                        assert(r.clip_builders@[start.len() + j] == prev[start.len() + j]);
                    }
                }
            }
            i = i + 1;
        }
        r
    }

    /// Appends an audio clip builder.
    pub fn add_audio_clip(self, clip: AudioClipBuilder) -> (r: ProjectBuilder)
        ensures
            r.settings() == self.settings(),
            r.clips() == self.clips(),
            r.audio_clips() == self.audio_clips().push(clip),
            r.groups() == self.groups(),
            r.prebuilt() == self.prebuilt(),
    {
        let mut r = self;
        r.audio_clip_builders.push(clip);
        r
    }

    /// Appends a group builder.
    pub fn add_group(self, group: GroupBuilder) -> (r: ProjectBuilder)
        ensures
            r.settings() == self.settings(),
            r.clips() == self.clips(),
            r.audio_clips() == self.audio_clips(),
            r.groups() == self.groups().push(group),
            r.prebuilt() == self.prebuilt(),
    {
        let mut r = self;
        r.group_builders.push(group);
        r
    }

    /// Appends a pre-built item; it is checked against the project duration
    /// by [`ProjectBuilder::build`].
    pub fn add_item(self, item: ItemDef) -> (r: ProjectBuilder)
        ensures
            r.settings() == self.settings(),
            r.clips() == self.clips(),
            r.audio_clips() == self.audio_clips(),
            r.groups() == self.groups(),
            r.prebuilt() == self.prebuilt().push(item),
    {
        let mut r = self;
        r.items.push(item);
        r
    }

    /// Moves each group by `shift` (adding an offset, see
    /// [`GroupBuilder::with_offset`]) and appends them, in order.
    pub fn add_groups_at<F: Fn(Seconds) -> Seconds>(self, shift: &F, groups: Vec<GroupBuilder>) -> (r:
        ProjectBuilder)
        requires
            forall|t: Seconds| shift.requires((t,)),
        ensures
            r.settings() == self.settings(),
            r.groups().len() == self.groups().len() + groups@.len(),
            r.groups().take(self.groups().len() as int) == self.groups(),
            forall|i: int|
                #![trigger r.groups()[self.groups().len() + i]]
                0 <= i < groups@.len() ==> group_moved(groups@[i], r.groups()[self.groups().len() + i], *shift),
            r.clips() == self.clips(),
            r.audio_clips() == self.audio_clips(),
            r.prebuilt() == self.prebuilt(),
    {
        let ghost orig = groups@;
        let ghost start = self.group_builders@;
        let mut r = self;
        let mut groups = groups;
        let n: usize = groups.len();
        let mut i: usize = 0;
        while i < n
            invariant
                n == orig.len(),
                i <= n,
                groups@ == orig.skip(i as int),
                r.params == self.params,
                r.audio_clip_builders == self.audio_clip_builders,
                r.clip_builders == self.clip_builders,
                r.items == self.items,
                r.group_builders@.len() == start.len() + i,
                r.group_builders@.take(start.len() as int) == start,
                forall|t: Seconds| shift.requires((t,)),
                forall|j: int|
                    #![trigger r.group_builders@[start.len() + j]]
                    0 <= j < i ==> group_moved(orig[j], r.group_builders@[start.len() + j], *shift),
            decreases n - i,
        {
            let g = groups.remove(0);
            proof {
                assert(g == orig[i as int]);
                assert(groups@ =~= orig.skip(i + 1));
            }
            let moved = g.with_offset(shift);
            let ghost prev = r.group_builders@;
            r.group_builders.push(moved);
            proof {
                assert(r.group_builders@.take(start.len() as int) =~= prev.take(start.len() as int));
                assert forall|j: int| #![trigger r.group_builders@[start.len() + j]] 0 <= j < i + 1 implies group_moved(
                    orig[j],
                    r.group_builders@[start.len() + j],
                    *shift,
                ) by {
                    if j < i {
                        assert(r.group_builders@[start.len() + j] == prev[start.len() + j]);
                    }
                }
            }
            i = i + 1;
        }
        r
    }
}

/// `items` are the project's timeline items: the built clips, the built
/// groups, then the pre-built items.
pub open spec fn are_project_items(items: Seq<ItemDef>, b: ProjectBuilder) -> bool {
    let nc = b.clips().len();
    let ng = b.groups().len();
    &&& items.len() == nc + ng + b.prebuilt().len()
    &&& are_clip_items(items.take(nc as int), b.clips())
    &&& are_group_items(items.subrange(nc as int, (nc + ng) as int), b.groups())
    &&& items.skip((nc + ng) as int) == b.prebuilt()
}

/// A built project lists the built clips in the order they were added,
/// then the built groups in the order they were added, then the pre-built
/// items in the order they were added, however the calls that added them
/// were interleaved.
pub proof fn law_project_item_order(b: ProjectBuilder, items: Seq<ItemDef>, i: int)
    requires
        are_project_items(items, b),
        0 <= i < items.len(),
    ensures
        i < b.clips().len() ==> is_clip_item(items[i], b.clips()[i].params(), b.clips()[i].animations()),
        b.clips().len() <= i < b.clips().len() + b.groups().len() ==> is_group_item(
            items[i],
            b.groups()[i - b.clips().len()].fields(),
            b.groups()[i - b.clips().len()].animations(),
        ),
        b.clips().len() + b.groups().len() <= i ==> items[i] == b.prebuilt()[i - b.clips().len()
            - b.groups().len()],
{
    let nc = b.clips().len() as int;
    let ng = b.groups().len() as int;
    if i < nc {
        assert(items.take(nc)[i] == items[i]);
    } else if i < nc + ng {
        assert(items.subrange(nc, nc + ng)[i - nc] == items[i]);
    } else {
        assert(items.skip(nc + ng)[i - nc - ng] == items[i]);
    }
}

/// A sequence of clips has no errors exactly when each clip builds.
proof fn lemma_clips_clean(cs: Seq<ClipBuilder>)
    ensures
        clips_errors(cs).len() == 0 <==> forall|i: int| 0 <= i < cs.len() ==> #[trigger] clip_ok(cs[i]),
    decreases cs.len(),
{
    if cs.len() > 0 {
        let rest = cs.drop_last();
        lemma_clips_clean(rest);
        assert forall|i: int| 0 <= i < rest.len() implies rest[i] == cs[i] by {}
        assert(cs.last() == cs[cs.len() - 1]);
        if clips_errors(cs).len() == 0 {
            assert forall|i: int| 0 <= i < cs.len() implies #[trigger] clip_ok(cs[i]) by {
                if i < rest.len() {
                    assert(clip_ok(rest[i]));
                }
            }
        }
        if forall|i: int| 0 <= i < cs.len() ==> #[trigger] clip_ok(cs[i]) {
            assert forall|i: int| 0 <= i < rest.len() implies #[trigger] clip_ok(rest[i]) by {
                assert(clip_ok(cs[i]));
            }
            assert(clip_ok(cs[cs.len() - 1]));
        }
    }
}

/// A sequence of groups has no issues exactly when each group builds.
proof fn lemma_groups_clean(gs: Seq<GroupBuilder>)
    ensures
        groups_issues(gs).len() == 0 <==> forall|i: int| 0 <= i < gs.len() ==> #[trigger] group_ok(gs[i]),
    decreases gs.len(),
{
    if gs.len() > 0 {
        let rest = gs.drop_last();
        lemma_groups_clean(rest);
        assert forall|i: int| 0 <= i < rest.len() implies rest[i] == gs[i] by {}
        assert(gs.last() == gs[gs.len() - 1]);
        if groups_issues(gs).len() == 0 {
            assert forall|i: int| 0 <= i < gs.len() implies #[trigger] group_ok(gs[i]) by {
                if i < rest.len() {
                    assert(group_ok(rest[i]));
                }
            }
        }
        if forall|i: int| 0 <= i < gs.len() ==> #[trigger] group_ok(gs[i]) {
            assert forall|i: int| 0 <= i < rest.len() implies #[trigger] group_ok(rest[i]) by {
                assert(group_ok(gs[i]));
            }
            assert(group_ok(gs[gs.len() - 1]));
        }
    }
}

/// A sequence of audio clips has no errors exactly when each one builds.
proof fn lemma_audios_clean(a: Seq<AudioClipBuilder>)
    ensures
        audios_errors(a).len() == 0 <==> forall|i: int| 0 <= i < a.len() ==> #[trigger] audio_ok(a[i]),
    decreases a.len(),
{
    if a.len() > 0 {
        let rest = a.drop_last();
        lemma_audios_clean(rest);
        assert forall|i: int| 0 <= i < rest.len() implies rest[i] == a[i] by {}
        assert(a.last() == a[a.len() - 1]);
        if audios_errors(a).len() == 0 {
            assert forall|i: int| 0 <= i < a.len() implies #[trigger] audio_ok(a[i]) by {
                if i < rest.len() {
                    assert(audio_ok(rest[i]));
                }
            }
        }
        if forall|i: int| 0 <= i < a.len() ==> #[trigger] audio_ok(a[i]) {
            assert forall|i: int| 0 <= i < rest.len() implies #[trigger] audio_ok(rest[i]) by {
                assert(audio_ok(a[i]));
            }
            assert(audio_ok(a[a.len() - 1]));
        }
    }
}

/// Whether every end time in `s` is at most `duration`.
pub open spec fn all_end_within(s: Seq<(Seq<char>, Seconds)>, duration: Seconds) -> bool {
    forall|k: int| 0 <= k < s.len() ==> (#[trigger] s[k]).1.at_most(duration)
}

/// No item overruns exactly when every end is within the duration; the
/// same holds of audio clips.
proof fn lemma_no_overrun(s: Seq<(Seq<char>, Seconds)>, duration: Seconds)
    ensures
        item_overrun_issues(s, duration).len() == 0 <==> all_end_within(s, duration),
        audio_overrun_issues(s, duration).len() == 0 <==> all_end_within(s, duration),
    decreases s.len(),
{
    if s.len() > 0 {
        let rest = s.drop_last();
        lemma_no_overrun(rest, duration);
        assert forall|k: int| 0 <= k < rest.len() implies rest[k] == s[k] by {}
        assert(s.last() == s[s.len() - 1]);
        if all_end_within(s, duration) {
            assert forall|k: int| 0 <= k < rest.len() implies (#[trigger] rest[k]).1.at_most(duration) by {
                assert(s[k].1.at_most(duration));
            }
            assert(s[s.len() - 1].1.at_most(duration));
        }
        if all_end_within(rest, duration) && s.last().1.at_most(duration) {
            assert forall|k: int| 0 <= k < s.len() implies (#[trigger] s[k]).1.at_most(duration) by {
                if k < rest.len() {
                    assert(rest[k].1.at_most(duration));
                }
            }
        }
    }
}

/// A project builds exactly when its duration, frame rate and both
/// resolution dimensions are positive, every clip, group and audio clip
/// builds, and (the duration being positive) every built item, pre-built
/// item and built audio clip ends within the duration.
pub proof fn law_builds_exactly_when_valid(b: ProjectBuilder)
    ensures
        b.issues().len() == 0 <==> {
            &&& (Seconds { bits: 0 }).below(b.settings().duration)
            &&& b.settings().fps > 0
            &&& b.settings().resolution[0] > 0
            &&& b.settings().resolution[1] > 0
            &&& forall|i: int| 0 <= i < b.clips().len() ==> #[trigger] clip_ok(b.clips()[i])
            &&& forall|i: int| 0 <= i < b.groups().len() ==> #[trigger] group_ok(b.groups()[i])
            &&& forall|i: int| 0 <= i < b.audio_clips().len() ==> #[trigger] audio_ok(b.audio_clips()[i])
            &&& all_end_within(b.item_stamps(), b.settings().duration)
            &&& all_end_within(ok_audio_stamps(b.audio_clips()), b.settings().duration)
        },
{
    let p = b.settings();
    lemma_clips_clean(b.clips());
    lemma_groups_clean(b.groups());
    lemma_audios_clean(b.audio_clips());
    lemma_no_overrun(b.item_stamps(), p.duration);
    lemma_no_overrun(ok_audio_stamps(b.audio_clips()), p.duration);
    assert(settings_errors(p).len() == 0 <==> ((Seconds { bits: 0 }).below(p.duration) && p.fps > 0
        && p.resolution[0] > 0 && p.resolution[1] > 0));
}

/// When every clip builds, the built clips' stamps are those of all clips.
proof fn lemma_all_clip_stamps(cs: Seq<ClipBuilder>)
    requires
        forall|i: int| 0 <= i < cs.len() ==> #[trigger] clip_ok(cs[i]),
    ensures
        ok_clip_stamps(cs).len() == cs.len(),
        forall|i: int| 0 <= i < cs.len() ==> (#[trigger] ok_clip_stamps(cs)[i]) == (cs[i].params().id@, cs[i].params().end_time),
    decreases cs.len(),
{
    if cs.len() > 0 {
        let rest = cs.drop_last();
        assert forall|i: int| 0 <= i < rest.len() implies #[trigger] clip_ok(rest[i]) by {
            assert(rest[i] == cs[i]);
        }
        lemma_all_clip_stamps(rest);
        assert(clip_ok(cs[cs.len() - 1]));
        assert(cs.last() == cs[cs.len() - 1]);
        assert forall|i: int| 0 <= i < cs.len() implies (#[trigger] ok_clip_stamps(cs)[i]) == (cs[i].params().id@, cs[i].params().end_time) by {
            if i < rest.len() {
                assert(rest[i] == cs[i]);
                assert(ok_clip_stamps(cs)[i] == ok_clip_stamps(rest)[i]);
            }
        }
    }
}

/// When every group builds, the built groups' stamps are those of all groups.
proof fn lemma_all_group_stamps(gs: Seq<GroupBuilder>)
    requires
        forall|i: int| 0 <= i < gs.len() ==> #[trigger] group_ok(gs[i]),
    ensures
        ok_group_stamps(gs).len() == gs.len(),
        forall|i: int| 0 <= i < gs.len() ==> (#[trigger] ok_group_stamps(gs)[i]) == (gs[i].fields().id@, gs[i].fields().end_time),
    decreases gs.len(),
{
    if gs.len() > 0 {
        let rest = gs.drop_last();
        assert forall|i: int| 0 <= i < rest.len() implies #[trigger] group_ok(rest[i]) by {
            assert(rest[i] == gs[i]);
        }
        lemma_all_group_stamps(rest);
        assert(group_ok(gs[gs.len() - 1]));
        assert(gs.last() == gs[gs.len() - 1]);
        assert forall|i: int| 0 <= i < gs.len() implies (#[trigger] ok_group_stamps(gs)[i]) == (gs[i].fields().id@, gs[i].fields().end_time) by {
            if i < rest.len() {
                assert(rest[i] == gs[i]);
                assert(ok_group_stamps(gs)[i] == ok_group_stamps(rest)[i]);
            }
        }
    }
}

/// When every audio clip builds, the built clips' stamps are those of all.
proof fn lemma_all_audio_stamps(a: Seq<AudioClipBuilder>)
    requires
        forall|i: int| 0 <= i < a.len() ==> #[trigger] audio_ok(a[i]),
    ensures
        ok_audio_stamps(a).len() == a.len(),
        forall|i: int| 0 <= i < a.len() ==> (#[trigger] ok_audio_stamps(a)[i]) == (a[i].params().id@, a[i].params().end_time),
    decreases a.len(),
{
    if a.len() > 0 {
        let rest = a.drop_last();
        assert forall|i: int| 0 <= i < rest.len() implies #[trigger] audio_ok(rest[i]) by {
            assert(rest[i] == a[i]);
        }
        lemma_all_audio_stamps(rest);
        assert(audio_ok(a[a.len() - 1]));
        assert(a.last() == a[a.len() - 1]);
        assert forall|i: int| 0 <= i < a.len() implies (#[trigger] ok_audio_stamps(a)[i]) == (a[i].params().id@, a[i].params().end_time) by {
            if i < rest.len() {
                assert(rest[i] == a[i]);
                assert(ok_audio_stamps(a)[i] == ok_audio_stamps(rest)[i]);
            }
        }
    }
}

/// In a project that builds, every timeline item and every audio clip ends
/// within the project's duration, and the duration is positive.
pub proof fn law_built_project_within_duration(b: ProjectBuilder, items: Seq<ItemDef>, audio: Seq<AudioClipDef>)
    requires
        b.issues().len() == 0,
        are_project_items(items, b),
        are_audio_clips(audio, b.audio_clips()),
    ensures
        (Seconds { bits: 0 }).below(b.settings().duration),
        forall|k: int| 0 <= k < items.len() ==> (#[trigger] items[k]).end_time.at_most(b.settings().duration),
        forall|k: int| 0 <= k < audio.len() ==> (#[trigger] audio[k]).end_time.at_most(b.settings().duration),
{
    law_builds_exactly_when_valid(b);
    let d = b.settings().duration;
    let cs = b.clips();
    let gs = b.groups();
    let nc = cs.len() as int;
    let ng = gs.len() as int;
    lemma_all_clip_stamps(cs);
    lemma_all_group_stamps(gs);
    lemma_all_audio_stamps(b.audio_clips());
    let st = b.item_stamps();
    assert forall|k: int| 0 <= k < items.len() implies (#[trigger] items[k]).end_time.at_most(d) by {
        assert(st[k].1.at_most(d));
        if k < nc {
            assert(items.take(nc)[k] == items[k]);
            assert(is_clip_item(items[k], cs[k].params(), cs[k].animations()));
            assert(st[k] == ok_clip_stamps(cs)[k]);
        } else if k < nc + ng {
            assert(items.subrange(nc, nc + ng)[k - nc] == items[k]);
            assert(is_group_item(items[k], gs[k - nc].fields(), gs[k - nc].animations()));
            assert(st[k] == ok_group_stamps(gs)[k - nc]);
        } else {
            assert(items.skip(nc + ng)[k - nc - ng] == items[k]);
            assert(st[k] == stamps(b.prebuilt())[k - nc - ng]);
        }
    }
    assert forall|k: int| 0 <= k < audio.len() implies (#[trigger] audio[k]).end_time.at_most(d) by {
        assert(ok_audio_stamps(b.audio_clips())[k].1.at_most(d));
    }
}

/// Reports, in order, each item whose end is not at most `duration`.
fn check_item_ends<F: Fn(Seconds) -> String>(
    items: &Vec<ItemDef>,
    duration: Seconds,
    text: &F,
    errors: &mut BuilderErrors,
)
    requires
        forall|t: Seconds| text.requires((t,)),
        reports_all(Seq::<Issue>::empty(), old(errors)@, *text),
    ensures
        reports_all(item_overrun_issues(stamps(items@), duration), final(errors)@, *text),
{
    let n: usize = items.len();
    let mut i: usize = 0;
    while i < n
        invariant
            n == items@.len(),
            i <= n,
            forall|t: Seconds| text.requires((t,)),
            reports_all(item_overrun_issues(stamps(items@).take(i as int), duration), errors@, *text),
        decreases n - i,
    {
        proof {
            assert(stamps(items@).take(i + 1).drop_last() =~= stamps(items@).take(i as int));
            assert(stamps(items@).take(i + 1).last() == stamp(items@[i as int]));
        }
        let item = &items[i];
        if !item.end_time.le(&duration) {
            let a = text(item.end_time);
            let b = text(duration);
            let mut msg = String::from_str("item end_time (");
            msg.append(a.as_str());
            msg.append(") exceeds project duration (");
            msg.append(b.as_str());
            msg.append(")");
            let ctx = label("item", item.id.as_str());
            let err = BuilderError::new(msg.as_str()).in_context(ctx.as_str());
            let ghost prev = errors@;
            errors.push(err);
            proof {
                let issue = Issue::ItemPastDuration { id: item.id@, end: item.end_time, duration };
                assert(msg@ == item_past_duration_message(a@, b@));
                assert(err@ == ErrorView::plain(item_past_duration_message(a@, b@)).within(
                    labelled("item"@, item.id@),
                ));
                assert(reports(issue, err@, *text));
                lemma_reports_concat(
                    item_overrun_issues(stamps(items@).take(i as int), duration),
                    prev,
                    seq![issue],
                    seq![err@],
                    *text,
                );
                assert(errors@ =~= prev + seq![err@]);
                assert(item_overrun_issues(stamps(items@).take(i as int), duration) + seq![issue]
                    =~= item_overrun_issues(stamps(items@).take(i + 1), duration));
            }
        }
        i = i + 1;
    }
    proof {
        assert(stamps(items@).take(n as int) =~= stamps(items@));
    }
}

/// Reports, in order, each audio clip whose end is not at most `duration`.
fn check_audio_ends<F: Fn(Seconds) -> String>(
    clips: &Vec<AudioClipDef>,
    duration: Seconds,
    text: &F,
    errors: &mut BuilderErrors,
)
    requires
        forall|t: Seconds| text.requires((t,)),
        reports_all(Seq::<Issue>::empty(), old(errors)@, *text),
    ensures
        reports_all(audio_overrun_issues(audio_stamps(clips@), duration), final(errors)@, *text),
{
    let n: usize = clips.len();
    let mut i: usize = 0;
    while i < n
        invariant
            n == clips@.len(),
            i <= n,
            forall|t: Seconds| text.requires((t,)),
            reports_all(audio_overrun_issues(audio_stamps(clips@).take(i as int), duration), errors@, *text),
        decreases n - i,
    {
        proof {
            assert(audio_stamps(clips@).take(i + 1).drop_last() =~= audio_stamps(clips@).take(i as int));
        }
        let clip = &clips[i];
        if !clip.end_time.le(&duration) {
            let a = text(clip.end_time);
            let b = text(duration);
            let mut msg = String::from_str("audio clip end_time (");
            msg.append(a.as_str());
            msg.append(") exceeds project duration (");
            msg.append(b.as_str());
            msg.append(")");
            let ctx = label("audio clip", clip.id.as_str());
            let err = BuilderError::new(msg.as_str()).in_context(ctx.as_str());
            let ghost prev = errors@;
            errors.push(err);
            proof {
                let issue = Issue::AudioPastDuration { id: clip.id@, end: clip.end_time, duration };
                assert(msg@ == audio_past_duration_message(a@, b@));
                assert(err@ == ErrorView::plain(audio_past_duration_message(a@, b@)).within(
                    labelled("audio clip"@, clip.id@),
                ));
                assert(reports(issue, err@, *text));
                lemma_reports_concat(
                    audio_overrun_issues(audio_stamps(clips@).take(i as int), duration),
                    prev,
                    seq![issue],
                    seq![err@],
                    *text,
                );
                assert(errors@ =~= prev + seq![err@]);
                assert(audio_overrun_issues(audio_stamps(clips@).take(i as int), duration) + seq![issue]
                    =~= audio_overrun_issues(audio_stamps(clips@).take(i + 1), duration));
            }
        }
        i = i + 1;
    }
    proof {
        assert(audio_stamps(clips@).take(n as int) =~= audio_stamps(clips@));
    }
}

impl ProjectBuilder {
    /// Consumes the builder, validates, and returns the project.
    ///
    /// Validation: the duration must be greater than 0, the fps greater than
    /// 0 and both resolution dimensions greater than 0; every clip, group
    /// and audio clip must build; every item and audio clip must end within
    /// the duration (checked only when the duration is positive). All
    /// issues are collected (see [`ProjectBuilder::issues`]); times in
    /// messages are written by `text`.
    pub fn build<F: Fn(Seconds) -> String>(self, text: &F) -> (r: Result<Project, BuilderErrors>)
        requires
            forall|t: Seconds| text.requires((t,)),
        ensures
            match r {
                Ok(project) => {
                    &&& self.issues().len() == 0
                    &&& project.resolution == self.settings().resolution
                    &&& project.fps == self.settings().fps
                    &&& project.duration == self.settings().duration
                    &&& project.output == self.settings().output
                    &&& project.background == self.settings().background
                    &&& project.encoding == self.settings().encoding
                    &&& are_project_items(project.items@, self)
                    &&& are_audio_clips(project.audio_clips@, self.audio_clips())
                },
                Err(e) => self.issues().len() > 0 && reports_all(self.issues(), e@, *text),
            },
    {
        let ghost this = self;
        let ProjectBuilder { params, clip_builders, audio_clip_builders, group_builders, items } =
            self;
        let mut errors = BuilderErrors::new();
        if !Seconds::zero().lt(&params.duration) {
            errors.push(BuilderError::new("duration must be greater than 0"));
        }
        if params.fps == 0 {
            errors.push(BuilderError::new("fps must be greater than 0"));
        }
        if params.resolution[0] == 0 || params.resolution[1] == 0 {
            errors.push(BuilderError::new("resolution width and height must be greater than 0"));
        }
        let ghost e_settings = errors@;
        proof {
            assert(e_settings =~= settings_errors(params));
        }
        let (mut all_items, clip_errors) = build_clips(clip_builders);
        let ghost clip_items = all_items@;
        let ghost e_clips = clip_errors@;
        let (mut group_items, group_errors) = build_groups(group_builders, text);
        let ghost g_items = group_items@;
        let ghost e_groups = group_errors@;
        let mut prebuilt = items;
        all_items.append(&mut group_items);
        all_items.append(&mut prebuilt);
        let (audio_clips, audio_errors) = build_audio_clips(audio_clip_builders);
        let ghost e_audio = audio_errors@;
        let mut overrun = BuilderErrors::new();
        if Seconds::zero().lt(&params.duration) {
            let mut item_errors = BuilderErrors::new();
            check_item_ends(&all_items, params.duration, text, &mut item_errors);
            let mut audio_end_errors = BuilderErrors::new();
            check_audio_ends(&audio_clips, params.duration, text, &mut audio_end_errors);
            proof {
                lemma_reports_concat(
                    item_overrun_issues(stamps(all_items@), params.duration),
                    item_errors@,
                    audio_overrun_issues(audio_stamps(audio_clips@), params.duration),
                    audio_end_errors@,
                    *text,
                );
            }
            overrun.merge(item_errors);
            overrun.merge(audio_end_errors);
        }
        let ghost e_overrun = overrun@;
        proof {
            assert(all_items@ =~= clip_items + g_items + this.prebuilt());
            assert(stamps(all_items@) =~= stamps(clip_items) + stamps(g_items) + stamps(this.prebuilt()));
            assert(stamps(all_items@) == this.item_stamps());
            let overrun_issues = if (Seconds { bits: 0 }).below(params.duration) {
                item_overrun_issues(this.item_stamps(), params.duration) + audio_overrun_issues(
                    ok_audio_stamps(this.audio_clips()),
                    params.duration,
                )
            } else {
                Seq::empty()
            };
            assert(reports_all(overrun_issues, e_overrun, *text));
            lemma_fixed_reports(e_settings, *text);
            lemma_fixed_reports(e_clips, *text);
            lemma_fixed_reports(e_audio, *text);
            lemma_reports_concat(fixed_issues(e_settings), e_settings, fixed_issues(e_clips), e_clips, *text);
            lemma_reports_concat(
                fixed_issues(e_settings) + fixed_issues(e_clips),
                e_settings + e_clips,
                groups_issues(this.groups()),
                e_groups,
                *text,
            );
            lemma_reports_concat(
                fixed_issues(e_settings) + fixed_issues(e_clips) + groups_issues(this.groups()),
                e_settings + e_clips + e_groups,
                fixed_issues(e_audio),
                e_audio,
                *text,
            );
            lemma_reports_concat(
                fixed_issues(e_settings) + fixed_issues(e_clips) + groups_issues(this.groups())
                    + fixed_issues(e_audio),
                e_settings + e_clips + e_groups + e_audio,
                overrun_issues,
                e_overrun,
                *text,
            );
        }
        errors.merge(clip_errors);
        errors.merge(group_errors);
        errors.merge(audio_errors);
        errors.merge(overrun);
        proof {
            assert(errors@ =~= e_settings + e_clips + e_groups + e_audio + e_overrun);
            if this.issues().len() == 0 {
                assert(clips_errors(this.clips()).len() == 0);
                assert(groups_issues(this.groups()).len() == 0);
                let nc = this.clips().len();
                let ng = this.groups().len();
                assert(all_items@.take(nc as int) =~= clip_items);
                assert(all_items@.subrange(nc as int, (nc + ng) as int) =~= g_items);
                assert(all_items@.skip((nc + ng) as int) =~= this.prebuilt());
            }
        }
        match errors.into_result() {
            Err(e) => Err(e),
            Ok(()) => Ok(
                Project {
                    resolution: params.resolution,
                    fps: params.fps,
                    duration: params.duration,
                    output: params.output,
                    background: params.background,
                    audio_clips,
                    encoding: params.encoding,
                    items: all_items,
                },
            ),
        }
    }
}

} // verus!
