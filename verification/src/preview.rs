//! Preview cache bookkeeping: render progress and the table of rendered
//! frames.
//!
//! Rendering itself (a thread pool driving the frame renderer) is done by
//! the application; [`FrameStore`] is the frame table that a cache keeps,
//! generic over the frame type.

use vstd::prelude::*;
use crate::seconds::Seconds;

verus! {

/// Failed to perform a preview operation.
#[derive(Debug, Clone, Copy, PartialEq, Eq, Structural)]
pub struct PreviewError;

/// Progress of a background render.
#[derive(Debug, Clone, Copy, PartialEq, Eq, Structural)]
pub struct PreviewRenderProgress {
    /// Number of frames rendered so far.
    pub rendered: usize,
    /// Total number of frames to render.
    pub total: usize,
}

impl PreviewRenderProgress {
    /// Whether all frames have been rendered.
    pub fn is_complete(&self) -> (r: bool)
        ensures
            r == (self.rendered == self.total),
    {
        self.rendered == self.total
    }
}

/// Whether a playback time has a preview frame at all: it lies in
/// `[0, duration)`. A NaN time or duration has none.
pub fn frame_time_in_range(time: Seconds, duration: Seconds) -> (r: bool)
    ensures
        r == (Seconds { bits: 0 }.at_most(time) && time.below(duration)),
{
    let zero = Seconds::zero();
    zero.le(&time) && time.lt(&duration)
}

/// Reading a slot after storing a frame in it gives that frame back; the
/// other slots and the number of slots are unchanged.
pub proof fn law_get_after_insert<T>(before: Seq<Option<T>>, index: int, frame: T, other: int)
    requires
        0 <= index < before.len(),
    ensures
        before.update(index, Some(frame)).len() == before.len(),
        before.update(index, Some(frame))[index] == Some(frame),
        0 <= other < before.len() && other != index ==> before.update(index, Some(frame))[other] == before[other],
{
}

/// Starting a new render keeps a frame of the previous one readable in every
/// slot that both renders have.
pub proof fn law_frames_survive_reset<T>(before: Seq<Option<T>>, after: Seq<Option<T>>, count: int, i: int)
    requires
        after.len() == count,
        forall|j: int| 0 <= j < count ==> #[trigger] after[j] == (if j < before.len() {
            before[j]
        } else {
            None
        }),
        0 <= i < count,
        i < before.len(),
    ensures
        after[i] == before[i],
{
    assert(after[i] == before[i]);
}

/// The frames of the current render, indexed by frame number; a slot is
/// `None` until its frame is rendered.
#[derive(Debug)]
pub struct FrameStore<T> {
    frames: Vec<Option<T>>,
}

impl<T> View for FrameStore<T> {
    type V = Seq<Option<T>>;

    closed spec fn view(&self) -> Seq<Option<T>> {
        self.frames@
    }
}

impl<T> FrameStore<T> {
    /// A table with no frames (no render started).
    pub fn new() -> (r: FrameStore<T>)
        ensures
            r@ == Seq::<Option<T>>::empty(),
    {
        FrameStore { frames: Vec::new() }
    }

    /// Starts a new render of `count` frames. Frames of the previous render
    /// stay readable until the new render overwrites them: each slot below
    /// both the old and the new count keeps its frame, and every slot past
    /// the old count starts empty.
    pub fn reset(&mut self, count: usize)
        ensures
            final(self)@.len() == count,
            forall|i: int| 0 <= i < count ==> #[trigger] final(self)@[i] == (if i < old(self)@.len() {
                old(self)@[i]
            } else {
                None
            }),
    {
        let ghost orig = self.frames@;
        self.frames.truncate(count);
        let kept: usize = self.frames.len();
        let mut i: usize = kept;
        while i < count
            invariant
                kept <= i <= count,
                self.frames@.len() == i,
                kept == (if count < orig.len() { count as int } else { orig.len() as int }),
                forall|j: int| 0 <= j < kept ==> self.frames@[j] == orig[j],
                forall|j: int| kept <= j < i ==> self.frames@[j] is None,
            decreases count - i,
        {
            self.frames.push(None);
            i = i + 1;
        }
    }

    /// The number of frames of the current render.
    pub fn len(&self) -> (r: usize)
        ensures
            r == self@.len(),
    {
        self.frames.len()
    }

    /// Stores a rendered frame; an index past the end is ignored. Returns
    /// whether the frame was stored.
    pub fn insert(&mut self, index: usize, frame: T) -> (r: bool)
        ensures
            r == (index < old(self)@.len()),
            r ==> final(self)@ == old(self)@.update(index as int, Some(frame)),
            !r ==> final(self)@ == old(self)@,
    {
        if index < self.frames.len() {
            self.frames.set(index, Some(frame));
            true
        } else {
            false
        }
    }

    /// The frame at `index`, if it is in range and rendered.
    pub fn get(&self, index: usize) -> (r: Option<&T>)
        ensures
            index < self@.len() && self@[index as int] is Some ==> (r matches Some(f) && Some(*f)
                == self@[index as int]),
            !(index < self@.len() && self@[index as int] is Some) ==> r is None,
    {
        if index < self.frames.len() {
            match &self.frames[index] {
                Some(f) => Some(f),
                None => None,
            }
        } else {
            None
        }
    }

    /// For each frame of the current render, whether it is rendered.
    pub fn cached_frames(&self) -> (r: Vec<bool>)
        ensures
            r@.len() == self@.len(),
            forall|i: int| 0 <= i < self@.len() ==> r@[i] == (self@[i] is Some),
    {
        let mut r: Vec<bool> = Vec::new();
        let n: usize = self.frames.len();
        let mut i: usize = 0;
        while i < n
            invariant
                n == self@.len(),
                i <= n,
                r@.len() == i,
                forall|j: int| 0 <= j < i ==> r@[j] == (self@[j] is Some),
            decreases n - i,
        {
            r.push(self.frames[i].is_some());
            i = i + 1;
        }
        r
    }
}

} // verus!
