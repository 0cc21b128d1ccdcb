//! Validation error types for the project builder.
//!
//! [`BuilderError`] is one validation failure with optional path context
//! describing where in the project hierarchy it occurred. [`BuilderErrors`]
//! collects many errors for batch reporting, so that a build reports every
//! problem in one pass rather than stopping at the first.

use vstd::prelude::*;
use crate::seconds::Seconds;
use crate::text::{labelled, decimal, decimal_string, joined, join_strings, lemma_joined_prepend, string_views};

verus! {

/// The abstract content of a [`BuilderError`]: its message and its path,
/// outermost segment first.
pub ghost struct ErrorView {
    pub message: Seq<char>,
    pub path: Seq<Seq<char>>,
}

/// The separator between path segments in a rendered error.
pub open spec fn path_separator() -> Seq<char> {
    " → "@
}

impl ErrorView {
    /// An error with a message and no path.
    pub open spec fn plain(message: Seq<char>) -> ErrorView {
        ErrorView { message, path: Seq::empty() }
    }

    /// The same error with `segment` prepended to its path.
    pub open spec fn within(self, segment: Seq<char>) -> ErrorView {
        ErrorView { message: self.message, path: seq![segment] + self.path }
    }

    /// The displayed text: `message`, or `path joined by " → "` then `": "`
    /// then `message`.
    pub open spec fn rendered(self) -> Seq<char> {
        if self.path.len() == 0 {
            self.message
        } else {
            joined(self.path, path_separator()) + ": "@ + self.message
        }
    }
}

/// Rendering an error put in a context: the new segment comes first,
/// followed by `": "` and the message when the error had no path, and
/// otherwise by `" → "` and the error as it rendered before.
pub proof fn law_in_context_rendering(e: ErrorView, segment: Seq<char>)
    ensures
        e.within(segment).rendered() == (if e.path.len() == 0 {
            segment + ": "@ + e.message
        } else {
            segment + path_separator() + e.rendered()
        }),
{
    let w = e.within(segment);
    if e.path.len() == 0 {
        assert(w.path =~= seq![segment]);
        assert(joined(w.path, path_separator()) == segment);
    } else {
        lemma_joined_prepend(segment, e.path, path_separator());
        assert(w.rendered() =~= segment + path_separator() + e.rendered());
    }
}

/// A single validation error with optional path context.
///
/// Path segments describe where in the project hierarchy the error occurred,
/// e.g. `clip "background"` then `animation "opacity"`.
#[derive(Debug)]
pub struct BuilderError {
    message: String,
    path: Vec<String>,
}

impl View for BuilderError {
    type V = ErrorView;

    closed spec fn view(&self) -> ErrorView {
        ErrorView { message: self.message@, path: string_views(self.path@) }
    }
}

impl BuilderError {
    /// Creates a new error with the given message and no path context.
    pub fn new(message: &str) -> (r: BuilderError)
        ensures
            r@ == ErrorView::plain(message@),
    {
        let r = BuilderError { message: String::from_str(message), path: Vec::new() };
        proof {
            assert(r@.path =~= Seq::<Seq<char>>::empty());
        }
        r
    }

    /// Prepends a path segment to provide hierarchical context.
    ///
    /// Call this when propagating an error from a nested builder to its
    /// parent: `new("empty keyframes").in_context("animation \"opacity\"")
    /// .in_context("clip \"background\"")` displays as
    /// `clip "background" → animation "opacity": empty keyframes`.
    pub fn in_context(self, segment: &str) -> (r: BuilderError)
        ensures
            r@ == self@.within(segment@),
    {
        let mut r = self;
        r.path.insert(0, String::from_str(segment));
        proof {
            assert(r@.path =~= seq![segment@] + self@.path);
        }
        r
    }

    /// The error's message, without path context.
    pub fn message(&self) -> (r: &str)
        ensures
            r@ == self@.message,
    {
        self.message.as_str()
    }

    /// The displayed text of the error (see [`ErrorView::rendered`]).
    pub fn to_string(&self) -> (r: String)
        ensures
            r@ == self@.rendered(),
    {
        if self.path.len() == 0 {
            self.message.clone()
        } else {
            let mut r = join_strings(&self.path, " → ");
            r.append(": ");
            r.append(self.message.as_str());
            r
        }
    }
}

/// The views of a sequence of errors.
pub open spec fn error_views(v: Seq<BuilderError>) -> Seq<ErrorView> {
    v.map_values(|e: BuilderError| e@)
}

/// The displayed text of an error list: one line per error, numbered from 1,
/// each line `"  <n>. <error>"`.
pub open spec fn numbered(errs: Seq<ErrorView>) -> Seq<char>
    decreases errs.len(),
{
    if errs.len() == 0 {
        Seq::empty()
    } else {
        let n = (errs.len() - 1) as nat;
        let line = "  "@ + decimal(n + 1) + ". "@ + errs.last().rendered();
        if n == 0 {
            line
        } else {
            numbered(errs.drop_last()) + "\n"@ + line
        }
    }
}

/// Multiple validation errors collected during a build.
///
/// Accumulates errors from all builders rather than failing on the first one,
/// so consumers see every issue in a single pass.
#[derive(Debug)]
pub struct BuilderErrors {
    errors: Vec<BuilderError>,
}

impl View for BuilderErrors {
    type V = Seq<ErrorView>;

    open spec fn view(&self) -> Seq<ErrorView> {
        error_views(self.items())
    }
}

impl BuilderErrors {
    /// The collected errors, in the order they were added.
    pub closed spec fn items(&self) -> Seq<BuilderError> {
        self.errors@
    }

    /// Creates an empty error collection.
    pub fn new() -> (r: BuilderErrors)
        ensures
            r@ == Seq::<ErrorView>::empty(),
    {
        let r = BuilderErrors { errors: Vec::new() };
        proof {
            assert(r@ =~= Seq::<ErrorView>::empty());
        }
        r
    }

    /// Appends a single error to the collection.
    pub fn push(&mut self, error: BuilderError)
        ensures
            final(self)@ == old(self)@.push(error@),
    {
        self.errors.push(error);
        proof {
            assert(self@ =~= old(self)@.push(error@));
        }
    }

    /// Returns `true` if no errors have been collected.
    pub fn is_empty(&self) -> (r: bool)
        ensures
            r == (self@.len() == 0),
    {
        self.errors.is_empty()
    }

    /// The number of collected errors.
    pub fn len(&self) -> (r: usize)
        ensures
            r == self@.len(),
    {
        self.errors.len()
    }

    /// Converts into `Ok(())` if empty, or `Err(self)` if errors were collected.
    pub fn into_result(self) -> (r: Result<(), BuilderErrors>)
        ensures
            self@.len() == 0 ==> r is Ok,
            self@.len() > 0 ==> (r matches Err(e) && e@ == self@),
    {
        if self.errors.is_empty() {
            Ok(())
        } else {
            Err(self)
        }
    }

    /// Merges another [`BuilderErrors`] into this one, appending all its errors.
    pub fn merge(&mut self, other: BuilderErrors)
        ensures
            final(self)@ == old(self)@ + other@,
    {
        let ghost added = other@;
        let mut other = other;
        self.errors.append(&mut other.errors);
        proof {
            assert(self@ =~= old(self)@ + added);
        }
    }

    /// The collected errors, in the order they were added.
    pub fn errors(&self) -> (r: &[BuilderError])
        ensures
            r@ == self.items(),
    {
        self.errors.as_slice()
    }

    /// Returns an iterator over the collected errors, in order.
    pub fn iter(&self) -> (r: std::slice::Iter<'_, BuilderError>)
        ensures
            vstd::std_specs::iter::IteratorSpec::remaining(&r) == self.items().as_ref(),
    {
        broadcast use vstd::std_specs::slice::axiom_spec_slice_iter;
        self.errors.as_slice().iter()
    }

    /// The displayed text of the collection (see [`numbered`]).
    pub fn to_string(&self) -> (r: String)
        ensures
            r@ == numbered(self@),
    {
        let mut res = String::new();
        let n: usize = self.errors.len();
        let mut i: usize = 0;
        while i < n
            invariant
                n == self.errors@.len(),
                i <= n,
                res@ == numbered(self@.take(i as int)),
            decreases n - i,
        {
            proof {
                assert(self@.take(i + 1).drop_last() =~= self@.take(i as int));
                assert(self@.take(i + 1).last() == self.errors@[i as int]@);
            }
            if i > 0 {
                res.append("\n");
            }
            res.append("  ");
            let num = decimal_string(i + 1);
            res.append(num.as_str());
            res.append(". ");
            let line = self.errors[i].to_string();
            res.append(line.as_str());
            i = i + 1;
        }
        proof {
            assert(self@.take(n as int) =~= self@);
        }
        res
    }
}

impl Default for BuilderErrors {
    fn default() -> (r: BuilderErrors)
        ensures
            r@ == Seq::<ErrorView>::empty(),
    {
        BuilderErrors::new()
    }
}

} // verus!

verus! {

/// What a validation error reports. Most errors have a fixed text; those
/// that quote a time carry the time, whose decimal text is produced by the
/// caller-supplied formatter when the error is built.
pub ghost enum Issue {
    /// An error whose message and path are fully determined.
    Fixed(ErrorView),
    /// A group child that ends after its group: path `[group]`.
    ChildPastGroupEnd { group: Seq<char>, child: Seq<char>, child_end: Seconds, group_end: Seconds },
    /// A project item that ends after the project: path `[item "id"]`.
    ItemPastDuration { id: Seq<char>, end: Seconds, duration: Seconds },
    /// A project audio clip that ends after the project: path `[audio clip "id"]`.
    AudioPastDuration { id: Seq<char>, end: Seconds, duration: Seconds },
}

/// The message for a group child that ends after its group.
pub open spec fn child_past_end_message(child: Seq<char>, a: Seq<char>, b: Seq<char>) -> Seq<char> {
    "child \""@ + child + "\" end_time ("@ + a + ") exceeds group end_time ("@ + b + ")"@
}

/// The message for an item that ends after the project.
pub open spec fn item_past_duration_message(a: Seq<char>, b: Seq<char>) -> Seq<char> {
    "item end_time ("@ + a + ") exceeds project duration ("@ + b + ")"@
}

/// The message for an audio clip that ends after the project.
pub open spec fn audio_past_duration_message(a: Seq<char>, b: Seq<char>) -> Seq<char> {
    "audio clip end_time ("@ + a + ") exceeds project duration ("@ + b + ")"@
}

/// `e` reports a time-quoting error: its path is `[ctx]` and its message is
/// `message(a, b)` for texts `a` of `first` and `b` of `second` written by `text`.
pub open spec fn reports_timed<F: Fn(Seconds) -> String>(
    e: ErrorView,
    text: F,
    ctx: Seq<char>,
    first: Seconds,
    second: Seconds,
    message: spec_fn(Seq<char>, Seq<char>) -> Seq<char>,
) -> bool {
    exists|a: String, b: String|
        #![trigger text.ensures((first,), a), text.ensures((second,), b)]
        text.ensures((first,), a) && text.ensures((second,), b) && e == ErrorView::plain(
            message(a@, b@),
        ).within(ctx)
}

/// `e` is an error that reports `issue`, with times written by `text`.
pub open spec fn reports<F: Fn(Seconds) -> String>(issue: Issue, e: ErrorView, text: F) -> bool {
    match issue {
        Issue::Fixed(v) => e == v,
        Issue::ChildPastGroupEnd { group, child, child_end, group_end } => reports_timed(
            e,
            text,
            group,
            child_end,
            group_end,
            |a: Seq<char>, b: Seq<char>| child_past_end_message(child, a, b),
        ),
        Issue::ItemPastDuration { id, end, duration } => reports_timed(
            e,
            text,
            labelled("item"@, id),
            end,
            duration,
            |a: Seq<char>, b: Seq<char>| item_past_duration_message(a, b),
        ),
        Issue::AudioPastDuration { id, end, duration } => reports_timed(
            e,
            text,
            labelled("audio clip"@, id),
            end,
            duration,
            |a: Seq<char>, b: Seq<char>| audio_past_duration_message(a, b),
        ),
    }
}

/// `errs` reports `issues`, one error per issue, in order.
pub open spec fn reports_all<F: Fn(Seconds) -> String>(
    issues: Seq<Issue>,
    errs: Seq<ErrorView>,
    text: F,
) -> bool {
    &&& errs.len() == issues.len()
    &&& forall|i: int| 0 <= i < issues.len() ==> reports(#[trigger] issues[i], errs[i], text)
}

/// Fully determined errors as issues.
pub open spec fn fixed_issues(errs: Seq<ErrorView>) -> Seq<Issue> {
    errs.map_values(|e: ErrorView| Issue::Fixed(e))
}

/// Reports of consecutive issue lists concatenate.
pub proof fn lemma_reports_concat<F: Fn(Seconds) -> String>(
    i1: Seq<Issue>,
    e1: Seq<ErrorView>,
    i2: Seq<Issue>,
    e2: Seq<ErrorView>,
    text: F,
)
    requires
        reports_all(i1, e1, text),
        reports_all(i2, e2, text),
    ensures
        reports_all(i1 + i2, e1 + e2, text),
{
    assert forall|i: int| 0 <= i < (i1 + i2).len() implies reports(#[trigger] (i1 + i2)[i], (e1 + e2)[i], text) by {
        if i < i1.len() {
            assert((i1 + i2)[i] == i1[i]);
            assert((e1 + e2)[i] == e1[i]);
        } else {
            assert((i1 + i2)[i] == i2[i - i1.len()]);
            assert((e1 + e2)[i] == e2[i - i1.len()]);
        }
    }
}

/// Fully determined errors report themselves.
pub proof fn lemma_fixed_reports<F: Fn(Seconds) -> String>(errs: Seq<ErrorView>, text: F)
    ensures
        reports_all(fixed_issues(errs), errs, text),
{
}

} // verus!
