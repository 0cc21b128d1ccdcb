//! Core editor state: the loaded project, the playhead and the transport.
//!
//! All mutations go through semantic methods. Times are [`Seconds`]; the
//! caller adds the elapsed time to the playhead and hands the sum to
//! [`EditorState::advance_time`], which clamps it and decides whether
//! playback goes on.

use vstd::prelude::*;
use crate::model::Project;
use crate::seconds::{law_clamped_within, Seconds};

verus! {

/// Whether the editor playhead is advancing.
#[derive(Debug, Clone, Copy, PartialEq, Eq, Structural)]
pub enum TransportState {
    /// The playhead is paused.
    Paused,
    /// The playhead is advancing.
    Playing,
}

impl Default for TransportState {
    fn default() -> (r: TransportState)
        ensures
            r == TransportState::Paused,
    {
        TransportState::Paused
    }
}

/// Positive zero seconds.
pub open spec fn zero_seconds() -> Seconds {
    Seconds { bits: 0 }
}

/// Where a seek to `time` puts the playhead with a project of `duration`:
/// `time` clamped to `[0, duration]`, or to 0 when the duration is not
/// positive.
pub open spec fn seek_target(time: Seconds, duration: Seconds) -> Seconds {
    time.clamped(
        zero_seconds(),
        if zero_seconds().below(duration) {
            duration
        } else {
            zero_seconds()
        },
    )
}

/// A seek to a time that is not NaN leaves the playhead within
/// `[0, duration]` (at 0 when the duration is not positive), and a seek to
/// a time already in that range goes exactly there.
pub proof fn law_seek_stays_in_range(time: Seconds, duration: Seconds)
    requires
        !time.nan(),
    ensures
        zero_seconds().at_most(seek_target(time, duration)),
        zero_seconds().below(duration) ==> seek_target(time, duration).at_most(duration),
        !zero_seconds().below(duration) ==> seek_target(time, duration).at_most(zero_seconds()),
        zero_seconds().at_most(time) && time.at_most(duration) ==> seek_target(time, duration) == time,
{
    if zero_seconds().below(duration) {
        law_clamped_within(time, zero_seconds(), duration);
    } else {
        law_clamped_within(time, zero_seconds(), zero_seconds());
    }
}

/// Advancing the playhead by a sum that is not NaN keeps it within
/// `[0, duration]`; playback goes on exactly while it is before the end.
pub proof fn law_advance_stays_in_range(advanced: Seconds, duration: Seconds)
    requires
        zero_seconds().at_most(duration),
        !advanced.nan(),
    ensures
        zero_seconds().at_most(advanced.clamped(zero_seconds(), duration)),
        advanced.clamped(zero_seconds(), duration).at_most(duration),
        advanced.below(duration) && zero_seconds().at_most(advanced) ==> advanced.clamped(zero_seconds(), duration).below(duration),
        duration.at_most(advanced) ==> !advanced.clamped(zero_seconds(), duration).below(duration),
{
    law_clamped_within(advanced, zero_seconds(), duration);
}

/// The state of the editor: the loaded project and its file, the playback
/// position and the transport state.
#[derive(Debug)]
pub struct EditorState {
    project: Option<Project>,
    project_file: Option<String>,
    current_time: Seconds,
    transport: TransportState,
}

impl EditorState {
    /// The loaded project, if any.
    pub closed spec fn loaded(&self) -> Option<Project> {
        self.project
    }

    /// The path of the loaded project's file, if any.
    pub closed spec fn file(&self) -> Option<String> {
        self.project_file
    }

    /// The playback position.
    pub closed spec fn time(&self) -> Seconds {
        self.current_time
    }

    /// The transport state.
    pub closed spec fn transport(&self) -> TransportState {
        self.transport
    }

    /// The loaded project's duration, or zero without a project.
    pub open spec fn project_duration(&self) -> Seconds {
        match self.loaded() {
            Some(p) => p.duration,
            None => zero_seconds(),
        }
    }

    /// An editor with no project, paused at time zero.
    pub fn new() -> (r: EditorState)
        ensures
            r.loaded().is_none(),
            r.file().is_none(),
            r.time() == zero_seconds(),
            r.transport() == TransportState::Paused,
    {
        EditorState {
            project: None,
            project_file: None,
            current_time: Seconds::zero(),
            transport: TransportState::Paused,
        }
    }

    /// Loads a project, resetting the playhead to zero and pausing.
    pub fn load_project(&mut self, project: Project, path: String)
        ensures
            final(self).loaded() == Some(project),
            final(self).file() == Some(path),
            final(self).time() == zero_seconds(),
            final(self).transport() == TransportState::Paused,
    {
        self.project = Some(project);
        self.project_file = Some(path);
        self.current_time = Seconds::zero();
        self.transport = TransportState::Paused;
    }

    /// Whether a project is loaded.
    pub fn has_project(&self) -> (r: bool)
        ensures
            r == self.loaded().is_some(),
    {
        self.project.is_some()
    }

    /// The loaded project, if any.
    pub fn project(&self) -> (r: Option<&Project>)
        ensures
            r.is_some() == self.loaded().is_some(),
            r matches Some(p) ==> self.loaded() == Some(*p),
    {
        self.project.as_ref()
    }

    /// The path of the project file, if any.
    pub fn project_file(&self) -> (r: Option<&String>)
        ensures
            r.is_some() == self.file().is_some(),
            r matches Some(f) ==> self.file() == Some(*f),
    {
        self.project_file.as_ref()
    }

    /// Replaces the project data, keeping its file path, the playhead and
    /// the transport state (used when the file changes on disk).
    pub fn reload_project(&mut self, project: Project)
        ensures
            final(self).loaded() == Some(project),
            final(self).file() == old(self).file(),
            final(self).time() == old(self).time(),
            final(self).transport() == old(self).transport(),
    {
        self.project = Some(project);
    }

    /// The playback position in seconds.
    pub fn current_time(&self) -> (r: Seconds)
        ensures
            r == self.time(),
    {
        self.current_time
    }

    /// The project duration in seconds (zero without a project).
    pub fn duration(&self) -> (r: Seconds)
        ensures
            r == self.project_duration(),
    {
        match &self.project {
            Some(p) => p.duration,
            None => Seconds::zero(),
        }
    }

    /// Moves the playhead to `advanced` (the current time plus the elapsed
    /// delta), clamped to `[0, duration]`. Returns `true` if the playhead is
    /// still before the end, i.e. playback should continue.
    pub fn advance_time(&mut self, advanced: Seconds) -> (r: bool)
        requires
            zero_seconds().at_most(old(self).project_duration()),
        ensures
            final(self).time() == advanced.clamped(zero_seconds(), old(self).project_duration()),
            r == final(self).time().below(old(self).project_duration()),
            final(self).loaded() == old(self).loaded(),
            final(self).file() == old(self).file(),
            final(self).transport() == old(self).transport(),
    {
        let duration = self.duration();
        self.current_time = advanced.clamp(Seconds::zero(), duration);
        self.current_time.lt(&duration)
    }

    /// Seeks to `time`, clamped to `[0, duration]` (to 0 when the duration
    /// is not positive).
    pub fn seek_to(&mut self, time: Seconds)
        ensures
            final(self).time() == seek_target(time, old(self).project_duration()),
            final(self).loaded() == old(self).loaded(),
            final(self).file() == old(self).file(),
            final(self).transport() == old(self).transport(),
    {
        let duration = self.duration();
        let hi = if Seconds::zero().lt(&duration) {
            duration
        } else {
            Seconds::zero()
        };
        self.current_time = time.clamp(Seconds::zero(), hi);
    }

    /// Whether the editor is playing.
    pub fn is_playing(&self) -> (r: bool)
        ensures
            r == (self.transport() == TransportState::Playing),
    {
        match self.transport {
            TransportState::Playing => true,
            TransportState::Paused => false,
        }
    }

    /// Starts playback, if a project is loaded; otherwise nothing changes.
    pub fn start_playback(&mut self)
        ensures
            final(self).transport() == (if old(self).loaded().is_some() {
                TransportState::Playing
            } else {
                old(self).transport()
            }),
            final(self).loaded() == old(self).loaded(),
            final(self).file() == old(self).file(),
            final(self).time() == old(self).time(),
    {
        if self.project.is_some() {
            self.transport = TransportState::Playing;
        }
    }

    /// Pauses playback; the position is kept.
    pub fn stop_playback(&mut self)
        ensures
            final(self).transport() == TransportState::Paused,
            final(self).loaded() == old(self).loaded(),
            final(self).file() == old(self).file(),
            final(self).time() == old(self).time(),
    {
        self.transport = TransportState::Paused;
    }

    /// Pauses playback and resets the position to zero.
    pub fn stop_and_reset(&mut self)
        ensures
            final(self).transport() == TransportState::Paused,
            final(self).time() == zero_seconds(),
            final(self).loaded() == old(self).loaded(),
            final(self).file() == old(self).file(),
    {
        self.transport = TransportState::Paused;
        self.current_time = Seconds::zero();
    }

    /// The transport state.
    pub fn transport_state(&self) -> (r: TransportState)
        ensures
            r == self.transport(),
    {
        self.transport
    }

    /// The project's frames per second (0 without a project).
    pub fn fps(&self) -> (r: u32)
        ensures
            r == (match self.loaded() {
                Some(p) => p.fps,
                None => 0,
            }),
    {
        match &self.project {
            Some(p) => p.fps,
            None => 0,
        }
    }

    /// The project's resolution (0 × 0 without a project).
    pub fn resolution(&self) -> (r: [u32; 2])
        ensures
            r == (match self.loaded() {
                Some(p) => p.resolution,
                None => [0u32, 0u32],
            }),
    {
        match &self.project {
            Some(p) => p.resolution,
            None => [0, 0],
        }
    }
}

} // verus!
