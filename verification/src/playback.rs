//! Playback coordination: the decisions that tie the editor state to the
//! audio engine and the preview cache.
//!
//! The controller owns the [`EditorState`]; each operation updates it and
//! returns the commands the application must send to the audio engine, in
//! order. Frame lookup and audio I/O are done by the application.

use vstd::prelude::*;
use crate::editor_state::{seek_target, zero_seconds, EditorState, TransportState};
use crate::model::{AudioClipDef, Project};
use crate::preview::PreviewError;
use crate::seconds::{Scalar, Seconds};
use crate::timeline::TimelineAction;
use crate::transport::TransportAction;

verus! {

/// A command for the audio engine.
#[derive(Debug, Clone, Copy, PartialEq, Eq, Structural)]
pub enum AudioCommand {
    Play,
    Pause,
    /// Seek to a position in seconds.
    Seek(Seconds),
    /// Set the playback volume.
    SetVolume(Scalar),
}

/// What the audio engine is doing, as the controller needs to know it.
#[derive(Debug, Clone, Copy, PartialEq, Eq, Structural)]
pub struct AudioStatus {
    /// Audio is loaded (its duration is positive).
    pub loaded: bool,
    /// The engine reports that it is paused.
    pub paused: bool,
}

/// An audio clip as the engine loads it: its file, resolved against the
/// project file, and where and how loud it plays.
#[derive(Debug, Clone)]
pub struct AudioClipInfo {
    pub path: String,
    pub start_time: Seconds,
    pub end_time: Seconds,
    pub volume: Scalar,
}

/// What to do with the project's audio.
#[derive(Debug)]
pub enum AudioPlan {
    /// No project or no project file: nothing.
    Nothing,
    /// The project has no audio clips: pause the engine.
    Pause,
    /// Load these clips, in the project's order.
    Load(Vec<AudioClipInfo>),
}

/// The directory part of a file path: everything up to and including its
/// last `/`; empty when it has none.
pub open spec fn directory_of(file: Seq<char>) -> Seq<char>
    decreases file.len(),
{
    if file.len() == 0 {
        Seq::empty()
    } else if file.last() == '/' {
        file
    } else {
        directory_of(file.drop_last())
    }
}

/// Whether a path is absolute: it starts with `/`.
pub open spec fn is_absolute(path: Seq<char>) -> bool {
    path.len() > 0 && path[0] == '/'
}

/// A clip path resolved against the project file: an absolute path is
/// kept; a relative one is taken from the project file's directory.
pub open spec fn resolved_path(project_file: Seq<char>, clip_path: Seq<char>) -> Seq<char> {
    if is_absolute(clip_path) {
        clip_path
    } else {
        directory_of(project_file) + clip_path
    }
}

/// The directory part of `file` (see [`directory_of`]).
pub fn directory_part(file: &str) -> (r: &str)
    ensures
        r@ == directory_of(file@),
{
    let n: usize = file.unicode_len();
    let mut i: usize = n;
    assert(file@.subrange(0, n as int) =~= file@);
    while i > 0
        invariant
            n == file@.len(),
            i <= n,
            directory_of(file@.subrange(0, i as int)) == directory_of(file@),
        decreases i,
    {
        let ghost prefix = file@.subrange(0, i as int);
        if file.get_char(i - 1) == '/' {
            assert(prefix.last() == '/');
            return file.substring_char(0, i);
        }
        assert(prefix.drop_last() =~= file@.subrange(0, i - 1));
        i = i - 1;
    }
    assert(file@.subrange(0, 0) =~= Seq::<char>::empty());
    file.substring_char(0, 0)
}

/// Resolves a clip path against the project file (see [`resolved_path`]).
pub fn resolve_clip_path(project_file: &str, clip_path: &str) -> (r: String)
    ensures
        r@ == resolved_path(project_file@, clip_path@),
{
    if clip_path.unicode_len() > 0 && clip_path.get_char(0) == '/' {
        String::from_str(clip_path)
    } else {
        let mut r = String::from_str(directory_part(project_file));
        r.append(clip_path);
        r
    }
}

/// `info` is `clip` as the engine loads it, for the project file `file`.
pub open spec fn is_clip_info(info: AudioClipInfo, clip: AudioClipDef, file: Seq<char>) -> bool {
    &&& info.path@ == resolved_path(file, clip.path@)
    &&& info.start_time == clip.start_time
    &&& info.end_time == clip.end_time
    &&& info.volume == clip.volume
}

/// The clips as the engine loads them, paths resolved against
/// `project_file`, in the same order.
pub fn clip_infos(project_file: &String, clips: &Vec<AudioClipDef>) -> (r: Vec<AudioClipInfo>)
    ensures
        r@.len() == clips@.len(),
        forall|i: int| #![trigger r@[i]] 0 <= i < clips@.len() ==> is_clip_info(r@[i], clips@[i], project_file@),
{
    let mut out: Vec<AudioClipInfo> = Vec::new();
    let n: usize = clips.len();
    let mut i: usize = 0;
    while i < n
        invariant
            n == clips@.len(),
            i <= n,
            out@.len() == i,
            forall|j: int| #![trigger out@[j]] 0 <= j < i ==> is_clip_info(out@[j], clips@[j], project_file@),
        decreases n - i,
    {
        let clip = &clips[i];
        let info = AudioClipInfo {
            path: resolve_clip_path(project_file.as_str(), clip.path.as_str()),
            start_time: clip.start_time,
            end_time: clip.end_time,
            volume: clip.volume,
        };
        let ghost prev = out@;
        out.push(info);
        proof {
            assert forall|j: int| #![trigger out@[j]] 0 <= j < i + 1 implies is_clip_info(out@[j], clips@[j], project_file@) by {
                if j < i {
                    assert(out@[j] == prev[j]);
                }
            }
        }
        i = i + 1;
    }
    out
}

/// The transport after a play/pause toggle: playing pauses, paused plays
/// when a project is loaded.
pub open spec fn toggled(t: TransportState, loaded: bool) -> TransportState {
    match t {
        TransportState::Playing => TransportState::Paused,
        TransportState::Paused => if loaded {
            TransportState::Playing
        } else {
            TransportState::Paused
        },
    }
}

/// The audio command of a play/pause toggle from transport `t`.
pub open spec fn toggle_command(t: TransportState) -> AudioCommand {
    match t {
        TransportState::Playing => AudioCommand::Pause,
        TransportState::Paused => AudioCommand::Play,
    }
}

/// With a project loaded, toggling twice brings the transport back to
/// where it was, and the two toggles send opposite commands.
pub proof fn law_toggle_twice(t: TransportState)
    ensures
        toggled(toggled(t, true), true) == t,
        toggle_command(toggled(t, true)) != toggle_command(t),
{
}

/// Coordinates playback across the editor state, audio and preview cache.
#[derive(Debug)]
pub struct PlaybackController {
    state: EditorState,
    preview_fps: u32,
}

impl PlaybackController {
    /// The editor state.
    pub closed spec fn editor(&self) -> EditorState {
        self.state
    }

    /// The preview frame rate.
    pub closed spec fn fps(&self) -> u32 {
        self.preview_fps
    }

    /// A controller over `state`, previewing at `preview_fps`.
    pub fn new(state: EditorState, preview_fps: u32) -> (r: PlaybackController)
        ensures
            r.editor() == state,
            r.fps() == preview_fps,
    {
        PlaybackController { state, preview_fps }
    }

    /// The editor state (read-only).
    pub fn state(&self) -> (r: &EditorState)
        ensures
            *r == self.editor(),
    {
        &self.state
    }

    /// The editor state (mutable).
    pub fn state_mut(&mut self) -> (r: &mut EditorState)
        ensures
            *r == old(self).editor(),
            final(self).editor() == *final(r),
            final(self).fps() == old(self).fps(),
    {
        &mut self.state
    }

    /// Starts playback from the current position (if a project is loaded)
    /// and tells the audio engine to play.
    pub fn play(&mut self) -> (r: Vec<AudioCommand>)
        ensures
            r@ == seq![AudioCommand::Play],
            final(self).editor().transport() == (if old(self).editor().loaded().is_some() {
                TransportState::Playing
            } else {
                old(self).editor().transport()
            }),
            final(self).editor().time() == old(self).editor().time(),
            final(self).editor().loaded() == old(self).editor().loaded(),
            final(self).editor().file() == old(self).editor().file(),
            final(self).fps() == old(self).fps(),
    {
        self.state.start_playback();
        let mut r: Vec<AudioCommand> = Vec::new();
        r.push(AudioCommand::Play);
        r
    }

    /// Pauses playback, keeping the position, and pauses the audio.
    pub fn pause(&mut self) -> (r: Vec<AudioCommand>)
        ensures
            r@ == seq![AudioCommand::Pause],
            final(self).editor().transport() == TransportState::Paused,
            final(self).editor().time() == old(self).editor().time(),
            final(self).editor().loaded() == old(self).editor().loaded(),
            final(self).editor().file() == old(self).editor().file(),
            final(self).fps() == old(self).fps(),
    {
        self.state.stop_playback();
        let mut r: Vec<AudioCommand> = Vec::new();
        r.push(AudioCommand::Pause);
        r
    }

    /// Pauses when playing, plays otherwise.
    pub fn toggle_playback(&mut self) -> (r: Vec<AudioCommand>)
        ensures
            r@ == seq![toggle_command(old(self).editor().transport())],
            final(self).editor().transport() == toggled(
                old(self).editor().transport(),
                old(self).editor().loaded().is_some(),
            ),
            final(self).editor().time() == old(self).editor().time(),
            final(self).editor().loaded() == old(self).editor().loaded(),
            final(self).editor().file() == old(self).editor().file(),
            final(self).fps() == old(self).fps(),
    {
        if self.state.is_playing() {
            self.pause()
        } else {
            self.play()
        }
    }

    /// Stops and resets to the beginning: pauses, and seeks the audio to 0.
    pub fn stop(&mut self) -> (r: Vec<AudioCommand>)
        ensures
            r@ == seq![AudioCommand::Pause, AudioCommand::Seek(zero_seconds())],
            final(self).editor().transport() == TransportState::Paused,
            final(self).editor().time() == zero_seconds(),
            final(self).editor().loaded() == old(self).editor().loaded(),
            final(self).editor().file() == old(self).editor().file(),
            final(self).fps() == old(self).fps(),
    {
        self.state.stop_and_reset();
        let mut r: Vec<AudioCommand> = Vec::new();
        r.push(AudioCommand::Pause);
        r.push(AudioCommand::Seek(Seconds::zero()));
        r
    }

    /// Seeks to `time` (clamped by [`EditorState::seek_to`]) and seeks the
    /// audio to the resulting position.
    pub fn seek_to(&mut self, time: Seconds) -> (r: Vec<AudioCommand>)
        ensures
            final(self).editor().time() == seek_target(time, old(self).editor().project_duration()),
            r@ == seq![AudioCommand::Seek(final(self).editor().time())],
            final(self).editor().transport() == old(self).editor().transport(),
            final(self).editor().loaded() == old(self).editor().loaded(),
            final(self).editor().file() == old(self).editor().file(),
            final(self).fps() == old(self).fps(),
    {
        self.state.seek_to(time);
        let mut r: Vec<AudioCommand> = Vec::new();
        r.push(AudioCommand::Seek(self.state.current_time()));
        r
    }

    /// Handles a click at a fraction of the timeline: seeks to `target`
    /// (the fraction times the duration) when the duration is positive;
    /// otherwise does nothing.
    pub fn seek_to_fraction(&mut self, target: Seconds) -> (r: Vec<AudioCommand>)
        ensures
            zero_seconds().below(old(self).editor().project_duration()) ==> (final(self).editor().time()
                == target.clamped(zero_seconds(), old(self).editor().project_duration()) && r@ == seq![
                AudioCommand::Seek(final(self).editor().time()),
            ]),
            !zero_seconds().below(old(self).editor().project_duration()) ==> r@.len() == 0
                && final(self).editor() == old(self).editor(),
            final(self).editor().transport() == old(self).editor().transport(),
            final(self).editor().loaded() == old(self).editor().loaded(),
            final(self).fps() == old(self).fps(),
    {
        if Seconds::zero().lt(&self.state.duration()) {
            self.seek_to(target)
        } else {
            Vec::new()
        }
    }

    /// Advances playback (call each frame while playing); `advanced` is the
    /// current time plus the elapsed delta. Returns whether playback goes
    /// on, and the audio commands.
    ///
    /// Not playing: nothing happens. Audio loaded but reported paused (the
    /// engine reached its end): playback pauses. Otherwise the playhead
    /// moves (see [`EditorState::advance_time`]) and, having reached the
    /// end, playback pauses.
    pub fn advance(&mut self, advanced: Seconds, audio: AudioStatus) -> (r: (bool, Vec<AudioCommand>))
        requires
            zero_seconds().at_most(old(self).editor().project_duration()),
        ensures
            old(self).editor().transport() == TransportState::Paused ==> !r.0 && r.1@.len() == 0
                && final(self).editor() == old(self).editor(),
            old(self).editor().transport() == TransportState::Playing && audio.loaded && audio.paused
                ==> !r.0 && r.1@ == seq![AudioCommand::Pause] && final(self).editor().transport()
                == TransportState::Paused && final(self).editor().time() == old(self).editor().time(),
            old(self).editor().transport() == TransportState::Playing && !(audio.loaded && audio.paused)
                ==> final(self).editor().time() == advanced.clamped(
                zero_seconds(),
                old(self).editor().project_duration(),
            ) && r.0 == final(self).editor().time().below(old(self).editor().project_duration()),
            old(self).editor().transport() == TransportState::Playing && !(audio.loaded && audio.paused)
                && r.0 ==> r.1@.len() == 0 && final(self).editor().transport() == TransportState::Playing,
            old(self).editor().transport() == TransportState::Playing && !(audio.loaded && audio.paused)
                && !r.0 ==> r.1@ == seq![AudioCommand::Pause] && final(self).editor().transport()
                == TransportState::Paused,
            final(self).editor().loaded() == old(self).editor().loaded(),
            final(self).editor().file() == old(self).editor().file(),
            final(self).fps() == old(self).fps(),
    {
        if !self.state.is_playing() {
            return (false, Vec::new());
        }
        if audio.loaded && audio.paused {
            let cmds = self.pause();
            return (false, cmds);
        }
        let continuing = self.state.advance_time(advanced);
        if !continuing {
            let cmds = self.pause();
            return (false, cmds);
        }
        (true, Vec::new())
    }

    /// Handles an action from the timeline: both kinds seek to the action's
    /// time (see [`PlaybackController::seek_to`]); a scrub pauses playback
    /// first.
    pub fn handle_timeline_action(&mut self, action: TimelineAction) -> (r: Vec<AudioCommand>)
        ensures
            final(self).editor().loaded() == old(self).editor().loaded(),
            final(self).editor().file() == old(self).editor().file(),
            final(self).fps() == old(self).fps(),
            match action {
                TimelineAction::Click(t) => final(self).editor().time() == seek_target(
                    t,
                    old(self).editor().project_duration(),
                ) && final(self).editor().transport() == old(self).editor().transport() && r@ == seq![
                    AudioCommand::Seek(final(self).editor().time()),
                ],
                TimelineAction::Scrub(t) => final(self).editor().time() == seek_target(
                    t,
                    old(self).editor().project_duration(),
                ) && final(self).editor().transport() == TransportState::Paused && r@ == seq![
                    AudioCommand::Pause,
                    AudioCommand::Seek(final(self).editor().time()),
                ],
            },
    {
        match action {
            TimelineAction::Click(t) => self.seek_to(t),
            TimelineAction::Scrub(t) => {
                let mut commands = self.pause();
                let mut seek = self.seek_to(t);
                commands.append(&mut seek);
                proof {
                    assert(commands@ =~= seq![AudioCommand::Pause, AudioCommand::Seek(self.editor().time())]);
                }
                commands
            },
        }
    }

    /// Handles an action from the transport controls: play/pause toggles
    /// (see [`PlaybackController::toggle_playback`]), stop stops and
    /// rewinds (see [`PlaybackController::stop`]), and a volume change is
    /// passed to the audio engine with the editor state unchanged.
    pub fn handle_transport_action(&mut self, action: TransportAction) -> (r: Vec<AudioCommand>)
        ensures
            final(self).editor().loaded() == old(self).editor().loaded(),
            final(self).editor().file() == old(self).editor().file(),
            final(self).fps() == old(self).fps(),
            match action {
                TransportAction::TogglePlayback => final(self).editor().transport() == toggled(
                    old(self).editor().transport(),
                    old(self).editor().loaded().is_some(),
                ) && final(self).editor().time() == old(self).editor().time() && r@ == seq![
                    toggle_command(old(self).editor().transport()),
                ],
                TransportAction::Stop => final(self).editor().transport() == TransportState::Paused
                    && final(self).editor().time() == zero_seconds() && r@ == seq![
                    AudioCommand::Pause,
                    AudioCommand::Seek(zero_seconds()),
                ],
                TransportAction::SetVolume(v) => final(self).editor() == old(self).editor() && r@ == seq![
                    AudioCommand::SetVolume(v),
                ],
            },
    {
        match action {
            TransportAction::TogglePlayback => self.toggle_playback(),
            TransportAction::Stop => self.stop(),
            TransportAction::SetVolume(v) => {
                let mut r: Vec<AudioCommand> = Vec::new();
                r.push(AudioCommand::SetVolume(v));
                r
            },
        }
    }

    /// Sets the preview frame rate.
    pub fn set_preview_fps(&mut self, fps: u32)
        ensures
            final(self).fps() == fps,
            final(self).editor() == old(self).editor(),
    {
        self.preview_fps = fps;
    }

    /// The preview frame rate.
    pub fn preview_fps(&self) -> (r: u32)
        ensures
            r == self.fps(),
    {
        self.preview_fps
    }

    /// What to do with the project's audio: nothing without a project or
    /// its file; pause when it has no audio clips; otherwise load them all,
    /// in order, each path resolved against the project file.
    pub fn audio_plan(&self) -> (r: AudioPlan)
        ensures
            match (self.editor().loaded(), self.editor().file()) {
                (Some(p), Some(f)) => if p.audio_clips@.len() == 0 {
                    r is Pause
                } else {
                    r matches AudioPlan::Load(infos) && infos@.len() == p.audio_clips@.len()
                        && forall|i: int| #![trigger infos@[i]] 0 <= i < infos@.len()
                            ==> is_clip_info(infos@[i], p.audio_clips@[i], f@)
                },
                _ => r is Nothing,
            },
    {
        match (self.state.project(), self.state.project_file()) {
            (Some(project), Some(file)) => {
                if project.audio_clips.len() == 0 {
                    AudioPlan::Pause
                } else {
                    AudioPlan::Load(clip_infos(file, &project.audio_clips))
                }
            },
            _ => AudioPlan::Nothing,
        }
    }

    /// What a preview render needs: the project, its file and the preview
    /// frame rate; an error without a project or without its file.
    pub fn render_job(&self) -> (r: Result<(&Project, &String, u32), PreviewError>)
        ensures
            match (self.editor().loaded(), self.editor().file()) {
                (Some(p), Some(f)) => r matches Ok((rp, rf, fps)) && *rp == p && *rf == f && fps
                    == self.fps(),
                _ => r is Err,
            },
    {
        match (self.state.project(), self.state.project_file()) {
            (Some(project), Some(file)) => Ok((project, file, self.preview_fps)),
            _ => Err(PreviewError),
        }
    }
}

} // verus!
