use superscrub::editor_state::EditorState;
use superscrub::model::{AudioClipDef, EncodingConfig, ItemContent, ItemDef, Project, Sizing};
use superscrub::playback::{directory_part, resolve_clip_path, AudioCommand, AudioPlan, AudioStatus, PlaybackController};
use superscrub::seconds::{Scalar, Seconds};
use superscrub::timeline::TimelineAction;
use superscrub::transport::TransportAction;

const PROJECT_FILE: &str = "/test/project.json";

fn s(x: f64) -> Seconds {
    Seconds::from_bits(x.to_bits())
}

fn v(x: f32) -> Scalar {
    Scalar::from_bits(x.to_bits())
}

fn secs(t: Seconds) -> f64 {
    f64::from_bits(t.bits)
}

fn val(x: Scalar) -> f32 {
    f32::from_bits(x.bits)
}

/// Audio that is loaded and playing along.
const AUDIO_PLAYING: AudioStatus = AudioStatus { loaded: true, paused: false };

fn minimal_project() -> Project {
    Project {
        resolution: [200, 100],
        fps: 30,
        duration: s(10.0),
        output: "out.mp4".into(),
        background: [0, 0, 0, 255],
        audio_clips: vec![],
        encoding: EncodingConfig::default(),
        items: vec![ItemDef {
            id: "clip1".into(),
            content: ItemContent::Image { path: "img.png".into() },
            track: 0,
            start_time: s(0.0),
            end_time: s(10.0),
            z_index: 0,
            sizing: Sizing::Natural,
            pivot: [v(0.5), v(0.5)],
            animations: vec![],
        }],
    }
}

fn audio_clip(id: &str, path: &str, track: u32, start: f64, end: f64, volume: f32) -> AudioClipDef {
    AudioClipDef {
        id: id.to_string(),
        path: path.to_string(),
        track,
        start_time: s(start),
        end_time: s(end),
        volume: v(volume),
        source_offset: s(0.0),
        trim_end: s(0.0),
    }
}

fn create_controller(preview_fps: u32) -> PlaybackController {
    PlaybackController::new(EditorState::new(), preview_fps)
}

fn load_project(controller: &mut PlaybackController) {
    controller.state_mut().load_project(minimal_project(), PROJECT_FILE.to_string());
}

fn load_project_with_audio(controller: &mut PlaybackController) {
    let mut project = minimal_project();
    project.audio_clips.push(audio_clip("audio", "audio.wav", 0, 0.0, 10.0, 1.0));
    controller.state_mut().load_project(project, PROJECT_FILE.to_string());
}

fn load_project_with_multiple_audio(controller: &mut PlaybackController) {
    let mut project = minimal_project();
    project.audio_clips.push(audio_clip("audio1", "audio1.wav", 0, 0.0, 10.0, 1.0));
    project.audio_clips.push(audio_clip("audio2", "audio2.wav", 1, 5.0, 15.0, 0.8));
    controller.state_mut().load_project(project, PROJECT_FILE.to_string());
}

/// Advances by `dt` seconds, as the frame loop does.
fn advance(ctrl: &mut PlaybackController, dt: f64, audio: AudioStatus) -> (bool, Vec<AudioCommand>) {
    let advanced = s(secs(ctrl.state().current_time()) + dt);
    ctrl.advance(advanced, audio)
}

#[test]
fn play_starts_audio() {
    let mut ctrl = create_controller(30);
    load_project(&mut ctrl);

    let commands = ctrl.play();

    assert_eq!(commands, vec![AudioCommand::Play]);
    assert!(ctrl.state().is_playing());
}

#[test]
fn pause_stops_audio() {
    let mut ctrl = create_controller(30);
    load_project(&mut ctrl);
    ctrl.play();

    let commands = ctrl.pause();
    assert_eq!(commands, vec![AudioCommand::Pause]);
    assert!(!ctrl.state().is_playing());
}

#[test]
fn toggle_playback_switches_state() {
    let mut ctrl = create_controller(30);
    load_project(&mut ctrl);

    ctrl.toggle_playback();
    assert!(ctrl.state().is_playing());

    ctrl.toggle_playback();
    assert!(!ctrl.state().is_playing());
}

#[test]
fn stop_resets_position() {
    let mut ctrl = create_controller(30);
    load_project(&mut ctrl);
    ctrl.play();
    ctrl.seek_to(s(5.0));

    let commands = ctrl.stop();
    assert!(!ctrl.state().is_playing());
    assert_eq!(secs(ctrl.state().current_time()), 0.0);
    assert_eq!(commands, vec![AudioCommand::Pause, AudioCommand::Seek(s(0.0))]);
}

#[test]
fn seek_to_updates_time() {
    let mut ctrl = create_controller(30);
    load_project(&mut ctrl);

    let commands = ctrl.seek_to(s(5.0));
    assert_eq!(secs(ctrl.state().current_time()), 5.0);
    assert_eq!(commands, vec![AudioCommand::Seek(s(5.0))]);
}

#[test]
fn seek_to_fraction_converts_to_time() {
    let mut ctrl = create_controller(30);
    load_project(&mut ctrl);

    let duration = secs(ctrl.state().duration());
    ctrl.seek_to_fraction(s(0.5 * duration));
    assert_eq!(secs(ctrl.state().current_time()), 5.0);
}

#[test]
fn advance_moves_time_forward() {
    let mut ctrl = create_controller(30);
    load_project(&mut ctrl);
    ctrl.play();

    advance(&mut ctrl, 1.0, AUDIO_PLAYING);
    assert!(secs(ctrl.state().current_time()) > 0.0);
}

#[test]
fn advance_auto_pauses_at_end() {
    let mut ctrl = create_controller(30);
    load_project(&mut ctrl);
    ctrl.play();
    ctrl.seek_to(s(9.5));

    advance(&mut ctrl, 1.0, AUDIO_PLAYING);
    assert!(!ctrl.state().is_playing());
}

#[test]
fn set_preview_fps_updates_value() {
    let mut ctrl = create_controller(30);
    ctrl.set_preview_fps(60);
    assert_eq!(ctrl.preview_fps(), 60);
}

#[test]
fn playback_controller_seek_to_clamps_to_duration() {
    let mut ctrl = create_controller(30);
    load_project(&mut ctrl);

    ctrl.seek_to(s(100.0));
    assert_eq!(secs(ctrl.state().current_time()), 10.0);
}

#[test]
fn load_project_audio_loads_when_config_present() {
    let mut ctrl = create_controller(30);
    load_project_with_audio(&mut ctrl);

    match ctrl.audio_plan() {
        AudioPlan::Load(clips) => assert_eq!(clips.len(), 1),
        other => panic!("expected a load, got {other:?}"),
    }
}

#[test]
fn load_project_audio_noop_without_project() {
    let ctrl = create_controller(30);

    assert!(matches!(ctrl.audio_plan(), AudioPlan::Nothing));
}

#[test]
fn load_project_audio_pauses_when_no_audio_config() {
    let mut ctrl = create_controller(30);
    load_project(&mut ctrl);

    assert!(matches!(ctrl.audio_plan(), AudioPlan::Pause));
}

#[test]
fn advance_detects_audio_auto_stop() {
    let mut ctrl = create_controller(30);
    load_project(&mut ctrl);
    ctrl.play();

    // The engine reports Paused while audio is loaded: it reached its end.
    let (continuing, commands) = advance(&mut ctrl, 0.1, AudioStatus { loaded: true, paused: true });

    assert!(!continuing);
    assert_eq!(commands, vec![AudioCommand::Pause]);
    assert!(!ctrl.state().is_playing());
}

#[test]
fn advance_ignores_auto_stop_when_no_audio_loaded() {
    let mut ctrl = create_controller(30);
    load_project(&mut ctrl);
    ctrl.play();

    advance(&mut ctrl, 0.1, AudioStatus { loaded: false, paused: true });

    assert!(ctrl.state().is_playing());
}

#[test]
fn load_project_audio_loads_all_clips() {
    let mut ctrl = create_controller(30);
    load_project_with_multiple_audio(&mut ctrl);

    match ctrl.audio_plan() {
        AudioPlan::Load(clips) => assert_eq!(clips.len(), 2),
        other => panic!("expected a load, got {other:?}"),
    }
}

#[test]
fn load_project_audio_resolves_paths() {
    let mut ctrl = create_controller(30);
    load_project_with_multiple_audio(&mut ctrl);

    // PROJECT_FILE is "/test/project.json", so "audio1.wav" is "/test/audio1.wav".
    let AudioPlan::Load(clips) = ctrl.audio_plan() else { panic!("expected a load") };
    assert_eq!(clips[0].path, "/test/audio1.wav");
    assert_eq!(clips[1].path, "/test/audio2.wav");
}

#[test]
fn clip_paths_resolve_against_the_project_directory() {
    assert_eq!(resolve_clip_path("/test/project.json", "music/a.wav"), "/test/music/a.wav");
    assert_eq!(resolve_clip_path("/test/project.json", "/abs/a.wav"), "/abs/a.wav");
    assert_eq!(resolve_clip_path("project.json", "a.wav"), "a.wav");
    assert_eq!(resolve_clip_path("/project.json", "a.wav"), "/a.wav");
    assert_eq!(resolve_clip_path("dir/sub/p.json", "../a.wav"), "dir/sub/../a.wav");
    assert_eq!(directory_part("/test/project.json"), "/test/");
    assert_eq!(directory_part("project.json"), "");
}

#[test]
fn load_project_audio_forwards_clip_metadata() {
    let mut ctrl = create_controller(30);
    load_project_with_multiple_audio(&mut ctrl);

    let AudioPlan::Load(clips) = ctrl.audio_plan() else { panic!("expected a load") };
    assert_eq!(secs(clips[0].start_time), 0.0);
    assert_eq!(secs(clips[0].end_time), 10.0);
    assert!((val(clips[0].volume) - 1.0).abs() < f32::EPSILON);
    assert_eq!(secs(clips[1].start_time), 5.0);
    assert_eq!(secs(clips[1].end_time), 15.0);
    assert!((val(clips[1].volume) - 0.8).abs() < f32::EPSILON);
}

#[test]
fn advance_reports_continuing_before_the_end() {
    let mut ctrl = create_controller(30);
    load_project(&mut ctrl);
    ctrl.play();

    let (continuing, commands) = advance(&mut ctrl, 0.5, AUDIO_PLAYING);
    assert!(continuing);
    assert!(commands.is_empty());
    assert_eq!(secs(ctrl.state().current_time()), 0.5);
}

#[test]
fn advance_does_nothing_while_paused() {
    let mut ctrl = create_controller(30);
    load_project(&mut ctrl);

    let (continuing, commands) = advance(&mut ctrl, 1.0, AUDIO_PLAYING);
    assert!(!continuing);
    assert!(commands.is_empty());
    assert_eq!(secs(ctrl.state().current_time()), 0.0);
}

#[test]
fn seek_to_fraction_without_project_does_nothing() {
    let mut ctrl = create_controller(30);
    let commands = ctrl.seek_to_fraction(s(3.0));
    assert!(commands.is_empty());
    assert_eq!(secs(ctrl.state().current_time()), 0.0);
}

#[test]
fn toggle_sends_play_then_pause() {
    let mut ctrl = create_controller(30);
    load_project(&mut ctrl);
    assert_eq!(ctrl.toggle_playback(), vec![AudioCommand::Play]);
    assert_eq!(ctrl.toggle_playback(), vec![AudioCommand::Pause]);
}

#[test]
fn render_job_needs_a_project() {
    let mut ctrl = create_controller(24);
    assert!(ctrl.render_job().is_err());
    load_project(&mut ctrl);
    let (project, file, fps) = ctrl.render_job().unwrap();
    assert_eq!(project.fps, 30);
    assert_eq!(file, PROJECT_FILE);
    assert_eq!(fps, 24);
}

#[test]
fn scrub_pauses_then_seeks() {
    let mut ctrl = create_controller(30);
    load_project(&mut ctrl);
    ctrl.play();

    let commands = ctrl.handle_timeline_action(TimelineAction::Scrub(s(4.0)));

    assert!(!ctrl.state().is_playing());
    assert_eq!(secs(ctrl.state().current_time()), 4.0);
    assert_eq!(commands, vec![AudioCommand::Pause, AudioCommand::Seek(s(4.0))]);
}

#[test]
fn click_seeks_and_keeps_playing() {
    let mut ctrl = create_controller(30);
    load_project(&mut ctrl);
    ctrl.play();

    let commands = ctrl.handle_timeline_action(TimelineAction::Click(s(12.0)));

    assert!(ctrl.state().is_playing());
    assert_eq!(secs(ctrl.state().current_time()), 10.0);
    assert_eq!(commands, vec![AudioCommand::Seek(s(10.0))]);
}

#[test]
fn transport_actions_map_to_controller_operations() {
    let mut ctrl = create_controller(30);
    load_project(&mut ctrl);

    assert_eq!(ctrl.handle_transport_action(TransportAction::TogglePlayback), vec![AudioCommand::Play]);
    assert!(ctrl.state().is_playing());
    ctrl.seek_to(s(3.0));

    assert_eq!(ctrl.handle_transport_action(TransportAction::SetVolume(v(0.25))), vec![AudioCommand::SetVolume(v(0.25))]);
    assert!(ctrl.state().is_playing());
    assert_eq!(secs(ctrl.state().current_time()), 3.0);

    assert_eq!(
        ctrl.handle_transport_action(TransportAction::Stop),
        vec![AudioCommand::Pause, AudioCommand::Seek(s(0.0))]
    );
    assert!(!ctrl.state().is_playing());
    assert_eq!(secs(ctrl.state().current_time()), 0.0);
}
