use projectm_vj::audio::{AudioError, AudioStep, InputConfigInfo};
use projectm_vj::coordinator::{Action, Coordinator, Key, Phase, Surface};
use projectm_vj::playlist::Playlist;

fn coordinator_with(n: usize) -> Coordinator {
    let mut p = Playlist::new();
    for i in 0..n {
        p.add_preset(format!("p{}", i), format!("text {}", i));
    }
    let mut c = Coordinator::new(p, 0, 0);
    c.surfaces_ready();
    c
}

fn stereo() -> Vec<InputConfigInfo> {
    vec![InputConfigInfo { channels: 2, is_f32: true }]
}

fn primary_frame() -> Vec<Action> {
    vec![
        Action::MakeCurrent(Surface::Primary),
        Action::RenderFrame,
        Action::SwapBuffers(Surface::Primary),
        Action::RequestRedraw(Surface::Primary),
    ]
}

#[test]
fn starts_then_runs() {
    let mut c = Coordinator::new(Playlist::new(), 0, 0);
    assert_eq!(c.phase(), Phase::Starting);
    c.surfaces_ready();
    assert_eq!(c.phase(), Phase::Running);
    c.surfaces_ready();
    assert_eq!(c.phase(), Phase::Running);
}

#[test]
fn close_without_session() {
    let mut c = coordinator_with(2);
    assert_eq!(c.on_close(), vec![Action::DestroyEngine, Action::Exit]);
    assert_eq!(c.phase(), Phase::ShuttingDown);
}

#[test]
fn close_stops_session_before_teardown() {
    let mut c = coordinator_with(2);
    c.switch_device(1, &stereo());
    assert!(c.audio().session_open());
    assert_eq!(
        c.on_close(),
        vec![Action::Audio(AudioStep::StopSession), Action::DestroyEngine, Action::Exit]
    );
    assert!(!c.audio().session_open());
}

#[test]
fn nothing_happens_after_shutdown() {
    let mut c = coordinator_with(3);
    c.on_close();
    assert_eq!(c.on_close(), Vec::<Action>::new());
    assert_eq!(c.on_primary_redraw(5000), Vec::<Action>::new());
    assert_eq!(c.on_primary_resized(10, 10), Vec::<Action>::new());
    assert_eq!(c.on_key(Key::RandomPreset), Vec::<Action>::new());
    assert_eq!(c.select_preset(1), Vec::<Action>::new());
    assert_eq!(c.present_controls(), Vec::<Action>::new());
    assert_eq!(c.on_control_input(true), Vec::<Action>::new());
    let (steps, res) = c.switch_device(1, &stereo());
    assert_eq!(steps, Vec::<Action>::new());
    assert_eq!(res, Ok(()));
    assert!(!c.audio().session_open());
    assert_eq!(c.phase(), Phase::ShuttingDown);
}

#[test]
fn resize_sets_viewport() {
    let c = coordinator_with(1);
    assert_eq!(c.on_primary_resized(1024, 768), vec![Action::SetViewport(1024, 768)]);
}

#[test]
fn primary_frame_binds_before_drawing() {
    let mut c = coordinator_with(1);
    assert_eq!(c.on_primary_redraw(10), primary_frame());
}

#[test]
fn primary_frame_resumes_open_session() {
    let mut c = coordinator_with(1);
    c.switch_device(0, &stereo());
    let mut expected = vec![Action::ResumeAudio];
    expected.extend(primary_frame());
    assert_eq!(c.on_primary_redraw(10), expected);
}

#[test]
fn fps_reported_after_a_second() {
    let mut c = coordinator_with(1);
    for t in [100u64, 200, 300, 400, 500] {
        assert_eq!(c.on_primary_redraw(t), primary_frame());
    }
    let mut expected = primary_frame();
    expected.push(Action::SetFps(6));
    assert_eq!(c.on_primary_redraw(1000), expected);
    assert_eq!(c.fps(), 6);
    assert_eq!(c.on_primary_redraw(1500), primary_frame());
    let mut expected = primary_frame();
    expected.push(Action::SetFps(2));
    assert_eq!(c.on_primary_redraw(2000), expected);
    assert_eq!(c.fps(), 2);
}

#[test]
fn clock_before_window_start_reports_nothing() {
    let mut p = Playlist::new();
    p.add_preset("a".to_string(), "b".to_string());
    let mut c = Coordinator::new(p, 0, 5000);
    assert_eq!(c.on_primary_redraw(10), primary_frame());
    assert_eq!(c.fps(), 0);
}

#[test]
fn random_key_loads_with_transition_mode() {
    let mut c = coordinator_with(4);
    let actions = c.on_key(Key::RandomPreset);
    assert_eq!(actions.len(), 1);
    match actions[0] {
        Action::LoadPreset { index, smooth } => {
            assert!(index < 4);
            assert!(!smooth);
            assert_eq!(c.playlist().current_index(), index);
        }
        _ => panic!("expected a preset load"),
    }
    c.on_key(Key::ToggleTransition);
    match c.on_key(Key::RandomPreset)[0] {
        Action::LoadPreset { smooth, .. } => assert!(smooth),
        _ => panic!("expected a preset load"),
    }
}

#[test]
fn random_key_on_empty_playlist_does_nothing() {
    let mut c = coordinator_with(0);
    assert_eq!(c.on_key(Key::RandomPreset), Vec::<Action>::new());
    assert_eq!(c.playlist().current_index(), 0);
}

#[test]
fn toggle_key_flips_transition_mode() {
    let mut c = coordinator_with(1);
    assert!(!c.smooth_transition());
    assert_eq!(c.on_key(Key::ToggleTransition), Vec::<Action>::new());
    assert!(c.smooth_transition());
    c.toggle_transition();
    assert!(!c.smooth_transition());
    assert_eq!(c.on_key(Key::Other), Vec::<Action>::new());
    assert!(!c.smooth_transition());
}

#[test]
fn select_preset_loads_it() {
    let mut c = coordinator_with(3);
    c.toggle_transition();
    assert_eq!(c.select_preset(2), vec![Action::LoadPreset { index: 2, smooth: true }]);
    assert_eq!(c.playlist().current_index(), 2);
}

#[test]
fn select_preset_out_of_range_is_ignored() {
    let mut c = coordinator_with(3);
    c.select_preset(1);
    assert_eq!(c.select_preset(3), Vec::<Action>::new());
    assert_eq!(c.playlist().current_index(), 1);
}

#[test]
fn device_switch_sequence() {
    let mut c = coordinator_with(1);
    let (first, res) = c.switch_device(1, &stereo());
    assert_eq!(first, vec![Action::Audio(AudioStep::OpenSession { device: 1, config: 0 })]);
    assert_eq!(res, Ok(()));
    let (second, res) = c.switch_device(2, &stereo());
    assert_eq!(
        second,
        vec![
            Action::Audio(AudioStep::StopSession),
            Action::Audio(AudioStep::OpenSession { device: 2, config: 0 }),
        ]
    );
    assert_eq!(res, Ok(()));
    assert_eq!(c.audio().active_device(), 2);
}

#[test]
fn device_switch_failure_keeps_running() {
    let mut c = coordinator_with(1);
    c.switch_device(1, &stereo());
    let (steps, res) = c.switch_device(2, &vec![InputConfigInfo { channels: 1, is_f32: true }]);
    assert_eq!(steps, vec![Action::Audio(AudioStep::StopSession)]);
    assert_eq!(res, Err(AudioError::NoCompatibleFormat));
    assert_eq!(c.phase(), Phase::Running);
    assert_eq!(c.on_primary_redraw(10), primary_frame());
}

#[test]
fn controls_frame_binds_secondary() {
    let mut c = coordinator_with(1);
    c.on_primary_redraw(1);
    assert_eq!(
        c.present_controls(),
        vec![
            Action::MakeCurrent(Surface::Secondary),
            Action::ClearControls,
            Action::PaintControls,
            Action::SwapBuffers(Surface::Secondary),
            Action::RequestRedraw(Surface::Secondary),
        ]
    );
    assert_eq!(c.on_primary_redraw(2)[0], Action::MakeCurrent(Surface::Primary));
}

#[test]
fn control_input_repaints_on_request() {
    let c = coordinator_with(1);
    assert_eq!(c.on_control_input(true), vec![Action::RequestRedraw(Surface::Secondary)]);
    assert_eq!(c.on_control_input(false), Vec::<Action>::new());
}
