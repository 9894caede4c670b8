use vstd::prelude::*;
use crate::audio::{AudioBridge, AudioError, AudioStep, InputConfigInfo, first_fit, switch_steps};
use crate::playlist::Playlist;

verus! {

/// Length of the window over which frames are counted, in milliseconds.
pub const FPS_WINDOW_MS: u64 = 1000;

/// The two presentable surfaces that share one rendering context.
#[derive(Debug, Clone, Copy, PartialEq, Eq, Structural)]
pub enum Surface {
    /// The visualization output.
    Primary,
    /// The control panel.
    Secondary,
}

/// Life cycle of the coordinator; `ShuttingDown` is terminal.
#[derive(Debug, Clone, Copy, PartialEq, Eq, Structural)]
pub enum Phase {
    Starting,
    Running,
    ShuttingDown,
}

/// The keyboard shortcuts that the coordinator reacts to.
#[derive(Debug, Clone, Copy, PartialEq, Eq, Structural)]
pub enum Key {
    RandomPreset,
    ToggleTransition,
    Other,
}

/// One thing for the host to do, in the order given: a call into the
/// rendering engine (each under its own short hold of the engine lock), a
/// surface operation, or an audio-session step.
#[derive(Debug, Clone, Copy, PartialEq, Eq, Structural)]
pub enum Action {
    /// Resume the capture session if it was paused.
    ResumeAudio,
    /// Make the shared context current on the surface.
    MakeCurrent(Surface),
    /// Engine: render one frame.
    RenderFrame,
    /// Clear the control surface.
    ClearControls,
    /// Paint the control panel's widgets.
    PaintControls,
    /// Present the surface.
    SwapBuffers(Surface),
    /// Ask for another redraw of the surface.
    RequestRedraw(Surface),
    /// Engine: report the measured frames per second.
    SetFps(u32),
    /// Engine: set the viewport size.
    SetViewport(u32, u32),
    /// Engine: load the preset at `index`, cross-fading when `smooth`.
    LoadPreset { index: usize, smooth: bool },
    /// A step of the capture session.
    Audio(AudioStep),
    /// Engine: tear down.
    DestroyEngine,
    /// Leave the event loop.
    Exit,
}

/// The audio steps as actions.
pub open spec fn audio_actions(steps: Seq<AudioStep>) -> Seq<Action> {
    steps.map_values(|s: AudioStep| Action::Audio(s))
}

/// What shutting down does: stop the open capture session, if any, then
/// tear the engine down, then leave.
pub open spec fn shutdown_actions(open: bool) -> Seq<Action> {
    let stop: Seq<Action> = if open {
        seq![Action::Audio(AudioStep::StopSession)]
    } else {
        seq![]
    };
    stop + seq![Action::DestroyEngine, Action::Exit]
}

/// What one frame of the primary surface does.
pub open spec fn primary_frame_actions(open: bool, fps: Option<u32>) -> Seq<Action> {
    let resume: Seq<Action> = if open {
        seq![Action::ResumeAudio]
    } else {
        seq![]
    };
    let frame = resume + seq![
        Action::MakeCurrent(Surface::Primary),
        Action::RenderFrame,
        Action::SwapBuffers(Surface::Primary),
        Action::RequestRedraw(Surface::Primary),
    ];
    match fps {
        Some(n) => frame.push(Action::SetFps(n)),
        None => frame,
    }
}

/// What one frame of the control surface does.
pub open spec fn controls_frame_actions() -> Seq<Action> {
    seq![
        Action::MakeCurrent(Surface::Secondary),
        Action::ClearControls,
        Action::PaintControls,
        Action::SwapBuffers(Surface::Secondary),
        Action::RequestRedraw(Surface::Secondary),
    ]
}

/// The frame count after one more frame, held at the top of its range.
pub open spec fn next_count(n: u32) -> u32 {
    if n < u32::MAX {
        (n + 1) as u32
    } else {
        n
    }
}

/// Whether a full counting window has passed from `start` to `now`.
pub open spec fn window_elapsed(start: u64, now: u64) -> bool {
    now >= start && now - start >= FPS_WINDOW_MS
}

/// The top-level state: routes events to the playlist, the capture session
/// and the two surfaces, and answers each with the actions to perform.
pub struct Coordinator {
    phase: Phase,
    playlist: Playlist,
    audio: AudioBridge,
    bound: Option<Surface>,
    smooth: bool,
    frame_count: u32,
    fps: u32,
    window_start_ms: u64,
}

/// The state of a coordinator, as contracts see it.
pub struct CoordinatorState {
    pub phase: Phase,
    pub playlist: Playlist,
    pub audio: AudioBridge,
    /// The surface that the shared context is current on, if any.
    pub bound: Option<Surface>,
    pub smooth: bool,
    pub frame_count: u32,
    pub fps: u32,
    pub window_start_ms: u64,
}

impl View for Coordinator {
    type V = CoordinatorState;

    closed spec fn view(&self) -> CoordinatorState {
        CoordinatorState {
            phase: self.phase,
            playlist: self.playlist,
            audio: self.audio,
            bound: self.bound,
            smooth: self.smooth,
            frame_count: self.frame_count,
            fps: self.fps,
            window_start_ms: self.window_start_ms,
        }
    }
}

impl Coordinator {
    pub open spec fn wf(&self) -> bool {
        self@.playlist.wf()
    }

    /// A coordinator in `Starting`, over a loaded playlist and the default
    /// capture device, with the frame counter starting at `now_ms`.
    pub fn new(playlist: Playlist, device: usize, now_ms: u64) -> (r: Self)
        requires
            playlist.wf(),
        ensures
            r.wf(),
            r@.phase == Phase::Starting,
            r@.playlist == playlist,
            r@.audio.device() == device,
            !r@.audio.is_open(),
            r@.bound is None,
            !r@.smooth,
            r@.frame_count == 0,
            r@.fps == 0,
            r@.window_start_ms == now_ms,
    {
        Coordinator {
            phase: Phase::Starting,
            playlist,
            audio: AudioBridge::new(device),
            bound: None,
            smooth: false,
            frame_count: 0,
            fps: 0,
            window_start_ms: now_ms,
        }
    }

    /// Both surfaces exist: `Starting` becomes `Running`.
    pub fn surfaces_ready(&mut self)
        ensures
            old(self)@.phase == Phase::Starting ==> final(self)@ == (CoordinatorState {
                phase: Phase::Running,
                ..old(self)@
            }),
            old(self)@.phase != Phase::Starting ==> final(self)@ == old(self)@,
    {
        if self.phase == Phase::Starting {
            self.phase = Phase::Running;
        }
    }

    /// A close request or the quit button: stop the capture session, tear
    /// the engine down and leave. Nothing happens once shutting down.
    pub fn on_close(&mut self) -> (r: Vec<Action>)
        requires
            old(self).wf(),
        ensures
            final(self).wf(),
            old(self)@.phase == Phase::ShuttingDown ==> r@.len() == 0 && final(self)@
                == old(self)@,
            old(self)@.phase != Phase::ShuttingDown ==> {
                &&& r@ == shutdown_actions(old(self)@.audio.is_open())
                &&& !final(self)@.audio.is_open()
                &&& final(self)@.audio.device() == old(self)@.audio.device()
                &&& final(self)@ == (CoordinatorState {
                    phase: Phase::ShuttingDown,
                    audio: final(self)@.audio,
                    ..old(self)@
                })
            },
    {
        let mut actions: Vec<Action> = Vec::new();
        if self.phase == Phase::ShuttingDown {
            return actions;
        }
        let steps = self.audio.stop();
        if steps.len() > 0 {
            actions.push(Action::Audio(AudioStep::StopSession));
        }
        actions.push(Action::DestroyEngine);
        actions.push(Action::Exit);
        self.phase = Phase::ShuttingDown;
        proof {
            assert(actions@ =~= shutdown_actions(old(self)@.audio.is_open()));
        }
        actions
    }

    /// The primary surface was resized: the engine's viewport follows.
    pub fn on_primary_resized(&self, width: u32, height: u32) -> (r: Vec<Action>)
        ensures
            self@.phase == Phase::ShuttingDown ==> r@.len() == 0,
            self@.phase != Phase::ShuttingDown ==> r@ == seq![
                Action::SetViewport(width, height),
            ],
    {
        let mut actions: Vec<Action> = Vec::new();
        if self.phase != Phase::ShuttingDown {
            actions.push(Action::SetViewport(width, height));
        }
        proof {
            if self@.phase != Phase::ShuttingDown {
                assert(actions@ =~= seq![Action::SetViewport(width, height)]);
            }
        }
        actions
    }

    /// The primary surface is due for a frame at clock reading `now_ms`:
    /// resume audio, bind, render, present, ask for the next frame; once a
    /// full window has passed, report the frames counted in it and start a
    /// new window.
    pub fn on_primary_redraw(&mut self, now_ms: u64) -> (r: Vec<Action>)
        requires
            old(self).wf(),
        ensures
            final(self).wf(),
            old(self)@.phase == Phase::ShuttingDown ==> r@.len() == 0 && final(self)@
                == old(self)@,
            old(self)@.phase != Phase::ShuttingDown ==> {
                let n = next_count(old(self)@.frame_count);
                let due = window_elapsed(old(self)@.window_start_ms, now_ms);
                &&& r@ == primary_frame_actions(
                    old(self)@.audio.is_open(),
                    if due {
                        Some(n)
                    } else {
                        None
                    },
                )
                &&& final(self)@.bound == Some(Surface::Primary)
                &&& due ==> final(self)@.fps == n && final(self)@.frame_count == 0
                    && final(self)@.window_start_ms == now_ms
                &&& !due ==> final(self)@.fps == old(self)@.fps
                    && final(self)@.frame_count == n && final(self)@.window_start_ms
                    == old(self)@.window_start_ms
                &&& final(self)@.phase == old(self)@.phase
                &&& final(self)@.playlist == old(self)@.playlist
                &&& final(self)@.audio == old(self)@.audio
                &&& final(self)@.smooth == old(self)@.smooth
            },
    {
        let mut actions: Vec<Action> = Vec::new();
        if self.phase == Phase::ShuttingDown {
            return actions;
        }
        if self.audio.session_open() {
            actions.push(Action::ResumeAudio);
        }
        actions.push(Action::MakeCurrent(Surface::Primary));
        self.bound = Some(Surface::Primary);
        actions.push(Action::RenderFrame);
        actions.push(Action::SwapBuffers(Surface::Primary));
        actions.push(Action::RequestRedraw(Surface::Primary));
        let n: u32 = if self.frame_count < u32::MAX {
            self.frame_count + 1
        } else {
            self.frame_count
        };
        if now_ms >= self.window_start_ms && now_ms - self.window_start_ms >= FPS_WINDOW_MS {
            self.fps = n;
            actions.push(Action::SetFps(n));
            self.frame_count = 0;
            self.window_start_ms = now_ms;
        } else {
            self.frame_count = n;
        }
        proof {
            let due = window_elapsed(old(self)@.window_start_ms, now_ms);
            assert(actions@ =~= primary_frame_actions(
                old(self)@.audio.is_open(),
                if due {
                    Some(n)
                } else {
                    None
                },
            ));
        }
        actions
    }

    /// Flips between immediate cuts and cross-fades.
    pub fn toggle_transition(&mut self)
        ensures
            old(self)@.phase == Phase::ShuttingDown ==> final(self)@ == old(self)@,
            old(self)@.phase != Phase::ShuttingDown ==> final(self)@ == (CoordinatorState {
                smooth: !old(self)@.smooth,
                ..old(self)@
            }),
    {
        if self.phase != Phase::ShuttingDown {
            self.smooth = !self.smooth;
        }
    }

    /// A keyboard shortcut: a random preset is loaded with the current
    /// transition mode (nothing happens on an empty playlist), or the
    /// transition mode is flipped.
    pub fn on_key(&mut self, key: Key) -> (r: Vec<Action>)
        requires
            old(self).wf(),
        ensures
            final(self).wf(),
            old(self)@.phase == Phase::ShuttingDown || key == Key::Other
                ==> r@.len() == 0 && final(self)@ == old(self)@,
            old(self)@.phase != Phase::ShuttingDown && key == Key::ToggleTransition
                ==> r@.len() == 0 && final(self)@ == (CoordinatorState {
                smooth: !old(self)@.smooth,
                ..old(self)@
            }),
            old(self)@.phase != Phase::ShuttingDown && key == Key::RandomPreset ==> {
                &&& old(self)@.playlist.entries().len() == 0 ==> r@.len() == 0 && final(self)@
                    == old(self)@
                &&& old(self)@.playlist.entries().len() > 0 ==> {
                    let i = final(self)@.playlist.index();
                    &&& i < old(self)@.playlist.entries().len()
                    &&& r@ == seq![
                        Action::LoadPreset { index: i as usize, smooth: old(self)@.smooth },
                    ]
                    &&& final(self)@.playlist.entries() == old(self)@.playlist.entries()
                    &&& final(self)@ == (CoordinatorState {
                        playlist: final(self)@.playlist,
                        ..old(self)@
                    })
                }
            },
    {
        let mut actions: Vec<Action> = Vec::new();
        if self.phase == Phase::ShuttingDown {
            return actions;
        }
        match key {
            Key::RandomPreset => {
                if self.playlist.len() > 0 {
                    match self.playlist.play_random() {
                        Ok(i) => {
                            actions.push(Action::LoadPreset { index: i, smooth: self.smooth });
                        },
                        Err(_) => {},
                    }
                }
            },
            Key::ToggleTransition => {
                self.smooth = !self.smooth;
            },
            Key::Other => {},
        }
        proof {
            if key == Key::RandomPreset && old(self)@.playlist.entries().len() > 0 {
                assert(actions@ =~= seq![
                    Action::LoadPreset {
                        index: self@.playlist.index() as usize,
                        smooth: old(self)@.smooth,
                    },
                ]);
            }
        }
        actions
    }

    /// A preset picked in the control panel: it is loaded with the current
    /// transition mode; an index outside the playlist does nothing.
    pub fn select_preset(&mut self, index: usize) -> (r: Vec<Action>)
        requires
            old(self).wf(),
        ensures
            final(self).wf(),
            old(self)@.phase == Phase::ShuttingDown || index >= old(
                self,
            )@.playlist.entries().len() ==> r@.len() == 0 && final(self)@ == old(self)@,
            old(self)@.phase != Phase::ShuttingDown && index < old(
                self,
            )@.playlist.entries().len() ==> {
                &&& r@ == seq![Action::LoadPreset { index, smooth: old(self)@.smooth }]
                &&& final(self)@.playlist.index() == index
                &&& final(self)@.playlist.entries() == old(self)@.playlist.entries()
                &&& final(self)@ == (CoordinatorState { playlist: final(self)@.playlist, ..old(self)@ })
            },
    {
        let mut actions: Vec<Action> = Vec::new();
        if self.phase == Phase::ShuttingDown || index >= self.playlist.len() {
            return actions;
        }
        match self.playlist.play_index(index) {
            Ok(()) => {
                actions.push(Action::LoadPreset { index, smooth: self.smooth });
            },
            Err(_) => {},
        }
        proof {
            assert(actions@ =~= seq![Action::LoadPreset { index, smooth: old(self)@.smooth }]);
        }
        actions
    }

    /// A capture device picked in the control panel, with the input
    /// configurations it offers: the old session is stopped before a new
    /// one is opened. When no configuration fits, the error is returned and
    /// the visualization goes on without audio.
    pub fn switch_device(&mut self, device: usize, configs: &Vec<InputConfigInfo>) -> (r: (
        Vec<Action>,
        Result<(), AudioError>,
    ))
        requires
            old(self).wf(),
        ensures
            final(self).wf(),
            old(self)@.phase == Phase::ShuttingDown ==> r.0@.len() == 0 && r.1 is Ok
                && final(self)@ == old(self)@,
            old(self)@.phase != Phase::ShuttingDown ==> {
                &&& r.0@ == audio_actions(
                    switch_steps(old(self)@.audio.is_open(), device, first_fit(configs@)),
                )
                &&& final(self)@.audio.device() == device
                &&& final(self)@.audio.is_open() == (first_fit(configs@) is Some)
                &&& (r.1 is Ok) == (first_fit(configs@) is Some)
                &&& r.1 is Err ==> r.1 == Err::<(), AudioError>(AudioError::NoCompatibleFormat)
                &&& final(self)@ == (CoordinatorState { audio: final(self)@.audio, ..old(self)@ })
            },
    {
        let mut actions: Vec<Action> = Vec::new();
        if self.phase == Phase::ShuttingDown {
            return (actions, Ok(()));
        }
        let (steps, res) = self.audio.switch_device(device, configs);
        let mut i: usize = 0;
        while i < steps.len()
            invariant
                i <= steps@.len(),
                actions@ == audio_actions(steps@.take(i as int)),
            decreases steps@.len() - i,
        {
            actions.push(Action::Audio(steps[i]));
            proof {
                assert(actions@ =~= audio_actions(steps@.take(i as int + 1)));
            }
            i = i + 1;
        }
        proof {
            assert(steps@.take(steps@.len() as int) =~= steps@);
        }
        (actions, res)
    }

    /// The control surface is due for a frame: bind it, clear it, paint the
    /// widgets, present, and ask for the next frame.
    pub fn present_controls(&mut self) -> (r: Vec<Action>)
        ensures
            old(self)@.phase == Phase::ShuttingDown ==> r@.len() == 0 && final(self)@
                == old(self)@,
            old(self)@.phase != Phase::ShuttingDown ==> r@ == controls_frame_actions()
                && final(self)@ == (CoordinatorState { bound: Some(Surface::Secondary), ..old(self)@ }),
    {
        let mut actions: Vec<Action> = Vec::new();
        if self.phase == Phase::ShuttingDown {
            return actions;
        }
        actions.push(Action::MakeCurrent(Surface::Secondary));
        self.bound = Some(Surface::Secondary);
        actions.push(Action::ClearControls);
        actions.push(Action::PaintControls);
        actions.push(Action::SwapBuffers(Surface::Secondary));
        actions.push(Action::RequestRedraw(Surface::Secondary));
        proof {
            assert(actions@ =~= controls_frame_actions());
        }
        actions
    }

    /// Input on the control surface was handed to the widgets; a redraw is
    /// asked for when they need one.
    pub fn on_control_input(&self, repaint: bool) -> (r: Vec<Action>)
        ensures
            self@.phase != Phase::ShuttingDown && repaint ==> r@ == seq![
                Action::RequestRedraw(Surface::Secondary),
            ],
            self@.phase == Phase::ShuttingDown || !repaint ==> r@.len() == 0,
    {
        let mut actions: Vec<Action> = Vec::new();
        if self.phase != Phase::ShuttingDown && repaint {
            actions.push(Action::RequestRedraw(Surface::Secondary));
            proof {
                assert(actions@ =~= seq![Action::RequestRedraw(Surface::Secondary)]);
            }
        }
        actions
    }

    /// The current phase.
    pub fn phase(&self) -> (r: Phase)
        ensures
            r == self@.phase,
    {
        self.phase
    }

    /// Whether preset switches cross-fade.
    pub fn smooth_transition(&self) -> (r: bool)
        ensures
            r == self@.smooth,
    {
        self.smooth
    }

    /// The frames per second measured over the last full window.
    pub fn fps(&self) -> (r: u32)
        ensures
            r == self@.fps,
    {
        self.fps
    }

    /// The playlist.
    pub fn playlist(&self) -> (r: &Playlist)
        ensures
            *r == self@.playlist,
    {
        &self.playlist
    }

    /// The capture session's state.
    pub fn audio(&self) -> (r: &AudioBridge)
        ensures
            *r == self@.audio,
    {
        &self.audio
    }
}

/// Shutting down leaves no audio session behind: an open session is stopped
/// before the engine is torn down, the engine is torn down exactly once,
/// no session is opened, and leaving the loop comes last.
pub proof fn lemma_shutdown_stops_audio_first(open: bool)
    ensures
        ({
            let s = shutdown_actions(open);
            &&& s.last() == Action::Exit
            &&& open ==> s[0] == Action::Audio(AudioStep::StopSession)
            &&& forall|i: int|
                0 <= i < s.len() && s[i] == Action::DestroyEngine ==> i == s.len() - 2
            &&& forall|i: int, j: int|
                0 <= i < s.len() && 0 <= j < s.len() && s[i] == Action::Audio(
                    AudioStep::StopSession,
                ) && s[j] == Action::DestroyEngine ==> i < j
            &&& forall|i: int|
                0 <= i < s.len() ==> !(s[i] is Audio && s[i]->Audio_0 is OpenSession)
        }),
{
    let s = shutdown_actions(open);
    if open {
        assert(s =~= seq![
            Action::Audio(AudioStep::StopSession),
            Action::DestroyEngine,
            Action::Exit,
        ]);
    } else {
        assert(s =~= seq![Action::DestroyEngine, Action::Exit]);
    }
}

/// The surface that a draw or present action targets, if it targets one.
pub open spec fn target_of(a: Action) -> Option<Surface> {
    match a {
        Action::RenderFrame => Some(Surface::Primary),
        Action::ClearControls => Some(Surface::Secondary),
        Action::PaintControls => Some(Surface::Secondary),
        Action::SwapBuffers(s) => Some(s),
        _ => None,
    }
}

/// The surface that the shared context is current on after the first `i`
/// actions, when it was current on `start` before them.
pub open spec fn bound_after(actions: Seq<Action>, start: Option<Surface>, i: nat) -> Option<
    Surface,
>
    decreases i,
{
    if i == 0 {
        start
    } else {
        match actions[i - 1] {
            Action::MakeCurrent(s) => Some(s),
            _ => bound_after(actions, start, (i - 1) as nat),
        }
    }
}

/// Every draw or present action targets the surface that the context is
/// current on at that point.
pub open spec fn binds_before_drawing(actions: Seq<Action>, start: Option<Surface>) -> bool {
    forall|i: int|
        0 <= i < actions.len() && (#[trigger] target_of(actions[i])) is Some ==> bound_after(
            actions,
            start,
            i as nat,
        ) == target_of(actions[i])
}

proof fn lemma_bound_after_concat(x: Seq<Action>, y: Seq<Action>, start: Option<Surface>, i: nat)
    requires
        i <= x.len() + y.len(),
    ensures
        i <= x.len() ==> bound_after(x + y, start, i) == bound_after(x, start, i),
        i > x.len() ==> bound_after(x + y, start, i) == bound_after(
            y,
            bound_after(x, start, x.len()),
            (i - x.len()) as nat,
        ),
    decreases i,
{
    if i > 0 {
        lemma_bound_after_concat(x, y, start, (i - 1) as nat);
        if i <= x.len() {
            assert((x + y)[i - 1] == x[i - 1]);
        } else {
            assert((x + y)[i - 1] == y[i - 1 - x.len()]);
        }
    }
}

/// Bindings compose: actions that draw only on the bound surface, followed
/// by actions that do so from where the first left the context, draw only on
/// the bound surface as a whole.
pub proof fn lemma_binding_composes(x: Seq<Action>, y: Seq<Action>, start: Option<Surface>)
    requires
        binds_before_drawing(x, start),
        binds_before_drawing(y, bound_after(x, start, x.len())),
    ensures
        binds_before_drawing(x + y, start),
        bound_after(x + y, start, (x.len() + y.len()) as nat) == bound_after(
            y,
            bound_after(x, start, x.len()),
            y.len(),
        ),
{
    let xy = x + y;
    assert forall|i: int|
        0 <= i < xy.len() && (#[trigger] target_of(xy[i])) is Some implies bound_after(
            xy,
            start,
            i as nat,
        ) == target_of(xy[i]) by {
        lemma_bound_after_concat(x, y, start, i as nat);
        if i < x.len() {
            assert(xy[i] == x[i]);
        } else {
            assert(xy[i] == y[i - x.len()]);
            if i == x.len() {
                lemma_bound_after_concat(x, y, start, i as nat);
            }
        }
    }
    lemma_bound_after_concat(x, y, start, (x.len() + y.len()) as nat);
    if y.len() == 0 {
        assert(xy =~= x);
    }
}

/// A frame of either surface binds the context to that surface before any
/// draw or present, whatever the context was bound to before, and leaves it
/// bound there; so frames of the two surfaces can follow each other in any
/// order (see `lemma_binding_composes`).
pub proof fn lemma_frames_bind_first(start: Option<Surface>, open: bool, fps: Option<u32>)
    ensures
        binds_before_drawing(primary_frame_actions(open, fps), start),
        bound_after(
            primary_frame_actions(open, fps),
            start,
            primary_frame_actions(open, fps).len(),
        ) == Some(Surface::Primary),
        binds_before_drawing(controls_frame_actions(), start),
        bound_after(controls_frame_actions(), start, controls_frame_actions().len())
            == Some(Surface::Secondary),
{
    let p = primary_frame_actions(open, fps);
    let k: nat = if open {
        1
    } else {
        0
    };
    assert(p[k as int] == Action::MakeCurrent(Surface::Primary));
    assert(bound_after(p, start, k + 1) == Some(Surface::Primary));
    assert(bound_after(p, start, k + 2) == Some(Surface::Primary));
    assert(bound_after(p, start, k + 3) == Some(Surface::Primary));
    assert(bound_after(p, start, k + 4) == Some(Surface::Primary));
    if fps is Some {
        assert(bound_after(p, start, k + 5) == Some(Surface::Primary));
    }
    assert forall|i: int| 0 <= i < p.len() && (#[trigger] target_of(p[i])) is Some implies bound_after(
        p,
        start,
        i as nat,
    ) == target_of(p[i]) by {
        if open && i == 0 {
            assert(p[0] == Action::ResumeAudio);
        }
    }
    let c = controls_frame_actions();
    assert(bound_after(c, start, 1) == Some(Surface::Secondary));
    assert(bound_after(c, start, 2) == Some(Surface::Secondary));
    assert(bound_after(c, start, 3) == Some(Surface::Secondary));
    assert(bound_after(c, start, 4) == Some(Surface::Secondary));
    assert(bound_after(c, start, 5) == Some(Surface::Secondary));
}

} // verus!
