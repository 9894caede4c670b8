use vstd::prelude::*;

verus! {

/// Channels of a capture session: interleaved stereo.
pub const CAPTURE_CHANNELS: u16 = 2;

/// Sample rate requested for a capture session, in Hz.
pub const CAPTURE_SAMPLE_RATE: u32 = 44100;

/// Frames per captured block.
pub const CAPTURE_BLOCK_FRAMES: u32 = 512;

/// What the library needs to know of one input configuration that a device
/// offers.
#[derive(Debug, Clone, Copy, PartialEq, Eq, Structural)]
pub struct InputConfigInfo {
    pub channels: u16,
    /// Whether the samples are 32-bit floats.
    pub is_f32: bool,
}

/// One step of managing the capture session, in the order it must happen.
#[derive(Debug, Clone, Copy, PartialEq, Eq, Structural)]
pub enum AudioStep {
    /// Stop and release the open session.
    StopSession,
    /// Open a session on `device` with its configuration number `config`.
    OpenSession { device: usize, config: usize },
}

/// Why a device switch left no session open.
#[derive(Debug, Clone, Copy, PartialEq, Eq, Structural)]
pub enum AudioError {
    /// The device offers no 2-channel 32-bit float configuration.
    NoCompatibleFormat,
}

/// Whether a configuration can carry the capture stream.
pub open spec fn config_fits(c: InputConfigInfo) -> bool {
    c.channels == CAPTURE_CHANNELS && c.is_f32
}

/// The first position at or after `k` whose configuration fits.
pub open spec fn first_fit_from(configs: Seq<InputConfigInfo>, k: nat) -> Option<nat>
    decreases configs.len() - k,
{
    if k >= configs.len() {
        None
    } else if config_fits(configs[k as int]) {
        Some(k)
    } else {
        first_fit_from(configs, k + 1)
    }
}

/// The first configuration that fits, if any.
pub open spec fn first_fit(configs: Seq<InputConfigInfo>) -> Option<nat> {
    first_fit_from(configs, 0)
}

/// The steps of switching to `device`: release the open session, if any,
/// then open the new one when a configuration fits.
pub open spec fn switch_steps(open: bool, device: usize, found: Option<nat>) -> Seq<AudioStep> {
    let stop: Seq<AudioStep> = if open {
        seq![AudioStep::StopSession]
    } else {
        seq![]
    };
    match found {
        Some(c) => stop.push(AudioStep::OpenSession { device, config: c as usize }),
        None => stop,
    }
}

/// The first input configuration with two channels of 32-bit floats.
pub fn find_capture_config(configs: &Vec<InputConfigInfo>) -> (r: Option<usize>)
    ensures
        match r {
            Some(i) => first_fit(configs@) == Some(i as nat),
            None => first_fit(configs@) is None,
        },
{
    let mut i: usize = 0;
    while i < configs.len()
        invariant
            i <= configs@.len(),
            first_fit(configs@) == first_fit_from(configs@, i as nat),
        decreases configs@.len() - i,
    {
        let c = configs[i];
        if c.channels == CAPTURE_CHANNELS && c.is_f32 {
            return Some(i);
        }
        i = i + 1;
    }
    None
}

/// The capture device in use and whether a capture session is open on it.
pub struct AudioBridge {
    device: usize,
    open: bool,
}

impl AudioBridge {
    pub closed spec fn device(&self) -> usize {
        self.device
    }

    pub closed spec fn is_open(&self) -> bool {
        self.open
    }

    /// A bridge bound to `device`, with no session open yet.
    pub fn new(device: usize) -> (r: Self)
        ensures
            r.device() == device,
            !r.is_open(),
    {
        AudioBridge { device, open: false }
    }

    /// The device in use.
    pub fn active_device(&self) -> (r: usize)
        ensures
            r == self.device(),
    {
        self.device
    }

    /// Whether a capture session is open.
    pub fn session_open(&self) -> (r: bool)
        ensures
            r == self.is_open(),
    {
        self.open
    }

    /// Switches capture to `device`: the open session, if any, is stopped
    /// first; then a session is opened on the first configuration that fits.
    /// When none fits, the error is returned and no session is left open.
    pub fn switch_device(&mut self, device: usize, configs: &Vec<InputConfigInfo>) -> (r: (
        Vec<AudioStep>,
        Result<(), AudioError>,
    ))
        ensures
            r.0@ == switch_steps(old(self).is_open(), device, first_fit(configs@)),
            final(self).device() == device,
            final(self).is_open() == (first_fit(configs@) is Some),
            (r.1 is Ok) == (first_fit(configs@) is Some),
            r.1 is Err ==> r.1 == Err::<(), AudioError>(AudioError::NoCompatibleFormat),
    {
        let mut steps: Vec<AudioStep> = Vec::new();
        if self.open {
            steps.push(AudioStep::StopSession);
        }
        self.open = false;
        self.device = device;
        let res = match find_capture_config(configs) {
            Some(c) => {
                steps.push(AudioStep::OpenSession { device, config: c });
                self.open = true;
                Ok(())
            },
            None => Err(AudioError::NoCompatibleFormat),
        };
        proof {
            assert(steps@ =~= switch_steps(old(self).is_open(), device, first_fit(configs@)));
        }
        (steps, res)
    }

    /// Stops the open session, if any.
    pub fn stop(&mut self) -> (r: Vec<AudioStep>)
        ensures
            r@ == (if old(self).is_open() {
                seq![AudioStep::StopSession]
            } else {
                seq![]
            }),
            !final(self).is_open(),
            final(self).device() == old(self).device(),
    {
        let mut steps: Vec<AudioStep> = Vec::new();
        if self.open {
            steps.push(AudioStep::StopSession);
            self.open = false;
        }
        proof {
            if old(self).is_open() {
                assert(steps@ =~= seq![AudioStep::StopSession]);
            } else {
                assert(steps@ =~= Seq::<AudioStep>::empty());
            }
        }
        steps
    }
}

/// A device switch tears down the old session exactly once when one was
/// open, never when none was, and the teardown comes before the new session
/// is opened; at most one session is opened, on the requested device.
pub proof fn lemma_switch_tears_down_first(open: bool, device: usize, found: Option<nat>)
    ensures
        ({
            let s = switch_steps(open, device, found);
            &&& open ==> s[0] == AudioStep::StopSession
            &&& forall|i: int|
                0 < i < s.len() ==> s[i] != AudioStep::StopSession
            &&& !open ==> forall|i: int| 0 <= i < s.len() ==> s[i] != AudioStep::StopSession
            &&& forall|i: int, j: int|
                0 <= i < s.len() && 0 <= j < s.len() && s[i] == AudioStep::StopSession
                    && s[j] is OpenSession ==> i < j
            &&& forall|j: int|
                0 <= j < s.len() && s[j] is OpenSession ==> j == s.len() - 1
                    && s[j]->OpenSession_device == device
            &&& (found is Some) == (s.len() > 0 && s.last() is OpenSession)
        }),
{
    let s = switch_steps(open, device, found);
    let stop: Seq<AudioStep> = if open {
        seq![AudioStep::StopSession]
    } else {
        seq![]
    };
    match found {
        Some(c) => {
            assert(s == stop.push(AudioStep::OpenSession { device, config: c as usize }));
        },
        None => {},
    }
}

} // verus!
