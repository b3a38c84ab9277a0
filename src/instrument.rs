//! The owning side of the engine: validates buffers at the boundary, keeps
//! recordings safe across a rebuild of the audio pipeline.
use crate::buffer::SampleBuffer;
use crate::controller::{logged, new_mixer, toggled_keys, ControllerView, MixerController};
use crate::error::{FormatMismatch, InstrumentError};
use crate::key_set::key_order;
use crate::mixer::{Mixer, MixerCommand};
use crate::CHANNEL_NUM;
use indexmap::IndexSet;
use vstd::prelude::*;

verus! {

/// The command a fired trigger sends: a loop toggle or a one-shot voice.
pub open spec fn trigger_command(key: char, source: SampleBuffer, toggle_hold: bool) -> MixerCommand {
    if toggle_hold {
        MixerCommand::ToggleHold(key, source)
    } else {
        MixerCommand::Source(source)
    }
}

/// The format check a buffer must pass before it reaches the mixer: the
/// channel count is checked first, then the sample rate.
pub open spec fn format_check(channels: u16, rate: u32, sample_rate: u32) -> Result<
    (),
    FormatMismatch,
> {
    if channels != CHANNEL_NUM {
        Err(FormatMismatch::Channels { expected: CHANNEL_NUM, actual: channels })
    } else if rate != sample_rate {
        Err(FormatMismatch::SampleRate { expected_rate: sample_rate, actual_rate: rate })
    } else {
        Ok(())
    }
}

/// Checks that a buffer has the mixer's channel count and `sample_rate`.
pub fn check_format(source: &SampleBuffer, sample_rate: u32) -> (r: Result<(), FormatMismatch>)
    ensures
        r == format_check(source.channel_count(), source.rate(), sample_rate),
{
    let channels = source.channels();
    let rate = source.sample_rate();
    if channels != CHANNEL_NUM {
        Err(FormatMismatch::Channels { expected: CHANNEL_NUM, actual: channels })
    } else if rate != sample_rate {
        Err(FormatMismatch::SampleRate { expected_rate: sample_rate, actual_rate: rate })
    } else {
        Ok(())
    }
}

/// Abstract state of an instrument: its controller and the samples salvaged
/// from earlier audio pipelines for each session.
pub struct InstrumentView {
    pub controller: ControllerView,
    pub partial_main: Seq<i32>,
    pub partial_secondary: Seq<i32>,
}

/// The control side of a performance: a mixer controller, plus whatever the
/// recording sessions captured before the audio pipeline was last rebuilt.
pub struct Instrument {
    mixer_controller: MixerController,
    partial_main_recording: Vec<i32>,
    partial_secondary_recording: Vec<i32>,
}

impl View for Instrument {
    type V = InstrumentView;

    closed spec fn view(&self) -> InstrumentView {
        InstrumentView {
            controller: self.mixer_controller@,
            partial_main: self.partial_main_recording@,
            partial_secondary: self.partial_secondary_recording@,
        }
    }
}

impl Instrument {
    /// Every command the current controller has handed to its mixer.
    pub closed spec fn sent(&self) -> Seq<MixerCommand> {
        self.mixer_controller.sent()
    }

    /// Identifies the mixer the current controller drives.
    pub closed spec fn pair(&self) -> int {
        self.mixer_controller.pair()
    }

    /// An instrument with nothing recorded, and the mixer it drives.
    pub fn new() -> (r: (Instrument, Mixer))
        ensures
            r.0.sent() == Seq::<MixerCommand>::empty(),
            r.0.pair() == r.1.pair(),
            r.0@.controller == (ControllerView {
                recording_main: false,
                recording_secondary: false,
                held: Seq::empty(),
            }),
            r.0@.partial_main.len() == 0,
            r.0@.partial_secondary.len() == 0,
            r.1@.regular.len() == 0,
            r.1@.held.len() == 0,
            !r.1@.recording_main,
            !r.1@.recording_secondary,
            r.1@.wf(),
    {
        let (mixer_controller, mixer) = new_mixer(false, false);
        (
            Instrument {
                mixer_controller,
                partial_main_recording: Vec::new(),
                partial_secondary_recording: Vec::new(),
            },
            mixer,
        )
    }

    /// Rebuilds the engine: drains what the old mixer's taps delivered into
    /// the salvaged recordings, then replaces the controller with a fresh
    /// one and returns its mixer.  Recording flags carry over; voices and
    /// held keys do not.
    pub fn reinit_audio(&mut self) -> (m: Mixer)
        ensures
            final(self).sent() == Seq::<MixerCommand>::empty(),
            m.pair() == final(self).pair(),
            final(self)@.controller == (ControllerView {
                held: Seq::empty(),
                ..old(self)@.controller
            }),
            exists|d: Seq<i32>| final(self)@.partial_main == old(self)@.partial_main + d,
            exists|d: Seq<i32>| final(self)@.partial_secondary == old(self)@.partial_secondary + d,
            m@.regular.len() == 0,
            m@.held.len() == 0,
            m@.recording_main == old(self)@.controller.recording_main,
            m@.recording_secondary == old(self)@.controller.recording_secondary,
            m@.wf(),
    {
        let ghost pm = self@.partial_main;
        let ghost ps = self@.partial_secondary;
        let mut main_recording = self.mixer_controller.get_main_recording();
        let ghost dm = main_recording@;
        self.partial_main_recording.append(&mut main_recording);
        let mut secondary_recording = self.mixer_controller.get_secondary_recording();
        let ghost ds = secondary_recording@;
        self.partial_secondary_recording.append(&mut secondary_recording);
        assert(self@.partial_main == pm + dm);
        assert(self@.partial_secondary == ps + ds);
        let (mixer_controller, mixer) = new_mixer(
            self.mixer_controller.is_recording_main(),
            self.mixer_controller.is_recording_secondary(),
        );
        self.mixer_controller = mixer_controller;
        mixer
    }

    /// Fires the buffer bound to `key`: holds or releases it when
    /// `toggle_hold`, else starts a one-shot voice.  `source` is what the
    /// key is bound to, if anything; `sample_rate` is the output's rate.
    pub fn add_to_mixer(
        &mut self,
        key: char,
        source: Option<SampleBuffer>,
        toggle_hold: bool,
        sample_rate: u32,
    ) -> (r: Result<(), InstrumentError>)
        requires
            old(self)@.controller.wf(),
        ensures
            final(self).pair() == old(self).pair(),
            final(self)@.partial_main == old(self)@.partial_main,
            final(self)@.partial_secondary == old(self)@.partial_secondary,
            final(self)@.controller.wf(),
            final(self)@.controller.recording_main == old(self)@.controller.recording_main,
            final(self)@.controller.recording_secondary == old(self)@.controller.recording_secondary,
            match source {
                None => r == Err::<(), InstrumentError>(InstrumentError::UnknownTrigger(key))
                    && final(self).sent() == old(self).sent(),
                Some(b) => match format_check(b.channel_count(), b.rate(), sample_rate) {
                    Err(f) => r == Err::<(), InstrumentError>(InstrumentError::FormatMismatch(f))
                        && final(self).sent() == old(self).sent(),
                    Ok(_) => (r is Ok || r == Err::<(), InstrumentError>(
                        InstrumentError::ChannelClosed,
                    )) && final(self).sent() == logged(
                        old(self).sent(),
                        r is Ok,
                        trigger_command(key, b, toggle_hold),
                    ),
                },
            },
            r is Ok && toggle_hold ==> final(self)@.controller.held == toggled_keys(
                old(self)@.controller.held,
                key,
            ),
            !(r is Ok && toggle_hold) ==> final(self)@.controller.held == old(self)@.controller.held,
    {
        let source = match source {
            Some(s) => s,
            None => {
                return Err(InstrumentError::UnknownTrigger(key));
            },
        };
        match check_format(&source, sample_rate) {
            Ok(()) => {},
            Err(f) => {
                return Err(InstrumentError::FormatMismatch(f));
            },
        }
        let sent = if toggle_hold {
            self.mixer_controller.toggle_hold(key, source)
        } else {
            self.mixer_controller.add(source)
        };
        match sent {
            Ok(()) => Ok(()),
            Err(_) => Err(InstrumentError::ChannelClosed),
        }
    }

    pub fn start_main_recording(&mut self) -> (r: Result<(), InstrumentError>)
        ensures
            final(self).pair() == old(self).pair(),
            final(self).sent() == logged(old(self).sent(), r is Ok, MixerCommand::StartMainRecording),
            r is Ok ==> final(self)@ == (InstrumentView {
                controller: ControllerView { recording_main: true, ..old(self)@.controller },
                ..old(self)@
            }),
            r is Err ==> final(self)@ == old(self)@ && r == Err::<(), InstrumentError>(
                InstrumentError::ChannelClosed,
            ),
    {
        match self.mixer_controller.start_main_recording() {
            Ok(()) => Ok(()),
            Err(_) => Err(InstrumentError::ChannelClosed),
        }
    }

    pub fn start_secondary_recording(&mut self) -> (r: Result<(), InstrumentError>)
        ensures
            final(self).pair() == old(self).pair(),
            final(self).sent() == logged(old(self).sent(), r is Ok, MixerCommand::StartSecondaryRecording),
            r is Ok ==> final(self)@ == (InstrumentView {
                controller: ControllerView { recording_secondary: true, ..old(self)@.controller },
                ..old(self)@
            }),
            r is Err ==> final(self)@ == old(self)@ && r == Err::<(), InstrumentError>(
                InstrumentError::ChannelClosed,
            ),
    {
        match self.mixer_controller.start_secondary_recording() {
            Ok(()) => Ok(()),
            Err(_) => Err(InstrumentError::ChannelClosed),
        }
    }

    pub fn stop_playback(&mut self) -> (r: Result<(), InstrumentError>)
        ensures
            final(self).pair() == old(self).pair(),
            final(self).sent() == logged(old(self).sent(), r is Ok, MixerCommand::StopPlayback),
            r is Ok ==> final(self)@ == (InstrumentView {
                controller: ControllerView { held: Seq::empty(), ..old(self)@.controller },
                ..old(self)@
            }),
            r is Err ==> final(self)@ == old(self)@ && r == Err::<(), InstrumentError>(
                InstrumentError::ChannelClosed,
            ),
    {
        match self.mixer_controller.stop_playback() {
            Ok(()) => Ok(()),
            Err(_) => Err(InstrumentError::ChannelClosed),
        }
    }

    /// Stops the main session, then all playback; hands back what the
    /// session captured since its samples were last drained.
    pub fn stop_main_recording_and_playback(&mut self) -> (r: Result<Vec<i32>, InstrumentError>)
        ensures
            final(self).pair() == old(self).pair(),
            exists|stopped: bool, cleared: bool|
                final(self).sent() == #[trigger] logged(
                    logged(old(self).sent(), stopped, MixerCommand::StopMainRecording),
                    cleared,
                    MixerCommand::StopPlayback,
                ) && (r is Ok <==> stopped && cleared),
            final(self)@.partial_main == old(self)@.partial_main,
            final(self)@.partial_secondary == old(self)@.partial_secondary,
            final(self)@.controller.recording_secondary == old(self)@.controller.recording_secondary,
            r is Ok ==> !final(self)@.controller.recording_main && final(self)@.controller.held.len() == 0,
            r is Err ==> r == Err::<Vec<i32>, InstrumentError>(InstrumentError::ChannelClosed),
    {
        let ghost before = self.sent();
        let ret = self.mixer_controller.stop_main_recording();
        let cleared = self.stop_playback();
        assert(self.sent() == logged(
            logged(before, ret is Ok, MixerCommand::StopMainRecording),
            cleared is Ok,
            MixerCommand::StopPlayback,
        ));
        match (cleared, ret) {
            (Ok(()), Ok(v)) => Ok(v),
            _ => Err(InstrumentError::ChannelClosed),
        }
    }

    /// Stops the secondary session, then all playback; hands back what the
    /// session captured since its samples were last drained.
    pub fn stop_secondary_recording_and_playback(&mut self) -> (r: Result<
        Vec<i32>,
        InstrumentError,
    >)
        ensures
            final(self).pair() == old(self).pair(),
            exists|stopped: bool, cleared: bool|
                final(self).sent() == #[trigger] logged(
                    logged(old(self).sent(), stopped, MixerCommand::StopSecondaryRecording),
                    cleared,
                    MixerCommand::StopPlayback,
                ) && (r is Ok <==> stopped && cleared),
            final(self)@.partial_main == old(self)@.partial_main,
            final(self)@.partial_secondary == old(self)@.partial_secondary,
            final(self)@.controller.recording_main == old(self)@.controller.recording_main,
            r is Ok ==> !final(self)@.controller.recording_secondary && final(self)@.controller.held.len() == 0,
            r is Err ==> r == Err::<Vec<i32>, InstrumentError>(InstrumentError::ChannelClosed),
    {
        let ghost before = self.sent();
        let ret = self.mixer_controller.stop_secondary_recording();
        let cleared = self.stop_playback();
        assert(self.sent() == logged(
            logged(before, ret is Ok, MixerCommand::StopSecondaryRecording),
            cleared is Ok,
            MixerCommand::StopPlayback,
        ));
        match (cleared, ret) {
            (Ok(()), Ok(v)) => Ok(v),
            _ => Err(InstrumentError::ChannelClosed),
        }
    }

    /// The whole main recording to save under `name`: the salvaged samples
    /// followed by `recording`.  An empty name saves nothing and keeps the
    /// salvaged samples.
    pub fn save_main_recording(&mut self, recording: Vec<i32>, name: &str) -> (r: Option<
        Vec<i32>,
    >)
        ensures
            final(self).pair() == old(self).pair(),
            final(self).sent() == old(self).sent(),
            name@.len() == 0 ==> r is None && final(self)@ == old(self)@,
            name@.len() != 0 ==> r is Some && r->0@ == old(self)@.partial_main + recording@ && final(self)@
                == (InstrumentView { partial_main: Seq::empty(), ..old(self)@ }),
    {
        if name.is_empty() {
            return None;
        }
        let mut out: Vec<i32> = Vec::new();
        std::mem::swap(&mut out, &mut self.partial_main_recording);
        let mut recording = recording;
        out.append(&mut recording);
        Some(out)
    }

    /// The whole secondary recording to keep under `name`: the salvaged
    /// samples followed by `recording`.  An empty name keeps nothing and
    /// keeps the salvaged samples.
    pub fn save_secondary_recording(&mut self, recording: Vec<i32>, name: &str) -> (r: Option<
        Vec<i32>,
    >)
        ensures
            final(self).pair() == old(self).pair(),
            final(self).sent() == old(self).sent(),
            name@.len() == 0 ==> r is None && final(self)@ == old(self)@,
            name@.len() != 0 ==> r is Some && r->0@ == old(self)@.partial_secondary + recording@ && final(self)@ == (InstrumentView { partial_secondary: Seq::empty(), ..old(self)@ }),
    {
        if name.is_empty() {
            return None;
        }
        let mut out: Vec<i32> = Vec::new();
        std::mem::swap(&mut out, &mut self.partial_secondary_recording);
        let mut recording = recording;
        out.append(&mut recording);
        Some(out)
    }

    /// The held keys, in the order they were held.
    pub fn held_sources(&self) -> (r: &IndexSet<char>)
        ensures
            key_order(*r) == self@.controller.held,
    {
        self.mixer_controller.held_sources()
    }

    pub fn is_recording_main(&self) -> (r: bool)
        ensures
            r == self@.controller.recording_main,
    {
        self.mixer_controller.is_recording_main()
    }

    pub fn is_recording_secondary(&self) -> (r: bool)
        ensures
            r == self@.controller.recording_secondary,
    {
        self.mixer_controller.is_recording_secondary()
    }
}

} // verus!
