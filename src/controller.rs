//! The control-plane handle: turns intent into commands, mirrors state.
use crate::buffer::SampleBuffer;
use crate::channel::{drain_pending, open_channel, send_to};
use crate::error::ChannelClosed;
use crate::key_set::{
    empty_key_set, key_order, key_set_clear, key_set_contains, key_set_insert,
    key_set_shift_remove,
};
use crate::mixer::{Mixer, MixerCommand};
use indexmap::IndexSet;
use std::sync::mpsc::{Receiver, Sender};
use vstd::prelude::*;

verus! {

/// Abstract state of a controller: its recording flags and its mirror of
/// the held keys, in the order they were held.
pub struct ControllerView {
    pub recording_main: bool,
    pub recording_secondary: bool,
    pub held: Seq<char>,
}

impl ControllerView {
    /// No key is mirrored twice.
    pub open spec fn wf(self) -> bool {
        self.held.no_duplicates()
    }
}

/// The held-key mirror after a toggle of `key`: the key leaves if it was
/// there (the others keep their order), else it joins at the end.
pub open spec fn toggled_keys(s: Seq<char>, key: char) -> Seq<char> {
    if s.contains(key) {
        s.remove(choose|i: int| 0 <= i < s.len() && s[i] == key)
    } else {
        s.push(key)
    }
}

/// Thread-safe handle through which the control role drives a `Mixer`.
///
/// Its mirror of the held keys stays in step with the mixer's held voices
/// because commands are delivered in order and none is lost.
pub struct MixerController {
    is_recording_main: bool,
    is_recording_secondary: bool,
    command_tx: Sender<MixerCommand>,
    main_recording_rx: Receiver<i32>,
    secondary_recording_rx: Receiver<i32>,
    held_sources: IndexSet<char>,
    sent: Ghost<Seq<MixerCommand>>,
    pair: Ghost<int>,
}

/// A command log after one send: the command joins it when the send
/// succeeded.
pub open spec fn logged(sent: Seq<MixerCommand>, ok: bool, c: MixerCommand) -> Seq<MixerCommand> {
    if ok {
        sent.push(c)
    } else {
        sent
    }
}

impl View for MixerController {
    type V = ControllerView;

    closed spec fn view(&self) -> ControllerView {
        ControllerView {
            recording_main: self.is_recording_main,
            recording_secondary: self.is_recording_secondary,
            held: key_order(self.held_sources),
        }
    }
}

/// A connected controller and mixer, both starting with the recording
/// flags given and no voices.
pub fn new_mixer(is_recording_main: bool, is_recording_secondary: bool) -> (r: (
    MixerController,
    Mixer,
))
    ensures
        r.0@ == (ControllerView {
            recording_main: is_recording_main,
            recording_secondary: is_recording_secondary,
            held: Seq::empty(),
        }),
        r.0@.wf(),
        r.1@.regular.len() == 0,
        r.1@.held.len() == 0,
        r.1@.recording_main == is_recording_main,
        r.1@.recording_secondary == is_recording_secondary,
        r.1@.wf(),
        r.0.sent() == Seq::<MixerCommand>::empty(),
        r.0.pair() == r.1.pair(),
{
    let ghost pair: int = 0;
    let (command_tx, command_rx) = open_channel();
    let (main_recording_tx, main_recording_rx) = open_channel();
    let (secondary_recording_tx, secondary_recording_rx) = open_channel();
    let controller = MixerController {
        is_recording_main,
        is_recording_secondary,
        command_tx,
        main_recording_rx,
        secondary_recording_rx,
        held_sources: empty_key_set(),
        sent: Ghost(Seq::empty()),
        pair: Ghost(pair),
    };
    let mixer = Mixer::new(
        is_recording_main,
        is_recording_secondary,
        command_rx,
        main_recording_tx,
        secondary_recording_tx,
        Ghost(pair),
    );
    (controller, mixer)
}

impl MixerController {
    /// Every command this controller has handed to its mixer, in order.
    pub closed spec fn sent(&self) -> Seq<MixerCommand> {
        self.sent@
    }

    /// Identifies the mixer this controller was built with (see `Mixer::pair`).
    pub closed spec fn pair(&self) -> int {
        self.pair@
    }

    /// Sends a command; `ChannelClosed` when the mixer is gone.
    fn send(&mut self, c: MixerCommand) -> (r: Result<(), ChannelClosed>)
        ensures
            final(self)@ == old(self)@,
            final(self).pair() == old(self).pair(),
            final(self).sent() == logged(old(self).sent(), r is Ok, c),
    {
        let ghost cg = c;
        if send_to(&self.command_tx, c) {
            proof {
                self.sent@ = self.sent@.push(cg);
            }
            Ok(())
        } else {
            Err(ChannelClosed)
        }
    }

    /// Starts a one-shot voice on the buffer.
    pub fn add(&mut self, source: SampleBuffer) -> (r: Result<(), ChannelClosed>)
        ensures
            final(self)@ == old(self)@,
            final(self).pair() == old(self).pair(),
            final(self).sent() == logged(old(self).sent(), r is Ok, MixerCommand::Source(source)),
    {
        self.send(MixerCommand::Source(source))
    }

    /// Holds the key's buffer in a loop, or releases the key if it is held.
    pub fn toggle_hold(&mut self, key: char, source: SampleBuffer) -> (r: Result<(), ChannelClosed>)
        requires
            old(self)@.wf(),
        ensures
            final(self).pair() == old(self).pair(),
            final(self).sent() == logged(old(self).sent(), r is Ok, MixerCommand::ToggleHold(key, source)),
            final(self)@.wf(),
            final(self)@.recording_main == old(self)@.recording_main,
            final(self)@.recording_secondary == old(self)@.recording_secondary,
            r is Ok ==> final(self)@.held == toggled_keys(old(self)@.held, key),
            r is Err ==> final(self)@.held == old(self)@.held,
    {
        self.send(MixerCommand::ToggleHold(key, source))?;
        let ghost s = self@.held;
        if key_set_contains(&self.held_sources, key) {
            key_set_shift_remove(&mut self.held_sources, key);
            proof {
                let i = choose|i: int| 0 <= i < s.len() && s[i] == key && key_order(
                    self.held_sources,
                ) == #[trigger] s.remove(i);
                let c = choose|i: int| 0 <= i < s.len() && s[i] == key;
                assert(i == c);
                assert forall|a: int, b: int|
                    0 <= a < b < self@.held.len() implies self@.held[a] != self@.held[b] by {
                    let ia = if a < i { a } else { a + 1 };
                    let ib = if b < i { b } else { b + 1 };
                    assert(self@.held[a] == s[ia]);
                    assert(self@.held[b] == s[ib]);
                }
            }
        } else {
            key_set_insert(&mut self.held_sources, key);
            proof {
                assert forall|a: int, b: int|
                    0 <= a < b < self@.held.len() implies self@.held[a] != self@.held[b] by {
                    if b == s.len() {
                        assert(self@.held[b] == key);
                        assert(self@.held[a] == s[a]);
                    }
                }
            }
        }
        Ok(())
    }

    pub fn start_main_recording(&mut self) -> (r: Result<(), ChannelClosed>)
        ensures
            final(self).pair() == old(self).pair(),
            final(self).sent() == logged(old(self).sent(), r is Ok, MixerCommand::StartMainRecording),
            r is Ok ==> final(self)@ == (ControllerView { recording_main: true, ..old(self)@ }),
            r is Err ==> final(self)@ == old(self)@,
    {
        self.send(MixerCommand::StartMainRecording)?;
        self.is_recording_main = true;
        Ok(())
    }

    pub fn start_secondary_recording(&mut self) -> (r: Result<(), ChannelClosed>)
        ensures
            final(self).pair() == old(self).pair(),
            final(self).sent() == logged(old(self).sent(), r is Ok, MixerCommand::StartSecondaryRecording),
            r is Ok ==> final(self)@ == (ControllerView {
                recording_secondary: true,
                ..old(self)@
            }),
            r is Err ==> final(self)@ == old(self)@,
    {
        self.send(MixerCommand::StartSecondaryRecording)?;
        self.is_recording_secondary = true;
        Ok(())
    }

    /// Silences every voice and forgets every held key.
    pub fn stop_playback(&mut self) -> (r: Result<(), ChannelClosed>)
        ensures
            final(self).pair() == old(self).pair(),
            final(self).sent() == logged(old(self).sent(), r is Ok, MixerCommand::StopPlayback),
            r is Ok ==> final(self)@ == (ControllerView { held: Seq::empty(), ..old(self)@ }),
            r is Err ==> final(self)@ == old(self)@,
    {
        self.send(MixerCommand::StopPlayback)?;
        key_set_clear(&mut self.held_sources);
        Ok(())
    }

    /// Every sample the main session's tap has delivered so far, in order.
    pub fn get_main_recording(&mut self) -> (r: Vec<i32>)
        ensures
            final(self).pair() == old(self).pair(),
            final(self).sent() == old(self).sent(),
            final(self)@ == old(self)@,
    {
        drain_pending(&self.main_recording_rx)
    }

    /// Every sample the secondary session's tap has delivered so far, in order.
    pub fn get_secondary_recording(&mut self) -> (r: Vec<i32>)
        ensures
            final(self).pair() == old(self).pair(),
            final(self).sent() == old(self).sent(),
            final(self)@ == old(self)@,
    {
        drain_pending(&self.secondary_recording_rx)
    }

    /// Stops the main session and hands back what it captured since the
    /// samples were last drained.
    pub fn stop_main_recording(&mut self) -> (r: Result<Vec<i32>, ChannelClosed>)
        ensures
            final(self).pair() == old(self).pair(),
            final(self).sent() == logged(old(self).sent(), r is Ok, MixerCommand::StopMainRecording),
            r is Ok ==> final(self)@ == (ControllerView { recording_main: false, ..old(self)@ }),
            r is Err ==> final(self)@ == old(self)@,
    {
        self.send(MixerCommand::StopMainRecording)?;
        self.is_recording_main = false;
        Ok(self.get_main_recording())
    }

    /// Stops the secondary session and hands back what it captured since
    /// the samples were last drained.
    pub fn stop_secondary_recording(&mut self) -> (r: Result<Vec<i32>, ChannelClosed>)
        ensures
            final(self).pair() == old(self).pair(),
            final(self).sent() == logged(old(self).sent(), r is Ok, MixerCommand::StopSecondaryRecording),
            r is Ok ==> final(self)@ == (ControllerView {
                recording_secondary: false,
                ..old(self)@
            }),
            r is Err ==> final(self)@ == old(self)@,
    {
        self.send(MixerCommand::StopSecondaryRecording)?;
        self.is_recording_secondary = false;
        Ok(self.get_secondary_recording())
    }

    /// The held keys, in the order they were held.
    pub fn held_sources(&self) -> (r: &IndexSet<char>)
        ensures
            key_order(*r) == self@.held,
    {
        &self.held_sources
    }

    pub fn is_recording_main(&self) -> (r: bool)
        ensures
            r == self@.recording_main,
    {
        self.is_recording_main
    }

    pub fn is_recording_secondary(&self) -> (r: bool)
        ensures
            r == self@.recording_secondary,
    {
        self.is_recording_secondary
    }
}

} // verus!
