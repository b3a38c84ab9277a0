//! The render engine: applies commands, sums voices, feeds recording taps.
use crate::buffer::SampleBuffer;
use crate::channel::{drain_pending, send_to};
use crate::voice::{
    advance_held, advance_regular, held_mix, held_views, live, regular_mix, regular_views,
    lemma_live_is_live, HeldView, HeldVoice, RegularVoice, VoiceView,
};
use crate::FULL_SCALE;
use std::sync::mpsc::{Receiver, Sender};
use vstd::prelude::*;

verus! {

/// A request from the control role to the render role.
pub enum MixerCommand {
    /// Start a one-shot voice on the buffer.
    Source(SampleBuffer),
    /// Start looping the buffer under the key, or stop the key's loop.
    ToggleHold(char, SampleBuffer),
    StartMainRecording,
    StartSecondaryRecording,
    StopMainRecording,
    StopSecondaryRecording,
    /// Silence every voice, one-shot and held.
    StopPlayback,
}

/// A recording session; each has its own tap.
#[derive(Clone, Copy, Debug, PartialEq, Eq, Structural)]
pub enum Session {
    Main,
    Secondary,
}

/// The command that starts a session.
pub open spec fn start_command(s: Session) -> MixerCommand {
    match s {
        Session::Main => MixerCommand::StartMainRecording,
        Session::Secondary => MixerCommand::StartSecondaryRecording,
    }
}

/// The command that stops a session.
pub open spec fn stop_command(s: Session) -> MixerCommand {
    match s {
        Session::Main => MixerCommand::StopMainRecording,
        Session::Secondary => MixerCommand::StopSecondaryRecording,
    }
}

/// What a session's tap has been sent: one more sample when it is active.
pub open spec fn tap_after(tap: Seq<i32>, active: bool, sample: i32) -> Seq<i32> {
    if active {
        tap.push(sample)
    } else {
        tap
    }
}

/// Abstract state of the render engine.
pub struct MixerView {
    pub regular: Seq<VoiceView>,
    pub held: Seq<HeldView>,
    pub recording_main: bool,
    pub recording_secondary: bool,
}

impl MixerView {
    /// Held voices are well formed and at most one is held per key.
    pub open spec fn wf(self) -> bool {
        &&& forall|i: int| 0 <= i < self.held.len() ==> (#[trigger] self.held[i]).wf()
        &&& forall|i: int, j: int|
            0 <= i < j < self.held.len() ==> (#[trigger] self.held[i]).key
                != (#[trigger] self.held[j]).key
    }

    /// The session is recording.
    pub open spec fn records(self, s: Session) -> bool {
        match s {
            Session::Main => self.recording_main,
            Session::Secondary => self.recording_secondary,
        }
    }

    /// The keys whose buffers are looping.
    pub open spec fn held_keys(self) -> Set<char> {
        Set::new(|k: char| has_key(self.held, k))
    }
}

/// Some held voice is keyed by `key`.
pub open spec fn has_key(h: Seq<HeldView>, key: char) -> bool {
    exists|i: int| 0 <= i < h.len() && (#[trigger] h[i]).key == key
}

/// The held voices after a toggle of `key`: its voice goes if it is there,
/// else a fresh loop of `samples` joins at the end.
pub open spec fn toggled_held(h: Seq<HeldView>, key: char, samples: Seq<i32>) -> Seq<HeldView> {
    if has_key(h, key) {
        h.remove(choose|i: int| 0 <= i < h.len() && (#[trigger] h[i]).key == key)
    } else {
        h.push(HeldView { key, samples, cursor: 0 })
    }
}

/// The effect of one command on the engine's state.
pub open spec fn apply_command(m: MixerView, c: MixerCommand) -> MixerView {
    match c {
        MixerCommand::Source(b) => MixerView { regular: m.regular.push(VoiceView::fresh(b@)), ..m },
        MixerCommand::ToggleHold(k, b) => MixerView { held: toggled_held(m.held, k, b@), ..m },
        MixerCommand::StartMainRecording => MixerView { recording_main: true, ..m },
        MixerCommand::StartSecondaryRecording => MixerView { recording_secondary: true, ..m },
        MixerCommand::StopMainRecording => MixerView { recording_main: false, ..m },
        MixerCommand::StopSecondaryRecording => MixerView { recording_secondary: false, ..m },
        MixerCommand::StopPlayback => MixerView { regular: Seq::empty(), held: Seq::empty(), ..m },
    }
}

/// The effect of a batch of commands, applied in order.
pub open spec fn apply_commands(m: MixerView, cs: Seq<MixerCommand>) -> MixerView
    decreases cs.len(),
{
    if cs.len() == 0 {
        m
    } else {
        apply_command(apply_commands(m, cs.drop_last()), cs.last())
    }
}

/// `x` limited to the range of an output sample.
pub open spec fn clamp(x: int) -> int {
    if x > FULL_SCALE {
        FULL_SCALE as int
    } else if x < -FULL_SCALE {
        -FULL_SCALE
    } else {
        x
    }
}

/// The sample rendered from state `m`: every live one-shot voice and every
/// held voice summed, then clamped.
pub open spec fn render_value(m: MixerView) -> int {
    clamp(regular_mix(live(m.regular)) + held_mix(m.held))
}

/// The state after rendering one sample from `m`: spent one-shot voices are
/// purged, the rest move on, and the held voices loop.
pub open spec fn rendered(m: MixerView) -> MixerView {
    MixerView {
        regular: live(advance_regular(live(m.regular))),
        held: advance_held(m.held),
        ..m
    }
}

/// The render engine, pulled one sample at a time by the audio output.
pub struct Mixer {
    command_rx: Receiver<MixerCommand>,
    regular_sources: Vec<RegularVoice>,
    // Held voices keyed by trigger, at most one per key (see `MixerView::wf`).
    // A `Vec` rather than a `HashMap`: every sample visits each held voice and
    // moves its cursor in place, and vstd specifies no mutable iteration over
    // a `HashMap`'s values.
    held_sources: Vec<HeldVoice>,
    is_recording_main: bool,
    is_recording_secondary: bool,
    main_recording_tx: Sender<i32>,
    secondary_recording_tx: Sender<i32>,
    main_tap: Ghost<Seq<i32>>,
    secondary_tap: Ghost<Seq<i32>>,
    pair: Ghost<int>,
}

impl View for Mixer {
    type V = MixerView;

    closed spec fn view(&self) -> MixerView {
        MixerView {
            regular: regular_views(self.regular_sources@),
            held: held_views(self.held_sources@),
            recording_main: self.is_recording_main,
            recording_secondary: self.is_recording_secondary,
        }
    }
}

/// Plays one sample of every one-shot voice, all of them live; returns the sum.
fn mix_regular(v: &mut Vec<RegularVoice>) -> (acc: i128)
    requires
        forall|j: int| 0 <= j < old(v).len() ==> (#[trigger] regular_views(old(v)@)[j]).is_live(),
    ensures
        acc == regular_mix(regular_views(old(v)@)),
        regular_views(final(v)@) == advance_regular(regular_views(old(v)@)),
        -(old(v).len() * 2147483648) <= acc <= old(v).len() * 2147483648,
{
    let ghost o = regular_views(v@);
    let n = v.len();
    let mut acc: i128 = 0;
    let mut i = n;
    while i > 0
        invariant
            i <= n,
            n == v.len(),
            o.len() == n,
            forall|j: int| 0 <= j < o.len() ==> (#[trigger] o[j]).is_live(),
            regular_views(v@) == o.take(i as int) + advance_regular(o.skip(i as int)),
            acc == regular_mix(o.skip(i as int)),
            -((n - i) * 2147483648) <= acc <= (n - i) * 2147483648,
        decreases i,
    {
        i = i - 1;
        assert(o.skip(i as int).skip(1) =~= o.skip(i + 1));
        assert(o.skip(i as int)[0] == o[i as int]);
        assert(regular_views(v@)[i as int] == o[i as int]);
        assert(v@[i as int]@ == regular_views(v@)[i as int]);
        let ghost before = v@;
        let s = v[i].next_sample();
        assert(regular_views(v@) =~= regular_views(before).update(i as int, o[i as int].advanced()));
        assert(regular_views(v@) =~= o.take(i as int) + advance_regular(o.skip(i as int)));
        acc = acc + s as i128;
    }
    assert(o.skip(0) =~= o);
    assert(o.take(0) + advance_regular(o) =~= advance_regular(o));
    acc
}

/// Plays one sample of every held voice; returns the sum.
fn mix_held(v: &mut Vec<HeldVoice>) -> (acc: i128)
    requires
        forall|j: int| 0 <= j < old(v).len() ==> (#[trigger] held_views(old(v)@)[j]).wf(),
    ensures
        acc == held_mix(held_views(old(v)@)),
        held_views(final(v)@) == advance_held(held_views(old(v)@)),
        -(old(v).len() * 2147483648) <= acc <= old(v).len() * 2147483648,
{
    let ghost o = held_views(v@);
    let n = v.len();
    let mut acc: i128 = 0;
    let mut i = n;
    while i > 0
        invariant
            i <= n,
            n == v.len(),
            o.len() == n,
            forall|j: int| 0 <= j < o.len() ==> (#[trigger] o[j]).wf(),
            held_views(v@) == o.take(i as int) + advance_held(o.skip(i as int)),
            acc == held_mix(o.skip(i as int)),
            -((n - i) * 2147483648) <= acc <= (n - i) * 2147483648,
        decreases i,
    {
        i = i - 1;
        assert(o.skip(i as int).skip(1) =~= o.skip(i + 1));
        assert(o.skip(i as int)[0] == o[i as int]);
        assert(held_views(v@)[i as int] == o[i as int]);
        assert(v@[i as int]@ == held_views(v@)[i as int]);
        let ghost before = v@;
        let s = v[i].next_sample();
        assert(held_views(v@) =~= held_views(before).update(i as int, o[i as int].advanced()));
        assert(held_views(v@) =~= o.take(i as int) + advance_held(o.skip(i as int)));
        acc = acc + s as i128;
    }
    assert(o.skip(0) =~= o);
    assert(o.take(0) + advance_held(o) =~= advance_held(o));
    acc
}

/// Keeps the one-shot voices that have a sample left, in their order.
fn purge(v: &mut Vec<RegularVoice>)
    ensures
        regular_views(final(v)@) == live(regular_views(old(v)@)),
{
    let ghost o = regular_views(v@);
    let mut i = v.len();
    while i > 0
        invariant
            i <= o.len(),
            i <= v.len(),
            regular_views(v@) == o.take(i as int) + live(o.skip(i as int)),
        decreases i,
    {
        i = i - 1;
        assert(regular_views(v@).len() == v@.len());
        assert(o.skip(i as int).skip(1) =~= o.skip(i + 1));
        assert(o.take(i + 1) =~= o.take(i as int).push(o[i as int]));
        assert(o.skip(i as int)[0] == o[i as int]);
        assert(regular_views(v@)[i as int] == o[i as int]);
        assert(v@[i as int]@ == regular_views(v@)[i as int]);
        if !v[i].is_live() {
            let ghost before = v@;
            v.remove(i);
            assert(regular_views(v@) =~= regular_views(before).remove(i as int));
            assert(regular_views(v@) =~= o.take(i as int) + live(o.skip(i as int)));
        } else {
            assert(regular_views(v@) =~= o.take(i as int) + live(o.skip(i as int)));
        }
    }
    assert(o.skip(0) =~= o);
    assert(o.take(0) + live(o) =~= live(o));
}

/// Position of the held voice keyed by `key`, if one is.
fn find_held(v: &Vec<HeldVoice>, key: char) -> (r: Option<usize>)
    ensures
        match r {
            Some(i) => i < v.len() && held_views(v@)[i as int].key == key,
            None => !has_key(held_views(v@), key),
        },
{
    let mut i: usize = 0;
    while i < v.len()
        invariant
            i <= v.len(),
            forall|j: int| 0 <= j < i ==> (#[trigger] held_views(v@)[j]).key != key,
        decreases v.len() - i,
    {
        assert(v@[i as int]@ == held_views(v@)[i as int]);
        if v[i].key() == key {
            return Some(i);
        }
        i = i + 1;
    }
    None
}

impl Mixer {
    /// Every sample this mixer has handed to the session's tap, in order.
    pub closed spec fn tap(&self, s: Session) -> Seq<i32> {
        match s {
            Session::Main => self.main_tap@,
            Session::Secondary => self.secondary_tap@,
        }
    }

    /// Identifies the controller this mixer was built with: the two share
    /// their channels just when they have the same pair.
    pub closed spec fn pair(&self) -> int {
        self.pair@
    }

    pub(crate) fn new(
        is_recording_main: bool,
        is_recording_secondary: bool,
        command_rx: Receiver<MixerCommand>,
        main_recording_tx: Sender<i32>,
        secondary_recording_tx: Sender<i32>,
        pair: Ghost<int>,
    ) -> (m: Mixer)
        ensures
            m.pair() == pair@,
            m@.regular.len() == 0,
            m@.held.len() == 0,
            m@.recording_main == is_recording_main,
            m@.recording_secondary == is_recording_secondary,
            m@.wf(),
            m.tap(Session::Main).len() == 0,
            m.tap(Session::Secondary).len() == 0,
    {
        let m = Mixer {
            command_rx,
            regular_sources: Vec::new(),
            held_sources: Vec::new(),
            is_recording_main,
            is_recording_secondary,
            main_recording_tx,
            secondary_recording_tx,
            main_tap: Ghost(Seq::empty()),
            secondary_tap: Ghost(Seq::empty()),
            pair,
        };
        assert(m@.regular =~= Seq::empty());
        assert(m@.held =~= Seq::empty());
        m
    }

    /// Number of one-shot voices in the voice set.
    pub fn active_regular_voices(&self) -> (r: usize)
        ensures
            r == self@.regular.len(),
    {
        self.regular_sources.len()
    }

    /// Number of held voices in the voice set.
    pub fn active_held_voices(&self) -> (r: usize)
        ensures
            r == self@.held.len(),
    {
        self.held_sources.len()
    }

    /// The keys of the held voices, in the order they were held.
    pub fn held_keys(&self) -> (r: Vec<char>)
        ensures
            r@ == self@.held.map_values(|h: HeldView| h.key),
    {
        let mut r: Vec<char> = Vec::new();
        let mut i: usize = 0;
        while i < self.held_sources.len()
            invariant
                i <= self.held_sources.len(),
                r@ == self@.held.take(i as int).map_values(|h: HeldView| h.key),
            decreases self.held_sources.len() - i,
        {
            assert(self.held_sources@[i as int]@ == self@.held[i as int]);
            r.push(self.held_sources[i].key());
            assert(self@.held.take(i + 1) =~= self@.held.take(i as int).push(self@.held[i as int]));
            assert(r@ =~= self@.held.take(i + 1).map_values(|h: HeldView| h.key));
            i = i + 1;
        }
        assert(self@.held.take(i as int) =~= self@.held);
        r
    }

    /// Applies one command to the voice set or the recording flags.
    pub fn apply_command(&mut self, c: MixerCommand)
        requires
            old(self)@.wf(),
        ensures
            final(self)@ == apply_command(old(self)@, c),
            final(self)@.wf(),
            final(self).tap(Session::Main) == old(self).tap(Session::Main),
            final(self).tap(Session::Secondary) == old(self).tap(Session::Secondary),
            final(self).pair() == old(self).pair(),
    {
        let ghost m = self@;
        let ghost cc = c;
        match c {
            MixerCommand::Source(b) => {
                self.regular_sources.push(RegularVoice::new(b));
                assert(self@.regular =~= m.regular.push(VoiceView::fresh(b@)));
            },
            MixerCommand::ToggleHold(k, b) => {
                let ghost h = m.held;
                match find_held(&self.held_sources, k) {
                    Some(i) => {
                        self.held_sources.remove(i);
                        let ghost c = choose|j: int| 0 <= j < h.len() && (#[trigger] h[j]).key == k;
                        assert(h[i as int].key == k);
                        assert(c == i);
                        assert(self@.held =~= h.remove(i as int));
                    },
                    None => {
                        self.held_sources.push(HeldVoice::new(k, b));
                        assert(self@.held =~= h.push(HeldView { key: k, samples: b@, cursor: 0 }));
                    },
                }
                assert(self@.held == toggled_held(h, k, b@));
            },
            MixerCommand::StartMainRecording => {
                self.is_recording_main = true;
            },
            MixerCommand::StartSecondaryRecording => {
                self.is_recording_secondary = true;
            },
            MixerCommand::StopMainRecording => {
                self.is_recording_main = false;
            },
            MixerCommand::StopSecondaryRecording => {
                self.is_recording_secondary = false;
            },
            MixerCommand::StopPlayback => {
                self.regular_sources.clear();
                self.held_sources.clear();
                assert(self@.regular =~= Seq::empty());
                assert(self@.held =~= Seq::empty());
            },
        }
    }

    /// Computes one output sample: purges spent one-shot voices, sums the
    /// next sample of every voice, clamps the sum, and moves every voice on.
    ///
    /// Purging is eager: a one-shot voice leaves the voice set in the same
    /// call that plays its last sample, so the set never holds a spent voice
    /// between calls and its size stays bounded by the voices still sounding.
    pub fn render(&mut self) -> (r: i32)
        requires
            old(self)@.wf(),
        ensures
            r as int == render_value(old(self)@),
            final(self)@ == rendered(old(self)@),
            final(self)@.wf(),
            -FULL_SCALE <= r <= FULL_SCALE,
            final(self).tap(Session::Main) == old(self).tap(Session::Main),
            final(self).tap(Session::Secondary) == old(self).tap(Session::Secondary),
            final(self).pair() == old(self).pair(),
    {
        let ghost m = self@;
        purge(&mut self.regular_sources);
        proof {
            lemma_live_is_live(m.regular);
        }
        let a = mix_regular(&mut self.regular_sources);
        assert(held_views(self.held_sources@) == m.held);
        assert forall|j: int| 0 <= j < self.held_sources.len() implies (#[trigger] held_views(
            self.held_sources@,
        )[j]).wf() by {
            assert(m.held[j].wf());
        }
        let b = mix_held(&mut self.held_sources);
        purge(&mut self.regular_sources);
        let total = a + b;
        assert forall|i: int| 0 <= i < self@.held.len() implies (#[trigger] self@.held[i]).wf()
            && self@.held[i].key == m.held[i].key by {
            assert(m.held[i].wf());
        }
        let r: i32 = if total > FULL_SCALE as i128 {
            FULL_SCALE
        } else if total < -(FULL_SCALE as i128) {
            -FULL_SCALE
        } else {
            total as i32
        };
        r
    }

    /// Applies every command pending on the command channel, in the order
    /// sent; returns the commands applied.
    fn handle_events(&mut self) -> (applied: Ghost<Seq<MixerCommand>>)
        requires
            old(self)@.wf(),
        ensures
            final(self)@ == apply_commands(old(self)@, applied@),
            final(self)@.wf(),
            final(self).tap(Session::Main) == old(self).tap(Session::Main),
            final(self).tap(Session::Secondary) == old(self).tap(Session::Secondary),
            final(self).pair() == old(self).pair(),
    {
        let ghost m = self@;
        let ghost mut applied: Seq<MixerCommand> = Seq::empty();
        let commands = drain_pending(&self.command_rx);
        for c in commands
            invariant
                self@ == apply_commands(m, applied),
                self@.wf(),
                self.tap(Session::Main) == old(self).tap(Session::Main),
                self.tap(Session::Secondary) == old(self).tap(Session::Secondary),
                self.pair() == old(self).pair(),
        {
            proof {
                assert(applied.push(c).drop_last() =~= applied);
                applied = applied.push(c);
            }
            self.apply_command(c);
        }
        Ghost(applied)
    }

    /// Pulls one output sample.
    ///
    /// Applies every pending command, renders the sample, and forwards it to
    /// each active recording session.  Returns `None`, a fatal fault, only
    /// when an active session's tap is gone.
    pub fn next(&mut self) -> (r: Option<i32>)
        requires
            old(self)@.wf(),
        ensures
            final(self)@.wf(),
            final(self).pair() == old(self).pair(),
            exists|cs: Seq<MixerCommand>|
                {
                    &&& final(self)@ == rendered(#[trigger] apply_commands(old(self)@, cs))
                    &&& match r {
                        Some(v) => v == render_value(apply_commands(old(self)@, cs)),
                        None => final(self)@.recording_main || final(self)@.recording_secondary,
                    }
                },
            r matches Some(v) ==> final(self).tap(Session::Main) == tap_after(
                old(self).tap(Session::Main),
                final(self)@.recording_main,
                v,
            ),
            r matches Some(v) ==> final(self).tap(Session::Secondary) == tap_after(
                old(self).tap(Session::Secondary),
                final(self)@.recording_secondary,
                v,
            ),
    {
        let ghost m = self@;
        let applied = self.handle_events();
        let sample = self.render();
        assert(self@ == rendered(apply_commands(m, applied@)));
        if self.is_recording_main {
            if !send_to(&self.main_recording_tx, sample) {
                return None;
            }
            proof {
                self.main_tap@ = self.main_tap@.push(sample);
            }
        }
        if self.is_recording_secondary {
            if !send_to(&self.secondary_recording_tx, sample) {
                return None;
            }
            proof {
                self.secondary_tap@ = self.secondary_tap@.push(sample);
            }
        }
        Some(sample)
    }
}

} // verus!
