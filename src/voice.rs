//! Sounding voices: one-shot voices that run out, and held voices that loop.
use crate::buffer::SampleBuffer;
use vstd::prelude::*;

verus! {

/// Abstract state of a one-shot voice: its samples and its read cursor.
pub struct VoiceView {
    pub samples: Seq<i32>,
    pub cursor: nat,
}

/// Abstract state of a held (looping) voice, keyed by its trigger.
pub struct HeldView {
    pub key: char,
    pub samples: Seq<i32>,
    pub cursor: nat,
}

impl VoiceView {
    /// A voice that has not played anything yet.
    pub open spec fn fresh(samples: Seq<i32>) -> VoiceView {
        VoiceView { samples, cursor: 0 }
    }

    /// The voice still has a sample to play.
    pub open spec fn is_live(self) -> bool {
        self.cursor < self.samples.len()
    }

    /// The sample this voice plays next (meaningful while live).
    pub open spec fn current(self) -> int {
        self.samples[self.cursor as int] as int
    }

    pub open spec fn advanced(self) -> VoiceView {
        VoiceView { samples: self.samples, cursor: self.cursor + 1 }
    }
}

impl HeldView {
    /// A looping voice's cursor stays inside its buffer (at 0 for an empty one).
    pub open spec fn wf(self) -> bool {
        self.cursor < self.samples.len() || (self.samples.len() == 0 && self.cursor == 0)
    }

    /// The sample this voice plays next: silence for an empty buffer.
    pub open spec fn current(self) -> int {
        if self.samples.len() == 0 {
            0
        } else {
            self.samples[self.cursor as int] as int
        }
    }

    /// The voice after one sample: the cursor wraps round to the start.
    pub open spec fn advanced(self) -> HeldView {
        HeldView {
            key: self.key,
            samples: self.samples,
            cursor: if self.cursor + 1 < self.samples.len() {
                (self.cursor + 1) as nat
            } else {
                0
            },
        }
    }
}

/// The one-shot voices that still have samples left, in their order.
pub open spec fn live(s: Seq<VoiceView>) -> Seq<VoiceView>
    decreases s.len(),
{
    if s.len() == 0 {
        s
    } else if s[0].is_live() {
        seq![s[0]] + live(s.skip(1))
    } else {
        live(s.skip(1))
    }
}

/// Sum of the next samples of a sequence of one-shot voices.
pub open spec fn regular_mix(s: Seq<VoiceView>) -> int
    decreases s.len(),
{
    if s.len() == 0 {
        0
    } else {
        s[0].current() + regular_mix(s.skip(1))
    }
}

/// Sum of the next samples of a sequence of held voices.
pub open spec fn held_mix(h: Seq<HeldView>) -> int
    decreases h.len(),
{
    if h.len() == 0 {
        0
    } else {
        h[0].current() + held_mix(h.skip(1))
    }
}

/// The abstract states of a sequence of one-shot voices.
pub open spec fn regular_views(s: Seq<RegularVoice>) -> Seq<VoiceView> {
    s.map_values(|v: RegularVoice| v@)
}

/// The abstract states of a sequence of held voices.
pub open spec fn held_views(s: Seq<HeldVoice>) -> Seq<HeldView> {
    s.map_values(|v: HeldVoice| v@)
}

/// Every voice that `live` keeps has a sample left.
pub proof fn lemma_live_is_live(s: Seq<VoiceView>)
    ensures
        live(s).len() <= s.len(),
        forall|j: int| 0 <= j < live(s).len() ==> (#[trigger] live(s)[j]).is_live(),
    decreases s.len(),
{
    if s.len() > 0 {
        lemma_live_is_live(s.skip(1));
        let rest = live(s.skip(1));
        if s[0].is_live() {
            assert forall|j: int| 0 <= j < live(s).len() implies (#[trigger] live(s)[j]).is_live() by {
                if j > 0 {
                    assert(live(s)[j] == rest[j - 1]);
                }
            }
        }
    }
}

/// Every one-shot voice moved on by one sample.
pub open spec fn advance_regular(s: Seq<VoiceView>) -> Seq<VoiceView> {
    s.map_values(|v: VoiceView| v.advanced())
}

/// Every held voice moved on by one sample.
pub open spec fn advance_held(h: Seq<HeldView>) -> Seq<HeldView> {
    h.map_values(|v: HeldView| v.advanced())
}

/// A one-shot voice: a buffer and a read cursor.
pub struct RegularVoice {
    buffer: SampleBuffer,
    cursor: usize,
}

impl View for RegularVoice {
    type V = VoiceView;

    closed spec fn view(&self) -> VoiceView {
        VoiceView { samples: self.buffer@, cursor: self.cursor as nat }
    }
}

impl RegularVoice {
    pub fn new(buffer: SampleBuffer) -> (v: RegularVoice)
        ensures
            v@ == VoiceView::fresh(buffer@),
    {
        RegularVoice { buffer, cursor: 0 }
    }

    pub fn is_live(&self) -> (r: bool)
        ensures
            r == self@.is_live(),
    {
        self.cursor < self.buffer.len()
    }

    /// Plays one sample and moves the cursor on.
    pub fn next_sample(&mut self) -> (r: i32)
        requires
            old(self)@.is_live(),
        ensures
            r as int == old(self)@.current(),
            final(self)@ == old(self)@.advanced(),
    {
        let len = self.buffer.len();
        let r = self.buffer.sample(self.cursor);
        assert(self.cursor + 1 <= len);
        self.cursor = self.cursor + 1;
        r
    }
}

/// A held voice: a buffer that loops for as long as its trigger holds it.
pub struct HeldVoice {
    key: char,
    buffer: SampleBuffer,
    cursor: usize,
}

impl View for HeldVoice {
    type V = HeldView;

    closed spec fn view(&self) -> HeldView {
        HeldView { key: self.key, samples: self.buffer@, cursor: self.cursor as nat }
    }
}

impl HeldVoice {
    pub fn new(key: char, buffer: SampleBuffer) -> (v: HeldVoice)
        ensures
            v@ == (HeldView { key, samples: buffer@, cursor: 0 }),
    {
        HeldVoice { key, buffer, cursor: 0 }
    }

    pub fn key(&self) -> (r: char)
        ensures
            r == self@.key,
    {
        self.key
    }

    /// Plays one sample and moves the cursor on, wrapping round at the end.
    pub fn next_sample(&mut self) -> (r: i32)
        requires
            old(self)@.wf(),
        ensures
            r as int == old(self)@.current(),
            final(self)@ == old(self)@.advanced(),
            final(self)@.wf(),
    {
        let len = self.buffer.len();
        if len == 0 {
            0
        } else {
            let r = self.buffer.sample(self.cursor);
            if self.cursor + 1 < len {
                self.cursor = self.cursor + 1;
            } else {
                self.cursor = 0;
            }
            r
        }
    }
}

} // verus!
