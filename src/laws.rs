//! Properties of the engine that span several commands and pulls.
use crate::buffer::SampleBuffer;
use crate::controller::toggled_keys;
use crate::mixer::{
    apply_command, apply_commands, has_key, render_value, rendered, start_command,
    toggled_held, MixerCommand, MixerView, Session,
};
use crate::voice::{
    advance_regular, held_mix, live, regular_mix, HeldView, VoiceView,
};
use crate::FULL_SCALE;
use vstd::prelude::*;

verus! {

/// The engine's state after a run of pulls; each pull first applies its own
/// batch of commands.
pub open spec fn state_after(m: MixerView, batches: Seq<Seq<MixerCommand>>) -> MixerView
    decreases batches.len(),
{
    if batches.len() == 0 {
        m
    } else {
        rendered(apply_commands(state_after(m, batches.drop_last()), batches.last()))
    }
}

/// The samples a run of pulls yields, in order.
pub open spec fn outputs(m: MixerView, batches: Seq<Seq<MixerCommand>>) -> Seq<int>
    decreases batches.len(),
{
    if batches.len() == 0 {
        Seq::empty()
    } else {
        outputs(m, batches.drop_last()).push(
            render_value(apply_commands(state_after(m, batches.drop_last()), batches.last())),
        )
    }
}

/// The samples a run of pulls hands to a session's tap, in order.
pub open spec fn recorded(m: MixerView, batches: Seq<Seq<MixerCommand>>, s: Session) -> Seq<int>
    decreases batches.len(),
{
    if batches.len() == 0 {
        Seq::empty()
    } else {
        let before = apply_commands(state_after(m, batches.drop_last()), batches.last());
        let rest = recorded(m, batches.drop_last(), s);
        if before.records(s) {
            rest.push(render_value(before))
        } else {
            rest
        }
    }
}

/// `k` pulls: the first applies `first`, the others find no command.
pub open spec fn pulls(first: Seq<MixerCommand>, k: nat) -> Seq<Seq<MixerCommand>> {
    Seq::new(k, |i: int| if i == 0 { first } else { Seq::empty() })
}

/// One `Source` command per buffer, in order.
pub open spec fn sources(bufs: Seq<SampleBuffer>) -> Seq<MixerCommand> {
    bufs.map_values(|b: SampleBuffer| MixerCommand::Source(b))
}

/// The one-shot voices on `bufs` that are still sounding after `k` samples.
pub open spec fn ongoing(bufs: Seq<SampleBuffer>, k: nat) -> Seq<VoiceView>
    decreases bufs.len(),
{
    if bufs.len() == 0 {
        Seq::empty()
    } else {
        let rest = ongoing(bufs.skip(1), k);
        if k < bufs[0]@.len() {
            seq![VoiceView { samples: bufs[0]@, cursor: k }] + rest
        } else {
            rest
        }
    }
}

proof fn lemma_sources_applied(m: MixerView, bufs: Seq<SampleBuffer>)
    ensures
        apply_commands(m, sources(bufs)) == (MixerView {
            regular: m.regular + bufs.map_values(|b: SampleBuffer| VoiceView::fresh(b@)),
            ..m
        }),
    decreases bufs.len(),
{
    if bufs.len() > 0 {
        assert(sources(bufs).drop_last() =~= sources(bufs.drop_last()));
        lemma_sources_applied(m, bufs.drop_last());
        assert(m.regular + bufs.map_values(|b: SampleBuffer| VoiceView::fresh(b@)) =~= (m.regular
            + bufs.drop_last().map_values(|b: SampleBuffer| VoiceView::fresh(b@))).push(
            VoiceView::fresh(bufs.last()@),
        ));
    } else {
        assert(m.regular + bufs.map_values(|b: SampleBuffer| VoiceView::fresh(b@)) =~= m.regular);
    }
}

proof fn lemma_live_fresh(bufs: Seq<SampleBuffer>)
    ensures
        live(bufs.map_values(|b: SampleBuffer| VoiceView::fresh(b@))) == ongoing(bufs, 0),
    decreases bufs.len(),
{
    let f = bufs.map_values(|b: SampleBuffer| VoiceView::fresh(b@));
    if bufs.len() > 0 {
        assert(f.skip(1) =~= bufs.skip(1).map_values(|b: SampleBuffer| VoiceView::fresh(b@)));
        lemma_live_fresh(bufs.skip(1));
    }
}

proof fn lemma_ongoing_step(bufs: Seq<SampleBuffer>, k: nat)
    ensures
        live(ongoing(bufs, k)) == ongoing(bufs, k),
        live(advance_regular(ongoing(bufs, k))) == ongoing(bufs, k + 1),
    decreases bufs.len(),
{
    if bufs.len() > 0 {
        lemma_ongoing_step(bufs.skip(1), k);
        let rest = ongoing(bufs.skip(1), k);
        let o = ongoing(bufs, k);
        if k < bufs[0]@.len() {
            assert(o.skip(1) =~= rest);
            assert(advance_regular(o).skip(1) =~= advance_regular(rest));
        } else {
            assert(o =~= rest);
        }
    }
}

proof fn lemma_ongoing_empty(bufs: Seq<SampleBuffer>, k: nat)
    ensures
        ongoing(bufs, k).len() == 0 <==> forall|i: int| 0 <= i < bufs.len() ==> (#[trigger] bufs[i])@.len() <= k,
    decreases bufs.len(),
{
    if bufs.len() > 0 {
        lemma_ongoing_empty(bufs.skip(1), k);
        if forall|i: int| 0 <= i < bufs.len() ==> (#[trigger] bufs[i])@.len() <= k {
            assert forall|i: int| 0 <= i < bufs.skip(1).len() implies (#[trigger] bufs.skip(1)[i])@.len() <= k by {
                assert(bufs.skip(1)[i] == bufs[i + 1]);
            }
        } else if k >= bufs[0]@.len() {
            let i = choose|i: int| 0 <= i < bufs.len() && !((#[trigger] bufs[i])@.len() <= k);
            assert(bufs.skip(1)[i - 1] == bufs[i]);
        }
    }
}

proof fn lemma_regular_after_pulls(m: MixerView, bufs: Seq<SampleBuffer>, k: nat)
    requires
        m.regular.len() == 0,
        k >= 1,
    ensures
        state_after(m, pulls(sources(bufs), k)).regular == ongoing(bufs, k),
    decreases k,
{
    let b = pulls(sources(bufs), k);
    if k == 1 {
        assert(b.drop_last() =~= Seq::<Seq<MixerCommand>>::empty());
        lemma_sources_applied(m, bufs);
        assert(m.regular + bufs.map_values(|b: SampleBuffer| VoiceView::fresh(b@)) =~= bufs.map_values(
            |b: SampleBuffer| VoiceView::fresh(b@),
        ));
        lemma_live_fresh(bufs);
        lemma_ongoing_step(bufs, 0);
        assert(state_after(m, b.drop_last()) == m);
        assert(b.last() == sources(bufs));
    } else {
        assert(b.drop_last() =~= pulls(sources(bufs), (k - 1) as nat));
        lemma_regular_after_pulls(m, bufs, (k - 1) as nat);
        assert(b.last() =~= Seq::<MixerCommand>::empty());
        let prev = state_after(m, b.drop_last());
        assert(apply_commands(prev, b.last()) == prev);
        lemma_ongoing_step(bufs, (k - 1) as nat);
    }
}

/// One-shot voices added together run out exactly when the longest does:
/// after `k` pulls, the first of which applies one `Source` command per
/// buffer to an engine with no one-shot voice, no one-shot voice is left
/// just when `k` is at least every buffer's length.
pub proof fn lemma_one_shots_end_with_longest(m: MixerView, bufs: Seq<SampleBuffer>, k: nat)
    requires
        m.regular.len() == 0,
        k >= 1,
    ensures
        state_after(m, pulls(sources(bufs), k)).regular.len() == 0 <==> forall|i: int|
            0 <= i < bufs.len() ==> (#[trigger] bufs[i])@.len() <= k,
{
    lemma_regular_after_pulls(m, bufs, k);
    lemma_ongoing_empty(bufs, k);
}

/// Toggling a key twice leaves the controller's held-key mirror holding the
/// same keys as before.
pub proof fn lemma_toggle_hold_self_inverse(s: Seq<char>, key: char)
    requires
        s.no_duplicates(),
    ensures
        toggled_keys(s, key).no_duplicates(),
        toggled_keys(toggled_keys(s, key), key).to_set() == s.to_set(),
{
    let t = toggled_keys(s, key);
    if s.contains(key) {
        let i = choose|i: int| 0 <= i < s.len() && s[i] == key;
        assert(t == s.remove(i));
        assert forall|a: int, b: int| 0 <= a < b < t.len() implies t[a] != t[b] by {
            let ia = if a < i { a } else { a + 1 };
            let ib = if b < i { b } else { b + 1 };
            assert(t[a] == s[ia]);
            assert(t[b] == s[ib]);
        }
        assert(!t.contains(key)) by {
            if t.contains(key) {
                let j = choose|j: int| 0 <= j < t.len() && t[j] == key;
                let jj = if j < i { j } else { j + 1 };
                assert(s[jj] == key);
            }
        }
        let u = t.push(key);
        assert(toggled_keys(t, key) == u);
        assert forall|x: char| u.to_set().contains(x) == s.to_set().contains(x) by {
            if x == key {
                assert(u[t.len() as int] == x);
            } else if s.contains(x) {
                let j = choose|j: int| 0 <= j < s.len() && s[j] == x;
                assert(j != i);
                let jj = if j < i { j } else { j - 1 };
                assert(t[jj] == x);
                assert(u[jj] == x);
            } else if u.contains(x) {
                let j = choose|j: int| 0 <= j < u.len() && u[j] == x;
                let jj = if j < i { j } else { j + 1 };
                assert(s[jj] == x);
            }
        }
        assert(u.to_set() =~= s.to_set());
    } else {
        assert(t == s.push(key));
        assert forall|a: int, b: int| 0 <= a < b < t.len() implies t[a] != t[b] by {
            if b == s.len() {
                assert(t[a] == s[a]);
            }
        }
        assert(t[s.len() as int] == key);
        assert(t.contains(key));
        let i = choose|i: int| 0 <= i < t.len() && t[i] == key;
        assert(i == s.len());
        assert(t.remove(i) =~= s);
    }
}

/// Toggling a key twice, with the same buffer, leaves the mixer holding
/// loops on the same keys as before.
pub proof fn lemma_held_toggle_self_inverse(m: MixerView, key: char, b: SampleBuffer)
    requires
        m.wf(),
    ensures
        apply_command(apply_command(m, MixerCommand::ToggleHold(key, b)), MixerCommand::ToggleHold(key, b)).held_keys()
            == m.held_keys(),
{
    let h = m.held;
    let t = toggled_held(h, key, b@);
    let u = toggled_held(t, key, b@);
    if has_key(h, key) {
        let i = choose|i: int| 0 <= i < h.len() && (#[trigger] h[i]).key == key;
        assert(t == h.remove(i));
        assert(!has_key(t, key)) by {
            if has_key(t, key) {
                let j = choose|j: int| 0 <= j < t.len() && (#[trigger] t[j]).key == key;
                let jj = if j < i { j } else { j + 1 };
                assert(h[jj].key == key);
            }
        }
        assert(u == t.push(HeldView { key, samples: b@, cursor: 0 }));
        assert forall|x: char| has_key(u, x) == has_key(h, x) by {
            if x == key {
                assert(u[t.len() as int].key == x);
            } else if has_key(h, x) {
                let j = choose|j: int| 0 <= j < h.len() && (#[trigger] h[j]).key == x;
                let jj = if j < i { j } else { j - 1 };
                assert(t[jj].key == x);
                assert(u[jj].key == x);
            } else if has_key(u, x) {
                let j = choose|j: int| 0 <= j < u.len() && (#[trigger] u[j]).key == x;
                let jj = if j < i { j } else { j + 1 };
                assert(h[jj].key == x);
            }
        }
    } else {
        assert(t == h.push(HeldView { key, samples: b@, cursor: 0 }));
        assert(t[h.len() as int].key == key);
        let i = choose|i: int| 0 <= i < t.len() && (#[trigger] t[i]).key == key;
        assert(i == h.len());
        assert(u =~= h);
    }
    assert(apply_command(apply_command(m, MixerCommand::ToggleHold(key, b)), MixerCommand::ToggleHold(key, b)).held_keys()
        =~= m.held_keys());
}

proof fn lemma_regular_mix_full(s: Seq<VoiceView>)
    requires
        forall|i: int| 0 <= i < s.len() ==> (#[trigger] s[i]).current() == FULL_SCALE,
    ensures
        regular_mix(s) == FULL_SCALE * s.len(),
    decreases s.len(),
{
    if s.len() > 0 {
        assert forall|i: int| 0 <= i < s.skip(1).len() implies (#[trigger] s.skip(1)[i]).current() == FULL_SCALE by {
            assert(s.skip(1)[i] == s[i + 1]);
        }
        lemma_regular_mix_full(s.skip(1));
    }
}

proof fn lemma_held_mix_full(h: Seq<HeldView>)
    requires
        forall|i: int| 0 <= i < h.len() ==> (#[trigger] h[i]).current() == FULL_SCALE,
    ensures
        held_mix(h) == FULL_SCALE * h.len(),
    decreases h.len(),
{
    if h.len() > 0 {
        assert forall|i: int| 0 <= i < h.skip(1).len() implies (#[trigger] h.skip(1)[i]).current() == FULL_SCALE by {
            assert(h.skip(1)[i] == h[i + 1]);
        }
        lemma_held_mix_full(h.skip(1));
    }
}

/// Every rendered sample lies in `[-FULL_SCALE, FULL_SCALE]`.
pub proof fn lemma_output_in_range(m: MixerView)
    ensures
        -FULL_SCALE <= render_value(m) <= FULL_SCALE,
{
}

/// Any number of voices that each play full scale (1.0) together render
/// exactly full scale, never more.
pub proof fn lemma_full_scale_voices_clamp(m: MixerView)
    requires
        forall|i: int| 0 <= i < live(m.regular).len() ==> (#[trigger] live(m.regular)[i]).current() == FULL_SCALE,
        forall|i: int| 0 <= i < m.held.len() ==> (#[trigger] m.held[i]).current() == FULL_SCALE,
        live(m.regular).len() + m.held.len() > 0,
    ensures
        render_value(m) == FULL_SCALE,
{
    lemma_regular_mix_full(live(m.regular));
    lemma_held_mix_full(m.held);
    assert(FULL_SCALE * live(m.regular).len() + FULL_SCALE * m.held.len() >= FULL_SCALE) by (nonlinear_arith)
        requires
            live(m.regular).len() + m.held.len() > 0,
    ;
}

/// A pull whose commands end with `StopPlayback` leaves no voice of either
/// kind and yields silence, whatever the recording flags.
pub proof fn lemma_stop_playback_silences(m: MixerView, cs: Seq<MixerCommand>)
    requires
        cs.len() > 0,
        cs.last() is StopPlayback,
    ensures
        apply_commands(m, cs).regular.len() == 0,
        apply_commands(m, cs).held.len() == 0,
        render_value(apply_commands(m, cs)) == 0,
        rendered(apply_commands(m, cs)).regular.len() == 0,
        rendered(apply_commands(m, cs)).held.len() == 0,
{
    let s = apply_commands(m, cs);
    assert(live(s.regular) =~= Seq::<VoiceView>::empty());
    assert(live(advance_regular(live(s.regular))) =~= Seq::<VoiceView>::empty());
}

proof fn lemma_round_trip_run(m: MixerView, first: Seq<MixerCommand>, k: nat, s: Session)
    requires
        first.len() > 0,
        first.last() == start_command(s),
        k >= 1,
    ensures
        recorded(m, pulls(first, k), s) == outputs(m, pulls(first, k)),
        state_after(m, pulls(first, k)).records(s),
    decreases k,
{
    let b = pulls(first, k);
    if k == 1 {
        assert(b.drop_last() =~= Seq::<Seq<MixerCommand>>::empty());
        assert(b.last() == first);
        assert(state_after(m, b.drop_last()) == m);
        assert(recorded(m, b.drop_last(), s) == Seq::<int>::empty());
        assert(outputs(m, b.drop_last()) == Seq::<int>::empty());
        assert(apply_commands(m, first).records(s));
    } else {
        assert(b.drop_last() =~= pulls(first, (k - 1) as nat));
        assert(b.last() =~= Seq::<MixerCommand>::empty());
        lemma_round_trip_run(m, first, (k - 1) as nat, s);
        let prev = state_after(m, b.drop_last());
        assert(apply_commands(prev, b.last()) == prev);
    }
}

/// A session started by the last command before `k` pulls, with no command
/// in the later pulls, is handed exactly the samples yielded, in order.
pub proof fn lemma_recording_round_trip(m: MixerView, first: Seq<MixerCommand>, k: nat, s: Session)
    requires
        first.len() > 0,
        first.last() == start_command(s),
    ensures
        recorded(m, pulls(first, k), s) == outputs(m, pulls(first, k)),
{
    if k == 0 {
        assert(pulls(first, k) =~= Seq::<Seq<MixerCommand>>::empty());
    } else {
        lemma_round_trip_run(m, first, k, s);
    }
}

/// The controller's held-key mirror after it issues `c`.
pub open spec fn mirror_apply(s: Seq<char>, c: MixerCommand) -> Seq<char> {
    match c {
        MixerCommand::ToggleHold(k, _) => toggled_keys(s, k),
        MixerCommand::StopPlayback => Seq::empty(),
        _ => s,
    }
}

/// The controller's held-key mirror after it issues `cs`, in order.
pub open spec fn mirror_apply_all(s: Seq<char>, cs: Seq<MixerCommand>) -> Seq<char>
    decreases cs.len(),
{
    if cs.len() == 0 {
        s
    } else {
        mirror_apply(mirror_apply_all(s, cs.drop_last()), cs.last())
    }
}

/// Applying a command keeps the engine's state well formed.
pub proof fn lemma_apply_command_wf(m: MixerView, c: MixerCommand)
    requires
        m.wf(),
    ensures
        apply_command(m, c).wf(),
{
    if let MixerCommand::ToggleHold(k, b) = c {
        let h = m.held;
        let t = toggled_held(h, k, b@);
        if has_key(h, k) {
            let i = choose|i: int| 0 <= i < h.len() && (#[trigger] h[i]).key == k;
            assert(t == h.remove(i));
            assert forall|a: int, b2: int| 0 <= a < b2 < t.len() implies (#[trigger] t[a]).key
                != (#[trigger] t[b2]).key by {
                let ia = if a < i { a } else { a + 1 };
                let ib = if b2 < i { b2 } else { b2 + 1 };
                assert(t[a] == h[ia]);
                assert(t[b2] == h[ib]);
            }
            assert forall|a: int| 0 <= a < t.len() implies (#[trigger] t[a]).wf() by {
                let ia = if a < i { a } else { a + 1 };
                assert(t[a] == h[ia]);
            }
        } else {
            assert forall|a: int, b2: int| 0 <= a < b2 < t.len() implies (#[trigger] t[a]).key
                != (#[trigger] t[b2]).key by {
                if b2 == h.len() {
                    assert(t[a] == h[a]);
                }
            }
            assert forall|a: int| 0 <= a < t.len() implies (#[trigger] t[a]).wf() by {
                if a < h.len() {
                    assert(t[a] == h[a]);
                }
            }
        }
    }
}

proof fn lemma_mirror_step(s: Seq<char>, m: MixerView, c: MixerCommand)
    requires
        m.wf(),
        s.no_duplicates(),
        s.to_set() == m.held_keys(),
    ensures
        mirror_apply(s, c).no_duplicates(),
        mirror_apply(s, c).to_set() == apply_command(m, c).held_keys(),
{
    match c {
        MixerCommand::ToggleHold(k, b) => {
            lemma_toggle_hold_self_inverse(s, k);
            let t = toggled_keys(s, k);
            let h = m.held;
            let u = toggled_held(h, k, b@);
            assert(s.contains(k) == has_key(h, k)) by {
                assert(s.to_set().contains(k) == m.held_keys().contains(k));
            }
            assert forall|x: char| t.to_set().contains(x) == has_key(u, x) by {
                assert(s.to_set().contains(x) == m.held_keys().contains(x));
                if s.contains(k) {
                    let i = choose|i: int| 0 <= i < s.len() && s[i] == k;
                    let j = choose|j: int| 0 <= j < h.len() && (#[trigger] h[j]).key == k;
                    assert(t == s.remove(i));
                    assert(u == h.remove(j));
                    if t.contains(x) {
                        let a = choose|a: int| 0 <= a < t.len() && t[a] == x;
                        let aa = if a < i { a } else { a + 1 };
                        assert(s[aa] == x);
                        assert(x != k);
                        let q = choose|q: int| 0 <= q < h.len() && (#[trigger] h[q]).key == x;
                        assert(q != j);
                        let qq = if q < j { q } else { q - 1 };
                        assert(u[qq].key == x);
                    }
                    if has_key(u, x) {
                        let a = choose|a: int| 0 <= a < u.len() && (#[trigger] u[a]).key == x;
                        let aa = if a < j { a } else { a + 1 };
                        assert(h[aa].key == x);
                        assert(aa != j);
                        assert(x != k);
                        assert(has_key(h, x));
                        let q = choose|q: int| 0 <= q < s.len() && s[q] == x;
                        assert(q != i);
                        let qq = if q < i { q } else { q - 1 };
                        assert(t[qq] == x);
                    }
                } else {
                    assert(t == s.push(k));
                    assert(u == h.push(HeldView { key: k, samples: b@, cursor: 0 }));
                    if x == k {
                        assert(t[s.len() as int] == x);
                        assert(u[h.len() as int].key == x);
                    } else {
                        if t.contains(x) {
                            let a = choose|a: int| 0 <= a < t.len() && t[a] == x;
                            assert(s[a] == x);
                            let q = choose|q: int| 0 <= q < h.len() && (#[trigger] h[q]).key == x;
                            assert(u[q].key == x);
                        }
                        if has_key(u, x) {
                            let a = choose|a: int| 0 <= a < u.len() && (#[trigger] u[a]).key == x;
                            assert(h[a].key == x);
                            let q = choose|q: int| 0 <= q < s.len() && s[q] == x;
                            assert(t[q] == x);
                        }
                    }
                }
            }
            assert(t.to_set() =~= apply_command(m, c).held_keys());
        },
        MixerCommand::StopPlayback => {
            assert(Seq::<char>::empty().to_set() =~= apply_command(m, c).held_keys());
        },
        _ => {},
    }
}

/// The controller's mirror of the held keys and the mixer's held voices
/// agree on which keys are held, for as long as every command the
/// controller issues reaches the mixer, in order and only once.
pub proof fn lemma_mirror_stays_in_sync(s: Seq<char>, m: MixerView, cs: Seq<MixerCommand>)
    requires
        m.wf(),
        s.no_duplicates(),
        s.to_set() == m.held_keys(),
    ensures
        apply_commands(m, cs).wf(),
        mirror_apply_all(s, cs).no_duplicates(),
        mirror_apply_all(s, cs).to_set() == apply_commands(m, cs).held_keys(),
    decreases cs.len(),
{
    if cs.len() > 0 {
        lemma_mirror_stays_in_sync(s, m, cs.drop_last());
        lemma_mirror_step(
            mirror_apply_all(s, cs.drop_last()),
            apply_commands(m, cs.drop_last()),
            cs.last(),
        );
        lemma_apply_command_wf(apply_commands(m, cs.drop_last()), cs.last());
    }
}

/// Rendering a sample leaves the held keys as they were.
pub proof fn lemma_render_keeps_held_keys(m: MixerView)
    ensures
        rendered(m).held_keys() == m.held_keys(),
{
    let r = rendered(m);
    assert forall|x: char| has_key(r.held, x) == has_key(m.held, x) by {
        if has_key(r.held, x) {
            let a = choose|a: int| 0 <= a < r.held.len() && (#[trigger] r.held[a]).key == x;
            assert(m.held[a].key == x);
        }
        if has_key(m.held, x) {
            let a = choose|a: int| 0 <= a < m.held.len() && (#[trigger] m.held[a]).key == x;
            assert(r.held[a].key == x);
        }
    }
    assert(r.held_keys() =~= m.held_keys());
}

} // verus!
