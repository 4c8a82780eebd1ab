use vstd::prelude::*;
use vstd::arithmetic::div_mod::{lemma_add_mod_noop_right, lemma_mod_add_multiples_vanish, lemma_small_mod};
use crate::machine::MachineView;

verus! {

/// Ticking `a + b` times is ticking `a` times, then `b` times.
pub proof fn lemma_steps_split(s: MachineView, a: nat, b: nat)
    ensures
        s.steps(a + b) == s.steps(a).steps(b),
    decreases a,
{
    if a > 0 {
        lemma_steps_split(s.step_spec(), (a - 1) as nat, b);
        assert((a + b - 1) as nat == ((a - 1) as nat + b));
    }
}

/// One tick keeps the machine's invariant: the countdown never drops below
/// one tick and the frame index stays within the playing sequence.
pub proof fn lemma_step_keeps_wf(s: MachineView)
    requires
        s.wf(),
    ensures
        s.step_spec().wf(),
{
    if let Some(k) = s.current {
        assert(s.registry.contains_key(k));
    }
}

/// Any number of ticks keeps the machine's invariant: the frame index stays
/// within the playing sequence, and the countdown and frame duration stay at
/// one tick or more.
pub proof fn lemma_ticks_keep_wf(s: MachineView, n: nat)
    requires
        s.wf(),
    ensures
        s.steps(n).wf(),
        s.steps(n).countdown >= 1,
        s.steps(n).frame_duration >= 1,
        s.steps(n).current matches Some(k) ==> s.steps(n).frame < s.steps(n).registry[k].len(),
    decreases n,
{
    if n > 0 {
        lemma_step_keeps_wf(s);
        lemma_ticks_keep_wf(s.step_spec(), (n - 1) as nat);
    }
}

/// Before the hold on a frame expires, ticking only runs the countdown down.
proof fn lemma_countdown_runs(s: MachineView, j: nat)
    requires
        j < s.countdown,
    ensures
        s.steps(j) == (MachineView { countdown: (s.countdown - j) as nat, ..s }),
    decreases j,
{
    if j > 0 {
        lemma_countdown_runs(s.step_spec(), (j - 1) as nat);
    }
}

/// From any state, after the remaining countdown and then `m` more full frame
/// holds, the playing sequence has advanced by `m + 1` frames (wrapping
/// around), and a fresh hold has just begun.
pub proof fn lemma_advance_frames(s: MachineView, m: nat)
    requires
        s.wf(),
        s.current is Some,
    ensures
        s.steps(s.countdown + m * s.frame_duration) == (MachineView {
            frame: ((s.frame + m + 1) % s.registry[s.current->Some_0].len()) as nat,
            countdown: s.frame_duration,
            ..s
        }),
    decreases m,
{
    let k = s.current->Some_0;
    let len = s.registry[k].len();
    assert(s.registry.contains_key(k));
    if m == 0 {
        lemma_countdown_runs(s, (s.countdown - 1) as nat);
        lemma_steps_split(s, (s.countdown - 1) as nat, 1);
        let t = s.steps((s.countdown - 1) as nat);
        assert(t.steps(1) == t.step_spec().steps(0));
        assert(s.countdown + m * s.frame_duration == (s.countdown - 1) as nat + 1) by (nonlinear_arith)
            requires
                m == 0,
                s.countdown >= 1,
        ;
    } else {
        let before = (s.countdown + (m - 1) as nat * s.frame_duration) as nat;
        lemma_advance_frames(s, (m - 1) as nat);
        let u = s.steps(before);
        assert(u.wf());
        lemma_advance_frames(u, 0);
        assert(u.countdown + 0 * u.frame_duration == s.frame_duration) by (nonlinear_arith)
            requires
                u.countdown == s.frame_duration,
        ;
        assert(s.countdown + m * s.frame_duration == before + s.frame_duration) by (nonlinear_arith)
            requires
                before == s.countdown + (m - 1) * s.frame_duration,
                m >= 1,
        ;
        lemma_steps_split(s, before, s.frame_duration);
        lemma_add_mod_noop_right(1, s.frame + m as int, len as int);
        assert((u.frame + 1) % len == (1 + (s.frame + m) % len) % len);
        assert((1 + (s.frame + m)) == s.frame + m + 1);
    }
}

/// Advancing a sequence of `N` frames by exactly `N` frames brings the frame
/// index back to where it started.
pub proof fn lemma_full_loop_returns(s: MachineView)
    requires
        s.wf(),
        s.current is Some,
    ensures
        ({
            let n = s.registry[s.current->Some_0].len();
            s.steps((s.countdown + (n - 1) * s.frame_duration) as nat).frame == s.frame
        }),
{
    let k = s.current->Some_0;
    let n = s.registry[k].len();
    assert(s.registry.contains_key(k));
    lemma_advance_frames(s, (n - 1) as nat);
    assert(s.frame + (n - 1) as nat + 1 == n + s.frame);
    lemma_mod_add_multiples_vanish(s.frame as int, n as int);
    lemma_small_mod(s.frame, n);
}

/// At the start of a hold, playback is periodic: `N * frame_duration` ticks
/// on a sequence of `N` frames return the machine to the very same state.
pub proof fn lemma_playback_period(s: MachineView)
    requires
        s.wf(),
        s.current is Some,
        s.countdown == s.frame_duration,
    ensures
        s.steps(s.registry[s.current->Some_0].len() * s.frame_duration) == s,
{
    let k = s.current->Some_0;
    let n = s.registry[k].len();
    assert(s.registry.contains_key(k));
    lemma_full_loop_returns(s);
    lemma_advance_frames(s, (n - 1) as nat);
    assert(s.countdown + (n - 1) as nat * s.frame_duration == n * s.frame_duration)
        by (nonlinear_arith)
        requires
            s.countdown == s.frame_duration,
            n >= 1,
    ;
}

/// A single-frame sequence stays on its only frame, however many ticks pass.
pub proof fn lemma_single_frame_holds(s: MachineView, n: nat)
    requires
        s.wf(),
        s.current is Some,
        s.registry[s.current->Some_0].len() == 1,
    ensures
        s.steps(n).frame == 0,
    decreases n,
{
    let k = s.current->Some_0;
    assert(s.registry.contains_key(k));
    if n > 0 {
        lemma_step_keeps_wf(s);
        lemma_single_frame_holds(s.step_spec(), (n - 1) as nat);
    }
}

} // verus!
