use std::collections::HashMap;
use vstd::prelude::*;
use crate::sequence::RandomAccessAnimation;

verus! {

broadcast use vstd::std_specs::hash::group_hash_axioms;

/// The key under which a sequence is registered: an application-chosen handle.
pub type StateKey = u64;

/// The caller-facing failures of the machine.
#[derive(Debug, Clone, Copy, PartialEq, Eq, Structural)]
pub enum AnimationError {
    /// `set_animation` was given a key that no sequence is registered under.
    UnknownAnimationState,
    /// A frame was queried before any animation was selected.
    NoAnimationSelected,
}

/// The abstract state of an [`AnimationMachine`].
pub struct MachineView {
    /// Registered sequences, by key.
    pub registry: Map<StateKey, Seq<(i32, i32)>>,
    /// The key of the sequence that is playing, once one was selected.
    pub current: Option<StateKey>,
    /// Index of the displayed frame within the current sequence.
    pub frame: nat,
    /// Ticks left before the next frame advance.
    pub countdown: nat,
    /// Ticks each frame is held.
    pub frame_duration: nat,
    /// The baseline frame duration, restored by `reset_speed`.
    pub default_frame_duration: nat,
}

impl MachineView {
    /// The machine's invariant: durations and countdown are at least one
    /// tick, every registered sequence has a frame, and the frame index lies
    /// within the selected sequence (and is zero before any selection).
    pub open spec fn wf(self) -> bool {
        &&& self.default_frame_duration >= 1
        &&& self.frame_duration >= 1
        &&& self.countdown >= 1
        &&& forall|k: StateKey| #[trigger]
            self.registry.contains_key(k) ==> self.registry[k].len() > 0
        &&& match self.current {
            Some(k) => self.registry.contains_key(k) && self.frame < self.registry[k].len(),
            None => self.frame == 0,
        }
    }

    /// The frame index after the current hold expires: the next one in the
    /// current sequence, wrapping to the first after the last.
    pub open spec fn next_frame(self) -> nat {
        match self.current {
            Some(k) => (self.frame + 1) % self.registry[k].len(),
            None => self.frame,
        }
    }

    /// The state after one tick: the countdown drops by one; when it would
    /// reach zero the frame advances instead and the countdown restarts at the
    /// frame duration.
    pub open spec fn step_spec(self) -> MachineView {
        if self.countdown <= 1 {
            MachineView { frame: self.next_frame(), countdown: self.frame_duration, ..self }
        } else {
            MachineView { countdown: (self.countdown - 1) as nat, ..self }
        }
    }

    /// The state after `n` ticks.
    pub open spec fn steps(self, n: nat) -> MachineView
        decreases n,
    {
        if n == 0 {
            self
        } else {
            self.step_spec().steps((n - 1) as nat)
        }
    }

    /// The state after selecting the sequence under `k`: its first frame,
    /// held for a full frame duration.
    pub open spec fn select(self, k: StateKey) -> MachineView {
        MachineView { current: Some(k), frame: 0, countdown: self.frame_duration, ..self }
    }

    /// The state after registering `seq` under `k`. Replacing the playing
    /// sequence by a shorter one moves the frame index to its last frame.
    pub open spec fn register(self, k: StateKey, seq: Seq<(i32, i32)>) -> MachineView {
        let frame = if self.current == Some(k) && self.frame >= seq.len() {
            (seq.len() - 1) as nat
        } else {
            self.frame
        };
        MachineView { registry: self.registry.insert(k, seq), frame, ..self }
    }
}

/// The nearest integer to `d * den / num`, halves rounded up: the frame
/// duration that a speed multiplier of `num / den` gives a baseline of `d`.
pub open spec fn rounded_duration(d: int, num: int, den: int) -> int {
    (2 * (d * den) + num) / (2 * num)
}

/// The frame duration that a speed multiplier of `num / den` gives a baseline
/// of `d`: the rounded quotient, raised to one tick and capped at the largest
/// duration that fits in a `u8`.
pub open spec fn scaled_duration(d: int, num: int, den: int) -> nat {
    let q = rounded_duration(d, num, den);
    if q < 1 {
        1
    } else if q > 255 {
        255
    } else {
        q as nat
    }
}

/// Plays back registered frame sequences on a fixed tick cadence.
pub struct AnimationMachine {
    animations: HashMap<StateKey, RandomAccessAnimation>,
    current_animation: Option<StateKey>,
    current_animation_frame: usize,
    countdown_timer: u8,
    frame_duration: u8,
    default_frame_duration: u8,
}

impl View for AnimationMachine {
    type V = MachineView;

    closed spec fn view(&self) -> MachineView {
        MachineView {
            registry: self.animations@.map_values(|a: RandomAccessAnimation| a@),
            current: self.current_animation,
            frame: self.current_animation_frame as nat,
            countdown: self.countdown_timer as nat,
            frame_duration: self.frame_duration as nat,
            default_frame_duration: self.default_frame_duration as nat,
        }
    }
}

impl AnimationMachine {
    /// The machine's invariant, over its abstract state.
    pub open spec fn wf(&self) -> bool {
        self@.wf()
    }

    /// An empty machine, with nothing selected, holding each frame for
    /// `default_frame_duration` ticks.
    pub fn new(default_frame_duration: u8) -> (r: Self)
        requires
            default_frame_duration >= 1,
        ensures
            r.wf(),
            r@ == (MachineView {
                registry: Map::empty(),
                current: None,
                frame: 0,
                countdown: default_frame_duration as nat,
                frame_duration: default_frame_duration as nat,
                default_frame_duration: default_frame_duration as nat,
            }),
    {
        let r = AnimationMachine {
            animations: HashMap::new(),
            current_animation: None,
            current_animation_frame: 0,
            countdown_timer: default_frame_duration,
            frame_duration: default_frame_duration,
            default_frame_duration,
        };
        assert(r@.registry =~= Map::empty());
        r
    }

    /// Registers `animation` under `state`, replacing any sequence already
    /// there. When the playing sequence is replaced by a shorter one, the
    /// frame index moves to the new last frame.
    pub fn add_animation(&mut self, state: StateKey, animation: RandomAccessAnimation)
        requires
            old(self).wf(),
            animation@.len() > 0,
        ensures
            final(self).wf(),
            final(self)@ == old(self)@.register(state, animation@),
    {
        let ghost seq = animation@;
        let len = animation.len();
        self.animations.insert(state, animation);
        if self.current_animation == Some(state) && self.current_animation_frame >= len {
            self.current_animation_frame = len - 1;
        }
        assert(self@.registry =~= old(self)@.registry.insert(state, seq));
    }

    /// Selects the sequence registered under `state`, starting at its first
    /// frame with a full hold at the current frame duration. Fails, changing
    /// nothing, when no sequence is registered under `state`.
    pub fn set_animation(&mut self, state: StateKey) -> (r: Result<(), AnimationError>)
        requires
            old(self).wf(),
        ensures
            final(self).wf(),
            r is Ok <==> old(self)@.registry.contains_key(state),
            r is Ok ==> final(self)@ == old(self)@.select(state),
            r is Err ==> r == Err::<(), AnimationError>(AnimationError::UnknownAnimationState)
                && final(self)@ == old(self)@,
    {
        if self.animations.contains_key(&state) {
            self.current_animation = Some(state);
            self.current_animation_frame = 0;
            self.countdown_timer = self.frame_duration;
            Ok(())
        } else {
            Err(AnimationError::UnknownAnimationState)
        }
    }

    /// Advances the machine by one tick.
    pub fn step(&mut self)
        requires
            old(self).wf(),
        ensures
            final(self).wf(),
            final(self)@ == old(self)@.step_spec(),
    {
        self.countdown_timer = self.countdown_timer - 1;
        if self.countdown_timer == 0 {
            if let Some(k) = self.current_animation {
                let len = match self.animations.get(&k) {
                    Some(a) => a.len(),
                    None => 1,
                };
                let next = self.current_animation_frame + 1;
                if next >= len {
                    proof {
                        vstd::arithmetic::div_mod::lemma_mod_self_0(len as int);
                    }
                    self.current_animation_frame = 0;
                } else {
                    proof {
                        vstd::arithmetic::div_mod::lemma_small_mod(next as nat, len as nat);
                    }
                    self.current_animation_frame = next;
                }
            }
            self.countdown_timer = self.frame_duration;
        }
    }
    /// Returns the sequence that is playing, or `NoAnimationSelected` before
    /// any selection.
    pub fn get_current_animation(&self) -> (r: Result<&RandomAccessAnimation, AnimationError>)
        requires
            self.wf(),
        ensures
            match self@.current {
                Some(k) => r is Ok && r->Ok_0@ == self@.registry[k],
                None => r == Err::<&RandomAccessAnimation, AnimationError>(
                    AnimationError::NoAnimationSelected,
                ),
            },
    {
        match self.current_animation {
            Some(k) => match self.animations.get(&k) {
                Some(a) => Ok(a),
                None => Err(AnimationError::NoAnimationSelected),
            },
            None => Err(AnimationError::NoAnimationSelected),
        }
    }

    /// Returns the atlas position of the displayed frame, or
    /// `NoAnimationSelected` before any selection.
    pub fn get_current_frame_position(&self) -> (r: Result<(i32, i32), AnimationError>)
        requires
            self.wf(),
        ensures
            match self@.current {
                Some(k) => r == Ok::<(i32, i32), AnimationError>(
                    self@.registry[k][self@.frame as int],
                ),
                None => r == Err::<(i32, i32), AnimationError>(
                    AnimationError::NoAnimationSelected,
                ),
            },
    {
        match self.get_current_animation() {
            Ok(a) => Ok(a.frame_at(self.current_animation_frame)),
            Err(e) => Err(e),
        }
    }

    /// Restores the baseline frame duration. The running hold is not cut
    /// short: the countdown keeps its value.
    pub fn reset_speed(&mut self)
        requires
            old(self).wf(),
        ensures
            final(self).wf(),
            final(self)@ == (MachineView {
                frame_duration: old(self)@.default_frame_duration,
                ..old(self)@
            }),
    {
        self.frame_duration = self.default_frame_duration;
    }

    /// Plays at `numerator / denominator` times the baseline speed: the frame
    /// duration becomes the baseline divided by that multiplier, rounded to
    /// the nearest tick and at least one tick. A multiplier that is not
    /// positive (a numerator or denominator of zero, or a negative numerator)
    /// changes nothing. The running hold is not cut short: the new duration
    /// applies from the next frame advance.
    pub fn set_speed(&mut self, numerator: i32, denominator: u32)
        requires
            old(self).wf(),
        ensures
            final(self).wf(),
            numerator > 0 && denominator > 0 ==> final(self)@ == (MachineView {
                frame_duration: scaled_duration(
                    old(self)@.default_frame_duration as int,
                    numerator as int,
                    denominator as int,
                ),
                ..old(self)@
            }),
            !(numerator > 0 && denominator > 0) ==> final(self)@ == old(self)@,
    {
        if numerator > 0 && denominator > 0 {
            let d = self.default_frame_duration as u64;
            let num = numerator as u64;
            let den = denominator as u64;
            assert(d * den <= 255 * 0xffff_ffff) by (nonlinear_arith)
                requires
                    d <= 255,
                    den <= 0xffff_ffff,
            ;
            let prod = d * den;
            let q = (2 * prod + num) / (2 * num);
            self.frame_duration = if q < 1 {
                1
            } else if q > 255 {
                255
            } else {
                q as u8
            };
        }
    }

    /// The key of the sequence that is playing, if one was selected.
    pub fn current_animation(&self) -> (r: Option<StateKey>)
        ensures
            r == self@.current,
    {
        self.current_animation
    }

    /// The index of the displayed frame within the playing sequence.
    pub fn current_frame(&self) -> (r: usize)
        ensures
            r == self@.frame,
    {
        self.current_animation_frame
    }

    /// The ticks left before the next frame advance.
    pub fn countdown(&self) -> (r: u8)
        ensures
            r == self@.countdown,
    {
        self.countdown_timer
    }

    /// The ticks each frame is currently held.
    pub fn frame_duration(&self) -> (r: u8)
        ensures
            r == self@.frame_duration,
    {
        self.frame_duration
    }

    /// The baseline frame duration.
    pub fn default_frame_duration(&self) -> (r: u8)
        ensures
            r == self@.default_frame_duration,
    {
        self.default_frame_duration
    }
}

} // verus!
