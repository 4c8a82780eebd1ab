use animation_machine::machine::{AnimationError, AnimationMachine};
use animation_machine::sequence::RandomAccessAnimation;

const A: u64 = 1;
const B: u64 = 2;

fn seq(frames: &[(i32, i32)]) -> RandomAccessAnimation {
    RandomAccessAnimation::new(frames.to_vec())
}

fn machine_with_a(duration: u8) -> AnimationMachine {
    let mut m = AnimationMachine::new(duration);
    m.add_animation(A, seq(&[(0, 0), (1, 1), (2, 2)]));
    m
}

#[test]
fn sequence_len_and_lookup() {
    let s = seq(&[(4, 5), (6, 7)]);
    assert_eq!(s.len(), 2);
    assert_eq!(s.frame_at(0), (4, 5));
    assert_eq!(s.frame_at(1), (6, 7));
}

#[test]
fn new_machine_state() {
    let m = AnimationMachine::new(5);
    assert_eq!(m.current_animation(), None);
    assert_eq!(m.current_frame(), 0);
    assert_eq!(m.countdown(), 5);
    assert_eq!(m.frame_duration(), 5);
    assert_eq!(m.default_frame_duration(), 5);
}

#[test]
fn query_before_selection_fails() {
    let m = machine_with_a(5);
    assert_eq!(
        m.get_current_frame_position(),
        Err(AnimationError::NoAnimationSelected)
    );
    assert!(matches!(
        m.get_current_animation(),
        Err(AnimationError::NoAnimationSelected)
    ));
}

#[test]
fn five_ticks_advance_one_frame() {
    let mut m = machine_with_a(5);
    assert_eq!(m.set_animation(A), Ok(()));
    for _ in 0..4 {
        m.step();
    }
    assert_eq!(m.current_frame(), 0);
    assert_eq!(m.countdown(), 1);
    assert_eq!(m.get_current_frame_position(), Ok((0, 0)));
    m.step();
    assert_eq!(m.current_frame(), 1);
    assert_eq!(m.countdown(), 5);
    assert_eq!(m.get_current_frame_position(), Ok((1, 1)));
}

#[test]
fn single_frame_sequence_stays_on_frame_zero() {
    let mut m = AnimationMachine::new(3);
    m.add_animation(A, seq(&[(0, 0), (1, 1)]));
    m.add_animation(B, seq(&[(10, 10)]));
    assert_eq!(m.set_animation(B), Ok(()));
    for _ in 0..50 {
        m.step();
        assert_eq!(m.current_frame(), 0);
        assert_eq!(m.get_current_frame_position(), Ok((10, 10)));
    }
}

#[test]
fn full_cycle_returns_to_start() {
    let mut m = machine_with_a(4);
    m.set_animation(A).unwrap();
    // Move somewhere into the middle of a hold on frame 1.
    for _ in 0..6 {
        m.step();
    }
    assert_eq!(m.current_frame(), 1);
    assert_eq!(m.countdown(), 2);
    // Remaining countdown, then two more full holds: three frames advanced.
    for _ in 0..(2 + 2 * 4) {
        m.step();
    }
    assert_eq!(m.current_frame(), 1);
    assert_eq!(m.countdown(), 4);
}

#[test]
fn period_is_length_times_duration() {
    let mut m = machine_with_a(2);
    m.set_animation(A).unwrap();
    let mut seen = Vec::new();
    for _ in 0..(3 * 2) {
        seen.push(m.current_frame());
        m.step();
    }
    assert_eq!(seen, vec![0, 0, 1, 1, 2, 2]);
    assert_eq!(m.current_frame(), 0);
    assert_eq!(m.countdown(), 2);
}

#[test]
fn switch_resets_frame_and_countdown() {
    let mut m = machine_with_a(5);
    m.add_animation(B, seq(&[(10, 10), (11, 11)]));
    m.set_animation(A).unwrap();
    for _ in 0..7 {
        m.step();
    }
    assert_eq!(m.current_frame(), 1);
    assert_eq!(m.countdown(), 3);
    assert_eq!(m.set_animation(B), Ok(()));
    assert_eq!(m.current_animation(), Some(B));
    assert_eq!(m.current_frame(), 0);
    assert_eq!(m.countdown(), 5);
    assert_eq!(m.get_current_frame_position(), Ok((10, 10)));
}

#[test]
fn switch_keeps_speed() {
    let mut m = machine_with_a(6);
    m.set_speed(2, 1);
    assert_eq!(m.frame_duration(), 3);
    m.set_animation(A).unwrap();
    assert_eq!(m.countdown(), 3);
    assert_eq!(m.frame_duration(), 3);
}

#[test]
fn unknown_key_rejected_state_unchanged() {
    let mut m = machine_with_a(5);
    m.set_animation(A).unwrap();
    m.step();
    m.step();
    assert_eq!(
        m.set_animation(99),
        Err(AnimationError::UnknownAnimationState)
    );
    assert_eq!(m.current_animation(), Some(A));
    assert_eq!(m.current_frame(), 0);
    assert_eq!(m.countdown(), 3);
    assert_eq!(m.frame_duration(), 5);
}

#[test]
fn unknown_key_rejected_before_any_registration() {
    let mut m = AnimationMachine::new(5);
    assert_eq!(m.set_animation(A), Err(AnimationError::UnknownAnimationState));
    assert_eq!(m.current_animation(), None);
}

#[test]
fn speed_rounds_to_nearest_tick() {
    let mut m = machine_with_a(5);
    // 5 / 2 = 2.5, rounded up to 3.
    m.set_speed(2, 1);
    assert_eq!(m.frame_duration(), 3);
    // 5 / 0.5 = 10.
    m.set_speed(1, 2);
    assert_eq!(m.frame_duration(), 10);
    // 5 / 3 = 1.67, rounded to 2.
    m.set_speed(3, 1);
    assert_eq!(m.frame_duration(), 2);
    // 5 / 1.5 = 3.33, rounded to 3.
    m.set_speed(3, 2);
    assert_eq!(m.frame_duration(), 3);
}

#[test]
fn very_high_speed_clamps_to_one_tick() {
    let mut m = machine_with_a(5);
    m.set_speed(100, 1);
    assert_eq!(m.frame_duration(), 1);
    m.set_speed(i32::MAX, 1);
    assert_eq!(m.frame_duration(), 1);
}

#[test]
fn very_low_speed_caps_at_largest_duration() {
    let mut m = machine_with_a(200);
    m.set_speed(1, 2);
    assert_eq!(m.frame_duration(), 255);
    m.set_speed(1, u32::MAX);
    assert_eq!(m.frame_duration(), 255);
}

#[test]
fn non_positive_speed_is_no_op() {
    let mut m = machine_with_a(5);
    m.set_animation(A).unwrap();
    m.step();
    m.set_speed(0, 1);
    assert_eq!(m.frame_duration(), 5);
    assert_eq!(m.countdown(), 4);
    m.set_speed(-1, 1);
    assert_eq!(m.frame_duration(), 5);
    assert_eq!(m.countdown(), 4);
    m.set_speed(3, 0);
    assert_eq!(m.frame_duration(), 5);
    assert_eq!(m.current_frame(), 0);
}

#[test]
fn speed_change_waits_for_next_advance() {
    let mut m = machine_with_a(4);
    m.set_animation(A).unwrap();
    m.step();
    m.set_speed(4, 1);
    assert_eq!(m.countdown(), 3);
    m.step();
    m.step();
    m.step();
    assert_eq!(m.current_frame(), 1);
    assert_eq!(m.countdown(), 1);
    m.step();
    assert_eq!(m.current_frame(), 2);
}

#[test]
fn reset_speed_restores_default() {
    let mut m = machine_with_a(5);
    m.set_animation(A).unwrap();
    m.set_speed(5, 1);
    assert_eq!(m.frame_duration(), 1);
    m.step();
    m.step();
    m.reset_speed();
    assert_eq!(m.frame_duration(), 5);
    // The hold begun at selection keeps running.
    assert_eq!(m.countdown(), 3);
}

#[test]
fn replacing_playing_sequence_clamps_frame() {
    let mut m = machine_with_a(1);
    m.set_animation(A).unwrap();
    m.step();
    m.step();
    assert_eq!(m.current_frame(), 2);
    m.add_animation(A, seq(&[(7, 7), (8, 8)]));
    assert_eq!(m.current_frame(), 1);
    assert_eq!(m.get_current_frame_position(), Ok((8, 8)));
    m.step();
    assert_eq!(m.current_frame(), 0);
}

#[test]
fn replacing_other_sequence_keeps_frame() {
    let mut m = machine_with_a(1);
    m.add_animation(B, seq(&[(10, 10), (11, 11), (12, 12)]));
    m.set_animation(A).unwrap();
    m.step();
    m.step();
    m.add_animation(B, seq(&[(20, 20)]));
    assert_eq!(m.current_frame(), 2);
    assert_eq!(m.get_current_frame_position(), Ok((2, 2)));
}

#[test]
fn current_animation_is_the_selected_sequence() {
    let mut m = machine_with_a(5);
    m.add_animation(B, seq(&[(10, 10)]));
    m.set_animation(B).unwrap();
    let a = m.get_current_animation().unwrap();
    assert_eq!(a.len(), 1);
    assert_eq!(a.frame_at(0), (10, 10));
}

#[test]
fn ticks_without_selection_only_run_the_timer() {
    let mut m = machine_with_a(2);
    m.step();
    assert_eq!(m.countdown(), 1);
    m.step();
    assert_eq!(m.countdown(), 2);
    assert_eq!(m.current_frame(), 0);
}
