use phantom::dodge::{dodge_finished, dodge_step, DodgeAction, DodgeState, DODGE_COOLDOWN_MS, HOVER_THRESHOLD_MS};

#[test]
fn moves_after_two_seconds_of_rest() {
    let mut s = DodgeState::new();
    assert_eq!(dodge_step(&mut s, 1000, true, Some(true)), DodgeAction::Wait);
    assert_eq!(s.hover_start_ms, Some(1000));
    assert_eq!(dodge_step(&mut s, 2999, true, Some(true)), DodgeAction::Wait);
    assert_eq!(dodge_step(&mut s, 3000, true, Some(true)), DodgeAction::Move { to_left: true });
    assert!(!s.on_right);
    assert_eq!(s.hover_start_ms, None);
    assert_eq!((HOVER_THRESHOLD_MS, DODGE_COOLDOWN_MS), (2000, 1000));
}

#[test]
fn leaving_the_panel_restarts_the_timer() {
    let mut s = DodgeState::new();
    dodge_step(&mut s, 0, true, Some(true));
    assert_eq!(dodge_step(&mut s, 1500, true, Some(false)), DodgeAction::Wait);
    assert_eq!(s.hover_start_ms, None);
    dodge_step(&mut s, 1600, true, Some(true));
    assert_eq!(dodge_step(&mut s, 3000, true, Some(true)), DodgeAction::Wait);
    assert_eq!(dodge_step(&mut s, 3600, true, None), DodgeAction::Wait);
    assert_eq!(s.hover_start_ms, None);
}

#[test]
fn disabled_never_moves() {
    let mut s = DodgeState::new();
    for t in 0..20u64 {
        assert_eq!(dodge_step(&mut s, t * 500, false, Some(true)), DodgeAction::Wait);
    }
    assert!(s.on_right);
}

#[test]
fn cooldown_then_the_other_side() {
    let mut s = DodgeState::new();
    dodge_step(&mut s, 0, true, Some(true));
    assert_eq!(dodge_step(&mut s, 2000, true, Some(true)), DodgeAction::Move { to_left: true });
    dodge_finished(&mut s, 2300);
    assert_eq!(s.last_dodge_ms, Some(2300));
    assert_eq!(dodge_step(&mut s, 3299, true, Some(true)), DodgeAction::Wait);
    assert_eq!(s.hover_start_ms, None);
    assert_eq!(dodge_step(&mut s, 3300, true, Some(true)), DodgeAction::Wait);
    assert_eq!(dodge_step(&mut s, 5300, true, Some(true)), DodgeAction::Move { to_left: false });
    assert!(s.on_right);
}
