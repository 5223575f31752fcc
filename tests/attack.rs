use story_engine::attack::{AttackTimer, TickOutcome};

#[test]
fn restart_five_fires_five_then_completes_once() {
    let mut t = AttackTimer::new();
    t.restart(5);
    let mut fired = 0;
    let mut done = 0;
    for _ in 0..5 {
        match t.tick(true, true) {
            TickOutcome::Fire => fired += 1,
            TickOutcome::WaveComplete => done += 1,
            TickOutcome::Idle => {}
        }
    }
    assert_eq!(fired, 5);
    assert_eq!(done, 0);
    for _ in 0..20 {
        match t.tick(true, true) {
            TickOutcome::Fire => fired += 1,
            TickOutcome::WaveComplete => done += 1,
            TickOutcome::Idle => {}
        }
    }
    assert_eq!(fired, 5);
    assert_eq!(done, 1);
}

#[test]
fn no_fire_between_boundaries_or_without_anchors() {
    let mut t = AttackTimer::new();
    assert_eq!(t.tick(false, true), TickOutcome::Idle);
    assert_eq!(t.tick(true, false), TickOutcome::Idle);
    assert_eq!(t.projectiles_fired, 0);
    assert_eq!(t.tick(true, true), TickOutcome::Fire);
    assert_eq!(t.projectiles_fired, 1);
}

#[test]
fn first_wave_has_fifteen_projectiles() {
    let t = AttackTimer::default();
    assert_eq!(t.max_projectiles, 15);
    assert_eq!(t.projectiles_fired, 0);
    assert!(!t.event_sent);
}

#[test]
fn restart_clears_completion_latch() {
    let mut t = AttackTimer::new();
    t.restart(0);
    assert_eq!(t.tick(false, false), TickOutcome::WaveComplete);
    assert_eq!(t.tick(true, true), TickOutcome::Idle);
    t.restart(1);
    assert_eq!(t.tick(true, true), TickOutcome::Fire);
    assert_eq!(t.tick(false, false), TickOutcome::WaveComplete);
    assert_eq!(t.tick(false, false), TickOutcome::Idle);
}
