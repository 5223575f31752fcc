use story_engine::loader::{level_path, CurrentLevel};

#[test]
fn later_request_wins_over_pending_one() {
    let mut c = CurrentLevel::new();
    let a = c.request("a");
    let b = c.request("b");
    assert_eq!(b.path, "levels/b.ron");
    assert_ne!(a.ticket, b.ticket);
    assert!(!c.poll(a.ticket));
    assert!(c.poll(b.ticket));
    assert_eq!(c.level_id, "b");
    assert!(c.loaded);
}

#[test]
fn poll_is_idempotent_once_loaded() {
    let mut c = CurrentLevel::new();
    let r = c.start_loading_next_level();
    assert_eq!(r.path, "levels/level_01_intro.ron");
    assert!(c.poll(r.ticket));
    assert!(!c.poll(r.ticket));
    assert!(c.loaded);
}

#[test]
fn new_pointer_starts_at_intro_unloaded() {
    let c = CurrentLevel::default();
    assert_eq!(c.level_id, "level_01_intro");
    assert!(!c.loaded);
}

#[test]
fn set_level_marks_unloaded_without_fetch() {
    let mut c = CurrentLevel::new();
    let r = c.start_loading_next_level();
    assert!(c.poll(r.ticket));
    c.set_level("cave_2");
    assert!(!c.loaded);
    assert_eq!(c.ticket, r.ticket);
    assert!(c.poll(r.ticket));
}

#[test]
fn path_follows_convention() {
    assert_eq!(level_path("boss_room"), "levels/boss_room.ron");
}
