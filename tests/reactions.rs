use story_engine::events::{GameState, LevelEvent};
use story_engine::flags::{FlagValue, StoryFlags};
use story_engine::game::Game;
use story_engine::reaction::{event_matches_name, first_match, trigger_matches};
use story_engine::schema::{Action, DialogueLine, LevelData, Point, Reaction, Scalar, Trigger};

fn level_with(reactions: Vec<Reaction>) -> LevelData {
    LevelData {
        id: "r".to_string(),
        name: "r".to_string(),
        room_type: "square".to_string(),
        player_start: Point { x: Scalar { bits: 0 }, y: Scalar { bits: 0 } },
        dialogue: Vec::new(),
        doors: Vec::new(),
        boss: None,
        items: Vec::new(),
        npcs: Vec::new(),
        music: None,
        reactions,
    }
}

fn set_flag(key: &str, n: i32) -> Action {
    Action::SetFlag { key: key.to_string(), value: FlagValue::Number(n) }
}

#[test]
fn only_first_matching_reaction_runs() {
    let mut g = Game::new();
    g.loaded_data = Some(level_with(vec![
        Reaction { trigger: Trigger::Event("BossDefeated".to_string()), actions: vec![set_flag("first", 1)] },
        Reaction { trigger: Trigger::Event("BossDefeated".to_string()), actions: vec![set_flag("second", 2)] },
    ]));
    g.process_event(LevelEvent::BossDefeated);
    assert_eq!(g.flags.get_number("first"), Some(1));
    assert_eq!(g.flags.get_number("second"), None);
}

#[test]
fn unset_flag_never_matches() {
    let flags = StoryFlags::new();
    for equals in [FlagValue::Bool(false), FlagValue::Bool(true), FlagValue::Number(0), FlagValue::Text(String::new())] {
        let t = Trigger::EventAndFlag {
            event: "ProjectilesDone".to_string(),
            flag: "boss_phase".to_string(),
            equals,
        };
        assert!(!trigger_matches(&t, &LevelEvent::ProjectilesDone, &flags));
    }
}

#[test]
fn flag_trigger_matches_equal_value_only() {
    let mut flags = StoryFlags::new();
    flags.set("boss_phase", FlagValue::Number(2));
    let t = |n: i32| Trigger::EventAndFlag {
        event: "ProjectilesDone".to_string(),
        flag: "boss_phase".to_string(),
        equals: FlagValue::Number(n),
    };
    assert!(trigger_matches(&t(2), &LevelEvent::ProjectilesDone, &flags));
    assert!(!trigger_matches(&t(1), &LevelEvent::ProjectilesDone, &flags));
    assert!(!trigger_matches(&t(2), &LevelEvent::BossDefeated, &flags));
}

#[test]
fn event_names_match_exactly() {
    assert!(event_matches_name(&LevelEvent::ProjectilesDone, "ProjectilesDone"));
    assert!(event_matches_name(&LevelEvent::DialogueComplete, "DialogueComplete"));
    assert!(event_matches_name(&LevelEvent::BossDefeated, "BossDefeated"));
    assert!(!event_matches_name(&LevelEvent::BossDefeated, "bossdefeated"));
    assert!(!event_matches_name(&LevelEvent::ProjectilesDone, "BossDefeated"));
}

#[test]
fn first_match_skips_non_matching() {
    let flags = StoryFlags::new();
    let rs = vec![
        Reaction { trigger: Trigger::Event("BossDefeated".to_string()), actions: Vec::new() },
        Reaction { trigger: Trigger::Event("ProjectilesDone".to_string()), actions: Vec::new() },
        Reaction { trigger: Trigger::Event("ProjectilesDone".to_string()), actions: Vec::new() },
    ];
    assert_eq!(first_match(&rs, &LevelEvent::ProjectilesDone, &flags), Some(1));
    assert_eq!(first_match(&rs, &LevelEvent::DialogueComplete, &flags), None);
}

#[test]
fn phased_fight_advances_by_flag() {
    let phase = |n: i32| Trigger::EventAndFlag {
        event: "ProjectilesDone".to_string(),
        flag: "boss_phase".to_string(),
        equals: FlagValue::Number(n),
    };
    let mut g = Game::new();
    g.flags.set("boss_phase", FlagValue::Number(1));
    g.loaded_data = Some(level_with(vec![
        Reaction { trigger: phase(1), actions: vec![set_flag("boss_phase", 2), Action::RestartProjectiles { count: 7 }] },
        Reaction { trigger: phase(2), actions: vec![Action::TransitionToLevel { level_id: "after".to_string() }] },
    ]));
    g.raise_event(LevelEvent::ProjectilesDone);
    g.raise_event(LevelEvent::ProjectilesDone);
    g.process_reactions();
    assert_eq!(g.flags.get_number("boss_phase"), Some(2));
    assert_eq!(g.attack.max_projectiles, 7);
    assert_eq!(g.attack.projectiles_fired, 0);
    assert_eq!(g.level.level_id, "after");
    assert!(!g.level.loaded);
    assert_eq!(g.next_mode, Some(GameState::LoadingNewLevel));
}

#[test]
fn queue_dialogue_and_set_next_level() {
    let mut g = Game::new();
    g.loaded_data = Some(level_with(vec![Reaction {
        trigger: Trigger::Event("DialogueComplete".to_string()),
        actions: vec![
            Action::SetNextLevel { level_id: "next".to_string() },
            Action::QueueDialogue {
                lines: vec![DialogueLine { speaker: "Guide".to_string(), text: "Go on".to_string() }],
                then: "LoadingNewLevel".to_string(),
            },
        ],
    }]));
    g.process_event(LevelEvent::DialogueComplete);
    assert_eq!(g.level.level_id, "next");
    assert_eq!(g.queued.lines.len(), 1);
    assert_eq!(g.queued.then_state, "LoadingNewLevel");
    assert_eq!(g.next_mode, Some(GameState::Dialogue));
}

#[test]
fn events_without_level_do_nothing() {
    let mut g = Game::new();
    g.process_event(LevelEvent::BossDefeated);
    assert_eq!(g.next_mode, None);
    assert_eq!(g.flags.get("first"), None);
}
