use story_engine::dialogue::{first_speakable, parse_then_mode, QueuedDialogue};
use story_engine::events::{Effect, GameState, Input};
use story_engine::flags::{FlagValue, StoryFlags};
use story_engine::game::Game;
use story_engine::schema::{DialogueLine, LevelData, Point, Scalar};

fn line(speaker: &str, text: &str) -> DialogueLine {
    DialogueLine { speaker: speaker.to_string(), text: text.to_string() }
}

fn room(room_type: &str, dialogue: Vec<DialogueLine>) -> LevelData {
    LevelData {
        id: "d".to_string(),
        name: "d".to_string(),
        room_type: room_type.to_string(),
        player_start: Point { x: Scalar { bits: 0 }, y: Scalar { bits: 0 } },
        dialogue,
        doors: Vec::new(),
        boss: None,
        items: Vec::new(),
        npcs: Vec::new(),
        music: None,
        reactions: Vec::new(),
    }
}

fn opened(g: &Game) -> Option<DialogueLine> {
    g.effects
        .iter()
        .rev()
        .find_map(|e| match e {
            Effect::OpenDialogue { opening: line } => Some(line.clone()),
            _ => None,
        })
        .expect("dialogue opened")
}

fn start_dialogue(level: LevelData, absent: &[&str]) -> Game {
    let mut g = Game::new();
    for a in absent {
        g.flags.set(&format!("{}_present", a), FlagValue::Bool(false));
    }
    g.loaded_data = Some(level);
    g.next_mode = Some(GameState::Dialogue);
    g.apply_transition();
    g
}

#[test]
fn begin_skips_absent_speaker() {
    let g = start_dialogue(room("square", vec![line("x", "A"), line("y", "B")]), &["x"]);
    assert_eq!(opened(&g).map(|l| l.text), Some("B".to_string()));
    assert_eq!(g.dialogue.current_line, 1);
}

#[test]
fn begin_with_all_absent_is_placeholder_and_exhausted() {
    let mut g = start_dialogue(room("square", vec![line("x", "A"), line("y", "B")]), &["x", "y"]);
    assert_eq!(opened(&g).map(|l| l.text), None);
    assert_eq!(g.dialogue.current_line, 2);
    g.press(Input::Confirm);
    assert_eq!(g.next_mode, Some(GameState::Playing));
}

#[test]
fn advance_skips_and_finishes_to_boss_fight() {
    let mut g = start_dialogue(
        room("boss", vec![line("a", "1"), line("gone", "2"), line("b", "3")]),
        &["gone"],
    );
    g.press(Input::Confirm);
    assert_eq!(g.dialogue.current_line, 2);
    match g.effects.last() {
        Some(Effect::ShowLine { line }) => assert_eq!(line.text, "3"),
        _ => panic!("line not shown"),
    }
    assert_eq!(g.next_mode, None);
    g.press(Input::Confirm);
    assert_eq!(g.next_mode, Some(GameState::BossFight));
}

#[test]
fn trailing_absent_lines_finish_dialogue() {
    let mut g = start_dialogue(room("square", vec![line("a", "1"), line("gone", "2")]), &["gone"]);
    g.press(Input::Confirm);
    assert_eq!(g.next_mode, Some(GameState::Playing));
}

#[test]
fn queued_script_takes_precedence_and_names_follow_up() {
    let mut g = Game::new();
    g.loaded_data = Some(room("square", vec![line("a", "level line")]));
    g.queued.lines = vec![line("q", "queued line")];
    g.queued.then_state = "LoadingNewLevel".to_string();
    g.next_mode = Some(GameState::Dialogue);
    g.apply_transition();
    assert_eq!(opened(&g).map(|l| l.text), Some("queued line".to_string()));
    g.press(Input::Confirm);
    assert_eq!(g.next_mode, Some(GameState::LoadingNewLevel));
    g.apply_transition();
    assert!(g.queued.is_empty());
    assert_eq!(g.queued.then_state, "");
}

#[test]
fn follow_up_names() {
    assert_eq!(parse_then_mode("Playing"), GameState::Playing);
    assert_eq!(parse_then_mode("BossFight"), GameState::BossFight);
    assert_eq!(parse_then_mode("LoadingNewLevel"), GameState::LoadingNewLevel);
    assert_eq!(parse_then_mode("Dialogue"), GameState::Dialogue);
    assert_eq!(parse_then_mode("Sideways"), GameState::Playing);
}

#[test]
fn first_speakable_from_offset() {
    let mut f = StoryFlags::new();
    f.set("b_present", FlagValue::Bool(false));
    let lines = vec![line("a", "1"), line("b", "2"), line("B", "3"), line("c", "4")];
    assert_eq!(first_speakable(&lines, &f, 0), 0);
    assert_eq!(first_speakable(&lines, &f, 1), 3);
    assert_eq!(first_speakable(&lines, &f, 4), 4);
    assert_eq!(first_speakable(&lines, &f, 9), 9);
}

#[test]
fn queue_clear_empties_script() {
    let mut q = QueuedDialogue::new();
    assert!(q.is_empty());
    q.lines.push(line("a", "b"));
    q.then_state = "Playing".to_string();
    assert!(!q.is_empty());
    q.clear();
    assert!(q.is_empty());
    assert_eq!(q.then_state, "");
}
