use story_engine::flags::{FlagValue, StoryFlags};

#[test]
fn set_then_get_returns_latest_value() {
    let mut f = StoryFlags::new();
    f.set("door_open", FlagValue::Bool(false));
    f.set("mood", FlagValue::Text("calm".to_string()));
    f.set("door_open", FlagValue::Number(4));
    assert_eq!(f.get("door_open"), Some(&FlagValue::Number(4)));
    assert_eq!(f.get("mood"), Some(&FlagValue::Text("calm".to_string())));
    assert_eq!(f.get("missing"), None);
}

#[test]
fn typed_getters_narrow_by_variant() {
    let mut f = StoryFlags::new();
    f.set("n", FlagValue::Number(-3));
    f.set("t", FlagValue::Text("hi".to_string()));
    f.set("b", FlagValue::Bool(true));
    assert_eq!(f.get_number("n"), Some(-3));
    assert_eq!(f.get_number("t"), None);
    assert_eq!(f.get_text("t"), Some("hi"));
    assert_eq!(f.get_text("b"), None);
    assert_eq!(f.get_bool("b"), Some(true));
    assert_eq!(f.get_bool("n"), None);
    assert_eq!(f.get_bool("absent"), None);
}

#[test]
fn flag_equality_is_structural() {
    assert!(FlagValue::Number(1) == FlagValue::Number(1));
    assert!(FlagValue::Number(1) != FlagValue::Bool(true));
    assert!(FlagValue::Text("a".to_string()) != FlagValue::Text("b".to_string()));
    assert!(FlagValue::Text("a".to_string()) == FlagValue::Text("a".to_string()));
}

#[test]
fn unflagged_speakers_speak() {
    let f = StoryFlags::new();
    assert!(f.can_speaker_speak("Narrator"));
    assert!(f.can_speaker_speak("---"));
}

#[test]
fn speaker_flag_uses_lower_case_name() {
    let mut f = StoryFlags::new();
    f.set("duck_present", FlagValue::Bool(false));
    assert!(!f.can_speaker_speak("Duck"));
    assert!(!f.can_speaker_speak("DUCK"));
    f.set("duck_present", FlagValue::Bool(true));
    assert!(f.can_speaker_speak("Duck"));
}

#[test]
fn presence_flag_of_other_type_lets_speaker_speak() {
    let mut f = StoryFlags::new();
    f.set("owl_present", FlagValue::Text("no".to_string()));
    assert!(f.can_speaker_speak("owl"));
}

#[test]
fn many_sets_keep_only_the_most_recent() {
    let mut f = StoryFlags::new();
    for i in 0..10 {
        f.set("k", FlagValue::Number(i));
        f.set("other", FlagValue::Number(100 + i));
    }
    assert_eq!(f.get_number("k"), Some(9));
    assert_eq!(f.get_number("other"), Some(109));
}

#[test]
fn speaker_never_marked_absent_always_speaks() {
    let mut f = StoryFlags::new();
    f.set("x_present", FlagValue::Bool(true));
    f.set("x_present", FlagValue::Number(0));
    f.set("y_present", FlagValue::Bool(false));
    assert!(f.can_speaker_speak("x"));
    assert!(!f.can_speaker_speak("y"));
}
