//! The dialogue runner: a cursor over the active script that skips lines
//! whose speaker is absent, and the mode that follows an exhausted script.

use vstd::prelude::*;
use crate::events::GameState;
use crate::flags::{speaker_present, FlagVal, StoryFlags};
use crate::schema::{same_text, DialogueLine, LevelData};

verus! {

/// The line the dialogue runner is on.
#[derive(Clone, Copy, Debug, PartialEq, Eq, Structural)]
pub struct DialogueState {
    pub current_line: usize,
}

/// A script queued by a reaction, and the name of the mode that follows it.
/// Empty means: play the current level's own dialogue.
pub struct QueuedDialogue {
    pub lines: Vec<DialogueLine>,
    pub then_state: String,
}

impl QueuedDialogue {
    /// No queued script.
    pub fn new() -> (r: QueuedDialogue)
        ensures
            r.lines@.len() == 0,
            r.then_state@.len() == 0,
    {
        QueuedDialogue { lines: Vec::new(), then_state: String::new() }
    }

    /// Whether no script is queued.
    pub fn is_empty(&self) -> (r: bool)
        ensures
            r == (self.lines@.len() == 0),
    {
        self.lines.len() == 0
    }

    /// Drops the queued script.
    pub fn clear(&mut self)
        ensures
            final(self).lines@.len() == 0,
            final(self).then_state@.len() == 0,
    {
        self.lines.clear();
        self.then_state = String::new();
    }
}

/// Whether the speaker of `line` may speak.
pub open spec fn line_speakable(flags: Map<Seq<char>, FlagVal>, line: DialogueLine) -> bool {
    speaker_present(flags, line.speaker@)
}

/// The first line at or after `from` whose speaker may speak, or `from`
/// itself once it is past the end of the script.
pub open spec fn next_speakable(lines: Seq<DialogueLine>, flags: Map<Seq<char>, FlagVal>, from: int) -> int
    decreases lines.len() - from,
{
    if from >= lines.len() {
        from
    } else if line_speakable(flags, lines[from]) {
        from
    } else {
        next_speakable(lines, flags, from + 1)
    }
}

proof fn lemma_next_speakable_bounds(lines: Seq<DialogueLine>, flags: Map<Seq<char>, FlagVal>, from: int)
    requires
        0 <= from,
    ensures
        from <= next_speakable(lines, flags, from),
        from <= lines.len() ==> next_speakable(lines, flags, from) <= lines.len(),
        from > lines.len() ==> next_speakable(lines, flags, from) == from,
        next_speakable(lines, flags, from) < lines.len() ==> line_speakable(
            flags,
            lines[next_speakable(lines, flags, from)],
        ),
        forall|j: int|
            from <= j < next_speakable(lines, flags, from) ==> !line_speakable(flags, lines[j]),
    decreases lines.len() - from,
{
    if from < lines.len() && !line_speakable(flags, lines[from]) {
        lemma_next_speakable_bounds(lines, flags, from + 1);
    }
}

/// The first line at or after `from` whose speaker may speak; the script's
/// length when there is none.
pub fn first_speakable(lines: &Vec<DialogueLine>, flags: &StoryFlags, from: usize) -> (r: usize)
    requires
        flags.wf(),
    ensures
        r == next_speakable(lines@, flags@, from as int),
        from <= r,
        from <= lines@.len() ==> r <= lines@.len(),
        from > lines@.len() ==> r == from,
        r < lines@.len() ==> line_speakable(flags@, lines@[r as int]),
        forall|j: int| from <= j < r ==> !line_speakable(flags@, lines@[j]),
{
    proof {
        lemma_next_speakable_bounds(lines@, flags@, from as int);
    }
    let mut i: usize = from;
    while i < lines.len()
        invariant
            from <= i,
            from <= lines@.len() ==> i <= lines@.len(),
            from > lines@.len() ==> i == from,
            flags.wf(),
            next_speakable(lines@, flags@, i as int) == next_speakable(lines@, flags@, from as int),
        decreases lines@.len() - i,
    {
        if flags.can_speaker_speak(lines[i].speaker.as_str()) {
            proof {
                lemma_next_speakable_bounds(lines@, flags@, from as int);
            }
            return i;
        }
        i = i + 1;
    }
    i
}

/// The mode named by a queued script's follow-up; unknown names mean
/// exploring.
pub open spec fn then_mode(then: Seq<char>) -> GameState {
    if then == "Playing"@ {
        GameState::Playing
    } else if then == "BossFight"@ {
        GameState::BossFight
    } else if then == "LoadingNewLevel"@ {
        GameState::LoadingNewLevel
    } else if then == "Dialogue"@ {
        GameState::Dialogue
    } else {
        GameState::Playing
    }
}

/// The mode named by `then`.
pub fn parse_then_mode(then: &str) -> (r: GameState)
    ensures
        r == then_mode(then@),
{
    if same_text(then, "Playing") {
        GameState::Playing
    } else if same_text(then, "BossFight") {
        GameState::BossFight
    } else if same_text(then, "LoadingNewLevel") {
        GameState::LoadingNewLevel
    } else if same_text(then, "Dialogue") {
        GameState::Dialogue
    } else {
        GameState::Playing
    }
}

/// Whether a level is a boss arena.
pub open spec fn is_boss_room(level: LevelData) -> bool {
    level.room_type@ == "boss"@
}

/// The script the runner plays: the queued one when there is one, else the
/// level's own; none when neither exists.
pub open spec fn active_script(queued: Seq<DialogueLine>, level: Option<LevelData>) -> Option<
    Seq<DialogueLine>,
> {
    if queued.len() > 0 {
        Some(queued)
    } else {
        match level {
            Some(l) => Some(l.dialogue@),
            None => None,
        }
    }
}

/// The mode that follows an exhausted script: the queued script's
/// follow-up, else the boss fight in a boss room, else exploring.
pub open spec fn finish_mode(queued: Seq<DialogueLine>, then: Seq<char>, level: Option<LevelData>) -> GameState {
    if queued.len() > 0 {
        then_mode(then)
    } else {
        match level {
            Some(l) => if is_boss_room(l) {
                GameState::BossFight
            } else {
                GameState::Playing
            },
            None => GameState::Playing,
        }
    }
}

/// Whether `room_type` names a boss arena.
pub fn room_is_boss(room_type: &str) -> (r: bool)
    ensures
        r == (room_type@ == "boss"@),
{
    same_text(room_type, "boss")
}

/// The mode that follows the exhausted script.
pub fn dialogue_finish_mode(queued: &QueuedDialogue, level: &Option<LevelData>) -> (r: GameState)
    ensures
        r == finish_mode(queued.lines@, queued.then_state@, *level),
{
    if !queued.is_empty() {
        parse_then_mode(queued.then_state.as_str())
    } else {
        match level {
            Some(l) => if room_is_boss(l.room_type.as_str()) {
                GameState::BossFight
            } else {
                GameState::Playing
            },
            None => GameState::Playing,
        }
    }
}

} // verus!
