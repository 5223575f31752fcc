//! The reaction engine: matching level events against a level's reactions
//! and what the first matching reaction's actions do to the story state.

use vstd::prelude::*;
use crate::attack::{restarted, AttackTimer};
use crate::events::{Effect, GameState, LevelEvent};
use crate::flags::{lookup, FlagVal, StoryFlags};
use crate::schema::{same_text, Action, DialogueLine, Reaction, Trigger};

verus! {

/// The name by which level data refers to an event.
pub open spec fn event_name(e: LevelEvent) -> Seq<char> {
    match e {
        LevelEvent::ProjectilesDone => "ProjectilesDone"@,
        LevelEvent::DialogueComplete => "DialogueComplete"@,
        LevelEvent::BossDefeated => "BossDefeated"@,
    }
}

/// Whether `name` names `event`.
pub fn event_matches_name(event: &LevelEvent, name: &str) -> (r: bool)
    ensures
        r == (name@ == event_name(*event)),
{
    match event {
        LevelEvent::ProjectilesDone => same_text(name, "ProjectilesDone"),
        LevelEvent::DialogueComplete => same_text(name, "DialogueComplete"),
        LevelEvent::BossDefeated => same_text(name, "BossDefeated"),
    }
}

/// Whether trigger `t` matches event `e` under the flags `flags`. A flag
/// that was never set matches no value.
pub open spec fn trigger_holds(t: Trigger, e: LevelEvent, flags: Map<Seq<char>, FlagVal>) -> bool {
    match t {
        Trigger::Event(name) => name@ == event_name(e),
        Trigger::EventAndFlag { event, flag, equals } => event@ == event_name(e) && lookup(
            flags,
            flag@,
        ) == Some(equals@),
    }
}

/// Whether `trigger` matches `event` under the current flags.
pub fn trigger_matches(trigger: &Trigger, event: &LevelEvent, story_flags: &StoryFlags) -> (r: bool)
    requires
        story_flags.wf(),
    ensures
        r == trigger_holds(*trigger, *event, story_flags@),
{
    match trigger {
        Trigger::Event(event_name) => event_matches_name(event, event_name.as_str()),
        Trigger::EventAndFlag { event: event_name, flag, equals } => {
            if !event_matches_name(event, event_name.as_str()) {
                return false;
            }
            match story_flags.get(flag.as_str()) {
                Some(current) => *current == *equals,
                None => false,
            }
        },
    }
}

/// Index `i` is the first reaction of `rs` whose trigger matches.
pub open spec fn is_first_match(
    rs: Seq<Reaction>,
    e: LevelEvent,
    flags: Map<Seq<char>, FlagVal>,
    i: int,
) -> bool {
    &&& 0 <= i < rs.len()
    &&& trigger_holds(rs[i].trigger, e, flags)
    &&& forall|j: int| 0 <= j < i ==> !trigger_holds(rs[j].trigger, e, flags)
}

/// The first reaction, in declared order, whose trigger matches `event`.
pub fn first_match(reactions: &Vec<Reaction>, event: &LevelEvent, story_flags: &StoryFlags) -> (r:
    Option<usize>)
    requires
        story_flags.wf(),
    ensures
        match r {
            Some(i) => is_first_match(reactions@, *event, story_flags@, i as int),
            None => forall|j: int|
                0 <= j < reactions@.len() ==> !trigger_holds(
                    reactions@[j].trigger,
                    *event,
                    story_flags@,
                ),
        },
{
    let mut i: usize = 0;
    while i < reactions.len()
        invariant
            i <= reactions@.len(),
            story_flags.wf(),
            forall|j: int| 0 <= j < i ==> !trigger_holds(reactions@[j].trigger, *event, story_flags@),
        decreases reactions@.len() - i,
    {
        if trigger_matches(&reactions[i].trigger, event, story_flags) {
            return Some(i);
        }
        i = i + 1;
    }
    None
}

/// The part of the game state that reactions read and write, with the
/// requests they have made of the world so far.
pub struct StoryState {
    pub flags: Map<Seq<char>, FlagVal>,
    pub attack: AttackTimer,
    pub level_id: Seq<char>,
    pub loaded: bool,
    pub next_mode: Option<GameState>,
    pub queued_lines: Seq<DialogueLine>,
    pub queued_then: Seq<char>,
    pub effects: Seq<Effect>,
}

/// What one action does.
pub open spec fn apply_action(s: StoryState, a: Action) -> StoryState {
    match a {
        Action::DespawnArena => StoryState { effects: s.effects.push(Effect::DespawnArena), ..s },
        Action::SetFlag { key, value } => StoryState { flags: s.flags.insert(key@, value@), ..s },
        Action::QueueDialogue { lines, then } => StoryState {
            queued_lines: lines@,
            queued_then: then@,
            next_mode: Some(GameState::Dialogue),
            ..s
        },
        Action::SpawnDoor { position, leads_to, label } => StoryState {
            effects: s.effects.push(Effect::SpawnDoor { position, leads_to, label }),
            ..s
        },
        Action::RestartProjectiles { count } => StoryState { attack: restarted(count), ..s },
        Action::TransitionToLevel { level_id } => StoryState {
            level_id: level_id@,
            loaded: false,
            next_mode: Some(GameState::LoadingNewLevel),
            ..s
        },
        Action::SetNextLevel { level_id } => StoryState { level_id: level_id@, loaded: false, ..s },
    }
}

/// What a list of actions does, applied in order.
pub open spec fn apply_actions(s: StoryState, acts: Seq<Action>) -> StoryState
    decreases acts.len(),
{
    if acts.len() == 0 {
        s
    } else {
        apply_action(apply_actions(s, acts.drop_last()), acts.last())
    }
}

/// What an event does to a level with reactions `rs`: the actions of the
/// first reaction whose trigger matches run in order; no other reaction
/// runs.
pub open spec fn react(s: StoryState, rs: Seq<Reaction>, e: LevelEvent) -> StoryState
    decreases rs.len(),
{
    if rs.len() == 0 {
        s
    } else if trigger_holds(rs[0].trigger, e, s.flags) {
        apply_actions(s, rs[0].actions@)
    } else {
        react(s, rs.drop_first(), e)
    }
}

/// An event runs the actions of the first matching reaction and nothing
/// else, even when later reactions match too.
pub proof fn lemma_only_first_match_runs(s: StoryState, rs: Seq<Reaction>, e: LevelEvent, i: int)
    requires
        is_first_match(rs, e, s.flags, i),
    ensures
        react(s, rs, e) == apply_actions(s, rs[i].actions@),
    decreases i,
{
    if i > 0 {
        assert(!trigger_holds(rs[0].trigger, e, s.flags));
        let t = rs.drop_first();
        assert forall|j: int| 0 <= j < i - 1 implies !trigger_holds(t[j].trigger, e, s.flags) by {
            assert(t[j] == rs[j + 1]);
        }
        assert(t[i - 1] == rs[i]);
        lemma_only_first_match_runs(s, t, e, i - 1);
    }
}

/// An event that no reaction matches changes nothing.
pub proof fn lemma_no_match_no_change(s: StoryState, rs: Seq<Reaction>, e: LevelEvent)
    requires
        forall|j: int| 0 <= j < rs.len() ==> !trigger_holds(rs[j].trigger, e, s.flags),
    ensures
        react(s, rs, e) == s,
    decreases rs.len(),
{
    if rs.len() > 0 {
        let t = rs.drop_first();
        assert forall|j: int| 0 <= j < t.len() implies !trigger_holds(t[j].trigger, e, s.flags) by {
            assert(t[j] == rs[j + 1]);
        }
        lemma_no_match_no_change(s, t, e);
    }
}

/// A trigger that waits on a flag never matches while that flag is unset,
/// whatever value it expects.
pub proof fn lemma_unset_flag_never_matches(
    event: String,
    flag: String,
    equals: crate::flags::FlagValue,
    e: LevelEvent,
    flags: Map<Seq<char>, FlagVal>,
)
    requires
        !flags.contains_key(flag@),
    ensures
        !trigger_holds(Trigger::EventAndFlag { event, flag, equals }, e, flags),
{
}

} // verus!
