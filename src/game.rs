//! The top-level game: the mode state machine, the enter and exit hooks of
//! each mode, and the handlers that feed it events and inputs.

use vstd::prelude::*;
use vstd::string::StringExecFns;
use crate::attack::{initial_timer, tick_spec, AttackTimer, TickOutcome};
use crate::dialogue::{
    active_script, finish_mode, first_speakable, is_boss_room, next_speakable, room_is_boss,
    dialogue_finish_mode, DialogueState, QueuedDialogue,
};
use crate::events::{Effect, GameState, Input, LevelEvent, Sound};
use crate::flags::{lookup, lowercase, lowercase_of, FlagVal, FlagValue, StoryFlags};
use crate::layout::{level_spawns, spawn_plan};
use crate::loader::{level_path_of, next_ticket, starting_level, starting_level_id, CurrentLevel};
use crate::reaction::{
    apply_action, apply_actions, first_match, lemma_no_match_no_change,
    lemma_only_first_match_runs, react, StoryState,
};
use crate::schema::{clone_lines, same_text, Action, DialogueLine, LevelData};

verus! {

/// The player's hearts.
#[derive(Clone, Copy, Debug, PartialEq, Eq, Structural)]
pub struct PlayerHealth {
    pub current: u8,
    pub max: u8,
}

/// Hearts of a new player.
pub const PLAYER_MAX_HEALTH: u8 = 3;

/// The whole state of a running game.
pub struct Game {
    pub mode: GameState,
    /// The mode requested for the next transition, if any.
    pub next_mode: Option<GameState>,
    /// The mode that pausing interrupted.
    pub resume_mode: GameState,
    pub flags: StoryFlags,
    pub level: CurrentLevel,
    /// The descriptor of the current level, once it has arrived.
    pub loaded_data: Option<LevelData>,
    pub dialogue: DialogueState,
    pub queued: QueuedDialogue,
    pub attack: AttackTimer,
    /// Whether the current boss encounter has been set up.
    pub boss_initialized: bool,
    pub health: PlayerHealth,
    /// Level events raised and not yet processed.
    pub events: Vec<LevelEvent>,
    /// Requests to the world not yet handed out.
    pub effects: Vec<Effect>,
}

/// The script that plays, empty when there is none.
pub open spec fn script_of(queued: Seq<DialogueLine>, level: Option<LevelData>) -> Seq<DialogueLine> {
    match active_script(queued, level) {
        Some(s) => s,
        None => Seq::empty(),
    }
}

/// The line a script opens on: its first speakable line, if any.
pub open spec fn opening_line(script: Seq<DialogueLine>, flags: Map<Seq<char>, FlagVal>) -> Option<
    DialogueLine,
> {
    let c = next_speakable(script, flags, 0);
    if c < script.len() {
        Some(script[c])
    } else {
        None
    }
}

/// The mode that follows the arrival of level `l`: its dialogue first, else
/// the boss fight in a boss room, else exploring.
pub open spec fn arrival_mode(l: LevelData) -> GameState {
    if l.dialogue@.len() > 0 {
        GameState::Dialogue
    } else if is_boss_room(l) {
        GameState::BossFight
    } else {
        GameState::Playing
    }
}

/// What leaving mode `m` asks of the world.
pub open spec fn exit_effects(m: GameState) -> Seq<Effect> {
    match m {
        GameState::Loading => seq![Effect::HideLoadingScreen],
        GameState::LoadingNewLevel => seq![Effect::HideLoadingScreen],
        GameState::Dialogue => seq![Effect::CloseDialogue],
        GameState::Paused => seq![Effect::HidePauseMenu],
        GameState::Defeat => seq![Effect::HideDefeatMenu],
        _ => Seq::empty(),
    }
}

/// What entering mode `m` asks of the world, but for the fetch of a new
/// level: `first_boss_entry` tells whether a boss encounter starts, `line`
/// is the line a dialogue opens on.
pub open spec fn enter_effects(m: GameState, first_boss_entry: bool, line: Option<DialogueLine>) -> Seq<
    Effect,
> {
    match m {
        GameState::Loading => seq![Effect::ShowLoadingScreen],
        GameState::LoadingNewLevel => seq![
            Effect::ShowLoadingScreen,
            Effect::DespawnLevelEntities,
            Effect::HideHealth,
        ],
        GameState::Dialogue => seq![Effect::OpenDialogue { opening: line }, Effect::ShowHealth],
        GameState::BossFight => if first_boss_entry {
            seq![Effect::SpawnArena, Effect::ShowHealth]
        } else {
            seq![Effect::ShowHealth]
        },
        GameState::Paused => seq![Effect::ShowPauseMenu],
        GameState::Defeat => seq![Effect::ShowDefeatMenu, Effect::HideHealth],
        _ => Seq::empty(),
    }
}

/// The flag set when a boss encounter starts.
pub open spec fn boss_phase_key() -> Seq<char> {
    "boss_phase"@
}

/// What applying events `evs` in order does, with the reactions of `data`.
pub open spec fn react_events(s: StoryState, data: Option<LevelData>, evs: Seq<LevelEvent>) -> StoryState
    decreases evs.len(),
{
    if evs.len() == 0 {
        s
    } else {
        let s1 = react_events(s, data, evs.drop_last());
        match data {
            Some(l) => react(s1, l.reactions@, evs.last()),
            None => s1,
        }
    }
}

/// The mathematical state of a game: what contracts speak of.
pub struct GameView {
    pub mode: GameState,
    pub next_mode: Option<GameState>,
    pub resume_mode: GameState,
    pub flags: Map<Seq<char>, FlagVal>,
    pub level_id: Seq<char>,
    pub ticket: u64,
    pub loaded: bool,
    pub loaded_data: Option<LevelData>,
    pub current_line: usize,
    pub queued_lines: Seq<DialogueLine>,
    pub queued_then: Seq<char>,
    pub attack: AttackTimer,
    pub boss_initialized: bool,
    pub health: PlayerHealth,
    pub events: Seq<LevelEvent>,
    pub effects: Seq<Effect>,
}

/// The part of a game that reactions read and write.
pub open spec fn story_of(v: GameView) -> StoryState {
    StoryState {
        flags: v.flags,
        attack: v.attack,
        level_id: v.level_id,
        loaded: v.loaded,
        next_mode: v.next_mode,
        queued_lines: v.queued_lines,
        queued_then: v.queued_then,
        effects: v.effects,
    }
}

/// `v` with its reaction-visible part replaced by `s`.
pub open spec fn with_story(v: GameView, s: StoryState) -> GameView {
    GameView {
        flags: s.flags,
        attack: s.attack,
        level_id: s.level_id,
        loaded: s.loaded,
        next_mode: s.next_mode,
        queued_lines: s.queued_lines,
        queued_then: s.queued_then,
        effects: s.effects,
        ..v
    }
}

impl View for Game {
    type V = GameView;

    open spec fn view(&self) -> GameView {
        GameView {
            mode: self.mode,
            next_mode: self.next_mode,
            resume_mode: self.resume_mode,
            flags: self.flags@,
            level_id: self.level.level_id@,
            ticket: self.level.ticket,
            loaded: self.level.loaded,
            loaded_data: self.loaded_data,
            current_line: self.dialogue.current_line,
            queued_lines: self.queued.lines@,
            queued_then: self.queued.then_state@,
            attack: self.attack,
            boss_initialized: self.boss_initialized,
            health: self.health,
            events: self.events@,
            effects: self.effects@,
        }
    }
}

/// `post` is the view of a game after entering mode `m` from the view `pre`
/// that leaving the old mode left. Loading a level ends with a request to
/// fetch it under a new ticket.
pub open spec fn enter_post(pre: GameView, m: GameState, post: GameView) -> bool {
    let script = script_of(pre.queued_lines, pre.loaded_data);
    let first = !pre.boss_initialized;
    match m {
        GameState::LoadingNewLevel => {
            &&& post.effects.len() > 0
            &&& post.effects.drop_last() == pre.effects + enter_effects(m, false, None)
            &&& match post.effects.last() {
                Effect::Fetch(r) => r.ticket == post.ticket && r.path@ == level_path_of(pre.level_id),
                _ => false,
            }
            &&& post == GameView {
                ticket: next_ticket(pre.ticket),
                loaded: false,
                boss_initialized: false,
                effects: post.effects,
                ..pre
            }
        },
        GameState::Dialogue => post == GameView {
            current_line: next_speakable(script, pre.flags, 0) as usize,
            effects: pre.effects + enter_effects(m, false, opening_line(script, pre.flags)),
            ..pre
        },
        GameState::BossFight => post == GameView {
            flags: if first {
                pre.flags.insert(boss_phase_key(), FlagVal::Number(1))
            } else {
                pre.flags
            },
            attack: if first {
                initial_timer()
            } else {
                pre.attack
            },
            boss_initialized: true,
            effects: pre.effects + enter_effects(m, first, None),
            ..pre
        },
        _ => post == GameView { effects: pre.effects + enter_effects(m, false, None), ..pre },
    }
}

/// The view of a game after leaving its mode for mode `next`: the exit
/// requests are made, and a queued script is dropped when dialogue ends.
pub open spec fn exit_view(pre: GameView, next: GameState) -> GameView {
    let clear = pre.mode == GameState::Dialogue && next != GameState::Dialogue;
    GameView {
        effects: pre.effects + exit_effects(pre.mode),
        queued_lines: if clear {
            Seq::empty()
        } else {
            pre.queued_lines
        },
        queued_then: if clear {
            Seq::empty()
        } else {
            pre.queued_then
        },
        ..pre
    }
}

/// What a confirm press does in dialogue: the cursor moves to the next
/// speakable line, which is shown; past the end, the follow-up mode is
/// requested.
pub open spec fn advance_post(pre: GameView, post: GameView) -> bool {
    let finish = finish_mode(pre.queued_lines, pre.queued_then, pre.loaded_data);
    match active_script(pre.queued_lines, pre.loaded_data) {
        None => post == pre,
        Some(script) => {
            let c = pre.current_line as int;
            if c >= script.len() {
                post == GameView { next_mode: Some(finish), ..pre }
            } else {
                let n = next_speakable(script, pre.flags, c + 1);
                if n >= script.len() {
                    post == GameView { current_line: n as usize, next_mode: Some(finish), ..pre }
                } else {
                    post == GameView {
                        current_line: n as usize,
                        effects: pre.effects.push(Effect::ShowLine { line: script[n] }),
                        ..pre
                    }
                }
            }
        },
    }
}

/// What an input edge does in each mode.
pub open spec fn press_post(pre: GameView, input: Input, post: GameView) -> bool {
    match (pre.mode, input) {
        (GameState::Playing, Input::Pause) | (GameState::BossFight, Input::Pause) => post == GameView {
            resume_mode: pre.mode,
            next_mode: Some(GameState::Paused),
            ..pre
        },
        (GameState::Paused, Input::Pause) => post == GameView {
            next_mode: Some(pre.resume_mode),
            ..pre
        },
        (GameState::Dialogue, Input::Confirm) => advance_post(pre, post),
        (GameState::Defeat, _) => post == GameView {
            health: PlayerHealth { current: pre.health.max, ..pre.health },
            level_id: starting_level(),
            loaded: false,
            next_mode: Some(GameState::LoadingNewLevel),
            ..pre
        },
        _ => post == pre,
    }
}

/// The key of a per-character flag: the lower-cased name and a suffix.
pub open spec fn npc_key(name: Seq<char>, suffix: Seq<char>) -> Seq<char> {
    lowercase_of(name) + suffix
}

/// A character's health as its flags record it; one when unrecorded.
pub open spec fn npc_health(flags: Map<Seq<char>, FlagVal>, name: Seq<char>) -> i32 {
    match lookup(flags, npc_key(name, "_health"@)) {
        Some(FlagVal::Number(n)) => n,
        _ => 1,
    }
}

/// The flags after a projectile hits the character `name`: one health is
/// lost; at none left the character is marked absent, dead, with health 0.
pub open spec fn npc_hit_flags(flags: Map<Seq<char>, FlagVal>, name: Seq<char>) -> Map<
    Seq<char>,
    FlagVal,
> {
    let h = npc_health(flags, name);
    if h <= 1 {
        flags.insert(npc_key(name, "_present"@), FlagVal::Bool(false)).insert(
            npc_key(name, "_status"@),
            FlagVal::Text("died_in_boss"@),
        ).insert(npc_key(name, "_health"@), FlagVal::Number(0))
    } else {
        flags.insert(npc_key(name, "_health"@), FlagVal::Number((h - 1) as i32))
    }
}

impl Game {
    /// Well-formedness: the flags are well formed and health does not
    /// exceed its maximum.
    pub open spec fn wf(&self) -> bool {
        self.flags.wf() && self.health.current <= self.health.max
    }

    /// The part of the state that reactions read and write.
    pub open spec fn story(&self) -> StoryState {
        story_of(self@)
    }

    /// A game at start-up: loading, full health, no flags, pointed at the
    /// starting level, with the loading screen requested.
    pub fn new() -> (r: Game)
        ensures
            r.wf(),
            r.mode == GameState::Loading,
            r.next_mode.is_none(),
            r.resume_mode == GameState::Playing,
            r.flags@ == Map::<Seq<char>, FlagVal>::empty(),
            r.level.level_id@ == starting_level(),
            !r.level.loaded,
            r.loaded_data.is_none(),
            r.dialogue.current_line == 0,
            r.queued.lines@.len() == 0,
            r.attack == initial_timer(),
            !r.boss_initialized,
            r.health == (PlayerHealth { current: PLAYER_MAX_HEALTH, max: PLAYER_MAX_HEALTH }),
            r.events@.len() == 0,
            r.effects@ == seq![Effect::ShowLoadingScreen],
    {
        let mut effects: Vec<Effect> = Vec::new();
        effects.push(Effect::ShowLoadingScreen);
        Game {
            mode: GameState::Loading,
            next_mode: None,
            resume_mode: GameState::Playing,
            flags: StoryFlags::new(),
            level: CurrentLevel::new(),
            loaded_data: None,
            dialogue: DialogueState { current_line: 0 },
            queued: QueuedDialogue::new(),
            attack: AttackTimer::new(),
            boss_initialized: false,
            health: PlayerHealth { current: PLAYER_MAX_HEALTH, max: PLAYER_MAX_HEALTH },
            events: Vec::new(),
            effects,
        }
    }

    /// Hands out the requests made so far, oldest first.
    pub fn take_effects(&mut self) -> (r: Vec<Effect>)
        ensures
            r@ == old(self)@.effects,
            final(self)@ == (GameView { effects: Seq::empty(), ..old(self)@ }),
            final(self).wf() == old(self).wf(),
    {
        let mut out: Vec<Effect> = Vec::new();
        std::mem::swap(&mut out, &mut self.effects);
        out
    }

    /// Runs one action of a reaction.
    pub fn execute_action(&mut self, action: &Action)
        requires
            old(self).wf(),
        ensures
            final(self).wf(),
            final(self)@ == with_story(old(self)@, apply_action(old(self).story(), *action)),
    {
        match action {
            Action::DespawnArena => {
                self.effects.push(Effect::DespawnArena);
            },
            Action::SetFlag { key, value } => {
                self.flags.set(key.as_str(), value.clone_value());
            },
            Action::QueueDialogue { lines, then } => {
                self.queued.lines = clone_lines(lines);
                self.queued.then_state = then.clone();
                self.next_mode = Some(GameState::Dialogue);
            },
            Action::SpawnDoor { position, leads_to, label } => {
                self.effects.push(
                    Effect::SpawnDoor {
                        position: *position,
                        leads_to: leads_to.clone(),
                        label: label.clone(),
                    },
                );
            },
            Action::RestartProjectiles { count } => {
                self.attack.restart(*count);
            },
            Action::TransitionToLevel { level_id } => {
                self.level.set_level(level_id.as_str());
                self.next_mode = Some(GameState::LoadingNewLevel);
            },
            Action::SetNextLevel { level_id } => {
                self.level.set_level(level_id.as_str());
            },
        }
    }

    /// Answers one level event: the first reaction of the current level
    /// whose trigger matches runs its actions in order; no other runs.
    pub fn process_event(&mut self, event: LevelEvent)
        requires
            old(self).wf(),
        ensures
            final(self).wf(),
            final(self)@ == with_story(
                old(self)@,
                match old(self).loaded_data {
                    Some(l) => react(old(self).story(), l.reactions@, event),
                    None => old(self).story(),
                },
            ),
    {
        let data = self.loaded_data.take();
        match &data {
            Some(level) => {
                match first_match(&level.reactions, &event, &self.flags) {
                    Some(i) => {
                        let ghost s0 = self.story();
                        let ghost g0 = *self;
                        assert(g0@ == with_story(g0@, s0));
                        proof {
                            lemma_only_first_match_runs(s0, level.reactions@, event, i as int);
                        }
                        let actions = &level.reactions[i].actions;
                        let mut j: usize = 0;
                        while j < actions.len()
                            invariant
                                self.wf(),
                                j <= actions@.len(),
                                self@ == with_story(
                                    g0@,
                                    apply_actions(s0, actions@.subrange(0, j as int)),
                                ),
                            decreases actions@.len() - j,
                        {
                            self.execute_action(&actions[j]);
                            proof {
                                let t = actions@.subrange(0, j + 1);
                                assert(t.drop_last() =~= actions@.subrange(0, j as int));
                                assert(t.last() == actions@[j as int]);
                            }
                            j = j + 1;
                        }
                        assert(actions@.subrange(0, actions@.len() as int) =~= actions@);
                    },
                    None => {
                        proof {
                            lemma_no_match_no_change(self.story(), level.reactions@, event);
                        }
                    },
                }
            },
            None => {},
        }
        self.loaded_data = data;
    }

    /// Records a level event for the next call of `process_reactions`.
    pub fn raise_event(&mut self, event: LevelEvent)
        ensures
            final(self)@ == (GameView { events: old(self)@.events.push(event), ..old(self)@ }),
            final(self).wf() == old(self).wf(),
    {
        self.events.push(event);
    }

    /// Answers every pending level event, oldest first.
    pub fn process_reactions(&mut self)
        requires
            old(self).wf(),
        ensures
            final(self).wf(),
            final(self)@ == (GameView {
                events: Seq::empty(),
                ..with_story(
                    old(self)@,
                    react_events(old(self).story(), old(self).loaded_data, old(self)@.events),
                )
            }),
    {
        let mut pending: Vec<LevelEvent> = Vec::new();
        std::mem::swap(&mut pending, &mut self.events);
        let ghost s0 = old(self).story();
        let ghost g0 = *old(self);
        let mut i: usize = 0;
        while i < pending.len()
            invariant
                self.wf(),
                i <= pending@.len(),
                self@ == (GameView {
                    events: Seq::empty(),
                    ..with_story(g0@, react_events(s0, g0.loaded_data, pending@.subrange(0, i as int)))
                }),
            decreases pending@.len() - i,
        {
            self.process_event(pending[i]);
            proof {
                let t = pending@.subrange(0, i + 1);
                assert(t.drop_last() =~= pending@.subrange(0, i as int));
                assert(t.last() == pending@[i as int]);
            }
            i = i + 1;
        }
        assert(pending@.subrange(0, pending@.len() as int) =~= pending@);
    }
    /// Leaves the current mode for mode `next`.
    fn exit_mode(&mut self, next: GameState)
        requires
            old(self).wf(),
        ensures
            final(self).wf(),
            final(self)@ == exit_view(old(self)@, next),
    {
        let ghost e0 = self.effects@;
        match self.mode {
            GameState::Loading | GameState::LoadingNewLevel => {
                self.effects.push(Effect::HideLoadingScreen);
            },
            GameState::Dialogue => {
                self.effects.push(Effect::CloseDialogue);
                if next != GameState::Dialogue {
                    self.queued.clear();
                }
            },
            GameState::Paused => {
                self.effects.push(Effect::HidePauseMenu);
            },
            GameState::Defeat => {
                self.effects.push(Effect::HideDefeatMenu);
            },
            _ => {},
        }
        assert(self.effects@ =~= e0 + exit_effects(self.mode));
        assert(self.queued.lines@ =~= exit_view(old(self)@, next).queued_lines);
        assert(self.queued.then_state@ =~= exit_view(old(self)@, next).queued_then);
    }

    /// Enters mode `m`, which is already the current mode.
    fn enter_mode(&mut self, m: GameState)
        requires
            old(self).wf(),
        ensures
            final(self).wf(),
            enter_post(old(self)@, m, final(self)@),
    {
        let ghost e0 = self.effects@;
        match m {
            GameState::Loading => {
                self.effects.push(Effect::ShowLoadingScreen);
                assert(self.effects@ =~= e0 + enter_effects(m, false, None));
            },
            GameState::LoadingNewLevel => {
                self.boss_initialized = false;
                self.effects.push(Effect::ShowLoadingScreen);
                self.effects.push(Effect::DespawnLevelEntities);
                self.effects.push(Effect::HideHealth);
                let request = self.level.start_loading_next_level();
                assert(self.effects@ =~= e0 + enter_effects(m, false, None));
                self.effects.push(Effect::Fetch(request));
                assert(self.effects@.drop_last() =~= e0 + enter_effects(m, false, None));
            },
            GameState::Dialogue => {
                let (c, line) = opening(&self.queued, &self.loaded_data, &self.flags);
                self.dialogue.current_line = c;
                self.effects.push(Effect::OpenDialogue { opening: line });
                self.effects.push(Effect::ShowHealth);
                assert(self.effects@ =~= e0 + enter_effects(m, false, line));
            },
            GameState::BossFight => {
                let first = !self.boss_initialized;
                if first {
                    self.boss_initialized = true;
                    self.flags.set("boss_phase", FlagValue::Number(1));
                    self.attack = AttackTimer::new();
                    self.effects.push(Effect::SpawnArena);
                }
                self.effects.push(Effect::ShowHealth);
                assert(self.effects@ =~= e0 + enter_effects(m, first, None));
            },
            GameState::Paused => {
                self.effects.push(Effect::ShowPauseMenu);
                assert(self.effects@ =~= e0 + enter_effects(m, false, None));
            },
            GameState::Defeat => {
                self.effects.push(Effect::ShowDefeatMenu);
                self.effects.push(Effect::HideHealth);
                assert(self.effects@ =~= e0 + enter_effects(m, false, None));
            },
            _ => {
                assert(self.effects@ =~= e0 + enter_effects(m, false, None));
            },
        }
    }

    /// Applies the requested mode change, if any: the old mode's exit hooks
    /// run, then the new mode's enter hooks.
    pub fn apply_transition(&mut self)
        requires
            old(self).wf(),
        ensures
            final(self).wf(),
            match old(self).next_mode {
                None => final(self)@ == old(self)@,
                Some(m) => final(self).mode == m && final(self).next_mode.is_none() && enter_post(
                    GameView { mode: m, next_mode: None, ..exit_view(old(self)@, m) },
                    m,
                    final(self)@,
                ),
            },
    {
        match self.next_mode {
            None => {},
            Some(m) => {
                self.next_mode = None;
                self.exit_mode(m);
                self.mode = m;
                self.enter_mode(m);
            },
        }
    }

    /// Ends the start-up delay: a level starts loading.
    pub fn check_assets_loaded(&mut self)
        ensures
            final(self)@ == if old(self).mode == GameState::Loading {
                GameView { next_mode: Some(GameState::LoadingNewLevel), ..old(self)@ }
            } else {
                old(self)@
            },
            final(self).wf() == old(self).wf(),
    {
        if self.mode == GameState::Loading {
            self.next_mode = Some(GameState::LoadingNewLevel);
        }
    }

    /// Moves the dialogue on by one line, skipping lines whose speaker is
    /// absent; past the end, requests the follow-up mode.
    pub fn advance_dialogue(&mut self)
        requires
            old(self).wf(),
        ensures
            final(self).wf(),
            advance_post(old(self)@, final(self)@),
    {
        let finish = dialogue_finish_mode(&self.queued, &self.loaded_data);
        let (n, line, done) = match active_lines(&self.queued, &self.loaded_data) {
            None => {
                return;
            },
            Some(script) => {
                let c = self.dialogue.current_line;
                if c >= script.len() {
                    (c, None, true)
                } else {
                    let n = first_speakable(script, &self.flags, c + 1);
                    if n >= script.len() {
                        (n, None, true)
                    } else {
                        (n, Some(script[n].clone_line()), false)
                    }
                }
            },
        };
        self.dialogue.current_line = n;
        if done {
            self.next_mode = Some(finish);
        } else {
            match line {
                Some(l) => {
                    self.effects.push(Effect::ShowLine { line: l });
                },
                None => {},
            }
        }
    }

    /// Answers an input edge: pause and resume, advance dialogue, or
    /// restart after a defeat.
    pub fn press(&mut self, input: Input)
        requires
            old(self).wf(),
        ensures
            final(self).wf(),
            press_post(old(self)@, input, final(self)@),
    {
        match (self.mode, input) {
            (GameState::Playing, Input::Pause) | (GameState::BossFight, Input::Pause) => {
                self.resume_mode = self.mode;
                self.next_mode = Some(GameState::Paused);
            },
            (GameState::Paused, Input::Pause) => {
                self.next_mode = Some(self.resume_mode);
            },
            (GameState::Dialogue, Input::Confirm) => {
                self.advance_dialogue();
            },
            (GameState::Defeat, _) => {
                self.health.current = self.health.max;
                let start = starting_level_id();
                self.level.set_level(start.as_str());
                self.next_mode = Some(GameState::LoadingNewLevel);
            },
            _ => {},
        }
    }

    /// A projectile hit the player during the boss fight: one heart is
    /// lost, and losing the last one requests the defeat screen.
    pub fn handle_projectile_touch_player(&mut self)
        requires
            old(self).wf(),
        ensures
            final(self).wf(),
            final(self)@ == if old(self).mode != GameState::BossFight {
                old(self)@
            } else if old(self).health.current == 0 {
                GameView { effects: old(self)@.effects.push(Effect::PlaySound(Sound::PlayerHit)), ..old(self)@ }
            } else {
                GameView {
                    health: PlayerHealth {
                        current: (old(self).health.current - 1) as u8,
                        ..old(self).health
                    },
                    next_mode: if old(self).health.current == 1 {
                        Some(GameState::Defeat)
                    } else {
                        old(self).next_mode
                    },
                    effects: old(self)@.effects.push(Effect::PlaySound(Sound::PlayerHit)),
                    ..old(self)@
                }
            },
    {
        if self.mode != GameState::BossFight {
            return;
        }
        self.effects.push(Effect::PlaySound(Sound::PlayerHit));
        if self.health.current > 0 {
            self.health.current = self.health.current - 1;
            if self.health.current == 0 {
                self.next_mode = Some(GameState::Defeat);
            }
        }
    }

    /// A projectile hit the character `name` during the boss fight; true
    /// when that killed it.
    pub fn handle_projectile_touch_npc(&mut self, name: &str) -> (r: bool)
        requires
            old(self).wf(),
        ensures
            final(self).wf(),
            old(self).mode != GameState::BossFight ==> final(self)@ == old(self)@ && !r,
            old(self).mode == GameState::BossFight ==> {
                &&& r == (npc_health(old(self)@.flags, name@) <= 1)
                &&& final(self)@ == GameView {
                    flags: npc_hit_flags(old(self)@.flags, name@),
                    effects: if lowercase_of(name@) == "duck"@ {
                        old(self)@.effects.push(Effect::PlaySound(Sound::DuckQuack))
                    } else {
                        old(self)@.effects
                    },
                    ..old(self)@
                }
            },
    {
        if self.mode != GameState::BossFight {
            return false;
        }
        let lower = lowercase(name);
        if same_text(lower.as_str(), "duck") {
            self.effects.push(Effect::PlaySound(Sound::DuckQuack));
        }
        let health_key = lower.clone().concat("_health");
        let current = match self.flags.get_number(health_key.as_str()) {
            Some(n) => n,
            None => 1,
        };
        if current <= 1 {
            let present_key = lower.clone().concat("_present");
            let status_key = lower.concat("_status");
            self.flags.set(present_key.as_str(), FlagValue::Bool(false));
            self.flags.set(status_key.as_str(), FlagValue::Text("died_in_boss".to_owned()));
            self.flags.set(health_key.as_str(), FlagValue::Number(0));
            true
        } else {
            self.flags.set(health_key.as_str(), FlagValue::Number(current - 1));
            false
        }
    }

    /// The player touched a door leading to level `leads_to` while
    /// exploring: that level starts loading.
    pub fn handle_door_touch(&mut self, leads_to: &str)
        ensures
            final(self)@ == if old(self).mode == GameState::Playing {
                GameView {
                    level_id: leads_to@,
                    loaded: false,
                    next_mode: Some(GameState::LoadingNewLevel),
                    effects: old(self)@.effects.push(Effect::PlaySound(Sound::CreakingDoor)),
                    ..old(self)@
                }
            } else {
                old(self)@
            },
            final(self).wf() == old(self).wf(),
    {
        if self.mode == GameState::Playing {
            self.effects.push(Effect::PlaySound(Sound::CreakingDoor));
            self.level.set_level(leads_to);
            self.next_mode = Some(GameState::LoadingNewLevel);
        }
    }

    /// Offers the descriptor `data` fetched under `ticket` while a level is
    /// loading. It is taken only when it answers the outstanding fetch and
    /// no descriptor has arrived yet; then the level's content is spawned
    /// and its opening mode requested. True when it is taken.
    pub fn check_new_level_ready(&mut self, ticket: u64, data: LevelData) -> (r: bool)
        requires
            old(self).wf(),
        ensures
            final(self).wf(),
            r == (old(self).mode == GameState::LoadingNewLevel && !old(self).level.loaded && ticket
                == old(self).level.ticket),
            !r ==> final(self)@ == old(self)@,
            r ==> {
                &&& final(self)@ == GameView {
                    loaded: true,
                    loaded_data: Some(data),
                    next_mode: Some(arrival_mode(data)),
                    effects: final(self)@.effects,
                    ..old(self)@
                }
                &&& final(self)@.effects.len() == old(self)@.effects.len() + 1
                &&& final(self)@.effects.drop_last() == old(self)@.effects
                &&& match final(self)@.effects.last() {
                    Effect::SpawnLevel(plan) => spawn_plan(data, plan@),
                    _ => false,
                }
            },
    {
        if self.mode != GameState::LoadingNewLevel {
            return false;
        }
        if !self.level.poll(ticket) {
            return false;
        }
        let plan = level_spawns(&data);
        let ghost e0 = self.effects@;
        self.effects.push(Effect::SpawnLevel(plan));
        assert(self.effects@.drop_last() =~= e0);
        let next = if data.dialogue.len() > 0 {
            GameState::Dialogue
        } else if room_is_boss(data.room_type.as_str()) {
            GameState::BossFight
        } else {
            GameState::Playing
        };
        self.loaded_data = Some(data);
        self.next_mode = Some(next);
        true
    }

    /// The player's hearts, filled or empty, for display.
    pub fn player_hearts(&self) -> (r: Vec<bool>)
        ensures
            r@ == heart_row(self.health.current as int, self.health.max as int),
    {
        hearts(self.health.current as i32, self.health.max as i32)
    }

    /// The hearts of the follower `name`, from its flags `<name>_health` and
    /// `<name>_max_health` (both zero when unset), for display.
    pub fn follower_hearts(&self, name: &str) -> (r: Vec<bool>)
        requires
            self.wf(),
        ensures
            r@ == heart_row(
                number_or_zero(self@.flags, npc_key(name@, "_health"@)) as int,
                number_or_zero(self@.flags, npc_key(name@, "_max_health"@)) as int,
            ),
    {
        let lower = lowercase(name);
        let health_key = lower.clone().concat("_health");
        let max_key = lower.concat("_max_health");
        let health = match self.flags.get_number(health_key.as_str()) {
            Some(n) => n,
            None => 0,
        };
        let max = match self.flags.get_number(max_key.as_str()) {
            Some(n) => n,
            None => 0,
        };
        hearts(health, max)
    }

    /// One frame of the boss attack scheduler; `boundary` tells whether a
    /// timer period ended, `anchors` whether player and boss are present.
    pub fn fire_projectiles_at_player(&mut self, boundary: bool, anchors: bool) -> (r: TickOutcome)
        ensures
            final(self).wf() == old(self).wf(),
            old(self).mode != GameState::BossFight ==> final(self)@ == old(self)@ && r
                == TickOutcome::Idle,
            old(self).mode == GameState::BossFight ==> {
                let (t, o) = tick_spec(old(self).attack, boundary, anchors);
                &&& r == o
                &&& final(self)@ == GameView {
                    attack: t,
                    effects: if o == TickOutcome::Fire {
                        old(self)@.effects.push(Effect::FireProjectile)
                    } else {
                        old(self)@.effects
                    },
                    events: if o == TickOutcome::WaveComplete {
                        old(self)@.events.push(LevelEvent::ProjectilesDone)
                    } else {
                        old(self)@.events
                    },
                    ..old(self)@
                }
            },
    {
        if self.mode != GameState::BossFight {
            return TickOutcome::Idle;
        }
        let outcome = self.attack.tick(boundary, anchors);
        match outcome {
            TickOutcome::Fire => {
                self.effects.push(Effect::FireProjectile);
            },
            TickOutcome::WaveComplete => {
                self.events.push(LevelEvent::ProjectilesDone);
            },
            TickOutcome::Idle => {},
        }
        outcome
    }
}

/// A row of `total` hearts (none when `total` is negative), the first
/// `filled` of them full.
pub open spec fn heart_row(filled: int, total: int) -> Seq<bool> {
    Seq::new(if total > 0 { total as nat } else { 0 }, |i: int| i < filled)
}

/// The number held by flag `k`; zero when it holds none.
pub open spec fn number_or_zero(flags: Map<Seq<char>, FlagVal>, k: Seq<char>) -> i32 {
    match lookup(flags, k) {
        Some(FlagVal::Number(n)) => n,
        _ => 0,
    }
}

/// The hearts of a health display: `total` of them, the first `filled` full.
pub fn hearts(filled: i32, total: i32) -> (r: Vec<bool>)
    ensures
        r@ == heart_row(filled as int, total as int),
{
    let mut r: Vec<bool> = Vec::new();
    let mut i: i32 = 0;
    while i < total
        invariant
            0 <= i,
            i <= (if total > 0 { total } else { 0 }),
            r@ == Seq::new(i as nat, |j: int| j < filled),
        decreases total - i,
    {
        r.push(i < filled);
        i = i + 1;
        assert(r@ =~= Seq::new(i as nat, |j: int| j < filled));
    }
    assert(r@ =~= heart_row(filled as int, total as int));
    r
}

/// The script that plays, if any.
fn active_lines<'a>(queued: &'a QueuedDialogue, level: &'a Option<LevelData>) -> (r: Option<
    &'a Vec<DialogueLine>,
>)
    ensures
        match r {
            Some(v) => active_script(queued.lines@, *level) == Some(v@),
            None => active_script(queued.lines@, *level).is_none(),
        },
{
    if !queued.is_empty() {
        Some(&queued.lines)
    } else {
        match level {
            Some(l) => Some(&l.dialogue),
            None => None,
        }
    }
}

/// Where a script opens: the first speakable line's index, and that line.
fn opening(queued: &QueuedDialogue, level: &Option<LevelData>, flags: &StoryFlags) -> (r: (
    usize,
    Option<DialogueLine>,
))
    requires
        flags.wf(),
    ensures
        r.0 as int == next_speakable(script_of(queued.lines@, *level), flags@, 0),
        r.1 == opening_line(script_of(queued.lines@, *level), flags@),
{
    let empty: Vec<DialogueLine> = Vec::new();
    let script: &Vec<DialogueLine> = match active_lines(queued, level) {
        Some(v) => v,
        None => &empty,
    };
    assert(script@ == script_of(queued.lines@, *level));
    let c = first_speakable(script, flags, 0);
    if c < script.len() {
        (c, Some(script[c].clone_line()))
    } else {
        (c, None)
    }
}

} // verus!
