//! Modes of the game, the events and inputs it consumes, and the requests
//! it hands to the world around it.

use vstd::prelude::*;
use crate::loader::FetchRequest;
use crate::schema::{DialogueLine, Point, Scalar};

verus! {

/// One mode of the top-level state machine.
#[derive(Clone, Copy, Debug, PartialEq, Eq, Structural, Hash)]
pub enum GameState {
    Loading,
    StartGame,
    Playing,
    LoadingNewLevel,
    Dialogue,
    Paused,
    BossFight,
    Defeat,
}

/// A gameplay event that level reactions can answer.
#[derive(Clone, Copy, Debug, PartialEq, Eq, Structural)]
pub enum LevelEvent {
    ProjectilesDone,
    DialogueComplete,
    BossDefeated,
}

/// A discrete input edge.
#[derive(Clone, Copy, Debug, PartialEq, Eq, Structural)]
pub enum Input {
    /// The confirm key was pressed.
    Confirm,
    /// The pause key was pressed.
    Pause,
}

/// A sound effect.
#[derive(Clone, Copy, Debug, PartialEq, Eq, Structural)]
pub enum Sound {
    PlayerHit,
    DuckQuack,
    CreakingDoor,
}

/// Something to create for a freshly loaded level.
#[derive(Clone, Debug)]
pub enum Spawn {
    /// Walls along the border of the window.
    BorderWalls,
    /// A cave of `width` by `height` tiles; `walkable` holds one entry per
    /// tile, row by row: a floor where it is true, a wall elsewhere.
    Cave { width: usize, height: usize, walkable: Vec<bool> },
    /// A door; `roam`, when present, is its (speed, range).
    Door { position: Point, leads_to: String, label: String, roam: Option<(Scalar, Scalar)> },
    /// A character; `roam` is its (speed, range), `follow` its (speed, distance).
    Npc {
        name: String,
        position: Point,
        roam: Option<(Scalar, Scalar)>,
        follow: Option<(Scalar, Scalar)>,
    },
    /// The player.
    Player { position: Point },
}

/// A fire-and-forget request from the core to the world.
#[derive(Clone, Debug)]
pub enum Effect {
    ShowLoadingScreen,
    HideLoadingScreen,
    /// Remove every entity that belongs to the current level.
    DespawnLevelEntities,
    /// Start fetching a level descriptor.
    Fetch(FetchRequest),
    /// Create the content of a freshly loaded level, in order.
    SpawnLevel(Vec<Spawn>),
    /// Open the dialogue panel on `opening`, or on an empty placeholder.
    OpenDialogue { opening: Option<DialogueLine> },
    /// Show `line` in the open dialogue panel.
    ShowLine { line: DialogueLine },
    CloseDialogue,
    ShowHealth,
    HideHealth,
    ShowPauseMenu,
    HidePauseMenu,
    ShowDefeatMenu,
    HideDefeatMenu,
    /// Build the boss arena, its walls and the boss.
    SpawnArena,
    /// Remove the arena marker and every wall.
    DespawnArena,
    SpawnDoor { position: Point, leads_to: String, label: String },
    /// Spawn one projectile from near the boss toward the player.
    FireProjectile,
    PlaySound(Sound),
}

} // verus!
