//! Level descriptors: the data that drives a room, as stored externally and
//! decoded before it reaches the library.

use vstd::prelude::*;
use crate::flags::FlagValue;

verus! {

/// A single-precision coordinate or rate, carried as its IEEE-754 bit
/// pattern. The library moves such numbers from level data into spawn
/// requests without reading them.
#[derive(Clone, Copy, Debug, PartialEq, Eq, Structural)]
pub struct Scalar {
    pub bits: u32,
}

/// A position in the world.
#[derive(Clone, Copy, Debug, PartialEq, Eq, Structural)]
pub struct Point {
    pub x: Scalar,
    pub y: Scalar,
}

/// One line of a dialogue script.
#[derive(Clone, Debug)]
pub struct DialogueLine {
    pub speaker: String,
    pub text: String,
}

impl DialogueLine {
    /// A copy of this line.
    pub fn clone_line(&self) -> (r: DialogueLine)
        ensures
            r == *self,
    {
        DialogueLine { speaker: self.speaker.clone(), text: self.text.clone() }
    }
}

/// A copy of a dialogue script.
pub fn clone_lines(lines: &Vec<DialogueLine>) -> (r: Vec<DialogueLine>)
    ensures
        r@ == lines@,
{
    let mut r: Vec<DialogueLine> = Vec::new();
    let mut i: usize = 0;
    while i < lines.len()
        invariant
            i <= lines@.len(),
            r@ == lines@.subrange(0, i as int),
        decreases lines@.len() - i,
    {
        r.push(lines[i].clone_line());
        i = i + 1;
    }
    assert(r@ =~= lines@);
    r
}

/// Extra behaviour that level data may attach to a door or a character.
#[derive(Clone, Copy, Debug, PartialEq, Eq, Structural)]
pub enum EntityComponent {
    Roam { speed: Scalar, range: Scalar },
    Follow { speed: Scalar, distance: Scalar },
}

/// A door of a level: touching it loads the level `leads_to`.
#[derive(Clone, Debug)]
pub struct DoorData {
    pub position: Point,
    pub leads_to: String,
    pub label: String,
    pub locked: bool,
    pub key_required: Option<String>,
    pub extra: Vec<EntityComponent>,
}

/// An item lying in a level.
#[derive(Clone, Debug)]
pub struct ItemData {
    pub item_type: String,
    pub position: Point,
}

/// A non-player character of a level.
#[derive(Clone, Debug)]
pub struct NpcData {
    pub name: String,
    pub position: Point,
    pub extra: Vec<EntityComponent>,
}

/// What a reaction waits for.
#[derive(Clone, Debug)]
pub enum Trigger {
    /// The named event.
    Event(String),
    /// The named event while `flag` holds `equals`.
    EventAndFlag { event: String, flag: String, equals: FlagValue },
}

/// One world mutation that a reaction performs.
#[derive(Clone, Debug)]
pub enum Action {
    /// Removes the boss arena and its walls.
    DespawnArena,
    /// Writes a story flag.
    SetFlag { key: String, value: FlagValue },
    /// Installs a dialogue script and enters dialogue; `then` names the
    /// mode that follows it.
    QueueDialogue { lines: Vec<DialogueLine>, then: String },
    /// Creates a door leading to `leads_to`.
    SpawnDoor { position: Point, leads_to: String, label: String },
    /// Starts a new wave of `count` projectiles.
    RestartProjectiles { count: u32 },
    /// Points the level loader at `level_id` and enters level loading.
    TransitionToLevel { level_id: String },
    /// Points the level loader at `level_id` and leaves the mode alone.
    SetNextLevel { level_id: String },
}

/// A rule of a level: when `trigger` matches an event, run `actions` in order.
#[derive(Clone, Debug)]
pub struct Reaction {
    pub trigger: Trigger,
    pub actions: Vec<Action>,
}

/// The descriptor of one level.
#[derive(Clone, Debug)]
pub struct LevelData {
    pub id: String,
    pub name: String,
    pub room_type: String,
    pub player_start: Point,
    pub dialogue: Vec<DialogueLine>,
    pub doors: Vec<DoorData>,
    pub boss: Option<String>,
    pub items: Vec<ItemData>,
    pub npcs: Vec<NpcData>,
    pub music: Option<String>,
    pub reactions: Vec<Reaction>,
}

/// Whether two strings hold the same characters.
pub fn same_text(a: &str, b: &str) -> (r: bool)
    ensures
        r == (a@ == b@),
{
    let x = a.to_owned();
    let y = b.to_owned();
    x == y
}

} // verus!
