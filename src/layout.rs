//! What a freshly loaded level spawns: its geometry, its doors and
//! characters with their extra behaviour, and the player.

use vstd::prelude::*;
use crate::events::Spawn;
use crate::schema::{same_text, DoorData, EntityComponent, LevelData, NpcData, Scalar};

verus! {

/// Tiles across a cave.
pub const CAVE_WIDTH: usize = 50;

/// Tiles down a cave.
pub const CAVE_HEIGHT: usize = 50;

/// Relies on mapgen's `MapBuilder` with `NoiseGenerator::uniform` and
/// `CellularAutomata::new`: the generated map holds one walkability entry
/// per tile, row by row. The generator is seeded from the clock, so nothing
/// more is stated of the entries.
#[verifier::external_body]
fn generate_cave(width: usize, height: usize) -> (r: Vec<bool>)
    requires
        1 <= width,
        1 <= height,
        width * height <= usize::MAX,
    ensures
        r@.len() == width * height,
{
    mapgen::MapBuilder::new(width, height)
        .with(mapgen::filter::NoiseGenerator::uniform())
        .with(mapgen::filter::CellularAutomata::new())
        .build()
        .walkables
}

/// The (speed, range) of the last roaming behaviour in `extra`; later
/// entries replace earlier ones.
pub open spec fn last_roam(extra: Seq<EntityComponent>) -> Option<(Scalar, Scalar)>
    decreases extra.len(),
{
    if extra.len() == 0 {
        None
    } else {
        match extra.last() {
            EntityComponent::Roam { speed, range } => Some((speed, range)),
            _ => last_roam(extra.drop_last()),
        }
    }
}

/// The (speed, distance) of the last following behaviour in `extra`.
pub open spec fn last_follow(extra: Seq<EntityComponent>) -> Option<(Scalar, Scalar)>
    decreases extra.len(),
{
    if extra.len() == 0 {
        None
    } else {
        match extra.last() {
            EntityComponent::Follow { speed, distance } => Some((speed, distance)),
            _ => last_follow(extra.drop_last()),
        }
    }
}

/// The roaming behaviour that `extra` leaves in force.
pub fn roam_of(extra: &Vec<EntityComponent>) -> (r: Option<(Scalar, Scalar)>)
    ensures
        r == last_roam(extra@),
{
    let mut r: Option<(Scalar, Scalar)> = None;
    let mut i: usize = 0;
    while i < extra.len()
        invariant
            i <= extra@.len(),
            r == last_roam(extra@.subrange(0, i as int)),
        decreases extra@.len() - i,
    {
        proof {
            let t = extra@.subrange(0, i + 1);
            assert(t.drop_last() =~= extra@.subrange(0, i as int));
            assert(t.last() == extra@[i as int]);
        }
        match extra[i] {
            EntityComponent::Roam { speed, range } => {
                r = Some((speed, range));
            },
            _ => {},
        }
        i = i + 1;
    }
    assert(extra@.subrange(0, extra@.len() as int) =~= extra@);
    r
}

/// The following behaviour that `extra` leaves in force.
pub fn follow_of(extra: &Vec<EntityComponent>) -> (r: Option<(Scalar, Scalar)>)
    ensures
        r == last_follow(extra@),
{
    let mut r: Option<(Scalar, Scalar)> = None;
    let mut i: usize = 0;
    while i < extra.len()
        invariant
            i <= extra@.len(),
            r == last_follow(extra@.subrange(0, i as int)),
        decreases extra@.len() - i,
    {
        proof {
            let t = extra@.subrange(0, i + 1);
            assert(t.drop_last() =~= extra@.subrange(0, i as int));
            assert(t.last() == extra@[i as int]);
        }
        match extra[i] {
            EntityComponent::Follow { speed, distance } => {
                r = Some((speed, distance));
            },
            _ => {},
        }
        i = i + 1;
    }
    assert(extra@.subrange(0, extra@.len() as int) =~= extra@);
    r
}

/// The spawn of a door: doors roam but never follow.
pub open spec fn door_spawn(d: DoorData) -> Spawn {
    Spawn::Door { position: d.position, leads_to: d.leads_to, label: d.label, roam: last_roam(d.extra@) }
}

/// The spawn of a character, with its roaming and following behaviour.
pub open spec fn npc_spawn(n: NpcData) -> Spawn {
    Spawn::Npc {
        name: n.name,
        position: n.position,
        roam: last_roam(n.extra@),
        follow: last_follow(n.extra@),
    }
}

/// Whether a level is a procedurally generated cave; every other room type
/// gets bordered walls.
pub open spec fn is_cave(room_type: Seq<char>) -> bool {
    room_type == "cave"@
}

/// `s` is the geometry of a room of type `room_type`: a cave of the
/// standard size, or bordered walls.
pub open spec fn geometry_ok(room_type: Seq<char>, s: Spawn) -> bool {
    if is_cave(room_type) {
        match s {
            Spawn::Cave { width, height, walkable } => width == CAVE_WIDTH && height == CAVE_HEIGHT
                && walkable@.len() == CAVE_WIDTH * CAVE_HEIGHT,
            _ => false,
        }
    } else {
        s == Spawn::BorderWalls
    }
}

/// `plan` is what level `l` spawns: its geometry first, then its doors and
/// its characters in order, then the player at the level's start.
pub open spec fn spawn_plan(l: LevelData, plan: Seq<Spawn>) -> bool {
    let d = l.doors@.len() as int;
    let n = l.npcs@.len() as int;
    &&& plan.len() == d + n + 2
    &&& geometry_ok(l.room_type@, plan[0])
    &&& forall|i: int| 0 <= i < d ==> plan[1 + i] == door_spawn(l.doors@[i])
    &&& forall|i: int| 0 <= i < n ==> plan[1 + d + i] == npc_spawn(l.npcs@[i])
    &&& plan[d + n + 1] == Spawn::Player { position: l.player_start }
}

/// What level `level` spawns.
pub fn level_spawns(level: &LevelData) -> (r: Vec<Spawn>)
    ensures
        spawn_plan(*level, r@),
{
    let mut r: Vec<Spawn> = Vec::new();
    if same_text(level.room_type.as_str(), "cave") {
        let walkable = generate_cave(CAVE_WIDTH, CAVE_HEIGHT);
        r.push(Spawn::Cave { width: CAVE_WIDTH, height: CAVE_HEIGHT, walkable });
    } else {
        r.push(Spawn::BorderWalls);
    }
    let mut i: usize = 0;
    while i < level.doors.len()
        invariant
            i <= level.doors@.len(),
            r@.len() == 1 + i,
            geometry_ok(level.room_type@, r@[0]),
            forall|j: int| 0 <= j < i ==> r@[1 + j] == door_spawn(level.doors@[j]),
        decreases level.doors@.len() - i,
    {
        let d = &level.doors[i];
        r.push(
            Spawn::Door {
                position: d.position,
                leads_to: d.leads_to.clone(),
                label: d.label.clone(),
                roam: roam_of(&d.extra),
            },
        );
        i = i + 1;
    }
    i = 0;
    while i < level.npcs.len()
        invariant
            i <= level.npcs@.len(),
            r@.len() == 1 + level.doors@.len() + i,
            geometry_ok(level.room_type@, r@[0]),
            forall|j: int| 0 <= j < level.doors@.len() ==> r@[1 + j] == door_spawn(level.doors@[j]),
            forall|j: int| 0 <= j < i ==> r@[1 + level.doors@.len() + j] == npc_spawn(level.npcs@[j]),
        decreases level.npcs@.len() - i,
    {
        let n = &level.npcs[i];
        r.push(
            Spawn::Npc {
                name: n.name.clone(),
                position: n.position,
                roam: roam_of(&n.extra),
                follow: follow_of(&n.extra),
            },
        );
        i = i + 1;
    }
    r.push(Spawn::Player { position: level.player_start });
    r
}

} // verus!
