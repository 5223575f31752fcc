//! The boss attack scheduler: a capped wave of projectiles, fired one per
//! timer period, followed by a single completion signal.

use vstd::prelude::*;

verus! {

/// Progress of the current projectile wave.
#[derive(Clone, Copy, Debug, PartialEq, Eq, Structural)]
pub struct AttackTimer {
    pub projectiles_fired: u32,
    pub max_projectiles: u32,
    /// Whether the wave's completion has been signalled.
    pub event_sent: bool,
}

/// What one scheduler tick asks of the world.
#[derive(Clone, Copy, Debug, PartialEq, Eq, Structural)]
pub enum TickOutcome {
    /// Nothing to do.
    Idle,
    /// Spawn one projectile aimed at the player.
    Fire,
    /// Signal that the wave is complete.
    WaveComplete,
}

/// Projectiles in the first wave of an encounter.
pub const FIRST_WAVE: u32 = 15;

/// The timer at the start of an encounter.
pub open spec fn initial_timer() -> AttackTimer {
    AttackTimer { projectiles_fired: 0, max_projectiles: FIRST_WAVE, event_sent: false }
}

/// The timer after a restart with `count` projectiles.
pub open spec fn restarted(count: u32) -> AttackTimer {
    AttackTimer { projectiles_fired: 0, max_projectiles: count, event_sent: false }
}

/// One tick: `boundary` tells whether a timer period ended, `anchors`
/// whether both the player and the boss are in the world.
pub open spec fn tick_spec(t: AttackTimer, boundary: bool, anchors: bool) -> (AttackTimer, TickOutcome) {
    if t.projectiles_fired >= t.max_projectiles {
        if !t.event_sent {
            (AttackTimer { event_sent: true, ..t }, TickOutcome::WaveComplete)
        } else {
            (t, TickOutcome::Idle)
        }
    } else if boundary && anchors {
        (AttackTimer { projectiles_fired: (t.projectiles_fired + 1) as u32, ..t }, TickOutcome::Fire)
    } else {
        (t, TickOutcome::Idle)
    }
}

impl AttackTimer {
    /// The timer at the start of an encounter.
    pub fn new() -> (r: AttackTimer)
        ensures
            r == initial_timer(),
    {
        AttackTimer { projectiles_fired: 0, max_projectiles: FIRST_WAVE, event_sent: false }
    }

    /// Starts a new wave of `count` projectiles.
    pub fn restart(&mut self, count: u32)
        ensures
            *final(self) == restarted(count),
    {
        self.projectiles_fired = 0;
        self.max_projectiles = count;
        self.event_sent = false;
    }

    /// Advances the scheduler by one frame.
    pub fn tick(&mut self, boundary: bool, anchors: bool) -> (r: TickOutcome)
        ensures
            (*final(self), r) == tick_spec(*old(self), boundary, anchors),
    {
        if self.projectiles_fired >= self.max_projectiles {
            if !self.event_sent {
                self.event_sent = true;
                TickOutcome::WaveComplete
            } else {
                TickOutcome::Idle
            }
        } else if boundary && anchors {
            self.projectiles_fired = self.projectiles_fired + 1;
            TickOutcome::Fire
        } else {
            TickOutcome::Idle
        }
    }
}

impl Default for AttackTimer {
    fn default() -> (r: AttackTimer)
        ensures
            r == initial_timer(),
    {
        AttackTimer::new()
    }
}

/// Runs the ticks `inputs` (boundary, anchors) from `t`: the final timer,
/// the number of projectiles fired and the number of completion signals.
pub open spec fn run_ticks(t: AttackTimer, inputs: Seq<(bool, bool)>) -> (AttackTimer, nat, nat)
    decreases inputs.len(),
{
    if inputs.len() == 0 {
        (t, 0, 0)
    } else {
        let (t1, f, c) = run_ticks(t, inputs.drop_last());
        let (t2, o) = tick_spec(t1, inputs.last().0, inputs.last().1);
        (
            t2,
            f + if o == TickOutcome::Fire { 1nat } else { 0nat },
            c + if o == TickOutcome::WaveComplete { 1nat } else { 0nat },
        )
    }
}

/// `n` ticks that each end a timer period with both anchors present.
pub open spec fn boundary_ticks(n: nat) -> Seq<(bool, bool)> {
    Seq::new(n, |i: int| (true, true))
}

proof fn lemma_completion_latched(t: AttackTimer, inputs: Seq<(bool, bool)>)
    ensures
        run_ticks(t, inputs).2 <= 1,
        run_ticks(t, inputs).2 == 1 ==> run_ticks(t, inputs).0.event_sent,
        t.event_sent ==> run_ticks(t, inputs).2 == 0 && run_ticks(t, inputs).0.event_sent,
    decreases inputs.len(),
{
    if inputs.len() > 0 {
        lemma_completion_latched(t, inputs.drop_last());
    }
}

/// However many ticks follow, a wave signals its completion at most once.
pub proof fn lemma_at_most_one_completion(t: AttackTimer, inputs: Seq<(bool, bool)>)
    ensures
        run_ticks(t, inputs).2 <= 1,
{
    lemma_completion_latched(t, inputs);
}

proof fn lemma_run_concat(t: AttackTimer, a: Seq<(bool, bool)>, b: Seq<(bool, bool)>)
    ensures
        ({
            let (ta, fa, ca) = run_ticks(t, a);
            let (tb, fb, cb) = run_ticks(ta, b);
            run_ticks(t, a + b) == (tb, fa + fb, ca + cb)
        }),
    decreases b.len(),
{
    if b.len() == 0 {
        assert(a + b =~= a);
    } else {
        lemma_run_concat(t, a, b.drop_last());
        assert((a + b).drop_last() =~= a + b.drop_last());
        assert((a + b).last() == b.last());
    }
}

proof fn lemma_firing(count: u32, k: nat)
    requires
        k <= count,
    ensures
        run_ticks(restarted(count), boundary_ticks(k)) == (
            AttackTimer { projectiles_fired: k as u32, max_projectiles: count, event_sent: false },
            k,
            0nat,
        ),
    decreases k,
{
    if k > 0 {
        assert(boundary_ticks(k).drop_last() =~= boundary_ticks((k - 1) as nat));
        lemma_firing(count, (k - 1) as nat);
    }
}

proof fn lemma_spent(t: AttackTimer, inputs: Seq<(bool, bool)>)
    requires
        t.projectiles_fired >= t.max_projectiles,
        !t.event_sent,
        inputs.len() >= 1,
    ensures
        run_ticks(t, inputs).1 == 0,
        run_ticks(t, inputs).2 == 1,
    decreases inputs.len(),
{
    if inputs.len() > 1 {
        lemma_spent(t, inputs.drop_last());
        lemma_completion_latched(t, inputs.drop_last());
        let t1 = run_ticks(t, inputs.drop_last()).0;
        assert(t1.projectiles_fired >= t1.max_projectiles) by {
            lemma_spent_keeps_count(t, inputs.drop_last());
        }
    } else {
        assert(run_ticks(t, inputs.drop_last()) == (t, 0nat, 0nat));
    }
}

proof fn lemma_spent_keeps_count(t: AttackTimer, inputs: Seq<(bool, bool)>)
    requires
        t.projectiles_fired >= t.max_projectiles,
    ensures
        run_ticks(t, inputs).0.projectiles_fired == t.projectiles_fired,
        run_ticks(t, inputs).0.max_projectiles == t.max_projectiles,
        run_ticks(t, inputs).1 == 0,
    decreases inputs.len(),
{
    if inputs.len() > 0 {
        lemma_spent_keeps_count(t, inputs.drop_last());
    }
}

/// After a restart with `count` projectiles, `count` period boundaries fire
/// exactly `count` projectiles and no completion; any later ticks add no
/// projectile and exactly one completion signal.
pub proof fn lemma_wave_fires_then_completes_once(count: u32, rest: Seq<(bool, bool)>)
    requires
        rest.len() >= 1,
    ensures
        run_ticks(restarted(count), boundary_ticks(count as nat)).1 == count,
        run_ticks(restarted(count), boundary_ticks(count as nat)).2 == 0,
        run_ticks(restarted(count), boundary_ticks(count as nat) + rest).1 == count,
        run_ticks(restarted(count), boundary_ticks(count as nat) + rest).2 == 1,
{
    lemma_firing(count, count as nat);
    lemma_run_concat(restarted(count), boundary_ticks(count as nat), rest);
    let t = AttackTimer { projectiles_fired: count, max_projectiles: count, event_sent: false };
    lemma_spent(t, rest);
}

} // verus!
