use vstd::prelude::*;

verus! {

/// The game lifecycle.
#[derive(Clone, Copy, Debug, PartialEq, Eq, Structural)]
pub enum GameStates {
    /// Idle: the player is centered and no obstacles stand.
    PreGame,
    /// The simulation runs.
    GameActive,
    /// A collision happened; only a restart is taken.
    GameOver,
    /// Transient: the player is respawned and the lifecycle returns to `PreGame`.
    Reset,
}

/// What the jump controls did during one tick.
#[derive(Clone, Copy, Debug, PartialEq, Eq, Structural)]
pub struct JumpInput {
    /// A jump control (key or pointer button) is held down.
    pub pressed: bool,
    /// A jump control was released during this tick.
    pub just_released: bool,
}

/// The lifecycle state that an accepted activation leads to.
pub open spec fn activated(s: GameStates) -> GameStates {
    match s {
        GameStates::PreGame => GameStates::GameActive,
        GameStates::GameOver => GameStates::Reset,
        _ => s,
    }
}

/// The lifecycle and readiness after one tick of input.
pub open spec fn lifecycle_after(s: GameStates, ready: bool, input: JumpInput) -> (GameStates, bool) {
    let fires = ready && input.pressed;
    let s2 = if fires { activated(s) } else { s };
    let r2 = if input.just_released { true } else if fires { false } else { ready };
    (s2, r2)
}

/// Advances the lifecycle from the jump controls. An activation is taken only
/// while `ready` holds, and clears it; a release sets it again.
pub fn update_game_state(game_state: &mut GameStates, ready: &mut bool, input: JumpInput)
    ensures
        (*final(game_state), *final(ready)) == lifecycle_after(*old(game_state), *old(ready), input),
{
    if *ready && input.pressed {
        match *game_state {
            GameStates::PreGame => *game_state = GameStates::GameActive,
            GameStates::GameOver => *game_state = GameStates::Reset,
            _ => {},
        }
        *ready = false;
    }
    if input.just_released {
        *ready = true;
    }
}

/// Clears a positive score while the lifecycle is idle.
pub fn reset_score(score: &mut u64, game_state: GameStates)
    ensures
        *final(score) == (if game_state == GameStates::PreGame { 0 } else { *old(score) }),
{
    if game_state == GameStates::PreGame && *score > 0 {
        *score = 0;
    }
}

/// A repeating timer: it accumulates elapsed time and fires each time a full
/// period has gone by, keeping the remainder.
#[derive(Clone, Copy, Debug, PartialEq, Eq, Structural)]
pub struct FixedTimer {
    /// The period, in microseconds.
    pub period: u64,
    /// Time accumulated since the last firing, in microseconds.
    pub elapsed: u64,
}

impl FixedTimer {
    /// The period is positive and the remainder stays below it.
    pub open spec fn wf(self) -> bool {
        self.period > 0 && self.elapsed < self.period
    }

    /// Whether a tick of `delta` fires the timer.
    pub open spec fn fires(self, delta: u64) -> bool {
        self.elapsed + delta >= self.period
    }

    /// The timer after a tick of `delta`.
    pub open spec fn ticked(self, delta: u64) -> FixedTimer {
        FixedTimer { period: self.period, elapsed: ((self.elapsed + delta) % (self.period as int)) as u64 }
    }

    /// A timer that has accumulated nothing yet.
    pub fn new(period: u64) -> (t: FixedTimer)
        requires
            period > 0,
        ensures
            t == (FixedTimer { period, elapsed: 0 }),
            t.wf(),
    {
        FixedTimer { period, elapsed: 0 }
    }

    /// Adds `delta` to the accumulated time; returns whether a period was
    /// completed.
    pub fn tick(&mut self, delta: u64) -> (fired: bool)
        requires
            old(self).wf(),
        ensures
            fired == old(self).fires(delta),
            *final(self) == old(self).ticked(delta),
            final(self).wf(),
    {
        let total: u128 = self.elapsed as u128 + delta as u128;
        let p: u128 = self.period as u128;
        let rest: u128 = total % p;
        assert(rest < p) by (nonlinear_arith)
            requires
                p > 0,
                rest == total % p,
        ;
        self.elapsed = rest as u64;
        total >= p
    }
}

} // verus!
