use vstd::prelude::*;
use crate::geometry::{collide, overlaps, Collider};
use crate::state::{FixedTimer, GameStates, JumpInput};

verus! {

/// Side of the square player.
pub const PLAYER_SIZE: i64 = 32_000;

/// Upward move per gravity tick while jumping.
pub const GRAVITY: i64 = 9_800;

/// Downward move per gravity tick, for each tick already spent falling:
/// the gravity constant times the time fallen (one tick is a hundredth of a second).
pub const FALL_RATE: i64 = 98;

/// Gravity ticks that a jump counts before it turns into a fall.
pub const JUMP_TICKS: u32 = 5;

/// Period of the gravity timer, in microseconds.
pub const GRAVITY_PERIOD: u64 = 10_000;

/// The player's position and vertical motion state.
#[derive(Clone, Copy, Debug, PartialEq, Eq, Structural)]
pub struct Player {
    pub x: i64,
    pub y: i64,
    /// Gravity ticks spent falling.
    pub falling_ticks: u32,
    pub is_falling: bool,
    pub is_jumping: bool,
    /// Gravity ticks spent jumping.
    pub jumping_ticks: u32,
}

/// `v` held within the range of `i64`.
pub open spec fn clamp_i64(v: int) -> i64 {
    if v < i64::MIN {
        i64::MIN
    } else if v > i64::MAX {
        i64::MAX
    } else {
        v as i64
    }
}

/// The downward move of a falling tick after `ticks` ticks of falling.
pub open spec fn fall_delta(ticks: u32) -> int {
    FALL_RATE * ticks
}

/// Adds `d` to `v`, saturating at the bounds of `i64`.
fn offset(v: i64, d: i64) -> (r: i64)
    ensures
        r == clamp_i64(v + d),
{
    let s: i128 = v as i128 + d as i128;
    if s < i64::MIN as i128 {
        i64::MIN
    } else if s > i64::MAX as i128 {
        i64::MAX
    } else {
        s as i64
    }
}

impl Player {
    /// Falling and jumping never hold together, and a jump counts no more
    /// than its duration.
    pub open spec fn wf(self) -> bool {
        !(self.is_falling && self.is_jumping) && self.jumping_ticks <= JUMP_TICKS
    }

    /// A player at rest at the center of the field.
    pub open spec fn spawned() -> Player {
        Player { x: 0, y: 0, falling_ticks: 0, is_falling: false, is_jumping: false, jumping_ticks: 0 }
    }

    /// The player's bounding box.
    pub open spec fn bounds(self) -> Collider {
        Collider { x: self.x, y: self.y, width: PLAYER_SIZE, height: PLAYER_SIZE }
    }

    /// The player after one gravity tick under lifecycle `s`.
    pub open spec fn gravity_step(self, s: GameStates) -> Player {
        if self.is_falling {
            if s == GameStates::GameActive {
                Player {
                    y: clamp_i64(self.y - fall_delta(self.falling_ticks)),
                    falling_ticks: if self.falling_ticks < u32::MAX {
                        (self.falling_ticks + 1) as u32
                    } else {
                        u32::MAX
                    },
                    ..self
                }
            } else {
                self
            }
        } else if self.is_jumping {
            if s == GameStates::GameActive {
                if self.jumping_ticks < JUMP_TICKS {
                    Player {
                        y: clamp_i64(self.y + GRAVITY),
                        jumping_ticks: (self.jumping_ticks + 1) as u32,
                        ..self
                    }
                } else {
                    Player {
                        y: clamp_i64(self.y + GRAVITY),
                        jumping_ticks: 0,
                        is_jumping: false,
                        is_falling: true,
                        ..self
                    }
                }
            } else {
                self
            }
        } else if s == GameStates::PreGame {
            Player { x: 0, y: 0, ..self }
        } else {
            self
        }
    }

    /// The player after a jump is triggered.
    pub open spec fn jumped(self) -> Player {
        Player { is_jumping: true, jumping_ticks: 0, falling_ticks: 0, is_falling: false, ..self }
    }

    /// The player after it hit something.
    pub open spec fn stopped(self) -> Player {
        Player { is_falling: false, falling_ticks: 0, ..self }
    }

    /// The player's bounding box.
    pub fn collider(&self) -> (c: Collider)
        ensures
            c == self.bounds(),
            c.wf(),
    {
        Collider { x: self.x, y: self.y, width: PLAYER_SIZE, height: PLAYER_SIZE }
    }
}

impl Default for Player {
    fn default() -> (p: Player)
        ensures
            p == Player::spawned(),
    {
        Player { x: 0, y: 0, falling_ticks: 0, is_falling: false, is_jumping: false, jumping_ticks: 0 }
    }
}

/// A fresh player at rest at the center of the field.
pub fn spawn_player() -> (p: Player)
    ensures
        p == Player::spawned(),
        p.wf(),
{
    Player { x: 0, y: 0, falling_ticks: 0, is_falling: false, is_jumping: false, jumping_ticks: 0 }
}

/// Whether the box `b` overlaps one of `colliders`.
pub open spec fn hits_any(b: Collider, colliders: Seq<Collider>) -> bool {
    exists|i: int| 0 <= i < colliders.len() && #[trigger] overlaps(b, colliders[i])
}

/// The player controller: its gravity timer and the player, if one is spawned.
#[derive(Clone, Copy, Debug)]
pub struct PlayerPlugin {
    pub gravity_timer: FixedTimer,
    pub player: Option<Player>,
}

impl PlayerPlugin {
    /// The timer is well formed, and so is the player.
    pub open spec fn wf(self) -> bool {
        &&& self.gravity_timer.wf()
        &&& self.gravity_timer.period == GRAVITY_PERIOD
        &&& (self.player matches Some(p) ==> p.wf())
    }

    /// The controller after one tick of `delta` under lifecycle `s`.
    pub open spec fn gravity_after(self, s: GameStates, delta: u64) -> PlayerPlugin {
        match self.player {
            Some(p) => PlayerPlugin {
                gravity_timer: self.gravity_timer.ticked(delta),
                player: Some(if self.gravity_timer.fires(delta) { p.gravity_step(s) } else { p }),
            },
            None => self,
        }
    }

    /// The controller after the jump controls were read under lifecycle `s`.
    pub open spec fn jump_after(self, s: GameStates, ready: bool, input: JumpInput) -> PlayerPlugin {
        match self.player {
            Some(p) => if s != GameStates::GameOver && ready && input.pressed {
                PlayerPlugin { player: Some(p.jumped()), ..self }
            } else {
                self
            },
            None => self,
        }
    }

    /// Whether the player hits one of `colliders` while the game runs.
    pub open spec fn crashes(self, s: GameStates, colliders: Seq<Collider>) -> bool {
        &&& s == GameStates::GameActive
        &&& self.player matches Some(p)
        &&& hits_any(p.bounds(), colliders)
    }

    /// The controller and lifecycle after the collision check.
    pub open spec fn collide_after(self, s: GameStates, colliders: Seq<Collider>) -> (PlayerPlugin, GameStates) {
        if self.crashes(s, colliders) {
            (PlayerPlugin { player: Some(self.player->0.stopped()), ..self }, GameStates::GameOver)
        } else {
            (self, s)
        }
    }

    /// The controller and lifecycle after the respawn check.
    pub open spec fn respawn_after(self, s: GameStates) -> (PlayerPlugin, GameStates) {
        if s == GameStates::Reset {
            (
                PlayerPlugin {
                    player: if self.player is Some { Some(Player::spawned()) } else { None },
                    ..self
                },
                GameStates::PreGame,
            )
        } else {
            (self, s)
        }
    }

    /// A controller with a fresh timer and a freshly spawned player.
    pub fn build() -> (p: PlayerPlugin)
        ensures
            p.wf(),
            p.gravity_timer == (FixedTimer { period: GRAVITY_PERIOD, elapsed: 0 }),
            p.player == Some(Player::spawned()),
    {
        PlayerPlugin { gravity_timer: FixedTimer::new(GRAVITY_PERIOD), player: Some(spawn_player()) }
    }

    /// Ticks the gravity timer by `delta`; when it fires, moves the player one
    /// step: a fall grows with the time fallen, a jump rises at a constant rate
    /// until its duration is spent and then turns into a fall, and an idle
    /// player is pinned to the center while the game is idle. Nothing moves
    /// unless the game runs, but for that pinning.
    pub fn player_gravity(&mut self, game_state: GameStates, delta: u64)
        requires
            old(self).wf(),
        ensures
            final(self).wf(),
            *final(self) == old(self).gravity_after(game_state, delta),
    {
        if let Some(player) = &mut self.player {
            if self.gravity_timer.tick(delta) {
                if player.is_falling {
                    if game_state == GameStates::GameActive {
                        player.y = offset(player.y, -(FALL_RATE * player.falling_ticks as i64));
                        player.falling_ticks = player.falling_ticks.saturating_add(1);
                    }
                } else if player.is_jumping {
                    if game_state == GameStates::GameActive {
                        player.y = offset(player.y, GRAVITY);
                        if player.jumping_ticks < JUMP_TICKS {
                            player.jumping_ticks = player.jumping_ticks + 1;
                        } else {
                            player.jumping_ticks = 0;
                            player.is_jumping = false;
                            player.is_falling = true;
                        }
                    }
                } else if game_state == GameStates::PreGame {
                    player.x = 0;
                    player.y = 0;
                }
            }
        }
    }

    /// Starts a jump when a jump control is held, input is ready and the game
    /// is not over; a jump restarts over one in progress or a fall.
    pub fn player_jump(&mut self, game_state: GameStates, ready: bool, input: JumpInput)
        requires
            old(self).wf(),
        ensures
            final(self).wf(),
            *final(self) == old(self).jump_after(game_state, ready, input),
    {
        if let Some(player) = &mut self.player {
            if game_state != GameStates::GameOver && ready && input.pressed {
                player.is_jumping = true;
                player.jumping_ticks = 0;
                player.falling_ticks = 0;
                player.is_falling = false;
            }
        }
    }

    /// Tests the player's box against every collider; a hit while the game
    /// runs stops the fall and ends the game.
    pub fn player_collide_with_objects(&mut self, game_state: &mut GameStates, colliders: &Vec<Collider>)
        requires
            old(self).wf(),
        ensures
            final(self).wf(),
            (*final(self), *final(game_state)) == old(self).collide_after(*old(game_state), colliders@),
    {
        if let Some(player) = &mut self.player {
            let ghost p0 = *player;
            let ghost s0 = *game_state;
            let probe = player.collider();
            let mut i: usize = 0;
            while i < colliders.len()
                invariant
                    0 <= i <= colliders.len(),
                    probe == p0.bounds(),
                    p0.wf(),
                    s0 == GameStates::GameActive && hits_any(probe, colliders@.take(i as int)) ==> (
                        *player == p0.stopped() && *game_state == GameStates::GameOver),
                    !(s0 == GameStates::GameActive && hits_any(probe, colliders@.take(i as int)))
                        ==> (*player == p0 && *game_state == s0),
                decreases colliders.len() - i,
            {
                let hit = collide(&probe, &colliders[i]);
                proof {
                    let t = colliders@.take(i as int);
                    let t1 = colliders@.take(i + 1);
                    assert(t1[i as int] == colliders@[i as int]);
                    if hits_any(probe, t) {
                        let j = choose|j: int| 0 <= j < t.len() && #[trigger] overlaps(probe, t[j]);
                        assert(t1[j] == t[j]);
                    }
                    if hits_any(probe, t1) && !hits_any(probe, t) {
                        let j = choose|j: int| 0 <= j < t1.len() && #[trigger] overlaps(probe, t1[j]);
                        if j < i {
                            assert(t[j] == t1[j]);
                        }
                    }
                }
                if hit && *game_state == GameStates::GameActive {
                    player.is_falling = false;
                    player.falling_ticks = 0;
                    *game_state = GameStates::GameOver;
                }
                i = i + 1;
            }
            assert(colliders@.take(colliders.len() as int) =~= colliders@);
        }
    }

    /// Consumes a reset: the player is replaced by a fresh one and the game
    /// returns to idle.
    pub fn player_respawn(&mut self, game_state: &mut GameStates)
        requires
            old(self).wf(),
        ensures
            final(self).wf(),
            (*final(self), *final(game_state)) == old(self).respawn_after(*old(game_state)),
    {
        if *game_state == GameStates::Reset {
            if self.player.is_some() {
                self.player = Some(spawn_player());
            }
            *game_state = GameStates::PreGame;
        }
    }
}

} // verus!
