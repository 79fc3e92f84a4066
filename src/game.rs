use vstd::prelude::*;
use crate::geometry::{ground, ground_box, Collider};
use crate::pipe::{SPAWN_PERIOD, clamp_u64, pair_of, scrolled_all, top_crossings, Gap, PipePlugin, PipeSegment};
use crate::player::{Player, PlayerPlugin, GRAVITY_PERIOD};
use crate::state::{lifecycle_after, reset_score, update_game_state, FixedTimer, GameStates, JumpInput};

verus! {

/// The whole simulation as a mathematical value.
pub struct GameModel {
    pub state: GameStates,
    pub score: u64,
    pub input_ready: bool,
    pub ground: Collider,
    pub players: PlayerPlugin,
    pub spawn_timer: FixedTimer,
    pub pipes: Seq<PipeSegment>,
}

/// Everything the player can hit: the ground, then each obstacle half in order.
pub open spec fn colliders_of(ground: Collider, pipes: Seq<PipeSegment>) -> Seq<Collider> {
    seq![ground] + pipes.map_values(|p: PipeSegment| p.bounds())
}

/// One tick of the simulation, its systems in a fixed order: jump, lifecycle,
/// gravity, collision, respawn, spawning (with gap `gap` if a pair appears),
/// scrolling and scoring, score reset.
pub open spec fn step_model(m: GameModel, delta: u64, input: JumpInput, gap: Gap) -> GameModel {
    let players1 = m.players.jump_after(m.state, m.input_ready, input);
    let (s1, ready1) = lifecycle_after(m.state, m.input_ready, input);
    let players2 = players1.gravity_after(s1, delta);
    let (players3, s2) = players2.collide_after(s1, colliders_of(m.ground, m.pipes));
    let (players4, s3) = players3.respawn_after(s2);
    let pipes1 = if m.spawn_timer.fires(delta) && s3 == GameStates::GameActive {
        m.pipes + pair_of(gap)
    } else {
        m.pipes
    };
    let pipes2 = if s3 == GameStates::GameActive {
        scrolled_all(pipes1)
    } else if s3 == GameStates::PreGame {
        Seq::<PipeSegment>::empty()
    } else {
        pipes1
    };
    let score1 = if s3 == GameStates::GameActive {
        clamp_u64(m.score + top_crossings(pipes1))
    } else if s3 == GameStates::PreGame {
        0
    } else {
        m.score
    };
    GameModel {
        state: s3,
        score: score1,
        input_ready: ready1,
        ground: m.ground,
        players: players4,
        spawn_timer: m.spawn_timer.ticked(delta),
        pipes: pipes2,
    }
}

/// The simulation: lifecycle, score, input readiness, the ground, the player
/// controller and the obstacle system.
pub struct Game {
    pub state: GameStates,
    pub score: u64,
    pub input_ready: bool,
    pub ground: Collider,
    pub player_plugin: PlayerPlugin,
    pub pipe_plugin: PipePlugin,
}

impl View for Game {
    type V = GameModel;

    open spec fn view(&self) -> GameModel {
        GameModel {
            state: self.state,
            score: self.score,
            input_ready: self.input_ready,
            ground: self.ground,
            players: self.player_plugin,
            spawn_timer: self.pipe_plugin.spawn_timer,
            pipes: self.pipe_plugin.pipes@,
        }
    }
}

impl Game {
    /// Both systems are well formed and the ground is a proper box.
    pub open spec fn wf(&self) -> bool {
        self.player_plugin.wf() && self.pipe_plugin.wf() && self.ground.wf()
    }

    /// A game at rest: idle, no score, input ready, the ground laid and a
    /// player at the center, no obstacles.
    pub fn new() -> (g: Game)
        ensures
            g.wf(),
            g.state == GameStates::PreGame,
            g.score == 0,
            g.input_ready,
            g.ground == ground_box(),
            g.player_plugin.gravity_timer == (FixedTimer { period: GRAVITY_PERIOD, elapsed: 0 }),
            g.player_plugin.player == Some(Player::spawned()),
            g.pipe_plugin.spawn_timer == (FixedTimer { period: SPAWN_PERIOD, elapsed: 0 }),
            g.pipe_plugin.pipes@ == Seq::<PipeSegment>::empty(),
    {
        Game {
            state: GameStates::PreGame,
            score: 0,
            input_ready: true,
            ground: ground(),
            player_plugin: PlayerPlugin::build(),
            pipe_plugin: PipePlugin::build(),
        }
    }

    /// The ground's box followed by every obstacle half's box.
    pub fn colliders(&self) -> (c: Vec<Collider>)
        ensures
            c@ == colliders_of(self.ground, self.pipe_plugin.pipes@),
    {
        let mut c: Vec<Collider> = Vec::new();
        c.push(self.ground);
        let mut rest = self.pipe_plugin.colliders();
        c.append(&mut rest);
        assert(c@ =~= colliders_of(self.ground, self.pipe_plugin.pipes@));
        c
    }

    /// Runs one tick of `delta` microseconds with the given input; a pair
    /// spawned in this tick gets the gap `gap`.
    pub fn step(&mut self, delta: u64, input: JumpInput, gap: Gap)
        requires
            old(self).wf(),
            gap.wf(),
        ensures
            final(self).wf(),
            final(self)@ == step_model(old(self)@, delta, input, gap),
    {
        let colliders_before = self.colliders();
        self.player_plugin.player_jump(self.state, self.input_ready, input);
        update_game_state(&mut self.state, &mut self.input_ready, input);
        self.player_plugin.player_gravity(self.state, delta);
        self.player_plugin.player_collide_with_objects(&mut self.state, &colliders_before);
        self.player_plugin.player_respawn(&mut self.state);
        self.pipe_plugin.spawn_pipes_with(self.state, delta, gap);
        self.pipe_plugin.move_pipes(self.state, &mut self.score);
        reset_score(&mut self.score, self.state);
    }

    /// Runs one tick of `delta` microseconds with the given input; a pair
    /// spawned in this tick gets a freshly drawn gap.
    pub fn tick(&mut self, delta: u64, input: JumpInput)
        requires
            old(self).wf(),
        ensures
            final(self).wf(),
            exists|g: Gap| g.wf() && final(self)@ == step_model(old(self)@, delta, input, g),
    {
        let gap = Gap::default();
        self.step(delta, input, gap);
    }
}

} // verus!
