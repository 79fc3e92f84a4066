use vstd::prelude::*;
use crate::game::{step_model, GameModel};
use crate::pipe::{clamp_u64, gap_of, top_crossings, Gap, Pipe, PipeSegment, GAP_DRAW_LIMIT, GAP_SPAN, PIPE_SPEED};
use crate::player::{fall_delta, Player, JUMP_TICKS};
use crate::state::{activated, lifecycle_after, GameStates, JumpInput};

verus! {

/// An activation taken while ready moves `PreGame` to `GameActive` and
/// `GameOver` to `Reset`, and leaves the other states as they are; a release
/// always makes input ready again.
pub proof fn lemma_activation_edge(s: GameStates, ready: bool, input: JumpInput)
    ensures
        ready && input.pressed ==> lifecycle_after(s, ready, input).0 == activated(s),
        activated(GameStates::PreGame) == GameStates::GameActive,
        activated(GameStates::GameOver) == GameStates::Reset,
        activated(GameStates::GameActive) == GameStates::GameActive,
        activated(GameStates::Reset) == GameStates::Reset,
        !(ready && input.pressed) ==> lifecycle_after(s, ready, input).0 == s,
        input.just_released ==> lifecycle_after(s, ready, input).1,
{
}

/// The lifecycle and readiness after a run of inputs, one per tick.
pub open spec fn lifecycle_run(s: GameStates, ready: bool, inputs: Seq<JumpInput>) -> (GameStates, bool)
    decreases inputs.len(),
{
    if inputs.len() == 0 {
        (s, ready)
    } else {
        let (s1, r1) = lifecycle_after(s, ready, inputs[0]);
        lifecycle_run(s1, r1, inputs.subrange(1, inputs.len() as int))
    }
}

/// How many ticks of a run of inputs change the lifecycle state.
pub open spec fn transitions(s: GameStates, ready: bool, inputs: Seq<JumpInput>) -> nat
    decreases inputs.len(),
{
    if inputs.len() == 0 {
        0
    } else {
        let (s1, r1) = lifecycle_after(s, ready, inputs[0]);
        (if s1 != s { 1nat } else { 0nat }) + transitions(s1, r1, inputs.subrange(1, inputs.len() as int))
    }
}

/// With no release in between, input that is not ready changes nothing.
proof fn lemma_not_ready_is_inert(s: GameStates, inputs: Seq<JumpInput>)
    requires
        forall|i: int| 0 <= i < inputs.len() ==> !(#[trigger] inputs[i]).just_released,
    ensures
        transitions(s, false, inputs) == 0,
    decreases inputs.len(),
{
    if inputs.len() > 0 {
        let rest = inputs.subrange(1, inputs.len() as int);
        assert forall|i: int| 0 <= i < rest.len() implies !(#[trigger] rest[i]).just_released by {
            assert(rest[i] == inputs[i + 1]);
        }
        lemma_not_ready_is_inert(s, rest);
    }
}

/// Activations held or repeated with no release in between change the
/// lifecycle state at most once.
pub proof fn lemma_ready_gates_activation(s: GameStates, ready: bool, inputs: Seq<JumpInput>)
    requires
        forall|i: int| 0 <= i < inputs.len() ==> !(#[trigger] inputs[i]).just_released,
    ensures
        transitions(s, ready, inputs) <= 1,
    decreases inputs.len(),
{
    if inputs.len() > 0 {
        let rest = inputs.subrange(1, inputs.len() as int);
        assert forall|i: int| 0 <= i < rest.len() implies !(#[trigger] rest[i]).just_released by {
            assert(rest[i] == inputs[i + 1]);
        }
        let (s1, r1) = lifecycle_after(s, ready, inputs[0]);
        if r1 {
            assert(s1 == s);
            lemma_ready_gates_activation(s1, r1, rest);
        } else {
            lemma_not_ready_is_inert(s1, rest);
        }
    }
}

/// The player after `n` gravity ticks under lifecycle `s`.
pub open spec fn gravity_steps(p: Player, s: GameStates, n: nat) -> Player
    decreases n,
{
    if n == 0 {
        p
    } else {
        gravity_steps(p, s, (n - 1) as nat).gravity_step(s)
    }
}

/// From a triggered jump in a running game, the first `JUMP_TICKS` gravity
/// ticks and the one after them keep the player jumping with its count going
/// up by one; the tick after that turns the jump into a fall with both counts
/// at zero. Falling and jumping never hold together on the way.
pub proof fn lemma_jump_then_fall(p: Player, n: nat)
    requires
        p.wf(),
        n <= JUMP_TICKS + 1,
    ensures
        gravity_steps(p.jumped(), GameStates::GameActive, n).wf(),
        n <= JUMP_TICKS ==> ({
            let q = gravity_steps(p.jumped(), GameStates::GameActive, n);
            q.is_jumping && !q.is_falling && q.jumping_ticks == n && q.falling_ticks == 0
        }),
        n == JUMP_TICKS + 1 ==> ({
            let q = gravity_steps(p.jumped(), GameStates::GameActive, n);
            q.is_falling && !q.is_jumping && q.jumping_ticks == 0 && q.falling_ticks == 0
        }),
    decreases n,
{
    if n > 0 {
        lemma_jump_then_fall(p, (n - 1) as nat);
    }
}

/// The fall grows with the time already fallen.
pub proof fn lemma_fall_delta_monotone(a: u32, b: u32)
    requires
        a <= b,
    ensures
        0 <= fall_delta(a) <= fall_delta(b),
{
}

/// Each falling tick in a running game moves down by the current fall delta
/// and counts one more tick (short of the count's bound), so the next fall
/// delta is no smaller.
pub proof fn lemma_fall_step(p: Player)
    requires
        p.wf(),
        p.is_falling,
        p.falling_ticks < u32::MAX,
        p.y - fall_delta(p.falling_ticks) >= i64::MIN,
    ensures
        p.gravity_step(GameStates::GameActive).y == p.y - fall_delta(p.falling_ticks),
        p.gravity_step(GameStates::GameActive).falling_ticks == p.falling_ticks + 1,
        fall_delta(p.falling_ticks) <= fall_delta(p.gravity_step(GameStates::GameActive).falling_ticks),
{
}

/// The two offsets of a gap drawn from the allowed range are `GAP_SPAN` apart,
/// with the draw as the top offset when it is not negative and as the bottom
/// one otherwise.
pub proof fn lemma_gap_span(r: int)
    requires
        -GAP_DRAW_LIMIT <= r <= GAP_DRAW_LIMIT,
    ensures
        gap_of(r).top - gap_of(r).bottom == GAP_SPAN,
        r >= 0 ==> gap_of(r).top == r,
        r < 0 ==> gap_of(r).bottom == r,
{
}

/// The top halves that a scroll step brings exactly onto the center line.
pub open spec fn scoring_halves(s: Seq<PipeSegment>) -> Seq<PipeSegment> {
    s.filter(|p: PipeSegment| p.pipe == Pipe::Top && p.x == PIPE_SPEED)
}

/// A scroll step scores one for each top half that lands on the center line,
/// and none for bottom halves (short of the score's bound).
pub proof fn lemma_score_per_top_crossing(s: Seq<PipeSegment>, score: u64)
    requires
        score + scoring_halves(s).len() <= u64::MAX,
    ensures
        clamp_u64(score + top_crossings(s)) == score + scoring_halves(s).len(),
{
    lemma_top_crossings_count(s);
}

proof fn lemma_top_crossings_count(s: Seq<PipeSegment>)
    ensures
        top_crossings(s) == scoring_halves(s).len(),
    decreases s.len(),
{
    reveal(Seq::filter);
    if s.len() > 0 {
        lemma_top_crossings_count(s.drop_last());
        assert(scoring_halves(s) == {
            let sub = scoring_halves(s.drop_last());
            if s.last().pipe == Pipe::Top && s.last().x == PIPE_SPEED {
                sub.push(s.last())
            } else {
                sub
            }
        });
    }
}

/// Outside a running game a tick never adds to the score: it stays, or goes
/// back to zero when the game ends up idle.
pub proof fn lemma_no_score_unless_active(m: GameModel, delta: u64, input: JumpInput, gap: Gap)
    ensures
        step_model(m, delta, input, gap).state != GameStates::GameActive ==> step_model(m, delta, input, gap).score
            == (if step_model(m, delta, input, gap).state == GameStates::PreGame { 0 } else { m.score }),
{
}

/// Once the game is over, a tick without an accepted activation leaves the
/// lifecycle, the player, the obstacles and the score as they are.
pub proof fn lemma_game_over_freezes(m: GameModel, delta: u64, input: JumpInput, gap: Gap)
    requires
        m.state == GameStates::GameOver,
        !(m.input_ready && input.pressed),
    ensures
        step_model(m, delta, input, gap).state == GameStates::GameOver,
        step_model(m, delta, input, gap).players.player == m.players.player,
        step_model(m, delta, input, gap).pipes == m.pipes,
        step_model(m, delta, input, gap).score == m.score,
{
}

/// An accepted activation after the game is over resets within the same tick:
/// the game is idle again, with a fresh player, no score and no obstacles.
pub proof fn lemma_restart(m: GameModel, delta: u64, input: JumpInput, gap: Gap)
    requires
        m.state == GameStates::GameOver,
        m.input_ready && input.pressed,
        m.players.player is Some,
    ensures
        step_model(m, delta, input, gap).state == GameStates::PreGame,
        step_model(m, delta, input, gap).players.player == Some(Player::spawned()),
        step_model(m, delta, input, gap).pipes == Seq::<PipeSegment>::empty(),
        step_model(m, delta, input, gap).score == 0,
{
}

/// From idle, an accepted activation starts the game and the player's jump
/// within the same tick; the game is running after it unless the player
/// already hit something.
pub proof fn lemma_start(m: GameModel, delta: u64, input: JumpInput, gap: Gap)
    requires
        m.state == GameStates::PreGame,
        m.input_ready && input.pressed,
        m.players.wf(),
    ensures
        lifecycle_after(m.state, m.input_ready, input).0 == GameStates::GameActive,
        step_model(m, delta, input, gap).state == GameStates::GameActive
            || step_model(m, delta, input, gap).state == GameStates::GameOver,
        m.players.player is Some ==> (step_model(m, delta, input, gap).players.player matches Some(p)
            && p.is_jumping && !p.is_falling),
{
}

} // verus!
