use bevy_birds::geometry::{collide, ground, Collider};
use bevy_birds::player::{spawn_player, Player, PlayerPlugin, FALL_RATE, GRAVITY, GRAVITY_PERIOD, JUMP_TICKS, PLAYER_SIZE};
use bevy_birds::state::{GameStates, JumpInput};

const PRESS: JumpInput = JumpInput { pressed: true, just_released: false };

fn player_of(p: &PlayerPlugin) -> Player {
    p.player.unwrap()
}

#[test]
fn collide_overlapping_boxes() {
    let player = Collider { x: 0, y: 0, width: 32_000, height: 32_000 };
    let pipe = Collider { x: 0, y: 0, width: 64_000, height: 640_000 };
    assert!(collide(&player, &pipe));
}

#[test]
fn collide_far_apart_boxes() {
    let player = Collider { x: 0, y: 0, width: 32_000, height: 32_000 };
    let pipe = Collider { x: 1_000_000, y: 0, width: 64_000, height: 640_000 };
    assert!(!collide(&player, &pipe));
}

#[test]
fn collide_touching_edges_is_no_hit() {
    let a = Collider { x: 0, y: 0, width: 32_000, height: 32_000 };
    let b = Collider { x: 48_000, y: 0, width: 64_000, height: 64_000 };
    assert!(!collide(&a, &b));
    let c = Collider { x: 47_999, y: 0, width: 64_000, height: 64_000 };
    assert!(collide(&a, &c));
    let d = Collider { x: 0, y: -16_000 - 20_000 + 1, width: 64_000, height: 40_000 };
    assert!(collide(&a, &d));
}

#[test]
fn ground_lies_along_the_bottom() {
    let g = ground();
    assert_eq!(g, Collider { x: 0, y: -300_000, width: 480_000, height: 40_000 });
}

#[test]
fn spawned_player_rests_at_center() {
    let p = spawn_player();
    assert_eq!(p, Player { x: 0, y: 0, falling_ticks: 0, is_falling: false, is_jumping: false, jumping_ticks: 0 });
    assert_eq!(Player::default(), p);
    assert_eq!(PlayerPlugin::build().player, Some(p));
}

#[test]
fn jump_turns_into_fall_after_its_duration() {
    let mut pp = PlayerPlugin::build();
    pp.player_jump(GameStates::GameActive, true, PRESS);
    assert!(player_of(&pp).is_jumping);
    for k in 1..=JUMP_TICKS {
        pp.player_gravity(GameStates::GameActive, GRAVITY_PERIOD);
        let p = player_of(&pp);
        assert!(p.is_jumping && !p.is_falling);
        assert_eq!(p.jumping_ticks, k);
        assert_eq!(p.y, GRAVITY * k as i64);
    }
    pp.player_gravity(GameStates::GameActive, GRAVITY_PERIOD);
    let p = player_of(&pp);
    assert!(p.is_falling && !p.is_jumping);
    assert_eq!((p.jumping_ticks, p.falling_ticks), (0, 0));
    assert_eq!(p.y, GRAVITY * (JUMP_TICKS as i64 + 1));
}

#[test]
fn fall_deltas_grow() {
    let mut pp = PlayerPlugin::build();
    let mut p = spawn_player();
    p.is_falling = true;
    pp.player = Some(p);
    let mut last_y = 0;
    let mut last_delta = 0;
    for k in 0..20i64 {
        pp.player_gravity(GameStates::GameActive, GRAVITY_PERIOD);
        let y = player_of(&pp).y;
        let delta = last_y - y;
        assert_eq!(delta, FALL_RATE * k);
        assert!(delta >= last_delta);
        last_delta = delta;
        last_y = y;
    }
    assert_eq!(player_of(&pp).falling_ticks, 20);
}

#[test]
fn gravity_waits_for_timer() {
    let mut pp = PlayerPlugin::build();
    pp.player_jump(GameStates::GameActive, true, PRESS);
    pp.player_gravity(GameStates::GameActive, 4_000);
    assert_eq!(player_of(&pp).y, 0);
    pp.player_gravity(GameStates::GameActive, 6_000);
    assert_eq!(player_of(&pp).y, GRAVITY);
}

#[test]
fn game_over_freezes_motion() {
    let mut pp = PlayerPlugin::build();
    pp.player_jump(GameStates::GameActive, true, PRESS);
    for _ in 0..5 {
        pp.player_gravity(GameStates::GameOver, GRAVITY_PERIOD);
    }
    assert_eq!(player_of(&pp).y, 0);
    assert_eq!(player_of(&pp).jumping_ticks, 0);
}

#[test]
fn jump_refused_when_over_or_not_ready() {
    let mut pp = PlayerPlugin::build();
    pp.player_jump(GameStates::GameOver, true, PRESS);
    assert!(!player_of(&pp).is_jumping);
    pp.player_jump(GameStates::GameActive, false, PRESS);
    assert!(!player_of(&pp).is_jumping);
    pp.player_jump(GameStates::PreGame, true, PRESS);
    assert!(player_of(&pp).is_jumping);
}

#[test]
fn idle_player_pinned_while_pregame() {
    let mut pp = PlayerPlugin::build();
    let mut p = spawn_player();
    p.x = 5_000;
    p.y = -7_000;
    pp.player = Some(p);
    pp.player_gravity(GameStates::PreGame, GRAVITY_PERIOD);
    assert_eq!((player_of(&pp).x, player_of(&pp).y), (0, 0));
}

#[test]
fn falling_player_not_recentered_while_pregame() {
    let mut pp = PlayerPlugin::build();
    let mut p = spawn_player();
    p.y = -7_000;
    p.is_falling = true;
    p.falling_ticks = 3;
    pp.player = Some(p);
    pp.player_gravity(GameStates::PreGame, GRAVITY_PERIOD);
    assert_eq!(player_of(&pp), p);
}

#[test]
fn hit_ends_running_game() {
    let mut pp = PlayerPlugin::build();
    let mut p = spawn_player();
    p.y = -280_000;
    p.is_falling = true;
    p.falling_ticks = 40;
    pp.player = Some(p);
    let colliders = vec![Collider { x: 1_000_000, y: 0, width: 64_000, height: 640_000 }, ground()];
    let mut s = GameStates::GameActive;
    pp.player_collide_with_objects(&mut s, &colliders);
    assert_eq!(s, GameStates::GameOver);
    let q = player_of(&pp);
    assert!(!q.is_falling);
    assert_eq!(q.falling_ticks, 0);
    assert_eq!(q.y, -280_000);
}

#[test]
fn hit_ignored_outside_running_game() {
    let mut pp = PlayerPlugin::build();
    let colliders = vec![Collider { x: 0, y: 0, width: PLAYER_SIZE, height: PLAYER_SIZE }];
    let mut s = GameStates::PreGame;
    pp.player_collide_with_objects(&mut s, &colliders);
    assert_eq!(s, GameStates::PreGame);
    let mut s = GameStates::GameActive;
    pp.player_collide_with_objects(&mut s, &vec![ground()]);
    assert_eq!(s, GameStates::GameActive);
}

#[test]
fn respawn_consumes_reset() {
    let mut pp = PlayerPlugin::build();
    let mut p = spawn_player();
    p.y = -250_000;
    p.is_falling = true;
    pp.player = Some(p);
    let mut s = GameStates::Reset;
    pp.player_respawn(&mut s);
    assert_eq!(s, GameStates::PreGame);
    assert_eq!(pp.player, Some(spawn_player()));
    let mut s = GameStates::GameOver;
    pp.player.as_mut().unwrap().y = 5;
    pp.player_respawn(&mut s);
    assert_eq!(s, GameStates::GameOver);
    assert_eq!(player_of(&pp).y, 5);
}

#[test]
fn no_player_is_a_no_op() {
    let mut pp = PlayerPlugin::build();
    pp.player = None;
    pp.player_gravity(GameStates::GameActive, GRAVITY_PERIOD);
    pp.player_jump(GameStates::GameActive, true, PRESS);
    let mut s = GameStates::Reset;
    pp.player_respawn(&mut s);
    assert_eq!(s, GameStates::PreGame);
    assert_eq!(pp.player, None);
}
