use bevy_birds::state::{reset_score, update_game_state, FixedTimer, GameStates, JumpInput};

const PRESS: JumpInput = JumpInput { pressed: true, just_released: false };
const RELEASE: JumpInput = JumpInput { pressed: false, just_released: true };
const NOTHING: JumpInput = JumpInput { pressed: false, just_released: false };

fn advance(s: GameStates, ready: bool, input: JumpInput) -> (GameStates, bool) {
    let mut s = s;
    let mut ready = ready;
    update_game_state(&mut s, &mut ready, input);
    (s, ready)
}

#[test]
fn activation_edge_moves_each_state() {
    assert_eq!(advance(GameStates::PreGame, true, PRESS), (GameStates::GameActive, false));
    assert_eq!(advance(GameStates::GameOver, true, PRESS), (GameStates::Reset, false));
    assert_eq!(advance(GameStates::GameActive, true, PRESS), (GameStates::GameActive, false));
    assert_eq!(advance(GameStates::Reset, true, PRESS), (GameStates::Reset, false));
}

#[test]
fn activation_without_ready_is_ignored() {
    assert_eq!(advance(GameStates::PreGame, false, PRESS), (GameStates::PreGame, false));
    assert_eq!(advance(GameStates::GameOver, false, PRESS), (GameStates::GameOver, false));
}

#[test]
fn release_sets_ready_in_every_state() {
    for s in [GameStates::PreGame, GameStates::GameActive, GameStates::GameOver, GameStates::Reset] {
        assert_eq!(advance(s, false, RELEASE), (s, true));
        assert_eq!(advance(s, true, RELEASE), (s, true));
    }
    assert_eq!(advance(GameStates::GameActive, false, NOTHING), (GameStates::GameActive, false));
}

#[test]
fn held_press_makes_one_transition() {
    let mut s = GameStates::GameOver;
    let mut ready = true;
    let mut changes = 0;
    for _ in 0..10 {
        let before = s;
        update_game_state(&mut s, &mut ready, PRESS);
        if s != before {
            changes += 1;
        }
    }
    assert_eq!(changes, 1);
    assert_eq!(s, GameStates::Reset);
    update_game_state(&mut s, &mut ready, RELEASE);
    assert!(ready);
}

#[test]
fn score_resets_only_when_idle() {
    let mut score: u64 = 7;
    reset_score(&mut score, GameStates::GameActive);
    assert_eq!(score, 7);
    reset_score(&mut score, GameStates::GameOver);
    assert_eq!(score, 7);
    reset_score(&mut score, GameStates::PreGame);
    assert_eq!(score, 0);
}

#[test]
fn timer_fires_and_keeps_remainder() {
    let mut t = FixedTimer::new(10_000);
    assert!(!t.tick(6_000));
    assert_eq!(t.elapsed, 6_000);
    assert!(t.tick(6_000));
    assert_eq!(t.elapsed, 2_000);
    assert!(t.tick(25_000));
    assert_eq!(t.elapsed, 7_000);
    assert!(!t.tick(0));
    assert_eq!(t.elapsed, 7_000);
}
