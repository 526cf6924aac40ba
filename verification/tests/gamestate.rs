use libultimate_plugin::gamestate::{ControlState, GameState, PlayerState, Position};

fn pad() -> ControlState {
    ControlState {
        stick_x: 0.25f32.to_bits(),
        stick_y: 0f32.to_bits(),
        button_attack: true,
        button_special: false,
        button_smash: false,
        button_guard: false,
        button_guard_hold: false,
        button_catch: false,
        button_jump: true,
        button_jump_mini: false,
        button_invalid: false,
    }
}

fn player(id: i32, status: i32) -> PlayerState {
    PlayerState::observe(
        id,
        5,
        status,
        1,
        1f32.to_bits(),
        37.5f32.to_bits(),
        Position { x: 10f32.to_bits(), y: (-3f32).to_bits() },
        pad(),
        79,
        1,
    )
}

#[test]
fn observe_marks_dead_and_cpu() {
    let p = player(1, 79);
    assert_eq!(p.id, 1);
    assert!(p.is_dead);
    assert!(p.is_cpu);
    assert_eq!(p.fighter_status_kind, 79);
    assert_eq!(f32::from_bits(p.percent), 37.5);
    let q = player(0, 3);
    assert!(!q.is_dead);
    assert!(!q.is_cpu);
}

#[test]
fn default_game_state_is_empty() {
    assert!(GameState::default().players.is_empty());
}

#[test]
fn upsert_appends_new_players() {
    let mut g = GameState::default();
    g.upsert_player(player(0, 1));
    g.upsert_player(player(1, 1));
    assert_eq!(g.players, vec![player(0, 1), player(1, 1)]);
}

#[test]
fn upsert_replaces_the_same_player_in_place() {
    let mut g = GameState::default();
    g.upsert_player(player(0, 1));
    g.upsert_player(player(1, 1));
    g.upsert_player(player(0, 2));
    assert_eq!(g.players, vec![player(0, 2), player(1, 1)]);
}

#[test]
fn upsert_twice_is_upsert_once() {
    let mut g = GameState { players: vec![player(3, 1)] };
    g.upsert_player(player(4, 9));
    let once = g.players.clone();
    g.upsert_player(player(4, 9));
    assert_eq!(g.players, once);
}

#[test]
fn upsert_replaces_only_the_first_duplicate() {
    let mut g = GameState { players: vec![player(2, 1), player(2, 2)] };
    g.upsert_player(player(2, 3));
    assert_eq!(g.players, vec![player(2, 3), player(2, 2)]);
}
