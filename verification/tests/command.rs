use libultimate_plugin::command::{
    action_flag, get_command_flag, Action, Cat1Flags, Command, CommandError,
};
use libultimate_plugin::fetch::FetchError;

fn flags() -> Cat1Flags {
    Cat1Flags {
        air_escape: 1 << 0,
        attack_hi3: 1 << 1,
        attack_hi4: 1 << 2,
        attack_lw3: 1 << 3,
        attack_lw4: 1 << 4,
        attack_n: 1 << 5,
        attack_s3: 1 << 6,
        attack_s4: 1 << 7,
        catch: 1 << 8,
        dash: 1 << 9,
        escape: 1 << 10,
        escape_b: 1 << 11,
        escape_f: 1 << 12,
        jump: 1 << 13,
        jump_button: 1 << 14,
        special_any: 1 << 15,
        special_hi: 1 << 16,
        special_lw: 1 << 17,
        special_n: 1 << 18,
        special_s: 1 << 19,
        turn: 1 << 20,
        turn_dash: 1 << 21,
        walk: 1 << 22,
        wall_jump_left: 1 << 23,
        wall_jump_right: 1 << 24,
    }
}

fn command(id: &str, player: u32, action: Action) -> Command {
    Command {
        id: id.to_string(),
        player_id: player,
        action,
        stick_x: 0.5f32.to_bits(),
        stick_y: (-1.0f32).to_bits(),
    }
}

#[test]
fn every_action_has_its_own_flag() {
    let f = flags();
    let all = [
        Action::AIR_ESCAPE, Action::ATTACK_HI3, Action::ATTACK_HI4, Action::ATTACK_LW3,
        Action::ATTACK_LW4, Action::ATTACK_N, Action::ATTACK_S3, Action::ATTACK_S4,
        Action::CATCH, Action::DASH, Action::ESCAPE, Action::ESCAPE_B, Action::ESCAPE_F,
        Action::JUMP, Action::JUMP_BUTTON, Action::SPECIAL_ANY, Action::SPECIAL_HI,
        Action::SPECIAL_LW, Action::SPECIAL_N, Action::SPECIAL_S, Action::TURN,
        Action::TURN_DASH, Action::WALK, Action::WALL_JUMP_LEFT, Action::WALL_JUMP_RIGHT,
    ];
    for (i, a) in all.iter().enumerate() {
        assert_eq!(action_flag(*a, &f), Some(1 << i));
    }
    assert_eq!(action_flag(Action::OTHER, &f), None);
}

#[test]
fn default_command_is_empty() {
    let c = Command::default();
    assert_eq!(c.id, "");
    assert_eq!(c.player_id, 0);
    assert_eq!(c.action, Action::OTHER);
    assert_eq!((c.stick_x, c.stick_y), (0, 0));
}

#[test]
fn new_command_sets_stick_and_reports_flag_once() {
    let mut last = Command::default();
    let out = get_command_flag(0, Ok(command("c1", 1, Action::JUMP)), &mut last, &flags());
    assert_eq!(out.stick, Some((0.5f32.to_bits(), (-1.0f32).to_bits())));
    assert_eq!(out.flag, Ok(1 << 13));
    assert_eq!(last.id, "c1");
    assert_eq!(last.action, Action::JUMP);
    let again = get_command_flag(0, Ok(command("c1", 1, Action::JUMP)), &mut last, &flags());
    assert_eq!(again.stick, Some((0.5f32.to_bits(), (-1.0f32).to_bits())));
    assert_eq!(again.flag, Err(CommandError::NoCommand));
}

#[test]
fn command_without_flag_still_becomes_last() {
    let mut last = Command::default();
    let out = get_command_flag(4, Ok(command("c9", 5, Action::OTHER)), &mut last, &flags());
    assert_eq!(out.flag, Err(CommandError::NoCommand));
    assert!(out.stick.is_some());
    assert_eq!(last.id, "c9");
}

#[test]
fn command_for_another_player_is_ignored() {
    let mut last = Command::default();
    let out = get_command_flag(0, Ok(command("c1", 2, Action::DASH)), &mut last, &flags());
    assert_eq!(out.stick, None);
    assert_eq!(out.flag, Err(CommandError::NoCommand));
    assert_eq!(last.id, "");
}

#[test]
fn failed_fetch_is_reported() {
    let mut last = command("c0", 1, Action::WALK);
    let out = get_command_flag(0, Err(FetchError::NotReady), &mut last, &flags());
    assert_eq!(out.stick, None);
    assert_eq!(out.flag, Err(CommandError::Fetch(FetchError::NotReady)));
    assert_eq!(last.id, "c0");
}

#[test]
fn command_fetch_paths() {
    let (fetch, _) = Command::get(6);
    assert_eq!(fetch.marker_path, "sd:/libultimate/command_6.ok.json");
    assert_eq!(fetch.record_path, "sd:/libultimate/command_6.json");
}
