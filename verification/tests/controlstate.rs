use libultimate_plugin::controlstate::{get_npad_state, ControlState, NpadState};

fn pad() -> NpadState {
    NpadState {
        update_count: 77,
        buttons: 1,
        l_stick_x: 2,
        l_stick_y: 3,
        r_stick_x: 4,
        r_stick_y: 5,
        flags: 6,
        l_trigger: 7,
        r_trigger: 8,
    }
}

fn request(id: &str, player: u32, hold: bool) -> ControlState {
    ControlState {
        id: id.to_string(),
        player_id: player,
        update_count: 5,
        buttons: 0x10,
        l_stick_x: -100,
        l_stick_y: 200,
        r_stick_x: -300,
        r_stick_y: 400,
        flags: 9,
        l_trigger: 11,
        r_trigger: 12,
        hold,
    }
}

fn played(p: NpadState) -> bool {
    p.buttons == 0x10
        && p.l_stick_x == -100
        && p.l_stick_y == 200
        && p.r_stick_x == -300
        && p.r_stick_y == 400
        && p.flags == 9
        && p.l_trigger == 11
        && p.r_trigger == 12
        && p.update_count == 77
}

#[test]
fn default_control_state_is_empty() {
    let cs = ControlState::default();
    assert_eq!(cs.id, "");
    assert_eq!(cs.player_id, 0);
    assert_eq!(cs.update_count, 0);
    assert_eq!(cs.buttons, 0);
    assert_eq!((cs.l_stick_x, cs.l_stick_y, cs.r_stick_x, cs.r_stick_y), (0, 0, 0, 0));
    assert_eq!((cs.flags, cs.l_trigger, cs.r_trigger), (0, 0, 0));
    assert!(!cs.hold);
}

#[test]
fn new_request_is_played_and_remembered() {
    let mut last = ControlState::default();
    let mut p = pad();
    get_npad_state(0, Some(request("r1", 1, false)), &mut last, &mut p);
    assert!(played(p));
    assert_eq!(last.id, "r1");
    assert_eq!(last.player_id, 1);
    assert_eq!(last.update_count, 5);
}

#[test]
fn same_request_is_played_once() {
    let mut last = ControlState::default();
    let mut p = pad();
    get_npad_state(0, Some(request("r1", 1, false)), &mut last, &mut p);
    let mut p2 = pad();
    get_npad_state(0, Some(request("r1", 1, false)), &mut last, &mut p2);
    assert_eq!(p2, pad());
    let mut p3 = pad();
    get_npad_state(0, None, &mut last, &mut p3);
    assert_eq!(p3, pad());
}

#[test]
fn held_request_is_replayed_without_a_new_fetch() {
    let mut last = ControlState::default();
    let mut p = pad();
    get_npad_state(2, Some(request("h", 3, true)), &mut last, &mut p);
    assert!(played(p));
    let mut p2 = pad();
    get_npad_state(2, None, &mut last, &mut p2);
    assert!(played(p2));
    let mut p3 = pad();
    get_npad_state(2, Some(request("h", 3, true)), &mut last, &mut p3);
    assert!(played(p3));
}

#[test]
fn request_for_another_player_is_ignored() {
    let mut last = ControlState::default();
    let mut p = pad();
    get_npad_state(0, Some(request("r1", 2, true)), &mut last, &mut p);
    assert_eq!(p, pad());
    assert_eq!(last.id, "");
    assert_eq!(last.player_id, 0);
}

#[test]
fn held_state_of_another_controller_is_not_replayed() {
    let mut last = request("h", 3, true);
    let mut p = pad();
    get_npad_state(0, None, &mut last, &mut p);
    assert_eq!(p, pad());
}
