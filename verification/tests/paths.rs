use libultimate_plugin::paths::{
    command_ok_path, command_path, control_state_ok_path, control_state_path, entry_file_path,
    push_decimal,
};

#[test]
fn control_state_paths_name_the_entry() {
    assert_eq!(control_state_path(1), "sd:/libultimate/control_state_1.json");
    assert_eq!(control_state_ok_path(1), "sd:/libultimate/control_state_1.ok.json");
    assert_eq!(control_state_path(0), "sd:/libultimate/control_state_0.json");
    assert_eq!(control_state_ok_path(42), "sd:/libultimate/control_state_42.ok.json");
}

#[test]
fn command_paths_name_the_player() {
    assert_eq!(command_path(2), "sd:/libultimate/command_2.json");
    assert_eq!(command_ok_path(2), "sd:/libultimate/command_2.ok.json");
}

#[test]
fn entry_file_path_spells_the_whole_range() {
    assert_eq!(entry_file_path("x", u32::MAX, false), "sd:/libultimate/x_4294967295.json");
    assert_eq!(entry_file_path("", 10, true), "sd:/libultimate/_10.ok.json");
}

#[test]
fn push_decimal_appends_shortest_spelling() {
    let mut s = String::from("n=");
    push_decimal(&mut s, 0);
    assert_eq!(s, "n=0");
    push_decimal(&mut s, 9);
    push_decimal(&mut s, 1000);
    assert_eq!(s, "n=091000");
}

#[test]
fn distinct_entries_have_distinct_files() {
    let mut seen = std::collections::HashSet::new();
    for id in [0u32, 1, 9, 10, 11, 99, 100, 101, 1010] {
        assert!(seen.insert(control_state_path(id)));
        assert!(seen.insert(control_state_ok_path(id)));
    }
}
