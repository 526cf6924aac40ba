use libultimate_plugin::controlstate::ControlState;
use libultimate_plugin::fetch::{Fetch, FetchAction, FetchError, FetchEvent, FetchStage};

fn state(id: &str, player: u32) -> ControlState {
    let mut cs = ControlState::default();
    cs.id = id.to_string();
    cs.player_id = player;
    cs
}

#[test]
fn fetch_starts_by_checking_the_marker() {
    let (fetch, action) = ControlState::get(3);
    assert!(matches!(fetch.stage, FetchStage::AwaitingMarker));
    match action {
        FetchAction::CheckMarker(p) => assert_eq!(p, "sd:/libultimate/control_state_3.ok.json"),
        _ => panic!("expected a marker check"),
    }
    assert_eq!(fetch.record_path, "sd:/libultimate/control_state_3.json");
}

#[test]
fn missing_marker_ends_with_not_ready() {
    let (mut fetch, _) = ControlState::get(1);
    let ev = FetchEvent::MarkerChecked(false);
    assert!(fetch.accepts(&ev));
    match fetch.step(ev) {
        FetchAction::Complete(Err(e)) => assert_eq!(e, FetchError::NotReady),
        _ => panic!("expected NotReady"),
    }
    assert!(matches!(fetch.stage, FetchStage::Finished));
}

#[test]
fn full_fetch_returns_the_record_after_removing_the_marker() {
    let (mut fetch, _) = ControlState::get(1);
    match fetch.step(FetchEvent::MarkerChecked(true)) {
        FetchAction::ReadRecord(p) => assert_eq!(p, "sd:/libultimate/control_state_1.json"),
        _ => panic!("expected a read"),
    }
    assert!(!fetch.accepts(&FetchEvent::MarkerChecked(true)));
    match fetch.step(FetchEvent::RecordRead(Ok(state("a", 2)))) {
        FetchAction::RemoveMarker(p) => assert_eq!(p, "sd:/libultimate/control_state_1.ok.json"),
        _ => panic!("expected a removal"),
    }
    match fetch.step(FetchEvent::MarkerRemoved(true)) {
        FetchAction::Complete(Ok(cs)) => {
            assert_eq!(cs.id, "a");
            assert_eq!(cs.player_id, 2);
        }
        _ => panic!("expected the record"),
    }
}

#[test]
fn failed_read_keeps_the_marker() {
    let (mut fetch, _) = ControlState::get(1);
    fetch.step(FetchEvent::MarkerChecked(true));
    match fetch.step(FetchEvent::RecordRead(Err(FetchError::Malformed))) {
        FetchAction::Complete(Err(e)) => assert_eq!(e, FetchError::Malformed),
        _ => panic!("expected the read error"),
    }
    let (mut fetch, _) = ControlState::get(1);
    fetch.step(FetchEvent::MarkerChecked(true));
    match fetch.step(FetchEvent::RecordRead(Err(FetchError::Unreadable))) {
        FetchAction::Complete(Err(e)) => assert_eq!(e, FetchError::Unreadable),
        _ => panic!("expected the read error"),
    }
}

#[test]
fn failed_removal_aborts() {
    let (mut fetch, _) = Fetch::<u32>::start("m".to_string(), "r".to_string());
    fetch.step(FetchEvent::MarkerChecked(true));
    fetch.step(FetchEvent::RecordRead(Ok(7)));
    assert!(matches!(fetch.step(FetchEvent::MarkerRemoved(false)), FetchAction::Abort));
}
