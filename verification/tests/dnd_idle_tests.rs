use wxdragon::dnd::DragResult;
use wxdragon::idle::{IdleEvent, IdleMode};

#[test]
fn drag_result_codes_round_trip() {
    for r in [
        DragResult::NoEffect,
        DragResult::Copy,
        DragResult::Move,
        DragResult::Link,
        DragResult::Cancel,
        DragResult::Error,
    ] {
        assert_eq!(DragResult::from_code(r.code()), r);
    }
}

#[test]
fn drag_result_codes_are_the_native_ones() {
    assert_eq!(DragResult::from_code(0), DragResult::NoEffect);
    assert_eq!(DragResult::from_code(1), DragResult::Copy);
    assert_eq!(DragResult::from_code(2), DragResult::Move);
    assert_eq!(DragResult::from_code(3), DragResult::Link);
    assert_eq!(DragResult::from_code(4), DragResult::Cancel);
    assert_eq!(DragResult::from_code(5), DragResult::Error);
    // an unknown code reads as an error
    assert_eq!(DragResult::from_code(99), DragResult::Error);
    assert_eq!(DragResult::from_code(-1), DragResult::Error);
}

#[test]
fn drag_result_names() {
    assert_eq!(DragResult::NoEffect.name(), "None");
    assert_eq!(DragResult::Copy.name(), "Copy");
    assert_eq!(DragResult::Move.name(), "Move");
    assert_eq!(DragResult::Link.name(), "Link");
    assert_eq!(DragResult::Cancel.name(), "Cancel");
    assert_eq!(DragResult::Error.name(), "Error");
}

#[test]
fn idle_mode_codes_round_trip() {
    assert_eq!(IdleMode::from_code(0), IdleMode::ProcessAll);
    assert_eq!(IdleMode::from_code(1), IdleMode::ProcessSpecified);
    // an unknown code reads as processing all windows
    assert_eq!(IdleMode::from_code(7), IdleMode::ProcessAll);
    for m in [IdleMode::ProcessAll, IdleMode::ProcessSpecified] {
        assert_eq!(IdleMode::from_code(m.code()), m);
    }
}

#[test]
fn idle_setting_holds_its_mode() {
    let mut idle = IdleEvent::new();
    assert_eq!(idle.get_mode(), IdleMode::ProcessAll);
    idle.set_mode(IdleMode::ProcessSpecified);
    assert_eq!(idle.get_mode(), IdleMode::ProcessSpecified);
    idle.set_mode(IdleMode::ProcessAll);
    assert_eq!(idle.get_mode(), IdleMode::ProcessAll);
}
