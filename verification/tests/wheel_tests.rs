use wxdragon::bridge::{EventBridge, SourceHandle};
use wxdragon::event::Event;
use wxdragon::event_data::MouseEventData;
use wxdragon::event_type::{EventKind, EventType};

#[test]
fn wheel_rotation_counts_two_notches() {
    let mut bridge = EventBridge::new();
    let source = SourceHandle::new(8);
    let slot = bridge
        .register(&source, EventType::from_kind(EventKind::MouseWheel))
        .unwrap();

    let wheel = Event::new(EventKind::MouseWheel, 8).with_wheel(240, 120);
    let plan = bridge.dispatch_targets(8, &wheel);
    assert_eq!(plan, vec![slot]);

    let data = MouseEventData::new(wheel);
    assert_eq!(data.get_wheel_rotation(), Some(240));
    assert_eq!(data.get_wheel_delta(), Some(120));
    let notches = data.get_wheel_rotation().unwrap() / data.get_wheel_delta().unwrap();
    assert_eq!(notches, 2);
}

#[test]
fn wheel_rotation_keeps_its_sign() {
    let wheel = Event::new(EventKind::MouseWheel, 8).with_wheel(-240, 120);
    let data = MouseEventData::new(wheel);
    assert_eq!(data.get_wheel_rotation(), Some(-240));
    let notches = data.get_wheel_rotation().unwrap() / data.get_wheel_delta().unwrap();
    assert_eq!(notches, -2);
}

#[test]
fn wheel_reads_absent_on_a_null_handle() {
    let data = MouseEventData::new(Event::null());
    assert_eq!(data.get_wheel_rotation(), None);
    assert_eq!(data.get_wheel_delta(), None);
    assert_eq!(data.get_position(), None);
}

#[test]
fn wheel_reads_absent_on_a_non_wheel_event() {
    // asking a plain button-click event for wheel data yields absent,
    // never a default in disguise
    let data = MouseEventData::new(Event::new(EventKind::ButtonClicked, 8));
    assert_eq!(data.get_wheel_rotation(), None);
    assert_eq!(data.get_wheel_delta(), None);
    let motion = MouseEventData::new(Event::new(EventKind::Motion, 8).with_position(3, 4));
    assert_eq!(motion.get_wheel_rotation(), None);
    assert_eq!(motion.get_wheel_delta(), None);
}

#[test]
fn mouse_skip_marks_the_event() {
    let mut data = MouseEventData::new(Event::new(EventKind::Motion, 2));
    data.skip(true);
    assert!(data.event.skipped);
}
