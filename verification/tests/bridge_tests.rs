use wxdragon::bridge::{EventBridge, SourceHandle};
use wxdragon::event::Event;
use wxdragon::event_data::CommandEventData;
use wxdragon::event_type::{EventKind, EventType};

#[test]
fn button_click_reaches_its_registration_once() {
    // register a closure for button clicks on the source with handle 42
    let mut bridge = EventBridge::new();
    let source = SourceHandle::new(42);
    let slot = bridge
        .register(&source, EventType::from_kind(EventKind::ButtonClicked))
        .unwrap();

    let mut observed_ids: Vec<i32> = Vec::new();
    let mut callback = |data: CommandEventData| {
        observed_ids.push(data.get_id());
    };

    // a button-click event with id 42 invokes the closure exactly once,
    // and the closure observes the id
    let click = Event::new(EventKind::ButtonClicked, 42);
    let plan = bridge.dispatch_targets(42, &click);
    assert_eq!(plan, vec![slot]);
    for s in plan {
        assert_eq!(s, slot);
        callback(CommandEventData::new(Event::new(EventKind::ButtonClicked, 42)));
    }
    assert_eq!(observed_ids, vec![42]);

    // a checkbox toggle on the same source has no registration: nobody runs
    let toggle = Event::new(EventKind::CheckboxToggled, 42);
    let plan = bridge.dispatch_targets(42, &toggle);
    assert!(plan.is_empty());
    assert_eq!(observed_ids, vec![42]);
}

#[test]
fn dispatch_names_each_matching_slot_exactly_once() {
    let mut bridge = EventBridge::new();
    let source = SourceHandle::new(7);
    let a = bridge
        .register(&source, EventType::from_kind(EventKind::KeyDown))
        .unwrap();
    let b = bridge
        .register(
            &source,
            EventType::from_kind(EventKind::KeyDown).combine(EventType::from_kind(EventKind::KeyUp)),
        )
        .unwrap();
    let c = bridge
        .register(&source, EventType::from_kind(EventKind::KeyUp))
        .unwrap();

    let key_down = Event::new(EventKind::KeyDown, 1);
    assert_eq!(bridge.dispatch_targets(7, &key_down), vec![a, b]);

    let key_up = Event::new(EventKind::KeyUp, 1);
    assert_eq!(bridge.dispatch_targets(7, &key_up), vec![b, c]);
}

#[test]
fn dispatch_is_scoped_to_the_source() {
    let mut bridge = EventBridge::new();
    let here = SourceHandle::new(1);
    let slot = bridge
        .register(&here, EventType::from_kind(EventKind::ButtonClicked))
        .unwrap();

    let click = Event::new(EventKind::ButtonClicked, 5);
    assert_eq!(bridge.dispatch_targets(1, &click), vec![slot]);
    // the same event on another handler reaches nothing
    assert!(bridge.dispatch_targets(2, &click).is_empty());
}

#[test]
fn registration_on_a_null_handle_is_a_no_op() {
    let mut bridge = EventBridge::new();
    let null_source = SourceHandle::null();
    assert!(null_source.is_null());
    let r = bridge.register(&null_source, EventType::from_kind(EventKind::ButtonClicked));
    assert_eq!(r, None);
    assert_eq!(bridge.slot_count(), 0);
}

#[test]
fn a_null_event_reaches_nothing() {
    let mut bridge = EventBridge::new();
    let source = SourceHandle::new(3);
    bridge
        .register(&source, EventType::from_kind(EventKind::ButtonClicked))
        .unwrap();
    let e = Event::null();
    assert!(bridge.dispatch_targets(3, &e).is_empty());
}

#[test]
fn id_scoped_registration_sees_only_its_item() {
    let mut bridge = EventBridge::new();
    let source = SourceHandle::new(9);
    let slot = bridge
        .register_with_id(&source, EventType::from_kind(EventKind::MenuSelected), 1001)
        .unwrap();

    let mine = Event::new(EventKind::MenuSelected, 1001);
    assert_eq!(bridge.dispatch_targets(9, &mine), vec![slot]);

    let other = Event::new(EventKind::MenuSelected, 1002);
    assert!(bridge.dispatch_targets(9, &other).is_empty());
}

#[test]
fn teardown_is_acknowledged_exactly_once() {
    let mut bridge = EventBridge::new();
    let source = SourceHandle::new(4);
    let slot = bridge
        .register(&source, EventType::from_kind(EventKind::ButtonClicked))
        .unwrap();
    assert!(bridge.is_active(slot));
    assert!(bridge.teardown(slot));
    assert!(!bridge.is_active(slot));
    // the second teardown is refused: no double reclaim
    assert!(!bridge.teardown(slot));
    // a slot that was never made is refused too
    assert!(!bridge.teardown(1000));
}

#[test]
fn no_dispatch_after_teardown() {
    let mut bridge = EventBridge::new();
    let source = SourceHandle::new(4);
    let kept = bridge
        .register(&source, EventType::from_kind(EventKind::ButtonClicked))
        .unwrap();
    let torn = bridge
        .register(&source, EventType::from_kind(EventKind::ButtonClicked))
        .unwrap();
    assert!(bridge.teardown(torn));

    let click = Event::new(EventKind::ButtonClicked, 4);
    let plan = bridge.dispatch_targets(4, &click);
    assert_eq!(plan, vec![kept]);
    assert!(!plan.contains(&torn));
}

#[test]
fn independent_registrations_survive_anothers_teardown() {
    // a callback failing or going away leaves unrelated registrations whole
    let mut bridge = EventBridge::new();
    let source_a = SourceHandle::new(10);
    let source_b = SourceHandle::new(11);
    let a = bridge
        .register(&source_a, EventType::from_kind(EventKind::ButtonClicked))
        .unwrap();
    let b = bridge
        .register(&source_b, EventType::from_kind(EventKind::ButtonClicked))
        .unwrap();
    assert!(bridge.teardown(a));

    let click = Event::new(EventKind::ButtonClicked, 1);
    assert_eq!(bridge.dispatch_targets(11, &click), vec![b]);
}
