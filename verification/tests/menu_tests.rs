use wxdragon::bridge::{EventBridge, SourceHandle};
use wxdragon::event::{Event, Point};
use wxdragon::event_type::{EventKind, EventType};
use wxdragon::menu_events::{register_menu_event, MenuEvent, MenuEventData};

#[test]
fn menu_events_map_to_their_kinds() {
    assert_eq!(MenuEvent::Selected.kind(), EventKind::MenuSelected);
    assert_eq!(MenuEvent::Opened.kind(), EventKind::MenuOpened);
    assert_eq!(MenuEvent::Closed.kind(), EventKind::MenuClosed);
    assert_eq!(MenuEvent::Highlighted.kind(), EventKind::MenuHighlighted);
    assert_eq!(MenuEvent::ContextRequested.kind(), EventKind::ContextMenu);
}

#[test]
fn menu_registration_reaches_menu_dispatch() {
    let mut bridge = EventBridge::new();
    let source = SourceHandle::new(5);
    let slot = register_menu_event(&mut bridge, &source, MenuEvent::Opened).unwrap();
    let opened = Event::new(EventKind::MenuOpened, 1);
    assert_eq!(bridge.dispatch_targets(5, &opened), vec![slot]);
    let closed = Event::new(EventKind::MenuClosed, 1);
    assert!(bridge.dispatch_targets(5, &closed).is_empty());
}

#[test]
fn popup_flag_reads_as_reported() {
    let opened = MenuEventData::new(Event::new(EventKind::MenuOpened, 1).with_menu(30, true));
    assert!(opened.is_popup());

    let bar = MenuEventData::new(Event::new(EventKind::MenuOpened, 1).with_menu(30, false));
    assert!(!bar.is_popup());

    // a malformed event without popup information reads as not a popup
    let bare = MenuEventData::new(Event::new(EventKind::MenuOpened, 1));
    assert!(!bare.is_popup());
    let null = MenuEventData::new(Event::null());
    assert!(!null.is_popup());
}

#[test]
fn menu_id_reads_as_reported() {
    let d = MenuEventData::new(Event::new(EventKind::MenuHighlighted, 2).with_menu(77, false));
    assert_eq!(d.get_menu_id(), Some(77));
    let bare = MenuEventData::new(Event::new(EventKind::MenuHighlighted, 2));
    assert_eq!(bare.get_menu_id(), None);
}

#[test]
fn context_position_reads_as_reported() {
    let d = MenuEventData::new(Event::new(EventKind::ContextMenu, 2).with_position(15, 25));
    assert_eq!(d.get_context_position(), Some(Point { x: 15, y: 25 }));
    let bare = MenuEventData::new(Event::new(EventKind::ContextMenu, 2));
    assert_eq!(bare.get_context_position(), None);
}

#[test]
fn event_type_names() {
    let selected = MenuEventData::new(Event::new(EventKind::MenuSelected, 1));
    assert_eq!(selected.get_event_type_name(), "Menu Selected");
    let ctx = MenuEventData::new(Event::new(EventKind::ContextMenu, 1));
    assert_eq!(ctx.get_event_type_name(), "Context Menu Requested");
    let null = MenuEventData::new(Event::null());
    assert_eq!(null.get_event_type_name(), "Invalid Event");
    let wheel = MenuEventData::new(Event::new(EventKind::MouseWheel, 1));
    assert_eq!(wheel.get_event_type_name(), "Unknown Menu Event");
}

#[test]
fn log_line_for_a_selection() {
    let d = MenuEventData::new(Event::new(EventKind::MenuSelected, 42));
    assert_eq!(d.format_for_logging(), "Menu Selected - ID: 42");
}

#[test]
fn log_line_for_an_opened_popup() {
    let d = MenuEventData::new(Event::new(EventKind::MenuOpened, 7).with_menu(30, true));
    assert_eq!(d.format_for_logging(), "Menu Opened - ID: 7, Menu ID: 30 (Popup)");
}

#[test]
fn log_line_for_an_opened_menu_bar_without_menu_id() {
    let d = MenuEventData::new(Event::new(EventKind::MenuOpened, 7));
    assert_eq!(d.format_for_logging(), "Menu Opened - ID: 7 (Menu Bar)");
}

#[test]
fn log_line_for_a_context_menu_with_position() {
    let d = MenuEventData::new(Event::new(EventKind::ContextMenu, -3).with_position(100, 200));
    assert_eq!(
        d.format_for_logging(),
        "Context Menu Requested - ID: -3, Position: (100, 200)"
    );
}

#[test]
fn log_line_for_a_context_menu_without_position() {
    let d = MenuEventData::new(Event::new(EventKind::ContextMenu, 9));
    assert_eq!(d.format_for_logging(), "Context Menu Requested - ID: 9");
}

#[test]
fn veto_through_menu_event_data() {
    let mut d = MenuEventData::new(Event::new(EventKind::MenuOpened, 1).with_vetoable(true));
    assert!(d.can_veto());
    assert!(!d.is_vetoed());
    d.veto();
    assert!(d.is_vetoed());
}

#[test]
fn skip_through_menu_event_data() {
    let mut d = MenuEventData::new(Event::new(EventKind::MenuSelected, 1));
    d.skip(true);
    assert!(d.event().skipped);
}

#[test]
fn menu_filter_matches_through_the_kind() {
    let filter = EventType::from_kind(MenuEvent::Selected.kind());
    assert!(filter.contains(EventKind::MenuSelected));
    assert!(!filter.contains(EventKind::MenuOpened));
}
