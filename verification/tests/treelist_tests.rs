use wxdragon::event::Event;
use wxdragon::event_type::EventKind;
use wxdragon::treelist::{
    CheckboxState, TreeListCtrlEvent, TreeListCtrlEventData, TreeListItem,
};

#[test]
fn item_handles_know_their_validity() {
    let item = TreeListItem::new(12);
    assert_eq!(item.id(), 12);
    assert!(item.is_valid());
    let nothing = TreeListItem::new(0);
    assert!(!nothing.is_valid());
}

#[test]
fn checkbox_state_codes_round_trip() {
    for s in [
        CheckboxState::Unchecked,
        CheckboxState::Checked,
        CheckboxState::Undetermined,
    ] {
        assert_eq!(CheckboxState::from_code(s.code()), s);
    }
    assert_eq!(CheckboxState::from_code(0), CheckboxState::Unchecked);
    assert_eq!(CheckboxState::from_code(1), CheckboxState::Checked);
    assert_eq!(CheckboxState::from_code(2), CheckboxState::Undetermined);
    // an unknown code reads as unchecked
    assert_eq!(CheckboxState::from_code(9), CheckboxState::Unchecked);
    assert_eq!(CheckboxState::from_code(-5), CheckboxState::Unchecked);
}

#[test]
fn only_the_checked_state_counts_as_checked() {
    assert!(CheckboxState::Checked.is_checked());
    assert!(!CheckboxState::Unchecked.is_checked());
    assert!(!CheckboxState::Undetermined.is_checked());
}

#[test]
fn tree_list_events_map_to_their_kinds() {
    assert_eq!(
        TreeListCtrlEvent::SelectionChanged.kind(),
        EventKind::TreeListSelectionChanged
    );
    assert_eq!(TreeListCtrlEvent::ItemChecked.kind(), EventKind::TreeListItemChecked);
    assert_eq!(TreeListCtrlEvent::ItemActivated.kind(), EventKind::TreeListItemActivated);
    assert_eq!(TreeListCtrlEvent::ColumnSorted.kind(), EventKind::TreeListColumnSorted);
    assert_eq!(TreeListCtrlEvent::ItemExpanding.kind(), EventKind::TreeListItemExpanding);
    assert_eq!(TreeListCtrlEvent::ItemExpanded.kind(), EventKind::TreeListItemExpanded);
}

#[test]
fn event_data_reports_the_item() {
    let d = TreeListCtrlEventData::new(
        Event::new(EventKind::TreeListSelectionChanged, 3).with_tree_item(55),
    );
    assert_eq!(d.get_id(), 3);
    assert_eq!(d.get_item(), Some(TreeListItem::new(55)));

    let bare = TreeListCtrlEventData::new(Event::new(EventKind::TreeListSelectionChanged, 3));
    assert_eq!(bare.get_item(), None);
    let null = TreeListCtrlEventData::new(Event::null());
    assert_eq!(null.get_item(), None);
}

#[test]
fn event_data_reports_the_column() {
    let d = TreeListCtrlEventData::new(
        Event::new(EventKind::TreeListColumnSorted, 3).with_tree_column(2),
    );
    assert_eq!(d.get_column(), Some(2));
    let bare = TreeListCtrlEventData::new(Event::new(EventKind::TreeListColumnSorted, 3));
    assert_eq!(bare.get_column(), None);
}

#[test]
fn event_data_reports_the_old_check_state() {
    let d = TreeListCtrlEventData::new(
        Event::new(EventKind::TreeListItemChecked, 3)
            .with_tree_item(55)
            .with_old_check(CheckboxState::Checked.code())
            .with_checked(false),
    );
    assert_eq!(d.get_old_checked_state(), Some(CheckboxState::Checked));
    assert_eq!(d.is_checked(), Some(false));

    let bare = TreeListCtrlEventData::new(Event::new(EventKind::TreeListItemChecked, 3));
    assert_eq!(bare.get_old_checked_state(), None);
}

#[test]
fn event_data_hands_the_label_through() {
    let d = TreeListCtrlEventData::new(
        Event::new(EventKind::TreeListItemActivated, 3).with_text(String::from("Report.pdf")),
    );
    assert_eq!(d.get_string(), Some(String::from("Report.pdf")));
}

#[test]
fn tree_list_skip_marks_the_event() {
    let mut d = TreeListCtrlEventData::new(Event::new(EventKind::TreeListItemChecked, 3));
    d.skip(true);
    assert!(d.event.skipped);
}
