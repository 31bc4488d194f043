//! Tree-list specifics: item handles, checkbox states, the tree-list event
//! kinds, and the event data handed to tree-list callbacks.

use vstd::prelude::*;

use crate::bridge::{EventBridge, RegState, Registration, SourceHandle};
use crate::event::{spec_get_id, spec_get_string, spec_is_checked, spec_skip, Event};
use crate::event_type::{kind_bit, EventKind, EventType};

verus! {

/// Checkbox state of a tree list item.
#[derive(Clone, Copy, Debug, PartialEq, Eq, Structural)]
pub enum CheckboxState {
    Unchecked,
    Checked,
    Undetermined,
}

/// The state a native state code stands for; an unknown code reads as
/// unchecked.
pub open spec fn checkbox_state_of_code(code: i32) -> CheckboxState {
    if code == 1 {
        CheckboxState::Checked
    } else if code == 2 {
        CheckboxState::Undetermined
    } else {
        CheckboxState::Unchecked
    }
}

/// The native code of a checkbox state.
pub open spec fn checkbox_state_code(s: CheckboxState) -> i32 {
    match s {
        CheckboxState::Unchecked => 0,
        CheckboxState::Checked => 1,
        CheckboxState::Undetermined => 2,
    }
}

impl CheckboxState {
    /// Reads a native state code; an unknown code reads as unchecked.
    pub fn from_code(code: i32) -> (r: CheckboxState)
        ensures
            r == checkbox_state_of_code(code),
    {
        if code == 1 {
            CheckboxState::Checked
        } else if code == 2 {
            CheckboxState::Undetermined
        } else {
            CheckboxState::Unchecked
        }
    }

    /// The native code of this state.
    pub fn code(self) -> (r: i32)
        ensures
            r == checkbox_state_code(self),
    {
        match self {
            CheckboxState::Unchecked => 0,
            CheckboxState::Checked => 1,
            CheckboxState::Undetermined => 2,
        }
    }

    /// Whether this state counts as checked: true for the checked state
    /// alone; the undetermined state does not count.
    pub fn is_checked(self) -> (r: bool)
        ensures
            r == (self == CheckboxState::Checked),
    {
        matches!(self, CheckboxState::Checked)
    }
}

/// A state's code reads back as that state.
pub proof fn lemma_checkbox_state_round_trip(s: CheckboxState)
    ensures
        checkbox_state_of_code(checkbox_state_code(s)) == s,
{
}

/// A tree item handle. Zero stands for no item.
#[derive(Clone, Copy, Debug, PartialEq, Eq, Structural)]
pub struct TreeListItem {
    pub id: i64,
}

impl TreeListItem {
    pub fn new(id: i64) -> (r: TreeListItem)
        ensures
            r.id == id,
    {
        TreeListItem { id }
    }

    pub fn id(&self) -> (r: i64)
        ensures
            r == self.id,
    {
        self.id
    }

    /// Whether the handle names an item at all.
    pub fn is_valid(&self) -> (r: bool)
        ensures
            r == (self.id != 0),
    {
        self.id != 0
    }
}

/// The tree-list event kinds.
#[derive(Clone, Copy, Debug, PartialEq, Eq, Structural)]
pub enum TreeListCtrlEvent {
    /// The selection changed.
    SelectionChanged,
    /// An item's checkbox was checked or unchecked.
    ItemChecked,
    /// An item was activated.
    ItemActivated,
    /// A column header was clicked for sorting.
    ColumnSorted,
    /// An item is expanding.
    ItemExpanding,
    /// An item has expanded.
    ItemExpanded,
}

/// The event kind a tree-list event registers for.
pub open spec fn tree_list_event_kind(ev: TreeListCtrlEvent) -> EventKind {
    match ev {
        TreeListCtrlEvent::SelectionChanged => EventKind::TreeListSelectionChanged,
        TreeListCtrlEvent::ItemChecked => EventKind::TreeListItemChecked,
        TreeListCtrlEvent::ItemActivated => EventKind::TreeListItemActivated,
        TreeListCtrlEvent::ColumnSorted => EventKind::TreeListColumnSorted,
        TreeListCtrlEvent::ItemExpanding => EventKind::TreeListItemExpanding,
        TreeListCtrlEvent::ItemExpanded => EventKind::TreeListItemExpanded,
    }
}

impl TreeListCtrlEvent {
    /// The event kind this tree-list event registers for.
    pub fn kind(self) -> (k: EventKind)
        ensures
            k == tree_list_event_kind(self),
    {
        match self {
            TreeListCtrlEvent::SelectionChanged => EventKind::TreeListSelectionChanged,
            TreeListCtrlEvent::ItemChecked => EventKind::TreeListItemChecked,
            TreeListCtrlEvent::ItemActivated => EventKind::TreeListItemActivated,
            TreeListCtrlEvent::ColumnSorted => EventKind::TreeListColumnSorted,
            TreeListCtrlEvent::ItemExpanding => EventKind::TreeListItemExpanding,
            TreeListCtrlEvent::ItemExpanded => EventKind::TreeListItemExpanded,
        }
    }
}

/// Registers a callback slot for one tree-list event kind on the given
/// widget, as `register` does for a plain filter.
pub fn register_tree_list_event(
    bridge: &mut EventBridge,
    source: &SourceHandle,
    event: TreeListCtrlEvent,
) -> (r: Option<usize>)
    ensures
        source.raw == 0 ==> r is None && final(bridge)@ == old(bridge)@,
        source.raw != 0 ==> r == Some(old(bridge)@.len() as usize) && final(bridge)@ == old(
            bridge,
        )@.push(
            Registration {
                source: source.raw,
                filter: EventType { bits: kind_bit(tree_list_event_kind(event)) },
                has_scope: false,
                scope_id: 0,
                state: RegState::Active,
            },
        ),
{
    let filter = EventType::from_kind(event.kind());
    bridge.register(source, filter)
}

/// The item a tree-list event is about; absent on a null handle or when the
/// event names no item.
pub open spec fn spec_get_item(e: Event) -> Option<TreeListItem> {
    if e.valid && e.tree_item != 0 {
        Some(TreeListItem { id: e.tree_item })
    } else {
        None
    }
}

/// The column a tree-list event is about; absent on a null handle or the
/// sentinel.
pub open spec fn spec_get_column(e: Event) -> Option<i32> {
    if e.valid && e.tree_column >= 0 {
        Some(e.tree_column)
    } else {
        None
    }
}

/// The checkbox state the item held before the event; absent on a null
/// handle or the sentinel.
pub open spec fn spec_get_old_checked_state(e: Event) -> Option<CheckboxState> {
    if e.valid && e.old_check >= 0 {
        Some(checkbox_state_of_code(e.old_check))
    } else {
        None
    }
}

/// Event data for tree-list events.
#[derive(Debug)]
pub struct TreeListCtrlEventData {
    pub event: Event,
}

impl TreeListCtrlEventData {
    pub fn new(event: Event) -> (r: TreeListCtrlEventData)
        ensures
            r.event == event,
    {
        TreeListCtrlEventData { event }
    }

    /// The id of the widget the event came from.
    pub fn get_id(&self) -> (r: i32)
        ensures
            r == spec_get_id(self.event),
    {
        self.event.get_id()
    }

    /// The item the event is about, when it names one.
    pub fn get_item(&self) -> (r: Option<TreeListItem>)
        ensures
            r == spec_get_item(self.event),
    {
        if !self.event.valid {
            return None;
        }
        if self.event.tree_item != 0 {
            Some(TreeListItem::new(self.event.tree_item))
        } else {
            None
        }
    }

    /// The column index, for column-related events.
    pub fn get_column(&self) -> (r: Option<i32>)
        ensures
            r == spec_get_column(self.event),
    {
        if !self.event.valid {
            return None;
        }
        if self.event.tree_column >= 0 {
            Some(self.event.tree_column)
        } else {
            None
        }
    }

    /// The event's string payload, when it has one.
    pub fn get_string(&self) -> (r: Option<String>)
        ensures
            match r {
                Some(s) => spec_get_string(self.event) == Some(s@),
                None => spec_get_string(self.event) is None,
            },
    {
        self.event.get_string()
    }

    /// The checkbox state the item held before the event, when the event
    /// reports one.
    pub fn get_old_checked_state(&self) -> (r: Option<CheckboxState>)
        ensures
            r == spec_get_old_checked_state(self.event),
    {
        if !self.event.valid {
            return None;
        }
        if self.event.old_check >= 0 {
            Some(CheckboxState::from_code(self.event.old_check))
        } else {
            None
        }
    }

    /// The checked state the event reports, when it reports one.
    pub fn is_checked(&self) -> (r: Option<bool>)
        ensures
            r == spec_is_checked(self.event),
    {
        self.event.is_checked()
    }

    /// Sets whether the event keeps propagating after this handler.
    pub fn skip(&mut self, skip: bool)
        ensures
            final(self).event == spec_skip(old(self).event, skip),
    {
        self.event.skip(skip);
    }
}

} // verus!
