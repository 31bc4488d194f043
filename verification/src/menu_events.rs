//! Menu-specific events: the symbolic menu event kinds, the event data handed
//! to menu callbacks, and a verified line formatter for logging.

use vstd::prelude::*;

use crate::bridge::{EventBridge, RegState, Registration, SourceHandle};
use crate::decimal::{dec_int, format_i32};
use crate::event::{
    spec_get_event_type, spec_get_id, spec_get_position, spec_skip, spec_veto, Event, Point,
};
use crate::event_type::{kind_bit, EventKind, EventType};

verus! {

/// The menu event kinds.
#[derive(Clone, Copy, Debug, PartialEq, Eq, Structural)]
pub enum MenuEvent {
    /// A menu item was picked.
    Selected,
    /// A menu was opened.
    Opened,
    /// A menu was closed.
    Closed,
    /// A menu item was highlighted.
    Highlighted,
    /// A context menu was asked for.
    ContextRequested,
}

/// The event kind a menu event registers for.
pub open spec fn menu_event_kind(m: MenuEvent) -> EventKind {
    match m {
        MenuEvent::Selected => EventKind::MenuSelected,
        MenuEvent::Opened => EventKind::MenuOpened,
        MenuEvent::Closed => EventKind::MenuClosed,
        MenuEvent::Highlighted => EventKind::MenuHighlighted,
        MenuEvent::ContextRequested => EventKind::ContextMenu,
    }
}

impl MenuEvent {
    /// The event kind this menu event registers for.
    pub fn kind(self) -> (k: EventKind)
        ensures
            k == menu_event_kind(self),
    {
        match self {
            MenuEvent::Selected => EventKind::MenuSelected,
            MenuEvent::Opened => EventKind::MenuOpened,
            MenuEvent::Closed => EventKind::MenuClosed,
            MenuEvent::Highlighted => EventKind::MenuHighlighted,
            MenuEvent::ContextRequested => EventKind::ContextMenu,
        }
    }
}

/// Registers a callback slot for one menu event kind on the given widget, as
/// `register` does for a plain filter.
pub fn register_menu_event(bridge: &mut EventBridge, source: &SourceHandle, event: MenuEvent) -> (r:
    Option<usize>)
    ensures
        source.raw == 0 ==> r is None && final(bridge)@ == old(bridge)@,
        source.raw != 0 ==> r == Some(old(bridge)@.len() as usize) && final(bridge)@ == old(
            bridge,
        )@.push(
            Registration {
                source: source.raw,
                filter: EventType { bits: kind_bit(menu_event_kind(event)) },
                has_scope: false,
                scope_id: 0,
                state: RegState::Active,
            },
        ),
{
    let filter = EventType::from_kind(event.kind());
    bridge.register(source, filter)
}

/// The set that holds exactly one kind, as a spec value.
pub open spec fn kind_tag(k: EventKind) -> EventType {
    EventType { bits: kind_bit(k) }
}

/// The menu id the event reports, absent on a null handle or the sentinel.
pub open spec fn spec_get_menu_id(e: Event) -> Option<i32> {
    if e.valid && e.menu_id != -1 {
        Some(e.menu_id)
    } else {
        None
    }
}

/// Whether the event reports a popup menu; false on a null handle.
pub open spec fn spec_is_popup(e: Event) -> bool {
    e.valid && e.popup
}

/// The name of a menu event's type.
pub open spec fn spec_menu_type_name(e: Event) -> Seq<char> {
    match spec_get_event_type(e) {
        None => "Invalid Event"@,
        Some(et) => if et == kind_tag(EventKind::MenuSelected) {
            "Menu Selected"@
        } else if et == kind_tag(EventKind::MenuOpened) {
            "Menu Opened"@
        } else if et == kind_tag(EventKind::MenuClosed) {
            "Menu Closed"@
        } else if et == kind_tag(EventKind::MenuHighlighted) {
            "Menu Highlighted"@
        } else if et == kind_tag(EventKind::ContextMenu) {
            "Context Menu Requested"@
        } else {
            "Unknown Menu Event"@
        },
    }
}

/// The log line for a menu event: its type name and id, then the position of
/// a context menu, or the menu id and popup flag of an open, close or
/// highlight event, as far as the event reports them.
pub open spec fn spec_menu_log_line(e: Event) -> Seq<char> {
    let head = spec_menu_type_name(e) + " - ID: "@ + dec_int(spec_get_id(e) as int);
    if spec_get_event_type(e) == Some(kind_tag(EventKind::ContextMenu)) {
        match spec_get_position(e) {
            Some(p) => head + ", Position: ("@ + dec_int(p.x as int) + ", "@ + dec_int(p.y as int)
                + ")"@,
            None => head,
        }
    } else if spec_get_event_type(e) == Some(kind_tag(EventKind::MenuOpened))
        || spec_get_event_type(e) == Some(kind_tag(EventKind::MenuClosed))
        || spec_get_event_type(e) == Some(kind_tag(EventKind::MenuHighlighted)) {
        let tail = if spec_is_popup(e) {
            " (Popup)"@
        } else {
            " (Menu Bar)"@
        };
        match spec_get_menu_id(e) {
            Some(mid) => head + ", Menu ID: "@ + dec_int(mid as int) + tail,
            None => head + tail,
        }
    } else {
        head
    }
}

/// Event data for menu events.
#[derive(Debug)]
pub struct MenuEventData {
    pub event: Event,
}

impl MenuEventData {
    pub fn new(event: Event) -> (r: MenuEventData)
        ensures
            r.event == event,
    {
        MenuEventData { event }
    }

    /// The underlying event.
    pub fn event(&self) -> (r: &Event)
        ensures
            r == &self.event,
    {
        &self.event
    }

    /// The menu id, for open, close and highlight events; absent on a null
    /// handle or the sentinel.
    pub fn get_menu_id(&self) -> (r: Option<i32>)
        ensures
            r == spec_get_menu_id(self.event),
    {
        if !self.event.valid {
            return None;
        }
        if self.event.menu_id == -1 {
            None
        } else {
            Some(self.event.menu_id)
        }
    }

    /// Whether this is a popup menu event; false on a null handle or an
    /// event that reports nothing.
    pub fn is_popup(&self) -> (r: bool)
        ensures
            r == spec_is_popup(self.event),
    {
        self.event.valid && self.event.popup
    }

    /// The position a context menu was asked at; absent on a null handle or
    /// the sentinel pair.
    pub fn get_context_position(&self) -> (r: Option<Point>)
        ensures
            r == spec_get_position(self.event),
    {
        self.event.get_position()
    }

    /// The id of the widget or menu item the event is about.
    pub fn get_id(&self) -> (r: i32)
        ensures
            r == spec_get_id(self.event),
    {
        self.event.get_id()
    }

    /// Sets whether the event keeps propagating after this handler.
    pub fn skip(&mut self, skip: bool)
        ensures
            final(self).event == spec_skip(old(self).event, skip),
    {
        self.event.skip(skip);
    }

    /// Whether the event can be vetoed.
    pub fn can_veto(&self) -> (r: bool)
        ensures
            r == (self.event.valid && self.event.vetoable),
    {
        self.event.can_veto()
    }

    /// Vetoes the event where that is allowed.
    pub fn veto(&mut self)
        ensures
            final(self).event == spec_veto(old(self).event),
    {
        self.event.veto();
    }

    /// Whether the event was vetoed.
    pub fn is_vetoed(&self) -> (r: bool)
        ensures
            r == (self.event.valid && self.event.vetoed),
    {
        self.event.is_vetoed()
    }

    /// The name of this menu event's type.
    pub fn get_event_type_name(&self) -> (r: &'static str)
        ensures
            r@ == spec_menu_type_name(self.event),
    {
        match self.event.get_event_type() {
            None => "Invalid Event",
            Some(et) => {
                if et == EventType::from_kind(EventKind::MenuSelected) {
                    "Menu Selected"
                } else if et == EventType::from_kind(EventKind::MenuOpened) {
                    "Menu Opened"
                } else if et == EventType::from_kind(EventKind::MenuClosed) {
                    "Menu Closed"
                } else if et == EventType::from_kind(EventKind::MenuHighlighted) {
                    "Menu Highlighted"
                } else if et == EventType::from_kind(EventKind::ContextMenu) {
                    "Context Menu Requested"
                } else {
                    "Unknown Menu Event"
                }
            },
        }
    }

    /// The log line for this menu event.
    pub fn format_for_logging(&self) -> (r: String)
        ensures
            r@ == spec_menu_log_line(self.event),
    {
        let name = self.get_event_type_name();
        let id = self.get_id();
        let mut out = name.to_owned();
        out.append(" - ID: ");
        let id_text = format_i32(id);
        out.append(id_text.as_str());
        let et = self.event.get_event_type();
        let is_context = match et {
            Some(t) => t == EventType::from_kind(EventKind::ContextMenu),
            None => false,
        };
        let is_open_close_highlight = match et {
            Some(t) => t == EventType::from_kind(EventKind::MenuOpened) || t
                == EventType::from_kind(EventKind::MenuClosed) || t == EventType::from_kind(
                EventKind::MenuHighlighted,
            ),
            None => false,
        };
        if is_context {
            if let Some(pos) = self.get_context_position() {
                out.append(", Position: (");
                let x_text = format_i32(pos.x);
                out.append(x_text.as_str());
                out.append(", ");
                let y_text = format_i32(pos.y);
                out.append(y_text.as_str());
                out.append(")");
            }
        } else if is_open_close_highlight {
            if let Some(mid) = self.get_menu_id() {
                out.append(", Menu ID: ");
                let mid_text = format_i32(mid);
                out.append(mid_text.as_str());
            }
            if self.is_popup() {
                out.append(" (Popup)");
            } else {
                out.append(" (Menu Bar)");
            }
        }
        proof {
            assert(out@ =~= spec_menu_log_line(self.event));
        }
        out
    }
}

} // verus!
