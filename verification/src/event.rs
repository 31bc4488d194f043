//! A record standing for one native event, valid only for the duration of a
//! dispatch. A null native handle is modeled by `valid == false`; every
//! accessor then degrades to an absent or default answer, never to an error.
//!
//! Typed accessors mirror the native sentinel conventions: a field that does
//! not apply to the event's kind keeps its sentinel, and the accessor reports
//! it as absent. The modifier keys and the control queries are the
//! deliberate exception: their native counterparts are total yes-or-no
//! answers, so they keep the plain shape and answer false on a null handle.
//! The string payload is read in two steps, as against a native buffer: the
//! record keeps one snapshot per step, and a length disagreement between the
//! two is reported as no value, never as truncated data.

use vstd::prelude::*;
use vstd::string::StrSliceExecFns;

use crate::event_type::{kind_bit, lemma_kind_bits_disjoint, EventKind, EventType};

verus! {

/// The id reported when there is no event to ask: the native any-id sentinel.
pub const ID_ANY: i32 = -1;

/// The wheel step a fresh wheel event starts with: the usual unit of one
/// notch.
pub const WHEEL_DELTA_DEFAULT: i32 = 120;

/// The capacity of the fixed first-step text buffer. A payload shorter than
/// this is taken from the first read; a longer one takes a second, sized read.
pub const TEXT_STACK_CAP: usize = 1024;

/// A point in window coordinates.
#[derive(Clone, Copy, Debug, PartialEq, Eq, Structural)]
pub struct Point {
    pub x: i32,
    pub y: i32,
}

/// One native event, as the bridge sees it during a dispatch.
///
/// `text_first` and `text_second` are the payload snapshots the two text
/// reads would see; a stable event holds the same value twice. Building an
/// event with differing snapshots models a native payload changing between
/// the sizing read and the copying read.
#[derive(Debug)]
pub struct Event {
    pub valid: bool,
    pub event_type: EventType,
    pub id: i32,
    pub source: u64,
    pub int_value: i32,
    pub checked: bool,
    pub pos_x: i32,
    pub pos_y: i32,
    pub wheel_rotation: i32,
    pub wheel_delta: i32,
    pub key_code: i32,
    pub unicode_key: i32,
    pub control: bool,
    pub shift: bool,
    pub alt: bool,
    pub meta: bool,
    pub cmd: bool,
    pub menu_id: i32,
    pub popup: bool,
    pub tree_item: i64,
    pub tree_column: i32,
    pub old_check: i32,
    pub text_first: Option<String>,
    pub text_second: Option<String>,
    pub skipped: bool,
    pub vetoed: bool,
    pub vetoable: bool,
    pub more_idle: bool,
}

/// A fresh, valid event of the given kind and widget id: every other field at
/// its sentinel, so that every typed accessor reports absent.
pub open spec fn fresh_event(kind: EventKind, id: i32) -> Event {
    Event {
        valid: true,
        event_type: EventType { bits: kind_bit(kind) },
        id: id,
        source: 0,
        int_value: -1i32,
        checked: false,
        pos_x: -1i32,
        pos_y: -1i32,
        wheel_rotation: 0,
        wheel_delta: WHEEL_DELTA_DEFAULT,
        key_code: 0,
        unicode_key: 0,
        control: false,
        shift: false,
        alt: false,
        meta: false,
        cmd: false,
        menu_id: -1i32,
        popup: false,
        tree_item: 0,
        tree_column: -1i32,
        old_check: -1i32,
        text_first: None,
        text_second: None,
        skipped: false,
        vetoed: false,
        vetoable: false,
        more_idle: false,
    }
}

/// The event standing for a null native handle.
pub open spec fn null_event() -> Event {
    Event { valid: false, ..fresh_event(EventKind::ButtonClicked, ID_ANY) }
}

pub open spec fn spec_get_id(e: Event) -> i32 {
    if e.valid {
        e.id
    } else {
        ID_ANY
    }
}

/// The event's tag; absent on a null handle, a null tag, and a tag outside
/// the closed kind set: the safe layer only mirrors the native enumeration.
pub open spec fn spec_get_event_type(e: Event) -> Option<EventType> {
    if e.valid && e.event_type.bits != 0 && e.event_type.spec_known() {
        Some(e.event_type)
    } else {
        None
    }
}

pub open spec fn spec_get_source(e: Event) -> Option<u64> {
    if e.valid && e.source != 0 {
        Some(e.source)
    } else {
        None
    }
}

pub open spec fn spec_get_int(e: Event) -> Option<i32> {
    if e.valid && e.int_value != -1 {
        Some(e.int_value)
    } else {
        None
    }
}

pub open spec fn spec_is_checked(e: Event) -> Option<bool> {
    if e.valid {
        Some(e.checked)
    } else {
        None
    }
}

pub open spec fn spec_get_position(e: Event) -> Option<Point> {
    if e.valid && !(e.pos_x == -1 && e.pos_y == -1) {
        Some(Point { x: e.pos_x, y: e.pos_y })
    } else {
        None
    }
}

/// The wheel rotation; absent on a null handle and on an event whose kind
/// is not mouse-wheel.
pub open spec fn spec_get_wheel_rotation(e: Event) -> Option<i32> {
    if e.valid && e.event_type.spec_contains(EventKind::MouseWheel) {
        Some(e.wheel_rotation)
    } else {
        None
    }
}

/// The wheel step; absent on a null handle and on an event whose kind is
/// not mouse-wheel.
pub open spec fn spec_get_wheel_delta(e: Event) -> Option<i32> {
    if e.valid && e.event_type.spec_contains(EventKind::MouseWheel) {
        Some(e.wheel_delta)
    } else {
        None
    }
}

pub open spec fn spec_get_key_code(e: Event) -> Option<i32> {
    if e.valid && e.key_code != 0 {
        Some(e.key_code)
    } else {
        None
    }
}

pub open spec fn spec_get_unicode_key(e: Event) -> Option<i32> {
    if e.valid && e.unicode_key != 0 {
        Some(e.unicode_key)
    } else {
        None
    }
}

/// What the two-step text read yields: absent on a null handle, on a missing
/// payload, and on a length disagreement between the two snapshots.
pub open spec fn spec_get_string(e: Event) -> Option<Seq<char>> {
    if !e.valid {
        None
    } else {
        match e.text_first {
            None => None,
            Some(a) => if a@.len() < TEXT_STACK_CAP as nat {
                Some(a@)
            } else {
                match e.text_second {
                    None => None,
                    Some(b) => if b@.len() == a@.len() {
                        Some(b@)
                    } else {
                        None
                    },
                }
            },
        }
    }
}

/// Skipping sets the propagation flag to the given value; on a null handle it
/// does nothing.
pub open spec fn spec_skip(e: Event, flag: bool) -> Event {
    if e.valid {
        Event { skipped: flag, ..e }
    } else {
        e
    }
}

/// Vetoing marks a vetoable event as vetoed; on a null handle or an event
/// that cannot be vetoed it does nothing.
pub open spec fn spec_veto(e: Event) -> Event {
    if e.valid && e.vetoable {
        Event { vetoed: true, ..e }
    } else {
        e
    }
}

impl Event {
    /// A fresh, valid event of the given kind and widget id.
    pub fn new(kind: EventKind, id: i32) -> (r: Event)
        ensures
            r == fresh_event(kind, id),
    {
        Event {
            valid: true,
            event_type: EventType::from_kind(kind),
            id: id,
            source: 0,
            int_value: -1,
            checked: false,
            pos_x: -1,
            pos_y: -1,
            wheel_rotation: 0,
            wheel_delta: WHEEL_DELTA_DEFAULT,
            key_code: 0,
            unicode_key: 0,
            control: false,
            shift: false,
            alt: false,
            meta: false,
            cmd: false,
            menu_id: -1,
            popup: false,
            tree_item: 0,
            tree_column: -1,
            old_check: -1,
            text_first: None,
            text_second: None,
            skipped: false,
            vetoed: false,
            vetoable: false,
            more_idle: false,
        }
    }

    /// The event standing for a null native handle.
    pub fn null() -> (r: Event)
        ensures
            r == null_event(),
    {
        let mut e = Event::new(EventKind::ButtonClicked, ID_ANY);
        e.valid = false;
        e
    }

    /// Sets the source handle the event reports.
    pub fn with_source(self, source: u64) -> (r: Event)
        ensures
            r == (Event { source: source, ..self }),
    {
        Event { source: source, ..self }
    }

    /// Sets the command integer payload.
    pub fn with_int(self, int_value: i32) -> (r: Event)
        ensures
            r == (Event { int_value: int_value, ..self }),
    {
        Event { int_value: int_value, ..self }
    }

    /// Sets the checked state.
    pub fn with_checked(self, checked: bool) -> (r: Event)
        ensures
            r == (Event { checked: checked, ..self }),
    {
        Event { checked: checked, ..self }
    }

    /// Sets the pointer position.
    pub fn with_position(self, x: i32, y: i32) -> (r: Event)
        ensures
            r == (Event { pos_x: x, pos_y: y, ..self }),
    {
        Event { pos_x: x, pos_y: y, ..self }
    }

    /// Sets the wheel rotation and step.
    pub fn with_wheel(self, rotation: i32, delta: i32) -> (r: Event)
        ensures
            r == (Event { wheel_rotation: rotation, wheel_delta: delta, ..self }),
    {
        Event { wheel_rotation: rotation, wheel_delta: delta, ..self }
    }

    /// Sets the key code and its unicode value.
    pub fn with_key(self, key_code: i32, unicode_key: i32) -> (r: Event)
        ensures
            r == (Event { key_code: key_code, unicode_key: unicode_key, ..self }),
    {
        Event { key_code: key_code, unicode_key: unicode_key, ..self }
    }

    /// Sets the modifier keys held during the event.
    pub fn with_modifiers(self, control: bool, shift: bool, alt: bool, meta: bool, cmd: bool) -> (r:
        Event)
        ensures
            r == (Event { control, shift, alt, meta, cmd, ..self }),
    {
        Event { control, shift, alt, meta, cmd, ..self }
    }

    /// Sets the menu id and whether the menu is a popup.
    pub fn with_menu(self, menu_id: i32, popup: bool) -> (r: Event)
        ensures
            r == (Event { menu_id: menu_id, popup: popup, ..self }),
    {
        Event { menu_id: menu_id, popup: popup, ..self }
    }

    /// Sets the tree item the event is about.
    pub fn with_tree_item(self, tree_item: i64) -> (r: Event)
        ensures
            r == (Event { tree_item: tree_item, ..self }),
    {
        Event { tree_item: tree_item, ..self }
    }

    /// Sets the column the event is about.
    pub fn with_tree_column(self, tree_column: i32) -> (r: Event)
        ensures
            r == (Event { tree_column: tree_column, ..self }),
    {
        Event { tree_column: tree_column, ..self }
    }

    /// Sets the check state the item held before the event.
    pub fn with_old_check(self, old_check: i32) -> (r: Event)
        ensures
            r == (Event { old_check: old_check, ..self }),
    {
        Event { old_check: old_check, ..self }
    }

    /// Sets a stable text payload: both read snapshots hold the same value.
    pub fn with_text(self, text: String) -> (r: Event)
        ensures
            r.text_first == Some(text),
            r.text_second == Some(text),
            r == (Event { text_first: Some(text), text_second: Some(text), ..self }),
    {
        let second = text.clone();
        Event { text_first: Some(text), text_second: Some(second), ..self }
    }

    /// Sets the two text snapshots separately, to stand for a payload that
    /// changes between the sizing read and the copying read.
    pub fn with_text_reports(self, first: Option<String>, second: Option<String>) -> (r: Event)
        ensures
            r == (Event { text_first: first, text_second: second, ..self }),
    {
        Event { text_first: first, text_second: second, ..self }
    }

    /// Sets whether the event may be vetoed.
    pub fn with_vetoable(self, vetoable: bool) -> (r: Event)
        ensures
            r == (Event { vetoable: vetoable, ..self }),
    {
        Event { vetoable: vetoable, ..self }
    }

    /// Whether the record stands for a null native handle.
    pub fn is_null(&self) -> (r: bool)
        ensures
            r == !self.valid,
    {
        !self.valid
    }

    /// The id of the widget the event came from; the any-id sentinel on a
    /// null handle.
    pub fn get_id(&self) -> (r: i32)
        ensures
            r == spec_get_id(*self),
    {
        if !self.valid {
            return ID_ANY;
        }
        self.id
    }

    /// The event's type; absent on a null handle, a null type, or a tag
    /// whose bits fall outside the closed kind set — an unknown native value
    /// is refused, never handed out.
    pub fn get_event_type(&self) -> (r: Option<EventType>)
        ensures
            r == spec_get_event_type(*self),
    {
        if !self.valid {
            return None;
        }
        if self.event_type.is_empty() || !self.event_type.is_known() {
            None
        } else {
            Some(self.event_type)
        }
    }

    /// The handle of the object that generated the event; absent on a null
    /// handle or when the native layer reported none.
    pub fn get_event_object(&self) -> (r: Option<u64>)
        ensures
            r == spec_get_source(*self),
    {
        if !self.valid {
            return None;
        }
        if self.source == 0 {
            None
        } else {
            Some(self.source)
        }
    }

    /// The command integer payload; absent on a null handle or when the
    /// native layer reported the sentinel.
    pub fn get_int(&self) -> (r: Option<i32>)
        ensures
            r == spec_get_int(*self),
    {
        if !self.valid {
            return None;
        }
        if self.int_value == -1 {
            None
        } else {
            Some(self.int_value)
        }
    }

    /// Whether a command event reports a checked state; absent on a null
    /// handle.
    pub fn is_checked(&self) -> (r: Option<bool>)
        ensures
            r == spec_is_checked(*self),
    {
        if !self.valid {
            return None;
        }
        Some(self.checked)
    }

    /// The pointer position; absent on a null handle or the sentinel pair.
    pub fn get_position(&self) -> (r: Option<Point>)
        ensures
            r == spec_get_position(*self),
    {
        if !self.valid {
            return None;
        }
        if self.pos_x == -1 && self.pos_y == -1 {
            None
        } else {
            Some(Point { x: self.pos_x, y: self.pos_y })
        }
    }

    /// The wheel rotation; absent on a null handle and on an event whose
    /// kind is not mouse-wheel. Positive rotation scrolls forward, negative
    /// backward.
    pub fn get_wheel_rotation(&self) -> (r: Option<i32>)
        ensures
            r == spec_get_wheel_rotation(*self),
    {
        if !self.valid {
            return None;
        }
        if self.event_type.contains(EventKind::MouseWheel) {
            Some(self.wheel_rotation)
        } else {
            None
        }
    }

    /// The wheel step, the unit one notch turns; absent on a null handle
    /// and on an event whose kind is not mouse-wheel.
    pub fn get_wheel_delta(&self) -> (r: Option<i32>)
        ensures
            r == spec_get_wheel_delta(*self),
    {
        if !self.valid {
            return None;
        }
        if self.event_type.contains(EventKind::MouseWheel) {
            Some(self.wheel_delta)
        } else {
            None
        }
    }

    /// The key code; absent on a null handle or a kind without one.
    pub fn get_key_code(&self) -> (r: Option<i32>)
        ensures
            r == spec_get_key_code(*self),
    {
        if !self.valid {
            return None;
        }
        if self.key_code == 0 {
            None
        } else {
            Some(self.key_code)
        }
    }

    /// The unicode key value; absent on a null handle or a kind without one.
    pub fn get_unicode_key(&self) -> (r: Option<i32>)
        ensures
            r == spec_get_unicode_key(*self),
    {
        if !self.valid {
            return None;
        }
        if self.unicode_key == 0 {
            None
        } else {
            Some(self.unicode_key)
        }
    }

    /// The string payload, read in two steps: a fixed-capacity read first,
    /// then a sized read when the payload is longer. A length disagreement
    /// between the two reads yields no value rather than truncated data.
    pub fn get_string(&self) -> (r: Option<String>)
        ensures
            match r {
                Some(s) => spec_get_string(*self) == Some(s@),
                None => spec_get_string(*self) is None,
            },
    {
        if !self.valid {
            return None;
        }
        match &self.text_first {
            None => None,
            Some(a) => {
                let a_len = a.as_str().unicode_len();
                if a_len < TEXT_STACK_CAP {
                    Some(a.clone())
                } else {
                    match &self.text_second {
                        None => None,
                        Some(b) => {
                            let b_len = b.as_str().unicode_len();
                            if b_len == a_len {
                                Some(b.clone())
                            } else {
                                None
                            }
                        },
                    }
                }
            },
        }
    }

    /// Whether the control key was held; false on a null handle.
    pub fn control_down(&self) -> (r: bool)
        ensures
            r == (self.valid && self.control),
    {
        self.valid && self.control
    }

    /// Whether the shift key was held; false on a null handle.
    pub fn shift_down(&self) -> (r: bool)
        ensures
            r == (self.valid && self.shift),
    {
        self.valid && self.shift
    }

    /// Whether the alt key was held; false on a null handle.
    pub fn alt_down(&self) -> (r: bool)
        ensures
            r == (self.valid && self.alt),
    {
        self.valid && self.alt
    }

    /// Whether the meta key was held; false on a null handle.
    pub fn meta_down(&self) -> (r: bool)
        ensures
            r == (self.valid && self.meta),
    {
        self.valid && self.meta
    }

    /// Whether the platform command key was held; false on a null handle.
    pub fn cmd_down(&self) -> (r: bool)
        ensures
            r == (self.valid && self.cmd),
    {
        self.valid && self.cmd
    }

    /// Sets whether the event keeps propagating after this handler returns;
    /// a no-op on a null handle.
    pub fn skip(&mut self, flag: bool)
        ensures
            *final(self) == spec_skip(*old(self), flag),
    {
        if self.valid {
            self.skipped = flag;
        }
    }

    /// Asks for more idle events; a no-op on a null handle.
    pub fn request_more(&mut self, need_more: bool)
        ensures
            *final(self) == if old(self).valid {
                (Event { more_idle: need_more, ..*old(self) })
            } else {
                *old(self)
            },
    {
        if self.valid {
            self.more_idle = need_more;
        }
    }

    /// Whether more idle events were asked for; false on a null handle.
    pub fn more_requested(&self) -> (r: bool)
        ensures
            r == (self.valid && self.more_idle),
    {
        self.valid && self.more_idle
    }

    /// Whether the event's default action can be cancelled; false on a null
    /// handle.
    pub fn can_veto(&self) -> (r: bool)
        ensures
            r == (self.valid && self.vetoable),
    {
        self.valid && self.vetoable
    }

    /// Cancels the event's default action where that is allowed; a no-op on
    /// a null handle or an event that cannot be vetoed.
    pub fn veto(&mut self)
        ensures
            *final(self) == spec_veto(*old(self)),
    {
        if self.valid && self.vetoable {
            self.vetoed = true;
        }
    }

    /// Whether the event was vetoed; false on a null handle.
    pub fn is_vetoed(&self) -> (r: bool)
        ensures
            r == (self.valid && self.vetoed),
    {
        self.valid && self.vetoed
    }

    /// Sets whether the event may be vetoed; a no-op on a null handle.
    pub fn set_can_veto(&mut self, can_veto: bool)
        ensures
            *final(self) == if old(self).valid {
                (Event { vetoable: can_veto, ..*old(self) })
            } else {
                *old(self)
            },
    {
        if self.valid {
            self.vetoable = can_veto;
        }
    }
}

/// Skipping twice with the same flag leaves the event exactly as skipping
/// once does.
pub proof fn lemma_skip_idempotent(e: Event, flag: bool)
    ensures
        spec_skip(spec_skip(e, flag), flag) == spec_skip(e, flag),
{
}

/// Vetoing twice leaves the event exactly as vetoing once does.
pub proof fn lemma_veto_idempotent(e: Event)
    ensures
        spec_veto(spec_veto(e)) == spec_veto(e),
{
}

/// On a fresh event of any kind, every typed accessor whose field was never
/// filled reports absent: never a default in disguise, never a fault.
pub proof fn lemma_fresh_event_reads_absent(kind: EventKind, id: i32)
    ensures
        spec_get_key_code(fresh_event(kind, id)) is None,
        spec_get_unicode_key(fresh_event(kind, id)) is None,
        spec_get_int(fresh_event(kind, id)) is None,
        spec_get_position(fresh_event(kind, id)) is None,
        spec_get_string(fresh_event(kind, id)) is None,
        spec_get_source(fresh_event(kind, id)) is None,
        kind != EventKind::MouseWheel ==> spec_get_wheel_rotation(fresh_event(kind, id)) is None,
        kind != EventKind::MouseWheel ==> spec_get_wheel_delta(fresh_event(kind, id)) is None,
{
    if kind != EventKind::MouseWheel {
        lemma_kind_bits_disjoint(kind, EventKind::MouseWheel);
    }
}

} // verus!
