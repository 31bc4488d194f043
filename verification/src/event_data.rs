//! Typed event-data wrappers handed to callbacks: each wraps one event and
//! exposes the accessors that make sense for its family, with the same
//! fail-soft behavior as the event itself.

use vstd::prelude::*;

use crate::event::{
    spec_get_id, spec_get_int, spec_get_key_code, spec_get_position, spec_get_string,
    spec_get_unicode_key, spec_get_wheel_delta, spec_get_wheel_rotation, spec_is_checked,
    spec_skip, Event, Point,
};

verus! {

/// Common data for command events: button clicks, menu selections, toggles.
#[derive(Debug)]
pub struct CommandEventData {
    pub event: Event,
}

impl CommandEventData {
    pub fn new(event: Event) -> (r: CommandEventData)
        ensures
            r.event == event,
    {
        CommandEventData { event }
    }

    /// The id of the widget the command came from.
    pub fn get_id(&self) -> (r: i32)
        ensures
            r == spec_get_id(self.event),
    {
        self.event.get_id()
    }

    /// The command's string payload, when it has one.
    pub fn get_string(&self) -> (r: Option<String>)
        ensures
            match r {
                Some(s) => spec_get_string(self.event) == Some(s@),
                None => spec_get_string(self.event) is None,
            },
    {
        self.event.get_string()
    }

    /// The checked state, when the event reports one.
    pub fn is_checked(&self) -> (r: Option<bool>)
        ensures
            r == spec_is_checked(self.event),
    {
        self.event.is_checked()
    }

    /// The command's integer payload, when it has one.
    pub fn get_int(&self) -> (r: Option<i32>)
        ensures
            r == spec_get_int(self.event),
    {
        self.event.get_int()
    }

    /// Sets whether the event keeps propagating after this handler.
    pub fn skip(&mut self, skip: bool)
        ensures
            final(self).event == spec_skip(old(self).event, skip),
    {
        self.event.skip(skip);
    }
}

/// Data for mouse events.
#[derive(Debug)]
pub struct MouseEventData {
    pub event: Event,
}

impl MouseEventData {
    pub fn new(event: Event) -> (r: MouseEventData)
        ensures
            r.event == event,
    {
        MouseEventData { event }
    }

    /// The pointer position, when the event reports one.
    pub fn get_position(&self) -> (r: Option<Point>)
        ensures
            r == spec_get_position(self.event),
    {
        self.event.get_position()
    }

    /// The wheel rotation, in multiples of the wheel step; absent on a null
    /// handle and on an event whose kind is not mouse-wheel. Positive values
    /// scroll forward, negative backward.
    pub fn get_wheel_rotation(&self) -> (r: Option<i32>)
        ensures
            r == spec_get_wheel_rotation(self.event),
    {
        self.event.get_wheel_rotation()
    }

    /// The wheel step, the rotation one notch amounts to; absent on a null
    /// handle and on an event whose kind is not mouse-wheel.
    pub fn get_wheel_delta(&self) -> (r: Option<i32>)
        ensures
            r == spec_get_wheel_delta(self.event),
    {
        self.event.get_wheel_delta()
    }

    /// Sets whether the event keeps propagating after this handler.
    pub fn skip(&mut self, skip: bool)
        ensures
            final(self).event == spec_skip(old(self).event, skip),
    {
        self.event.skip(skip);
    }
}

/// Data for keyboard events.
#[derive(Debug)]
pub struct KeyEventData {
    pub event: Event,
}

impl KeyEventData {
    pub fn new(event: Event) -> (r: KeyEventData)
        ensures
            r.event == event,
    {
        KeyEventData { event }
    }

    /// The key code, when the event carries one.
    pub fn get_key_code(&self) -> (r: Option<i32>)
        ensures
            r == spec_get_key_code(self.event),
    {
        self.event.get_key_code()
    }

    /// The unicode value of the key, when the event carries one.
    pub fn get_unicode_key(&self) -> (r: Option<i32>)
        ensures
            r == spec_get_unicode_key(self.event),
    {
        self.event.get_unicode_key()
    }

    /// Whether the control key was held during this key event.
    pub fn control_down(&self) -> (r: bool)
        ensures
            r == (self.event.valid && self.event.control),
    {
        self.event.control_down()
    }

    /// Whether the shift key was held during this key event.
    pub fn shift_down(&self) -> (r: bool)
        ensures
            r == (self.event.valid && self.event.shift),
    {
        self.event.shift_down()
    }

    /// Whether the alt key was held during this key event.
    pub fn alt_down(&self) -> (r: bool)
        ensures
            r == (self.event.valid && self.event.alt),
    {
        self.event.alt_down()
    }

    /// Whether the meta key was held during this key event.
    pub fn meta_down(&self) -> (r: bool)
        ensures
            r == (self.event.valid && self.event.meta),
    {
        self.event.meta_down()
    }

    /// Whether the platform command key was held during this key event.
    pub fn cmd_down(&self) -> (r: bool)
        ensures
            r == (self.event.valid && self.event.cmd),
    {
        self.event.cmd_down()
    }

    /// Sets whether the event keeps propagating after this handler.
    pub fn skip(&mut self, skip: bool)
        ensures
            final(self).event == spec_skip(old(self).event, skip),
    {
        self.event.skip(skip);
    }
}

} // verus!
