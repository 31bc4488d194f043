//! A safe, verified model of the event layer of a GUI binding: a closed
//! registry of event kinds with bit-set filters, a record type standing for a
//! native event with fail-soft typed accessors, per-widget event data
//! wrappers, and a registration/dispatch/teardown bridge that decides, for
//! each native dispatch, which registered callback is to run.
//!
//! The native toolkit itself (widget creation, the event loop, the foreign
//! callback mechanism) stays outside: a host drives the bridge by handing it
//! plain values and invoking the callbacks it names.

pub mod bridge;
pub mod decimal;
pub mod dnd;
pub mod event;
pub mod event_data;
pub mod event_type;
pub mod idle;
pub mod menu_events;
pub mod sysopt;
pub mod treelist;
