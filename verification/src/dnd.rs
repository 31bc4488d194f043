//! The result of a drag and drop operation, with its stable native codes.

use vstd::prelude::*;

verus! {

/// What came of a drag and drop operation.
#[derive(Clone, Copy, Debug, PartialEq, Eq, Structural)]
pub enum DragResult {
    /// No effect: the target did not accept the data.
    NoEffect,
    /// The data was copied.
    Copy,
    /// The data was moved: ownership went over.
    Move,
    /// A link to the data was made.
    Link,
    /// The user cancelled the drag.
    Cancel,
    /// The drag went wrong.
    Error,
}

/// The result a native result code stands for; an unknown code reads as an
/// error.
pub open spec fn drag_result_of_code(code: i32) -> DragResult {
    if code == 0 {
        DragResult::NoEffect
    } else if code == 1 {
        DragResult::Copy
    } else if code == 2 {
        DragResult::Move
    } else if code == 3 {
        DragResult::Link
    } else if code == 4 {
        DragResult::Cancel
    } else {
        DragResult::Error
    }
}

/// The native code of a drag result.
pub open spec fn drag_result_code(r: DragResult) -> i32 {
    match r {
        DragResult::NoEffect => 0,
        DragResult::Copy => 1,
        DragResult::Move => 2,
        DragResult::Link => 3,
        DragResult::Cancel => 4,
        DragResult::Error => 5,
    }
}

impl DragResult {
    /// Reads a native result code; an unknown code reads as an error.
    pub fn from_code(code: i32) -> (r: DragResult)
        ensures
            r == drag_result_of_code(code),
    {
        if code == 0 {
            DragResult::NoEffect
        } else if code == 1 {
            DragResult::Copy
        } else if code == 2 {
            DragResult::Move
        } else if code == 3 {
            DragResult::Link
        } else if code == 4 {
            DragResult::Cancel
        } else {
            DragResult::Error
        }
    }

    /// The native code of this result.
    pub fn code(self) -> (r: i32)
        ensures
            r == drag_result_code(self),
    {
        match self {
            DragResult::NoEffect => 0,
            DragResult::Copy => 1,
            DragResult::Move => 2,
            DragResult::Link => 3,
            DragResult::Cancel => 4,
            DragResult::Error => 5,
        }
    }

    /// The result's name.
    pub fn name(self) -> (r: &'static str)
        ensures
            r@ == spec_drag_result_name(self),
    {
        match self {
            DragResult::NoEffect => "None",
            DragResult::Copy => "Copy",
            DragResult::Move => "Move",
            DragResult::Link => "Link",
            DragResult::Cancel => "Cancel",
            DragResult::Error => "Error",
        }
    }
}

/// The name of a drag result.
pub open spec fn spec_drag_result_name(r: DragResult) -> Seq<char> {
    match r {
        DragResult::NoEffect => "None"@,
        DragResult::Copy => "Copy"@,
        DragResult::Move => "Move"@,
        DragResult::Link => "Link"@,
        DragResult::Cancel => "Cancel"@,
        DragResult::Error => "Error"@,
    }
}

/// A result's code reads back as that result.
pub proof fn lemma_drag_result_round_trip(r: DragResult)
    ensures
        drag_result_of_code(drag_result_code(r)) == r,
{
}

} // verus!
