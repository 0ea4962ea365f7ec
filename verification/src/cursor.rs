//! The mouse cursor that the view shows.

use vstd::prelude::*;
use crate::mouse::Interaction;
use crate::view::colons;

verus! {

/// A system cursor.
#[derive(Clone, Copy, Debug, PartialEq, Eq, Hash, Structural)]
pub enum Cursor {
    Arrow,
    PointingHand,
    OpenHand,
    IBeam,
    Crosshair,
    ClosedHand,
    ResizeLeftRight,
    ResizeUpDown,
}

/// The system cursor that shows an interaction. The system has no busy cursor
/// to offer, so `Working` shows the arrow, as `Idle` does.
pub open spec fn cursor_of(interaction: Interaction) -> Cursor {
    match interaction {
        Interaction::Idle => Cursor::Arrow,
        Interaction::Pointer => Cursor::PointingHand,
        Interaction::Grab => Cursor::OpenHand,
        Interaction::Text => Cursor::IBeam,
        Interaction::Crosshair => Cursor::Crosshair,
        Interaction::Working => Cursor::Arrow,
        Interaction::Grabbing => Cursor::ClosedHand,
        Interaction::ResizingHorizontally => Cursor::ResizeLeftRight,
        Interaction::ResizingVertically => Cursor::ResizeUpDown,
    }
}

/// The name of the `NSCursor` class method that returns a cursor.
pub open spec fn cursor_selector(cursor: Cursor) -> Seq<char> {
    match cursor {
        Cursor::Arrow => "arrowCursor"@,
        Cursor::PointingHand => "pointingHandCursor"@,
        Cursor::OpenHand => "openHandCursor"@,
        Cursor::IBeam => "IBeamCursor"@,
        Cursor::Crosshair => "crosshairCursor"@,
        Cursor::ClosedHand => "closedHandCursor"@,
        Cursor::ResizeLeftRight => "resizeLeftRightCursor"@,
        Cursor::ResizeUpDown => "resizeUpDownCursor"@,
    }
}

impl Cursor {
    /// Chooses the cursor to show for the interaction that the last frame
    /// reported.
    pub fn for_interaction(interaction: Interaction) -> (cursor: Cursor)
        ensures
            cursor == cursor_of(interaction),
    {
        match interaction {
            Interaction::Idle => Cursor::Arrow,
            Interaction::Pointer => Cursor::PointingHand,
            Interaction::Grab => Cursor::OpenHand,
            Interaction::Text => Cursor::IBeam,
            Interaction::Crosshair => Cursor::Crosshair,
            Interaction::Working => Cursor::Arrow,
            Interaction::Grabbing => Cursor::ClosedHand,
            Interaction::ResizingHorizontally => Cursor::ResizeLeftRight,
            Interaction::ResizingVertically => Cursor::ResizeUpDown,
        }
    }

    /// The name of the `NSCursor` class method that returns this cursor.
    pub fn selector(self) -> (name: &'static str)
        ensures
            name@ == cursor_selector(self),
    {
        match self {
            Cursor::Arrow => "arrowCursor",
            Cursor::PointingHand => "pointingHandCursor",
            Cursor::OpenHand => "openHandCursor",
            Cursor::IBeam => "IBeamCursor",
            Cursor::Crosshair => "crosshairCursor",
            Cursor::ClosedHand => "closedHandCursor",
            Cursor::ResizeLeftRight => "resizeLeftRightCursor",
            Cursor::ResizeUpDown => "resizeUpDownCursor",
        }
    }
}

/// The selector of a cursor takes no argument and holds no NUL character, so
/// it can be sent to the class as it is.
pub proof fn lemma_cursor_selector_is_plain(cursor: Cursor, i: int)
    requires
        0 <= i < cursor_selector(cursor).len(),
    ensures
        colons(cursor_selector(cursor)) == 0,
        cursor_selector(cursor)[i] != '\0',
{
    reveal_with_fuel(colons, 22);
    match cursor {
        Cursor::Arrow => {
            reveal_strlit("arrowCursor");
        },
        Cursor::PointingHand => {
            reveal_strlit("pointingHandCursor");
        },
        Cursor::OpenHand => {
            reveal_strlit("openHandCursor");
        },
        Cursor::IBeam => {
            reveal_strlit("IBeamCursor");
        },
        Cursor::Crosshair => {
            reveal_strlit("crosshairCursor");
        },
        Cursor::ClosedHand => {
            reveal_strlit("closedHandCursor");
        },
        Cursor::ResizeLeftRight => {
            reveal_strlit("resizeLeftRightCursor");
        },
        Cursor::ResizeUpDown => {
            reveal_strlit("resizeUpDownCursor");
        },
    }
}

/// Every interaction but `Working` has a cursor of its own.
pub proof fn lemma_cursors_differ(a: Interaction, b: Interaction)
    requires
        a != b,
        cursor_of(a) == cursor_of(b),
    ensures
        (a == Interaction::Idle && b == Interaction::Working) || (a == Interaction::Working && b
            == Interaction::Idle),
{
}

} // verus!
