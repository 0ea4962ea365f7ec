//! Mouse input: buttons, mouse events and cursor interactions.

use vstd::prelude::*;

verus! {

/// The button of a mouse.
#[derive(Clone, Copy, Debug, PartialEq, Eq, Hash, Structural)]
pub enum Button {
    /// The left mouse button.
    Left,
    /// The right mouse button.
    Right,
    /// The middle (wheel) button.
    Middle,
    /// Some other button.
    Other(u8),
}

/// The button that a native button number names when it comes with an
/// "other mouse button" event: number 2 is the middle button, and every other
/// number is kept as its low eight bits.
pub open spec fn button_of(number: i64) -> Button {
    if number == 2 {
        Button::Middle
    } else {
        Button::Other((number as int % 256) as u8)
    }
}

impl Button {
    /// Translates the button number of a native "other mouse button" event.
    pub fn from_number(number: i64) -> (button: Button)
        ensures
            button == button_of(number),
    {
        match number {
            2 => Button::Middle,
            value => {
                let low: u8 = #[verifier::truncate] (value as u8);
                assert(value as u8 == (value as int % 256) as u8) by (bit_vector);
                Button::Other(low)
            },
        }
    }
}

/// A button number that fits in a byte, other than 2, is kept as it is.
pub proof fn lemma_small_button_numbers_kept(number: i64)
    requires
        0 <= number < 256,
        number != 2,
    ensures
        button_of(number) == Button::Other(number as u8),
{
}

/// Only the low eight bits of a button number count, but for number 2.
pub proof fn lemma_button_numbers_wrap(number: i64, turns: int)
    requires
        number != 2,
        number + 256 * turns != 2,
        i64::MIN <= number + 256 * turns <= i64::MAX,
    ensures
        button_of((number + 256 * turns) as i64) == button_of(number),
{
    assert((number + 256 * turns) % 256 == number as int % 256) by (nonlinear_arith);
}

/// A mouse event.
///
/// The cursor position of `CursorMoved` and the scroll distance of
/// `WheelScrolled` are fractional quantities. They do not pass through here:
/// whoever reads the native event attaches them when it hands the event on.
#[derive(Clone, Copy, Debug, PartialEq, Eq, Hash, Structural)]
pub enum Event {
    /// The mouse cursor entered the view.
    CursorEntered,
    /// The mouse cursor left the view.
    CursorLeft,
    /// The mouse cursor was moved.
    CursorMoved,
    /// A mouse button was pressed.
    ButtonPressed(Button),
    /// A mouse button was released.
    ButtonReleased(Button),
    /// The mouse wheel was scrolled, by a distance measured in pixels.
    WheelScrolled,
}

/// The interaction of a mouse cursor, as the toolkit reports it after drawing.
#[derive(Clone, Copy, Debug, PartialEq, Eq, Hash, Structural)]
pub enum Interaction {
    Idle,
    Pointer,
    Grab,
    Text,
    Crosshair,
    Working,
    Grabbing,
    ResizingHorizontally,
    ResizingVertically,
}

} // verus!
