//! Translation of native input events into toolkit events.

use vstd::prelude::*;
use crate::keyboard;
use crate::keyboard::{KeyCode, ModifiersState, key_code_of, modifiers_of};
use crate::mouse;
use crate::mouse::{Button, button_of};
use crate::window;

verus! {

/// A user interface event.
#[derive(Clone, Copy, Debug, PartialEq, Eq, Hash, Structural)]
pub enum Event {
    /// A keyboard event.
    Keyboard(keyboard::Event),
    /// A mouse event.
    Mouse(mouse::Event),
    /// A window event.
    Window(window::Event),
}

/// A native input event, reduced to its type and to the integers that the
/// translation reads from an event of that type.
#[derive(Clone, Copy, Debug, PartialEq, Eq, Hash, Structural)]
pub enum NativeEvent {
    LeftMouseDown,
    LeftMouseUp,
    RightMouseDown,
    RightMouseUp,
    MouseMoved,
    LeftMouseDragged,
    RightMouseDragged,
    MouseEntered,
    MouseExited,
    KeyDown {
        /// The virtual key code of the key.
        key_code: u16,
        /// The modifier flags in effect.
        modifier_flags: u64,
    },
    KeyUp {
        /// The virtual key code of the key.
        key_code: u16,
        /// The modifier flags in effect.
        modifier_flags: u64,
    },
    FlagsChanged,
    AppKitDefined,
    SystemDefined,
    ApplicationDefined,
    Periodic,
    CursorUpdate,
    ScrollWheel,
    TabletPoint,
    TabletProximity,
    OtherMouseDown {
        /// The number of the button that went down.
        button_number: i64,
    },
    OtherMouseUp {
        /// The number of the button that came up.
        button_number: i64,
    },
    OtherMouseDragged,
    Gesture,
    Magnify,
    Swipe,
    Rotate,
    BeginGesture,
    EndGesture,
    Pressure,
}

/// The event for a key going down: a key press with the key that the code
/// stands for and the modifiers that the flags describe, or nothing if the
/// code stands for no key.
pub open spec fn key_pressed(key_code: u16, modifier_flags: u64) -> Option<Event> {
    match key_code_of(key_code) {
        Some(key) => Some(
            Event::Keyboard(
                keyboard::Event::KeyPressed {
                    key_code: key,
                    modifiers: modifiers_of(modifier_flags),
                },
            ),
        ),
        None => None,
    }
}

/// The event for a key coming up: as `key_pressed`, with a key release.
pub open spec fn key_released(key_code: u16, modifier_flags: u64) -> Option<Event> {
    match key_code_of(key_code) {
        Some(key) => Some(
            Event::Keyboard(
                keyboard::Event::KeyReleased {
                    key_code: key,
                    modifiers: modifiers_of(modifier_flags),
                },
            ),
        ),
        None => None,
    }
}

/// The toolkit event that a native event is translated to, or `None` where the
/// native event is dropped.
pub open spec fn translation(event: NativeEvent) -> Option<Event> {
    match event {
        NativeEvent::LeftMouseDown => Some(Event::Mouse(mouse::Event::ButtonPressed(Button::Left))),
        NativeEvent::LeftMouseUp => Some(Event::Mouse(mouse::Event::ButtonReleased(Button::Left))),
        NativeEvent::RightMouseDown => Some(
            Event::Mouse(mouse::Event::ButtonPressed(Button::Right)),
        ),
        NativeEvent::RightMouseUp => Some(
            Event::Mouse(mouse::Event::ButtonReleased(Button::Right)),
        ),
        NativeEvent::MouseMoved => Some(Event::Mouse(mouse::Event::CursorMoved)),
        NativeEvent::LeftMouseDragged => Some(Event::Mouse(mouse::Event::CursorMoved)),
        NativeEvent::MouseEntered => Some(Event::Mouse(mouse::Event::CursorEntered)),
        NativeEvent::MouseExited => Some(Event::Mouse(mouse::Event::CursorLeft)),
        NativeEvent::KeyDown { key_code, modifier_flags } => key_pressed(key_code, modifier_flags),
        NativeEvent::KeyUp { key_code, modifier_flags } => key_released(key_code, modifier_flags),
        NativeEvent::ScrollWheel => Some(Event::Mouse(mouse::Event::WheelScrolled)),
        NativeEvent::OtherMouseDown { button_number } => Some(
            Event::Mouse(mouse::Event::ButtonPressed(button_of(button_number))),
        ),
        NativeEvent::OtherMouseUp { button_number } => Some(
            Event::Mouse(mouse::Event::ButtonReleased(button_of(button_number))),
        ),
        _ => None,
    }
}

/// Whether a native event is of a type that the translation has no toolkit
/// event for.
pub open spec fn is_ignored_type(event: NativeEvent) -> bool {
    match event {
        NativeEvent::RightMouseDragged
        | NativeEvent::FlagsChanged
        | NativeEvent::AppKitDefined
        | NativeEvent::SystemDefined
        | NativeEvent::ApplicationDefined
        | NativeEvent::Periodic
        | NativeEvent::CursorUpdate
        | NativeEvent::TabletPoint
        | NativeEvent::TabletProximity
        | NativeEvent::OtherMouseDragged
        | NativeEvent::Gesture
        | NativeEvent::Magnify
        | NativeEvent::Swipe
        | NativeEvent::Rotate
        | NativeEvent::BeginGesture
        | NativeEvent::EndGesture
        | NativeEvent::Pressure => true,
        _ => false,
    }
}

/// A native event is dropped in two cases and no others: it is of an ignored
/// type, or it is a key event whose code stands for no key.
pub proof fn lemma_dropped_events(event: NativeEvent)
    ensures
        translation(event) is None <==> is_ignored_type(event) || match event {
            NativeEvent::KeyDown { key_code, .. } => key_code_of(key_code) is None,
            NativeEvent::KeyUp { key_code, .. } => key_code_of(key_code) is None,
            _ => false,
        },
{
}

/// Native input never translates to a window event, and a native key event
/// never to a mouse event, nor a native mouse event to a keyboard event.
pub proof fn lemma_translation_keeps_the_device(event: NativeEvent)
    ensures
        !(translation(event) matches Some(Event::Window(_))),
        translation(event) matches Some(Event::Keyboard(_)) ==> event is KeyDown || event is KeyUp,
        translation(event) matches Some(Event::Mouse(_)) ==> !(event is KeyDown || event is KeyUp),
{
}

/// The release of a key is translated exactly when its press is, and to the
/// same key with the same modifiers.
pub proof fn lemma_key_up_mirrors_key_down(key_code: u16, modifier_flags: u64)
    ensures
        key_released(key_code, modifier_flags) is Some <==> key_pressed(
            key_code,
            modifier_flags,
        ) is Some,
        key_pressed(key_code, modifier_flags) matches Some(
            Event::Keyboard(keyboard::Event::KeyPressed { key_code: key, modifiers }),
        ) ==> key_released(key_code, modifier_flags) == Some(
            Event::Keyboard(keyboard::Event::KeyReleased { key_code: key, modifiers }),
        ),
{
}

/// Translates a native key-down event.
pub fn from_key_down(key_code: u16, modifier_flags: u64) -> (event: Option<Event>)
    ensures
        event == key_pressed(key_code, modifier_flags),
{
    let modifiers = ModifiersState::from_flags(modifier_flags);
    match KeyCode::from_native(key_code) {
        Some(key) => Some(
            Event::Keyboard(keyboard::Event::KeyPressed { key_code: key, modifiers }),
        ),
        None => None,
    }
}

/// Translates a native key-up event.
pub fn from_key_up(key_code: u16, modifier_flags: u64) -> (event: Option<Event>)
    ensures
        event == key_released(key_code, modifier_flags),
{
    let modifiers = ModifiersState::from_flags(modifier_flags);
    match KeyCode::from_native(key_code) {
        Some(key) => Some(
            Event::Keyboard(keyboard::Event::KeyReleased { key_code: key, modifiers }),
        ),
        None => None,
    }
}

impl Event {
    /// Translates a native input event. Events of a type that the toolkit has
    /// no word for, and key events whose code names no known key, give `None`.
    pub fn from_native(event: NativeEvent) -> (translated: Option<Event>)
        ensures
            translated == translation(event),
    {
        match event {
            NativeEvent::LeftMouseDown => Some(
                Event::Mouse(mouse::Event::ButtonPressed(Button::Left)),
            ),
            NativeEvent::LeftMouseUp => Some(
                Event::Mouse(mouse::Event::ButtonReleased(Button::Left)),
            ),
            NativeEvent::RightMouseDown => Some(
                Event::Mouse(mouse::Event::ButtonPressed(Button::Right)),
            ),
            NativeEvent::RightMouseUp => Some(
                Event::Mouse(mouse::Event::ButtonReleased(Button::Right)),
            ),
            NativeEvent::MouseMoved => Some(Event::Mouse(mouse::Event::CursorMoved)),
            NativeEvent::LeftMouseDragged => Some(Event::Mouse(mouse::Event::CursorMoved)),
            NativeEvent::MouseEntered => Some(Event::Mouse(mouse::Event::CursorEntered)),
            NativeEvent::MouseExited => Some(Event::Mouse(mouse::Event::CursorLeft)),
            NativeEvent::KeyDown { key_code, modifier_flags } => from_key_down(
                key_code,
                modifier_flags,
            ),
            NativeEvent::KeyUp { key_code, modifier_flags } => from_key_up(
                key_code,
                modifier_flags,
            ),
            NativeEvent::ScrollWheel => Some(Event::Mouse(mouse::Event::WheelScrolled)),
            NativeEvent::OtherMouseDown { button_number } => Some(
                Event::Mouse(mouse::Event::ButtonPressed(Button::from_number(button_number))),
            ),
            NativeEvent::OtherMouseUp { button_number } => Some(
                Event::Mouse(mouse::Event::ButtonReleased(Button::from_number(button_number))),
            ),
            _ => None,
        }
    }
}

} // verus!
