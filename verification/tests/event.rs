use iced_nsview::event::{from_key_down, from_key_up, Event, NativeEvent};
use iced_nsview::keyboard;
use iced_nsview::keyboard::{KeyCode, ModifiersState};
use iced_nsview::mouse;
use iced_nsview::mouse::Button;

fn mouse_event(event: mouse::Event) -> Option<Event> {
    Some(Event::Mouse(event))
}

fn no_modifiers() -> ModifiersState {
    ModifiersState { shift: false, control: false, alt: false, logo: false }
}

fn ignored_events() -> Vec<NativeEvent> {
    vec![
        NativeEvent::RightMouseDragged,
        NativeEvent::FlagsChanged,
        NativeEvent::AppKitDefined,
        NativeEvent::SystemDefined,
        NativeEvent::ApplicationDefined,
        NativeEvent::Periodic,
        NativeEvent::CursorUpdate,
        NativeEvent::TabletPoint,
        NativeEvent::TabletProximity,
        NativeEvent::OtherMouseDragged,
        NativeEvent::Gesture,
        NativeEvent::Magnify,
        NativeEvent::Swipe,
        NativeEvent::Rotate,
        NativeEvent::BeginGesture,
        NativeEvent::EndGesture,
        NativeEvent::Pressure,
    ]
}

#[test]
fn left_button_down_and_up() {
    assert_eq!(
        Event::from_native(NativeEvent::LeftMouseDown),
        mouse_event(mouse::Event::ButtonPressed(Button::Left))
    );
    assert_eq!(
        Event::from_native(NativeEvent::LeftMouseUp),
        mouse_event(mouse::Event::ButtonReleased(Button::Left))
    );
}

#[test]
fn right_button_down_and_up() {
    assert_eq!(
        Event::from_native(NativeEvent::RightMouseDown),
        mouse_event(mouse::Event::ButtonPressed(Button::Right))
    );
    assert_eq!(
        Event::from_native(NativeEvent::RightMouseUp),
        mouse_event(mouse::Event::ButtonReleased(Button::Right))
    );
}

#[test]
fn moving_and_dragging_move_the_cursor() {
    assert_eq!(
        Event::from_native(NativeEvent::MouseMoved),
        mouse_event(mouse::Event::CursorMoved)
    );
    assert_eq!(
        Event::from_native(NativeEvent::LeftMouseDragged),
        mouse_event(mouse::Event::CursorMoved)
    );
}

#[test]
fn entering_and_leaving() {
    assert_eq!(
        Event::from_native(NativeEvent::MouseEntered),
        mouse_event(mouse::Event::CursorEntered)
    );
    assert_eq!(
        Event::from_native(NativeEvent::MouseExited),
        mouse_event(mouse::Event::CursorLeft)
    );
}

#[test]
fn scrolling() {
    assert_eq!(
        Event::from_native(NativeEvent::ScrollWheel),
        mouse_event(mouse::Event::WheelScrolled)
    );
}

#[test]
fn other_buttons_down_and_up() {
    assert_eq!(
        Event::from_native(NativeEvent::OtherMouseDown { button_number: 2 }),
        mouse_event(mouse::Event::ButtonPressed(Button::Middle))
    );
    assert_eq!(
        Event::from_native(NativeEvent::OtherMouseUp { button_number: 2 }),
        mouse_event(mouse::Event::ButtonReleased(Button::Middle))
    );
    assert_eq!(
        Event::from_native(NativeEvent::OtherMouseDown { button_number: 3 }),
        mouse_event(mouse::Event::ButtonPressed(Button::Other(3)))
    );
    assert_eq!(
        Event::from_native(NativeEvent::OtherMouseUp { button_number: 4 }),
        mouse_event(mouse::Event::ButtonReleased(Button::Other(4)))
    );
    assert_eq!(
        Event::from_native(NativeEvent::OtherMouseDown { button_number: 258 }),
        mouse_event(mouse::Event::ButtonPressed(Button::Other(2)))
    );
    assert_eq!(
        Event::from_native(NativeEvent::OtherMouseUp { button_number: -1 }),
        mouse_event(mouse::Event::ButtonReleased(Button::Other(255)))
    );
}

#[test]
fn key_down_with_modifiers() {
    let expected = Event::Keyboard(keyboard::Event::KeyPressed {
        key_code: KeyCode::Q,
        modifiers: ModifiersState { shift: false, control: false, alt: false, logo: true },
    });
    assert_eq!(from_key_down(12, 1 << 20), Some(expected));
    assert_eq!(
        Event::from_native(NativeEvent::KeyDown { key_code: 12, modifier_flags: 1 << 20 }),
        Some(expected)
    );
}

#[test]
fn key_up_with_modifiers() {
    let expected = Event::Keyboard(keyboard::Event::KeyReleased {
        key_code: KeyCode::Tab,
        modifiers: ModifiersState { shift: true, control: true, alt: false, logo: false },
    });
    assert_eq!(from_key_up(48, (1 << 17) | (1 << 18)), Some(expected));
    assert_eq!(
        Event::from_native(NativeEvent::KeyUp { key_code: 48, modifier_flags: (1 << 17) | (1 << 18) }),
        Some(expected)
    );
}

#[test]
fn key_down_and_key_up_differ_only_in_kind() {
    for code in 0u16..200 {
        for flags in [0u64, 1 << 17, 1 << 19, 0x1e_0000, u64::MAX] {
            match (from_key_down(code, flags), from_key_up(code, flags)) {
                (None, None) => {}
                (
                    Some(Event::Keyboard(keyboard::Event::KeyPressed { key_code: down, modifiers: held })),
                    Some(Event::Keyboard(keyboard::Event::KeyReleased { key_code: up, modifiers: still })),
                ) => {
                    assert_eq!(down, up);
                    assert_eq!(held, still);
                    assert_eq!(Some(down), KeyCode::from_native(code));
                    assert_eq!(held, ModifiersState::from_flags(flags));
                }
                other => panic!("code {} flags {:#x}: {:?}", code, flags, other),
            }
        }
    }
}

#[test]
fn unknown_keys_are_dropped() {
    assert_eq!(from_key_down(10, 0), None);
    assert_eq!(from_key_up(10, 0), None);
    assert_eq!(from_key_down(63, 1 << 23), None);
    assert_eq!(from_key_up(127, u64::MAX), None);
    assert_eq!(from_key_down(u16::MAX, 0), None);
    assert_eq!(Event::from_native(NativeEvent::KeyDown { key_code: 71, modifier_flags: 0 }), None);
    assert_eq!(Event::from_native(NativeEvent::KeyUp { key_code: 52, modifier_flags: 1 << 17 }), None);
}

#[test]
fn a_plain_key_press() {
    assert_eq!(
        from_key_down(0, 0),
        Some(Event::Keyboard(keyboard::Event::KeyPressed {
            key_code: KeyCode::A,
            modifiers: no_modifiers(),
        }))
    );
    assert_eq!(
        from_key_up(0, 0),
        Some(Event::Keyboard(keyboard::Event::KeyReleased {
            key_code: KeyCode::A,
            modifiers: no_modifiers(),
        }))
    );
}

#[test]
fn events_without_a_toolkit_counterpart_are_dropped() {
    for event in ignored_events() {
        assert_eq!(Event::from_native(event), None, "{:?}", event);
    }
}

#[test]
fn native_input_never_gives_a_window_event() {
    let mut events = ignored_events();
    events.extend([
        NativeEvent::LeftMouseDown,
        NativeEvent::LeftMouseUp,
        NativeEvent::RightMouseDown,
        NativeEvent::RightMouseUp,
        NativeEvent::MouseMoved,
        NativeEvent::LeftMouseDragged,
        NativeEvent::MouseEntered,
        NativeEvent::MouseExited,
        NativeEvent::ScrollWheel,
        NativeEvent::KeyDown { key_code: 36, modifier_flags: 0 },
        NativeEvent::KeyUp { key_code: 36, modifier_flags: 0 },
        NativeEvent::OtherMouseDown { button_number: 2 },
        NativeEvent::OtherMouseUp { button_number: 5 },
    ]);
    for event in events {
        assert!(!matches!(Event::from_native(event), Some(Event::Window(_))), "{:?}", event);
    }
}

#[test]
fn event_translation_is_repeatable() {
    let events = [
        NativeEvent::LeftMouseDown,
        NativeEvent::ScrollWheel,
        NativeEvent::FlagsChanged,
        NativeEvent::KeyDown { key_code: 49, modifier_flags: 1 << 18 },
        NativeEvent::KeyUp { key_code: 200, modifier_flags: 0 },
        NativeEvent::OtherMouseDown { button_number: 7 },
    ];
    for event in events {
        assert_eq!(Event::from_native(event), Event::from_native(event));
    }
}
