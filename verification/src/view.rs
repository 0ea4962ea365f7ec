//! What the view does when the platform calls it back.
//!
//! The functions here decide; they do not act. Each returns the steps that
//! the embedding layer is to carry out, in order, on the native view, the GPU
//! surface and the toolkit program it holds.

use vstd::prelude::*;
use crate::event::{Event, NativeEvent, translation};
use crate::window;

verus! {

/// The size of the view, in physical pixels.
#[derive(Clone, Copy, Debug, PartialEq, Eq, Hash, Structural)]
pub struct Size {
    /// The width.
    pub width: u32,
    /// The height.
    pub height: u32,
}

/// One thing for the embedding layer to do.
#[derive(Clone, Copy, Debug, PartialEq, Eq, Hash, Structural)]
pub enum Step {
    /// Replace the viewport by one of this size, at the scale factor of the
    /// window that the view is in.
    SetViewport(Size),
    /// Replace the swap chain by one of this size.
    CreateSwapChain(Size),
    /// Append an event to those that the program has yet to process.
    QueueEvent(Event),
    /// Tell the platform that the view needs to be displayed again.
    SetNeedsDisplay,
    /// Let the program process its events, and draw a frame.
    Redraw,
}

/// The notification that tells the program of a new size.
pub open spec fn resized(size: Size) -> Event {
    Event::Window(window::Event::Resized { width: size.width, height: size.height })
}

/// The steps of a resize: a new viewport, a new swap chain, and one
/// notification to the program, all of the new size.
pub open spec fn resize_steps(size: Size) -> Seq<Step> {
    seq![Step::SetViewport(size), Step::CreateSwapChain(size), Step::QueueEvent(resized(size))]
}

/// The steps of a layer update: while the view is being resized, first those
/// of a resize to its present size; then, always, a redraw.
pub open spec fn update_layer_steps(live_resize: Option<Size>) -> Seq<Step> {
    match live_resize {
        Some(size) => resize_steps(size).push(Step::Redraw),
        None => seq![Step::Redraw],
    }
}

/// The steps for a native input event: where it translates to a toolkit
/// event, queue that and ask for display; where it does not, nothing.
pub open spec fn handle_event_steps(event: NativeEvent) -> Seq<Step> {
    match translation(event) {
        Some(translated) => seq![Step::QueueEvent(translated), Step::SetNeedsDisplay],
        None => Seq::empty(),
    }
}

/// Reacts to a change of the size of the view.
pub fn resize(size: Size) -> (steps: Vec<Step>)
    ensures
        steps@ == resize_steps(size),
{
    let notification = Event::Window(
        window::Event::Resized { width: size.width, height: size.height },
    );
    let mut steps = Vec::new();
    steps.push(Step::SetViewport(size));
    steps.push(Step::CreateSwapChain(size));
    steps.push(Step::QueueEvent(notification));
    steps
}

/// Reacts to the platform asking for the contents of the layer.
/// `live_resize` holds the size of the view if the user is resizing it at
/// this moment, and is `None` otherwise.
pub fn update_layer(live_resize: Option<Size>) -> (steps: Vec<Step>)
    ensures
        steps@ == update_layer_steps(live_resize),
{
    let mut steps = match live_resize {
        Some(size) => resize(size),
        None => Vec::new(),
    };
    steps.push(Step::Redraw);
    steps
}

/// Reacts to a native input event.
pub fn handle_event(event: NativeEvent) -> (steps: Vec<Step>)
    ensures
        steps@ == handle_event_steps(event),
{
    let mut steps = Vec::new();
    if let Some(translated) = Event::from_native(event) {
        steps.push(Step::QueueEvent(translated));
        steps.push(Step::SetNeedsDisplay);
    }
    steps
}

/// The events that a run of steps appends to the pending events of the
/// program, in order.
pub open spec fn queued_events(steps: Seq<Step>) -> Seq<Event>
    decreases steps.len(),
{
    if steps.len() == 0 {
        Seq::empty()
    } else {
        match steps.last() {
            Step::QueueEvent(event) => queued_events(steps.drop_last()).push(event),
            _ => queued_events(steps.drop_last()),
        }
    }
}

/// Appending a step appends the event it queues, if it queues one.
pub proof fn lemma_queued_events_push(steps: Seq<Step>, step: Step)
    ensures
        queued_events(steps.push(step)) == match step {
            Step::QueueEvent(event) => queued_events(steps).push(event),
            _ => queued_events(steps),
        },
{
    assert(steps.push(step).drop_last() == steps);
}

/// A resize tells the program of the new size once, and of nothing else.
pub proof fn lemma_resize_notifies_once(size: Size)
    ensures
        queued_events(resize_steps(size)) == seq![resized(size)],
{
    let none = Seq::<Step>::empty();
    let one = none.push(Step::SetViewport(size));
    let two = one.push(Step::CreateSwapChain(size));
    assert(resize_steps(size) == two.push(Step::QueueEvent(resized(size))));
    lemma_queued_events_push(none, Step::SetViewport(size));
    lemma_queued_events_push(one, Step::CreateSwapChain(size));
    lemma_queued_events_push(two, Step::QueueEvent(resized(size)));
}

/// A layer update tells the program of the size of the view once if the view
/// is being resized, and of nothing otherwise. Either way it ends in a
/// redraw, so that the frame drawn is one of the size told.
pub proof fn lemma_update_layer_notifies(live_resize: Option<Size>)
    ensures
        queued_events(update_layer_steps(live_resize)) == match live_resize {
            Some(size) => seq![resized(size)],
            None => Seq::empty(),
        },
        update_layer_steps(live_resize).last() == Step::Redraw,
{
    match live_resize {
        Some(size) => {
            lemma_resize_notifies_once(size);
            lemma_queued_events_push(resize_steps(size), Step::Redraw);
        },
        None => {
            assert(update_layer_steps(live_resize) == Seq::<Step>::empty().push(Step::Redraw));
            lemma_queued_events_push(Seq::empty(), Step::Redraw);
        },
    }
}

/// A native input event reaches the program as its translation, once, if it
/// has one, and not at all if it has none; and whenever an event is queued,
/// display is asked for after it.
pub proof fn lemma_handle_event_queues(event: NativeEvent)
    ensures
        queued_events(handle_event_steps(event)) == match translation(event) {
            Some(translated) => seq![translated],
            None => Seq::empty(),
        },
        translation(event) is Some ==> handle_event_steps(event).last() == Step::SetNeedsDisplay,
{
    if let Some(translated) = translation(event) {
        let none = Seq::<Step>::empty();
        let one = none.push(Step::QueueEvent(translated));
        assert(handle_event_steps(event) == one.push(Step::SetNeedsDisplay));
        lemma_queued_events_push(none, Step::QueueEvent(translated));
        lemma_queued_events_push(one, Step::SetNeedsDisplay);
    }
}

/// Tracking area option: tell the owner when the cursor enters and leaves.
pub const TRACKING_MOUSE_ENTERED_AND_EXITED: u64 = 0x01;

/// Tracking area option: tell the owner when the cursor moves inside.
pub const TRACKING_MOUSE_MOVED: u64 = 0x02;

/// Tracking area option: tell the owner when the cursor is to be updated.
pub const TRACKING_CURSOR_UPDATE: u64 = 0x04;

/// Tracking area option: the area is active while its window is the key
/// window.
pub const TRACKING_ACTIVE_IN_KEY_WINDOW: u64 = 0x20;

/// Layer autoresizing: the width of the layer follows that of its parent.
pub const LAYER_WIDTH_SIZABLE: u64 = 0x02;

/// Layer autoresizing: the height of the layer follows that of its parent.
pub const LAYER_HEIGHT_SIZABLE: u64 = 0x10;

/// The options of the tracking area that covers the view: cursor entry and
/// exit, cursor moves and cursor updates, while the window is the key window.
pub fn tracking_options() -> (options: u64)
    ensures
        options == TRACKING_MOUSE_ENTERED_AND_EXITED | TRACKING_MOUSE_MOVED
            | TRACKING_CURSOR_UPDATE | TRACKING_ACTIVE_IN_KEY_WINDOW,
        options == 0x27,
{
    let options: u64 = TRACKING_MOUSE_ENTERED_AND_EXITED | TRACKING_MOUSE_MOVED
        | TRACKING_CURSOR_UPDATE | TRACKING_ACTIVE_IN_KEY_WINDOW;
    assert(0x01u64 | 0x02u64 | 0x04u64 | 0x20u64 == 0x27u64) by (bit_vector);
    options
}

/// The autoresizing mask of the layer that the GPU surface draws to: the
/// layer follows the view in width and in height.
pub fn autoresizing_mask() -> (mask: u64)
    ensures
        mask == LAYER_WIDTH_SIZABLE | LAYER_HEIGHT_SIZABLE,
        mask == 0x12,
{
    let mask: u64 = LAYER_WIDTH_SIZABLE | LAYER_HEIGHT_SIZABLE;
    assert(0x02u64 | 0x10u64 == 0x12u64) by (bit_vector);
    mask
}

/// A message that the platform sends to the view and that the view class
/// answers with a method of its own.
#[derive(Clone, Copy, Debug, PartialEq, Eq, Hash, Structural)]
pub enum Callback {
    AcceptsFirstResponder,
    UpdateTrackingAreas,
    UpdateLayer,
    ViewWillStartLiveResize,
    ViewDidEndLiveResize,
    MouseDown,
    MouseUp,
    MouseDragged,
    MouseMoved,
    MouseEntered,
    MouseExited,
    RightMouseDown,
    RightMouseUp,
    ScrollWheel,
    KeyDown,
    KeyUp,
    FlagsChanged,
}

/// A method of the view class. Several callbacks may share one.
#[derive(Clone, Copy, Debug, PartialEq, Eq, Hash, Structural)]
pub enum Handler {
    /// Answers that the view takes keyboard focus.
    AcceptsFirstResponder,
    /// Covers the bounds of the view with a tracking area.
    UpdateTrackingAreas,
    /// Carries out `update_layer`.
    UpdateLayer,
    /// Carries out `resize`.
    Resize,
    /// Carries out `handle_event` on the native event it is given.
    HandleEvent,
}

/// The method that answers a callback.
pub open spec fn handler_of(callback: Callback) -> Handler {
    match callback {
        Callback::AcceptsFirstResponder => Handler::AcceptsFirstResponder,
        Callback::UpdateTrackingAreas => Handler::UpdateTrackingAreas,
        Callback::UpdateLayer => Handler::UpdateLayer,
        Callback::ViewWillStartLiveResize => Handler::Resize,
        Callback::ViewDidEndLiveResize => Handler::Resize,
        Callback::MouseDown => Handler::HandleEvent,
        Callback::MouseUp => Handler::HandleEvent,
        Callback::MouseDragged => Handler::HandleEvent,
        Callback::MouseMoved => Handler::HandleEvent,
        Callback::MouseEntered => Handler::HandleEvent,
        Callback::MouseExited => Handler::HandleEvent,
        Callback::RightMouseDown => Handler::HandleEvent,
        Callback::RightMouseUp => Handler::HandleEvent,
        Callback::ScrollWheel => Handler::HandleEvent,
        Callback::KeyDown => Handler::HandleEvent,
        Callback::KeyUp => Handler::HandleEvent,
        Callback::FlagsChanged => Handler::HandleEvent,
    }
}

/// The name of the selector of a callback.
pub open spec fn selector_of(callback: Callback) -> Seq<char> {
    match callback {
        Callback::AcceptsFirstResponder => "acceptsFirstResponder"@,
        Callback::UpdateTrackingAreas => "updateTrackingAreas"@,
        Callback::UpdateLayer => "updateLayer"@,
        Callback::ViewWillStartLiveResize => "viewWillStartLiveResize"@,
        Callback::ViewDidEndLiveResize => "viewDidEndLiveResize"@,
        Callback::MouseDown => "mouseDown:"@,
        Callback::MouseUp => "mouseUp:"@,
        Callback::MouseDragged => "mouseDragged:"@,
        Callback::MouseMoved => "mouseMoved:"@,
        Callback::MouseEntered => "mouseEntered:"@,
        Callback::MouseExited => "mouseExited:"@,
        Callback::RightMouseDown => "rightMouseDown:"@,
        Callback::RightMouseUp => "rightMouseUp:"@,
        Callback::ScrollWheel => "scrollWheel:"@,
        Callback::KeyDown => "keyDown:"@,
        Callback::KeyUp => "keyUp:"@,
        Callback::FlagsChanged => "flagsChanged:"@,
    }
}

/// Every callback that the view class answers, in the order in which its
/// methods are added to the class.
pub open spec fn callbacks() -> Seq<Callback> {
    seq![
        Callback::AcceptsFirstResponder,
        Callback::UpdateTrackingAreas,
        Callback::UpdateLayer,
        Callback::ViewWillStartLiveResize,
        Callback::ViewDidEndLiveResize,
        Callback::MouseDown,
        Callback::MouseUp,
        Callback::MouseDragged,
        Callback::MouseMoved,
        Callback::MouseEntered,
        Callback::MouseExited,
        Callback::RightMouseDown,
        Callback::RightMouseUp,
        Callback::ScrollWheel,
        Callback::KeyDown,
        Callback::KeyUp,
        Callback::FlagsChanged,
    ]
}

/// How many arguments a method takes after the receiver and the selector.
pub open spec fn argument_count(handler: Handler) -> nat {
    match handler {
        Handler::HandleEvent => 1,
        _ => 0,
    }
}

impl Handler {
    /// How many arguments this method takes after the receiver and the
    /// selector.
    pub fn argument_count(self) -> (count: usize)
        ensures
            count == argument_count(self),
    {
        match self {
            Handler::HandleEvent => 1,
            _ => 0,
        }
    }
}

impl Callback {
    /// The method that answers this callback.
    pub fn handler(self) -> (handler: Handler)
        ensures
            handler == handler_of(self),
    {
        match self {
            Callback::AcceptsFirstResponder => Handler::AcceptsFirstResponder,
            Callback::UpdateTrackingAreas => Handler::UpdateTrackingAreas,
            Callback::UpdateLayer => Handler::UpdateLayer,
            Callback::ViewWillStartLiveResize => Handler::Resize,
            Callback::ViewDidEndLiveResize => Handler::Resize,
            Callback::MouseDown => Handler::HandleEvent,
            Callback::MouseUp => Handler::HandleEvent,
            Callback::MouseDragged => Handler::HandleEvent,
            Callback::MouseMoved => Handler::HandleEvent,
            Callback::MouseEntered => Handler::HandleEvent,
            Callback::MouseExited => Handler::HandleEvent,
            Callback::RightMouseDown => Handler::HandleEvent,
            Callback::RightMouseUp => Handler::HandleEvent,
            Callback::ScrollWheel => Handler::HandleEvent,
            Callback::KeyDown => Handler::HandleEvent,
            Callback::KeyUp => Handler::HandleEvent,
            Callback::FlagsChanged => Handler::HandleEvent,
        }
    }

    /// The name of the selector of this callback.
    pub fn selector(self) -> (name: &'static str)
        ensures
            name@ == selector_of(self),
    {
        match self {
            Callback::AcceptsFirstResponder => "acceptsFirstResponder",
            Callback::UpdateTrackingAreas => "updateTrackingAreas",
            Callback::UpdateLayer => "updateLayer",
            Callback::ViewWillStartLiveResize => "viewWillStartLiveResize",
            Callback::ViewDidEndLiveResize => "viewDidEndLiveResize",
            Callback::MouseDown => "mouseDown:",
            Callback::MouseUp => "mouseUp:",
            Callback::MouseDragged => "mouseDragged:",
            Callback::MouseMoved => "mouseMoved:",
            Callback::MouseEntered => "mouseEntered:",
            Callback::MouseExited => "mouseExited:",
            Callback::RightMouseDown => "rightMouseDown:",
            Callback::RightMouseUp => "rightMouseUp:",
            Callback::ScrollWheel => "scrollWheel:",
            Callback::KeyDown => "keyDown:",
            Callback::KeyUp => "keyUp:",
            Callback::FlagsChanged => "flagsChanged:",
        }
    }

    /// Every callback that the view class answers, in the order in which its
    /// methods are to be added to the class.
    pub fn all() -> (all: Vec<Callback>)
        ensures
            all@ == callbacks(),
    {
        vec![
            Callback::AcceptsFirstResponder,
            Callback::UpdateTrackingAreas,
            Callback::UpdateLayer,
            Callback::ViewWillStartLiveResize,
            Callback::ViewDidEndLiveResize,
            Callback::MouseDown,
            Callback::MouseUp,
            Callback::MouseDragged,
            Callback::MouseMoved,
            Callback::MouseEntered,
            Callback::MouseExited,
            Callback::RightMouseDown,
            Callback::RightMouseUp,
            Callback::ScrollWheel,
            Callback::KeyDown,
            Callback::KeyUp,
            Callback::FlagsChanged,
        ]
    }
}

/// The number of colons in the name of a selector: the number of arguments
/// that the Objective-C runtime expects of a method added under that name.
pub open spec fn colons(name: Seq<char>) -> nat
    decreases name.len(),
{
    if name.len() == 0 {
        0
    } else if name.last() == ':' {
        colons(name.drop_last()) + 1
    } else {
        colons(name.drop_last())
    }
}

/// The selector of each callback has as many colons as the method that
/// answers it takes arguments, so the runtime accepts the method under that
/// name.
pub proof fn lemma_selector_arity(callback: Callback)
    ensures
        colons(selector_of(callback)) == argument_count(handler_of(callback)),
{
    reveal_with_fuel(colons, 24);
    match callback {
        Callback::AcceptsFirstResponder => {
            reveal_strlit("acceptsFirstResponder");
        },
        Callback::UpdateTrackingAreas => {
            reveal_strlit("updateTrackingAreas");
        },
        Callback::UpdateLayer => {
            reveal_strlit("updateLayer");
        },
        Callback::ViewWillStartLiveResize => {
            reveal_strlit("viewWillStartLiveResize");
        },
        Callback::ViewDidEndLiveResize => {
            reveal_strlit("viewDidEndLiveResize");
        },
        Callback::MouseDown => {
            reveal_strlit("mouseDown:");
        },
        Callback::MouseUp => {
            reveal_strlit("mouseUp:");
        },
        Callback::MouseDragged => {
            reveal_strlit("mouseDragged:");
        },
        Callback::MouseMoved => {
            reveal_strlit("mouseMoved:");
        },
        Callback::MouseEntered => {
            reveal_strlit("mouseEntered:");
        },
        Callback::MouseExited => {
            reveal_strlit("mouseExited:");
        },
        Callback::RightMouseDown => {
            reveal_strlit("rightMouseDown:");
        },
        Callback::RightMouseUp => {
            reveal_strlit("rightMouseUp:");
        },
        Callback::ScrollWheel => {
            reveal_strlit("scrollWheel:");
        },
        Callback::KeyDown => {
            reveal_strlit("keyDown:");
        },
        Callback::KeyUp => {
            reveal_strlit("keyUp:");
        },
        Callback::FlagsChanged => {
            reveal_strlit("flagsChanged:");
        },
    }
}

/// No selector name holds a NUL character, so each can be passed to the
/// runtime as a C string.
pub proof fn lemma_selector_has_no_nul(callback: Callback, i: int)
    requires
        0 <= i < selector_of(callback).len(),
    ensures
        selector_of(callback)[i] != '\0',
{
    reveal_strlit("acceptsFirstResponder");
    reveal_strlit("updateTrackingAreas");
    reveal_strlit("updateLayer");
    reveal_strlit("viewWillStartLiveResize");
    reveal_strlit("viewDidEndLiveResize");
    reveal_strlit("mouseDown:");
    reveal_strlit("mouseUp:");
    reveal_strlit("mouseDragged:");
    reveal_strlit("mouseMoved:");
    reveal_strlit("mouseEntered:");
    reveal_strlit("mouseExited:");
    reveal_strlit("rightMouseDown:");
    reveal_strlit("rightMouseUp:");
    reveal_strlit("scrollWheel:");
    reveal_strlit("keyDown:");
    reveal_strlit("keyUp:");
    reveal_strlit("flagsChanged:");
}

/// Two different callbacks have different selectors, so no method is added to
/// the class twice.
pub proof fn lemma_selectors_distinct(a: Callback, b: Callback)
    requires
        a != b,
    ensures
        selector_of(a) != selector_of(b),
{
    reveal_strlit("acceptsFirstResponder");
    reveal_strlit("updateTrackingAreas");
    reveal_strlit("updateLayer");
    reveal_strlit("viewWillStartLiveResize");
    reveal_strlit("viewDidEndLiveResize");
    reveal_strlit("mouseDown:");
    reveal_strlit("mouseUp:");
    reveal_strlit("mouseDragged:");
    reveal_strlit("mouseMoved:");
    reveal_strlit("mouseEntered:");
    reveal_strlit("mouseExited:");
    reveal_strlit("rightMouseDown:");
    reveal_strlit("rightMouseUp:");
    reveal_strlit("scrollWheel:");
    reveal_strlit("keyDown:");
    reveal_strlit("keyUp:");
    reveal_strlit("flagsChanged:");
    // The length and the sixth character together tell the names apart.
    assert(selector_of(a).len() != selector_of(b).len() || selector_of(a)[5] != selector_of(b)[5]);
}

/// The list of callbacks names every callback, and none twice.
pub proof fn lemma_callbacks_complete(callback: Callback)
    ensures
        callbacks().contains(callback),
        callbacks().no_duplicates(),
{
}

} // verus!
