//! Case-by-case translations between the window's and the engine's
//! vocabularies.
use vstd::prelude::*;

use crate::engine::{self, Cursor, ScrollDelta, TouchEventType};
use crate::window::{self, Axis, ControlFlow, CursorIcon, TouchPhase, WheelDelta, WindowInput};

verus! {

/// The window icon shown for an engine cursor. Every cursor has an icon of
/// the same name, but for the hidden cursor, which shows the default icon.
pub open spec fn cursor_icon_of(c: Cursor) -> CursorIcon {
    match c {
        Cursor::Hidden => CursorIcon::Default,
        Cursor::Default => CursorIcon::Default,
        Cursor::Pointer => CursorIcon::Pointer,
        Cursor::ContextMenu => CursorIcon::ContextMenu,
        Cursor::Help => CursorIcon::Help,
        Cursor::Progress => CursorIcon::Progress,
        Cursor::Wait => CursorIcon::Wait,
        Cursor::Cell => CursorIcon::Cell,
        Cursor::Crosshair => CursorIcon::Crosshair,
        Cursor::Text => CursorIcon::Text,
        Cursor::VerticalText => CursorIcon::VerticalText,
        Cursor::Alias => CursorIcon::Alias,
        Cursor::Copy => CursorIcon::Copy,
        Cursor::Move => CursorIcon::Move,
        Cursor::NoDrop => CursorIcon::NoDrop,
        Cursor::NotAllowed => CursorIcon::NotAllowed,
        Cursor::Grab => CursorIcon::Grab,
        Cursor::Grabbing => CursorIcon::Grabbing,
        Cursor::EResize => CursorIcon::EResize,
        Cursor::NResize => CursorIcon::NResize,
        Cursor::NeResize => CursorIcon::NeResize,
        Cursor::NwResize => CursorIcon::NwResize,
        Cursor::SResize => CursorIcon::SResize,
        Cursor::SeResize => CursorIcon::SeResize,
        Cursor::SwResize => CursorIcon::SwResize,
        Cursor::WResize => CursorIcon::WResize,
        Cursor::EwResize => CursorIcon::EwResize,
        Cursor::NsResize => CursorIcon::NsResize,
        Cursor::NeswResize => CursorIcon::NeswResize,
        Cursor::NwseResize => CursorIcon::NwseResize,
        Cursor::ColResize => CursorIcon::ColResize,
        Cursor::RowResize => CursorIcon::RowResize,
        Cursor::AllScroll => CursorIcon::AllScroll,
        Cursor::ZoomIn => CursorIcon::ZoomIn,
        Cursor::ZoomOut => CursorIcon::ZoomOut,
    }
}

/// Picks the window icon for an engine cursor.
pub fn cursor_icon(c: Cursor) -> (r: CursorIcon)
    ensures
        r == cursor_icon_of(c),
{
    match c {
        Cursor::Hidden => CursorIcon::Default,
        Cursor::Default => CursorIcon::Default,
        Cursor::Pointer => CursorIcon::Pointer,
        Cursor::ContextMenu => CursorIcon::ContextMenu,
        Cursor::Help => CursorIcon::Help,
        Cursor::Progress => CursorIcon::Progress,
        Cursor::Wait => CursorIcon::Wait,
        Cursor::Cell => CursorIcon::Cell,
        Cursor::Crosshair => CursorIcon::Crosshair,
        Cursor::Text => CursorIcon::Text,
        Cursor::VerticalText => CursorIcon::VerticalText,
        Cursor::Alias => CursorIcon::Alias,
        Cursor::Copy => CursorIcon::Copy,
        Cursor::Move => CursorIcon::Move,
        Cursor::NoDrop => CursorIcon::NoDrop,
        Cursor::NotAllowed => CursorIcon::NotAllowed,
        Cursor::Grab => CursorIcon::Grab,
        Cursor::Grabbing => CursorIcon::Grabbing,
        Cursor::EResize => CursorIcon::EResize,
        Cursor::NResize => CursorIcon::NResize,
        Cursor::NeResize => CursorIcon::NeResize,
        Cursor::NwResize => CursorIcon::NwResize,
        Cursor::SResize => CursorIcon::SResize,
        Cursor::SeResize => CursorIcon::SeResize,
        Cursor::SwResize => CursorIcon::SwResize,
        Cursor::WResize => CursorIcon::WResize,
        Cursor::EwResize => CursorIcon::EwResize,
        Cursor::NsResize => CursorIcon::NsResize,
        Cursor::NeswResize => CursorIcon::NeswResize,
        Cursor::NwseResize => CursorIcon::NwseResize,
        Cursor::ColResize => CursorIcon::ColResize,
        Cursor::RowResize => CursorIcon::RowResize,
        Cursor::AllScroll => CursorIcon::AllScroll,
        Cursor::ZoomIn => CursorIcon::ZoomIn,
        Cursor::ZoomOut => CursorIcon::ZoomOut,
    }
}

/// The engine's button for a window button; the engine knows the left,
/// right and middle buttons only.
pub open spec fn engine_button_of(b: window::MouseButton) -> Option<engine::MouseButton> {
    match b {
        window::MouseButton::Left => Some(engine::MouseButton::Left),
        window::MouseButton::Right => Some(engine::MouseButton::Right),
        window::MouseButton::Middle => Some(engine::MouseButton::Middle),
        _ => None,
    }
}

/// Picks the engine's button for a window button, if it has one.
pub fn engine_button(b: window::MouseButton) -> (r: Option<engine::MouseButton>)
    ensures
        r == engine_button_of(b),
{
    match b {
        window::MouseButton::Left => Some(engine::MouseButton::Left),
        window::MouseButton::Right => Some(engine::MouseButton::Right),
        window::MouseButton::Middle => Some(engine::MouseButton::Middle),
        _ => None,
    }
}

/// The engine's touch event type for the phase of a scroll gesture.
pub open spec fn touch_event_type_of(p: TouchPhase) -> TouchEventType {
    match p {
        TouchPhase::Started => TouchEventType::Down,
        TouchPhase::Moved => TouchEventType::Move,
        TouchPhase::Ended => TouchEventType::Up,
        TouchPhase::Cancelled => TouchEventType::Cancel,
    }
}

/// Picks the engine's touch event type for a gesture phase.
pub fn touch_event_type(p: TouchPhase) -> (r: TouchEventType)
    ensures
        r == touch_event_type_of(p),
{
    match p {
        TouchPhase::Started => TouchEventType::Down,
        TouchPhase::Moved => TouchEventType::Move,
        TouchPhase::Ended => TouchEventType::Up,
        TouchPhase::Cancelled => TouchEventType::Cancel,
    }
}

/// A wheel movement scrolls along one axis at a time: the dominant one keeps
/// its amount and the other becomes zero.
pub open spec fn scroll_delta_of(d: WheelDelta, dominant: Axis) -> ScrollDelta {
    match dominant {
        Axis::Vertical => ScrollDelta { x: 0, y: d.y },
        Axis::Horizontal => ScrollDelta { x: d.x, y: 0 },
    }
}

/// Keeps the dominant axis of a wheel movement and zeroes the other.
pub fn scroll_delta(d: WheelDelta, dominant: Axis) -> (r: ScrollDelta)
    ensures
        r == scroll_delta_of(d, dominant),
{
    match dominant {
        Axis::Vertical => ScrollDelta { x: 0, y: d.y },
        Axis::Horizontal => ScrollDelta { x: d.x, y: 0 },
    }
}

/// The event loop sleeps until the next event unless the view is animating;
/// it also sleeps once the application is suspended.
pub open spec fn control_flow_of(input: WindowInput, animating: bool) -> ControlFlow {
    if !animating || input is Suspended {
        ControlFlow::Wait
    } else {
        ControlFlow::Poll
    }
}

/// Chooses how the event loop waits after an event, given whether the view
/// is animating.
pub fn control_flow(input: &WindowInput, animating: bool) -> (r: ControlFlow)
    ensures
        r == control_flow_of(*input, animating),
{
    let suspended = match input {
        WindowInput::Suspended => true,
        _ => false,
    };
    if !animating || suspended {
        ControlFlow::Wait
    } else {
        ControlFlow::Poll
    }
}

} // verus!
