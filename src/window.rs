//! The native window's side: the input events the shell consumes and what it
//! asks of the window and its event loop.
use vstd::prelude::*;

verus! {

/// A point on the window, in physical pixels.
///
/// Each coordinate is the bit pattern of an `f64` (as given by `f64::to_bits`).
/// The shell carries coordinates from the window to the engine; it never
/// computes with them.
#[derive(Clone, Copy, Debug, PartialEq, Eq, Structural)]
pub struct Position {
    pub x: u64,
    pub y: u64,
}

impl Position {
    /// The origin, where the pointer is taken to be before it first moves.
    pub fn origin() -> (r: Position)
        ensures
            r == Position::spec_origin(),
    {
        Position { x: 0, y: 0 }
    }

    pub open spec fn spec_origin() -> Position {
        Position { x: 0, y: 0 }
    }
}

/// Whether a button went down or came up.
#[derive(Clone, Copy, Debug, PartialEq, Eq, Structural)]
pub enum ElementState {
    Pressed,
    Released,
}

/// A mouse button as the window reports it.
#[derive(Clone, Copy, Debug, PartialEq, Eq, Structural)]
pub enum MouseButton {
    Left,
    Right,
    Middle,
    Back,
    Forward,
    Other(u16),
}

/// The phase of a touch or of a scroll gesture.
#[derive(Clone, Copy, Debug, PartialEq, Eq, Structural)]
pub enum TouchPhase {
    Started,
    Moved,
    Ended,
    Cancelled,
}

/// Which axis of a scroll gesture moved farther.
#[derive(Clone, Copy, Debug, PartialEq, Eq, Structural)]
pub enum Axis {
    Horizontal,
    Vertical,
}

/// How a wheel delta is measured.
#[derive(Clone, Copy, Debug, PartialEq, Eq, Structural)]
pub enum WheelMode {
    DeltaPixel,
    DeltaLine,
}

/// A wheel movement, already scaled to what the engine expects: lines are
/// given in pixels of one line's height, pixel deltas in logical pixels.
/// Each amount is the bit pattern of an `f64`; the depth axis is always zero.
#[derive(Clone, Copy, Debug, PartialEq, Eq, Structural)]
pub struct WheelDelta {
    pub x: u64,
    pub y: u64,
    pub mode: WheelMode,
}

/// An event of the window or of its event loop, as the shell sees it.
#[derive(Clone, Copy, Debug, PartialEq, Eq, Structural)]
pub enum WindowInput {
    /// The application was suspended.
    Suspended,
    /// The application was resumed.
    Resumed,
    /// The engine woke the event loop up.
    Wake,
    /// The window must be drawn again.
    RedrawRequested,
    /// The window's inner size changed, in physical pixels.
    Resized { width: u32, height: u32 },
    /// The pointer moved.
    CursorMoved { position: Position },
    /// A mouse button was pressed or released.
    MouseInput { state: ElementState, button: MouseButton },
    /// A pinch on a touchpad; `zoom` is the bit pattern of the `f32` zoom
    /// factor it asks for (one plus the magnification delta).
    TouchpadMagnify { zoom: u32 },
    /// The wheel or a touchpad scrolled; `dominant` is the axis whose
    /// amount is larger in magnitude (vertical on a tie).
    MouseWheel { delta: WheelDelta, dominant: Axis, phase: TouchPhase },
    /// The user asked to close the window.
    CloseRequested,
    /// Any other event: the shell does not handle it.
    Other,
}

/// How the event loop waits for the next event.
#[derive(Clone, Copy, Debug, PartialEq, Eq, Structural)]
pub enum ControlFlow {
    /// Sleep until an event arrives.
    Wait,
    /// Run again at once.
    Poll,
}

/// The cursor icons the shell sets on the window.
#[derive(Clone, Copy, Debug, PartialEq, Eq, Structural)]
pub enum CursorIcon {
    Default,
    Pointer,
    ContextMenu,
    Help,
    Progress,
    Wait,
    Cell,
    Crosshair,
    Text,
    VerticalText,
    Alias,
    Copy,
    Move,
    NoDrop,
    NotAllowed,
    Grab,
    Grabbing,
    EResize,
    NResize,
    NeResize,
    NwResize,
    SResize,
    SeResize,
    SwResize,
    WResize,
    EwResize,
    NsResize,
    NeswResize,
    NwseResize,
    ColResize,
    RowResize,
    AllScroll,
    ZoomIn,
    ZoomOut,
}

} // verus!
