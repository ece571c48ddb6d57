//! The engine's side: the embedder events the shell sends to the engine and
//! the embedder messages the engine sends back.
use vstd::prelude::*;

use crate::window::{Position, WheelDelta};

verus! {

/// Identifies a top-level browsing context of the engine.
#[derive(Clone, Copy, Debug, PartialEq, Eq, Structural)]
pub struct BrowserId {
    pub namespace: u32,
    pub index: u32,
}

/// Identifies a pipeline (a document being loaded or shown) of the engine.
#[derive(Clone, Copy, Debug, PartialEq, Eq, Structural)]
pub struct PipelineId {
    pub namespace: u32,
    pub index: u32,
}

/// A mouse button as the engine knows it.
#[derive(Clone, Copy, Debug, PartialEq, Eq, Structural)]
pub enum MouseButton {
    Left,
    Right,
    Middle,
}

/// A mouse button event, at a point of the window.
#[derive(Clone, Copy, Debug, PartialEq, Eq, Structural)]
pub enum MouseWindowEvent {
    MouseDown(MouseButton, Position),
    MouseUp(MouseButton, Position),
    Click(MouseButton, Position),
}

/// The phase of a touch-like event.
#[derive(Clone, Copy, Debug, PartialEq, Eq, Structural)]
pub enum TouchEventType {
    Down,
    Move,
    Up,
    Cancel,
}

/// A scroll along one axis; the amount along the other is zero. Amounts
/// are bit patterns of `f64`.
#[derive(Clone, Copy, Debug, PartialEq, Eq, Structural)]
pub struct ScrollDelta {
    pub x: u64,
    pub y: u64,
}

/// The cursors the engine may ask for.
#[derive(Clone, Copy, Debug, PartialEq, Eq, Structural)]
pub enum Cursor {
    /// No cursor at all.
    Hidden,
    Default,
    Pointer,
    ContextMenu,
    Help,
    Progress,
    Wait,
    Cell,
    Crosshair,
    Text,
    VerticalText,
    Alias,
    Copy,
    Move,
    NoDrop,
    NotAllowed,
    Grab,
    Grabbing,
    EResize,
    NResize,
    NeResize,
    NwResize,
    SResize,
    SeResize,
    SwResize,
    WResize,
    EwResize,
    NsResize,
    NeswResize,
    NwseResize,
    ColResize,
    RowResize,
    AllScroll,
    ZoomIn,
    ZoomOut,
}

/// An event the shell sends to the engine.
#[derive(Clone, Copy, Debug, PartialEq, Eq, Structural)]
pub enum EmbedderEvent {
    /// Nothing happened; lets the engine run its pending work.
    Idle,
    /// The window was resized.
    Resize,
    /// The pointer moved to a point.
    MouseWindowMoveEventClass(Position),
    /// A mouse button went down, came up, or clicked.
    MouseWindowEventClass(MouseWindowEvent),
    /// Zoom by a factor, the bit pattern of an `f32`.
    Zoom(u32),
    /// A wheel movement with the pointer at a point.
    Wheel(WheelDelta, Position),
    /// A scroll with the pointer at a point, in a phase.
    Scroll(ScrollDelta, Position, TouchEventType),
    /// Shut the engine down.
    Quit,
    /// Make a browser the one shown.
    SelectBrowser(BrowserId),
    /// Answer a navigation request of a pipeline.
    AllowNavigationResponse(PipelineId, bool),
}

/// A message the engine sends to the shell.
#[derive(Clone, Copy, Debug, PartialEq, Eq, Structural)]
pub enum EmbedderMsg {
    /// A browser was created.
    BrowserCreated(BrowserId),
    /// A new frame can be presented.
    ReadyToPresent,
    /// A page started loading.
    LoadStart,
    /// A page finished loading.
    LoadComplete,
    /// The engine wants another cursor.
    SetCursor(Cursor),
    /// A pipeline asks whether it may navigate.
    AllowNavigationRequest(PipelineId),
    /// The engine asks to close the browser.
    CloseBrowser,
    /// The engine has shut down.
    Shutdown,
    /// Any other message: the shell does not handle it.
    Other,
}

} // verus!
