//! The shell's state and the decisions it takes on each turn of the event
//! loop.
//!
//! One turn goes: choose the control flow (`translate::control_flow`), turn the
//! window event into engine events (`Yippee::handle_window_event`), read the
//! engine's messages (`Yippee::handle_engine_messages`), hand the queued events
//! to the engine (`Yippee::take_events`), and decide how to present and whether
//! to release the engine (`Yippee::finish_pump`).
use vstd::prelude::*;

use crate::engine::{BrowserId, EmbedderEvent, EmbedderMsg, MouseWindowEvent};
use crate::status::Status;
use crate::translate::{
    cursor_icon, cursor_icon_of, engine_button, engine_button_of, scroll_delta, scroll_delta_of,
    touch_event_type, touch_event_type_of,
};
use crate::window::{CursorIcon, ElementState, Position, WindowInput};

verus! {

/// What the embedder must do with the window or the engine right after a
/// window event was handled.
#[derive(Clone, Copy, Debug, PartialEq, Eq, Structural)]
pub enum WindowAction {
    /// Nothing beyond the queued events.
    Continue,
    /// Composite the engine's frame again and present it.
    Recomposite,
    /// Resize the view to the window's new size, in physical pixels.
    ResizeView { width: u32, height: u32 },
    /// The event is not supported: nothing was queued.
    Unsupported,
}

/// What the embedder must do for one engine message.
#[derive(Clone, Copy, Debug, PartialEq, Eq, Structural)]
pub enum MessageAction {
    /// Nothing beyond what the shell recorded.
    Continue,
    /// A frame is ready: present it at the end of the pump.
    Present,
    /// Show this icon as the window's cursor.
    SetCursor(CursorIcon),
    /// The message is not supported: it was ignored.
    Unsupported,
}

/// What the engine's messages of one pump asked of the embedder.
pub struct MessageBatch {
    /// One action for each message, in the order of the messages.
    pub actions: Vec<MessageAction>,
    /// Whether some message said that a frame is ready to present.
    pub need_present: bool,
}

/// How to present after the queued events went to the engine.
#[derive(Clone, Copy, Debug, PartialEq, Eq, Structural)]
pub enum PresentAction {
    /// The engine asked for it: repaint synchronously, then present.
    RepaintAndPresent,
    /// A frame is ready: ask the window for a redraw.
    RequestRedraw,
    /// Nothing to present.
    Skip,
}

/// What the embedder must do at the end of a pump.
#[derive(Clone, Copy, Debug, PartialEq, Eq, Structural)]
pub struct PumpAction {
    pub present: PresentAction,
    /// Release the engine: it has shut down.
    pub release_engine: bool,
}

/// The shell's state, seen as plain values.
pub struct YippeeView {
    /// The first browser the engine reported as created.
    pub browser_id: Option<BrowserId>,
    /// The events waiting for the next hand-over to the engine.
    pub events: Seq<EmbedderEvent>,
    /// Where the pointer was last seen.
    pub mouse_position: Position,
    pub status: Status,
    /// Whether the engine is still held; it is released once it has shut down.
    pub engine_running: bool,
}

impl YippeeView {
    /// The state of a shell that has just started its engine.
    pub open spec fn initial() -> YippeeView {
        YippeeView {
            browser_id: None,
            events: Seq::empty(),
            mouse_position: Position::spec_origin(),
            status: Status::Initial,
            engine_running: true,
        }
    }

    /// The engine is only released after it reported its shutdown.
    pub open spec fn wf(self) -> bool {
        !self.engine_running ==> self.status == Status::Shutdown
    }

    /// The same state with more events queued.
    pub open spec fn queue(self, more: Seq<EmbedderEvent>) -> YippeeView {
        YippeeView { events: self.events + more, ..self }
    }

    /// The same state with a new status.
    pub open spec fn with_status(self, status: Status) -> YippeeView {
        YippeeView { status, ..self }
    }

    /// The state after a window event.
    pub open spec fn after_input(self, input: WindowInput) -> YippeeView {
        YippeeView {
            mouse_position: pointer_after(self.mouse_position, input),
            ..self.queue(events_for_input(self.mouse_position, self.engine_running, input))
        }
    }

    /// The state after one engine message, sent on behalf of `source`.
    pub open spec fn after_message(self, source: Option<BrowserId>, msg: EmbedderMsg) -> YippeeView {
        match msg {
            EmbedderMsg::BrowserCreated(id) => YippeeView {
                browser_id: if self.browser_id is None {
                    Some(id)
                } else {
                    self.browser_id
                },
                ..self.queue(seq![EmbedderEvent::SelectBrowser(id)])
            },
            EmbedderMsg::LoadStart => self.with_status(Status::LoadStart),
            EmbedderMsg::LoadComplete => self.with_status(Status::LoadComplete),
            EmbedderMsg::AllowNavigationRequest(pipeline) => if source is Some {
                self.queue(seq![EmbedderEvent::AllowNavigationResponse(pipeline, true)])
            } else {
                self
            },
            EmbedderMsg::CloseBrowser => self.queue(seq![EmbedderEvent::Quit]),
            EmbedderMsg::Shutdown => self.with_status(Status::Shutdown),
            _ => self,
        }
    }

    /// The state after a sequence of engine messages, taken in order.
    pub open spec fn after_messages(self, msgs: Seq<(Option<BrowserId>, EmbedderMsg)>) -> YippeeView
        decreases msgs.len(),
    {
        if msgs.len() == 0 {
            self
        } else {
            let last = msgs.last();
            self.after_messages(msgs.drop_last()).after_message(last.0, last.1)
        }
    }
}

/// The engine events that a window event becomes, with the pointer at
/// `mouse` and the engine still held or not.
pub open spec fn events_for_input(
    mouse: Position,
    running: bool,
    input: WindowInput,
) -> Seq<EmbedderEvent> {
    match input {
        WindowInput::Resumed => seq![EmbedderEvent::Idle],
        WindowInput::Wake => seq![EmbedderEvent::Idle],
        WindowInput::RedrawRequested => if running {
            seq![EmbedderEvent::Idle]
        } else {
            seq![]
        },
        WindowInput::Resized { .. } => seq![EmbedderEvent::Resize],
        WindowInput::CursorMoved { position } => seq![
            EmbedderEvent::MouseWindowMoveEventClass(position),
        ],
        WindowInput::MouseInput { state, button } => match engine_button_of(button) {
            Some(b) => match state {
                ElementState::Pressed => seq![
                    EmbedderEvent::MouseWindowEventClass(MouseWindowEvent::MouseDown(b, mouse)),
                ],
                ElementState::Released => seq![
                    EmbedderEvent::MouseWindowEventClass(MouseWindowEvent::MouseUp(b, mouse)),
                    EmbedderEvent::MouseWindowEventClass(MouseWindowEvent::Click(b, mouse)),
                ],
            },
            None => seq![],
        },
        WindowInput::TouchpadMagnify { zoom } => seq![EmbedderEvent::Zoom(zoom)],
        WindowInput::MouseWheel { delta, dominant, phase } => seq![
            EmbedderEvent::Wheel(delta, mouse),
            EmbedderEvent::Scroll(
                scroll_delta_of(delta, dominant),
                mouse,
                touch_event_type_of(phase),
            ),
        ],
        WindowInput::CloseRequested => seq![EmbedderEvent::Quit],
        _ => seq![],
    }
}

/// Where the pointer is after a window event: only a pointer move moves it.
pub open spec fn pointer_after(mouse: Position, input: WindowInput) -> Position {
    match input {
        WindowInput::CursorMoved { position } => position,
        _ => mouse,
    }
}

/// What the embedder must do after a window event, with the engine still
/// held or not.
pub open spec fn window_action_of(running: bool, input: WindowInput) -> WindowAction {
    match input {
        WindowInput::RedrawRequested => if running {
            WindowAction::Recomposite
        } else {
            WindowAction::Continue
        },
        WindowInput::Resized { width, height } => WindowAction::ResizeView { width, height },
        WindowInput::MouseInput { button, .. } => if engine_button_of(button) is Some {
            WindowAction::Continue
        } else {
            WindowAction::Unsupported
        },
        WindowInput::Other => WindowAction::Unsupported,
        _ => WindowAction::Continue,
    }
}

/// What the embedder must do for an engine message.
pub open spec fn message_action_of(msg: EmbedderMsg) -> MessageAction {
    match msg {
        EmbedderMsg::ReadyToPresent => MessageAction::Present,
        EmbedderMsg::SetCursor(c) => MessageAction::SetCursor(cursor_icon_of(c)),
        EmbedderMsg::Other => MessageAction::Unsupported,
        _ => MessageAction::Continue,
    }
}

/// How to present at the end of a pump: the engine's own request wins over a
/// ready frame.
pub open spec fn present_action_of(engine_repaint: bool, need_present: bool) -> PresentAction {
    if engine_repaint {
        PresentAction::RepaintAndPresent
    } else if need_present {
        PresentAction::RequestRedraw
    } else {
        PresentAction::Skip
    }
}

/// The state of the shell between two turns of the event loop.
pub struct Yippee {
    browser_id: Option<BrowserId>,
    events: Vec<EmbedderEvent>,
    mouse_position: Position,
    status: Status,
    engine_running: bool,
}

impl View for Yippee {
    type V = YippeeView;

    closed spec fn view(&self) -> YippeeView {
        YippeeView {
            browser_id: self.browser_id,
            events: self.events@,
            mouse_position: self.mouse_position,
            status: self.status,
            engine_running: self.engine_running,
        }
    }
}

impl Yippee {
    /// The state of a shell whose engine has just been started: no browser
    /// yet, nothing queued, the pointer at the origin.
    pub fn new() -> (r: Yippee)
        ensures
            r@ == YippeeView::initial(),
            r@.wf(),
    {
        Yippee {
            browser_id: None,
            events: Vec::new(),
            mouse_position: Position::origin(),
            status: Status::Initial,
            engine_running: true,
        }
    }

    /// Turns a window event into engine events, queued for the next
    /// hand-over, and says what else the embedder must do.
    pub fn handle_window_event(&mut self, input: WindowInput) -> (r: WindowAction)
        ensures
            final(self)@ == old(self)@.after_input(input),
            r == window_action_of(old(self)@.engine_running, input),
            old(self)@.wf() ==> final(self)@.wf(),
    {
        let ghost start = self@;
        let mouse = self.mouse_position;
        let action = match input {
            WindowInput::Suspended => WindowAction::Continue,
            WindowInput::Resumed | WindowInput::Wake => {
                self.events.push(EmbedderEvent::Idle);
                WindowAction::Continue
            },
            WindowInput::RedrawRequested => {
                if self.engine_running {
                    self.events.push(EmbedderEvent::Idle);
                    WindowAction::Recomposite
                } else {
                    WindowAction::Continue
                }
            },
            WindowInput::Resized { width, height } => {
                self.events.push(EmbedderEvent::Resize);
                WindowAction::ResizeView { width, height }
            },
            WindowInput::CursorMoved { position } => {
                self.mouse_position = position;
                self.events.push(EmbedderEvent::MouseWindowMoveEventClass(position));
                WindowAction::Continue
            },
            WindowInput::MouseInput { state, button } => match engine_button(button) {
                Some(b) => {
                    match state {
                        ElementState::Pressed => {
                            self.events.push(
                                EmbedderEvent::MouseWindowEventClass(
                                    MouseWindowEvent::MouseDown(b, mouse),
                                ),
                            );
                        },
                        ElementState::Released => {
                            self.events.push(
                                EmbedderEvent::MouseWindowEventClass(
                                    MouseWindowEvent::MouseUp(b, mouse),
                                ),
                            );
                            // the window reports no clicks: a release completes one
                            self.events.push(
                                EmbedderEvent::MouseWindowEventClass(
                                    MouseWindowEvent::Click(b, mouse),
                                ),
                            );
                        },
                    }
                    WindowAction::Continue
                },
                None => WindowAction::Unsupported,
            },
            WindowInput::TouchpadMagnify { zoom } => {
                self.events.push(EmbedderEvent::Zoom(zoom));
                WindowAction::Continue
            },
            WindowInput::MouseWheel { delta, dominant, phase } => {
                self.events.push(EmbedderEvent::Wheel(delta, mouse));
                let scroll = scroll_delta(delta, dominant);
                let kind = touch_event_type(phase);
                self.events.push(EmbedderEvent::Scroll(scroll, mouse, kind));
                WindowAction::Continue
            },
            WindowInput::CloseRequested => {
                self.events.push(EmbedderEvent::Quit);
                WindowAction::Continue
            },
            WindowInput::Other => WindowAction::Unsupported,
        };
        assert(self@.events =~= start.after_input(input).events);
        action
    }

    /// Takes one engine message into account and says what the embedder must
    /// do for it. `source` is the browser the message was sent on behalf of.
    pub fn handle_engine_message(
        &mut self,
        source: Option<BrowserId>,
        msg: EmbedderMsg,
    ) -> (r: MessageAction)
        ensures
            final(self)@ == old(self)@.after_message(source, msg),
            r == message_action_of(msg),
    {
        let ghost start = self@;
        let action = match msg {
            EmbedderMsg::BrowserCreated(id) => {
                if self.browser_id.is_none() {
                    self.browser_id = Some(id);
                }
                self.events.push(EmbedderEvent::SelectBrowser(id));
                MessageAction::Continue
            },
            EmbedderMsg::ReadyToPresent => MessageAction::Present,
            EmbedderMsg::LoadStart => {
                self.status = Status::LoadStart;
                MessageAction::Continue
            },
            EmbedderMsg::LoadComplete => {
                self.status = Status::LoadComplete;
                MessageAction::Continue
            },
            EmbedderMsg::SetCursor(c) => MessageAction::SetCursor(cursor_icon(c)),
            EmbedderMsg::AllowNavigationRequest(pipeline) => {
                if source.is_some() {
                    self.events.push(EmbedderEvent::AllowNavigationResponse(pipeline, true));
                }
                MessageAction::Continue
            },
            EmbedderMsg::CloseBrowser => {
                self.events.push(EmbedderEvent::Quit);
                MessageAction::Continue
            },
            EmbedderMsg::Shutdown => {
                self.status = Status::Shutdown;
                MessageAction::Continue
            },
            EmbedderMsg::Other => MessageAction::Unsupported,
        };
        assert(self@.events =~= start.after_message(source, msg).events);
        action
    }

    /// Takes the engine's messages of one pump into account, in order. Once
    /// the engine has been released there is nothing to read: the state is
    /// left as it is.
    pub fn handle_engine_messages(
        &mut self,
        msgs: &Vec<(Option<BrowserId>, EmbedderMsg)>,
    ) -> (r: MessageBatch)
        ensures
            old(self)@.engine_running ==> final(self)@ == old(self)@.after_messages(msgs@),
            !old(self)@.engine_running ==> final(self)@ == old(self)@,
            final(self)@.engine_running == old(self)@.engine_running,
            old(self)@.wf() ==> final(self)@.wf(),
            r.actions@ == (if old(self)@.engine_running {
                msgs@.map_values(|m: (Option<BrowserId>, EmbedderMsg)| message_action_of(m.1))
            } else {
                Seq::empty()
            }),
            r.need_present == (old(self)@.engine_running && exists|k: int|
                0 <= k < msgs@.len() && (#[trigger] msgs@[k]).1 is ReadyToPresent),
    {
        let ghost start = self@;
        let mut actions: Vec<MessageAction> = Vec::new();
        let mut need_present = false;
        if !self.engine_running {
            return MessageBatch { actions, need_present };
        }
        let mut i: usize = 0;
        while i < msgs.len()
            invariant
                i <= msgs@.len(),
                start.engine_running,
                self@ == start.after_messages(msgs@.take(i as int)),
                self@.engine_running,
                actions@ == msgs@.take(i as int).map_values(
                    |m: (Option<BrowserId>, EmbedderMsg)| message_action_of(m.1),
                ),
                need_present == exists|k: int|
                    0 <= k < i && (#[trigger] msgs@[k]).1 is ReadyToPresent,
            decreases msgs@.len() - i,
        {
            let (source, msg) = msgs[i];
            let action = self.handle_engine_message(source, msg);
            actions.push(action);
            match action {
                MessageAction::Present => {
                    need_present = true;
                },
                _ => {},
            }
            assert(msgs@.take(i + 1).drop_last() =~= msgs@.take(i as int));
            assert(actions@ =~= msgs@.take(i + 1).map_values(
                |m: (Option<BrowserId>, EmbedderMsg)| message_action_of(m.1),
            ));
            i += 1;
        }
        assert(msgs@.take(msgs@.len() as int) =~= msgs@);
        MessageBatch { actions, need_present }
    }

    /// Hands over the queued events: they are returned in the order they
    /// were queued, and the queue is left empty.
    pub fn take_events(&mut self) -> (r: Vec<EmbedderEvent>)
        ensures
            r@ == old(self)@.events,
            final(self)@ == (YippeeView { events: Seq::empty(), ..old(self)@ }),
            old(self)@.wf() ==> final(self)@.wf(),
    {
        let mut taken: Vec<EmbedderEvent> = Vec::new();
        std::mem::swap(&mut taken, &mut self.events);
        taken
    }

    /// Ends a pump, once the queued events went to the engine.
    /// `engine_repaint` is the engine's answer to them (it wants a synchronous
    /// repaint), `need_present` whether a frame was reported ready. An engine
    /// that reported its shutdown is released here.
    pub fn finish_pump(&mut self, engine_repaint: bool, need_present: bool) -> (r: PumpAction)
        ensures
            r.present == (if old(self)@.engine_running {
                present_action_of(engine_repaint, need_present)
            } else {
                PresentAction::Skip
            }),
            r.release_engine == (old(self)@.engine_running && old(self)@.status == Status::Shutdown),
            final(self)@ == (YippeeView {
                engine_running: old(self)@.engine_running && old(self)@.status != Status::Shutdown,
                ..old(self)@
            }),
            old(self)@.wf() ==> final(self)@.wf(),
    {
        if !self.engine_running {
            return PumpAction { present: PresentAction::Skip, release_engine: false };
        }
        let present = if engine_repaint {
            PresentAction::RepaintAndPresent
        } else if need_present {
            PresentAction::RequestRedraw
        } else {
            PresentAction::Skip
        };
        let release_engine = match self.status {
            Status::Shutdown => true,
            _ => false,
        };
        if release_engine {
            self.engine_running = false;
        }
        PumpAction { present, release_engine }
    }

    /// Asks the engine to shut down safely, at the next hand-over.
    pub fn shutdown(&mut self)
        ensures
            final(self)@ == old(self)@.queue(seq![EmbedderEvent::Quit]),
            old(self)@.wf() ==> final(self)@.wf(),
    {
        self.events.push(EmbedderEvent::Quit);
        assert(self@.events =~= old(self)@.queue(seq![EmbedderEvent::Quit]).events);
    }

    /// The shell's status, as reported at the end of each turn.
    pub fn status(&self) -> (r: Status)
        ensures
            r == self@.status,
    {
        self.status
    }

    /// Whether the engine is still held (it has not been released after its
    /// shutdown).
    pub fn engine_running(&self) -> (r: bool)
        ensures
            r == self@.engine_running,
    {
        self.engine_running
    }

    /// The first browser the engine reported as created, if any.
    pub fn browser_id(&self) -> (r: Option<BrowserId>)
        ensures
            r == self@.browser_id,
    {
        self.browser_id
    }

    /// Where the pointer was last seen.
    pub fn mouse_position(&self) -> (r: Position)
        ensures
            r == self@.mouse_position,
    {
        self.mouse_position
    }

    /// The number of events waiting for the next hand-over.
    pub fn pending_events(&self) -> (r: usize)
        ensures
            r == self@.events.len(),
    {
        self.events.len()
    }
}

} // verus!
