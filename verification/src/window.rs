//! The window event loop's decisions.
//!
//! The window thread owns the OS event loop and only ever translates
//! incoming window events into commands for the render thread. Sending
//! happens outside; this module decides which command an event becomes,
//! whether the loop exits, and how a dead render thread is handled.

use vstd::prelude::*;

use crate::frame::RenderCommand;

verus! {

/// A message that can be sent to the window event loop. Nothing is ever
/// sent today: the one variant exists only so the channel type does, and
/// no code constructs it.
#[derive(Debug, Clone, Copy)]
pub enum WindowCommand {
    Never,
}

/// The window events the render side cares about; everything else is
/// `Other`.
#[derive(Debug, Clone, Copy, PartialEq, Eq, Structural)]
pub enum WindowEventKind {
    /// The window reached this size in physical pixels.
    Resized { width: u32, height: u32 },
    CloseRequested,
    Destroyed,
    RedrawRequested,
    Other,
}

/// What the event loop does with one window event.
#[derive(Debug, Clone, Copy, PartialEq, Eq, Structural)]
pub struct EventResponse {
    /// The command forwarded to the render thread, if any.
    pub command: Option<RenderCommand>,
    /// Leave the event loop after sending.
    pub exit: bool,
    /// Switch the loop's control flow to polling.
    pub set_poll: bool,
}

/// Translates one window event: resizes and redraw requests forward the
/// matching command, closing sends `Shutdown` and exits, destruction
/// sends `Shutdown` without exiting, and anything else is ignored.
pub fn window_event_response(event: WindowEventKind) -> (r: EventResponse)
    ensures
        event matches WindowEventKind::Resized { width, height } ==> r == (EventResponse {
            command: Some(RenderCommand::WindowResized(width, height)),
            exit: false,
            set_poll: false,
        }),
        event == WindowEventKind::CloseRequested ==> r == (EventResponse {
            command: Some(RenderCommand::Shutdown),
            exit: true,
            set_poll: false,
        }),
        event == WindowEventKind::Destroyed ==> r == (EventResponse {
            command: Some(RenderCommand::Shutdown),
            exit: false,
            set_poll: false,
        }),
        event == WindowEventKind::RedrawRequested ==> r == (EventResponse {
            command: Some(RenderCommand::Redraw),
            exit: false,
            set_poll: true,
        }),
        event == WindowEventKind::Other ==> r == (EventResponse {
            command: None,
            exit: false,
            set_poll: false,
        }),
{
    match event {
        WindowEventKind::Resized { width, height } => EventResponse {
            command: Some(RenderCommand::WindowResized(width, height)),
            exit: false,
            set_poll: false,
        },
        WindowEventKind::CloseRequested => EventResponse {
            command: Some(RenderCommand::Shutdown),
            exit: true,
            set_poll: false,
        },
        WindowEventKind::Destroyed => EventResponse {
            command: Some(RenderCommand::Shutdown),
            exit: false,
            set_poll: false,
        },
        WindowEventKind::RedrawRequested => EventResponse {
            command: Some(RenderCommand::Redraw),
            exit: false,
            set_poll: true,
        },
        WindowEventKind::Other => EventResponse { command: None, exit: false, set_poll: false },
    }
}

/// Decides the event loop's fate after trying to send a command to the
/// render thread: if the send failed, the render thread is dead and the
/// event loop exits rather than hang; otherwise it keeps running.
pub fn send_or_exit_decision(send_failed: bool) -> (exit: bool)
    ensures
        exit == send_failed,
{
    send_failed
}

} // verus!
