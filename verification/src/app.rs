//! The application's window settings and how it routes window events.
use vstd::prelude::*;
use crate::widget::PointerKind;

verus! {

/// The window an application opens: its title and inner size in pixels.
pub struct WindowConfig {
    pub title: String,
    pub width: u32,
    pub height: u32,
}

impl Default for WindowConfig {
    /// An 800 by 600 window titled "CosG App".
    fn default() -> (c: WindowConfig)
        ensures
            c.title@ == "CosG App"@,
            c.width == 800,
            c.height == 600,
    {
        WindowConfig { title: "CosG App".to_owned(), width: 800, height: 600 }
    }
}

/// A window event, with what the application reads of it.
#[derive(Clone, Copy, Debug, PartialEq, Eq, Structural)]
pub enum WindowInput {
    /// The user asked to close the window.
    CloseRequested,
    /// The window's inner size changed.
    Resized { width: u32, height: u32 },
    /// The cursor moved over the window.
    CursorMoved,
    /// A mouse button changed state; `left` tells whether it is the left one.
    MouseInput { left: bool, pressed: bool },
    /// The window is to be drawn again.
    RedrawRequested,
    /// Any other event.
    Other,
}

/// What the application does with a window event.
#[derive(Clone, Copy, Debug, PartialEq, Eq, Structural)]
pub enum WindowCommand {
    /// Leave the event loop.
    Exit,
    /// Reconfigure the surface to the new size and lay the widgets out again.
    Resize { width: u32, height: u32 },
    /// Hand the root widget a pointer event at the cursor (after storing the
    /// new cursor position, for a move) and ask for a redraw.
    Pointer(PointerKind),
    /// Draw the widgets.
    Render,
    /// Nothing.
    Ignore,
}

/// The command for a window event; before the window and its renderer exist
/// (`ready` false) every event is ignored.
pub open spec fn spec_route(ready: bool, input: WindowInput) -> WindowCommand {
    if !ready {
        WindowCommand::Ignore
    } else {
        match input {
            WindowInput::CloseRequested => WindowCommand::Exit,
            WindowInput::Resized { width, height } => WindowCommand::Resize { width, height },
            WindowInput::CursorMoved => WindowCommand::Pointer(PointerKind::Move),
            WindowInput::MouseInput { left, pressed } => if !left {
                WindowCommand::Ignore
            } else if pressed {
                WindowCommand::Pointer(PointerKind::Down)
            } else {
                WindowCommand::Pointer(PointerKind::Up)
            },
            WindowInput::RedrawRequested => WindowCommand::Render,
            WindowInput::Other => WindowCommand::Ignore,
        }
    }
}

/// Decides what the application does with a window event.
pub fn route_window_event(ready: bool, input: WindowInput) -> (cmd: WindowCommand)
    ensures
        cmd == spec_route(ready, input),
{
    if !ready {
        return WindowCommand::Ignore;
    }
    match input {
        WindowInput::CloseRequested => WindowCommand::Exit,
        WindowInput::Resized { width, height } => WindowCommand::Resize { width, height },
        WindowInput::CursorMoved => WindowCommand::Pointer(PointerKind::Move),
        WindowInput::MouseInput { left, pressed } => {
            if !left {
                WindowCommand::Ignore
            } else if pressed {
                WindowCommand::Pointer(PointerKind::Down)
            } else {
                WindowCommand::Pointer(PointerKind::Up)
            }
        },
        WindowInput::RedrawRequested => WindowCommand::Render,
        WindowInput::Other => WindowCommand::Ignore,
    }
}

/// Only the left mouse button reaches the widgets, and a button's press and
/// release reach them as a pointer going down and coming up.
pub proof fn lemma_only_left_button(ready: bool, pressed: bool)
    ensures
        spec_route(ready, WindowInput::MouseInput { left: false, pressed }) == WindowCommand::Ignore,
        ready ==> spec_route(ready, WindowInput::MouseInput { left: true, pressed })
            == WindowCommand::Pointer(if pressed { PointerKind::Down } else { PointerKind::Up }),
{
}

/// Before the application is ready nothing happens; once ready, closing
/// exits, a resize is passed on with its own width and height, cursor moves
/// and left-button presses and releases reach the widgets as pointer events,
/// a redraw request draws, and anything else is ignored.
pub proof fn lemma_routing(input: WindowInput, w: u32, h: u32, left: bool, pressed: bool)
    ensures
        spec_route(false, input) == WindowCommand::Ignore,
        spec_route(true, WindowInput::CloseRequested) == WindowCommand::Exit,
        spec_route(true, WindowInput::Resized { width: w, height: h }) == (WindowCommand::Resize {
            width: w,
            height: h,
        }),
        spec_route(true, WindowInput::CursorMoved) == WindowCommand::Pointer(PointerKind::Move),
        spec_route(true, WindowInput::MouseInput { left: true, pressed: true })
            == WindowCommand::Pointer(PointerKind::Down),
        spec_route(true, WindowInput::MouseInput { left: true, pressed: false })
            == WindowCommand::Pointer(PointerKind::Up),
        spec_route(true, WindowInput::MouseInput { left: false, pressed })
            == WindowCommand::Ignore,
        spec_route(true, WindowInput::RedrawRequested) == WindowCommand::Render,
        spec_route(true, WindowInput::Other) == WindowCommand::Ignore,
{
}

} // verus!
