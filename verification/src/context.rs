//! What the visualizer remembers of its window, and how window events
//! change it.

use vstd::prelude::*;
use crate::gl_helpers::{viewport, GlCall};
use crate::types::{ScreenPos, Size2};

verus! {

/// An event of the window, as far as the visualizer reads it.
#[derive(Clone, Copy, Debug, PartialEq, Eq, Structural)]
pub enum WindowEvent {
    /// The cursor has moved to this pixel.
    CursorPos(ScreenPos),
    /// The window has this size now.
    Size(Size2),
    /// Anything else.
    Other,
}

/// The size of the window and the place of the cursor in it.
#[derive(Clone, Copy, Debug, PartialEq, Eq, Structural)]
pub struct Context {
    pub win_size: Size2,
    pub mouse_pos: ScreenPos,
}

impl Context {
    /// What [`Context::handle_event`] leaves behind.
    pub open spec fn after(self, event: WindowEvent) -> Context {
        match event {
            WindowEvent::CursorPos(mouse_pos) => Context { mouse_pos, ..self },
            WindowEvent::Size(win_size) => Context { win_size, ..self },
            WindowEvent::Other => self,
        }
    }

    /// What [`Context::handle_event`] asks the graphics context for.
    pub open spec fn call_for(event: WindowEvent) -> Option<GlCall> {
        match event {
            WindowEvent::Size(size) => Some(
                GlCall::Viewport { x: 0, y: 0, width: size.w, height: size.h },
            ),
            _ => None,
        }
    }

    /// Records the new size of the window; the viewport has to follow it.
    pub fn set_window_size(&mut self, win_size: Size2) -> (call: GlCall)
        ensures
            *final(self) == (Context { win_size, ..*old(self) }),
            call == (GlCall::Viewport { x: 0, y: 0, width: win_size.w, height: win_size.h }),
    {
        self.win_size = win_size;
        viewport(win_size)
    }

    /// Takes one event of the window: a move of the cursor is remembered, a
    /// new size is remembered and answered with a new viewport, and
    /// everything else is passed over.
    pub fn handle_event(&mut self, event: WindowEvent) -> (call: Option<GlCall>)
        ensures
            *final(self) == old(self).after(event),
            call == Self::call_for(event),
    {
        match event {
            WindowEvent::CursorPos(mouse_pos) => {
                self.mouse_pos = mouse_pos;
                None
            },
            WindowEvent::Size(size) => Some(self.set_window_size(size)),
            WindowEvent::Other => None,
        }
    }
}

} // verus!
