use hex_picker::context::{Context, WindowEvent};
use hex_picker::gl_helpers::GlCall;
use hex_picker::types::{ScreenPos, Size2};

fn context() -> Context {
    Context { win_size: Size2 { w: 640, h: 480 }, mouse_pos: ScreenPos { x: 1, y: 2 } }
}

#[test]
fn cursor_moves_are_remembered() {
    let mut c = context();
    assert_eq!(c.handle_event(WindowEvent::CursorPos(ScreenPos { x: 30, y: 40 })), None);
    assert_eq!(c.mouse_pos, ScreenPos { x: 30, y: 40 });
    assert_eq!(c.win_size, Size2 { w: 640, h: 480 });
}

#[test]
fn a_new_size_moves_the_viewport() {
    let mut c = context();
    assert_eq!(
        c.handle_event(WindowEvent::Size(Size2 { w: 800, h: 600 })),
        Some(GlCall::Viewport { x: 0, y: 0, width: 800, height: 600 })
    );
    assert_eq!(c.win_size, Size2 { w: 800, h: 600 });
    assert_eq!(c.mouse_pos, ScreenPos { x: 1, y: 2 });
    assert_eq!(
        c.set_window_size(Size2 { w: 10, h: 20 }),
        GlCall::Viewport { x: 0, y: 0, width: 10, height: 20 }
    );
    assert_eq!(c.win_size, Size2 { w: 10, h: 20 });
}

#[test]
fn other_events_change_nothing() {
    let mut c = context();
    assert_eq!(c.handle_event(WindowEvent::Other), None);
    assert_eq!(c, context());
}
