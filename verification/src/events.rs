//! Window events as a closed set of variants, and what an event means for the
//! cursor, for scrolling and for the scene.

use vstd::prelude::*;

verus! {

/// A position in the window, in whole device pixels.
#[derive(Clone, Copy, Debug, PartialEq, Eq, Structural)]
pub struct WorldPoint {
    pub x: i64,
    pub y: i64,
}

/// The keys that the rules tell apart.
#[derive(Clone, Copy, Debug, PartialEq, Eq, Structural)]
pub enum VirtualKeyCode {
    Escape,
    Other,
}

/// Whether a key went down or came up.
#[derive(Clone, Copy, Debug, PartialEq, Eq, Structural)]
pub enum ElementState {
    Pressed,
    Released,
}

/// How far a wheel turned: in lines or in pixels, horizontally and vertically.
#[derive(Clone, Copy, Debug, PartialEq, Eq, Structural)]
pub enum MouseScrollDelta {
    LineDelta(i32, i32),
    PixelDelta(i32, i32),
}

/// What the window reports.
#[derive(Clone, Copy, Debug, PartialEq, Eq, Structural)]
pub enum WindowEvent {
    Resized(u32, u32),
    Closed,
    KeyboardInput { state: ElementState, virtual_keycode: Option<VirtualKeyCode> },
    MouseMoved(i32, i32),
    MouseWheel { delta: MouseScrollDelta, position: Option<WorldPoint> },
    Other,
}

/// What wakes the loop: a window event, or the renderer's call that a frame
/// is ready.
#[derive(Clone, Copy, Debug, PartialEq, Eq, Structural)]
pub enum Event {
    WindowEvent(WindowEvent),
    Awakened,
}

/// A request to scroll what lies under `cursor` by `(dx, dy)` pixels.
#[derive(Clone, Copy, Debug, PartialEq, Eq, Structural)]
pub struct ScrollCommand {
    pub dx: i64,
    pub dy: i64,
    pub cursor: WorldPoint,
}

/// What an event asks of the loop: to build the scene anew, to scroll.
#[derive(Clone, Copy, Debug, PartialEq, Eq, Structural)]
pub struct EventOutcome {
    pub needs_render: bool,
    pub scroll: Option<ScrollCommand>,
}

/// The height of one scrolled line in pixels.
pub const LINE_HEIGHT: i64 = 38;

/// Only a resize asks for a new scene.
pub open spec fn needs_render(event: WindowEvent) -> bool {
    event is Resized
}

/// The cursor after an event: a pointer move puts it where the pointer is, a
/// wheel event that reports a position puts it there, anything else leaves it.
pub open spec fn cursor_after(cursor: WorldPoint, event: WindowEvent) -> WorldPoint {
    match event {
        WindowEvent::MouseMoved(x, y) => WorldPoint { x: x as i64, y: y as i64 },
        WindowEvent::MouseWheel { position: Some(p), .. } => p,
        _ => cursor,
    }
}

/// The wheel's turn in pixels: a line is `LINE_HEIGHT` pixels high, and the
/// horizontal part is taken as it comes.
pub open spec fn scroll_delta(delta: MouseScrollDelta) -> (int, int) {
    match delta {
        MouseScrollDelta::LineDelta(dx, dy) => (dx as int, dy * LINE_HEIGHT),
        MouseScrollDelta::PixelDelta(dx, dy) => (dx as int, dy as int),
    }
}

/// The scroll that an event asks for: a wheel event scrolls by its delta at
/// the cursor as it stands after the event, no other event scrolls.
pub open spec fn scroll_for(cursor: WorldPoint, event: WindowEvent) -> Option<ScrollCommand> {
    match event {
        WindowEvent::MouseWheel { delta, .. } => Some(
            ScrollCommand {
                dx: scroll_delta(delta).0 as i64,
                dy: scroll_delta(delta).1 as i64,
                cursor: cursor_after(cursor, event),
            },
        ),
        _ => None,
    }
}

/// Closing the window and the Escape key, pressed or released, end the loop.
pub open spec fn is_close(event: WindowEvent) -> bool {
    match event {
        WindowEvent::Closed => true,
        WindowEvent::KeyboardInput { virtual_keycode: Some(VirtualKeyCode::Escape), .. } => true,
        _ => false,
    }
}

/// Tells whether an event ends the loop.
pub fn ends_loop(event: WindowEvent) -> (b: bool)
    ensures
        b == is_close(event),
{
    match event {
        WindowEvent::Closed => true,
        WindowEvent::KeyboardInput { virtual_keycode: Some(VirtualKeyCode::Escape), .. } => true,
        _ => false,
    }
}

/// Applies an event to the cursor and says what it asks of the loop.
pub fn interpret_event(cursor: &mut WorldPoint, event: WindowEvent) -> (out: EventOutcome)
    ensures
        *final(cursor) == cursor_after(*old(cursor), event),
        out.needs_render == needs_render(event),
        out.scroll == scroll_for(*old(cursor), event),
{
    match event {
        WindowEvent::Resized(_, _) => EventOutcome { needs_render: true, scroll: None },
        WindowEvent::MouseMoved(x, y) => {
            *cursor = WorldPoint { x: x as i64, y: y as i64 };
            EventOutcome { needs_render: false, scroll: None }
        },
        WindowEvent::MouseWheel { delta, position } => {
            match position {
                Some(p) => {
                    *cursor = p;
                },
                None => {},
            }
            let (dx, dy): (i64, i64) = match delta {
                MouseScrollDelta::LineDelta(dx, dy) => (dx as i64, dy as i64 * LINE_HEIGHT),
                MouseScrollDelta::PixelDelta(dx, dy) => (dx as i64, dy as i64),
            };
            EventOutcome {
                needs_render: false,
                scroll: Some(ScrollCommand { dx, dy, cursor: *cursor }),
            }
        },
        _ => EventOutcome { needs_render: false, scroll: None },
    }
}

/// A resize always asks for a new scene and never moves the cursor; a pointer
/// move always puts the cursor where the pointer is and never asks for a new
/// scene.
pub proof fn lemma_resize_and_pointer_move(cursor: WorldPoint, w: u32, h: u32, x: i32, y: i32)
    ensures
        needs_render(WindowEvent::Resized(w, h)),
        cursor_after(cursor, WindowEvent::Resized(w, h)) == cursor,
        !needs_render(WindowEvent::MouseMoved(x, y)),
        cursor_after(cursor, WindowEvent::MouseMoved(x, y)) == (WorldPoint {
            x: x as i64,
            y: y as i64,
        }),
{
}

} // verus!
