use playground::events::{
    ends_loop, interpret_event, ElementState, EventOutcome, MouseScrollDelta, ScrollCommand,
    VirtualKeyCode, WindowEvent, WorldPoint, LINE_HEIGHT,
};
use playground::example::{App, Example};

const NOTHING: EventOutcome = EventOutcome { needs_render: false, scroll: None };

#[test]
fn resize_asks_for_a_scene_and_leaves_the_cursor() {
    let mut app = App { cursor_position: WorldPoint { x: 12, y: 34 }, scroll_demo: false };
    let out = app.on_event(WindowEvent::Resized(1024, 768));
    assert_eq!(out, EventOutcome { needs_render: true, scroll: None });
    assert_eq!(app.cursor_position, WorldPoint { x: 12, y: 34 });
    let out = app.on_event(WindowEvent::Resized(0, 0));
    assert!(out.needs_render);
    assert_eq!(app.cursor_position, WorldPoint { x: 12, y: 34 });
}

#[test]
fn pointer_move_sets_the_cursor_and_asks_for_nothing() {
    let mut app = App::new();
    assert_eq!(app.cursor_position, WorldPoint { x: 0, y: 0 });
    let out = app.on_event(WindowEvent::MouseMoved(640, -3));
    assert_eq!(out, NOTHING);
    assert_eq!(app.cursor_position, WorldPoint { x: 640, y: -3 });
    let out = app.on_event(WindowEvent::MouseMoved(i32::MIN, i32::MAX));
    assert_eq!(out, NOTHING);
    assert_eq!(app.cursor_position, WorldPoint { x: -2147483648, y: 2147483647 });
}

#[test]
fn wheel_lines_scroll_by_line_height() {
    assert_eq!(LINE_HEIGHT, 38);
    let mut cursor = WorldPoint { x: 5, y: 6 };
    let out = interpret_event(
        &mut cursor,
        WindowEvent::MouseWheel { delta: MouseScrollDelta::LineDelta(2, -3), position: None },
    );
    assert_eq!(
        out,
        EventOutcome {
            needs_render: false,
            scroll: Some(ScrollCommand { dx: 2, dy: -114, cursor: WorldPoint { x: 5, y: 6 } }),
        }
    );
    assert_eq!(cursor, WorldPoint { x: 5, y: 6 });
}

#[test]
fn wheel_pixels_scroll_as_given() {
    let mut cursor = WorldPoint { x: 5, y: 6 };
    let out = interpret_event(
        &mut cursor,
        WindowEvent::MouseWheel { delta: MouseScrollDelta::PixelDelta(-7, 9), position: None },
    );
    assert_eq!(
        out.scroll,
        Some(ScrollCommand { dx: -7, dy: 9, cursor: WorldPoint { x: 5, y: 6 } })
    );
    assert!(!out.needs_render);
}

#[test]
fn wheel_with_a_position_moves_the_cursor_first() {
    let mut app = App::new();
    let out = app.on_event(WindowEvent::MouseWheel {
        delta: MouseScrollDelta::LineDelta(0, 1),
        position: Some(WorldPoint { x: 70, y: 80 }),
    });
    assert_eq!(app.cursor_position, WorldPoint { x: 70, y: 80 });
    assert_eq!(
        out.scroll,
        Some(ScrollCommand { dx: 0, dy: 38, cursor: WorldPoint { x: 70, y: 80 } })
    );
}

#[test]
fn wheel_at_the_ends_of_the_range() {
    let mut cursor = WorldPoint { x: 0, y: 0 };
    let out = interpret_event(
        &mut cursor,
        WindowEvent::MouseWheel {
            delta: MouseScrollDelta::LineDelta(i32::MAX, i32::MIN),
            position: None,
        },
    );
    assert_eq!(
        out.scroll,
        Some(ScrollCommand { dx: 2147483647, dy: -81604378624, cursor })
    );
}

#[test]
fn other_events_ask_for_nothing() {
    let events = [
        WindowEvent::Other,
        WindowEvent::Closed,
        WindowEvent::KeyboardInput {
            state: ElementState::Pressed,
            virtual_keycode: Some(VirtualKeyCode::Other),
        },
        WindowEvent::KeyboardInput {
            state: ElementState::Released,
            virtual_keycode: Some(VirtualKeyCode::Escape),
        },
        WindowEvent::KeyboardInput { state: ElementState::Pressed, virtual_keycode: None },
    ];
    for event in events {
        let mut app = App { cursor_position: WorldPoint { x: 1, y: 2 }, scroll_demo: true };
        assert_eq!(app.on_event(event), NOTHING);
        assert_eq!(app, App { cursor_position: WorldPoint { x: 1, y: 2 }, scroll_demo: true });
    }
}

#[test]
fn close_and_escape_end_the_loop() {
    assert!(ends_loop(WindowEvent::Closed));
    assert!(ends_loop(WindowEvent::KeyboardInput {
        state: ElementState::Pressed,
        virtual_keycode: Some(VirtualKeyCode::Escape),
    }));
    assert!(ends_loop(WindowEvent::KeyboardInput {
        state: ElementState::Released,
        virtual_keycode: Some(VirtualKeyCode::Escape),
    }));
    assert!(!ends_loop(WindowEvent::KeyboardInput {
        state: ElementState::Pressed,
        virtual_keycode: Some(VirtualKeyCode::Other),
    }));
    assert!(!ends_loop(WindowEvent::KeyboardInput {
        state: ElementState::Pressed,
        virtual_keycode: None,
    }));
    assert!(!ends_loop(WindowEvent::Resized(1, 1)));
    assert!(!ends_loop(WindowEvent::MouseMoved(1, 1)));
    assert!(!ends_loop(WindowEvent::Other));
}
