use playground::display_list::Color;
use playground::driver::{Driver, Phase};
use playground::events::{
    ElementState, Event, MouseScrollDelta, ScrollCommand, VirtualKeyCode, WindowEvent, WorldPoint,
};
use playground::example::{App, Example};

fn running(width: u32, height: u32) -> (Driver, App) {
    let mut driver = Driver::new();
    let app = App::new();
    assert!(driver.start(&app, width, height).is_some());
    (driver, app)
}

#[test]
fn a_new_loop_has_not_started() {
    assert_eq!(
        Driver::new(),
        Driver { phase: Phase::Uninitialized, width: 0, height: 0, epoch: 0 }
    );
}

#[test]
fn start_sends_the_first_scene() {
    let mut driver = Driver::new();
    let app = App::new();
    let first = driver.start(&app, 800, 600).expect("a first scene");
    assert_eq!(first.epoch, 0);
    assert_eq!((first.width, first.height), (800, 600));
    assert_eq!(first.background, Color { red: 30, green: 0, blue: 0, alpha: 100 });
    assert_eq!(first.list, app.render(800, 600));
    assert_eq!(driver, Driver { phase: Phase::Running, width: 800, height: 600, epoch: 0 });
}

#[test]
fn start_works_once() {
    let (mut driver, app) = running(800, 600);
    assert!(driver.start(&app, 1, 1).is_none());
    assert_eq!(driver, Driver { phase: Phase::Running, width: 800, height: 600, epoch: 0 });
}

#[test]
fn events_before_start_do_nothing() {
    let mut driver = Driver::new();
    let mut app = App::new();
    let step = driver.handle_event(&mut app, Event::WindowEvent(WindowEvent::Resized(5, 5)));
    assert!(step.resize.is_none() && step.submit.is_none() && step.scroll.is_none());
    assert!(!step.present && !step.exit);
    assert_eq!(driver, Driver::new());
    let step = driver.handle_event(&mut app, Event::WindowEvent(WindowEvent::MouseMoved(5, 5)));
    assert!(!step.present && !step.exit);
    assert_eq!(app, App::new());
}

#[test]
fn resize_sends_one_list_at_the_new_size() {
    let (mut driver, mut app) = running(800, 600);
    let step = driver.handle_event(&mut app, Event::WindowEvent(WindowEvent::Resized(1024, 768)));
    assert_eq!(step.resize, Some((1024, 768)));
    assert!(step.present);
    assert!(!step.exit);
    assert!(step.scroll.is_none());
    let sent = step.submit.expect("a new scene");
    assert_eq!((sent.width, sent.height), (1024, 768));
    assert_eq!(sent.epoch, 1);
    assert_eq!(sent.background, Color { red: 30, green: 0, blue: 0, alpha: 100 });
    assert_eq!(sent.list, app.render(1024, 768));
    assert_ne!(sent.list, app.render(800, 600));
    assert_eq!(driver, Driver { phase: Phase::Running, width: 1024, height: 768, epoch: 1 });
}

#[test]
fn each_submission_has_a_later_epoch() {
    let (mut driver, mut app) = running(800, 600);
    for n in 1..=5u32 {
        let step = driver.handle_event(&mut app, Event::WindowEvent(WindowEvent::Resized(n, n)));
        assert_eq!(step.submit.expect("a new scene").epoch, n);
        assert_eq!(driver.epoch, n);
    }
}

#[test]
fn the_epoch_stops_at_its_largest_value() {
    let mut driver =
        Driver { phase: Phase::Running, width: 1, height: 1, epoch: u32::MAX - 1 };
    let mut app = App::new();
    let step = driver.handle_event(&mut app, Event::WindowEvent(WindowEvent::Resized(2, 2)));
    assert_eq!(step.submit.expect("a new scene").epoch, u32::MAX);
    let step = driver.handle_event(&mut app, Event::WindowEvent(WindowEvent::Resized(3, 3)));
    assert_eq!(step.submit.expect("a new scene").epoch, u32::MAX);
    assert_eq!(driver.epoch, u32::MAX);
}

#[test]
fn a_wake_up_only_presents() {
    let (mut driver, mut app) = running(800, 600);
    let step = driver.handle_event(&mut app, Event::Awakened);
    assert!(step.resize.is_none() && step.submit.is_none() && step.scroll.is_none());
    assert!(step.present);
    assert!(!step.exit);
    assert_eq!(driver, Driver { phase: Phase::Running, width: 800, height: 600, epoch: 0 });
    assert_eq!(app, App::new());
}

#[test]
fn pointer_and_wheel_do_not_rebuild() {
    let (mut driver, mut app) = running(800, 600);
    let step = driver.handle_event(&mut app, Event::WindowEvent(WindowEvent::MouseMoved(9, 8)));
    assert!(step.submit.is_none() && step.resize.is_none() && step.scroll.is_none());
    assert!(step.present);
    assert_eq!(app.cursor_position, WorldPoint { x: 9, y: 8 });
    let step = driver.handle_event(
        &mut app,
        Event::WindowEvent(WindowEvent::MouseWheel {
            delta: MouseScrollDelta::LineDelta(1, 2),
            position: None,
        }),
    );
    assert!(step.submit.is_none());
    assert!(step.present);
    assert_eq!(
        step.scroll,
        Some(ScrollCommand { dx: 1, dy: 76, cursor: WorldPoint { x: 9, y: 8 } })
    );
    assert_eq!(driver.epoch, 0);
}

#[test]
fn close_shuts_down_once_and_sends_nothing_more() {
    let (mut driver, mut app) = running(800, 600);
    let step = driver.handle_event(&mut app, Event::WindowEvent(WindowEvent::Closed));
    assert!(step.exit);
    assert!(!step.present);
    assert!(step.submit.is_none() && step.resize.is_none() && step.scroll.is_none());
    assert_eq!(driver.phase, Phase::Terminating);

    let step = driver.handle_event(&mut app, Event::WindowEvent(WindowEvent::Resized(10, 10)));
    assert!(step.submit.is_none() && step.resize.is_none());
    assert!(!step.present);
    assert!(step.exit);
    assert_eq!(driver, Driver { phase: Phase::Terminating, width: 800, height: 600, epoch: 0 });

    assert!(driver.shutdown());
    assert_eq!(driver.phase, Phase::TornDown);
    assert!(!driver.shutdown());
    assert_eq!(driver.phase, Phase::TornDown);

    let step = driver.handle_event(&mut app, Event::WindowEvent(WindowEvent::Resized(10, 10)));
    assert!(step.submit.is_none());
    assert!(!step.present);
    assert!(step.exit);
    let step = driver.handle_event(&mut app, Event::Awakened);
    assert!(step.submit.is_none());
    assert!(!step.present);
    assert!(driver.start(&app, 1, 1).is_none());
    assert_eq!(driver, Driver { phase: Phase::TornDown, width: 800, height: 600, epoch: 0 });
}

#[test]
fn escape_ends_the_loop_before_the_example_sees_it() {
    let (mut driver, mut app) = running(800, 600);
    app.cursor_position = WorldPoint { x: 3, y: 4 };
    let step = driver.handle_event(
        &mut app,
        Event::WindowEvent(WindowEvent::KeyboardInput {
            state: ElementState::Pressed,
            virtual_keycode: Some(VirtualKeyCode::Escape),
        }),
    );
    assert!(step.exit);
    assert!(!step.present);
    assert_eq!(driver.phase, Phase::Terminating);
    assert_eq!(app.cursor_position, WorldPoint { x: 3, y: 4 });
}

#[test]
fn shutdown_waits_for_the_loop_to_end() {
    let mut driver = Driver::new();
    assert!(!driver.shutdown());
    assert_eq!(driver.phase, Phase::Uninitialized);
    let (mut driver, _) = running(800, 600);
    assert!(!driver.shutdown());
    assert_eq!(driver.phase, Phase::Running);
}
