//! The frame loop's decisions: from the loop's state and one event to the
//! next state and what to do with the window and the renderer.

use crate::display_list::{well_nested, Color, DisplayList};
use crate::events::{ends_loop, is_close, Event, ScrollCommand, WindowEvent};
use crate::example::Example;
use vstd::prelude::*;

verus! {

/// Where the loop stands. It only ever moves forward through these.
#[derive(Clone, Copy, Debug, PartialEq, Eq, Structural)]
pub enum Phase {
    Uninitialized,
    Running,
    Terminating,
    TornDown,
}

impl Phase {
    /// The phase's place in the order in which the loop passes through them.
    pub open spec fn rank(self) -> int {
        match self {
            Phase::Uninitialized => 0,
            Phase::Running => 1,
            Phase::Terminating => 2,
            Phase::TornDown => 3,
        }
    }
}

/// A display list on its way to the renderer, with the epoch that tells it
/// from every list sent before, the layout size it was built for and the
/// colour behind it.
#[derive(Debug)]
pub struct Submission {
    pub epoch: u32,
    pub width: u32,
    pub height: u32,
    pub background: Color,
    pub list: DisplayList,
}

/// What one turn of the loop does, in this order: resize the surface and tell
/// the renderer the new window size; send the new display list and ask for a
/// frame; scroll; update, render and present; leave the loop.
#[derive(Debug)]
pub struct Step {
    pub resize: Option<(u32, u32)>,
    pub submit: Option<Submission>,
    pub scroll: Option<ScrollCommand>,
    pub present: bool,
    pub exit: bool,
}

/// The loop's state: its phase, the window's size in pixels, and the epoch of
/// the list sent last.
#[derive(Clone, Copy, Debug, PartialEq, Eq, Structural)]
pub struct Driver {
    pub phase: Phase,
    pub width: u32,
    pub height: u32,
    pub epoch: u32,
}

/// The colour behind every scene.
pub open spec fn root_background() -> Color {
    Color { red: 30, green: 0, blue: 0, alpha: 100 }
}

/// The epoch of the next list: one more than the last, and no less once the
/// counter has run out.
pub open spec fn next_epoch(epoch: u32) -> u32 {
    if epoch < u32::MAX {
        (epoch + 1) as u32
    } else {
        epoch
    }
}

/// The window's size after an event: a resize sets it, nothing else does.
pub open spec fn size_after(width: u32, height: u32, event: WindowEvent) -> (u32, u32) {
    match event {
        WindowEvent::Resized(w, h) => (w, h),
        _ => (width, height),
    }
}

/// The state of a running loop after one event.
pub open spec fn driver_after<E: Example>(driver: Driver, example: E, event: Event) -> Driver {
    match event {
        Event::Awakened => driver,
        Event::WindowEvent(e) => if is_close(e) {
            Driver { phase: Phase::Terminating, ..driver }
        } else {
            Driver {
                phase: driver.phase,
                width: size_after(driver.width, driver.height, e).0,
                height: size_after(driver.width, driver.height, e).1,
                epoch: if example.outcome(e).needs_render {
                    next_epoch(driver.epoch)
                } else {
                    driver.epoch
                },
            }
        },
    }
}

/// The example after one event of a running loop: an event that ends the
/// loop does not reach it.
pub open spec fn example_after<E: Example>(example: E, event: Event) -> E {
    match event {
        Event::Awakened => example,
        Event::WindowEvent(e) => if is_close(e) {
            example
        } else {
            example.after_event(e)
        },
    }
}

impl Driver {
    /// A loop that has not started.
    pub fn new() -> (d: Driver)
        ensures
            d == (Driver { phase: Phase::Uninitialized, width: 0, height: 0, epoch: 0 }),
    {
        Driver { phase: Phase::Uninitialized, width: 0, height: 0, epoch: 0 }
    }

    /// Starts the loop for a window of `width` by `height` pixels and hands
    /// out the first scene, under epoch 0. A loop that was started before is
    /// left as it is and gets nothing.
    pub fn start<E: Example>(&mut self, example: &E, width: u32, height: u32) -> (first: Option<
        Submission,
    >)
        ensures
            first.is_some() == (old(self).phase == Phase::Uninitialized),
            old(self).phase != Phase::Uninitialized ==> *final(self) == *old(self),
            old(self).phase == Phase::Uninitialized ==> *final(self) == (Driver {
                phase: Phase::Running,
                width,
                height,
                epoch: 0,
            }),
            first matches Some(s) ==> {
                &&& s.epoch == 0
                &&& s.width == width
                &&& s.height == height
                &&& s.background == root_background()
                &&& s.list@ == example.scene(width as int, height as int)
                &&& well_nested(s.list@)
            },
            final(self).phase.rank() >= old(self).phase.rank(),
    {
        match self.phase {
            Phase::Uninitialized => {
                self.phase = Phase::Running;
                self.width = width;
                self.height = height;
                self.epoch = 0;
                let list = example.render(width as i64, height as i64);
                Some(
                    Submission {
                        epoch: 0,
                        width,
                        height,
                        background: Color::new(30, 0, 0, 100),
                        list,
                    },
                )
            },
            _ => None,
        }
    }

    /// Takes one event and decides the turn.
    ///
    /// Outside the running phase nothing happens and nothing is asked for,
    /// but to leave the loop once it is ending. In it: an event that closes
    /// the window ends the loop at once, before the example sees it and
    /// with no frame. Any other window event goes to the example; a resize
    /// is recorded first; where the example asks for it, the scene is built
    /// anew at the size as it then stands and sent under the next epoch;
    /// then the frame is presented. A wake-up only presents.
    pub fn handle_event<E: Example>(&mut self, example: &mut E, event: Event) -> (step: Step)
        ensures
            old(self).phase != Phase::Running ==> {
                &&& *final(self) == *old(self)
                &&& *final(example) == *old(example)
                &&& step.resize.is_none()
                &&& step.submit.is_none()
                &&& step.scroll.is_none()
                &&& !step.present
                &&& step.exit == (old(self).phase != Phase::Uninitialized)
            },
            old(self).phase == Phase::Running ==> {
                &&& *final(self) == driver_after(*old(self), *old(example), event)
                &&& *final(example) == example_after(*old(example), event)
            },
            old(self).phase == Phase::Running ==> (match event {
                Event::Awakened => {
                    &&& step.resize.is_none()
                    &&& step.submit.is_none()
                    &&& step.scroll.is_none()
                    &&& step.present
                    &&& !step.exit
                },
                Event::WindowEvent(e) => if is_close(e) {
                    &&& step.resize.is_none()
                    &&& step.submit.is_none()
                    &&& step.scroll.is_none()
                    &&& !step.present
                    &&& step.exit
                } else {
                    &&& step.resize == (match e {
                        WindowEvent::Resized(w, h) => Some((w, h)),
                        _ => None,
                    })
                    &&& step.submit.is_some() == old(example).outcome(e).needs_render
                    &&& step.scroll == old(example).outcome(e).scroll
                    &&& step.present
                    &&& !step.exit
                },
            }),
            step.submit matches Some(s) ==> {
                &&& s.epoch == final(self).epoch
                &&& s.width == final(self).width
                &&& s.height == final(self).height
                &&& s.background == root_background()
                &&& s.list@ == final(example).scene(
                    final(self).width as int,
                    final(self).height as int,
                )
                &&& well_nested(s.list@)
            },
            final(self).phase.rank() >= old(self).phase.rank(),
            final(self).epoch >= old(self).epoch,
    {
        match self.phase {
            Phase::Running => {},
            Phase::Uninitialized => {
                return Step { resize: None, submit: None, scroll: None, present: false, exit: false };
            },
            _ => {
                return Step { resize: None, submit: None, scroll: None, present: false, exit: true };
            },
        }
        let window_event = match event {
            Event::Awakened => {
                return Step { resize: None, submit: None, scroll: None, present: true, exit: false };
            },
            Event::WindowEvent(e) => e,
        };
        if ends_loop(window_event) {
            self.phase = Phase::Terminating;
            return Step { resize: None, submit: None, scroll: None, present: false, exit: true };
        }
        let resize = match window_event {
            WindowEvent::Resized(w, h) => {
                self.width = w;
                self.height = h;
                Some((w, h))
            },
            _ => None,
        };
        let outcome = example.on_event(window_event);
        let submit = if outcome.needs_render {
            if self.epoch < u32::MAX {
                self.epoch = self.epoch + 1;
            }
            let list = example.render(self.width as i64, self.height as i64);
            Some(
                Submission {
                    epoch: self.epoch,
                    width: self.width,
                    height: self.height,
                    background: Color::new(30, 0, 0, 100),
                    list,
                },
            )
        } else {
            None
        };
        Step { resize, submit, scroll: outcome.scroll, present: true, exit: false }
    }

    /// Tears the loop down once it is ending, and says whether it did: only
    /// then is the renderer to be released. A loop in any other phase is left
    /// as it is.
    pub fn shutdown(&mut self) -> (release: bool)
        ensures
            release == (old(self).phase == Phase::Terminating),
            release ==> *final(self) == (Driver { phase: Phase::TornDown, ..*old(self) }),
            !release ==> *final(self) == *old(self),
            final(self).phase.rank() >= old(self).phase.rank(),
    {
        match self.phase {
            Phase::Terminating => {
                self.phase = Phase::TornDown;
                true
            },
            _ => false,
        }
    }
}

} // verus!
