//! What an example gives the frame loop, and the grid example itself.

use crate::display_list::{well_nested, DisplayList, ItemModel};
use crate::events::{
    cursor_after, interpret_event, needs_render, scroll_for, EventOutcome, WindowEvent, WorldPoint,
};
use crate::scene::{build_scene, scene_items};
use vstd::prelude::*;

verus! {

/// An example draws a scene for a layout size and reacts to window events.
pub trait Example: Sized {
    /// The commands of the scene for a layout of `width` by `height`.
    spec fn scene(&self, width: int, height: int) -> Seq<ItemModel>;

    /// What an event asks of the loop.
    spec fn outcome(&self, event: WindowEvent) -> EventOutcome;

    /// The example as an event leaves it.
    spec fn after_event(&self, event: WindowEvent) -> Self;

    /// Builds the scene. The list is whole in itself: every push in it has
    /// its pop.
    fn render(&self, width: i64, height: i64) -> (list: DisplayList)
        ensures
            list@ == self.scene(width as int, height as int),
            well_nested(list@),
    ;

    /// Takes one window event and says whether the scene must be built anew
    /// and whether to scroll.
    fn on_event(&mut self, event: WindowEvent) -> (out: EventOutcome)
        ensures
            out == old(self).outcome(event),
            *final(self) == old(self).after_event(event),
    ;
}

/// Rows of the grid.
pub const GRID_ROWS: u32 = 10;

/// Columns of the grid.
pub const GRID_COLS: u32 = 10;

/// The gap around each cell's rectangle, in layout units.
pub const PADDING: i64 = 10;

/// The grid example: it remembers where the cursor was last seen, and
/// whether to draw the scroll-box demonstration after the grid.
#[derive(Clone, Copy, Debug, PartialEq, Eq, Structural)]
pub struct App {
    pub cursor_position: WorldPoint,
    pub scroll_demo: bool,
}

impl App {
    /// The example with the cursor at the origin and the plain grid.
    pub fn new() -> (app: App)
        ensures
            app == (App { cursor_position: WorldPoint { x: 0, y: 0 }, scroll_demo: false }),
    {
        App { cursor_position: WorldPoint { x: 0, y: 0 }, scroll_demo: false }
    }
}

impl Example for App {
    open spec fn scene(&self, width: int, height: int) -> Seq<ItemModel> {
        scene_items(
            width,
            height,
            GRID_ROWS as int,
            GRID_COLS as int,
            PADDING as int,
            self.scroll_demo,
        )
    }

    open spec fn outcome(&self, event: WindowEvent) -> EventOutcome {
        EventOutcome {
            needs_render: needs_render(event),
            scroll: scroll_for(self.cursor_position, event),
        }
    }

    open spec fn after_event(&self, event: WindowEvent) -> App {
        App {
            cursor_position: cursor_after(self.cursor_position, event),
            scroll_demo: self.scroll_demo,
        }
    }

    fn render(&self, width: i64, height: i64) -> (list: DisplayList) {
        build_scene(width, height, GRID_ROWS, GRID_COLS, PADDING, self.scroll_demo)
    }

    fn on_event(&mut self, event: WindowEvent) -> (out: EventOutcome) {
        interpret_event(&mut self.cursor_position, event)
    }
}

} // verus!
