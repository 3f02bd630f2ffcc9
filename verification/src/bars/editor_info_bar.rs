//! The bar that shows the screen size next to the performance figures.

use vstd::prelude::*;
use vstd::string::StringExecFns;
use crate::core_data::{frame_rate, CoreData, CoreDataView};
use super::decimal::{decimal, push_decimal};
use super::Bar;

verus! {

/// Displays the screen size together with the performance figures.
pub struct EditorInfoBar {
    /// The screen row on which the bar is drawn.
    render_row_ix: u16,
}

impl Bar for EditorInfoBar {
    open spec fn text(&self, core: CoreDataView) -> Seq<char> {
        "[Editor Info] Cols: "@ + decimal(core.dimensions.columns as nat) + " Rows: "@
            + decimal(core.dimensions.rows as nat) + " Uptime (secs): "@ + decimal(
            core.running_for_secs as nat,
        ) + " Frames: "@ + decimal(core.frames as nat) + " FPS: "@ + decimal(
            frame_rate(core.frames, core.running_for_secs) as nat,
        )
    }

    fn render(&self, core_data: &CoreData) -> (line: String) {
        let mut line = String::from_str("[Editor Info] Cols: ");
        push_decimal(&mut line, core_data.dimensions().columns as u64);
        line.append(" Rows: ");
        push_decimal(&mut line, core_data.dimensions().rows as u64);
        line.append(" Uptime (secs): ");
        push_decimal(&mut line, core_data.uptime());
        line.append(" Frames: ");
        push_decimal(&mut line, core_data.frames());
        line.append(" FPS: ");
        push_decimal(&mut line, core_data.fps());
        line
    }
}

impl EditorInfoBar {
    /// The screen row that the bar was made for.
    pub closed spec fn render_row_ix(&self) -> u16 {
        self.render_row_ix
    }

    /// A bar for the screen row `render_row_ix`.
    pub fn new(render_row_ix: u16) -> (bar: EditorInfoBar)
        ensures
            bar.render_row_ix() == render_row_ix,
    {
        EditorInfoBar { render_row_ix }
    }
}

} // verus!
