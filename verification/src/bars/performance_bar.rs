//! The bar that shows how long the program has run and how fast it draws.

use vstd::prelude::*;
use vstd::string::StringExecFns;
use crate::core_data::{frame_rate, CoreData, CoreDataView};
use super::decimal::{decimal, push_decimal};
use super::Bar;

verus! {

/// Displays performance statistics.
pub struct PerformanceBar {
    /// Bars are drawn in the order of their priorities: the smaller the
    /// number, the nearer the top of the screen.
    priority: u8,
}

impl Bar for PerformanceBar {
    open spec fn text(&self, core: CoreDataView) -> Seq<char> {
        "[Performance] Uptime (secs): "@ + decimal(core.running_for_secs as nat)
            + " Frames: "@ + decimal(core.frames as nat) + " FPS: "@ + decimal(
            frame_rate(core.frames, core.running_for_secs) as nat,
        )
    }

    fn render(&self, core_data: &CoreData) -> (line: String) {
        let mut line = String::from_str("[Performance] Uptime (secs): ");
        push_decimal(&mut line, core_data.uptime());
        line.append(" Frames: ");
        push_decimal(&mut line, core_data.frames());
        line.append(" FPS: ");
        push_decimal(&mut line, core_data.fps());
        line
    }
}

impl PerformanceBar {
    /// The priority that the bar was made with.
    pub closed spec fn priority(&self) -> u8 {
        self.priority
    }

    /// A bar of the given priority.
    pub fn new(priority: u8) -> (bar: PerformanceBar)
        ensures
            bar.priority() == priority,
    {
        PerformanceBar { priority }
    }
}

} // verus!
