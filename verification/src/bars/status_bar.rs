//! The bar that shows the screen size and the cursor position.

use vstd::prelude::*;
use vstd::string::StringExecFns;
use crate::core_data::{CoreData, CoreDataView};
use super::decimal::{decimal, push_decimal};
use super::Bar;

verus! {

/// Displays the file path, the screen size and the cursor position.
pub struct StatusBar {
    /// Bars are drawn in the order of their priorities: the smaller the
    /// number, the nearer the top of the screen.
    priority: u8,
}

impl Bar for StatusBar {
    open spec fn text(&self, core: CoreDataView) -> Seq<char> {
        "[Status] File path: FILE_PATH_HERE [Dimensions]: "@ + decimal(
            core.dimensions.columns as nat,
        ) + ", "@ + decimal(core.dimensions.rows as nat) + " [Cursor]: "@ + decimal(
            core.cursor_location.column_ix as nat,
        ) + ", "@ + decimal(core.cursor_location.row_ix as nat)
    }

    fn render(&self, core_data: &CoreData) -> (line: String) {
        let mut line = String::from_str("[Status] File path: FILE_PATH_HERE [Dimensions]: ");
        push_decimal(&mut line, core_data.dimensions().columns as u64);
        line.append(", ");
        push_decimal(&mut line, core_data.dimensions().rows as u64);
        line.append(" [Cursor]: ");
        push_decimal(&mut line, core_data.cursor_location().column_ix as u64);
        line.append(", ");
        push_decimal(&mut line, core_data.cursor_location().row_ix as u64);
        line
    }
}

impl StatusBar {
    /// The priority that the bar was made with.
    pub closed spec fn priority(&self) -> u8 {
        self.priority
    }

    /// A bar of the given priority.
    pub fn new(priority: u8) -> (bar: StatusBar)
        ensures
            bar.priority() == priority,
    {
        StatusBar { priority }
    }
}

} // verus!
