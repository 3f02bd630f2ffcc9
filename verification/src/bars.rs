//! One-line bars that report on the state of the program.

use vstd::prelude::*;
use crate::core_data::{CoreData, CoreDataView};

pub mod decimal;
pub mod editor_info_bar;
pub mod performance_bar;
pub mod status_bar;

pub use editor_info_bar::EditorInfoBar;
pub use performance_bar::PerformanceBar;
pub use status_bar::StatusBar;

verus! {

/// A bar renders one line of status text.
pub trait Bar {
    /// The line that the bar shows for core data with the view `core`.
    spec fn text(&self, core: CoreDataView) -> Seq<char>;

    /// Renders the bar.
    fn render(&self, core_data: &CoreData) -> (line: String)
        ensures
            line@ == self.text(core_data@),
    ;
}

/// Any one of the bars that the program can show.
pub enum AnyBar {
    Status(StatusBar),
    Performance(PerformanceBar),
    EditorInfo(EditorInfoBar),
}

impl Bar for AnyBar {
    open spec fn text(&self, core: CoreDataView) -> Seq<char> {
        match self {
            AnyBar::Status(bar) => bar.text(core),
            AnyBar::Performance(bar) => bar.text(core),
            AnyBar::EditorInfo(bar) => bar.text(core),
        }
    }

    fn render(&self, core_data: &CoreData) -> (line: String) {
        match self {
            AnyBar::Status(bar) => bar.render(core_data),
            AnyBar::Performance(bar) => bar.render(core_data),
            AnyBar::EditorInfo(bar) => bar.render(core_data),
        }
    }
}

} // verus!
