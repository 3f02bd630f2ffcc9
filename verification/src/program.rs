//! The state of the running program and what each input event does to it.

use vstd::prelude::*;
use crate::bars::{AnyBar, Bar, PerformanceBar, StatusBar};
use crate::core_data::{CoreData, CoreDataView};
use crate::editor::{Dimensions, Editor, Location};

verus! {

/// The screen row of the first bar; each further bar is drawn one row below
/// the one before it.
pub const FIRST_BAR_ROW: u16 = 22;

/// What the terminal reports to the program.
#[derive(Clone, Copy, Debug, PartialEq, Eq)]
pub enum InputEvent {
    /// The key of this character was pressed by itself, with no control or
    /// alt key held.
    Char(char),
    /// Any other key, or a key pressed together with a modifier key.
    OtherKey,
    /// The mouse was moved or used.
    Mouse,
    /// The terminal now has this many columns and rows.
    Resize(u16, u16),
}

/// The parts of a `Program`.
pub struct ProgramView<'a> {
    pub core: CoreDataView,
    pub editor: Editor<'a>,
    pub bars: Seq<AnyBar>,
    pub running: bool,
}

impl<'a> ProgramView<'a> {
    /// The program after a resize to `width` columns and `height` rows: the
    /// editor gets the whole screen, and the core data records the new size.
    /// The cursor is left where it is.
    pub open spec fn resized(self, width: u16, height: u16) -> ProgramView<'a> {
        let dimensions = Dimensions { columns: width, rows: height };
        ProgramView {
            core: CoreDataView { dimensions, ..self.core },
            editor: Editor { dimensions, ..self.editor },
            ..self
        }
    }

    /// The program after one event. The keys `h`, `j`, `k` and `l` move the
    /// cursor one cell left, down, up and right, and `q` stops the program.
    /// A move that the editor cannot take, because its region has no row or
    /// column for the cursor or the scroll offset cannot grow, is left out.
    /// Other keys and the mouse change nothing.
    pub open spec fn after_event(self, event: InputEvent) -> ProgramView<'a> {
        match event {
            InputEvent::Char(key) => {
                if key == 'h' {
                    ProgramView { editor: self.editor.after_move_left(1), ..self }
                } else if key == 'j' {
                    if self.editor.dimensions.rows >= 1 {
                        ProgramView { editor: self.editor.after_move_down(1), ..self }
                    } else {
                        self
                    }
                } else if key == 'k' {
                    ProgramView { editor: self.editor.after_move_up(1), ..self }
                } else if key == 'l' {
                    if self.editor.can_move_right(1) {
                        ProgramView { editor: self.editor.after_move_right(1), ..self }
                    } else {
                        self
                    }
                } else if key == 'q' {
                    ProgramView { running: false, ..self }
                } else {
                    self
                }
            },
            InputEvent::OtherKey => self,
            InputEvent::Mouse => self,
            InputEvent::Resize(width, height) => self.resized(width, height),
        }
    }
}

/// The running program: its core data, its one editor, its bars, and
/// whether it is still to go on.
pub struct Program<'a> {
    core_data: CoreData,
    editor: Editor<'a>,
    bars: Vec<AnyBar>,
    running: bool,
}

impl<'a> View for Program<'a> {
    type V = ProgramView<'a>;

    closed spec fn view(&self) -> ProgramView<'a> {
        ProgramView {
            core: self.core_data@,
            editor: self.editor,
            bars: self.bars@,
            running: self.running,
        }
    }
}

impl<'a> Program<'a> {
    /// A program that is not running yet: an editor of the default size
    /// without content, no bars, and fresh core data.
    pub fn new() -> (program: Program<'a>)
        ensures
            program@.core == (CoreDataView {
                running_for_secs: 0,
                frames: 0,
                dimensions: Dimensions { columns: 80, rows: 24 },
                cursor_location: Location { column_ix: 0, row_ix: 0 },
            }),
            program@.editor == (Editor {
                dimensions: Dimensions { columns: 80, rows: 24 },
                cursor_location: Location { column_ix: 0, row_ix: 0 },
                scroll_amount: Location { column_ix: 0, row_ix: 0 },
                content: None,
            }),
            program@.bars.len() == 0,
            !program@.running,
    {
        Program {
            core_data: CoreData::new(),
            editor: Editor::new(Dimensions::default()),
            bars: Vec::new(),
            running: false,
        }
    }

    /// Marks the program as running and creates its bars.
    pub fn start(&mut self)
        ensures
            final(self)@.running,
            final(self)@.core == old(self)@.core,
            final(self)@.editor == old(self)@.editor,
            Self::has_bars_added(old(self)@.bars, final(self)@.bars),
    {
        self.running = true;
        self.create_bars();
    }

    /// Whether the program is to go on.
    pub fn is_running(&self) -> (running: bool)
        ensures
            running == self@.running,
    {
        self.running
    }

    /// Where on the screen the cursor is to be drawn: column, then row.
    pub fn cursor_position(&self) -> (position: (u16, u16))
        ensures
            position == (
                self@.editor.cursor_location.column_ix,
                self@.editor.cursor_location.row_ix,
            ),
    {
        self.editor.cursor_screen_position()
    }

    /// Applies one event from the terminal. No key takes the cursor out of
    /// the editor's region.
    pub fn handle_event(&mut self, event: InputEvent)
        ensures
            final(self)@ == old(self)@.after_event(event),
            !(event is Resize) && old(self)@.editor.cursor_in_bounds()
                ==> final(self)@.editor.cursor_in_bounds(),
    {
        match event {
            InputEvent::Char(key) => {
                if key == 'h' {
                    self.editor.move_cursor_left(1);
                } else if key == 'j' {
                    if self.editor.dimensions.rows >= 1 {
                        self.editor.move_cursor_down(1);
                    }
                } else if key == 'k' {
                    self.editor.move_cursor_up(1);
                } else if key == 'l' {
                    self.editor.try_move_cursor_right(1);
                } else if key == 'q' {
                    self.running = false;
                }
            },
            InputEvent::OtherKey => {},
            InputEvent::Mouse => {},
            InputEvent::Resize(width, height) => {
                self.handle_resize(width, height);
            },
        }
    }

    /// Takes the new size of the terminal.
    pub fn handle_resize(&mut self, width: u16, height: u16)
        ensures
            final(self)@ == old(self)@.resized(width, height),
    {
        self.editor.resize(Dimensions::new(width, height));
        self.core_data.update_dimensions(&self.editor.dimensions);
    }

    /// `after` is `before` with a status bar of priority 1 and a performance
    /// bar of priority 2 added at its end, in this order.
    pub open spec fn has_bars_added(before: Seq<AnyBar>, after: Seq<AnyBar>) -> bool {
        &&& after.len() == before.len() + 2
        &&& after.take(before.len() as int) == before
        &&& after[before.len() as int] matches AnyBar::Status(bar) && bar.priority() == 1
        &&& after[before.len() as int + 1] matches AnyBar::Performance(bar) && bar.priority() == 2
    }

    /// Creates the status bar and the performance bar.
    pub fn create_bars(&mut self)
        ensures
            Self::has_bars_added(old(self)@.bars, final(self)@.bars),
            final(self)@.core == old(self)@.core,
            final(self)@.editor == old(self)@.editor,
            final(self)@.running == old(self)@.running,
    {
        self.bars.push(AnyBar::Status(StatusBar::new(1)));
        self.bars.push(AnyBar::Performance(PerformanceBar::new(2)));
        assert(final(self)@.bars.take(old(self)@.bars.len() as int) =~= old(self)@.bars);
    }

    /// The line of each bar with the screen row on which it is drawn: the
    /// bars in order, on consecutive rows from `FIRST_BAR_ROW` down.
    pub fn render_bars(&self) -> (drawn: Vec<(u16, String)>)
        requires
            FIRST_BAR_ROW + self@.bars.len() <= u16::MAX + 1,
        ensures
            drawn@.len() == self@.bars.len(),
            forall|i: int|
                0 <= i < drawn@.len() ==> (#[trigger] drawn@[i]).0 == FIRST_BAR_ROW + i
                    && drawn@[i].1@ == self@.bars[i].text(self@.core),
    {
        let mut drawn: Vec<(u16, String)> = Vec::new();
        let mut ix: usize = 0;
        while ix < self.bars.len()
            invariant
                ix <= self.bars@.len(),
                FIRST_BAR_ROW + self.bars@.len() <= u16::MAX + 1,
                drawn@.len() == ix,
                forall|i: int|
                    0 <= i < ix ==> (#[trigger] drawn@[i]).0 == FIRST_BAR_ROW + i && drawn@[i].1@
                        == self.bars@[i].text(self.core_data@),
            decreases self.bars@.len() - ix,
        {
            let row = FIRST_BAR_ROW + ix as u16;
            let line = self.bars[ix].render(&self.core_data);
            drawn.push((row, line));
            ix = ix + 1;
        }
        drawn
    }

    /// The core data, of which the bars report.
    pub fn core_data(&self) -> (core_data: &CoreData)
        ensures
            core_data@ == self@.core,
    {
        &self.core_data
    }

    /// The number of bars.
    pub fn bar_count(&self) -> (count: usize)
        ensures
            count == self@.bars.len(),
    {
        self.bars.len()
    }

    /// Ends a frame: counts it, reads the clock, and records where the
    /// cursor is.
    pub fn end_frame(&mut self)
        requires
            old(self)@.core.frames < u64::MAX,
        ensures
            final(self)@.core.frames == old(self)@.core.frames + 1,
            final(self)@.core.dimensions == old(self)@.core.dimensions,
            final(self)@.core.cursor_location == old(self)@.editor.cursor_location,
            final(self)@.editor == old(self)@.editor,
            final(self)@.bars == old(self)@.bars,
            final(self)@.running == old(self)@.running,
    {
        self.core_data.tick();
        self.core_data.update_cursor_location(&self.editor.cursor_location);
    }
}

} // verus!
