//! The editor surface: a sized region of the screen, a cursor and a scroll offset.

use vstd::prelude::*;
use crate::document::lines::{lemma_lines_unfold, line_length, lines, split_first_line};
use crate::document::TextDocument;

pub mod dimensions;
pub mod editor_state;
pub mod location;
pub mod movement;

pub use dimensions::Dimensions;
pub use editor_state::EditorState;
pub use location::Location;
pub use movement::Move;
use movement::lemma_shift_left_then_right_restores;

verus! {

/// The part of `line` that shows in a window `columns` wide whose left edge
/// is at column `scroll` of the line. A line that ends before the left edge
/// shows nothing.
pub open spec fn clip(line: Seq<char>, scroll: int, columns: int) -> Seq<char> {
    if scroll > line.len() {
        Seq::empty()
    } else if scroll + columns > line.len() {
        line.subrange(scroll, line.len() as int)
    } else {
        line.subrange(scroll, scroll + columns)
    }
}

/// What a window of `columns` by `rows` shows of `all` lines when scrolled
/// `scroll` columns to the right: the first `rows` lines, each clipped.
pub open spec fn visible(all: Seq<Seq<char>>, scroll: int, columns: int, rows: int) -> Seq<
    Seq<char>,
> {
    Seq::new(
        if rows < all.len() {
            rows as nat
        } else {
            all.len()
        },
        |i: int| clip(all[i], scroll, columns),
    )
}

/// Cuts from `line` the part that `clip` describes.
pub fn clip_line<'a>(line: &'a str, scroll: u16, columns: u16) -> (shown: &'a str)
    ensures
        shown@ == clip(line@, scroll as int, columns as int),
{
    let len = line.unicode_len();
    let start = scroll as usize;
    if start > len {
        line.substring_char(0, 0)
    } else {
        let wanted = start + columns as usize;
        let end = if wanted > len {
            len
        } else {
            wanted
        };
        line.substring_char(start, end)
    }
}

/// An editor shows one document in the part of the screen given to it.
pub struct Editor<'a> {
    /// The size of the region in which this editor displays its content.
    pub dimensions: Dimensions,
    /// Where the cursor is, relative to the region.
    pub cursor_location: Location,
    /// How far the content is scrolled, in columns and rows of the content.
    pub scroll_amount: Location,
    /// The text on display, once a document has been loaded.
    pub content: Option<&'a str>,
}

impl<'a> Editor<'a> {
    /// The cursor lies inside the region.
    pub open spec fn cursor_in_bounds(&self) -> bool {
        self.cursor_location.inside(self.dimensions)
    }

    /// The lines that the region shows, one per display row from the top.
    /// Nothing shows before a document is loaded. Rows are never scrolled.
    pub open spec fn visible_lines(&self) -> Seq<Seq<char>> {
        match self.content {
            None => Seq::empty(),
            Some(content) => visible(
                lines(content@),
                self.scroll_amount.column_ix as int,
                self.dimensions.columns as int,
                self.dimensions.rows as int,
            ),
        }
    }

    /// The content line on the cursor's row runs on beyond the right edge of
    /// the region.
    pub open spec fn hides_text_right(&self) -> bool {
        match self.content {
            None => false,
            Some(content) => {
                let all = lines(content@);
                let row = self.cursor_location.row_ix as int;
                row < all.len() && all[row].len() > self.scroll_amount.column_ix
                    + self.dimensions.columns
            },
        }
    }

    /// A move of `n` columns to the right would carry the cursor past the
    /// last column.
    pub open spec fn overshoots_right(&self, n: u16) -> bool {
        self.cursor_location.column_ix + n > self.dimensions.columns - 1
    }

    /// `move_cursor_right` can be asked for `n` columns: the region has a
    /// column to stand on, and a scroll offset that has to grow still fits
    /// its type.
    pub open spec fn can_move_right(&self, n: u16) -> bool {
        &&& self.dimensions.columns >= 1
        &&& self.overshoots_right(n) && self.hides_text_right()
            ==> self.scroll_amount.column_ix < u16::MAX
    }

    /// The editor after the cursor has moved `n` columns to the left.
    pub open spec fn after_move_left(self, n: u16) -> Editor<'a> {
        Editor { cursor_location: self.cursor_location.shifted_left(n), ..self }
    }

    /// The editor after the cursor has moved `n` columns to the right. The
    /// content scrolls by one column, whatever `n` is, where the move would
    /// pass the last column while the line on the cursor's row runs on beyond
    /// the right edge.
    pub open spec fn after_move_right(self, n: u16) -> Editor<'a> {
        Editor {
            cursor_location: self.cursor_location.shifted_right(n, self.dimensions),
            scroll_amount: if self.overshoots_right(n) && self.hides_text_right() {
                Location {
                    column_ix: (self.scroll_amount.column_ix + 1) as u16,
                    row_ix: self.scroll_amount.row_ix,
                }
            } else {
                self.scroll_amount
            },
            ..self
        }
    }

    /// The editor after the cursor has moved `n` rows up.
    pub open spec fn after_move_up(self, n: u16) -> Editor<'a> {
        Editor { cursor_location: self.cursor_location.shifted_up(n), ..self }
    }

    /// The editor after the cursor has moved `n` rows down.
    pub open spec fn after_move_down(self, n: u16) -> Editor<'a> {
        Editor { cursor_location: self.cursor_location.shifted_down(n, self.dimensions), ..self }
    }

    /// An editor of the given size with no content, the cursor at the origin
    /// and nothing scrolled.
    pub fn new(dimensions: Dimensions) -> (editor: Editor<'a>)
        ensures
            editor.dimensions == dimensions,
            editor.cursor_location == (Location { column_ix: 0, row_ix: 0 }),
            editor.scroll_amount == (Location { column_ix: 0, row_ix: 0 }),
            editor.content is None,
            dimensions.is_sized() ==> editor.cursor_in_bounds(),
    {
        Editor {
            dimensions,
            cursor_location: Location::default(),
            scroll_amount: Location::default(),
            content: None,
        }
    }

    /// Loads the text of `document`. Cursor and scroll offset stay as they are.
    pub fn set_content(&mut self, document: &'a TextDocument<'a>)
        ensures
            final(self).content matches Some(content) && content@ == document.text(),
            final(self).dimensions == old(self).dimensions,
            final(self).cursor_location == old(self).cursor_location,
            final(self).scroll_amount == old(self).scroll_amount,
    {
        self.content = Some(document.get_content());
    }

    /// The text to draw, one slice per display row from the top: the lines
    /// of `visible_lines`. There are never more slices than the region has
    /// rows, none is longer than the region has columns, and there is none
    /// at all before a document is loaded.
    pub fn get_render_content(&self) -> (rendered: Vec<&'a str>)
        ensures
            rendered@.len() == self.visible_lines().len(),
            forall|i: int| 0 <= i < rendered@.len() ==> rendered@[i]@ == self.visible_lines()[i],
            self.content is None ==> rendered@.len() == 0,
            rendered@.len() <= self.dimensions.rows,
            forall|i: int|
                0 <= i < rendered@.len() ==> (#[trigger] rendered@[i])@.len()
                    <= self.dimensions.columns,
    {
        let mut rendered: Vec<&'a str> = Vec::new();
        if let Some(content) = self.content {
            let ghost all = lines(content@);
            let scroll = self.scroll_amount.column_ix;
            let columns = self.dimensions.columns;
            let rows = self.dimensions.rows;
            let mut rest: Option<&'a str> = Some(content);
            let mut row: u16 = 0;
            while row < rows && rest.is_some()
                invariant
                    all == lines(content@),
                    row <= rows,
                    rendered@.len() == row,
                    row <= all.len(),
                    rest matches Some(text) ==> all.skip(row as int) == lines(text@),
                    rest is None ==> all.len() == row,
                    forall|i: int|
                        0 <= i < row ==> rendered@[i]@ == clip(
                            all[i],
                            scroll as int,
                            columns as int,
                        ),
                decreases rows - row,
            {
                let text = rest.unwrap();
                proof {
                    lemma_lines_unfold(text@);
                }
                let (line, tail) = split_first_line(text);
                rendered.push(clip_line(line, scroll, columns));
                rest = tail;
                row = row + 1;
            }
            assert forall|i: int| 0 <= i < rendered@.len() implies (#[trigger] rendered@[i])@.len()
                <= columns by {
                assert(rendered@[i]@ == clip(all[i], scroll as int, columns as int));
            }
        }
        rendered
    }

    /// Gives the editor a region of a new size. Nothing else changes: the
    /// cursor is not moved, so it may lie outside a smaller region.
    pub fn resize(&mut self, dimensions: Dimensions)
        ensures
            *final(self) == (Editor { dimensions, ..*old(self) }),
    {
        self.dimensions = dimensions;
    }

    /// Sets the scroll offset. Any offset is accepted, also one beyond the
    /// end of the content.
    pub fn scroll_to(&mut self, column_ix: u16, row_ix: u16)
        ensures
            *final(self) == (Editor { scroll_amount: Location { column_ix, row_ix }, ..*old(self) }),
    {
        self.scroll_amount.column_ix = column_ix;
        self.scroll_amount.row_ix = row_ix;
    }

    /// The cursor's column and row on the screen region.
    pub fn cursor_screen_position(&self) -> (position: (u16, u16))
        ensures
            position == (self.cursor_location.column_ix, self.cursor_location.row_ix),
    {
        (self.cursor_location.column_ix, self.cursor_location.row_ix)
    }

    /// Moves the cursor `num_columns` to the left, stopping at column 0.
    /// The scroll offset never changes.
    pub fn move_cursor_left(&mut self, num_columns: u16)
        ensures
            *final(self) == old(self).after_move_left(num_columns),
            old(self).cursor_in_bounds() ==> final(self).cursor_in_bounds(),
    {
        if num_columns > self.cursor_location.column_ix {
            self.cursor_location.column_ix = 0;
        } else {
            self.cursor_location.column_ix = self.cursor_location.column_ix - num_columns;
        }
    }

    /// Moves the cursor `num_columns` to the right, stopping at the last
    /// column. A move that would pass the last column also scrolls the content
    /// one column to the right, whatever `num_columns` is, if the line on the
    /// cursor's row runs on beyond the right edge.
    pub fn move_cursor_right(&mut self, num_columns: u16)
        requires
            old(self).can_move_right(num_columns),
        ensures
            *final(self) == old(self).after_move_right(num_columns),
            final(self).cursor_location.column_ix < final(self).dimensions.columns,
            old(self).cursor_in_bounds() ==> final(self).cursor_in_bounds(),
    {
        if self.passes_last_column(num_columns) {
            if self.has_hidden_text_right() {
                self.scroll_amount.column_ix = self.scroll_amount.column_ix + 1;
            }
            self.cursor_location.column_ix = self.dimensions.columns - 1;
        } else {
            self.cursor_location.column_ix = self.cursor_location.column_ix + num_columns;
        }
    }

    /// Moves the cursor as `move_cursor_right` does where that can be asked
    /// for, and leaves the editor as it is where it cannot. Tells which.
    pub fn try_move_cursor_right(&mut self, num_columns: u16) -> (moved: bool)
        ensures
            moved == old(self).can_move_right(num_columns),
            moved ==> *final(self) == old(self).after_move_right(num_columns),
            !moved ==> *final(self) == *old(self),
    {
        if self.dimensions.columns == 0 {
            return false;
        }
        if self.scroll_amount.column_ix == u16::MAX && self.passes_last_column(num_columns)
            && self.has_hidden_text_right() {
            return false;
        }
        self.move_cursor_right(num_columns);
        true
    }

    /// Tells whether a move of `n` columns to the right would carry the
    /// cursor past the last column.
    fn passes_last_column(&self, n: u16) -> (passes: bool)
        requires
            self.dimensions.columns >= 1,
        ensures
            passes == self.overshoots_right(n),
    {
        let last = self.dimensions.columns - 1;
        n > last || self.cursor_location.column_ix > last - n
    }

    /// Tells whether the content line on the cursor's row runs on beyond the
    /// right edge of the region.
    fn has_hidden_text_right(&self) -> (hidden: bool)
        ensures
            hidden == self.hides_text_right(),
    {
        match self.content {
            None => false,
            Some(content) => {
                let edge = self.scroll_amount.column_ix as usize + self.dimensions.columns as usize;
                match line_length(content, self.cursor_location.row_ix as usize) {
                    None => false,
                    Some(len) => len > edge,
                }
            },
        }
    }

    /// Moves the cursor `num_rows` up, stopping at row 0.
    pub fn move_cursor_up(&mut self, num_rows: u16)
        ensures
            *final(self) == old(self).after_move_up(num_rows),
            old(self).cursor_in_bounds() ==> final(self).cursor_in_bounds(),
    {
        if num_rows > self.cursor_location.row_ix {
            self.cursor_location.row_ix = 0;
        } else {
            self.cursor_location.row_ix = self.cursor_location.row_ix - num_rows;
        }
    }

    /// Moves the cursor `num_rows` down, stopping at the last row.
    pub fn move_cursor_down(&mut self, num_rows: u16)
        requires
            old(self).dimensions.rows >= 1,
        ensures
            *final(self) == old(self).after_move_down(num_rows),
            final(self).cursor_location.row_ix < final(self).dimensions.rows,
            old(self).cursor_in_bounds() ==> final(self).cursor_in_bounds(),
    {
        let target = self.cursor_location.row_ix as u32 + num_rows as u32;
        if target >= self.dimensions.rows as u32 {
            self.cursor_location.row_ix = self.dimensions.rows - 1;
        } else {
            self.cursor_location.row_ix = target as u16;
        }
    }
}

/// Moving the cursor left by `n` columns and then right by `n` columns leaves
/// the whole editor as it was, scroll offset included, provided the cursor
/// was inside the region and at least `n` columns from its left edge. The
/// move back never passes the last column, so it is one that
/// `move_cursor_right` can be asked for.
pub proof fn lemma_left_then_right_restores(editor: Editor, n: u16)
    requires
        editor.cursor_in_bounds(),
        n <= editor.cursor_location.column_ix,
    ensures
        editor.after_move_left(n).can_move_right(n),
        !editor.after_move_left(n).overshoots_right(n),
        editor.after_move_left(n).after_move_right(n) == editor,
{
    lemma_shift_left_then_right_restores(editor.cursor_location, n, editor.dimensions);
}

/// Each of the four moves keeps a cursor that is inside a sized region inside
/// it, and changes nothing but the cursor and, for a move to the right, the
/// column of the scroll offset.
pub proof fn lemma_moves_keep_cursor_in_bounds(editor: Editor, n: u16)
    requires
        editor.dimensions.is_sized(),
        editor.cursor_in_bounds(),
    ensures
        editor.after_move_left(n).cursor_in_bounds(),
        editor.after_move_right(n).cursor_in_bounds(),
        editor.after_move_up(n).cursor_in_bounds(),
        editor.after_move_down(n).cursor_in_bounds(),
        editor.after_move_left(n).dimensions == editor.dimensions,
        editor.after_move_right(n).dimensions == editor.dimensions,
        editor.after_move_up(n).dimensions == editor.dimensions,
        editor.after_move_down(n).dimensions == editor.dimensions,
{
}

} // verus!
