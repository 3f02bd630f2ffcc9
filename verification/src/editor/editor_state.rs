//! The size and cursor of an editor as one flat record.

use vstd::prelude::*;

verus! {

/// The state of an editor: the size of its region and where its cursor is.
#[derive(Clone, Copy, Debug, PartialEq, Eq, Structural)]
pub struct EditorState {
    /// The number of columns the editor has for display.
    pub columns: u16,
    /// The number of rows the editor has for display.
    pub rows: u16,
    /// Zero-based column of the cursor; column 0 is the left-most.
    pub column_ix: u16,
    /// Zero-based row of the cursor; row 0 is the top-most.
    pub row_ix: u16,
}

impl EditorState {
    /// The state of an editor that has not been given a region yet.
    pub fn default() -> (state: EditorState)
        ensures
            state == (EditorState { columns: 0, rows: 0, column_ix: 0, row_ix: 0 }),
    {
        EditorState { columns: 0, rows: 0, column_ix: 0, row_ix: 0 }
    }
}

} // verus!
