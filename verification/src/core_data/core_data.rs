//! The screen size and the path of the open file.

use vstd::prelude::*;

verus! {

/// The size of the screen and the path of the file on display.
pub struct CoreData<'a> {
    cols: u16,
    rows: u16,
    file_path: &'a str,
}

impl<'a> CoreData<'a> {
    /// Columns and rows of the screen.
    pub closed spec fn size(&self) -> (u16, u16) {
        (self.cols, self.rows)
    }

    /// The characters of the file path.
    pub closed spec fn path(&self) -> Seq<char> {
        self.file_path@
    }

    /// A screen without size and an empty path.
    pub fn new() -> (data: CoreData<'a>)
        ensures
            data.size() == (0u16, 0u16),
            data.path() == Seq::<char>::empty(),
    {
        proof {
            reveal_strlit("");
        }
        CoreData { cols: 0, rows: 0, file_path: "" }
    }

    /// Records the size of the screen.
    pub fn set_dimensions(&mut self, cols: u16, rows: u16)
        ensures
            final(self).size() == (cols, rows),
            final(self).path() == old(self).path(),
    {
        self.cols = cols;
        self.rows = rows;
    }

    /// Records the path of the file on display.
    pub fn set_file_path(&mut self, file_path: &'a str)
        ensures
            final(self).path() == file_path@,
            final(self).size() == old(self).size(),
    {
        self.file_path = file_path;
    }

    /// Columns and rows of the screen.
    pub fn get_dimensions(&self) -> (size: (u16, u16))
        ensures
            size == self.size(),
    {
        (self.cols, self.rows)
    }

    /// The path of the file on display.
    pub fn get_file_path(&self) -> (path: &str)
        ensures
            path@ == self.path(),
    {
        self.file_path
    }
}

} // verus!
