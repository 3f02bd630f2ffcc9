//! A borrowed block of text.

use vstd::prelude::*;

verus! {

/// Text that an editor displays. The text is borrowed and never changed.
pub struct TextDocument<'a> {
    content: &'a str,
}

impl<'a> TextDocument<'a> {
    /// The characters of the document.
    pub closed spec fn text(&self) -> Seq<char> {
        self.content@
    }

    /// A document with the text `content`.
    pub fn new(content: &'a str) -> (document: TextDocument<'a>)
        ensures
            document.text() == content@,
    {
        TextDocument { content }
    }

    /// The text of the document.
    pub fn get_content(&self) -> (content: &'a str)
        ensures
            content@ == self.text(),
    {
        self.content
    }
}

} // verus!
