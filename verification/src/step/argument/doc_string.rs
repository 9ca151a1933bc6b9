//! Doc strings: possibly multiline strings attached to a step.

use vstd::prelude::*;

verus! {

/// A possibly multiline string attached to a step text, with its media type
/// and the line of its opening delimiter.
#[derive(Debug, Clone)]
pub struct DocString<'s> {
    content: &'s str,
    media_type: &'s str,
    line: u32,
}

impl<'s> DocString<'s> {
    /// The content of the doc string.
    pub closed spec fn spec_content(&self) -> Seq<char> {
        self.content@
    }

    /// The media type written after the opening delimiter; empty where none is.
    pub closed spec fn spec_media_type(&self) -> Seq<char> {
        self.media_type@
    }

    /// The line of the opening delimiter.
    pub closed spec fn spec_line(&self) -> u32 {
        self.line
    }

    /// Creates a doc string from its content, media type and opening line.
    pub fn new(content: &'s str, media_type: &'s str, line: u32) -> (d: DocString<'s>)
        ensures
            d.spec_content() == content@,
            d.spec_media_type() == media_type@,
            d.spec_line() == line,
    {
        DocString { content, media_type, line }
    }

    /// Returns the value (arguments already replaced) of the doc string.
    pub fn value(&self) -> (v: &'s str)
        ensures
            v@ == self.spec_content(),
    {
        self.content
    }

    /// Returns the content type of the doc string: `None` where no media type
    /// was given.
    pub fn content_type(&self) -> (t: Option<&'s str>)
        ensures
            self.spec_media_type().len() == 0 <==> t is None,
            t matches Some(m) ==> m@ == self.spec_media_type(),
    {
        if self.media_type.is_empty() {
            None
        } else {
            Some(self.media_type)
        }
    }

    /// Returns the media type of the doc string, empty where none was given.
    pub fn media_type(&self) -> (m: &'s str)
        ensures
            m@ == self.spec_media_type(),
    {
        self.media_type
    }

    /// Returns the line of the doc string's opening delimiter.
    pub fn line(&self) -> (l: u32)
        ensures
            l == self.spec_line(),
    {
        self.line
    }
}

} // verus!
