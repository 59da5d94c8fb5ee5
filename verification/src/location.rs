//! Places in the source: where an error value was made.

use vstd::prelude::*;
use vstd::string::StringExecFns;

use crate::decimal::{decimal_text, push_decimal};

verus! {

/// What a [`Location`] records, as mathematics: the file's name and the
/// line and column in it.
pub struct Site {
    pub file: Seq<char>,
    pub line: nat,
    pub column: nat,
}

/// A place in the source: file, line and column. It is taken down once, when
/// an error value is made, and never changes afterwards. To name a place
/// costs nothing: the file's name is borrowed from the program's text.
#[derive(Clone, Copy, Debug)]
pub struct Location {
    file: &'static str,
    line: u32,
    column: u32,
}

impl View for Location {
    type V = Site;

    closed spec fn view(&self) -> Site {
        Site { file: self.file@, line: self.line as nat, column: self.column as nat }
    }
}

/// The text of a place: `<file>:<line>:<column>`.
pub open spec fn site_text(site: Site) -> Seq<char> {
    site.file + ":"@ + decimal_text(site.line) + ":"@ + decimal_text(site.column)
}

impl Location {
    /// The place at `line` and `column` of `file`.
    pub fn new(file: &'static str, line: u32, column: u32) -> (at: Location)
        ensures
            at@ == (Site { file: file@, line: line as nat, column: column as nat }),
    {
        Location { file, line, column }
    }

    /// The name of the file.
    pub fn file(&self) -> (file: &'static str)
        ensures
            file@ == self@.file,
    {
        self.file
    }

    /// The line in the file.
    pub fn line(&self) -> (line: u32)
        ensures
            line as nat == self@.line,
    {
        self.line
    }

    /// The column in the line.
    pub fn column(&self) -> (column: u32)
        ensures
            column as nat == self@.column,
    {
        self.column
    }

    /// Appends `<file>:<line>:<column>` to `out`.
    pub fn push_text(&self, out: &mut String)
        ensures
            final(out)@ == old(out)@ + site_text(self@),
    {
        out.append(self.file);
        out.append(":");
        push_decimal(out, self.line);
        out.append(":");
        push_decimal(out, self.column);
        assert(final(out)@ =~= old(out)@ + site_text(self@));
    }
}

} // verus!
