//! Plain record types — a user and a book — with a verified checkout
//! mutator and a verified summary line for a book.

use vstd::prelude::*;
use vstd::string::StringExecFns;
use crate::numbers::{spec_decimal, u32_decimal};

verus! {

/// A user record: a fixed set of named fields, no further invariant.
pub struct User {
    pub username: String,
    pub email: String,
    pub sign_in_count: u64,
    pub active: bool,
}

/// A book record: a fixed set of named fields, no further invariant.
pub struct Book {
    pub title: String,
    pub author: String,
    pub publication_year: u32,
    pub is_available: bool,
}

/// The one-line summary of a book: its quoted title, its author, and
/// its publication year in parentheses.
pub open spec fn spec_book_summary(b: Book) -> Seq<char> {
    "'"@ + b.title@ + "' by "@ + b.author@ + " ("@ + spec_decimal(b.publication_year as nat)
        + ")"@
}

impl Book {
    /// Mark the book as checked out; every other field keeps its value.
    pub fn check_out(&mut self)
        ensures
            !final(self).is_available,
            final(self).title == old(self).title,
            final(self).author == old(self).author,
            final(self).publication_year == old(self).publication_year,
    {
        self.is_available = false;
    }

    /// Render the one-line summary of the book.
    pub fn summary(&self) -> (line: String)
        ensures
            line@ == spec_book_summary(*self),
    {
        let mut s = String::from_str("'");
        s.append(self.title.as_str());
        s.append("' by ");
        s.append(self.author.as_str());
        s.append(" (");
        let year = u32_decimal(self.publication_year);
        s.append(year.as_str());
        s.append(")");
        s
    }
}

} // verus!
