//! A tagged-union message with four mutually exclusive shapes, and the
//! verified rendering of a message to its one-line report.

use vstd::prelude::*;
use vstd::string::StringExecFns;
use crate::numbers::{i32_decimal, spec_int_decimal};

verus! {

/// A message is exactly one of these four variants at a time.
pub enum Message {
    /// No data.
    Quit,
    /// A text payload.
    Write(String),
    /// A named pair of signed coordinates.
    Move { x: i32, y: i32 },
    /// Three signed color channel values.
    ChangeColor(i32, i32, i32),
}

/// The report line for a message, one form per variant.
pub open spec fn spec_message_line(m: Message) -> Seq<char> {
    match m {
        Message::Quit => "Quit message: has no data."@,
        Message::Write(text) => "Write message: "@ + text@,
        Message::Move { x, y } => "Move message: move to x="@ + spec_int_decimal(
            x as int,
        ) + ", y="@ + spec_int_decimal(y as int),
        Message::ChangeColor(r, g, b) => "ChangeColor message: R="@ + spec_int_decimal(
            r as int,
        ) + ", G="@ + spec_int_decimal(g as int) + ", B="@ + spec_int_decimal(b as int),
    }
}

/// Render the report line for a message, dispatching on its variant.
pub fn process_message(m: &Message) -> (line: String)
    ensures
        line@ == spec_message_line(*m),
{
    match m {
        Message::Quit => String::from_str("Quit message: has no data."),
        Message::Write(text) => {
            let mut s = String::from_str("Write message: ");
            s.append(text.as_str());
            s
        },
        Message::Move { x, y } => {
            let mut s = String::from_str("Move message: move to x=");
            let xs = i32_decimal(*x);
            s.append(xs.as_str());
            s.append(", y=");
            let ys = i32_decimal(*y);
            s.append(ys.as_str());
            s
        },
        Message::ChangeColor(r, g, b) => {
            let mut s = String::from_str("ChangeColor message: R=");
            let rs = i32_decimal(*r);
            s.append(rs.as_str());
            s.append(", G=");
            let gs = i32_decimal(*g);
            s.append(gs.as_str());
            s.append(", B=");
            let bs = i32_decimal(*b);
            s.append(bs.as_str());
            s
        },
    }
}

} // verus!
