//! What happened to a template.

use vstd::prelude::*;
use vstd::string::*;
use crate::decimal::{decimal, to_decimal};

verus! {

/// An event recorded on a template's stream.
#[derive(Clone, Copy, Debug, PartialEq, Eq, Structural)]
pub enum TemplateEvent {
    /// The value grew by this amount.
    Added(usize),
    /// The value shrank by this amount.
    Removed(usize),
}

impl TemplateEvent {
    /// The short text of an event: a sign, then the amount in decimal.
    pub open spec fn text(self) -> Seq<char> {
        match self {
            TemplateEvent::Added(n) => seq!['+'] + decimal(n as nat),
            TemplateEvent::Removed(n) => seq!['-'] + decimal(n as nat),
        }
    }

    /// The short text of the event, `+n` or `-n`.
    pub fn to_string(&self) -> (s: String)
        ensures
            s@ == self.text(),
    {
        proof {
            reveal_strlit("+");
            reveal_strlit("-");
        }
        match self {
            TemplateEvent::Added(n) => String::from_str("+").concat(to_decimal(*n).as_str()),
            TemplateEvent::Removed(n) => String::from_str("-").concat(to_decimal(*n).as_str()),
        }
    }
}

} // verus!
