//! Why a command was refused.

use vstd::prelude::*;
use vstd::string::*;
use crate::decimal::{decimal, to_decimal};

verus! {

/// The reasons a template refuses a command.
#[derive(Clone, Copy, Debug, PartialEq, Eq, Structural)]
pub enum TemplateError {
    /// Reset of a template whose value is already zero.
    AlreadyEmpty,
    /// Adding this amount would take the value over the limit.
    CannotAdd(usize),
    /// A delay of this many seconds cannot be waited.
    DelayOutOfBound(usize),
    /// The current time could not be read.
    CannotCalculateTime,
    /// No pending delay has the given id.
    DelayNotFound,
    /// The template keeps no pending delays, so it takes no delayed addition.
    DelayUnsupported,
}

impl TemplateError {
    /// The message shown for an error.
    pub open spec fn message(self) -> Seq<char> {
        match self {
            TemplateError::AlreadyEmpty => "cannot empty an empty state"@,
            TemplateError::CannotAdd(n) => "cannot add "@ + decimal(n as nat),
            TemplateError::DelayOutOfBound(d) => "cannot wait "@ + decimal(d as nat) + " seconds"@,
            TemplateError::CannotCalculateTime => "error calculating time"@,
            TemplateError::DelayNotFound => "delay not found"@,
            TemplateError::DelayUnsupported => "delayed additions are not supported"@,
        }
    }

    /// The message of the error.
    pub fn to_string(&self) -> (s: String)
        ensures
            s@ == self.message(),
    {
        match self {
            TemplateError::AlreadyEmpty => String::from_str("cannot empty an empty state"),
            TemplateError::CannotAdd(n) => String::from_str("cannot add ").concat(
                to_decimal(*n).as_str(),
            ),
            TemplateError::DelayOutOfBound(d) => String::from_str("cannot wait ").concat(
                to_decimal(*d).as_str(),
            ).concat(" seconds"),
            TemplateError::CannotCalculateTime => String::from_str("error calculating time"),
            TemplateError::DelayNotFound => String::from_str("delay not found"),
            TemplateError::DelayUnsupported => String::from_str(
                "delayed additions are not supported",
            ),
        }
    }
}

} // verus!
