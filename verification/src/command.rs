//! What a user asks of a template.

use vstd::prelude::*;

verus! {

/// Add `to_add` to the template once `delay` seconds have passed.
#[derive(Clone, Copy, Debug, PartialEq, Eq, Structural)]
pub struct Delay {
    pub delay: usize,
    pub to_add: usize,
}

/// A command sent to a template.
#[derive(Clone, Copy, Debug, PartialEq, Eq, Structural)]
pub enum TemplateCommand {
    /// Add a value after a delay.
    Delayed(Delay),
    /// Complete the delayed addition with the given id.
    Finalize(usize),
    /// Add a value now.
    Add(usize),
    /// Bring the value back to zero.
    Reset,
}

} // verus!
