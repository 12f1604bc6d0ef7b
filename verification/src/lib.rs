//! Core of the template microservice: the commands a user sends, the events
//! they produce, the state they are decided against, the read model built
//! from the events, and the small text formats the services exchange.

pub mod command;
pub mod decimal;
pub mod delay;
pub mod dto;
pub mod error;
pub mod event;
pub mod input;
pub mod state;
pub mod stream;
pub mod template;
pub mod web;

use vstd::prelude::*;

verus! {

/// The value every template starts with.
pub const START_VALUE: usize = 1337;

} // verus!
