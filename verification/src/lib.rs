//! Year-progress chat bot library.
//!
//! The verified core of a small chat bot: a calculator that renders how far
//! the current calendar year has advanced as a fixed-width progress bar, and
//! a dispatcher that turns one inbound chat message into at most one reply.

pub mod calendar;
pub mod dispatch;
pub mod instant;
pub mod progress;
pub mod text;

use vstd::prelude::*;

verus! {

} // verus!
