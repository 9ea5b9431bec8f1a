//! Lindenmayer-system rewriting and turtle interpretation.
//!
//! A [`System`] rewrites its start generation, symbol by symbol, by its
//! [`Rules`]; a [`SystemIterator`] hands out the generations one after the
//! other. A [`turtle::Turtle`] reads a generation and says, symbol by
//! symbol, what a renderer is to draw. An [`advancer::Advancer`] is the
//! state of a worker that computes generations on request, and
//! [`parser::parse`] reads a system from the lines of its text definition.
use vstd::prelude::*;

pub mod advancer;
pub mod parser;
pub mod rules;
pub mod symbol;
pub mod system;
pub mod text;
pub mod turtle;

pub use rules::{Rules, State};
pub use symbol::Symbol;
pub use system::{dump, System, SystemIterator};

verus! {

} // verus!
