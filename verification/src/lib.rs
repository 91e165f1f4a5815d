//! Parser and validator for task declarations of a real-time embedded
//! framework's declarative configuration layer.
//!
//! A task declaration is a function-like construct carrying scheduling
//! metadata: a hardware-bound task is triggered by an external event source
//! and takes exactly one parameter (the framework-injected context), while a
//! software-bound task is spawned explicitly and takes the context plus zero
//! or more typed data parameters. Either kind may be declared "external":
//! signature only, with the implementation supplied elsewhere.
//!
//! The crate validates the shape of a declaration and either produces a
//! fully-validated, immutable task descriptor or a single diagnostic anchored
//! at the most meaningful source location.

use vstd::prelude::*;

pub mod ast;
pub mod hardware_task;
pub mod laws;
pub mod software_task;
pub mod util;

verus! {

/// A source location, kept as an opaque offset so that diagnostics can be
/// anchored at the construct that caused them.
#[derive(Clone, Copy, PartialEq, Eq, Structural, Debug)]
pub struct Span {
    pub at: u32,
}

} // verus!
