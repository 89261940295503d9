//! Errors that the library reports.

use vstd::prelude::*;

verus! {

/// What can go wrong when a value is read from text.
#[derive(PartialEq, Eq, Structural, Clone, Copy, Debug)]
pub enum Error {
    /// The text names no HTTP version that this library knows.
    Version,
}

} // verus!
