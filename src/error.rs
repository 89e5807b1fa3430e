//! The one error that callers see: a message for a person to read.
use vstd::prelude::*;

verus! {

/// A pattern that could not be compiled or parsed, with the reason.
#[derive(Clone, Debug)]
pub struct PatternError {
    pub message: String,
}

} // verus!
