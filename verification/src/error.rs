use vstd::prelude::*;

use crate::status::PjStatus;

verus! {

/// The errors of this library.
#[derive(Debug, Clone)]
pub enum Error {
    /// A pjlib call failed with this status.
    PjError(PjStatus),
    /// A string handed to pjlib held a NUL byte at this position.
    CStringNul(usize),
    /// A value failed a check of this library; the text says which.
    Validation(String),
}

} // verus!
