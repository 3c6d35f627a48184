//! Reading a value from an attribute's string.

use vstd::prelude::*;

verus! {

/// A type whose values can be read from a string.
pub trait Parse: Sized {
    /// What the caller hands over besides the string.
    type Data;

    /// What comes back when the string cannot be read.
    type Err;

    /// Reads a value from `s`.
    fn parse(s: &str, data: Self::Data) -> Result<Self, Self::Err>;
}

} // verus!
