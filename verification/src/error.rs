//! The errors that reading an attribute can give.

use vstd::prelude::*;

verus! {

/// A string did not follow its grammar. `display` says what was expected.
#[derive(Debug, Clone, PartialEq, Eq)]
pub struct ParseError {
    pub display: String,
}

impl ParseError {
    /// A parse error with the given text.
    pub fn new(msg: &str) -> (r: ParseError)
        ensures
            r.display@ == msg@,
    {
        ParseError { display: msg.to_owned() }
    }
}

/// Why an attribute's value was refused.
#[derive(Debug, Clone, PartialEq, Eq)]
pub enum AttributeError {
    /// The string is not in the attribute's grammar.
    Parse(ParseError),
    /// The string was read, but the value is outside the allowed range.
    Value(String),
}

impl AttributeError {
    /// This is a grammar error that carries the text `msg`.
    pub open spec fn is_parse_with(self, msg: Seq<char>) -> bool {
        self matches AttributeError::Parse(e) && e.display@ == msg
    }

    /// This is a range error that carries the text `msg`.
    pub open spec fn is_value_with(self, msg: Seq<char>) -> bool {
        self matches AttributeError::Value(text) && text@ == msg
    }
}

/// Whether a result is a grammar error.
pub fn is_parse_error<T>(r: &Result<T, AttributeError>) -> (b: bool)
    ensures
        b == (r matches Err(AttributeError::Parse(_))),
{
    match r {
        Err(AttributeError::Parse(_)) => true,
        _ => false,
    }
}

/// Whether a result is a range error.
pub fn is_value_error<T>(r: &Result<T, AttributeError>) -> (b: bool)
    ensures
        b == (r matches Err(AttributeError::Value(_))),
{
    match r {
        Err(AttributeError::Value(_)) => true,
        _ => false,
    }
}

} // verus!
