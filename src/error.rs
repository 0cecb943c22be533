use vstd::prelude::*;

verus! {

/// Movement was asked of a list that holds no items.
#[derive(Debug, PartialEq, Eq, Structural)]
pub struct StatefulListStateInfoError;

impl StatefulListStateInfoError {
    /// The text shown for this error.
    pub fn message(&self) -> (r: String)
        ensures
            r@ == "Error in Statefullist"@,
    {
        String::from_str("Error in Statefullist")
    }
}

/// A line of the command file that does not hold exactly two `-`-separated fields.
#[derive(Debug, PartialEq, Eq, Structural)]
pub struct ConfigParseError {
    /// Index of the first malformed line.
    pub line: usize,
}

} // verus!
