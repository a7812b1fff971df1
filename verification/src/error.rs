//! The ways in which laying out a receipt can fail.

use vstd::prelude::*;
use vstd::string::*;

verus! {

/// Why a line or a receipt could not be laid out.
#[derive(Clone, Copy, Debug, PartialEq, Eq, Structural)]
pub enum LayoutError {
    /// The width is zero, or the tax rate is above one hundred percent.
    Configuration,
    /// Quantity and price leave no room for the name field.
    LineOverflow,
    /// The name must be shortened and the mode has no defined algorithm.
    UnsupportedShorteningMode,
    /// A header or footer text is longer than the line.
    HeaderOverflow,
}

/// Whether a computed text is the outcome that a layout prescribes: the
/// same characters, or the same error.
pub open spec fn yields(
    result: Result<String, LayoutError>,
    outcome: Result<Seq<char>, LayoutError>,
) -> bool {
    match outcome {
        Ok(text) => result is Ok && result->Ok_0@ == text,
        Err(error) => result == Err::<String, LayoutError>(error),
    }
}

impl LayoutError {
    /// A short description of the failure, for messages to the user.
    pub fn message(&self) -> (text: String)
        ensures
            text@ == match *self {
                LayoutError::Configuration => "invalid receipt configuration"@,
                LayoutError::LineOverflow => "quantity and price do not fit the line"@,
                LayoutError::UnsupportedShorteningMode => "unsupported name shortening mode"@,
                LayoutError::HeaderOverflow => "header or footer text is wider than the line"@,
            },
    {
        match self {
            LayoutError::Configuration => String::from_str("invalid receipt configuration"),
            LayoutError::LineOverflow => String::from_str("quantity and price do not fit the line"),
            LayoutError::UnsupportedShorteningMode => String::from_str(
                "unsupported name shortening mode",
            ),
            LayoutError::HeaderOverflow => String::from_str(
                "header or footer text is wider than the line",
            ),
        }
    }
}

} // verus!
