use vstd::prelude::*;

verus! {

/// The failures the tally core can report. All of them are detected locally
/// and surfaced to the caller as a rejection with a descriptive message.
#[derive(Clone, Copy, Debug, PartialEq, Eq, Structural)]
pub enum TallyError {
    /// The raw identifier lies outside the configured range.
    InvalidIdentifier,
    /// A reset was attempted without the matching lock token.
    Unauthorized,
    /// A lookup named an identifier that was never populated.
    NotFound,
}

impl TallyError {
    /// The descriptive message surfaced verbatim to the caller.
    pub fn message(&self) -> (r: String)
        ensures
            *self == TallyError::InvalidIdentifier ==> r@ == "Error: The identifier supplied is outside the configured range"@,
            *self == TallyError::Unauthorized ==> r@ == "Error: The token supplied does not match the token supplied at server start"@,
            *self == TallyError::NotFound ==> r@ == "Error: No data found for the requested zone"@,
    {
        match self {
            TallyError::InvalidIdentifier => String::from_str(
                "Error: The identifier supplied is outside the configured range",
            ),
            TallyError::Unauthorized => String::from_str(
                "Error: The token supplied does not match the token supplied at server start",
            ),
            TallyError::NotFound => String::from_str("Error: No data found for the requested zone"),
        }
    }
}

} // verus!
