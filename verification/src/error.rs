use vstd::prelude::*;

verus! {

/// Errors that the leaderboard's buttons can answer with.
#[derive(Clone, Copy, Debug, PartialEq, Eq, Structural)]
pub enum Error {
    /// Someone other than the member who opened the leaderboard pressed one of its buttons.
    NotInteractionAuthor,
}

impl Error {
    /// The text that the error is displayed as: the name of its variant.
    pub fn as_str(&self) -> (r: &'static str)
        ensures
            r@ == "NotInteractionAuthor"@,
    {
        match self {
            Error::NotInteractionAuthor => "NotInteractionAuthor",
        }
    }
}

} // verus!
