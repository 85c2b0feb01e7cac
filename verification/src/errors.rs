use vstd::prelude::*;

verus! {

/// Why a request to the engine was refused.
#[derive(Clone, Copy, Debug, PartialEq, Eq, Structural)]
pub enum QuizError {
    /// A pool of the requested size cannot be drawn from the corpus.
    InsufficientCorpus,
    /// The submitted choice names no pool member.
    NoMatchingChoice,
}

impl QuizError {
    /// A short description for the host to show.
    pub fn describe(&self) -> (r: &'static str)
        ensures
            self is InsufficientCorpus ==> r@ == "corpus holds fewer pairs than the requested pool size"@,
            self is NoMatchingChoice ==> r@ == "submitted choice names no pool member"@,
    {
        match self {
            QuizError::InsufficientCorpus => "corpus holds fewer pairs than the requested pool size",
            QuizError::NoMatchingChoice => "submitted choice names no pool member",
        }
    }
}

} // verus!
