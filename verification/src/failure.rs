//! How a session failed.
use vstd::prelude::*;

verus! {

/// A session failed at the point `at`, for a cause that is given in words.
#[derive(Debug)]
pub struct Failure<P> {
    pub at: P,
    pub cause: String,
}

/// The text of a [`Failure`].
pub struct FailureView<P> {
    pub at: P,
    pub cause: Seq<char>,
}

impl<P> View for Failure<P> {
    type V = FailureView<P>;

    open spec fn view(&self) -> FailureView<P> {
        FailureView { at: self.at, cause: self.cause@ }
    }
}

/// What stands behind a failure that may have happened.
pub open spec fn failed<P>(failure: Option<Failure<P>>) -> Option<FailureView<P>> {
    match failure {
        Some(f) => Some(f@),
        None => None,
    }
}

} // verus!
