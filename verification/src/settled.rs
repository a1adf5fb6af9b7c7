//! The settled value that travels through a chain of promises.

use vstd::prelude::*;

verus! {

/// A promise that has been decided: resolved to an integer, or rejected with a
/// message.
#[derive(Debug, PartialEq, Eq)]
pub enum Settled {
    Success(i32),
    Failure(String),
}

/// The mathematical content of a [`Settled`] value.
pub enum Outcome {
    Success(int),
    Failure(Seq<char>),
}

impl View for Settled {
    type V = Outcome;

    open spec fn view(&self) -> Outcome {
        match *self {
            Settled::Success(n) => Outcome::Success(n as int),
            Settled::Failure(message) => Outcome::Failure(message@),
        }
    }
}

impl Clone for Settled {
    fn clone(&self) -> (copy: Settled)
        ensures
            copy == *self,
    {
        match self {
            Settled::Success(n) => Settled::Success(*n),
            Settled::Failure(message) => Settled::Failure(message.clone()),
        }
    }
}

} // verus!
