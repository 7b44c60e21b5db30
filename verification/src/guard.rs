//! The boundary guard: what leaves a call, whether it ran to its end, was
//! refused, or aborted half way.
use vstd::prelude::*;
use crate::fault::Fault;

verus! {

/// How the protected region of a call ended.
#[derive(Clone, Debug, PartialEq, Eq)]
pub enum Completion<T> {
    /// The call ran to its end and produced a value.
    Returned(T),
    /// The call was refused before it touched the store.
    Refused(Fault),
    /// The store aborted the call; the text describes the abort.
    Aborted(String),
}

/// The one failure signal that the host is given.
#[derive(Clone, Debug, PartialEq, Eq)]
pub enum Failure {
    /// The call was refused; the fault says why.
    Refused(Fault),
    /// The store aborted the call; the text describes the abort.
    Aborted(String),
}

/// What crosses the boundary at the end of a call: always a value, and a
/// failure to raise on the host's side if the call did not run to its end.
#[derive(Clone, Debug, PartialEq, Eq)]
pub struct Outcome<T> {
    pub value: T,
    pub failure: Option<Failure>,
}

impl Failure {
    /// The text of the signal.
    pub open spec fn spec_message(self) -> Seq<char> {
        match self {
            Failure::Refused(fault) => fault.spec_message(),
            Failure::Aborted(text) => text@,
        }
    }

    /// The text of the signal.
    pub fn message(&self) -> (text: &str)
        ensures
            text@ == self.spec_message(),
    {
        match self {
            Failure::Refused(fault) => fault.message(),
            Failure::Aborted(text) => text.as_str(),
        }
    }
}

/// What `settle` answers.
pub open spec fn settled<T>(completion: Completion<T>, fallback: T) -> Outcome<T> {
    match completion {
        Completion::Returned(value) => Outcome { value, failure: None },
        Completion::Refused(fault) => Outcome {
            value: fallback,
            failure: Some(Failure::Refused(fault)),
        },
        Completion::Aborted(text) => Outcome {
            value: fallback,
            failure: Some(Failure::Aborted(text)),
        },
    }
}

/// Turns the end of a protected region into what crosses the boundary. A
/// call that ran to its end hands over its value and raises nothing. Any
/// other hands over `fallback` and raises one failure, so that neither a
/// refusal nor an abort of the store ends the host's process.
pub fn settle<T>(completion: Completion<T>, fallback: T) -> (outcome: Outcome<T>)
    ensures
        outcome == settled(completion, fallback),
{
    match completion {
        Completion::Returned(value) => Outcome { value, failure: None },
        Completion::Refused(fault) => Outcome {
            value: fallback,
            failure: Some(Failure::Refused(fault)),
        },
        Completion::Aborted(text) => Outcome {
            value: fallback,
            failure: Some(Failure::Aborted(text)),
        },
    }
}

/// A failure is raised exactly when the call did not run to its end, and
/// the fallback is handed over exactly then.
pub proof fn lemma_failure_iff_not_returned<T>(completion: Completion<T>, fallback: T)
    ensures
        settled(completion, fallback).failure is Some <==> !(completion is Returned),
        completion is Returned ==> settled(completion, fallback).value == completion->Returned_0,
        !(completion is Returned) ==> settled(completion, fallback).value == fallback,
{
}

} // verus!
