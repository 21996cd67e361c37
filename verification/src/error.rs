//! Why a requested transition did not take place.

use vstd::prelude::*;

verus! {

/// A failed transition, as contracts see it: the reason is text, not a `String`.
pub enum Refusal {
    /// The requested name is not registered.
    ProgrammingError,
    /// A listener cancelled the transition, with the reason it gave, if any.
    Cancelled(Option<Seq<char>>),
}

/// A failed transition.
#[derive(Debug, PartialEq, Eq)]
pub enum TransitionError {
    /// The caller asked for a scene that was never registered. This is a mistake
    /// in the calling program, not a condition of the running system.
    ProgrammingError,
    /// A listener vetoed the transition. This is an ordinary negative answer. It
    /// carries the reason that the listener attached, if it attached one.
    Cancelled(Option<String>),
}

/// The text of an optional reason.
pub open spec fn reason_text(reason: Option<String>) -> Option<Seq<char>> {
    match reason {
        Some(text) => Some(text@),
        None => None,
    }
}

impl View for TransitionError {
    type V = Refusal;

    open spec fn view(&self) -> Refusal {
        match *self {
            TransitionError::ProgrammingError => Refusal::ProgrammingError,
            TransitionError::Cancelled(reason) => Refusal::Cancelled(reason_text(reason)),
        }
    }
}

/// The result of a request, as contracts see it.
pub open spec fn as_verdict(result: Result<(), TransitionError>) -> Result<(), Refusal> {
    match result {
        Ok(_) => Ok(()),
        Err(error) => Err(error@),
    }
}

/// What `message` says of a refusal.
pub open spec fn message_text(refusal: Refusal) -> Seq<char> {
    match refusal {
        Refusal::ProgrammingError => "Scene instance does not exist"@,
        Refusal::Cancelled(Some(reason)) => reason,
        Refusal::Cancelled(None) => "no reason given"@,
    }
}

impl TransitionError {
    /// The failure in words: the listener's reason for a cancelled transition, or
    /// a fixed sentence where there is none to give.
    pub fn message(&self) -> (text: String)
        ensures
            text@ == message_text(self@),
    {
        match self {
            TransitionError::ProgrammingError => "Scene instance does not exist".to_owned(),
            TransitionError::Cancelled(Some(reason)) => reason.clone(),
            TransitionError::Cancelled(None) => "no reason given".to_owned(),
        }
    }
}

} // verus!
