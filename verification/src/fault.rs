//! Errors with their causes.

use crate::text::cat3;
use vstd::prelude::*;

verus! {

/// An error and what caused it.
#[derive(Debug)]
pub struct Fault {
    pub message: String,
    pub cause: Option<String>,
}

/// What a [`Fault`] says.
#[verifier::ext_equal]
pub struct FaultView {
    pub message: Seq<char>,
    pub cause: Option<Seq<char>>,
}

impl DeepView for Fault {
    type V = FaultView;

    open spec fn deep_view(&self) -> FaultView {
        FaultView { message: self.message@, cause: self.cause.deep_view() }
    }
}

impl FaultView {
    /// The message, then its cause.
    pub open spec fn full(self) -> Seq<char> {
        match self.cause {
            Some(c) => self.message + ": "@ + c,
            None => self.message,
        }
    }

    /// The same error seen from further out.
    pub open spec fn within(self, message: Seq<char>) -> FaultView {
        FaultView { message, cause: Some(self.full()) }
    }
}

impl Fault {
    /// An error without a cause.
    pub fn new(message: String) -> (r: Self)
        ensures
            r.deep_view() == (FaultView { message: message@, cause: None }),
    {
        Fault { message, cause: None }
    }

    /// The message, then its cause.
    pub fn full(&self) -> (r: String)
        ensures
            r@ == self.deep_view().full(),
    {
        match &self.cause {
            Some(c) => cat3(&self.message, ": ", c),
            None => self.message.clone(),
        }
    }

    /// The same error seen from further out.
    pub fn context(self, message: String) -> (r: Self)
        ensures
            r.deep_view() == self.deep_view().within(message@),
    {
        let full = self.full();
        Fault { message, cause: Some(full) }
    }
}

// ---------------------------------------------------------------------------
// Laws
// ---------------------------------------------------------------------------

/// Seen from further out an error keeps everything it said: the new message comes
/// first, and what it said before is the cause.
pub proof fn law_context_keeps_the_cause(e: FaultView, message: Seq<char>)
    ensures
        e.within(message).message == message,
        e.within(message).cause matches Some(c) && c == e.full(),
        e.within(message).full() == message + ": "@ + e.full(),
        e.cause is None ==> e.full() == e.message,
        e.cause matches Some(c) ==> e.full() == e.message + ": "@ + c,
{
}

} // verus!
