use vstd::prelude::*;

verus! {

/// The kinds of failure a conversation turn can meet.
#[derive(PartialEq, Eq, Structural, Clone, Copy, Debug)]
pub enum ErrorKind {
    /// No credential is configured for the backend.
    Configuration,
    /// A turn is already in flight.
    Busy,
    /// The connection failed.
    Transport,
    /// A wire frame could not be understood.
    Parse,
    /// The backend reported a failure of its own.
    Provider,
}

/// A failure with its kind and a human-readable text.
#[derive(Clone, Debug)]
pub struct ChatError {
    pub kind: ErrorKind,
    pub message: String,
}

/// An error as a mathematical value.
pub struct ErrorView {
    pub kind: ErrorKind,
    pub message: Seq<char>,
}

impl View for ChatError {
    type V = ErrorView;

    open spec fn view(&self) -> ErrorView {
        ErrorView { kind: self.kind, message: self.message@ }
    }
}

impl ChatError {
    pub fn new(kind: ErrorKind, message: String) -> (r: ChatError)
        ensures
            r@ == (ErrorView { kind, message: message@ }),
    {
        ChatError { kind, message }
    }

    /// A copy of this error.
    pub fn duplicate(&self) -> (r: ChatError)
        ensures
            r@ == self@,
    {
        ChatError { kind: self.kind, message: self.message.clone() }
    }

    /// The text shown to a user.
    pub fn describe(&self) -> (r: String)
        ensures
            r@ == self.message@,
    {
        self.message.clone()
    }
}

} // verus!
