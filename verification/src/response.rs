//! What the engine answers to a key event, and the functions a key can be
//! bound to.

use vstd::prelude::*;

verus! {

/// A function that a key can trigger.
#[derive(Debug, PartialEq, Eq)]
pub enum Function {
    /// Make the named method the active one.
    ChangeMethodTo(String),
    /// Commit the given text, then make the named method the active one.
    CommitThenChangeMethodTo(String, String),
    /// Make the named method the active one, but only while nothing has been
    /// typed into the current composition.
    IfEmptyChangeMethodTo(String),
}

/// The mathematical value of a [`Function`].
pub enum FunctionView {
    ChangeMethodTo(Seq<char>),
    CommitThenChangeMethodTo(Seq<char>, Seq<char>),
    IfEmptyChangeMethodTo(Seq<char>),
}

impl View for Function {
    type V = FunctionView;

    open spec fn view(&self) -> FunctionView {
        match self {
            Function::ChangeMethodTo(m) => FunctionView::ChangeMethodTo(m@),
            Function::CommitThenChangeMethodTo(v, m) => FunctionView::CommitThenChangeMethodTo(
                v@,
                m@,
            ),
            Function::IfEmptyChangeMethodTo(m) => FunctionView::IfEmptyChangeMethodTo(m@),
        }
    }
}

impl Clone for Function {
    fn clone(&self) -> (r: Self)
        ensures
            r@ == self@,
    {
        match self {
            Function::ChangeMethodTo(m) => Function::ChangeMethodTo(m.clone()),
            Function::CommitThenChangeMethodTo(v, m) => Function::CommitThenChangeMethodTo(
                v.clone(),
                m.clone(),
            ),
            Function::IfEmptyChangeMethodTo(m) => Function::IfEmptyChangeMethodTo(m.clone()),
        }
    }
}

/// The engine's answer to one key event.
#[derive(Debug, PartialEq, Eq)]
pub enum BentenResponse {
    /// Text to be committed to the client.
    Commit(String),
    /// A candidate to be shown as pre-edit text.
    Suggest(String),
    /// The key code means nothing here.
    Undefined,
    /// The key code was handled and there is nothing to show.
    Empty,
    /// A function to be carried out by whoever owns the methods.
    Function(Function),
}

/// The mathematical value of a [`BentenResponse`].
pub enum ResponseView {
    Commit(Seq<char>),
    Suggest(Seq<char>),
    Undefined,
    Empty,
    Function(FunctionView),
}

impl View for BentenResponse {
    type V = ResponseView;

    open spec fn view(&self) -> ResponseView {
        match self {
            BentenResponse::Commit(s) => ResponseView::Commit(s@),
            BentenResponse::Suggest(s) => ResponseView::Suggest(s@),
            BentenResponse::Undefined => ResponseView::Undefined,
            BentenResponse::Empty => ResponseView::Empty,
            BentenResponse::Function(f) => ResponseView::Function(f@),
        }
    }
}

impl Clone for BentenResponse {
    fn clone(&self) -> (r: Self)
        ensures
            r@ == self@,
    {
        match self {
            BentenResponse::Commit(s) => BentenResponse::Commit(s.clone()),
            BentenResponse::Suggest(s) => BentenResponse::Suggest(s.clone()),
            BentenResponse::Undefined => BentenResponse::Undefined,
            BentenResponse::Empty => BentenResponse::Empty,
            BentenResponse::Function(f) => BentenResponse::Function(f.clone()),
        }
    }
}

/// Why a configuration could not be used, or a request not be met.
#[derive(Debug, Clone, PartialEq, Eq)]
pub enum BentenError {
    /// A file was missing or unreadable.
    IoError(String),
    /// A document did not have the shape that its kind asks for.
    ParseError(String),
    /// No method of the current mode has the requested id.
    MethodNotFound(String),
}

impl BentenError {
    /// The text that comes with the error.
    pub fn message(&self) -> (r: String)
        ensures
            r@ == self.spec_message(),
    {
        match self {
            BentenError::IoError(s) => s.clone(),
            BentenError::ParseError(s) => s.clone(),
            BentenError::MethodNotFound(s) => s.clone(),
        }
    }

    /// The text that comes with the error, as a sequence of characters.
    pub open spec fn spec_message(&self) -> Seq<char> {
        match self {
            BentenError::IoError(s) => s@,
            BentenError::ParseError(s) => s@,
            BentenError::MethodNotFound(s) => s@,
        }
    }
}

} // verus!
