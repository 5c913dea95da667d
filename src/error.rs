use vstd::prelude::*;
use vstd::string::*;
use crate::span::{trace_text, SpanTrace, SpanView};
use crate::stack::{innermost_first, SpanStack};
use std::io::ErrorKind;

verus! {

#[verifier::external_type_specification]
#[verifier::external_body]
pub struct ExErrorKind(std::io::ErrorKind);

/// What a primitive error is, as a mathematical value.
pub struct PrimitiveView {
    pub kind: ErrorKind,
    pub message: Seq<char>,
    pub cause: Option<Seq<char>>,
}

/// A failure as the underlying file-system layer reports it: its
/// classification, its display text, and the display text of the deeper
/// error it wraps, if it wraps one.
#[derive(Debug)]
pub struct PrimitiveError {
    pub kind: ErrorKind,
    pub message: String,
    pub cause: Option<String>,
}

impl View for PrimitiveError {
    type V = PrimitiveView;

    open spec fn view(&self) -> PrimitiveView {
        PrimitiveView {
            kind: self.kind,
            message: self.message@,
            cause: match self.cause {
                Some(c) => Some(c@),
                None => None,
            },
        }
    }
}

impl PrimitiveError {
    pub fn new(kind: ErrorKind, message: String, cause: Option<String>) -> (r: PrimitiveError)
        ensures
            r.kind == kind,
            r.message == message,
            r.cause == cause,
    {
        PrimitiveError { kind, message, cause }
    }
}

/// What a wrapped error is, as a mathematical value.
pub struct ErrorView {
    pub original: PrimitiveView,
    pub trace: Seq<SpanView>,
}

/// The text of a wrapped error: the message of the original error on its own
/// line, then the text of its deeper cause on a line of its own when it has
/// one, then a trace section that lists the spans innermost first.
pub open spec fn error_text(e: ErrorView) -> Seq<char> {
    let cause = match e.original.cause {
        Some(c) => c + "\n"@,
        None => Seq::empty(),
    };
    e.original.message + "\n"@ + cause + "Trace:\n"@ + trace_text(e.trace)
}

/// A primitive error enriched with the trace of spans that were active at
/// the moment it was reported. It owns the original error and its own copy
/// of the trace, and is never changed after it is made.
#[derive(Debug)]
pub struct Error {
    original: PrimitiveError,
    trace: SpanTrace,
}

impl View for Error {
    type V = ErrorView;

    closed spec fn view(&self) -> ErrorView {
        ErrorView { original: self.original@, trace: self.trace@ }
    }
}

impl Error {
    /// Wraps `e` together with a trace that the caller captured at the
    /// moment `e` was reported.
    pub fn with_trace(e: PrimitiveError, trace: SpanTrace) -> (r: Error)
        ensures
            r@ == (ErrorView { original: e@, trace: trace@ }),
            r@.original.kind == e.kind,
            r@.original.message == e.message@,
    {
        Error { original: e, trace }
    }

    /// Wraps `e` together with a snapshot of the spans active on `stack`.
    pub fn wrap_in(e: PrimitiveError, stack: &SpanStack) -> (r: Error)
        ensures
            r@ == (ErrorView { original: e@, trace: innermost_first(stack@) }),
            r@.original.kind == e.kind,
            r@.original.message == e.message@,
            stack@.len() > 0 ==> r@.trace.len() > 0 && r@.trace[0] == stack@.last(),
    {
        let trace = stack.capture();
        Error::with_trace(e, trace)
    }

    /// Wraps `e` together with a snapshot of the spans that the tracing
    /// subscriber of the calling thread holds active. The original error is
    /// kept whole, so its classification stays the same.
    pub fn wrap(e: PrimitiveError) -> (r: Error)
        ensures
            r@.original == e@,
            r@.original.kind == e.kind,
            r@.original.message == e.message@,
    {
        let trace = SpanTrace::capture();
        Error::with_trace(e, trace)
    }

    /// The classification of the original error.
    pub fn kind(&self) -> (r: ErrorKind)
        ensures
            r == self@.original.kind,
    {
        self.original.kind
    }

    /// The display text of the original error.
    pub fn message(&self) -> (r: &str)
        ensures
            r@ == self@.original.message,
    {
        self.original.message.as_str()
    }

    /// The next link of the cause chain: the original error itself.
    pub fn source(&self) -> (r: &PrimitiveError)
        ensures
            r@ == self@.original,
    {
        &self.original
    }

    /// The trace captured when the error was made.
    pub fn trace(&self) -> (r: &SpanTrace)
        ensures
            r@ == self@.trace,
    {
        &self.trace
    }

    /// Gives the original error back.
    pub fn into_source(self) -> (r: PrimitiveError)
        ensures
            r@ == self@.original,
    {
        self.original
    }

    /// The error as multi-line text.
    pub fn render(&self) -> (r: String)
        ensures
            r@ == error_text(self@),
    {
        let mut out = self.original.message.clone();
        out.append("\n");
        match &self.original.cause {
            Some(c) => {
                out.append(c.as_str());
                out.append("\n");
            },
            None => {},
        }
        out.append("Trace:\n");
        let t = self.trace.render();
        out.append(t.as_str());
        assert(out@ =~= error_text(self@));
        out
    }
}

} // verus!
