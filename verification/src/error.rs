//! The failures that the bridge hands back to a caller as ordinary values.

use vstd::prelude::*;

verus! {

/// What went wrong.
#[derive(Clone, Copy, Debug, PartialEq, Eq, Structural)]
pub enum ErrorKind {
    /// The scheduler or the engine could not be constructed.
    Builder,
    /// A URL given to a request could not be parsed.
    Url,
    /// The caller's bounded wait ran out.
    Timeout,
    /// The engine reported a failure of its own.
    Engine,
}

/// A failure, with the URL of the request it belongs to where there is one.
#[derive(Clone, Debug, PartialEq, Eq)]
pub struct Error {
    pub kind: ErrorKind,
    pub url: Option<String>,
    pub detail: String,
}

/// The mathematical value of an [`Error`].
pub struct ErrorView {
    pub kind: ErrorKind,
    pub url: Option<Seq<char>>,
    pub detail: Seq<char>,
}

impl View for Error {
    type V = ErrorView;

    open spec fn view(&self) -> ErrorView {
        ErrorView {
            kind: self.kind,
            url: match self.url {
                Some(url) => Some(url@),
                None => None,
            },
            detail: self.detail@,
        }
    }
}

impl ErrorView {
    /// The same failure, said of the request to `url`.
    pub open spec fn with_url(self, url: Seq<char>) -> ErrorView {
        ErrorView { kind: self.kind, url: Some(url), detail: self.detail }
    }
}

/// The failure of a wait that ran out, before a URL is attached.
pub open spec fn timed_out_view() -> ErrorView {
    ErrorView { kind: ErrorKind::Timeout, url: None, detail: "operation timed out"@ }
}

impl Error {
    /// A failure of the given kind that belongs to no request yet.
    pub fn new(kind: ErrorKind, detail: String) -> (error: Error)
        ensures
            error == (Error { kind, url: None, detail }),
    {
        Error { kind, url: None, detail }
    }

    /// A failure to construct the scheduler or the engine.
    pub fn builder(detail: String) -> (error: Error)
        ensures
            error == (Error { kind: ErrorKind::Builder, url: None, detail }),
    {
        Error::new(ErrorKind::Builder, detail)
    }

    /// The failure of a wait that ran out.
    pub fn timed_out() -> (error: Error)
        ensures
            error@ == timed_out_view(),
    {
        Error::new(ErrorKind::Timeout, "operation timed out".to_owned())
    }

    /// Attaches the URL of the request that failed, replacing an earlier one.
    pub fn with_url(self, url: String) -> (error: Error)
        ensures
            error == (Error { kind: self.kind, url: Some(url), detail: self.detail }),
            error@ == self@.with_url(url@),
    {
        Error { kind: self.kind, url: Some(url), detail: self.detail }
    }

    /// Whether the failure is a wait that ran out.
    pub fn is_timeout(&self) -> (yes: bool)
        ensures
            yes == (self@.kind == ErrorKind::Timeout),
    {
        self.kind == ErrorKind::Timeout
    }

    /// Whether the failure arose while the client was being built.
    pub fn is_builder(&self) -> (yes: bool)
        ensures
            yes == (self@.kind == ErrorKind::Builder),
    {
        self.kind == ErrorKind::Builder
    }
}

} // verus!
