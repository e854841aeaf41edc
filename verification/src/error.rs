//! Errors of the operator.

use vstd::prelude::*;

verus! {

/// Why the operator cannot go on.
#[derive(Debug, PartialEq, Eq)]
pub enum Error {
    /// The configuration, or the state of the cluster, is not one that the
    /// operator acts on.
    Config(String),
}

/// What [`Error`] holds.
pub enum ErrorView {
    Config(Seq<char>),
}

impl DeepView for Error {
    type V = ErrorView;

    open spec fn deep_view(&self) -> ErrorView {
        match self {
            Error::Config(message) => ErrorView::Config(message@),
        }
    }
}

/// What a result of the operator holds.
pub open spec fn result_view<T: DeepView>(r: Result<T, Error>) -> Result<T::V, ErrorView> {
    match r {
        Ok(value) => Ok(value.deep_view()),
        Err(e) => Err(e.deep_view()),
    }
}

impl Error {
    /// A configuration error.
    pub fn config(message: String) -> (r: Error)
        ensures
            r.deep_view() == ErrorView::Config(message@),
    {
        Error::Config(message)
    }

    /// What the error says.
    pub fn message(&self) -> (r: &str)
        ensures
            self.deep_view() == ErrorView::Config(r@),
    {
        match self {
            Error::Config(message) => message.as_str(),
        }
    }
}

} // verus!
