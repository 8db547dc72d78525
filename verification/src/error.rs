//! The errors that the library reports to its caller.

use crate::text::{join, joined};
use vstd::prelude::*;

verus! {

/// Why a command could not be carried out.
#[derive(Debug, PartialEq, Eq)]
pub enum Error {
    /// A required argument is absent; the text says which, and how to call.
    MissingArguments(String),
    /// The registry has no language of this name.
    InvalidLanguage(String),
}

/// Model of an [`Error`].
#[verifier::ext_equal]
pub enum ErrorView {
    MissingArguments(Seq<char>),
    InvalidLanguage(Seq<char>),
}

impl View for Error {
    type V = ErrorView;

    open spec fn view(&self) -> ErrorView {
        match self {
            Error::MissingArguments(text) => ErrorView::MissingArguments(text@),
            Error::InvalidLanguage(name) => ErrorView::InvalidLanguage(name@),
        }
    }
}

impl DeepView for Error {
    type V = ErrorView;

    open spec fn deep_view(&self) -> ErrorView {
        self@
    }
}

/// The models of both sides of a result.
pub open spec fn result_view<T: DeepView, E: DeepView>(r: Result<T, E>) -> Result<T::V, E::V> {
    match r {
        Ok(value) => Ok(value.deep_view()),
        Err(error) => Err(error.deep_view()),
    }
}

/// What the user is told of `error`, where `languages` are the names that the
/// registry offers.
pub open spec fn error_message(error: ErrorView, languages: Seq<Seq<char>>) -> Seq<char> {
    match error {
        ErrorView::MissingArguments(text) => text,
        ErrorView::InvalidLanguage(name) => seq!['\''] + name
            + "' is an unsupported language.\nCurrently supported languages: "@ + joined(
            languages,
            ", "@,
        ),
    }
}

impl Error {
    /// What the user is told of this error, where `languages` are the names that the
    /// registry offers: the text of a missing argument as it is; for an unknown
    /// language, its name in quotes and the list of those that are supported.
    pub fn message(&self, languages: &Vec<String>) -> (out: String)
        ensures
            out@ == error_message(self@, languages.deep_view()),
    {
        match self {
            Error::MissingArguments(text) => text.clone(),
            Error::InvalidLanguage(name) => {
                let mut out = String::new();
                out.push('\'');
                out.append(name.as_str());
                out.append("' is an unsupported language.\nCurrently supported languages: ");
                let listed = join(languages, ", ");
                out.append(listed.as_str());
                out
            },
        }
    }
}

} // verus!
