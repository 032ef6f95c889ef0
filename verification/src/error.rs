//! What can go wrong between asking for a dataset and having it.

use vstd::prelude::*;
use vstd::string::*;

verus! {

/// What [`LoaderError::message`] says of a manifest that cannot be read.
pub const PARSE_MESSAGE: &'static str = "manifest does not conform to the expected schema";

/// Why an operation did not yield its result. Nothing is retried and
/// nothing is recovered: the first failure is the outcome.
#[derive(Debug, PartialEq, Eq)]
pub enum LoaderError {
    /// The transfer failed. Holds the transport's own account, unchanged.
    Transport(String),
    /// The manifest text is no TOML document or has not the expected shape.
    Parse,
    /// The manifest was read, and has no entry under this key.
    NotFound { key: String },
}

/// A [`LoaderError`] as plain mathematical data.
pub enum LoaderErrorView {
    Transport(Seq<char>),
    Parse,
    NotFound { key: Seq<char> },
}

impl LoaderErrorView {
    /// The text that describes the failure.
    pub open spec fn message(self) -> Seq<char> {
        match self {
            LoaderErrorView::Transport(account) => account,
            LoaderErrorView::Parse => PARSE_MESSAGE@,
            LoaderErrorView::NotFound { key } => "Config for key '"@ + key + "' not found"@,
        }
    }
}

impl View for LoaderError {
    type V = LoaderErrorView;

    open spec fn view(&self) -> LoaderErrorView {
        match self {
            LoaderError::Transport(account) => LoaderErrorView::Transport(account@),
            LoaderError::Parse => LoaderErrorView::Parse,
            LoaderError::NotFound { key } => LoaderErrorView::NotFound { key: key@ },
        }
    }
}

impl LoaderError {
    /// Describes the failure in words.
    pub fn message(&self) -> (text: String)
        ensures
            text@ == self@.message(),
    {
        match self {
            LoaderError::Transport(account) => account.clone(),
            LoaderError::Parse => String::from_str(PARSE_MESSAGE),
            LoaderError::NotFound { key } => {
                let mut text = String::from_str("Config for key '");
                text.append(key.as_str());
                text.append("' not found");
                text
            },
        }
    }
}

} // verus!
