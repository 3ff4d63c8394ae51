//! What can go wrong between a configuration and a merged snapshot.

use vstd::prelude::*;

verus! {

/// Why a response body was not accepted as a page.
#[derive(Clone, Copy, Debug, PartialEq, Eq, Structural)]
pub enum ParseError {
    /// The body is not a JSON document.
    Syntax,
    /// The author block is missing, is not an object, or holds a field of
    /// the wrong type.
    Author,
    /// The aggregate table holds no total citation count.
    MissingCitations,
    /// The aggregate table holds no h-index.
    MissingHIndex,
    /// The search parameters do not name the author.
    MissingAuthorId,
    /// The article list is missing or is not an array.
    Articles,
    /// The article at this position is not an object, or lacks a field, or
    /// holds one of the wrong type.
    Article(usize),
    /// The year of the article at this position is neither empty nor a
    /// decimal number.
    Year(usize),
}

/// Why a page was not merged into a snapshot.
#[derive(Clone, Copy, Debug, PartialEq, Eq, Structural)]
pub enum MergeError {
    /// The page names another author than the snapshot does.
    AuthorMismatch,
}

/// A named configuration value that a fetch needs.
#[derive(Clone, Copy, Debug, PartialEq, Eq, Structural)]
pub enum ConfigKey {
    /// The identifier of the author to fetch.
    AuthorId,
    /// The credential for the service.
    ApiKey,
}

/// A command that is announced and not yet there.
#[derive(Clone, Copy, Debug, PartialEq, Eq, Structural)]
pub enum Feature {
    /// Finding an author by name or identifier.
    FindAuthor,
    /// Recording the current figures as a checkpoint.
    LogCheckpoint,
}

/// Why a command did not complete. No error is recovered from: each one ends
/// the command, and no partial snapshot is handed out.
#[derive(Clone, Debug, PartialEq, Eq)]
pub enum FetchError {
    /// A required configuration value is absent.
    Configuration(ConfigKey),
    /// A request failed or was answered with a failure status; the text says
    /// how.
    Transport(String),
    /// A response body was not accepted.
    Parse(ParseError),
    /// A page did not belong to the snapshot.
    Merge(MergeError),
    /// The command asked for something that is not implemented.
    Unimplemented(Feature),
}

pub enum FetchErrorView {
    Configuration(ConfigKey),
    Transport(Seq<char>),
    Parse(ParseError),
    Merge(MergeError),
    Unimplemented(Feature),
}

impl View for FetchError {
    type V = FetchErrorView;

    open spec fn view(&self) -> FetchErrorView {
        match self {
            FetchError::Configuration(key) => FetchErrorView::Configuration(*key),
            FetchError::Transport(text) => FetchErrorView::Transport(text@),
            FetchError::Parse(error) => FetchErrorView::Parse(*error),
            FetchError::Merge(error) => FetchErrorView::Merge(*error),
            FetchError::Unimplemented(feature) => FetchErrorView::Unimplemented(*feature),
        }
    }
}

impl ParseError {
    /// The text that describes the error.
    pub open spec fn message_text(self) -> Seq<char> {
        match self {
            ParseError::Syntax => "response is not a JSON document"@,
            ParseError::Author => "missing or malformed author"@,
            ParseError::MissingCitations => "missing citations.all"@,
            ParseError::MissingHIndex => "missing h_index.all"@,
            ParseError::MissingAuthorId => "missing search_parameters.author_id"@,
            ParseError::Articles => "missing or malformed article list"@,
            ParseError::Article(_) => "malformed article"@,
            ParseError::Year(_) => "article year is not a number"@,
        }
    }

    /// Describes the error.
    pub fn message(&self) -> (text: String)
        ensures
            text@ == self.message_text(),
    {
        match self {
            ParseError::Syntax => "response is not a JSON document".to_owned(),
            ParseError::Author => "missing or malformed author".to_owned(),
            ParseError::MissingCitations => "missing citations.all".to_owned(),
            ParseError::MissingHIndex => "missing h_index.all".to_owned(),
            ParseError::MissingAuthorId => "missing search_parameters.author_id".to_owned(),
            ParseError::Articles => "missing or malformed article list".to_owned(),
            ParseError::Article(_) => "malformed article".to_owned(),
            ParseError::Year(_) => "article year is not a number".to_owned(),
        }
    }
}

impl FetchErrorView {
    /// The text that describes the error.
    pub open spec fn message_text(self) -> Seq<char> {
        match self {
            FetchErrorView::Configuration(ConfigKey::AuthorId) => {
                "Can not found GOOGLE_SCHOLAR_ID env variable."@
            },
            FetchErrorView::Configuration(ConfigKey::ApiKey) => {
                "Can not found SERP_API_KEY env variable."@
            },
            FetchErrorView::Transport(text) => text,
            FetchErrorView::Parse(error) => "Failed to parse response: "@ + error.message_text(),
            FetchErrorView::Merge(MergeError::AuthorMismatch) => "Author ID is not the same!"@,
            FetchErrorView::Unimplemented(Feature::FindAuthor) => {
                "Finding author is not yet implemented."@
            },
            FetchErrorView::Unimplemented(Feature::LogCheckpoint) => {
                "Logging a checkpoint is not yet implemented."@
            },
        }
    }
}

impl FetchError {
    /// Describes the error.
    pub fn message(&self) -> (text: String)
        ensures
            text@ == self@.message_text(),
    {
        match self {
            FetchError::Configuration(ConfigKey::AuthorId) => {
                "Can not found GOOGLE_SCHOLAR_ID env variable.".to_owned()
            },
            FetchError::Configuration(ConfigKey::ApiKey) => {
                "Can not found SERP_API_KEY env variable.".to_owned()
            },
            FetchError::Transport(text) => text.clone(),
            FetchError::Parse(error) => {
                let mut text = "Failed to parse response: ".to_owned();
                let detail = error.message();
                text.append(detail.as_str());
                text
            },
            FetchError::Merge(MergeError::AuthorMismatch) => {
                "Author ID is not the same!".to_owned()
            },
            FetchError::Unimplemented(Feature::FindAuthor) => {
                "Finding author is not yet implemented.".to_owned()
            },
            FetchError::Unimplemented(Feature::LogCheckpoint) => {
                "Logging a checkpoint is not yet implemented.".to_owned()
            },
        }
    }
}

} // verus!
