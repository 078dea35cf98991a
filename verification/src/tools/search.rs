//! Searching the web.

use vstd::prelude::*;
use vstd::string::*;

verus! {

/// Who answers a search.
#[derive(Debug, Clone, Copy, PartialEq, Eq, Structural)]
pub enum SearchProvider {
    DuckDuckGo,
}

impl Default for SearchProvider {
    /// DuckDuckGo.
    fn default() -> (provider: SearchProvider)
        ensures
            provider == SearchProvider::DuckDuckGo,
    {
        SearchProvider::DuckDuckGo
    }
}

/// Why a search failed.
#[derive(Debug, Clone, PartialEq, Eq)]
pub enum SearchError {
    /// The provider refused or failed the search.
    SearchError(String),
    /// Something else went wrong.
    Unknown(String),
    /// Reading or writing failed.
    IoError(String),
    /// An address could not be parsed.
    UrlError(String),
    /// The request failed.
    RequestError(String),
    /// A payload could not be encoded or decoded.
    JsonError(String),
}

impl SearchError {
    /// The text that `message` renders.
    pub open spec fn message_text(&self) -> Seq<char> {
        match self {
            SearchError::SearchError(detail) => "Failed to search: "@ + detail@,
            SearchError::Unknown(detail) => "An unknown error occurred: "@ + detail@,
            SearchError::IoError(detail) => "IO error: "@ + detail@,
            SearchError::UrlError(detail) => "Url error: "@ + detail@,
            SearchError::RequestError(detail) => "Request error: "@ + detail@,
            SearchError::JsonError(detail) => "JSON error: "@ + detail@,
        }
    }

    /// A line that names the kind of failure and its detail.
    pub fn message(&self) -> (line: String)
        ensures
            line@ == self.message_text(),
    {
        match self {
            SearchError::SearchError(detail) => "Failed to search: ".to_owned().concat(
                detail.as_str(),
            ),
            SearchError::Unknown(detail) => "An unknown error occurred: ".to_owned().concat(
                detail.as_str(),
            ),
            SearchError::IoError(detail) => "IO error: ".to_owned().concat(detail.as_str()),
            SearchError::UrlError(detail) => "Url error: ".to_owned().concat(detail.as_str()),
            SearchError::RequestError(detail) => "Request error: ".to_owned().concat(
                detail.as_str(),
            ),
            SearchError::JsonError(detail) => "JSON error: ".to_owned().concat(detail.as_str()),
        }
    }
}

/// One hit of a search.
#[derive(Debug, Clone, PartialEq, Eq)]
pub struct SearchResult {
    pub title: String,
    pub link: String,
    pub snippet: String,
}

/// The hits of a search, best first.
pub type SearchResults = Vec<SearchResult>;

impl SearchResult {
    /// A hit with its title, its address and the text around the match.
    pub fn new(title: &str, link: &str, snippet: &str) -> (hit: SearchResult)
        ensures
            hit.title@ == title@,
            hit.link@ == link@,
            hit.snippet@ == snippet@,
    {
        SearchResult {
            title: title.to_owned(),
            link: link.to_owned(),
            snippet: snippet.to_owned(),
        }
    }
}

} // verus!
