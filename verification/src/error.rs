//! What can go wrong in a harvest.

use vstd::prelude::*;

verus! {

/// The part of the expected page layout that was not there.
#[derive(Clone, Copy, Debug, PartialEq, Eq, Structural)]
pub enum Mismatch {
    /// The index page has no element with the container's identifier.
    Container,
    /// An entry of the index holds no hyperlink.
    Link,
    /// The hyperlink of an entry has no text to name its icon by.
    Name,
    /// The hyperlink of an entry has no target.
    Target,
}

/// Why a page could not be had.
#[derive(Debug, PartialEq, Eq)]
pub enum FetchCause {
    /// The server answered with a status outside 200..=299.
    Status(u16),
    /// The request or the reading of the body failed on the way.
    Transport(String),
}

/// Mathematical value of a [`FetchCause`].
pub enum FetchCauseView {
    Status(u16),
    Transport(Seq<char>),
}

impl View for FetchCause {
    type V = FetchCauseView;

    open spec fn view(&self) -> FetchCauseView {
        match self {
            FetchCause::Status(code) => FetchCauseView::Status(*code),
            FetchCause::Transport(text) => FetchCauseView::Transport(text@),
        }
    }
}

impl DeepView for FetchCause {
    type V = FetchCauseView;

    open spec fn deep_view(&self) -> FetchCauseView {
        self@
    }
}

impl Clone for FetchCause {
    fn clone(&self) -> (copy: FetchCause)
        ensures
            copy@ == self@,
    {
        match self {
            FetchCause::Status(code) => FetchCause::Status(*code),
            FetchCause::Transport(text) => FetchCause::Transport(text.clone()),
        }
    }
}

/// A failure of one step of the harvest.
#[derive(Debug, PartialEq, Eq)]
pub enum ScrapeError {
    /// A page could not be fetched.
    Fetch { url: String, cause: FetchCause },
    /// A page is not laid out as expected: the index page as a whole, or
    /// the entry that one candidate came from.
    StructuralMismatch(Mismatch),
    /// A detail page holds no code sample.
    CodeBlockNotFound { url: String },
    /// The code sample of a detail page holds no hexadecimal literal.
    HexNotParsed { url: String },
    /// Not one icon was resolved.
    NoIconsFound,
    /// The icons could not be turned into text.
    Serialization(String),
    /// The text could not be stored.
    Write(String),
}

/// Mathematical value of a [`ScrapeError`].
pub enum ScrapeErrorView {
    Fetch { url: Seq<char>, cause: FetchCauseView },
    StructuralMismatch(Mismatch),
    CodeBlockNotFound { url: Seq<char> },
    HexNotParsed { url: Seq<char> },
    NoIconsFound,
    Serialization(Seq<char>),
    Write(Seq<char>),
}

impl View for ScrapeError {
    type V = ScrapeErrorView;

    open spec fn view(&self) -> ScrapeErrorView {
        match self {
            ScrapeError::Fetch { url, cause } => ScrapeErrorView::Fetch { url: url@, cause: cause@ },
            ScrapeError::StructuralMismatch(what) => ScrapeErrorView::StructuralMismatch(*what),
            ScrapeError::CodeBlockNotFound { url } => ScrapeErrorView::CodeBlockNotFound { url: url@ },
            ScrapeError::HexNotParsed { url } => ScrapeErrorView::HexNotParsed { url: url@ },
            ScrapeError::NoIconsFound => ScrapeErrorView::NoIconsFound,
            ScrapeError::Serialization(cause) => ScrapeErrorView::Serialization(cause@),
            ScrapeError::Write(cause) => ScrapeErrorView::Write(cause@),
        }
    }
}

impl DeepView for ScrapeError {
    type V = ScrapeErrorView;

    open spec fn deep_view(&self) -> ScrapeErrorView {
        self@
    }
}

impl Clone for ScrapeError {
    fn clone(&self) -> (copy: ScrapeError)
        ensures
            copy@ == self@,
    {
        match self {
            ScrapeError::Fetch { url, cause } => ScrapeError::Fetch {
                url: url.clone(),
                cause: cause.clone(),
            },
            ScrapeError::StructuralMismatch(what) => ScrapeError::StructuralMismatch(*what),
            ScrapeError::CodeBlockNotFound { url } => ScrapeError::CodeBlockNotFound {
                url: url.clone(),
            },
            ScrapeError::HexNotParsed { url } => ScrapeError::HexNotParsed { url: url.clone() },
            ScrapeError::NoIconsFound => ScrapeError::NoIconsFound,
            ScrapeError::Serialization(cause) => ScrapeError::Serialization(cause.clone()),
            ScrapeError::Write(cause) => ScrapeError::Write(cause.clone()),
        }
    }
}

/// Mathematical value of an outcome: that of what was gained, or that of the
/// failure.
pub open spec fn outcome_view<T: DeepView, E: DeepView>(r: Result<T, E>) -> Result<T::V, E::V> {
    match r {
        Ok(t) => Ok(t.deep_view()),
        Err(e) => Err(e.deep_view()),
    }
}

} // verus!
