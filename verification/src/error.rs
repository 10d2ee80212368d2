//! The failures of a fetch, each with the cause that the caller may show.

use vstd::prelude::*;

verus! {

/// The three kinds of failure that a caller tells apart.
#[derive(Debug, Clone, Copy, PartialEq, Eq, Structural)]
pub enum ErrorKind {
    /// The transport failed, or the server did not answer with success.
    Network,
    /// The body is no feed, or the feed lacks a mandatory field.
    Parse,
    /// The caller named a subscription that the store does not hold.
    Index,
}

/// What a failure is, mathematically.
pub enum FetchErrorView {
    Transport(Seq<char>),
    Status(u16),
    Malformed(Seq<char>),
    MissingTitle,
    MissingDescription,
    Index(usize),
}

impl FetchErrorView {
    /// The kind under which a failure is reported.
    pub open spec fn kind(self) -> ErrorKind {
        match self {
            FetchErrorView::Transport(_) => ErrorKind::Network,
            FetchErrorView::Status(_) => ErrorKind::Network,
            FetchErrorView::Malformed(_) => ErrorKind::Parse,
            FetchErrorView::MissingTitle => ErrorKind::Parse,
            FetchErrorView::MissingDescription => ErrorKind::Parse,
            FetchErrorView::Index(_) => ErrorKind::Index,
        }
    }
}

/// Why a fetch produced no feed.
#[derive(Debug, Clone, PartialEq, Eq)]
pub enum FetchError {
    /// No response arrived: the cause as the transport worded it.
    Transport(String),
    /// A response arrived with this status, which is outside 200 to 299.
    Status(u16),
    /// The body did not decode as a feed: the decoder's complaint.
    Malformed(String),
    /// The body decoded, but its channel has no title.
    MissingTitle,
    /// The body decoded, but its channel has no description.
    MissingDescription,
    /// The store holds no subscription at this position.
    Index(usize),
}

impl View for FetchError {
    type V = FetchErrorView;

    open spec fn view(&self) -> FetchErrorView {
        match *self {
            FetchError::Transport(cause) => FetchErrorView::Transport(cause@),
            FetchError::Status(status) => FetchErrorView::Status(status),
            FetchError::Malformed(complaint) => FetchErrorView::Malformed(complaint@),
            FetchError::MissingTitle => FetchErrorView::MissingTitle,
            FetchError::MissingDescription => FetchErrorView::MissingDescription,
            FetchError::Index(index) => FetchErrorView::Index(index),
        }
    }
}

impl FetchError {
    /// The kind under which this failure is reported.
    pub fn kind(&self) -> (kind: ErrorKind)
        ensures
            kind == self@.kind(),
    {
        match self {
            FetchError::Transport(_) => ErrorKind::Network,
            FetchError::Status(_) => ErrorKind::Network,
            FetchError::Malformed(_) => ErrorKind::Parse,
            FetchError::MissingTitle => ErrorKind::Parse,
            FetchError::MissingDescription => ErrorKind::Parse,
            FetchError::Index(_) => ErrorKind::Index,
        }
    }
}

} // verus!
