//! The feed document: a channel's title and description and its entries in
//! document order.

use vstd::prelude::*;

verus! {

/// What an optional text stands for: the characters, or nothing.
pub open spec fn text_view(text: Option<String>) -> Option<Seq<char>> {
    match text {
        Some(s) => Some(s@),
        None => None,
    }
}

/// What an entry is, mathematically. An absent field is `None`, which is not
/// the empty text.
pub struct FeedItemView {
    pub title: Option<Seq<char>>,
    pub link: Option<Seq<char>>,
    pub description: Option<Seq<char>>,
}

/// One entry of a feed. Each field is independently optional.
#[derive(Debug, Clone, PartialEq, Eq)]
pub struct FeedItem {
    pub title: Option<String>,
    pub link: Option<String>,
    pub description: Option<String>,
}

impl View for FeedItem {
    type V = FeedItemView;

    open spec fn view(&self) -> FeedItemView {
        FeedItemView {
            title: text_view(self.title),
            link: text_view(self.link),
            description: text_view(self.description),
        }
    }
}

/// What a feed is, mathematically.
pub struct FeedView {
    pub title: Seq<char>,
    pub description: Seq<char>,
    pub items: Seq<FeedItemView>,
}

/// A feed document as one fetch produced it.
#[derive(Debug, Clone, PartialEq, Eq)]
pub struct Feed {
    pub title: String,
    pub description: String,
    pub items: Vec<FeedItem>,
}

impl View for Feed {
    type V = FeedView;

    open spec fn view(&self) -> FeedView {
        FeedView {
            title: self.title@,
            description: self.description@,
            items: Seq::new(self.items@.len(), |i: int| self.items@[i]@),
        }
    }
}

} // verus!
