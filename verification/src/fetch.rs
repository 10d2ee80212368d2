//! From the outcome of one HTTP GET to a feed document or a typed failure.
//!
//! The GET itself is the caller's: it hands over what the transport
//! reported as a [`Transfer`]. Every function here is stateless.

use crate::decoder::{
    channel_description, channel_items, channel_title, decoded, error_message, error_text,
    item_description, item_link, item_title, read_channel, str_view,
};
use crate::error::{ErrorKind, FetchError, FetchErrorView};
use crate::feed::{text_view, Feed, FeedItem, FeedItemView, FeedView};
use vstd::prelude::*;

verus! {

/// What the transport reported for one GET, mathematically.
pub enum TransferView {
    Failed(Seq<char>),
    Response { status: u16, body: Seq<u8> },
}

/// What the transport reported for one GET.
#[derive(Debug, Clone, PartialEq, Eq)]
pub enum Transfer {
    /// No complete response arrived (connection, timeout, TLS, redirects):
    /// the cause as the transport worded it.
    Failed(String),
    /// A complete response arrived.
    Response { status: u16, body: Vec<u8> },
}

impl View for Transfer {
    type V = TransferView;

    open spec fn view(&self) -> TransferView {
        match *self {
            Transfer::Failed(cause) => TransferView::Failed(cause@),
            Transfer::Response { status, body } => TransferView::Response { status, body: body@ },
        }
    }
}

/// Whether an HTTP status reports success.
pub open spec fn is_success(status: u16) -> bool {
    200 <= status <= 299
}

/// The entry that a decoded entry projects to: each field as the decoder
/// holds it, an absent one absent.
pub open spec fn entry_of(item: rss::Item) -> FeedItemView {
    FeedItemView {
        title: item_title(item),
        link: item_link(item),
        description: item_description(item),
    }
}

/// The document that a decoded channel projects to: its title, its
/// description, and its entries in the decoder's order.
pub open spec fn document_of(channel: rss::Channel) -> FeedView {
    FeedView {
        title: channel_title(channel),
        description: channel_description(channel),
        items: Seq::new(
            channel_items(channel).len(),
            |i: int| entry_of(channel_items(channel)[i]),
        ),
    }
}

/// What decoding the bytes yields in plain values: the document, or the
/// decoder's complaint.
pub open spec fn reading(bytes: Seq<u8>) -> Result<FeedView, Seq<char>> {
    match decoded(bytes) {
        Ok(channel) => Ok(document_of(channel)),
        Err(error) => Err(error_text(error)),
    }
}

/// The verdict on a reading. A complaint is a malformed body. A document is
/// accepted as it stands if it has both a title and a description; the
/// decoder reports an element that is absent or blank as empty text, and
/// such a document is rejected, the title being looked at first.
pub open spec fn accepted(reading: Result<FeedView, Seq<char>>) -> Result<
    FeedView,
    FetchErrorView,
> {
    match reading {
        Err(complaint) => Err(FetchErrorView::Malformed(complaint)),
        Ok(document) => if document.title.len() == 0 {
            Err(FetchErrorView::MissingTitle)
        } else if document.description.len() == 0 {
            Err(FetchErrorView::MissingDescription)
        } else {
            Ok(document)
        },
    }
}

/// The result of a fetch whose GET ended in `transfer`.
pub open spec fn outcome(transfer: TransferView) -> Result<FeedView, FetchErrorView> {
    match transfer {
        TransferView::Failed(cause) => Err(FetchErrorView::Transport(cause)),
        TransferView::Response { status, body } => if is_success(status) {
            accepted(reading(body))
        } else {
            Err(FetchErrorView::Status(status))
        },
    }
}

/// What a reading in executable values stands for.
pub open spec fn reading_view(reading: Result<Feed, String>) -> Result<FeedView, Seq<char>> {
    match reading {
        Ok(feed) => Ok(feed@),
        Err(complaint) => Err(complaint@),
    }
}

/// What the result of a fetch stands for.
pub open spec fn result_view(result: Result<Feed, FetchError>) -> Result<FeedView, FetchErrorView> {
    match result {
        Ok(feed) => Ok(feed@),
        Err(error) => Err(error@),
    }
}

/// An owned copy of an optional borrowed text.
fn owned(text: Option<&str>) -> (copy: Option<String>)
    ensures
        text_view(copy) == str_view(text),
{
    match text {
        Some(s) => Some(s.to_owned()),
        None => None,
    }
}

impl FeedItem {
    /// Projects a decoded entry. No field is defaulted: one that the entry
    /// lacks is `None` in the result.
    pub fn from_entry(item: &rss::Item) -> (entry: FeedItem)
        ensures
            entry@ == entry_of(*item),
    {
        FeedItem {
            title: owned(item.title()),
            link: owned(item.link()),
            description: owned(item.description()),
        }
    }
}

impl Feed {
    /// Projects a decoded channel: title, description, and every entry in
    /// the channel's order.
    pub fn from_channel(channel: &rss::Channel) -> (feed: Feed)
        ensures
            feed@ == document_of(*channel),
    {
        let source = channel.items();
        let mut items: Vec<FeedItem> = Vec::new();
        let mut i: usize = 0;
        while i < source.len()
            invariant
                source@ == channel_items(*channel),
                i <= source@.len(),
                items@.len() == i,
                forall|k: int| 0 <= k < i ==> (#[trigger] items@[k])@ == entry_of(source@[k]),
            decreases source@.len() - i,
        {
            items.push(FeedItem::from_entry(&source[i]));
            i += 1;
        }
        let feed = Feed {
            title: channel.title().to_owned(),
            description: channel.description().to_owned(),
            items,
        };
        assert(feed@.items =~= document_of(*channel).items);
        feed
    }
}

/// Decodes the bytes of a response body into plain values: the document that
/// the decoder found, or its complaint.
pub fn decode(bytes: &[u8]) -> (result: Result<Feed, String>)
    ensures
        reading_view(result) == reading(bytes@),
{
    match read_channel(bytes) {
        Ok(channel) => Ok(Feed::from_channel(&channel)),
        Err(error) => Err(error_message(&error)),
    }
}

/// Gives the verdict on a reading: see [`accepted`].
pub fn accept(reading: Result<Feed, String>) -> (result: Result<Feed, FetchError>)
    ensures
        result_view(result) == accepted(reading_view(reading)),
{
    match reading {
        Err(complaint) => Err(FetchError::Malformed(complaint)),
        Ok(feed) => {
            if feed.title.as_str().is_empty() {
                Err(FetchError::MissingTitle)
            } else if feed.description.as_str().is_empty() {
                Err(FetchError::MissingDescription)
            } else {
                Ok(feed)
            }
        },
    }
}

/// Decodes a response body and gives the verdict on it.
pub fn parse_feed(bytes: &[u8]) -> (result: Result<Feed, FetchError>)
    ensures
        result_view(result) == accepted(reading(bytes@)),
{
    accept(decode(bytes))
}

/// Turns what the transport reported into the result of the fetch. A
/// transport failure and a status outside 200 to 299 are network failures
/// and the body is not looked at; otherwise the body is decoded and judged.
pub fn interpret(transfer: Transfer) -> (result: Result<Feed, FetchError>)
    ensures
        result_view(result) == outcome(transfer@),
{
    match transfer {
        Transfer::Failed(cause) => Err(FetchError::Transport(cause)),
        Transfer::Response { status, body } => {
            if 200 <= status && status <= 299 {
                parse_feed(body.as_slice())
            } else {
                Err(FetchError::Status(status))
            }
        },
    }
}

/// A response with a success status whose body decodes to a channel with a
/// title, a description and some entries yields a feed with that title, that
/// description and exactly those entries, in the decoder's order.
pub proof fn well_formed_feed_is_returned(status: u16, body: Seq<u8>)
    requires
        is_success(status),
        decoded(body) is Ok,
        channel_title(decoded(body)->Ok_0).len() > 0,
        channel_description(decoded(body)->Ok_0).len() > 0,
    ensures
        outcome(TransferView::Response { status, body }) matches Ok(feed) && {
            let channel = decoded(body)->Ok_0;
            &&& feed.title == channel_title(channel)
            &&& feed.description == channel_description(channel)
            &&& feed.items.len() == channel_items(channel).len()
            &&& forall|i: int|
                0 <= i < feed.items.len() ==> #[trigger] feed.items[i] == entry_of(
                    channel_items(channel)[i],
                )
        },
{
}

/// A field that a decoded entry lacks is absent from the projected entry: it
/// is neither an empty text nor a failure. A field that it has is kept as it
/// is.
pub proof fn absent_fields_stay_absent(item: rss::Item)
    ensures
        item_title(item) is None <==> entry_of(item).title is None,
        item_link(item) is None <==> entry_of(item).link is None,
        item_description(item) is None <==> entry_of(item).description is None,
        entry_of(item).title == item_title(item),
        entry_of(item).link == item_link(item),
        entry_of(item).description == item_description(item),
{
}

/// A GET that the transport could not complete yields a network failure that
/// holds the transport's cause, whatever the cause.
pub proof fn transport_failure_is_network_error(cause: Seq<char>)
    ensures
        outcome(TransferView::Failed(cause)) == Err::<FeedView, FetchErrorView>(
            FetchErrorView::Transport(cause),
        ),
        outcome(TransferView::Failed(cause))->Err_0.kind() == ErrorKind::Network,
{
}

/// A response whose status is outside 200 to 299 yields a network failure
/// that holds the status, whatever the body.
pub proof fn refused_status_is_network_error(status: u16, body: Seq<u8>)
    requires
        !is_success(status),
    ensures
        outcome(TransferView::Response { status, body }) == Err::<FeedView, FetchErrorView>(
            FetchErrorView::Status(status),
        ),
        outcome(TransferView::Response { status, body })->Err_0.kind() == ErrorKind::Network,
{
}

/// A response with a success status whose body the decoder rejects yields a
/// parse failure that holds the decoder's complaint.
pub proof fn undecodable_body_is_parse_error(status: u16, body: Seq<u8>)
    requires
        is_success(status),
        decoded(body) is Err,
    ensures
        outcome(TransferView::Response { status, body }) == Err::<FeedView, FetchErrorView>(
            FetchErrorView::Malformed(error_text(decoded(body)->Err_0)),
        ),
        outcome(TransferView::Response { status, body })->Err_0.kind() == ErrorKind::Parse,
{
}

/// A response with a success status yields a feed or a parse failure, never
/// a failure of another kind; and a feed that is returned has a title and a
/// description.
pub proof fn answered_fetch_fails_only_in_parsing(status: u16, body: Seq<u8>)
    requires
        is_success(status),
    ensures
        match outcome(TransferView::Response { status, body }) {
            Ok(feed) => feed.title.len() > 0 && feed.description.len() > 0,
            Err(error) => error.kind() == ErrorKind::Parse,
        },
{
}

} // verus!
