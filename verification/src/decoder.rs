//! The boundary to the `rss` crate, which decodes the bytes of a feed. Nothing
//! in this file is proved: each item states what the crate's function does.

use vstd::prelude::*;

verus! {

/// `rss::Channel`: a decoded feed. Its contents are reached through the
/// accessors below only.
#[verifier::external_type_specification]
#[verifier::external_body]
pub struct ExChannel(rss::Channel);

/// `rss::Item`: one entry of a decoded feed.
#[verifier::external_type_specification]
#[verifier::external_body]
pub struct ExItem(rss::Item);

/// `rss::Error`: why the crate could not decode its input.
#[verifier::external_type_specification]
#[verifier::external_body]
pub struct ExError(rss::Error);

/// The text that `rss::Channel::title` returns for a channel.
pub uninterp spec fn channel_title(channel: rss::Channel) -> Seq<char>;

/// The text that `rss::Channel::description` returns for a channel.
pub uninterp spec fn channel_description(channel: rss::Channel) -> Seq<char>;

/// The entries that `rss::Channel::items` returns for a channel, in order.
pub uninterp spec fn channel_items(channel: rss::Channel) -> Seq<rss::Item>;

/// The text that `rss::Item::title` returns for an entry, if it has one.
pub uninterp spec fn item_title(item: rss::Item) -> Option<Seq<char>>;

/// The text that `rss::Item::link` returns for an entry, if it has one.
pub uninterp spec fn item_link(item: rss::Item) -> Option<Seq<char>>;

/// The text that `rss::Item::description` returns for an entry, if it has one.
pub uninterp spec fn item_description(item: rss::Item) -> Option<Seq<char>>;

/// The text that the `Display` impl of `rss::Error` writes for an error.
pub uninterp spec fn error_text(error: rss::Error) -> Seq<char>;

/// What `rss::Channel::read_from` returns when it reads exactly these bytes.
pub uninterp spec fn decoded(bytes: Seq<u8>) -> Result<rss::Channel, rss::Error>;

/// What an optional borrowed text stands for.
pub open spec fn str_view(text: Option<&str>) -> Option<Seq<char>> {
    match text {
        Some(s) => Some(s@),
        None => None,
    }
}

/// `rss::Channel::title` returns the channel's `title` field as it stands.
pub assume_specification[ rss::Channel::title ](channel: &rss::Channel) -> (text: &str)
    ensures
        text@ == channel_title(*channel),
;

/// `rss::Channel::description` returns the channel's `description` field as it
/// stands.
pub assume_specification[ rss::Channel::description ](channel: &rss::Channel) -> (text: &str)
    ensures
        text@ == channel_description(*channel),
;

/// `rss::Channel::items` returns the channel's entries as a slice, in the
/// order in which the channel holds them.
pub assume_specification[ rss::Channel::items ](channel: &rss::Channel) -> (items: &[rss::Item])
    ensures
        items@ == channel_items(*channel),
;

/// `rss::Item::title` returns the entry's title, or `None` where it has none.
pub assume_specification[ rss::Item::title ](item: &rss::Item) -> (text: Option<&str>)
    ensures
        str_view(text) == item_title(*item),
;

/// `rss::Item::link` returns the entry's link, or `None` where it has none.
pub assume_specification[ rss::Item::link ](item: &rss::Item) -> (text: Option<&str>)
    ensures
        str_view(text) == item_link(*item),
;

/// `rss::Item::description` returns the entry's description, or `None` where
/// it has none.
pub assume_specification[ rss::Item::description ](item: &rss::Item) -> (text: Option<&str>)
    ensures
        str_view(text) == item_description(*item),
;

/// Calls `rss::Channel::read_from` on the bytes. The crate reads them as XML
/// and returns the channel it found or the reason it found none; the outcome
/// depends on the bytes alone.
#[verifier::external_body]
pub(crate) fn read_channel(bytes: &[u8]) -> (outcome: Result<rss::Channel, rss::Error>)
    ensures
        outcome == decoded(bytes@),
{
    rss::Channel::read_from(bytes)
}

/// Formats an `rss::Error` through its `Display` impl.
#[verifier::external_body]
pub(crate) fn error_message(error: &rss::Error) -> (text: String)
    ensures
        text@ == error_text(*error),
{
    error.to_string()
}

} // verus!
