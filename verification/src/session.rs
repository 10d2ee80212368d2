//! A session: the subscription store and the feed that the last successful
//! fetch produced, held in one explicit value.
//!
//! A fetch is made in two steps round the caller's GET. [`Session::select`]
//! names the address to fetch; [`Session::complete_fetch`] takes what the
//! transport reported and keeps the feed, if there is one.

use crate::error::{FetchError, FetchErrorView};
use crate::feed::{Feed, FeedView};
use crate::fetch::{interpret, outcome, Transfer, TransferView};
use crate::store::{lookup, Subscription, SubscriptionStore, SubscriptionView};
use vstd::prelude::*;

verus! {

/// What a session is, mathematically.
pub struct SessionView {
    /// The subscriptions, oldest first.
    pub subscriptions: Seq<SubscriptionView>,
    /// The feed of the last successful fetch, if any fetch has succeeded.
    pub feed: Option<FeedView>,
    /// The longest that a GET may take, in seconds; `None` sets no bound.
    pub timeout_secs: Option<u64>,
}

/// The state of one user's sitting.
#[derive(Debug, Clone)]
pub struct Session {
    store: SubscriptionStore,
    feed: Option<Feed>,
    timeout_secs: Option<u64>,
}

/// What an optional feed stands for.
pub open spec fn feed_view(feed: Option<Feed>) -> Option<FeedView> {
    match feed {
        Some(f) => Some(f@),
        None => None,
    }
}

/// The rows of a subscription list: position, name and address of each
/// subscription, in order.
pub open spec fn listed(subs: Seq<SubscriptionView>) -> Seq<(int, Seq<char>, Seq<char>)> {
    Seq::new(subs.len(), |i: int| (i, subs[i].name, subs[i].url))
}

/// What a list of rows in executable values stands for.
pub open spec fn rows_view(rows: Seq<(usize, &str, &str)>) -> Seq<(int, Seq<char>, Seq<char>)> {
    Seq::new(rows.len(), |i: int| (rows[i].0 as int, rows[i].1@, rows[i].2@))
}

/// The address to fetch for the subscription at `index`, or the failure that
/// names the position where the store holds none.
pub open spec fn selected(subs: Seq<SubscriptionView>, index: usize) -> Result<
    Seq<char>,
    FetchErrorView,
> {
    match lookup(subs, index as int) {
        Some(sub) => Ok(sub.url),
        None => Err(FetchErrorView::Index(index)),
    }
}

/// The feed that a session holds after a fetch whose GET ended in
/// `transfer`: the new document where the fetch succeeds, else the one held
/// before.
pub open spec fn feed_after(held: Option<FeedView>, transfer: TransferView) -> Option<FeedView> {
    match outcome(transfer) {
        Ok(document) => Some(document),
        Err(_) => held,
    }
}

/// What remains of the result of a fetch once the session has kept the feed.
pub open spec fn verdict(transfer: TransferView) -> Result<(), FetchErrorView> {
    match outcome(transfer) {
        Ok(_) => Ok(()),
        Err(error) => Err(error),
    }
}

/// What the result of [`Session::select`] stands for.
pub open spec fn selection_view(selection: Result<&str, FetchError>) -> Result<
    Seq<char>,
    FetchErrorView,
> {
    match selection {
        Ok(url) => Ok(url@),
        Err(error) => Err(error@),
    }
}

/// What the result of [`Session::complete_fetch`] stands for.
pub open spec fn verdict_view(result: Result<(), FetchError>) -> Result<(), FetchErrorView> {
    match result {
        Ok(_) => Ok(()),
        Err(error) => Err(error@),
    }
}

impl View for Session {
    type V = SessionView;

    closed spec fn view(&self) -> SessionView {
        SessionView {
            subscriptions: self.store@,
            feed: feed_view(self.feed),
            timeout_secs: self.timeout_secs,
        }
    }
}

impl Default for Session {
    /// The session that [`Session::new`] returns.
    fn default() -> (session: Session)
        ensures
            session@ == (SessionView {
                subscriptions: Seq::<SubscriptionView>::empty(),
                feed: None,
                timeout_secs: None,
            }),
    {
        Session::new()
    }
}

impl Session {
    /// A session with no subscription, no feed and no bound on a GET.
    pub fn new() -> (session: Session)
        ensures
            session@ == (SessionView {
                subscriptions: Seq::<SubscriptionView>::empty(),
                feed: None,
                timeout_secs: None,
            }),
    {
        Session { store: SubscriptionStore::new(), feed: None, timeout_secs: None }
    }

    /// Adds a subscription at the end of the store and returns its position.
    /// Nothing is validated and nothing else changes.
    pub fn add_subscription(&mut self, name: String, url: String) -> (index: usize)
        ensures
            final(self)@ == (SessionView {
                subscriptions: old(self)@.subscriptions.push(
                    SubscriptionView { name: name@, url: url@ },
                ),
                ..old(self)@
            }),
            index == old(self)@.subscriptions.len(),
    {
        self.store.add(name, url)
    }

    /// Position, name and address of every subscription, in order.
    pub fn list_subscriptions<'a>(&'a self) -> (rows: Vec<(usize, &'a str, &'a str)>)
        ensures
            rows@.len() == self@.subscriptions.len(),
            forall|i: int|
                0 <= i < rows@.len() ==> {
                    &&& (#[trigger] rows@[i]).0 == i
                    &&& rows@[i].1@ == self@.subscriptions[i].name
                    &&& rows@[i].2@ == self@.subscriptions[i].url
                },
            rows_view(rows@) == listed(self@.subscriptions),
    {
        let pairs = self.store.enumerate();
        let mut rows: Vec<(usize, &'a str, &'a str)> = Vec::new();
        let mut i: usize = 0;
        while i < pairs.len()
            invariant
                i <= pairs@.len(),
                pairs@.len() == self.store@.len(),
                forall|k: int|
                    0 <= k < pairs@.len() ==> (#[trigger] pairs@[k]).0 == k && pairs@[k].1@
                        == self.store@[k],
                rows@.len() == i,
                forall|k: int|
                    0 <= k < i ==> {
                        &&& (#[trigger] rows@[k]).0 == k
                        &&& rows@[k].1@ == self.store@[k].name
                        &&& rows@[k].2@ == self.store@[k].url
                    },
            decreases pairs@.len() - i,
        {
            let (index, sub) = pairs[i];
            rows.push((index, sub.name.as_str(), sub.url.as_str()));
            i += 1;
        }
        assert(rows_view(rows@) =~= listed(self@.subscriptions));
        rows
    }

    /// The subscription at `index`, or `None` where the store holds none
    /// there.
    pub fn subscription(&self, index: usize) -> (found: Option<&Subscription>)
        ensures
            match found {
                Some(sub) => lookup(self@.subscriptions, index as int) == Some(sub@),
                None => lookup(self@.subscriptions, index as int) is None,
            },
    {
        self.store.get(index)
    }

    /// The first step of a fetch: the address of the subscription at
    /// `index`, or an index failure where the store holds none there.
    pub fn select(&self, index: usize) -> (selection: Result<&str, FetchError>)
        ensures
            selection_view(selection) == selected(self@.subscriptions, index),
    {
        match self.store.get(index) {
            Some(sub) => Ok(sub.url.as_str()),
            None => Err(FetchError::Index(index)),
        }
    }

    /// The second step of a fetch: judges what the transport reported. A
    /// feed replaces the one held before; on a failure the session is as it
    /// was, and the failure is returned.
    pub fn complete_fetch(&mut self, transfer: Transfer) -> (result: Result<(), FetchError>)
        ensures
            final(self)@ == (SessionView {
                feed: feed_after(old(self)@.feed, transfer@),
                ..old(self)@
            }),
            verdict_view(result) == verdict(transfer@),
    {
        match interpret(transfer) {
            Ok(feed) => {
                self.feed = Some(feed);
                Ok(())
            },
            Err(error) => Err(error),
        }
    }

    /// The feed of the last successful fetch.
    pub fn feed(&self) -> (held: Option<&Feed>)
        ensures
            match held {
                Some(feed) => self@.feed == Some(feed@),
                None => self@.feed is None,
            },
    {
        self.feed.as_ref()
    }

    /// The bound on a GET, in seconds.
    pub fn timeout_secs(&self) -> (bound: Option<u64>)
        ensures
            bound == self@.timeout_secs,
    {
        self.timeout_secs
    }

    /// Sets the bound that the caller is to put on each GET; `None` removes
    /// it. Nothing else changes.
    pub fn set_timeout_secs(&mut self, bound: Option<u64>)
        ensures
            final(self)@ == (SessionView { timeout_secs: bound, ..old(self)@ }),
    {
        self.timeout_secs = bound;
    }
}

/// A fetch that fails, for whatever reason, leaves the feed that the session
/// held, and reports the failure as it is.
pub proof fn failed_fetch_keeps_the_feed(held: Option<FeedView>, transfer: TransferView)
    requires
        outcome(transfer) is Err,
    ensures
        feed_after(held, transfer) == held,
        verdict(transfer) == Err::<(), FetchErrorView>(outcome(transfer)->Err_0),
{
}

/// A fetch that succeeds replaces the feed that the session held, whatever
/// it was, by the new document.
pub proof fn successful_fetch_replaces_the_feed(held: Option<FeedView>, transfer: TransferView)
    requires
        outcome(transfer) is Ok,
    ensures
        feed_after(held, transfer) == Some(outcome(transfer)->Ok_0),
        verdict(transfer) == Ok::<(), FetchErrorView>(()),
{
}

/// Selecting fails exactly at the positions that the store does not hold,
/// and then with an index failure that names the position.
pub proof fn selection_fails_only_out_of_range(subs: Seq<SubscriptionView>, index: usize)
    ensures
        index < subs.len() ==> selected(subs, index) == Ok::<Seq<char>, FetchErrorView>(
            subs[index as int].url,
        ),
        index >= subs.len() ==> selected(subs, index) == Err::<Seq<char>, FetchErrorView>(
            FetchErrorView::Index(index),
        ),
{
}

} // verus!
