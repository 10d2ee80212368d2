//! The subscription store: named feed addresses, kept in the order in which
//! they were added and referred to by position.

use vstd::prelude::*;

verus! {

/// What a subscription is, mathematically: its name and its address.
pub struct SubscriptionView {
    pub name: Seq<char>,
    pub url: Seq<char>,
}

/// A named reference to a feed address. Neither field is validated, and two
/// subscriptions may share a name or an address.
#[derive(Debug, Clone, PartialEq, Eq)]
pub struct Subscription {
    pub name: String,
    pub url: String,
}

impl View for Subscription {
    type V = SubscriptionView;

    open spec fn view(&self) -> SubscriptionView {
        SubscriptionView { name: self.name@, url: self.url@ }
    }
}

/// The subscription at `index` of `subs`, if there is one.
pub open spec fn lookup(subs: Seq<SubscriptionView>, index: int) -> Option<SubscriptionView> {
    if 0 <= index < subs.len() {
        Some(subs[index])
    } else {
        None
    }
}

/// Every subscription of `subs` paired with its position, in order.
pub open spec fn enumerated(subs: Seq<SubscriptionView>) -> Seq<(int, SubscriptionView)> {
    Seq::new(subs.len(), |i: int| (i, subs[i]))
}

/// The store that results from adding each entry of `adds`, first to last,
/// to a store that holds `subs`.
pub open spec fn after_adds(subs: Seq<SubscriptionView>, adds: Seq<SubscriptionView>) -> Seq<
    SubscriptionView,
>
    decreases adds.len(),
{
    if adds.len() == 0 {
        subs
    } else {
        after_adds(subs.push(adds.first()), adds.drop_first())
    }
}

/// What a list of positions and borrowed subscriptions stands for.
pub open spec fn pairs_view(pairs: Seq<(usize, &Subscription)>) -> Seq<(int, SubscriptionView)> {
    Seq::new(pairs.len(), |i: int| (pairs[i].0 as int, pairs[i].1@))
}

/// An ordered collection of subscriptions. Its view is the sequence of the
/// subscriptions added so far, oldest first.
#[derive(Debug, Clone)]
pub struct SubscriptionStore {
    subs: Vec<Subscription>,
}

impl View for SubscriptionStore {
    type V = Seq<SubscriptionView>;

    closed spec fn view(&self) -> Seq<SubscriptionView> {
        Seq::new(self.subs@.len(), |i: int| self.subs@[i]@)
    }
}

impl Default for SubscriptionStore {
    /// The empty store.
    fn default() -> (store: SubscriptionStore)
        ensures
            store@ == Seq::<SubscriptionView>::empty(),
    {
        SubscriptionStore::new()
    }
}

impl SubscriptionStore {
    /// A store with no subscriptions.
    pub fn new() -> (store: SubscriptionStore)
        ensures
            store@ == Seq::<SubscriptionView>::empty(),
    {
        let store = SubscriptionStore { subs: Vec::new() };
        assert(store@ =~= Seq::<SubscriptionView>::empty());
        store
    }

    /// The number of subscriptions.
    pub fn len(&self) -> (n: usize)
        ensures
            n == self@.len(),
    {
        self.subs.len()
    }

    /// Whether the store holds no subscription.
    pub fn is_empty(&self) -> (b: bool)
        ensures
            b == (self@.len() == 0),
    {
        self.subs.len() == 0
    }

    /// Appends a subscription with the given name and address and returns its
    /// position, which is the number of subscriptions held before the call.
    /// Every earlier subscription keeps its position.
    pub fn add(&mut self, name: String, url: String) -> (index: usize)
        ensures
            final(self)@ == old(self)@.push(SubscriptionView { name: name@, url: url@ }),
            index == old(self)@.len(),
    {
        let index = self.subs.len();
        self.subs.push(Subscription { name, url });
        assert(self@ =~= old(self)@.push(SubscriptionView { name: name@, url: url@ }));
        index
    }

    /// The subscription at `index`, or `None` where `index` is not below the
    /// number of subscriptions.
    pub fn get(&self, index: usize) -> (found: Option<&Subscription>)
        ensures
            match found {
                Some(sub) => lookup(self@, index as int) == Some(sub@),
                None => lookup(self@, index as int) is None,
            },
    {
        if index < self.subs.len() {
            Some(&self.subs[index])
        } else {
            None
        }
    }

    /// Every subscription with its position, in the order of the store.
    pub fn enumerate(&self) -> (pairs: Vec<(usize, &Subscription)>)
        ensures
            pairs@.len() == self@.len(),
            forall|i: int|
                0 <= i < pairs@.len() ==> (#[trigger] pairs@[i]).0 == i && pairs@[i].1@ == self@[i],
            pairs_view(pairs@) == enumerated(self@),
    {
        let mut pairs: Vec<(usize, &Subscription)> = Vec::new();
        let mut i: usize = 0;
        while i < self.subs.len()
            invariant
                i <= self.subs@.len(),
                pairs@.len() == i,
                forall|k: int|
                    0 <= k < i ==> (#[trigger] pairs@[k]).0 == k && pairs@[k].1 == &self.subs@[k],
            decreases self.subs@.len() - i,
        {
            pairs.push((i, &self.subs[i]));
            i += 1;
        }
        assert(pairs_view(pairs@) =~= enumerated(self@));
        pairs
    }
}

/// Adding appends: after any run of additions the store holds what it held
/// before, followed by the added subscriptions in the order of the calls.
pub proof fn adds_append(subs: Seq<SubscriptionView>, adds: Seq<SubscriptionView>)
    ensures
        after_adds(subs, adds) == subs + adds,
    decreases adds.len(),
{
    if adds.len() == 0 {
        assert(subs + adds =~= subs);
    } else {
        adds_append(subs.push(adds.first()), adds.drop_first());
        assert(subs.push(adds.first()) + adds.drop_first() =~= subs + adds);
    }
}

/// Whatever is added to an empty store, in whatever number, enumeration
/// yields exactly the added subscriptions, each unchanged and at the position
/// at which it was added.
pub proof fn enumeration_follows_insertion(adds: Seq<SubscriptionView>)
    ensures
        after_adds(Seq::empty(), adds) == adds,
        enumerated(after_adds(Seq::empty(), adds)).len() == adds.len(),
        forall|i: int|
            0 <= i < adds.len() ==> #[trigger] enumerated(after_adds(Seq::empty(), adds))[i] == (
                i,
                adds[i],
            ),
{
    adds_append(Seq::empty(), adds);
    assert(Seq::<SubscriptionView>::empty() + adds =~= adds);
}

/// After any run of additions to an empty store, looking up a position below
/// the number of additions gives the subscription added at that position,
/// and looking up any other position gives nothing.
pub proof fn lookup_follows_insertion(adds: Seq<SubscriptionView>, index: int)
    ensures
        0 <= index < adds.len() ==> lookup(after_adds(Seq::empty(), adds), index) == Some(
            adds[index],
        ),
        !(0 <= index < adds.len()) ==> lookup(after_adds(Seq::empty(), adds), index) is None,
{
    enumeration_follows_insertion(adds);
}

/// A position that holds a subscription holds the same one after any run of
/// additions.
pub proof fn positions_stay_valid(
    subs: Seq<SubscriptionView>,
    adds: Seq<SubscriptionView>,
    index: int,
)
    requires
        0 <= index < subs.len(),
    ensures
        lookup(after_adds(subs, adds), index) == lookup(subs, index),
{
    adds_append(subs, adds);
}

} // verus!
