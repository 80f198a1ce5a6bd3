//! The record that the service returns for each followed feed.

use vstd::prelude::*;

verus! {

/// One feed that the user follows.
#[derive(Debug, Clone, PartialEq, Eq)]
pub struct Subscription {
    pub id: u64,
    /// ISO 8601 timestamp, kept as the service sent it.
    pub created_at: String,
    pub feed_id: u64,
    pub title: String,
    pub feed_url: String,
    pub site_url: String,
}

/// A subscription as a mathematical value: strings as sequences of characters.
pub struct SubscriptionView {
    pub id: u64,
    pub created_at: Seq<char>,
    pub feed_id: u64,
    pub title: Seq<char>,
    pub feed_url: Seq<char>,
    pub site_url: Seq<char>,
}

impl View for Subscription {
    type V = SubscriptionView;

    open spec fn view(&self) -> SubscriptionView {
        SubscriptionView {
            id: self.id,
            created_at: self.created_at@,
            feed_id: self.feed_id,
            title: self.title@,
            feed_url: self.feed_url@,
            site_url: self.site_url@,
        }
    }
}

/// The views of a list of subscriptions, in order.
pub open spec fn views(list: Seq<Subscription>) -> Seq<SubscriptionView> {
    list.map_values(|s: Subscription| s@)
}

} // verus!
