//! The parsed feed: one channel holding its items in document order.
use vstd::prelude::*;

verus! {

/// One entry of the feed.
#[derive(Debug, Clone, PartialEq, Eq)]
pub struct Item {
    pub title: String,
    pub link: String,
}

/// The container of the feed's items, in document order.
#[derive(Debug, Clone, PartialEq, Eq)]
pub struct Channel {
    pub items: Vec<Item>,
}

/// The document root: exactly one channel.
#[derive(Debug, Clone, PartialEq, Eq)]
pub struct Rss {
    pub channel: Channel,
}

/// What an item holds, as text.
pub ghost struct ItemView {
    pub title: Seq<char>,
    pub link: Seq<char>,
}

impl View for Item {
    type V = ItemView;

    open spec fn view(&self) -> ItemView {
        ItemView { title: self.title@, link: self.link@ }
    }
}

impl View for Channel {
    type V = Seq<ItemView>;

    open spec fn view(&self) -> Seq<ItemView> {
        self.items@.map_values(|i: Item| i@)
    }
}

impl View for Rss {
    type V = Seq<ItemView>;

    open spec fn view(&self) -> Seq<ItemView> {
        self.channel@
    }
}

impl Item {
    pub fn new(title: String, link: String) -> (r: Item)
        ensures
            r.title == title,
            r.link == link,
    {
        Item { title, link }
    }
}

impl Rss {
    /// A document whose channel holds `items`, in that order.
    pub fn new(items: Vec<Item>) -> (r: Rss)
        ensures
            r.channel.items == items,
    {
        Rss { channel: Channel { items } }
    }
}

} // verus!
