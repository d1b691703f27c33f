//! The items that a synchronisation pass reads and reports.

use vstd::prelude::*;

use crate::text::clone_text;
use crate::text::text_of;
use crate::time::Timestamp;

verus! {

/// Whether an item has been read.
#[derive(Debug, Clone, Copy, PartialEq, Eq, Structural)]
pub enum ItemStatus {
    Unread,
    Read,
}

/// The orders in which a list of items can be asked for.
#[derive(Debug, Clone, Copy, PartialEq, Eq, Structural)]
pub enum ItemOrder {
    ReceivedDateDesc,
    PublishedDateDesc,
    UnreadFirst,
}

/// The feed that an item belongs to, as the item carries it.
#[derive(Debug, Clone, PartialEq, Eq)]
pub struct ItemFeed {
    pub id: i32,
    pub title: String,
    pub link: String,
}

/// An item as the upstream server returns it.
#[derive(Debug, Clone, PartialEq, Eq)]
pub struct Item {
    pub id: i32,
    pub fingerprint: String,
    pub author: Option<String>,
    pub title: String,
    pub description: String,
    pub link: String,
    pub status: ItemStatus,
    pub is_saved: bool,
    pub published_at: Timestamp,
    pub feed: ItemFeed,
}

/// A newly discovered item, ready to be reported.
#[derive(Debug, Clone, PartialEq, Eq)]
pub struct ItemToCreate {
    pub author: Option<String>,
    pub title: String,
    pub description: String,
    pub link: String,
    pub status: ItemStatus,
    pub published_at: Timestamp,
    pub feed: i32,
}

/// The filters, order and window of a read of items. A field left at `None`
/// does not restrict the read.
#[derive(Debug, Clone, PartialEq, Eq)]
pub struct ItemReadOption {
    pub ids: Option<Vec<i32>>,
    pub feed: Option<i32>,
    pub status: Option<ItemStatus>,
    pub is_saved: Option<bool>,
    pub order_by: Option<ItemOrder>,
    pub limit: Option<u64>,
    pub offset: Option<u64>,
}

/// The mathematical value of an [`ItemFeed`].
pub struct ItemFeedView {
    pub id: i32,
    pub title: Seq<char>,
    pub link: Seq<char>,
}

/// The mathematical value of an [`Item`].
pub struct ItemView {
    pub id: i32,
    pub fingerprint: Seq<char>,
    pub author: Option<Seq<char>>,
    pub title: Seq<char>,
    pub description: Seq<char>,
    pub link: Seq<char>,
    pub status: ItemStatus,
    pub is_saved: bool,
    pub published_at: Timestamp,
    pub feed: ItemFeedView,
}

/// The mathematical value of an [`ItemToCreate`].
pub struct ItemToCreateView {
    pub author: Option<Seq<char>>,
    pub title: Seq<char>,
    pub description: Seq<char>,
    pub link: Seq<char>,
    pub status: ItemStatus,
    pub published_at: Timestamp,
    pub feed: i32,
}

impl View for ItemFeed {
    type V = ItemFeedView;

    open spec fn view(&self) -> ItemFeedView {
        ItemFeedView { id: self.id, title: self.title@, link: self.link@ }
    }
}

impl View for Item {
    type V = ItemView;

    open spec fn view(&self) -> ItemView {
        ItemView {
            id: self.id,
            fingerprint: self.fingerprint@,
            author: text_of(self.author),
            title: self.title@,
            description: self.description@,
            link: self.link@,
            status: self.status,
            is_saved: self.is_saved,
            published_at: self.published_at,
            feed: self.feed@,
        }
    }
}

impl View for ItemToCreate {
    type V = ItemToCreateView;

    open spec fn view(&self) -> ItemToCreateView {
        ItemToCreateView {
            author: text_of(self.author),
            title: self.title@,
            description: self.description@,
            link: self.link@,
            status: self.status,
            published_at: self.published_at,
            feed: self.feed,
        }
    }
}

impl DeepView for Item {
    type V = ItemView;

    open spec fn deep_view(&self) -> ItemView {
        self@
    }
}

impl DeepView for ItemToCreate {
    type V = ItemToCreateView;

    open spec fn deep_view(&self) -> ItemToCreateView {
        self@
    }
}

impl ItemView {
    /// The creation record of this item: author, title, description, link,
    /// status and publication time as they are, and the identifier of the
    /// owning feed.
    pub open spec fn to_create(self) -> ItemToCreateView {
        ItemToCreateView {
            author: self.author,
            title: self.title,
            description: self.description,
            link: self.link,
            status: self.status,
            published_at: self.published_at,
            feed: self.feed.id,
        }
    }
}

impl Item {
    /// Makes the creation record of this item.
    pub fn to_create(&self) -> (record: ItemToCreate)
        ensures
            record@ == self@.to_create(),
    {
        ItemToCreate {
            author: clone_text(&self.author),
            title: self.title.clone(),
            description: self.description.clone(),
            link: self.link.clone(),
            status: self.status,
            published_at: self.published_at,
            feed: self.feed.id,
        }
    }
}

impl ItemReadOption {
    /// The read that a synchronisation pass makes: every unread item, with
    /// no other filter, in the server's order, unwindowed.
    pub open spec fn is_unread_only(self) -> bool {
        &&& self.ids is None
        &&& self.feed is None
        &&& self.status == Some(ItemStatus::Unread)
        &&& self.is_saved is None
        &&& self.order_by is None
        &&& self.limit is None
        &&& self.offset is None
    }

    /// The option set of a synchronisation pass.
    pub fn unread_only() -> (option: ItemReadOption)
        ensures
            option.is_unread_only(),
    {
        ItemReadOption {
            ids: None,
            feed: None,
            status: Some(ItemStatus::Unread),
            is_saved: None,
            order_by: None,
            limit: None,
            offset: None,
        }
    }
}

} // verus!
