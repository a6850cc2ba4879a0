//! The canonical data model: provider-independent items, tags and
//! credentials, and the capability traits that providers share.

use vstd::prelude::*;

verus! {

/// The lifecycle status of a canonical item.
#[derive(Debug, Clone, Copy, PartialEq, Eq, Structural)]
pub enum ItemStatus {
    Normal,
    Archived,
    Deleted,
}

/// The provider-independent record stored locally.
///
/// Timestamps are absolute UTC instants counted in seconds since the Unix
/// epoch. Required fields are always set by the decoders; optional fields
/// default to absent, never to a sentinel that could pass for real data.
#[derive(Debug, Clone)]
pub struct ResearchItem {
    /// Source-scoped numeric identifier; not globally unique.
    pub id: u64,
    /// Primary link; absent when the source could not resolve one.
    pub uri: Option<String>,
    /// Human-readable title; may be empty.
    pub title: String,
    /// Optional summary text.
    pub excerpt: Option<String>,
    pub time_added: u64,
    pub time_updated: u64,
    pub time_read: Option<u64>,
    pub time_favorited: Option<u64>,
    pub status: ItemStatus,
    pub favorite: bool,
}

/// An association of one tag text with one item.
#[derive(Debug, Clone)]
pub struct Tags {
    pub item_id: u64,
    pub tag: String,
}

/// The long-lived consumer identifier and the per-session access token the
/// handshake yields. The caller persists the token across invocations.
#[derive(Debug, Clone)]
pub struct Secrets {
    pub consumer_key: String,
    pub access_token: String,
}

/// The conversion contract a provider's raw item supplies: each item yields
/// one canonical record and its tag associations.
pub trait Insertable {
    fn to_research_item(&self) -> ResearchItem;

    fn to_tags(&self) -> Vec<Tags>;
}

/// A provider is a source with its own raw item representation.
pub trait Provider {
    type Item;
}

} // verus!
