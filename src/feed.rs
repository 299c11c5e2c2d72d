//! Finding the list and assembling the feed document.
use vstd::prelude::*;

use crate::render::{entry, entry_of, item_error, item_for, FeedError, FeedItem};
use crate::status::Status;

verus! {

/// Number of statuses asked for in one timeline page.
pub const PAGE_SIZE: u64 = 100;

/// A list that the account owns or belongs to.
#[derive(Debug)]
pub struct ListDescriptor {
    pub id: u64,
    pub name: String,
}

/// What the feed needs besides the statuses: its channel metadata and the
/// name of the list it follows.
#[derive(Debug)]
pub struct FeedConfig {
    pub title: String,
    pub link: String,
    pub description: String,
    pub list_name: String,
}

/// A feed ready to be written out.
#[derive(Debug)]
pub struct FeedDocument {
    pub title: String,
    pub link: String,
    pub description: String,
    pub items: Vec<FeedItem>,
}

/// The id of the first list, in the given order, whose name is exactly `name`.
pub open spec fn first_match(lists: Seq<ListDescriptor>, name: Seq<char>) -> Option<u64>
    decreases lists.len(),
{
    if lists.len() == 0 {
        None
    } else if lists[0].name@ == name {
        Some(lists[0].id)
    } else {
        first_match(lists.drop_first(), name)
    }
}

/// The error of the first status, in order, that cannot become an entry.
pub open spec fn first_error(sts: Seq<Status>) -> Option<FeedError>
    decreases sts.len(),
{
    if sts.len() == 0 {
        None
    } else if item_error(sts[0]) is Some {
        item_error(sts[0])
    } else {
        first_error(sts.drop_first())
    }
}

/// Channel title, link and description.
pub open spec fn channel_of(config: FeedConfig) -> (Seq<char>, Seq<char>, Seq<char>) {
    (config.title@, config.link@, config.description@)
}

/// The plain contents of a document's channel.
pub open spec fn doc_channel(doc: FeedDocument) -> (Seq<char>, Seq<char>, Seq<char>) {
    (doc.title@, doc.link@, doc.description@)
}

/// The plain contents of a document's entries, in order.
pub open spec fn doc_entries(doc: FeedDocument) -> Seq<(Seq<char>, Seq<char>, Seq<char>, Seq<char>, bool, Seq<char>)> {
    doc.items@.map_values(|i: FeedItem| entry(i))
}

/// The entries for a sequence of statuses, in the same order.
pub open spec fn entries_of(sts: Seq<Status>) -> Seq<(Seq<char>, Seq<char>, Seq<char>, Seq<char>, bool, Seq<char>)> {
    sts.map_values(|st: Status| entry_of(st))
}

/// The RSS 2.0 text of a channel with its entries.
pub uninterp spec fn rss_xml(
    channel: (Seq<char>, Seq<char>, Seq<char>),
    entries: Seq<(Seq<char>, Seq<char>, Seq<char>, Seq<char>, bool, Seq<char>)>,
) -> Seq<char>;

/// Relies on the rss crate: `Channel` and `Item` setters store the values given,
/// and `Channel::to_string` writes the channel and its items, in order, as RSS 2.0.
#[verifier::external_body]
fn write_rss(doc: &FeedDocument) -> (r: String)
    ensures
        r@ == rss_xml(doc_channel(*doc), doc_entries(*doc)),
{
    let mut channel = rss::Channel::default();
    channel.set_title(doc.title.clone());
    channel.set_link(doc.link.clone());
    channel.set_description(doc.description.clone());
    channel.set_items(doc.items.iter().map(|i| {
        let mut item = rss::Item::default();
        item.set_title(i.title.clone());
        item.set_description(i.description.clone());
        item.set_link(i.link.clone());
        item.set_pub_date(i.pub_date.clone());
        item.set_guid(rss::Guid { value: i.guid.clone(), permalink: i.guid_is_permalink });
        item
    }).collect::<Vec<_>>());
    channel.to_string()
}

/// Finds the list whose name is exactly `name`, taking the first in order.
pub fn resolve_list(lists: &Vec<ListDescriptor>, name: &str) -> (r: Option<u64>)
    ensures
        r == first_match(lists@, name@),
{
    let n = lists.len();
    let mut i: usize = 0;
    assert(lists@.subrange(0, n as int) =~= lists@);
    while i < n
        invariant
            n == lists@.len(),
            i <= n,
            first_match(lists@.subrange(i as int, n as int), name@) == first_match(lists@, name@),
        decreases n - i,
    {
        assert(lists@.subrange(i as int, n as int).drop_first() =~= lists@.subrange(i + 1, n as int));
        if lists[i].name.as_str().to_owned() == name.to_owned() {
            return Some(lists[i].id);
        }
        i = i + 1;
    }
    None
}

/// Builds the feed document for the statuses, one entry each, in the order given.
/// Fails with the error of the first status that cannot become an entry.
pub fn create_feed(config: &FeedConfig, statuses: &Vec<Status>) -> (r: Result<FeedDocument, FeedError>)
    ensures
        match r {
            Ok(doc) => first_error(statuses@) is None && doc_channel(doc) == channel_of(*config)
                && doc_entries(doc) == entries_of(statuses@),
            Err(e) => first_error(statuses@) == Some(e),
        },
{
    let n = statuses.len();
    let mut items: Vec<FeedItem> = Vec::new();
    let mut i: usize = 0;
    assert(statuses@.subrange(0, n as int) =~= statuses@);
    while i < n
        invariant
            n == statuses@.len(),
            i <= n,
            items@.len() == i,
            first_error(statuses@) == first_error(statuses@.subrange(i as int, n as int)),
            forall|j: int| 0 <= j < i ==> #[trigger] entry(items@[j]) == entry_of(statuses@[j]),
        decreases n - i,
    {
        assert(statuses@.subrange(i as int, n as int).drop_first() =~= statuses@.subrange(i + 1, n as int));
        match item_for(&statuses[i]) {
            Ok(item) => items.push(item),
            Err(e) => return Err(e),
        }
        i = i + 1;
    }
    let doc = FeedDocument {
        title: config.title.clone(),
        link: config.link.clone(),
        description: config.description.clone(),
        items,
    };
    assert(doc_entries(doc) =~= entries_of(statuses@));
    Ok(doc)
}

/// The feed text for the statuses, or the error of the first status that
/// cannot become an entry.
pub fn render_feed(config: &FeedConfig, statuses: &Vec<Status>) -> (r: Result<String, FeedError>)
    ensures
        match r {
            Ok(s) => first_error(statuses@) is None && s@ == rss_xml(channel_of(*config), entries_of(statuses@)),
            Err(e) => first_error(statuses@) == Some(e),
        },
{
    match create_feed(config, statuses) {
        Ok(doc) => Ok(write_rss(&doc)),
        Err(e) => Err(e),
    }
}

/// What to do once the account's lists are known.
#[derive(Debug)]
pub enum ListStep {
    /// Fetch a page of the timeline of this list, then call `render_feed`.
    FetchTimeline { list_id: u64 },
    /// No list has the configured name: answer with this feed, which has no entries.
    Respond { feed: String },
}

/// Decides, from the account's lists, whether to fetch a timeline or to answer
/// at once with an empty feed.
pub fn after_lists(config: &FeedConfig, lists: &Vec<ListDescriptor>) -> (r: ListStep)
    ensures
        match first_match(lists@, config.list_name@) {
            Some(id) => r == (ListStep::FetchTimeline { list_id: id }),
            None => r is Respond && r->feed@ == rss_xml(channel_of(*config), Seq::empty()),
        },
{
    match resolve_list(lists, config.list_name.as_str()) {
        Some(id) => ListStep::FetchTimeline { list_id: id },
        None => {
            let doc = FeedDocument {
                title: config.title.clone(),
                link: config.link.clone(),
                description: config.description.clone(),
                items: Vec::new(),
            };
            assert(doc_entries(doc) =~= Seq::empty());
            ListStep::Respond { feed: write_rss(&doc) }
        },
    }
}

} // verus!
