//! A parsed RSS channel whose items can be filtered by title and written
//! back as XML.

use crate::filter::{keeps_title, kept, kept_entries, opt_view, retain_unblocked, terms_view, title_passes};
use vstd::prelude::*;
use vstd::string::*;

verus! {

#[verifier::external_type_specification]
#[verifier::external_body]
pub struct ExRssChannel(rss::Channel);

#[verifier::external_type_specification]
#[verifier::external_body]
pub struct ExRssItem(rss::Item);

#[verifier::external_type_specification]
#[verifier::external_body]
pub struct ExRssError(rss::Error);

/// Whether the RSS reader accepts these bytes as a channel; it reads the
/// bytes alone.
pub uninterp spec fn rss_accepts(bytes: Seq<u8>) -> bool;

/// The channel that the RSS reader makes of these bytes, where it accepts
/// them.
pub uninterp spec fn rss_read(bytes: Seq<u8>) -> rss::Channel;

/// The items a channel holds, in order.
pub uninterp spec fn rss_items(channel: rss::Channel) -> Seq<rss::Item>;

/// Everything a channel holds but its items: title, link, description and
/// the other metadata.
pub uninterp spec fn rss_metadata(channel: rss::Channel) -> rss::Channel;

/// An item's title, if it has one.
pub uninterp spec fn rss_title(item: rss::Item) -> Option<Seq<char>>;

/// The RSS XML text that a channel is written as.
pub uninterp spec fn rss_xml(channel: rss::Channel) -> Seq<char>;

/// Relies on `rss::Channel::read_from`: it parses the bytes as an RSS
/// document, failing on malformed or non-RSS content, and the channel it
/// makes depends on the bytes alone.
#[verifier::external_body]
fn read_channel(bytes: &[u8]) -> (r: Result<rss::Channel, rss::Error>)
    ensures
        r.is_ok() == rss_accepts(bytes@),
        r matches Result::Ok(c) ==> c == rss_read(bytes@),
{
    rss::Channel::read_from(bytes)
}

/// Relies on the public `items` field of `rss::Channel`: moves the items
/// out, leaving the channel's other fields as they were and its items empty.
#[verifier::external_body]
fn take_items(channel: &mut rss::Channel) -> (r: Vec<rss::Item>)
    ensures
        r@ == rss_items(*old(channel)),
        rss_items(*final(channel)) == Seq::<rss::Item>::empty(),
        rss_metadata(*final(channel)) == rss_metadata(*old(channel)),
{
    std::mem::take(&mut channel.items)
}

/// Relies on `rss::Channel::set_items`: replaces the channel's items and
/// nothing else.
#[verifier::external_body]
fn put_items(channel: &mut rss::Channel, items: Vec<rss::Item>)
    ensures
        rss_items(*final(channel)) == items@,
        rss_metadata(*final(channel)) == rss_metadata(*old(channel)),
{
    channel.set_items(items)
}

/// Relies on `rss::Item::title`: the item's title, if it has one.
#[verifier::external_body]
fn item_title(item: &rss::Item) -> (r: Option<String>)
    ensures
        opt_view(r) == rss_title(*item),
{
    item.title().map(String::from)
}

/// Relies on `Display` for `rss::Channel`: the channel written as RSS XML.
#[verifier::external_body]
fn channel_xml(channel: &rss::Channel) -> (r: String)
    ensures
        r@ == rss_xml(*channel),
{
    channel.to_string()
}

/// Relies on `Display` for `rss::Error`: a description of the parse failure.
#[verifier::external_body]
fn rss_error_text(e: &rss::Error) -> String {
    e.to_string()
}

/// One item of a channel: the item itself, which passes through untouched,
/// and its title, read once for filtering.
pub struct FeedItem {
    title: Option<String>,
    entry: rss::Item,
}

/// The RSS items behind a sequence of feed items.
pub open spec fn entries(items: Seq<FeedItem>) -> Seq<rss::Item> {
    items.map_values(|i: FeedItem| i.entry_view())
}

impl FeedItem {
    /// The title held is the item's own.
    #[verifier::type_invariant]
    spec fn wf(self) -> bool {
        opt_view(self.title) == rss_title(self.entry)
    }

    /// The RSS item.
    pub closed spec fn entry_view(self) -> rss::Item {
        self.entry
    }

    /// The title as a character sequence, if there is one.
    pub open spec fn title_view(&self) -> Option<Seq<char>> {
        rss_title(self.entry_view())
    }

    /// Wraps an RSS item, reading its title.
    pub fn from_rss(entry: rss::Item) -> (r: FeedItem)
        ensures
            r.entry_view() == entry,
            r.title_view() == rss_title(entry),
    {
        let title = item_title(&entry);
        FeedItem { title, entry }
    }

    /// The item's title, if it has one.
    pub fn title(&self) -> (r: &Option<String>)
        ensures
            opt_view(*r) == self.title_view(),
    {
        proof {
            use_type_invariant(self);
        }
        &self.title
    }

    /// The RSS item.
    pub fn entry(&self) -> (r: &rss::Item)
        ensures
            *r == self.entry_view(),
    {
        &self.entry
    }

    /// Whether this item survives `terms`.
    pub fn keeps(&self, terms: &Vec<String>) -> (r: bool)
        ensures
            r == title_passes(self.title_view(), terms_view(terms@)),
    {
        proof {
            use_type_invariant(self);
        }
        keeps_title(&self.title, terms)
    }

    /// Gives up the RSS item.
    pub fn into_entry(self) -> (r: rss::Item)
        ensures
            r == self.entry_view(),
    {
        self.entry
    }
}

/// Filtering the feed items filters their RSS items the same way.
proof fn lemma_entries_of_kept(items: Seq<FeedItem>, terms: Seq<Seq<char>>)
    ensures
        entries(kept(items, terms)) == kept_entries(entries(items), terms),
    decreases items.len(),
{
    if items.len() > 0 {
        lemma_entries_of_kept(items.drop_last(), terms);
        assert(entries(items.drop_last()) =~= entries(items).drop_last());
        let rest = kept(items.drop_last(), terms);
        assert(entries(rest.push(items.last())) =~= entries(rest).push(items.last().entry_view()));
    } else {
        assert(entries(items) =~= Seq::<rss::Item>::empty());
        assert(entries(kept(items, terms)) =~= Seq::<rss::Item>::empty());
    }
}

/// A parsed channel: its metadata, with the items held apart so that they
/// can be filtered.
pub struct FeedChannel {
    head: rss::Channel,
    items: Vec<FeedItem>,
}

impl FeedChannel {
    /// The items, in order.
    pub closed spec fn items_view(&self) -> Seq<FeedItem> {
        self.items@
    }

    /// The channel's metadata.
    pub closed spec fn metadata(&self) -> rss::Channel {
        rss_metadata(self.head)
    }

    /// Parses `bytes` as an RSS channel; on failure returns the reader's
    /// description of the problem.
    pub fn parse(bytes: &[u8]) -> (r: Result<FeedChannel, String>)
        ensures
            r.is_ok() == rss_accepts(bytes@),
            r matches Result::Ok(c) ==> {
                &&& entries(c.items_view()) == rss_items(rss_read(bytes@))
                &&& c.metadata() == rss_metadata(rss_read(bytes@))
            },
    {
        match read_channel(bytes) {
            Result::Ok(mut head) => {
                let mut raw = take_items(&mut head);
                let ghost orig = raw@;
                let mut items: Vec<FeedItem> = Vec::new();
                let mut k: usize = 0;
                let n = raw.len();
                while k < n
                    invariant
                        n == orig.len(),
                        k <= n,
                        raw@ == orig.subrange(k as int, n as int),
                        items@.len() == k,
                        forall|i: int| 0 <= i < k ==> (#[trigger] items@[i]).entry_view() == orig[i],
                    decreases n - k,
                {
                    let entry = raw.remove(0);
                    items.push(FeedItem::from_rss(entry));
                    k = k + 1;
                    assert(raw@ =~= orig.subrange(k as int, n as int));
                }
                let c = FeedChannel { head, items };
                assert(entries(c.items_view()) =~= orig);
                Result::Ok(c)
            },
            Result::Err(e) => Result::Err(rss_error_text(&e)),
        }
    }

    /// The items, in order.
    pub fn items(&self) -> (r: &Vec<FeedItem>)
        ensures
            r@ == self.items_view(),
    {
        &self.items
    }

    /// Drops every item whose title contains one of `terms` as a
    /// case-sensitive substring; items without a title stay, and the
    /// metadata is untouched.
    pub fn retain_unblocked(&mut self, terms: &Vec<String>)
        ensures
            final(self).items_view() == kept(old(self).items_view(), terms_view(terms@)),
            entries(final(self).items_view()) == kept_entries(
                entries(old(self).items_view()),
                terms_view(terms@),
            ),
            final(self).metadata() == old(self).metadata(),
    {
        retain_unblocked(&mut self.items, terms);
        proof {
            lemma_entries_of_kept(old(self).items_view(), terms_view(terms@));
        }
    }

    /// The channel, with its metadata and its current items, written as RSS
    /// XML.
    pub fn into_xml(self) -> (r: String)
        ensures
            exists|c: rss::Channel|
                {
                    &&& r@ == #[trigger] rss_xml(c)
                    &&& rss_items(c) == entries(self.items_view())
                    &&& rss_metadata(c) == self.metadata()
                },
    {
        let ghost meta = self.metadata();
        let ghost all = entries(self.items_view());
        let FeedChannel { mut head, items } = self;
        let mut items = items;
        let mut raw: Vec<rss::Item> = Vec::new();
        let ghost orig = items@;
        let n = items.len();
        let mut k: usize = 0;
        while k < n
            invariant
                n == orig.len(),
                k <= n,
                items@ == orig.subrange(k as int, n as int),
                raw@.len() == k,
                forall|i: int| 0 <= i < k ==> #[trigger] raw@[i] == orig[i].entry_view(),
            decreases n - k,
        {
            let item = items.remove(0);
            raw.push(item.into_entry());
            k = k + 1;
            assert(items@ =~= orig.subrange(k as int, n as int));
        }
        assert(raw@ =~= all);
        put_items(&mut head, raw);
        let r = channel_xml(&head);
        assert(r@ == rss_xml(head));
        r
    }
}

} // verus!
