//! The feed model that an extraction builds.

use crate::date::Timestamp;
use crate::text::optional_text;
use vstd::prelude::*;

verus! {

/// A link of a feed or of an entry.
#[derive(Debug, PartialEq, Eq)]
pub struct Link {
    pub href: String,
    /// How the target relates to the feed or entry that holds the link.
    pub rel: String,
}

pub struct LinkView {
    pub href: Seq<char>,
    pub rel: Seq<char>,
}

impl View for Link {
    type V = LinkView;

    open spec fn view(&self) -> LinkView {
        LinkView { href: self.href@, rel: self.rel@ }
    }
}

/// The relation of a link that leads to the page which the feed or entry
/// stands for.
pub open spec fn alternate() -> Seq<char> {
    seq!['a', 'l', 't', 'e', 'r', 'n', 'a', 't', 'e']
}

pub open spec fn alternate_link(href: Seq<char>) -> LinkView {
    LinkView { href, rel: alternate() }
}

impl Link {
    /// The link to `href` with the relation `alternate`.
    pub fn alternate(href: String) -> (link: Link)
        ensures
            link@ == alternate_link(href@),
    {
        proof {
            reveal_strlit("alternate");
            assert("alternate"@ =~= alternate());
        }
        Link { href, rel: "alternate".to_string() }
    }
}

/// One article of a listing page.
#[derive(Debug, PartialEq, Eq)]
pub struct Entry {
    /// The link of the item as the page writes it, relative or not.
    pub id: String,
    pub title: String,
    /// The name of the author, where the page gives one.
    pub author: Option<String>,
    /// The term of the entry's category, where the profile declares one.
    pub category: Option<String>,
    pub updated: Timestamp,
    /// The link of the item in absolute form.
    pub link: Link,
}

pub struct EntryView {
    pub id: Seq<char>,
    pub title: Seq<char>,
    pub author: Option<Seq<char>>,
    pub category: Option<Seq<char>>,
    pub updated: Timestamp,
    pub link: LinkView,
}

impl View for Entry {
    type V = EntryView;

    open spec fn view(&self) -> EntryView {
        EntryView {
            id: self.id@,
            title: self.title@,
            author: optional_text(self.author),
            category: optional_text(self.category),
            updated: self.updated,
            link: self.link@,
        }
    }
}

/// The feed of one listing page.
#[derive(Debug, PartialEq, Eq)]
pub struct Feed {
    pub title: String,
    /// The address of the listing page.
    pub link: Link,
    /// When the feed was built.
    pub updated: Timestamp,
    /// One entry for each item of the page, in the order of the items.
    pub entries: Vec<Entry>,
}

pub struct FeedView {
    pub title: Seq<char>,
    pub link: LinkView,
    pub updated: Timestamp,
    pub entries: Seq<EntryView>,
}

/// The views of a run of entries.
pub open spec fn entry_views(entries: Seq<Entry>) -> Seq<EntryView> {
    Seq::new(entries.len(), |i: int| entries[i]@)
}

impl View for Feed {
    type V = FeedView;

    open spec fn view(&self) -> FeedView {
        FeedView {
            title: self.title@,
            link: self.link@,
            updated: self.updated,
            entries: entry_views(self.entries@),
        }
    }
}

} // verus!
