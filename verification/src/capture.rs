//! What the rules of a profile capture on a page, before any of it is judged.

use crate::text::optional_text;
use vstd::prelude::*;

verus! {

/// The element of an item that the title rule matches.
#[derive(Debug, PartialEq, Eq)]
pub struct TitleCapture {
    /// The value of the element's `title` attribute, where it has one.
    pub title_attr: Option<String>,
    /// The markup inside the element.
    pub content: String,
    /// The value of the element's `href` attribute, where it has one.
    pub href: Option<String>,
}

pub struct TitleCaptureView {
    pub title_attr: Option<Seq<char>>,
    pub content: Seq<char>,
    pub href: Option<Seq<char>>,
}

impl View for TitleCapture {
    type V = TitleCaptureView;

    open spec fn view(&self) -> TitleCaptureView {
        TitleCaptureView {
            title_attr: optional_text(self.title_attr),
            content: self.content@,
            href: optional_text(self.href),
        }
    }
}

/// One item of a listing page. Each field holds the first element inside the
/// item that the rule of that name matches, or `None` where nothing matches.
#[derive(Debug, PartialEq, Eq)]
pub struct ItemCapture {
    /// The markup inside the author element.
    pub author: Option<String>,
    /// The markup inside the date element.
    pub date: Option<String>,
    pub title: Option<TitleCapture>,
    /// The markup inside the category element. `None` too where the profile
    /// declares no category rule.
    pub category: Option<String>,
}

pub struct ItemCaptureView {
    pub author: Option<Seq<char>>,
    pub date: Option<Seq<char>>,
    pub title: Option<TitleCaptureView>,
    pub category: Option<Seq<char>>,
}

impl View for ItemCapture {
    type V = ItemCaptureView;

    open spec fn view(&self) -> ItemCaptureView {
        ItemCaptureView {
            author: optional_text(self.author),
            date: optional_text(self.date),
            title: match self.title {
                Some(title) => Some(title@),
                None => None,
            },
            category: optional_text(self.category),
        }
    }
}

/// A listing page as the rules of a profile see it.
#[derive(Debug, PartialEq, Eq)]
pub struct PageCapture {
    /// The markup inside the first element that the feed-title rule matches.
    pub feed_title: Option<String>,
    /// The elements that the item rule matches, in the order in which the
    /// page yields them.
    pub items: Vec<ItemCapture>,
}

pub struct PageCaptureView {
    pub feed_title: Option<Seq<char>>,
    pub items: Seq<ItemCaptureView>,
}

/// The views of a run of items.
pub open spec fn item_views(items: Seq<ItemCapture>) -> Seq<ItemCaptureView> {
    Seq::new(items.len(), |i: int| items[i]@)
}

impl View for PageCapture {
    type V = PageCaptureView;

    open spec fn view(&self) -> PageCaptureView {
        PageCaptureView { feed_title: optional_text(self.feed_title), items: item_views(self.items@) }
    }
}

} // verus!
