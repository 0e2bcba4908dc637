//! What a feed holds for a given page: the rules of extraction, stated over
//! the captured page, and the function that applies them to one item.

use crate::capture::{ItemCapture, ItemCaptureView, PageCaptureView, TitleCapture, TitleCaptureView};
use crate::date::{entry_timestamp, in_feed_zone, midnight_of, parsed_date, CalendarDate, ClockReading};
use crate::error::{ExtractionError, ExtractionErrorView};
use crate::feed::{alternate_link, Entry, EntryView, Feed, FeedView, Link};
use crate::link::resolved;
use crate::text::{remove_whitespace, replace_line_breaks, with_line_breaks, without_whitespace};
use vstd::prelude::*;

verus! {

/// What the extraction reads of a profile besides its selectors.
pub struct Rules {
    /// The address of the page, against which links are resolved.
    pub target: Seq<char>,
    /// The strftime pattern of the dates on the page.
    pub date_format: Seq<char>,
    /// Whether the profile has a category rule.
    pub declares_category: bool,
}

/// The text from which the title of an item is taken: the `title` attribute
/// where the element has one, else the markup inside it.
pub open spec fn title_source(title: TitleCaptureView) -> Seq<char> {
    match title.title_attr {
        Some(attr) => attr,
        None => title.content,
    }
}

/// The title of an item before any category is put in front of it.
pub open spec fn title_text(title: TitleCaptureView) -> Seq<char> {
    with_line_breaks(title_source(title))
}

/// `title` with `category`, a colon and a space in front of it.
pub open spec fn prefixed_title(category: Seq<char>, title: Seq<char>) -> Seq<char> {
    category + seq![':', ' '] + title
}

/// The entry of `item`, or the reason why there is none, given what the date
/// parser made of the item's date text (`date`) and what the resolution made
/// of its link (`link`). The checks come in a fixed order, and the first that
/// fails decides the error: date element, date text, title element, category
/// element (where the profile declares the rule), `href` attribute, link.
pub open spec fn assembled_entry(
    declares_category: bool,
    date_format: Seq<char>,
    item: ItemCaptureView,
    date: Option<CalendarDate>,
    link: Option<Seq<char>>,
) -> Result<EntryView, ExtractionErrorView> {
    match (item.date, date, item.title) {
        (None, _, _) => Err(ExtractionErrorView::MissingDate),
        (Some(text), None, _) => Err(
            ExtractionErrorView::DateParseError {
                text: without_whitespace(text),
                format: date_format,
            },
        ),
        (Some(_), Some(_), None) => Err(ExtractionErrorView::MissingTitle),
        (Some(_), Some(day), Some(title)) => {
            if declares_category && item.category is None {
                Err(ExtractionErrorView::MissingCategory)
            } else {
                match (title.href, link) {
                    (None, _) => Err(ExtractionErrorView::MissingHref),
                    (Some(_), None) => Err(ExtractionErrorView::InvalidUrl),
                    (Some(href), Some(absolute)) => Ok(
                        EntryView {
                            id: href,
                            title: if declares_category {
                                prefixed_title(
                                    without_whitespace(item.category->0),
                                    title_text(title),
                                )
                            } else {
                                title_text(title)
                            },
                            author: match item.author {
                                Some(name) => Some(without_whitespace(name)),
                                None => None,
                            },
                            category: if declares_category {
                                Some(without_whitespace(item.category->0))
                            } else {
                                None
                            },
                            updated: midnight_of(day),
                            link: alternate_link(absolute),
                        },
                    ),
                }
            }
        },
    }
}

/// What the date parser makes of the date text of `item`: the text is
/// stripped of whitespace, then read in the format `date_format`.
pub open spec fn date_of(date_format: Seq<char>, item: ItemCaptureView) -> Option<CalendarDate> {
    match item.date {
        Some(text) => parsed_date(without_whitespace(text), date_format),
        None => None,
    }
}

/// The link of `item` in absolute form, resolved against `target`.
pub open spec fn link_of(target: Seq<char>, item: ItemCaptureView) -> Option<Seq<char>> {
    match item.title {
        Some(title) => match title.href {
            Some(href) => resolved(target, href),
            None => None,
        },
        None => None,
    }
}

/// The entry of `item` under `rules`, or the reason why there is none.
pub open spec fn entry_for(rules: Rules, item: ItemCaptureView) -> Result<
    EntryView,
    ExtractionErrorView,
> {
    assembled_entry(
        rules.declares_category,
        rules.date_format,
        item,
        date_of(rules.date_format, item),
        link_of(rules.target, item),
    )
}

/// The entries of `items`, one for each and in the same order, or the error
/// of the first item that has no entry.
pub open spec fn entries_for(rules: Rules, items: Seq<ItemCaptureView>) -> Result<
    Seq<EntryView>,
    ExtractionErrorView,
>
    decreases items.len(),
{
    if items.len() == 0 {
        Ok(Seq::empty())
    } else {
        match entries_for(rules, items.drop_last()) {
            Err(e) => Err(e),
            Ok(entries) => match entry_for(rules, items.last()) {
                Err(e) => Err(e),
                Ok(entry) => Ok(entries.push(entry)),
            },
        }
    }
}

/// The feed of `page` built when a clock that shows UTC reads `now`, or the
/// reason why there is none: the page has no feed title, or one of its items
/// has no entry.
pub open spec fn feed_for(rules: Rules, page: PageCaptureView, now: ClockReading) -> Result<
    FeedView,
    ExtractionErrorView,
> {
    match page.feed_title {
        None => Err(ExtractionErrorView::MissingFeedTitle),
        Some(title) => match entries_for(rules, page.items) {
            Err(e) => Err(e),
            Ok(entries) => Ok(
                FeedView {
                    title,
                    link: alternate_link(rules.target),
                    updated: in_feed_zone(now),
                    entries,
                },
            ),
        },
    }
}

/// The outcome of building an entry, with its strings as sequences.
pub open spec fn entry_outcome(r: Result<Entry, ExtractionError>) -> Result<
    EntryView,
    ExtractionErrorView,
> {
    match r {
        Ok(entry) => Ok(entry@),
        Err(e) => Err(e@),
    }
}

/// The outcome of building a feed, with its strings as sequences.
pub open spec fn feed_outcome(r: Result<Feed, ExtractionError>) -> Result<
    FeedView,
    ExtractionErrorView,
> {
    match r {
        Ok(feed) => Ok(feed@),
        Err(e) => Err(e@),
    }
}

/// The title of an item before any category is put in front of it: the
/// `title` attribute where there is one, else the markup inside the element,
/// with each `<br>` turned into a newline.
pub fn item_title(title: &TitleCapture) -> (text: String)
    ensures
        text@ == title_text(title@),
{
    match &title.title_attr {
        Some(attr) => replace_line_breaks(attr.as_str()),
        None => replace_line_breaks(title.content.as_str()),
    }
}

/// Puts `category`, a colon and a space in front of `title`.
pub fn prefix_title(category: &str, title: &str) -> (text: String)
    ensures
        text@ == prefixed_title(category@, title@),
{
    let mut text = category.to_string();
    text.push(':');
    text.push(' ');
    text.append(title);
    assert(text@ =~= prefixed_title(category@, title@));
    text
}

/// Builds the entry of `item` from what was captured and from the outcomes of
/// the two steps that are not decided here: `date` is what the date parser
/// made of the item's date text, `link` what the resolution made of its
/// `href`; each is `None` where that step failed, and is not looked at where
/// the item has nothing to hand to it.
pub fn assemble_entry(
    declares_category: bool,
    date_format: &str,
    item: &ItemCapture,
    date: Option<CalendarDate>,
    link: Option<String>,
) -> (r: Result<Entry, ExtractionError>)
    ensures
        entry_outcome(r) == assembled_entry(
            declares_category,
            date_format@,
            item@,
            date,
            crate::text::optional_text(link),
        ),
{
    let author = match &item.author {
        Some(name) => Some(remove_whitespace(name.clone())),
        None => None,
    };
    let date_text = match &item.date {
        Some(text) => remove_whitespace(text.clone()),
        None => {
            return Err(ExtractionError::MissingDate);
        },
    };
    let day = match date {
        Some(day) => day,
        None => {
            return Err(
                ExtractionError::DateParseError { text: date_text, format: date_format.to_string() },
            );
        },
    };
    let title_element = match &item.title {
        Some(title) => title,
        None => {
            return Err(ExtractionError::MissingTitle);
        },
    };
    let plain_title = item_title(title_element);
    let mut category: Option<String> = None;
    let mut title = plain_title;
    if declares_category {
        match &item.category {
            Some(text) => {
                let term = remove_whitespace(text.clone());
                title = prefix_title(term.as_str(), title.as_str());
                category = Some(term);
            },
            None => {
                return Err(ExtractionError::MissingCategory);
            },
        }
    }
    let href = match &title_element.href {
        Some(href) => href.clone(),
        None => {
            return Err(ExtractionError::MissingHref);
        },
    };
    let absolute = match link {
        Some(absolute) => absolute,
        None => {
            return Err(ExtractionError::InvalidUrl);
        },
    };
    Ok(
        Entry {
            id: href,
            title,
            author,
            category,
            updated: entry_timestamp(day),
            link: Link::alternate(absolute),
        },
    )
}

} // verus!
