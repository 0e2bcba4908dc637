//! The profile of one site and the extraction of its feed.

use crate::capture::{
    item_views, ItemCapture, ItemCaptureView, PageCapture, PageCaptureView, TitleCapture,
    TitleCaptureView,
};
use crate::date::{feed_timestamp, parse_date, CalendarDate, ClockReading};
use crate::dom::{
    attribute, attribute_of, compile_selector, compiled_selector, document_matches, first_match,
    inner_html, inner_html_of, parse_document, parsed_document, select_first, select_in_document,
};
use crate::error::{ConfigError, ExtractionError, ExtractionErrorView, SelectorField};
use crate::feed::{entry_views, Entry, EntryView, Feed, Link};
use crate::laws::lemma_failure_stands;
use crate::link::_rel2abs;
use crate::rules::{
    assemble_entry, entries_for, entry_for, entry_outcome, feed_for, feed_outcome, Rules,
};
use crate::text::remove_whitespace;
use vstd::prelude::*;

verus! {

/// How to read the feed of one site off its listing page: where the page is,
/// which elements hold the items, and where inside an item its fields stand.
#[derive(Debug)]
pub struct Scraper<'a> {
    /// The address of the listing page. Links on the page are resolved
    /// against it.
    pub target: &'a str,
    /// Matches, inside an item, the element that holds the title and the link.
    pub title_selector: scraper::Selector,
    /// Matches, inside an item, the element that holds the author.
    pub author_selector: scraper::Selector,
    /// Matches, inside an item, the element that holds the category. A site
    /// either has categories or has none: with a rule here every item must
    /// have one, without it none is looked for.
    pub category_selector: Option<scraper::Selector>,
    /// Matches, inside an item, the element that holds the date.
    pub date_selector: scraper::Selector,
    /// The strftime pattern of the dates on the page.
    pub date_format: &'a str,
    /// Matches the element of the page that names the feed.
    pub feed_title_selector: scraper::Selector,
    /// Matches each item of the page.
    pub column_selector: scraper::Selector,
}

/// The first of the selector rules that does not compile, in the order
/// title, author, category, date, feed title, item.
pub open spec fn first_invalid_rule(
    title: Seq<char>,
    author: Seq<char>,
    category: Option<Seq<char>>,
    date: Seq<char>,
    feed_title: Seq<char>,
    column: Seq<char>,
) -> Option<SelectorField> {
    if compiled_selector(title) is None {
        Some(SelectorField::Title)
    } else if compiled_selector(author) is None {
        Some(SelectorField::Author)
    } else if category is Some && compiled_selector(category->0) is None {
        Some(SelectorField::Category)
    } else if compiled_selector(date) is None {
        Some(SelectorField::Date)
    } else if compiled_selector(feed_title) is None {
        Some(SelectorField::FeedTitle)
    } else if compiled_selector(column) is None {
        Some(SelectorField::Column)
    } else {
        None
    }
}

/// The first of the selector rules whose compilation failed, in the order
/// title, author, category, date, feed title, item.
pub open spec fn first_failed_rule(
    title: Result<scraper::Selector, scraper::error::SelectorErrorKind>,
    author: Result<scraper::Selector, scraper::error::SelectorErrorKind>,
    category: Option<Result<scraper::Selector, scraper::error::SelectorErrorKind>>,
    date: Result<scraper::Selector, scraper::error::SelectorErrorKind>,
    feed_title: Result<scraper::Selector, scraper::error::SelectorErrorKind>,
    column: Result<scraper::Selector, scraper::error::SelectorErrorKind>,
) -> Option<SelectorField> {
    if title is Err {
        Some(SelectorField::Title)
    } else if author is Err {
        Some(SelectorField::Author)
    } else if category is Some && category->0 is Err {
        Some(SelectorField::Category)
    } else if date is Err {
        Some(SelectorField::Date)
    } else if feed_title is Err {
        Some(SelectorField::FeedTitle)
    } else if column is Err {
        Some(SelectorField::Column)
    } else {
        None
    }
}

/// What the title rule captures of the element `element`.
pub open spec fn captured_title(element: scraper::ElementRef<'_>) -> TitleCaptureView {
    TitleCaptureView {
        title_attr: attribute_of(element, "title"@),
        content: inner_html_of(element),
        href: attribute_of(element, "href"@),
    }
}

/// The markup inside the first element below `element` that `selector`
/// matches.
pub open spec fn captured_text(
    element: scraper::ElementRef<'_>,
    selector: scraper::Selector,
) -> Option<Seq<char>> {
    match first_match(element, selector) {
        Some(found) => Some(inner_html_of(found)),
        None => None,
    }
}

impl<'a> Scraper<'a> {
    /// What the extraction reads of this profile besides its selectors.
    pub open spec fn rules(&self) -> Rules {
        Rules {
            target: self.target@,
            date_format: self.date_format@,
            declares_category: self.category_selector is Some,
        }
    }

    /// What the rules of this profile capture of the item `element`.
    pub open spec fn captured_item(&self, element: scraper::ElementRef<'_>) -> ItemCaptureView {
        ItemCaptureView {
            author: captured_text(element, self.author_selector),
            date: captured_text(element, self.date_selector),
            title: match first_match(element, self.title_selector) {
                Some(found) => Some(captured_title(found)),
                None => None,
            },
            category: match self.category_selector {
                Some(selector) => captured_text(element, selector),
                None => None,
            },
        }
    }

    /// What the rules of this profile capture of `document`.
    pub open spec fn captured_page(&self, document: &scraper::Html) -> PageCaptureView {
        let titles = document_matches(document, self.feed_title_selector);
        let columns = document_matches(document, self.column_selector);
        PageCaptureView {
            feed_title: if titles.len() > 0 {
                Some(inner_html_of(titles[0]))
            } else {
                None
            },
            items: Seq::new(columns.len(), |i: int| self.captured_item(columns[i])),
        }
    }

    /// Builds the profile of a site. Every selector rule is compiled here, so
    /// that a rule that is no selector is reported before any page is
    /// fetched; where several are none, the first in the order title, author,
    /// category, date, feed title, item is reported.
    pub fn new(
        target: &'a str,
        title_selector: &str,
        author_selector: &str,
        category_selector: Option<&str>,
        date_selector: &str,
        date_format: &'a str,
        feed_title_selector: &str,
        column_selector: &str,
    ) -> (r: Result<Scraper<'a>, ConfigError>)
        ensures
            match r {
                Ok(profile) => {
                    &&& profile.target == target
                    &&& profile.date_format == date_format
                    &&& compiled_selector(title_selector@) == Some(profile.title_selector)
                    &&& compiled_selector(author_selector@) == Some(profile.author_selector)
                    &&& match category_selector {
                        Some(rule) => compiled_selector(rule@) == profile.category_selector
                            && profile.category_selector is Some,
                        None => profile.category_selector is None,
                    }
                    &&& compiled_selector(date_selector@) == Some(profile.date_selector)
                    &&& compiled_selector(feed_title_selector@) == Some(
                        profile.feed_title_selector,
                    )
                    &&& compiled_selector(column_selector@) == Some(profile.column_selector)
                },
                Err(e) => first_invalid_rule(
                    title_selector@,
                    author_selector@,
                    match category_selector {
                        Some(rule) => Some(rule@),
                        None => None,
                    },
                    date_selector@,
                    feed_title_selector@,
                    column_selector@,
                ) == Some(e.field),
            },
    {
        Scraper::from_compiled(
            target,
            compile_selector(title_selector),
            compile_selector(author_selector),
            match category_selector {
                Some(rule) => Some(compile_selector(rule)),
                None => None,
            },
            compile_selector(date_selector),
            date_format,
            compile_selector(feed_title_selector),
            compile_selector(column_selector),
        )
    }

    /// Builds the profile of a site from the outcomes of compiling its
    /// selector rules; `category_selector` is `None` for a site without
    /// categories. The first rule that failed, in the order title, author,
    /// category, date, feed title, item, is reported; where none failed, the
    /// profile holds the selectors as they are given.
    pub fn from_compiled(
        target: &'a str,
        title_selector: Result<scraper::Selector, scraper::error::SelectorErrorKind>,
        author_selector: Result<scraper::Selector, scraper::error::SelectorErrorKind>,
        category_selector: Option<Result<scraper::Selector, scraper::error::SelectorErrorKind>>,
        date_selector: Result<scraper::Selector, scraper::error::SelectorErrorKind>,
        date_format: &'a str,
        feed_title_selector: Result<scraper::Selector, scraper::error::SelectorErrorKind>,
        column_selector: Result<scraper::Selector, scraper::error::SelectorErrorKind>,
    ) -> (r: Result<Scraper<'a>, ConfigError>)
        ensures
            match r {
                Ok(profile) => {
                    &&& profile.target == target
                    &&& profile.date_format == date_format
                    &&& title_selector == Ok::<_, scraper::error::SelectorErrorKind>(
                        profile.title_selector,
                    )
                    &&& author_selector == Ok::<_, scraper::error::SelectorErrorKind>(
                        profile.author_selector,
                    )
                    &&& match category_selector {
                        Some(outcome) => profile.category_selector is Some && outcome == Ok::<
                            _,
                            scraper::error::SelectorErrorKind,
                        >(profile.category_selector->0),
                        None => profile.category_selector is None,
                    }
                    &&& date_selector == Ok::<_, scraper::error::SelectorErrorKind>(
                        profile.date_selector,
                    )
                    &&& feed_title_selector == Ok::<_, scraper::error::SelectorErrorKind>(
                        profile.feed_title_selector,
                    )
                    &&& column_selector == Ok::<_, scraper::error::SelectorErrorKind>(
                        profile.column_selector,
                    )
                },
                Err(e) => first_failed_rule(
                    title_selector,
                    author_selector,
                    category_selector,
                    date_selector,
                    feed_title_selector,
                    column_selector,
                ) == Some(e.field),
            },
    {
        let title = match title_selector {
            Ok(selector) => selector,
            Err(_) => {
                return Err(ConfigError { field: SelectorField::Title });
            },
        };
        let author = match author_selector {
            Ok(selector) => selector,
            Err(_) => {
                return Err(ConfigError { field: SelectorField::Author });
            },
        };
        let category = match category_selector {
            Some(Ok(selector)) => Some(selector),
            Some(Err(_)) => {
                return Err(ConfigError { field: SelectorField::Category });
            },
            None => None,
        };
        let date = match date_selector {
            Ok(selector) => selector,
            Err(_) => {
                return Err(ConfigError { field: SelectorField::Date });
            },
        };
        let feed_title = match feed_title_selector {
            Ok(selector) => selector,
            Err(_) => {
                return Err(ConfigError { field: SelectorField::FeedTitle });
            },
        };
        let column = match column_selector {
            Ok(selector) => selector,
            Err(_) => {
                return Err(ConfigError { field: SelectorField::Column });
            },
        };
        Ok(
            Scraper {
                target,
                title_selector: title,
                author_selector: author,
                category_selector: category,
                date_selector: date,
                date_format,
                feed_title_selector: feed_title,
                column_selector: column,
            },
        )
    }

    /// Captures the item `element`: for each rule the first element below
    /// `element` that it matches.
    pub fn capture_item(&self, element: &scraper::ElementRef<'_>) -> (item: ItemCapture)
        ensures
            item@ == self.captured_item(*element),
    {
        let author = capture_text(element, &self.author_selector);
        let date = capture_text(element, &self.date_selector);
        let title = match select_first(element, &self.title_selector) {
            Some(found) => Some(capture_title(&found)),
            None => None,
        };
        let category = match &self.category_selector {
            Some(selector) => capture_text(element, selector),
            None => None,
        };
        ItemCapture { author, date, title, category }
    }

    /// Captures `document`: the first element that the feed-title rule
    /// matches, and every element that the item rule matches.
    pub fn capture_page(&self, document: &scraper::Html) -> (page: PageCapture)
        ensures
            page@ == self.captured_page(document),
    {
        let titles = select_in_document(document, &self.feed_title_selector);
        let feed_title = if titles.len() > 0 {
            Some(inner_html(&titles[0]))
        } else {
            None
        };
        let columns = select_in_document(document, &self.column_selector);
        let mut items: Vec<ItemCapture> = Vec::new();
        let mut i: usize = 0;
        while i < columns.len()
            invariant
                i <= columns.len(),
                items@.len() == i,
                forall|j: int| 0 <= j < i ==> items@[j]@ == self.captured_item(columns@[j]),
            decreases columns.len() - i,
        {
            let item = self.capture_item(&columns[i]);
            items.push(item);
            i += 1;
        }
        let page = PageCapture { feed_title, items };
        assert(page@.items =~= self.captured_page(document).items);
        page
    }

    /// Builds the entry of `item`: strips its date text and has it parsed,
    /// has its link resolved against the target, and assembles the entry from
    /// the outcomes.
    pub fn build_entry(&self, item: &ItemCapture) -> (r: Result<Entry, ExtractionError>)
        ensures
            entry_outcome(r) == entry_for(self.rules(), item@),
    {
        let date: Option<CalendarDate> = match &item.date {
            Some(text) => {
                let stripped = remove_whitespace(text.clone());
                match parse_date(stripped.as_str(), self.date_format) {
                    Ok(day) => Some(day),
                    Err(_) => None,
                }
            },
            None => None,
        };
        let link: Option<String> = match &item.title {
            Some(title) => match &title.href {
                Some(href) => match _rel2abs(self.target, href.as_str()) {
                    Ok(absolute) => Some(absolute),
                    Err(_) => None,
                },
                None => None,
            },
            None => None,
        };
        assemble_entry(self.category_selector.is_some(), self.date_format, item, date, link)
    }

    /// Builds the feed of a captured page at the time `now`, which is what a
    /// clock that shows UTC reads when the feed is built. The page must
    /// have a feed title and every item an entry: the first item without one
    /// ends the extraction with its error, and no feed is built.
    pub fn build_feed(&self, page: &PageCapture, now: ClockReading) -> (r: Result<
        Feed,
        ExtractionError,
    >)
        ensures
            feed_outcome(r) == feed_for(self.rules(), page@, now),
    {
        let title = match &page.feed_title {
            Some(title) => title.clone(),
            None => {
                return Err(ExtractionError::MissingFeedTitle);
            },
        };
        let ghost items = page@.items;
        let mut entries: Vec<Entry> = Vec::new();
        let mut i: usize = 0;
        proof {
            assert(items.take(0) =~= Seq::empty());
            assert(entry_views(entries@) =~= Seq::empty());
        }
        while i < page.items.len()
            invariant
                items == page@.items,
                page.feed_title is Some,
                i <= page.items.len(),
                entries_for(self.rules(), items.take(i as int)) == Ok::<
                    Seq<EntryView>,
                    ExtractionErrorView,
                >(entry_views(entries@)),
            decreases page.items.len() - i,
        {
            proof {
                assert(items.take(i + 1).drop_last() =~= items.take(i as int));
                assert(items.take(i + 1).last() == page.items@[i as int]@);
            }
            match self.build_entry(&page.items[i]) {
                Ok(entry) => {
                    proof {
                        assert(entry_views(entries@.push(entry)) =~= entry_views(entries@).push(
                            entry@,
                        ));
                    }
                    entries.push(entry);
                },
                Err(e) => {
                    proof {
                        lemma_failure_stands(self.rules(), items, i + 1);
                    }
                    return Err(e);
                },
            }
            i += 1;
        }
        assert(items.take(i as int) =~= items);
        Ok(
            Feed {
                title,
                link: Link::alternate(self.target.to_string()),
                updated: feed_timestamp(now),
                entries,
            },
        )
    }

    /// Extracts the feed of a parsed page at the time `now`, a reading of a
    /// clock that shows UTC.
    pub fn extract(&self, document: &scraper::Html, now: ClockReading) -> (r: Result<
        Feed,
        ExtractionError,
    >)
        ensures
            feed_outcome(r) == feed_for(self.rules(), self.captured_page(document), now),
    {
        let page = self.capture_page(document);
        self.build_feed(&page, now)
    }

    /// Extracts the feed of the page whose text is `body`, fetched from the
    /// target at the time `now`, a reading of a clock that shows UTC.
    pub fn scrape(&self, body: &str, now: ClockReading) -> (r: Result<Feed, ExtractionError>)
        ensures
            feed_outcome(r) == feed_for(
                self.rules(),
                self.captured_page(&parsed_document(body@)),
                now,
            ),
    {
        let document = parse_document(body);
        self.extract(&document, now)
    }
}

/// Captures the element `element` that the title rule matched.
pub fn capture_title(element: &scraper::ElementRef<'_>) -> (title: TitleCapture)
    ensures
        title@ == captured_title(*element),
{
    TitleCapture {
        title_attr: attribute(element, "title"),
        content: inner_html(element),
        href: attribute(element, "href"),
    }
}

/// The markup inside the first element below `element` that `selector`
/// matches, if it matches any.
pub fn capture_text(element: &scraper::ElementRef<'_>, selector: &scraper::Selector) -> (text:
    Option<String>)
    ensures
        crate::text::optional_text(text) == captured_text(*element, *selector),
{
    match select_first(element, selector) {
        Some(found) => Some(inner_html(&found)),
        None => None,
    }
}

} // verus!
