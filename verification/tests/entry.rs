use listing_feed::capture::{ItemCapture, TitleCapture};
use listing_feed::date::{
    entry_timestamp, feed_timestamp, CalendarDate, Clock, ClockReading, Timestamp, FEED_OFFSET_SECONDS,
};
use listing_feed::error::ExtractionError;
use listing_feed::feed::{Entry, Link};
use listing_feed::rules::{assemble_entry, item_title, prefix_title};

fn some(text: &str) -> Option<String> {
    Some(text.to_string())
}

fn headline() -> TitleCapture {
    TitleCapture { title_attr: None, content: "Headline".to_string(), href: some("/a/1.html") }
}

fn full_item() -> ItemCapture {
    ItemCapture {
        author: some("  John\n  Doe  "),
        date: some(" 2024/01/15 "),
        title: Some(headline()),
        category: some(" News "),
    }
}

fn day() -> Option<CalendarDate> {
    Some(CalendarDate { year: 2024, month: 1, day: 15 })
}

fn midnight() -> Timestamp {
    Timestamp {
        reading: ClockReading {
            date: CalendarDate { year: 2024, month: 1, day: 15 },
            second_of_day: 0,
            nanosecond: 0,
        },
        clock: Clock::Zone,
        offset_seconds: 32400,
    }
}

#[test]
fn the_feed_zone_is_nine_hours_east() {
    assert_eq!(FEED_OFFSET_SECONDS, 32400);
}

#[test]
fn an_entry_is_stamped_at_midnight_in_the_feed_zone() {
    assert_eq!(entry_timestamp(CalendarDate { year: 2024, month: 1, day: 15 }), midnight());
}

#[test]
fn an_entry_is_not_stamped_on_the_utc_clock() {
    let stamp = entry_timestamp(CalendarDate { year: 2024, month: 1, day: 15 });
    assert_eq!(stamp.clock, Clock::Zone);
    assert_ne!(stamp.clock, Clock::Utc);
    assert_eq!(stamp.reading.second_of_day, 0);
    assert_eq!(stamp.reading.nanosecond, 0);
    assert_eq!(stamp.offset_seconds, 32400);
}

#[test]
fn a_feed_is_stamped_with_the_time_given() {
    let now = ClockReading {
        date: CalendarDate { year: 2025, month: 12, day: 31 },
        second_of_day: 86399,
        nanosecond: 999_999_999,
    };
    assert_eq!(feed_timestamp(now), Timestamp { reading: now, clock: Clock::Utc, offset_seconds: 32400 });
}

#[test]
fn the_link_relation_is_alternate() {
    let link = Link::alternate("https://example.com/".to_string());
    assert_eq!(link, Link { href: "https://example.com/".to_string(), rel: "alternate".to_string() });
}

#[test]
fn the_title_attribute_comes_before_the_content() {
    let title = TitleCapture {
        title_attr: some("Foo<br>Bar"),
        content: "Ignored".to_string(),
        href: some("/x"),
    };
    assert_eq!(item_title(&title), "Foo\nBar");
}

#[test]
fn the_content_is_the_title_where_there_is_no_attribute() {
    let title = TitleCapture { title_attr: None, content: "One<br>Two".to_string(), href: None };
    assert_eq!(item_title(&title), "One\nTwo");
}

#[test]
fn an_empty_title_attribute_still_comes_first() {
    let title = TitleCapture { title_attr: some(""), content: "Shown nowhere".to_string(), href: None };
    assert_eq!(item_title(&title), "");
}

#[test]
fn a_category_goes_in_front_of_the_title() {
    assert_eq!(prefix_title("News", "Headline"), "News: Headline");
    assert_eq!(prefix_title("", ""), ": ");
}

#[test]
fn assembles_an_entry_with_a_category() {
    let entry = assemble_entry(true, "%Y/%m/%d", &full_item(), day(), some("https://example.com/a/1.html"));
    assert_eq!(
        entry,
        Ok(Entry {
            id: "/a/1.html".to_string(),
            title: "News: Headline".to_string(),
            author: some("JohnDoe"),
            category: some("News"),
            updated: midnight(),
            link: Link { href: "https://example.com/a/1.html".to_string(), rel: "alternate".to_string() },
        })
    );
}

#[test]
fn assembles_an_entry_without_a_category() {
    let entry = assemble_entry(false, "%Y/%m/%d", &full_item(), day(), some("https://example.com/a/1.html"));
    let entry = entry.unwrap();
    assert_eq!(entry.title, "Headline");
    assert_eq!(entry.category, None);
    assert_eq!(entry.author, some("JohnDoe"));
}

#[test]
fn an_item_needs_no_author() {
    let item = ItemCapture { author: None, ..full_item() };
    let entry = assemble_entry(true, "%Y/%m/%d", &item, day(), some("https://example.com/a/1.html"));
    assert_eq!(entry.unwrap().author, None);
}

#[test]
fn the_id_is_the_link_as_the_page_writes_it() {
    let entry = assemble_entry(false, "%Y/%m/%d", &full_item(), day(), some("https://example.com/a/1.html"))
        .unwrap();
    assert_eq!(entry.id, "/a/1.html");
    assert_eq!(entry.link.href, "https://example.com/a/1.html");
    assert_ne!(entry.id, entry.link.href);
}

#[test]
fn an_item_without_a_date_has_no_entry() {
    let item = ItemCapture { date: None, title: None, category: None, ..full_item() };
    assert_eq!(assemble_entry(true, "%Y/%m/%d", &item, None, None), Err(ExtractionError::MissingDate));
}

#[test]
fn a_date_that_does_not_parse_is_reported_with_its_text() {
    let item = ItemCapture { date: some(" 15 Jan\n2024 "), title: None, ..full_item() };
    assert_eq!(
        assemble_entry(true, "%Y/%m/%d", &item, None, None),
        Err(ExtractionError::DateParseError {
            text: "15Jan2024".to_string(),
            format: "%Y/%m/%d".to_string(),
        })
    );
}

#[test]
fn an_item_without_a_title_has_no_entry() {
    let item = ItemCapture { title: None, category: None, ..full_item() };
    assert_eq!(assemble_entry(true, "%Y/%m/%d", &item, day(), None), Err(ExtractionError::MissingTitle));
}

#[test]
fn an_item_without_a_category_has_no_entry_where_one_is_declared() {
    let item = ItemCapture { category: None, ..full_item() };
    assert_eq!(
        assemble_entry(true, "%Y/%m/%d", &item, day(), some("https://example.com/a/1.html")),
        Err(ExtractionError::MissingCategory)
    );
    assert!(assemble_entry(false, "%Y/%m/%d", &item, day(), some("https://example.com/a/1.html")).is_ok());
}

#[test]
fn a_title_without_a_link_has_no_entry() {
    let item = ItemCapture { title: Some(TitleCapture { href: None, ..headline() }), ..full_item() };
    assert_eq!(assemble_entry(true, "%Y/%m/%d", &item, day(), None), Err(ExtractionError::MissingHref));
}

#[test]
fn a_link_that_does_not_resolve_has_no_entry() {
    assert_eq!(assemble_entry(true, "%Y/%m/%d", &full_item(), day(), None), Err(ExtractionError::InvalidUrl));
}

#[test]
fn the_category_is_asked_for_before_the_link() {
    let item = ItemCapture {
        title: Some(TitleCapture { href: None, ..headline() }),
        category: None,
        ..full_item()
    };
    assert_eq!(assemble_entry(true, "%Y/%m/%d", &item, day(), None), Err(ExtractionError::MissingCategory));
    assert_eq!(assemble_entry(false, "%Y/%m/%d", &item, day(), None), Err(ExtractionError::MissingHref));
}

#[test]
fn the_date_is_asked_for_before_the_title() {
    let item = ItemCapture { date: some("?"), title: None, category: None, ..full_item() };
    assert_eq!(
        assemble_entry(true, "%F", &item, None, None),
        Err(ExtractionError::DateParseError { text: "?".to_string(), format: "%F".to_string() })
    );
}
