use listing_feed::engine::Scraper;
use listing_feed::error::{ConfigError, SelectorField};

fn field_of(profile: Result<Scraper<'_>, ConfigError>) -> Option<SelectorField> {
    match profile {
        Ok(_) => None,
        Err(e) => Some(e.field),
    }
}

#[test]
fn builds_a_profile_from_rules_that_compile() {
    let profile = Scraper::new(
        "https://www.spf.org/iina/articles/",
        "h3.title > a",
        "div.author > a",
        Some("div.category > a"),
        "div.date",
        "%Y/%m/%d",
        "div.logo > a",
        "section.sec-articles div.article-list > div.row > div.col",
    )
    .unwrap();
    assert_eq!(profile.target, "https://www.spf.org/iina/articles/");
    assert_eq!(profile.date_format, "%Y/%m/%d");
    assert!(profile.category_selector.is_some());
    assert_eq!(profile.title_selector, scraper::Selector::parse("h3.title > a").unwrap());
    assert_eq!(profile.column_selector, scraper::Selector::parse("section.sec-articles div.article-list > div.row > div.col").unwrap());
}

#[test]
fn builds_a_profile_without_a_category_rule() {
    let profile = Scraper::new(
        "https://www.spf.org/jpus-insights/spf-america-monitor/",
        "a[class='card-news-featured js-card-news-featured']",
        "p.author",
        None,
        "p.date",
        "%Y.%m.%d",
        "title",
        "div[id^='extSeries_'].extSeries",
    )
    .unwrap();
    assert!(profile.category_selector.is_none());
}

#[test]
fn reports_the_rule_that_is_no_selector() {
    assert_eq!(field_of(Scraper::new("t", "a >", "b", Some("c"), "d", "f", "e", "g")), Some(SelectorField::Title));
    assert_eq!(field_of(Scraper::new("t", "a", "b[", Some("c"), "d", "f", "e", "g")), Some(SelectorField::Author));
    assert_eq!(field_of(Scraper::new("t", "a", "b", Some(""), "d", "f", "e", "g")), Some(SelectorField::Category));
    assert_eq!(field_of(Scraper::new("t", "a", "b", Some("c"), "1d", "f", "e", "g")), Some(SelectorField::Date));
    assert_eq!(field_of(Scraper::new("t", "a", "b", None, "d", "f", "e,,", "g")), Some(SelectorField::FeedTitle));
    assert_eq!(field_of(Scraper::new("t", "a", "b", None, "d", "f", "e", "::")), Some(SelectorField::Column));
    assert_eq!(field_of(Scraper::new("t", "a", "b", None, "d", "f", "e", "g")), None);
}

#[test]
fn reports_the_first_of_several_rules_that_are_no_selectors() {
    let profile = Scraper::new("t", "a", "b", Some("]"), ">", "f", "e", "");
    assert_eq!(profile.err(), Some(ConfigError { field: SelectorField::Category }));
    let profile = Scraper::new("t", "a", "(", Some("]"), ">", "f", "e", "");
    assert_eq!(profile.err(), Some(ConfigError { field: SelectorField::Author }));
}

#[test]
fn a_profile_is_built_whatever_the_target_and_the_format() {
    assert!(Scraper::new("", "a", "b", None, "d", "", "e", "g").is_ok());
}

#[test]
fn assembles_a_profile_from_compiled_rules() {
    let compile = scraper::Selector::parse;
    let profile = Scraper::from_compiled(
        "https://example.com/",
        compile("a"),
        compile("b"),
        Some(compile("c")),
        compile("d"),
        "%F",
        compile("e"),
        compile("g"),
    )
    .unwrap();
    assert_eq!(profile.target, "https://example.com/");
    assert_eq!(profile.date_format, "%F");
    assert_eq!(profile.title_selector, compile("a").unwrap());
    assert_eq!(profile.author_selector, compile("b").unwrap());
    assert_eq!(profile.category_selector, Some(compile("c").unwrap()));
    assert_eq!(profile.date_selector, compile("d").unwrap());
    assert_eq!(profile.feed_title_selector, compile("e").unwrap());
    assert_eq!(profile.column_selector, compile("g").unwrap());
}

#[test]
fn reports_the_first_rule_whose_compilation_failed() {
    let compile = scraper::Selector::parse;
    let profile = Scraper::from_compiled(
        "t",
        compile("a"),
        compile("b"),
        Some(compile("")),
        compile(">"),
        "f",
        compile("e"),
        compile("["),
    );
    assert_eq!(field_of(profile), Some(SelectorField::Category));
    let profile =
        Scraper::from_compiled("t", compile("a"), compile("b"), None, compile("d"), "f", compile("e"), compile("["));
    assert_eq!(field_of(profile), Some(SelectorField::Column));
}
