use listing_feed::error::ExtractionError;
use listing_feed::link::{_rel2abs, names_web_scheme};

#[test]
fn resolves_a_name_against_a_directory() {
    assert_eq!(_rel2abs("https://example.com/a/b/", "c"), Ok("https://example.com/a/b/c".to_string()));
}

#[test]
fn passes_an_absolute_link_through() {
    assert_eq!(
        _rel2abs("https://example.com/a/", "https://other.com/x"),
        Ok("https://other.com/x".to_string())
    );
}

#[test]
fn resolves_a_step_up() {
    assert_eq!(_rel2abs("https://example.com/a/b", "../c"), Ok("https://example.com/c".to_string()));
}

#[test]
fn passes_an_absolute_link_through_letter_for_letter() {
    // Resolution would write this link in another form; a link that names
    // its scheme is not resolved.
    assert_eq!(
        _rel2abs("https://example.com/", "http://Other.COM/a b/../c"),
        Ok("http://Other.COM/a b/../c".to_string())
    );
}

#[test]
fn passes_an_absolute_link_through_whatever_the_base() {
    assert_eq!(_rel2abs("no base at all", "https://other.com/x"), Ok("https://other.com/x".to_string()));
}

#[test]
fn resolves_a_link_from_the_root() {
    assert_eq!(
        _rel2abs("https://www.spf.org/iina/articles/", "/iina/articles/nagao_01.html"),
        Ok("https://www.spf.org/iina/articles/nagao_01.html".to_string())
    );
}

#[test]
fn resolves_a_link_beside_a_file() {
    assert_eq!(
        _rel2abs("https://example.com/a/list.html", "./item.html"),
        Ok("https://example.com/a/item.html".to_string())
    );
}

#[test]
fn resolves_a_query_against_the_page() {
    assert_eq!(
        _rel2abs("https://www.nri.com/jp/knowledge/blog/lst?page=1&pageSize=30", "?page=2"),
        Ok("https://www.nri.com/jp/knowledge/blog/lst?page=2".to_string())
    );
}

#[test]
fn resolves_a_link_that_names_the_host_only() {
    assert_eq!(_rel2abs("https://example.com/a/", "//cdn.example.org/x"), Ok("https://cdn.example.org/x".to_string()));
}

#[test]
fn resolves_the_empty_link_to_the_page_itself() {
    assert_eq!(_rel2abs("https://example.com/a/b?q=1", ""), Ok("https://example.com/a/b?q=1".to_string()));
}

#[test]
fn refuses_a_base_that_is_no_absolute_url() {
    assert_eq!(_rel2abs("example.com/a/", "c"), Err(ExtractionError::InvalidUrl));
    assert_eq!(_rel2abs("", "c"), Err(ExtractionError::InvalidUrl));
}

#[test]
fn refuses_a_link_that_cannot_be_resolved() {
    assert_eq!(_rel2abs("https://example.com/", "//[not-a-host/x"), Err(ExtractionError::InvalidUrl));
    assert_eq!(_rel2abs("mailto:someone@example.com", "c"), Err(ExtractionError::InvalidUrl));
}

#[test]
fn tells_a_link_with_a_web_scheme() {
    assert!(names_web_scheme("http://a"));
    assert!(names_web_scheme("https://a"));
    assert!(names_web_scheme("http://"));
    assert!(!names_web_scheme("HTTP://a"));
    assert!(!names_web_scheme("ftp://a"));
    assert!(!names_web_scheme("http:/a"));
    assert!(!names_web_scheme("/http://a"));
    assert!(!names_web_scheme(""));
}
