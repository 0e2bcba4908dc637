//! The ways in which building a profile or extracting a feed can fail.

use vstd::prelude::*;

verus! {

/// The selector rules of a profile, in the order in which they are compiled.
#[derive(Clone, Copy, Debug, PartialEq, Eq, Structural)]
pub enum SelectorField {
    Title,
    Author,
    Category,
    Date,
    FeedTitle,
    Column,
}

/// A profile could not be built: the rule for `field` is not a selector.
#[derive(Clone, Copy, Debug, PartialEq, Eq, Structural)]
pub struct ConfigError {
    pub field: SelectorField,
}

/// Why the extraction of one site's feed was given up. Each of these ends the
/// extraction for the whole page: no feed with part of the items is built.
#[derive(Debug, PartialEq, Eq)]
pub enum ExtractionError {
    /// Nothing on the page matches the feed-title rule.
    MissingFeedTitle,
    /// An item holds nothing that matches the title rule.
    MissingTitle,
    /// An item holds nothing that matches the date rule.
    MissingDate,
    /// The profile declares a category rule and an item holds no match.
    MissingCategory,
    /// The title element of an item has no `href` attribute.
    MissingHref,
    /// The date text of an item, stripped of whitespace, does not read as a
    /// date in the profile's format.
    DateParseError { text: String, format: String },
    /// The base is no absolute URL, or the link cannot be resolved against it.
    InvalidUrl,
}

/// [`ExtractionError`] with its strings as sequences of characters.
pub enum ExtractionErrorView {
    MissingFeedTitle,
    MissingTitle,
    MissingDate,
    MissingCategory,
    MissingHref,
    DateParseError { text: Seq<char>, format: Seq<char> },
    InvalidUrl,
}

impl View for ExtractionError {
    type V = ExtractionErrorView;

    open spec fn view(&self) -> ExtractionErrorView {
        match *self {
            ExtractionError::MissingFeedTitle => ExtractionErrorView::MissingFeedTitle,
            ExtractionError::MissingTitle => ExtractionErrorView::MissingTitle,
            ExtractionError::MissingDate => ExtractionErrorView::MissingDate,
            ExtractionError::MissingCategory => ExtractionErrorView::MissingCategory,
            ExtractionError::MissingHref => ExtractionErrorView::MissingHref,
            ExtractionError::DateParseError { text, format } => ExtractionErrorView::DateParseError {
                text: text@,
                format: format@,
            },
            ExtractionError::InvalidUrl => ExtractionErrorView::InvalidUrl,
        }
    }
}

} // verus!
