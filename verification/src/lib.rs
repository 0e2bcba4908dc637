//! Turns the listing page of a site that publishes no feed into a feed model.
//!
//! A [`engine::Scraper`] holds the rules of one site: the address of its
//! listing page, the selectors of the items and of their fields, and the
//! format of its dates. Applied to the text of the page it gives a
//! [`feed::Feed`] with one entry for each item, or the first reason why the
//! page does not fit the rules. Fetching the page and writing the feed out
//! are left to the caller.
//!
//! The rules of extraction are stated in [`rules`] over what the selectors
//! capture ([`capture`]), and [`laws`] proves what follows from them.

pub mod capture;
pub mod date;
pub mod dom;
pub mod engine;
pub mod error;
pub mod feed;
pub mod laws;
pub mod link;
pub mod rules;
pub mod text;
