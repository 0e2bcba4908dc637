//! What holds of every feed that the rules of extraction allow.

use crate::capture::{ItemCaptureView, PageCaptureView};
use crate::date::{midnight_of, parsed_date, ClockReading};
use crate::error::ExtractionErrorView;
use crate::rules::{date_of, entries_for, entry_for, feed_for, Rules};
use crate::text::without_whitespace;
use vstd::prelude::*;

verus! {

/// Once the items up to some point have no entries, no longer run of items
/// has: the error stays the one of the first item that failed.
pub proof fn lemma_failure_stands(rules: Rules, items: Seq<ItemCaptureView>, k: int)
    requires
        0 <= k <= items.len(),
        entries_for(rules, items.take(k)) is Err,
    ensures
        entries_for(rules, items) == entries_for(rules, items.take(k)),
    decreases items.len() - k,
{
    if k == items.len() {
        assert(items.take(k) =~= items);
    } else {
        assert(items.take(k + 1).drop_last() =~= items.take(k));
        lemma_failure_stands(rules, items, k + 1);
    }
}

/// Where a run of items has entries, there is one entry for each item, and
/// the entry at each place is the entry of the item at that place.
pub proof fn lemma_entries_follow_items(rules: Rules, items: Seq<ItemCaptureView>)
    requires
        entries_for(rules, items) is Ok,
    ensures
        entries_for(rules, items)->Ok_0.len() == items.len(),
        forall|i: int|
            0 <= i < items.len() ==> entry_for(rules, #[trigger] items[i]) == Ok::<
                _,
                ExtractionErrorView,
            >(entries_for(rules, items)->Ok_0[i]),
    decreases items.len(),
{
    if items.len() > 0 {
        lemma_entries_follow_items(rules, items.drop_last());
        assert forall|i: int| 0 <= i < items.len() implies entry_for(rules, #[trigger] items[i])
            == Ok::<_, ExtractionErrorView>(entries_for(rules, items)->Ok_0[i]) by {
            if i < items.len() - 1 {
                assert(items.drop_last()[i] == items[i]);
            }
        }
    }
}

/// Where every item of a run has an entry, the run has entries.
pub proof fn lemma_entries_exist(rules: Rules, items: Seq<ItemCaptureView>)
    requires
        forall|i: int| 0 <= i < items.len() ==> entry_for(rules, #[trigger] items[i]) is Ok,
    ensures
        entries_for(rules, items) is Ok,
    decreases items.len(),
{
    if items.len() > 0 {
        assert forall|i: int| 0 <= i < items.drop_last().len() implies entry_for(
            rules,
            #[trigger] items.drop_last()[i],
        ) is Ok by {
            assert(items.drop_last()[i] == items[i]);
        }
        lemma_entries_exist(rules, items.drop_last());
    }
}

/// The first item without an entry decides the outcome: where every item
/// before the item at `i` has an entry and that item has none, the run has no
/// entries, and the error is that of the item at `i`.
pub proof fn law_first_failure_decides(rules: Rules, items: Seq<ItemCaptureView>, i: int)
    requires
        0 <= i < items.len(),
        forall|j: int| 0 <= j < i ==> entry_for(rules, #[trigger] items[j]) is Ok,
        entry_for(rules, items[i]) is Err,
    ensures
        entries_for(rules, items) == Err::<Seq<crate::feed::EntryView>, _>(
            entry_for(rules, items[i])->Err_0,
        ),
{
    let before = items.take(i);
    assert forall|j: int| 0 <= j < before.len() implies entry_for(rules, #[trigger] before[j])
        is Ok by {
        assert(before[j] == items[j]);
    }
    lemma_entries_exist(rules, before);
    assert(items.take(i + 1).drop_last() =~= before);
    assert(items.take(i + 1).last() == items[i]);
    lemma_failure_stands(rules, items, i + 1);
}

/// A feed holds one entry for each item of the page, in the order of the
/// page: the entry at each place is the entry of the item at that place. No
/// feed holds the entries of only some of the items.
pub proof fn law_entries_in_page_order(rules: Rules, page: PageCaptureView, now: ClockReading)
    requires
        feed_for(rules, page, now) is Ok,
    ensures
        feed_for(rules, page, now)->Ok_0.entries.len() == page.items.len(),
        forall|i: int|
            0 <= i < page.items.len() ==> entry_for(rules, #[trigger] page.items[i]) == Ok::<
                _,
                ExtractionErrorView,
            >(feed_for(rules, page, now)->Ok_0.entries[i]),
{
    lemma_entries_follow_items(rules, page.items);
}

/// The timestamp of every entry of a feed is midnight, on the clock of the
/// feed's zone, of the date that the date parser reads, in the profile's
/// format, from the item's date text stripped of whitespace.
pub proof fn law_updated_is_parsed_date(rules: Rules, page: PageCaptureView, now: ClockReading, i: int)
    requires
        feed_for(rules, page, now) is Ok,
        0 <= i < page.items.len(),
    ensures
        page.items[i].date is Some,
        parsed_date(without_whitespace(page.items[i].date->0), rules.date_format) is Some,
        feed_for(rules, page, now)->Ok_0.entries[i].updated == midnight_of(
            parsed_date(without_whitespace(page.items[i].date->0), rules.date_format)->0,
        ),
{
    law_entries_in_page_order(rules, page, now);
    assert(entry_for(rules, page.items[i]) is Ok);
}

/// An item without a category element, under a profile that declares the
/// category rule, has no entry for want of a category, provided that nothing
/// fails before the category is looked for: the item has a date that parses
/// and a title element.
pub proof fn law_item_without_category(rules: Rules, item: ItemCaptureView)
    requires
        rules.declares_category,
        item.category is None,
        date_of(rules.date_format, item) is Some,
        item.title is Some,
    ensures
        entry_for(rules, item) == Err::<crate::feed::EntryView, _>(
            ExtractionErrorView::MissingCategory,
        ),
{
}

/// Whether `item` has an entry or has none for want of a category.
pub open spec fn fails_only_for_category(rules: Rules, item: ItemCaptureView) -> bool {
    entry_for(rules, item) is Ok || entry_for(rules, item) == Err::<crate::feed::EntryView, _>(
        ExtractionErrorView::MissingCategory,
    )
}

proof fn lemma_only_category_failures(rules: Rules, items: Seq<ItemCaptureView>)
    requires
        forall|j: int| 0 <= j < items.len() ==> fails_only_for_category(rules, #[trigger] items[j]),
    ensures
        entries_for(rules, items) is Ok || entries_for(rules, items) == Err::<
            Seq<crate::feed::EntryView>,
            _,
        >(ExtractionErrorView::MissingCategory),
    decreases items.len(),
{
    if items.len() > 0 {
        assert forall|j: int| 0 <= j < items.drop_last().len() implies fails_only_for_category(
            rules,
            #[trigger] items.drop_last()[j],
        ) by {
            assert(items.drop_last()[j] == items[j]);
        }
        lemma_only_category_failures(rules, items.drop_last());
        assert(fails_only_for_category(rules, items[items.len() - 1]));
    }
}

/// Where the profile declares a category rule and an item holds no category
/// element, the extraction fails for want of a category and builds no feed,
/// provided that nothing else fails first: the page has a feed title, and no
/// item up to and including that one fails for another reason.
pub proof fn law_missing_category_fails(
    rules: Rules,
    page: PageCaptureView,
    now: ClockReading,
    i: int,
)
    requires
        rules.declares_category,
        0 <= i < page.items.len(),
        page.items[i].category is None,
        page.feed_title is Some,
        forall|j: int| 0 <= j <= i ==> fails_only_for_category(rules, #[trigger] page.items[j]),
    ensures
        feed_for(rules, page, now) == Err::<crate::feed::FeedView, _>(
            ExtractionErrorView::MissingCategory,
        ),
{
    let upto = page.items.take(i + 1);
    assert forall|j: int| 0 <= j < upto.len() implies fails_only_for_category(
        rules,
        #[trigger] upto[j],
    ) by {
        assert(upto[j] == page.items[j]);
    }
    lemma_only_category_failures(rules, upto);
    assert(fails_only_for_category(rules, page.items[i]));
    assert(upto.last() == page.items[i]);
    lemma_failure_stands(rules, page.items, i + 1);
}

/// Whether the entries of a feed have a category is a property of the site:
/// with a category rule in the profile every entry has one, without it none.
pub proof fn law_category_is_site_wide(
    rules: Rules,
    page: PageCaptureView,
    now: ClockReading,
    i: int,
)
    requires
        feed_for(rules, page, now) is Ok,
        0 <= i < page.items.len(),
    ensures
        feed_for(rules, page, now)->Ok_0.entries[i].category is Some <==> rules.declares_category,
{
    law_entries_in_page_order(rules, page, now);
    assert(entry_for(rules, page.items[i]) is Ok);
}

} // verus!
