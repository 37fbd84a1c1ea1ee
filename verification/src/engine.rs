//! The match engine as the session uses it.
//!
//! The engine owns the pool of entries. It filters and ranks them against the query on
//! threads of its own and keeps a snapshot of the last finished ranking. The snapshot
//! changes in `tick` only. Of what the engine returns nothing is known here but that
//! it returns: which entries match a query, and in what order, is its business.

use crate::selectable::SelectableItem;
use crate::viewport::SnapshotCounts;
use std::fmt::Display;
use std::sync::Arc;
use vstd::prelude::*;

verus! {

/// The matcher of the `nucleo` crate.
#[verifier::external_type_specification]
#[verifier::external_body]
#[verifier::reject_recursive_types(T)]
pub struct ExNucleo<T: Sync + Send + 'static>(nucleo::Nucleo<T>);

/// The handle of the `nucleo` crate through which entries are added to a pool.
#[verifier::external_type_specification]
#[verifier::external_body]
#[verifier::reject_recursive_types(T)]
pub struct ExInjector<T>(nucleo::Injector<T>);

/// The snapshot of the `nucleo` crate: the entries that matched when the matcher last
/// finished, in the order of their rank.
#[verifier::external_type_specification]
#[verifier::external_body]
#[verifier::reject_recursive_types(T)]
pub struct ExSnapshot<T: Sync + Send + 'static>(nucleo::Snapshot<T>);

/// `Nucleo::snapshot`. Trusted: it returns; nothing is claimed of the snapshot.
pub assume_specification<T: Sync + Send + 'static>[ nucleo::Nucleo::<T>::snapshot ](
    matcher: &nucleo::Nucleo<T>,
) -> &nucleo::Snapshot<T>
;

/// `Nucleo::injector`. Trusted: it returns; nothing is claimed of the handle.
pub assume_specification<T: Sync + Send + 'static>[ nucleo::Nucleo::<T>::injector ](
    matcher: &nucleo::Nucleo<T>,
) -> nucleo::Injector<T>
;

/// `Snapshot::item_count`. Trusted: it returns; nothing is claimed of the number.
pub assume_specification<T: Sync + Send + 'static>[ nucleo::Snapshot::<T>::item_count ](
    snapshot: &nucleo::Snapshot<T>,
) -> u32
;

/// `Snapshot::matched_item_count`. Trusted: it returns; nothing is claimed of the
/// number.
pub assume_specification<T: Sync + Send + 'static>[ nucleo::Snapshot::<T>::matched_item_count ](
    snapshot: &nucleo::Snapshot<T>,
) -> u32
;

/// What a tick of the engine reports.
#[derive(Clone, Copy, Debug, PartialEq, Eq, Structural)]
pub struct TickStatus {
    /// Whether the snapshot has changed.
    pub changed: bool,
    /// Whether the engine is still at work.
    pub running: bool,
}

/// `Nucleo::new`, with the default configuration of the matcher, no notification, the
/// default number of threads and one column to match. Trusted: it returns.
#[verifier::external_body]
pub(crate) fn new_matcher<T: Sync + Send + 'static>() -> nucleo::Nucleo<SelectableItem<T>> {
    nucleo::Nucleo::new(nucleo::Config::DEFAULT, Arc::new(|| {}), None, 1)
}

/// `Injector::push`, with the text of the entry as the one column to match. Trusted:
/// it returns.
#[verifier::external_body]
pub(crate) fn push_entry<T: Sync + Send + Display + 'static>(
    injector: &nucleo::Injector<SelectableItem<T>>,
    item: SelectableItem<T>,
) {
    injector.push(item, |entry, columns| columns[0] = entry.text().into());
}

/// `MultiPattern::reparse` on the one column, with smart case matching and smart
/// normalization. `append` tells the engine that the query is the last one with
/// characters added at its end. Trusted: it returns.
#[verifier::external_body]
pub(crate) fn reparse_query<T: Sync + Send + 'static>(
    matcher: &mut nucleo::Nucleo<SelectableItem<T>>,
    query: &str,
    append: bool,
) {
    matcher.pattern.reparse(
        0,
        query,
        nucleo::pattern::CaseMatching::Smart,
        nucleo::pattern::Normalization::Smart,
        append,
    );
}

/// `Nucleo::tick`, which waits up to `timeout` milliseconds for the engine. Trusted: it
/// returns, with the two flags of the engine's status; nothing is claimed of them.
#[verifier::external_body]
pub(crate) fn tick_matcher<T: Sync + Send + 'static>(
    matcher: &mut nucleo::Nucleo<SelectableItem<T>>,
    timeout: u64,
) -> TickStatus {
    let status = matcher.tick(timeout);
    TickStatus { changed: status.changed, running: status.running }
}

/// `Snapshot::get_matched_item`. Trusted: it returns; nothing is claimed of the entry.
#[verifier::external_body]
pub(crate) fn matched_entry<T: Sync + Send + 'static>(
    snapshot: &nucleo::Snapshot<SelectableItem<T>>,
    index: u32,
) -> Option<&SelectableItem<T>> {
    match snapshot.get_matched_item(index) {
        Some(item) => Some(item.data),
        None => None,
    }
}

/// The sizes of the snapshot.
pub(crate) fn snapshot_counts<T: Sync + Send + 'static>(
    matcher: &nucleo::Nucleo<SelectableItem<T>>,
) -> SnapshotCounts {
    let snapshot = matcher.snapshot();
    SnapshotCounts {
        item_count: snapshot.item_count(),
        matched_item_count: snapshot.matched_item_count(),
    }
}

} // verus!
