//! An entry of the pool: a value that a source supplied, or a text that the user asked
//! for, with a selection flag.
//!
//! The flag is an atomic cell inside the entry. The pool hands out shared references
//! only, and the flag of a published entry is flipped through one of them.

use std::fmt::Display;
use std::sync::atomic::AtomicBool;
use std::sync::atomic::Ordering;
use vstd::prelude::*;
use vstd::string::to_string_from_display_ensures;

verus! {

/// An entry of the pool.
#[derive(Debug)]
#[allow(inconsistent_fields)]
pub enum SelectableItem<T> {
    /// An entry that a source supplied.
    Existing { value: T, selected: AtomicBool },
    /// An entry that the user asked for by typing its text.
    Requested { value: String, selected: AtomicBool },
}

impl<T> SelectableItem<T> {
    /// The value of an entry that a source supplied.
    pub open spec fn existing_value(&self) -> Option<T> {
        match self {
            SelectableItem::Existing { value, .. } => Some(*value),
            SelectableItem::Requested { .. } => None,
        }
    }

    /// The text of an entry that the user asked for.
    pub open spec fn requested_text(&self) -> Option<Seq<char>> {
        match self {
            SelectableItem::Existing { .. } => None,
            SelectableItem::Requested { value, .. } => Some(value@),
        }
    }

    /// An entry from a source, not selected.
    pub fn new(value: T) -> (r: Self)
        ensures
            r.existing_value() == Some(value),
    {
        SelectableItem::Existing { value, selected: AtomicBool::new(false) }
    }

    /// An entry from a source, selected.
    pub fn new_selected(value: T) -> (r: Self)
        ensures
            r.existing_value() == Some(value),
    {
        SelectableItem::Existing { value, selected: AtomicBool::new(true) }
    }

    /// An entry that the user asked for, not selected.
    pub fn new_requested(value: String) -> (r: Self)
        ensures
            r.requested_text() == Some(value@),
    {
        SelectableItem::Requested { value, selected: AtomicBool::new(false) }
    }

    /// An entry that the user asked for, selected.
    pub fn new_requested_selected(value: String) -> (r: Self)
        ensures
            r.requested_text() == Some(value@),
    {
        SelectableItem::Requested { value, selected: AtomicBool::new(true) }
    }

    /// The value of an entry from a source; `None` for an entry that the user asked for.
    pub fn value(&self) -> (r: Option<&T>)
        ensures
            r matches Some(v) ==> self.existing_value() == Some(*v),
            r is None <==> self.existing_value() is None,
    {
        match self {
            SelectableItem::Existing { value, .. } => Some(value),
            SelectableItem::Requested { .. } => None,
        }
    }

    /// The value of an entry from a source, to change it; `None` for an entry that the
    /// user asked for. The entry stays of its kind, and its text stays when it is an
    /// entry that the user asked for.
    pub fn value_mut(&mut self) -> (r: Option<&mut T>)
        ensures
            r matches Some(v) ==> old(self).existing_value() == Some(*v)
                && final(self).existing_value() == Some(*final(v)),
            r is None <==> old(self).existing_value() is None,
            r is None ==> final(self).requested_text() == old(self).requested_text(),
            final(self).requested_text() is Some <==> old(self).requested_text() is Some,
    {
        match self {
            SelectableItem::Existing { value, .. } => Some(value),
            SelectableItem::Requested { .. } => None,
        }
    }

    /// The text of an entry that the user asked for; `None` for an entry from a source.
    pub fn requested_value(&self) -> (r: Option<&String>)
        ensures
            r matches Some(s) ==> self.requested_text() == Some(s@),
            r is None <==> self.requested_text() is None,
    {
        match self {
            SelectableItem::Existing { .. } => None,
            SelectableItem::Requested { value, .. } => Some(value),
        }
    }

    /// Whether the entry is selected, as the flag reads at the time of the call.
    pub fn is_selected(&self) -> bool {
        match self {
            SelectableItem::Existing { selected, .. } => selected.load(Ordering::SeqCst),
            SelectableItem::Requested { selected, .. } => selected.load(Ordering::SeqCst),
        }
    }

    /// Stores `selected_state` in the flag.
    pub fn set_selected(&self, selected_state: bool) {
        match self {
            SelectableItem::Existing { selected, .. } => selected.store(
                selected_state,
                Ordering::SeqCst,
            ),
            SelectableItem::Requested { selected, .. } => selected.store(
                selected_state,
                Ordering::SeqCst,
            ),
        }
    }

    /// Flips the flag.
    pub fn toggle_selected(&self) {
        match self {
            SelectableItem::Existing { selected, .. } => {
                selected.fetch_xor(true, Ordering::SeqCst);
            },
            SelectableItem::Requested { selected, .. } => {
                selected.fetch_xor(true, Ordering::SeqCst);
            },
        }
    }

    /// Gives up the entry for the value of an entry from a source; `None` for an entry
    /// that the user asked for.
    pub fn into_inner(self) -> (r: Option<T>)
        ensures
            r == self.existing_value(),
    {
        match self {
            SelectableItem::Existing { value, .. } => Some(value),
            SelectableItem::Requested { .. } => None,
        }
    }

    /// Whether a source supplied the entry.
    pub fn is_existing(&self) -> (r: bool)
        ensures
            r == (self is Existing),
            r == self.existing_value().is_some(),
    {
        match self {
            SelectableItem::Existing { .. } => true,
            SelectableItem::Requested { .. } => false,
        }
    }

    /// Whether the user asked for the entry.
    pub fn is_requested(&self) -> (r: bool)
        ensures
            r == (self is Requested),
            r == self.requested_text().is_some(),
    {
        match self {
            SelectableItem::Existing { .. } => false,
            SelectableItem::Requested { .. } => true,
        }
    }
}

impl<T: Display> SelectableItem<T> {
    /// Whether `text` is the text that stands for the entry in the list: what its value
    /// displays as, or the text that the user asked for.
    pub open spec fn displays_as(&self, text: String) -> bool {
        match self {
            SelectableItem::Existing { value, .. } => to_string_from_display_ensures::<T>(
                value,
                text,
            ),
            SelectableItem::Requested { value, .. } => text@ == value@,
        }
    }

    /// The text that stands for the entry in the list.
    pub fn text(&self) -> (r: String)
        ensures
            self.displays_as(r),
    {
        match self {
            SelectableItem::Existing { value, .. } => value.to_string(),
            SelectableItem::Requested { value, .. } => value.clone(),
        }
    }
}

/// Whether `text` is what is shown for what the pool returned for an index: the text
/// that stands for the entry, or the empty text where the pool returned none.
pub open spec fn shown_as<T: Display>(entry: Option<&SelectableItem<T>>, text: String) -> bool {
    match entry {
        Some(item) => item.displays_as(text),
        None => text@.len() == 0,
    }
}

/// The text that is shown for what the pool returned for an index.
pub fn entry_text<T: Display>(entry: Option<&SelectableItem<T>>) -> (r: String)
    ensures
        shown_as(entry, r),
{
    match entry {
        Some(item) => item.text(),
        None => String::new(),
    }
}

} // verus!
