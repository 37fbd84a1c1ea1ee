//! A list of entries, in the order in which they were added.

use crate::selectable::SelectableItem;
use vstd::prelude::*;
use vstd::std_specs::iter::IteratorSpec;

verus! {

/// The iterator of std over the elements of a slice that hands out mutable references.
#[verifier::external_type_specification]
#[verifier::external_body]
#[verifier::reject_recursive_types(T)]
pub struct ExIterMut<'a, T: 'a>(std::slice::IterMut<'a, T>);

/// A list of entries.
pub struct RequestedItems<T> {
    pub items: Vec<SelectableItem<T>>,
}

impl<T> View for RequestedItems<T> {
    type V = Seq<SelectableItem<T>>;

    open spec fn view(&self) -> Seq<SelectableItem<T>> {
        self.items@
    }
}

impl<T> RequestedItems<T> {
    /// An empty list.
    pub fn new() -> (r: Self)
        ensures
            r@ == Seq::<SelectableItem<T>>::empty(),
    {
        RequestedItems { items: Vec::new() }
    }

    /// The list of the given entries.
    pub fn from_vec(items: Vec<SelectableItem<T>>) -> (r: Self)
        ensures
            r@ == items@,
    {
        RequestedItems { items }
    }

    /// Adds an entry at the end.
    pub fn push(&mut self, item: SelectableItem<T>)
        ensures
            final(self)@ == old(self)@.push(item),
    {
        self.items.push(item);
    }

    /// The number of entries.
    pub fn len(&self) -> (r: usize)
        ensures
            r == self@.len(),
    {
        self.items.len()
    }

    /// Whether the list has no entry.
    pub fn is_empty(&self) -> (r: bool)
        ensures
            r == (self@.len() == 0),
    {
        self.items.len() == 0
    }

    /// The entry at `index`.
    pub fn get(&self, index: usize) -> (r: Option<&SelectableItem<T>>)
        ensures
            index < self@.len() ==> r == Some(&self@[index as int]),
            index >= self@.len() ==> r is None,
    {
        if index < self.items.len() {
            Some(&self.items[index])
        } else {
            None
        }
    }

    /// An iterator over the entries, from the first to the last.
    pub fn iter(&self) -> (r: std::slice::Iter<'_, SelectableItem<T>>)
        ensures
            IteratorSpec::remaining(&r) == self@.as_ref(),
    {
        broadcast use vstd::std_specs::slice::axiom_spec_slice_iter;

        self.items.iter()
    }

    /// An iterator over the entries, from the first to the last, to change them. It
    /// is the iterator of std over the vector of the entries, of which nothing is
    /// claimed here.
    #[verifier::external_body]
    pub fn iter_mut(&mut self) -> std::slice::IterMut<'_, SelectableItem<T>> {
        self.items.iter_mut()
    }

    /// The entries as a vector.
    pub fn as_vec(&self) -> (r: &Vec<SelectableItem<T>>)
        ensures
            r@ == self@,
    {
        &self.items
    }

    /// The entries as a vector, to change them: the list holds what the vector holds
    /// when the caller is done with it.
    pub fn as_vec_mut(&mut self) -> (r: &mut Vec<SelectableItem<T>>)
        ensures
            r@ == old(self)@,
            final(self)@ == final(r)@,
    {
        &mut self.items
    }

    /// Adds the given entries at the end, in their order.
    pub fn extend(&mut self, items: Vec<SelectableItem<T>>)
        ensures
            final(self)@ == old(self)@ + items@,
    {
        let mut items = items;
        self.items.append(&mut items);
    }

    /// Removes every entry.
    pub fn clear(&mut self)
        ensures
            final(self)@ == Seq::<SelectableItem<T>>::empty(),
    {
        self.items.clear();
    }
}

impl<T> vstd::std_specs::core::IndexSpecImpl<usize> for RequestedItems<T> {
    /// An index has to be that of an entry.
    open spec fn index_req(&self, index: &usize) -> bool {
        *index < self@.len()
    }
}

impl<T> std::ops::Index<usize> for RequestedItems<T> {
    type Output = SelectableItem<T>;

    /// The entry at `index`.
    fn index(&self, index: usize) -> (r: &SelectableItem<T>)
        ensures
            *r == self@[index as int],
    {
        &self.items[index]
    }
}

impl<T> Default for RequestedItems<T> {
    /// An empty list.
    fn default() -> (r: Self)
        ensures
            r@ == Seq::<SelectableItem<T>>::empty(),
    {
        RequestedItems::new()
    }
}

} // verus!
