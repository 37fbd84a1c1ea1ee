//! What a session returns: the entries that were selected, by kind.

use crate::selectable::SelectableItem;
use vstd::prelude::*;

verus! {

/// The values of those of `items` that a source supplied, in their order.
pub open spec fn existing_values_of<T>(items: Seq<&SelectableItem<T>>) -> Seq<T>
    decreases items.len(),
{
    if items.len() == 0 {
        Seq::empty()
    } else {
        match items.last().existing_value() {
            Some(value) => existing_values_of(items.drop_last()).push(value),
            None => existing_values_of(items.drop_last()),
        }
    }
}

/// The texts of those of `items` that the user asked for, in their order.
pub open spec fn requested_values_of<T>(items: Seq<&SelectableItem<T>>) -> Seq<Seq<char>>
    decreases items.len(),
{
    if items.len() == 0 {
        Seq::empty()
    } else {
        match items.last().requested_text() {
            Some(text) => requested_values_of(items.drop_last()).push(text),
            None => requested_values_of(items.drop_last()),
        }
    }
}

/// Which of the matched entries a session returns. Those whose flag is set, in their
/// order; where no flag is set, the highlighted entry alone; where there is none
/// either, nothing.
pub open spec fn selection_of<A>(matched: Seq<A>, flags: Seq<bool>, current_index: int) -> Seq<A> {
    if flagged(matched, flags).len() > 0 {
        flagged(matched, flags)
    } else if 0 <= current_index < matched.len() {
        seq![matched[current_index]]
    } else {
        Seq::empty()
    }
}

/// Those of `matched` whose flag is set, in their order. An entry without a flag counts
/// as not selected.
pub open spec fn flagged<A>(matched: Seq<A>, flags: Seq<bool>) -> Seq<A>
    decreases matched.len(),
{
    if matched.len() == 0 {
        Seq::empty()
    } else if matched.len() <= flags.len() && flags[matched.len() - 1] {
        flagged(matched.drop_last(), flags).push(matched.last())
    } else {
        flagged(matched.drop_last(), flags)
    }
}

/// Each entry of the result is one of the matched entries whose flag is set, and every
/// such entry is in the result.
pub proof fn lemma_flagged_members<A>(matched: Seq<A>, flags: Seq<bool>)
    requires
        flags.len() >= matched.len(),
    ensures
        flagged(matched, flags).len() <= matched.len(),
        forall|i: int|
            0 <= i < matched.len() && flags[i] ==> flagged(matched, flags).contains(
                #[trigger] matched[i],
            ),
        forall|k: int|
            0 <= k < flagged(matched, flags).len() ==> exists|i: int|
                0 <= i < matched.len() && flags[i] && matched[i] == #[trigger] flagged(
                    matched,
                    flags,
                )[k],
        (forall|i: int| 0 <= i < matched.len() ==> !flags[i]) <==> flagged(matched, flags).len()
            == 0,
    decreases matched.len(),
{
    if matched.len() > 0 {
        let shorter = matched.drop_last();
        let n = matched.len() - 1;
        lemma_flagged_members(shorter, flags);
        let sub = flagged(shorter, flags);
        let all = flagged(matched, flags);
        assert forall|i: int| 0 <= i < matched.len() && flags[i] implies all.contains(
            #[trigger] matched[i],
        ) by {
            if i < n {
                assert(shorter[i] == matched[i]);
                assert(sub.contains(shorter[i]));
                let k = choose|k: int| 0 <= k < sub.len() && sub[k] == shorter[i];
                assert(all[k] == matched[i]);
            } else {
                assert(all[all.len() - 1] == matched[i]);
            }
        }
        assert forall|k: int| 0 <= k < all.len() implies exists|i: int|
            0 <= i < matched.len() && flags[i] && matched[i] == #[trigger] all[k] by {
            if k < sub.len() {
                let i = choose|i: int| 0 <= i < shorter.len() && flags[i] && shorter[i] == sub[k];
                assert(matched[i] == all[k]);
            } else {
                assert(matched[n] == all[k]);
            }
        }
        if forall|i: int| 0 <= i < matched.len() ==> !flags[i] {
            assert forall|i: int| 0 <= i < shorter.len() implies !flags[i] by {}
        }
        if all.len() == 0 {
            assert(sub.len() == 0);
            assert(!flags[n]);
        }
    }
}

/// The entries that a session returns.
#[derive(Debug)]
pub struct SelectedItems<'a, T> {
    pub items: Vec<&'a SelectableItem<T>>,
}

impl<'a, T> View for SelectedItems<'a, T> {
    type V = Seq<&'a SelectableItem<T>>;

    open spec fn view(&self) -> Seq<&'a SelectableItem<T>> {
        self.items@
    }
}

impl<'a, T> SelectedItems<'a, T> {
    /// The result made of the given entries.
    pub fn from_refs(items: Vec<&'a SelectableItem<T>>) -> (r: Self)
        ensures
            r@ == items@,
    {
        SelectedItems { items }
    }

    /// The values of the entries that a source supplied, in their order.
    pub fn existing_values(&self) -> (r: Vec<&T>)
        ensures
            r@.len() == existing_values_of(self@).len(),
            forall|i: int| 0 <= i < r@.len() ==> *r@[i] == existing_values_of(self@)[i],
    {
        let mut values: Vec<&T> = Vec::new();
        let mut i: usize = 0;
        while i < self.items.len()
            invariant
                i <= self.items.len(),
                values@.len() == existing_values_of(self@.take(i as int)).len(),
                forall|k: int|
                    0 <= k < values@.len() ==> *values@[k] == existing_values_of(
                        self@.take(i as int),
                    )[k],
            decreases self.items.len() - i,
        {
            assert(self@.take(i + 1).drop_last() =~= self@.take(i as int));
            match self.items[i].value() {
                Some(value) => {
                    values.push(value);
                },
                None => {},
            }
            i += 1;
        }
        assert(self@.take(self@.len() as int) =~= self@);
        values
    }

    /// The texts of the entries that the user asked for, in their order.
    pub fn requested_values(&self) -> (r: Vec<&str>)
        ensures
            r@.len() == requested_values_of(self@).len(),
            forall|i: int| 0 <= i < r@.len() ==> r@[i]@ == requested_values_of(self@)[i],
    {
        let mut values: Vec<&str> = Vec::new();
        let mut i: usize = 0;
        while i < self.items.len()
            invariant
                i <= self.items.len(),
                values@.len() == requested_values_of(self@.take(i as int)).len(),
                forall|k: int|
                    0 <= k < values@.len() ==> values@[k]@ == requested_values_of(
                        self@.take(i as int),
                    )[k],
            decreases self.items.len() - i,
        {
            assert(self@.take(i + 1).drop_last() =~= self@.take(i as int));
            match self.items[i].requested_value() {
                Some(text) => {
                    values.push(text.as_str());
                },
                None => {},
            }
            i += 1;
        }
        assert(self@.take(self@.len() as int) =~= self@);
        values
    }

    /// The number of entries.
    pub fn len(&self) -> (r: usize)
        ensures
            r == self@.len(),
    {
        self.items.len()
    }

    /// Whether the result holds no entry.
    pub fn is_empty(&self) -> (r: bool)
        ensures
            r == (self@.len() == 0),
    {
        self.items.len() == 0
    }

    /// What a session returns of the matched entries `matched`, of which `flags` tells
    /// entry by entry whether it is selected, when the entry at `current_index` is
    /// highlighted: the selected entries or, where there is none, the highlighted one.
    pub fn choose_from(matched: Vec<&'a SelectableItem<T>>, flags: &Vec<bool>, current_index: u32)
        -> (r: Self)
        ensures
            r@ == selection_of(matched@, flags@, current_index as int),
    {
        let mut chosen: Vec<&'a SelectableItem<T>> = Vec::new();
        let mut i: usize = 0;
        while i < matched.len()
            invariant
                i <= matched.len(),
                chosen@ == flagged(matched@.take(i as int), flags@),
            decreases matched.len() - i,
        {
            assert(matched@.take(i + 1).drop_last() =~= matched@.take(i as int));
            if i < flags.len() && flags[i] {
                chosen.push(matched[i]);
            }
            i += 1;
        }
        assert(matched@.take(matched@.len() as int) =~= matched@);
        if chosen.len() == 0 && (current_index as usize) < matched.len() {
            chosen.push(matched[current_index as usize]);
        }
        SelectedItems { items: chosen }
    }
}

} // verus!
