//! The generic fuzzy-filter list: an ordered collection of entries, a
//! query, the derived filtered view, and a cursor that always points into
//! that view.
//!
//! The filtered view holds the indices of the retained entries, in their
//! original order: an entry is retained exactly when the query matches
//! its search text case-insensitively as a subsequence (ASCII case
//! folding, as the matching module defines it), and an empty query
//! retains everything.

use vstd::prelude::*;
use vstd::string::StrSliceExecFns;

use crate::entries::ListEntry;
use crate::fuzzy::fuzzy_match;
use crate::fuzzy::is_fuzzy_match;

verus! {

/// The indices of the entries of `items` whose search text the query
/// matches, in ascending order.
pub open spec fn filtered_idxs<T: ListEntry>(items: Seq<T>, q: Seq<char>) -> Seq<int>
    decreases items.len(),
{
    if items.len() == 0 {
        Seq::<int>::empty()
    } else {
        filtered_idxs(items.drop_last(), q) + (if is_fuzzy_match(
            q,
            items.last().search_spec(),
        ) {
            seq![items.len() - 1]
        } else {
            Seq::<int>::empty()
        })
    }
}

/// Soundness and stability of the filter: every retained index is in
/// range and matches the query, and the retained indices are strictly
/// ascending — the filter never reorders.
pub proof fn lemma_filtered_sound<T: ListEntry>(items: Seq<T>, q: Seq<char>)
    ensures
        forall|k: int|
            0 <= k < filtered_idxs(items, q).len() ==> 0 <= #[trigger] filtered_idxs(items, q)[k]
                < items.len() && is_fuzzy_match(q, items[filtered_idxs(items, q)[k]].search_spec()),
        forall|k1: int, k2: int|
            0 <= k1 < k2 < filtered_idxs(items, q).len() ==> filtered_idxs(items, q)[k1]
                < filtered_idxs(items, q)[k2],
    decreases items.len(),
{
    if items.len() > 0 {
        lemma_filtered_sound(items.drop_last(), q);
        let pre = filtered_idxs(items.drop_last(), q);
        let fi = filtered_idxs(items, q);
        let tail: Seq<int> = if is_fuzzy_match(q, items.last().search_spec()) {
            seq![items.len() - 1]
        } else {
            Seq::<int>::empty()
        };
        assert(fi == pre + tail);
        assert forall|k: int| 0 <= k < pre.len() implies fi[k] == pre[k] by {
            assert((pre + tail)[k] == pre[k]);
        }
        assert forall|k: int| 0 <= k < pre.len() implies items.drop_last()[pre[k]] == items[pre[k]] by {
        }
        if tail.len() == 1 {
            assert(fi[pre.len() as int] == items.len() - 1);
        }
    }
}

/// Completeness of the filter: every entry the query matches appears in
/// the filtered view.
pub proof fn lemma_filtered_complete<T: ListEntry>(items: Seq<T>, q: Seq<char>, j: int)
    requires
        0 <= j < items.len(),
        is_fuzzy_match(q, items[j].search_spec()),
    ensures
        filtered_idxs(items, q).contains(j),
    decreases items.len(),
{
    let fi = filtered_idxs(items, q);
    let pre = filtered_idxs(items.drop_last(), q);
    if j == items.len() - 1 {
        assert(fi[pre.len() as int] == j);
    } else {
        lemma_filtered_complete(items.drop_last(), q, j);
        let k = choose|k: int| 0 <= k < pre.len() && pre[k] == j;
        assert(fi[k] == j);
    }
}

/// Filter correctness: an index appears in the filtered view exactly
/// when it is in range and the query matches that entry's search text.
pub proof fn lemma_filter_correct<T: ListEntry>(items: Seq<T>, q: Seq<char>, j: int)
    ensures
        filtered_idxs(items, q).contains(j) <==> (0 <= j < items.len() && is_fuzzy_match(
            q,
            items[j].search_spec(),
        )),
{
    if 0 <= j < items.len() && is_fuzzy_match(q, items[j].search_spec()) {
        lemma_filtered_complete(items, q, j);
    }
    if filtered_idxs(items, q).contains(j) {
        lemma_filtered_sound(items, q);
        let k = choose|k: int|
            0 <= k < filtered_idxs(items, q).len() && filtered_idxs(items, q)[k] == j;
        assert(0 <= filtered_idxs(items, q)[k] < items.len());
    }
}

/// The empty query retains every entry, in the original order.
pub proof fn lemma_filtered_empty_query<T: ListEntry>(items: Seq<T>, q: Seq<char>)
    requires
        q.len() == 0,
    ensures
        filtered_idxs(items, q).len() == items.len(),
        forall|k: int| 0 <= k < items.len() ==> #[trigger] filtered_idxs(items, q)[k] == k,
    decreases items.len(),
{
    if items.len() > 0 {
        lemma_filtered_empty_query(items.drop_last(), q);
    }
}

/// Appending one entry appends its index to the filtered view exactly
/// when the query matches it.
proof fn lemma_filtered_take_step<T: ListEntry>(items: Seq<T>, q: Seq<char>, i: int)
    requires
        0 <= i < items.len(),
    ensures
        filtered_idxs(items.take(i + 1), q) == filtered_idxs(items.take(i), q) + (
        if is_fuzzy_match(q, items[i].search_spec()) {
            seq![i]
        } else {
            Seq::<int>::empty()
        }),
{
    assert(items.take(i + 1).drop_last() =~= items.take(i));
    assert(items.take(i + 1).last() == items[i]);
}

/// An ordered, filterable, cursor-navigable list of entries.
///
/// `filtered` always holds `filtered_idxs(items, query)`, and the cursor
/// is 0 when the filtered view is empty and within it otherwise: that is
/// `wf`, which every method preserves.
pub struct FuzzyList<T> {
    pub title: &'static str,
    pub items: Vec<T>,
    pub query: String,
    pub filtered: Vec<usize>,
    pub cursor: usize,
}

impl<T: ListEntry> FuzzyList<T> {
    /// The filtered view this list must hold, derived from its entries
    /// and query.
    pub open spec fn spec_filtered(&self) -> Seq<int> {
        filtered_idxs(self.items@, self.query@)
    }

    /// Well-formed: the stored filtered view is the derived one, and the
    /// cursor is in range — 0 when the view is empty.
    pub open spec fn wf(&self) -> bool {
        &&& self.filtered@.len() == self.spec_filtered().len()
        &&& (forall|k: int|
            0 <= k < self.filtered@.len() ==> self.filtered@[k] as int == self.spec_filtered()[k])
        &&& (if self.spec_filtered().len() == 0 {
            self.cursor == 0
        } else {
            (self.cursor as int) < self.spec_filtered().len()
        })
    }

    /// The selected entry: the one at the cursor in the filtered view,
    /// or nothing when that view is empty.
    pub open spec fn spec_selected(&self) -> Option<T> {
        if self.spec_filtered().len() == 0 {
            Option::None
        } else {
            Option::Some(self.items@[self.spec_filtered()[self.cursor as int]])
        }
    }

    /// The cursor is unset exactly when the filtered view is empty, and
    /// otherwise lies within it.
    pub proof fn lemma_cursor_invariant(&self)
        requires
            self.wf(),
        ensures
            self.spec_selected() is None <==> self.spec_filtered().len() == 0,
            self.spec_filtered().len() > 0 ==> (self.cursor as int) < self.spec_filtered().len(),
    {
    }

    /// Two lists over the same entries and query, both refreshed (cursor
    /// at the top), show the same filtered view and cursor.
    pub proof fn lemma_refresh_idempotent(a: &FuzzyList<T>, b: &FuzzyList<T>)
        requires
            a.wf(),
            b.wf(),
            a.items@ == b.items@,
            a.query@ == b.query@,
            a.cursor == 0,
            b.cursor == 0,
        ensures
            a.filtered@ == b.filtered@,
            a.cursor == b.cursor,
            a.spec_selected() == b.spec_selected(),
    {
        assert(a.filtered@ =~= b.filtered@);
    }

    /// Nothing but the cursor differs between `pre` and `post`.
    pub open spec fn same_but_cursor(pre: Self, post: Self) -> bool {
        &&& post.title == pre.title
        &&& post.items == pre.items
        &&& post.query == pre.query
        &&& post.filtered == pre.filtered
    }

    /// `post` is `pre` after one step up.
    pub open spec fn stepped_up(pre: Self, post: Self) -> bool {
        &&& Self::same_but_cursor(pre, post)
        &&& post.cursor == if pre.cursor > 0 {
            (pre.cursor - 1) as usize
        } else {
            0usize
        }
    }

    /// `post` is `pre` after one step down.
    pub open spec fn stepped_down(pre: Self, post: Self) -> bool {
        &&& Self::same_but_cursor(pre, post)
        &&& post.cursor == if pre.cursor + 1 < pre.filtered@.len() {
            (pre.cursor + 1) as usize
        } else {
            pre.cursor
        }
    }

    /// `post` is `pre` after a page up of `n`.
    pub open spec fn paged_up(pre: Self, post: Self, n: usize) -> bool {
        &&& Self::same_but_cursor(pre, post)
        &&& post.cursor == if pre.cursor >= n {
            (pre.cursor - n) as usize
        } else {
            0usize
        }
    }

    /// `post` is `pre` after a page down of `n`.
    pub open spec fn paged_down(pre: Self, post: Self, n: usize) -> bool {
        &&& Self::same_but_cursor(pre, post)
        &&& post.cursor == if pre.filtered@.len() == 0 {
            pre.cursor
        } else if pre.cursor + n < pre.filtered@.len() {
            (pre.cursor + n) as usize
        } else {
            (pre.filtered@.len() - 1) as usize
        }
    }

    /// `post` is `pre` with its query replaced by `q` and refiltered:
    /// same entries, cursor back at the top, well-formed.
    pub open spec fn refiltered(pre: Self, post: Self, q: Seq<char>) -> bool {
        &&& post.title == pre.title
        &&& post.items == pre.items
        &&& post.query@ == q
        &&& post.cursor == 0
        &&& post.wf()
    }

    /// An empty list with the given title and an empty query.
    pub fn new(title: &'static str) -> (r: Self)
        ensures
            r.title == title,
            r.items@.len() == 0,
            r.query@.len() == 0,
            r.cursor == 0,
            r.wf(),
    {
        FuzzyList { title, items: Vec::new(), query: String::new(), filtered: Vec::new(), cursor: 0 }
    }

    /// Recompute the filtered view from the entries and query, and put
    /// the cursor back at the top.
    fn recompute(&mut self)
        ensures
            final(self).title == old(self).title,
            final(self).items == old(self).items,
            final(self).query == old(self).query,
            final(self).cursor == 0,
            final(self).wf(),
    {
        let mut filtered: Vec<usize> = Vec::new();
        let n = self.items.len();
        let mut i: usize = 0;
        proof {
            assert(self.items@.take(0) =~= Seq::<T>::empty());
        }
        while i < n
            invariant
                i <= n,
                n == self.items@.len(),
                filtered@.len() == filtered_idxs(self.items@.take(i as int), self.query@).len(),
                forall|k: int|
                    0 <= k < filtered@.len() ==> filtered@[k] as int == filtered_idxs(
                        self.items@.take(i as int),
                        self.query@,
                    )[k],
            decreases n - i,
        {
            let key = self.items[i].search_key();
            proof {
                lemma_filtered_take_step(self.items@, self.query@, i as int);
            }
            if fuzzy_match(self.query.as_str(), key.as_str()) {
                filtered.push(i);
            }
            i = i + 1;
        }
        proof {
            assert(self.items@.take(n as int) =~= self.items@);
        }
        self.filtered = filtered;
        self.cursor = 0;
    }

    /// Replace the entries wholesale, recompute the filtered view against
    /// the current query, and select the top of what remains.
    pub fn set_items(&mut self, items: Vec<T>)
        ensures
            final(self).title == old(self).title,
            final(self).items@ == items@,
            final(self).query == old(self).query,
            final(self).cursor == 0,
            final(self).wf(),
    {
        self.items = items;
        self.recompute();
    }

    /// Append one character to the query; the cursor returns to the top
    /// match.
    pub fn push_char(&mut self, c: char)
        ensures
            final(self).title == old(self).title,
            final(self).items == old(self).items,
            final(self).query@ == old(self).query@.push(c),
            final(self).cursor == 0,
            final(self).wf(),
    {
        crate::text::str_push(&mut self.query, c);
        self.recompute();
    }

    /// Drop the last character of the query, if any; the cursor returns
    /// to the top match.
    pub fn pop_char(&mut self)
        ensures
            final(self).title == old(self).title,
            final(self).items == old(self).items,
            final(self).query@ == if old(self).query@.len() == 0 {
                old(self).query@
            } else {
                old(self).query@.drop_last()
            },
            final(self).cursor == 0,
            final(self).wf(),
    {
        let _ = crate::text::str_pop(&mut self.query);
        self.recompute();
    }

    /// Empty the query: no filter, everything retained, cursor at the
    /// top.
    pub fn clear_query(&mut self)
        ensures
            final(self).title == old(self).title,
            final(self).items == old(self).items,
            final(self).query@ == Seq::<char>::empty(),
            final(self).cursor == 0,
            final(self).wf(),
    {
        self.query = String::new();
        proof {
            assert(self.query@ =~= Seq::<char>::empty());
        }
        self.recompute();
    }

    /// Move the cursor up one entry; it stays at the top end.
    pub fn move_up(&mut self)
        requires
            old(self).wf(),
        ensures
            final(self).title == old(self).title,
            final(self).items == old(self).items,
            final(self).query == old(self).query,
            final(self).filtered == old(self).filtered,
            final(self).cursor == if old(self).cursor > 0 {
                (old(self).cursor - 1) as usize
            } else {
                0usize
            },
            final(self).wf(),
    {
        if self.cursor > 0 {
            self.cursor = self.cursor - 1;
        }
    }

    /// Move the cursor down one entry; it stays at the bottom end.
    pub fn move_down(&mut self)
        requires
            old(self).wf(),
        ensures
            final(self).title == old(self).title,
            final(self).items == old(self).items,
            final(self).query == old(self).query,
            final(self).filtered == old(self).filtered,
            final(self).cursor == if old(self).cursor + 1 < old(self).filtered@.len() {
                (old(self).cursor + 1) as usize
            } else {
                old(self).cursor
            },
            final(self).wf(),
    {
        if self.filtered.len() > 0 && self.cursor + 1 < self.filtered.len() {
            self.cursor = self.cursor + 1;
        }
    }

    /// Move the cursor up by `n`, clamped at the top.
    pub fn page_up(&mut self, n: usize)
        requires
            old(self).wf(),
        ensures
            final(self).title == old(self).title,
            final(self).items == old(self).items,
            final(self).query == old(self).query,
            final(self).filtered == old(self).filtered,
            final(self).cursor == if old(self).cursor >= n {
                (old(self).cursor - n) as usize
            } else {
                0usize
            },
            final(self).wf(),
    {
        if self.cursor >= n {
            self.cursor = self.cursor - n;
        } else {
            self.cursor = 0;
        }
    }

    /// Move the cursor down by `n`, clamped at the bottom.
    pub fn page_down(&mut self, n: usize)
        requires
            old(self).wf(),
        ensures
            final(self).title == old(self).title,
            final(self).items == old(self).items,
            final(self).query == old(self).query,
            final(self).filtered == old(self).filtered,
            final(self).cursor == if old(self).filtered@.len() == 0 {
                old(self).cursor
            } else if old(self).cursor + n < old(self).filtered@.len() {
                (old(self).cursor + n) as usize
            } else {
                (old(self).filtered@.len() - 1) as usize
            },
            final(self).wf(),
    {
        let len = self.filtered.len();
        if len > 0 {
            let room = len - 1 - self.cursor;
            if n < room {
                self.cursor = self.cursor + n;
            } else {
                self.cursor = len - 1;
            }
        }
    }

    /// The entry at the cursor in the filtered view, or nothing when the
    /// view is empty.
    pub fn selected(&self) -> (r: Option<&T>)
        requires
            self.wf(),
        ensures
            r is Some <==> self.spec_selected() is Some,
            r matches Some(x) ==> Some(*x) == self.spec_selected(),
    {
        if self.filtered.len() == 0 {
            Option::None
        } else {
            proof {
                lemma_filtered_sound(self.items@, self.query@);
            }
            let idx = self.filtered[self.cursor];
            Option::Some(&self.items[idx])
        }
    }

    /// The current filter text.
    pub fn query(&self) -> (r: &str)
        ensures
            r@ == self.query@,
    {
        self.query.as_str()
    }

    /// Whether the filter text is empty.
    pub fn query_is_empty(&self) -> (r: bool)
        ensures
            r == (self.query@.len() == 0),
    {
        self.query.as_str().unicode_len() == 0
    }

    /// How many entries the filtered view holds.
    pub fn filtered_len(&self) -> (r: usize)
        ensures
            r == self.filtered@.len(),
    {
        self.filtered.len()
    }

    /// The entry at position `k` of the filtered view.
    pub fn filtered_item(&self, k: usize) -> (r: &T)
        requires
            self.wf(),
            k < self.filtered@.len(),
        ensures
            *r == self.items@[self.spec_filtered()[k as int]],
    {
        proof {
            lemma_filtered_sound(self.items@, self.query@);
        }
        let idx = self.filtered[k];
        &self.items[idx]
    }
}

} // verus!
