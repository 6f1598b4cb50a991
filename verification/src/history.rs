//! Linear back/forward history of page indices.
//!
//! A bounded history that never records the same page twice in a row:
//!
//! - `push` truncates the forward branch first, then appends the page unless
//!   it is already the last entry. Pushing the page under the cursor after a
//!   `back()` therefore *does* discard the forward branch, like a browser.
//! - `replace` swaps the entry under the cursor (forward branch discarded).
//! - When the bound is exceeded the oldest entry is forgotten.
//! - `[A, B, A]` is a valid history; only consecutive duplicates collapse.

use std::collections::VecDeque;
use vstd::prelude::*;

verus! {

/// The entries that survive the truncation of the forward branch: everything
/// up to and including the cursor.
pub open spec fn kept(entries: Seq<usize>, cursor: int) -> Seq<usize> {
    if entries.len() == 0 {
        entries
    } else {
        entries.take(cursor + 1)
    }
}

/// The entries after recording a visit to `page`.
pub open spec fn pushed(entries: Seq<usize>, cursor: int, max_len: int, page: usize) -> Seq<usize> {
    let base = kept(entries, cursor);
    if base.len() > 0 && base.last() == page {
        base
    } else if base.len() + 1 > max_len {
        base.push(page).drop_first()
    } else {
        base.push(page)
    }
}

/// The entries after the entry under the cursor is replaced by `page`.
pub open spec fn replaced(entries: Seq<usize>, cursor: int, max_len: int, page: usize) -> Seq<usize> {
    let base = kept(entries, cursor);
    let rest = if base.len() > 0 { base.drop_last() } else { base };
    pushed(rest, if rest.len() > 0 { rest.len() - 1 } else { 0 }, max_len, page)
}

/// No page occurs twice in a row.
pub open spec fn no_consecutive_duplicates(entries: Seq<usize>) -> bool {
    forall|i: int| 0 <= i < entries.len() - 1 ==> #[trigger] entries[i] != entries[i + 1]
}

/// The shape every history keeps: at least one slot, at most `max_len`
/// entries, a cursor on an entry (or at 0 when empty), and no consecutive
/// duplicates.
pub open spec fn history_wf(entries: Seq<usize>, cursor: int, max_len: int) -> bool {
    &&& max_len >= 1
    &&& entries.len() <= max_len
    &&& (entries.len() == 0 ==> cursor == 0)
    &&& (entries.len() > 0 ==> 0 <= cursor < entries.len())
    &&& no_consecutive_duplicates(entries)
}

/// Every entry of `entries` is below `bound`.
pub open spec fn all_below(entries: Seq<usize>, bound: int) -> bool {
    forall|i: int| 0 <= i < entries.len() ==> #[trigger] entries[i] < bound
}

/// Recording a visit keeps every entry below a bound the page is below.
pub proof fn lemma_pushed_below(entries: Seq<usize>, cursor: int, max_len: int, page: usize, bound: int)
    requires
        all_below(entries, bound),
        page < bound,
        0 <= cursor,
        entries.len() > 0 ==> cursor < entries.len(),
    ensures
        all_below(pushed(entries, cursor, max_len, page), bound),
{
    let base = kept(entries, cursor);
    assert(all_below(base, bound)) by {
        assert forall|i: int| 0 <= i < base.len() implies #[trigger] base[i] < bound by {
            assert(base[i] == entries[i]);
        }
    }
    let grown = base.push(page);
    assert(all_below(grown, bound)) by {
        assert forall|i: int| 0 <= i < grown.len() implies #[trigger] grown[i] < bound by {
            if i < base.len() {
                assert(grown[i] == base[i]);
            }
        }
    }
    if grown.len() > 0 {
        let dropped = grown.drop_first();
        assert(all_below(dropped, bound)) by {
            assert forall|i: int| 0 <= i < dropped.len() implies #[trigger] dropped[i] < bound by {
                assert(dropped[i] == grown[i + 1]);
            }
        }
    }
}

/// Replacing the current entry keeps every entry below a bound the page is
/// below.
pub proof fn lemma_replaced_below(entries: Seq<usize>, cursor: int, max_len: int, page: usize, bound: int)
    requires
        all_below(entries, bound),
        page < bound,
        0 <= cursor,
        entries.len() > 0 ==> cursor < entries.len(),
    ensures
        all_below(replaced(entries, cursor, max_len, page), bound),
{
    let base = kept(entries, cursor);
    let rest = if base.len() > 0 { base.drop_last() } else { base };
    assert(all_below(rest, bound)) by {
        assert forall|i: int| 0 <= i < rest.len() implies #[trigger] rest[i] < bound by {
            assert(rest[i] == entries[i]);
        }
    }
    lemma_pushed_below(rest, if rest.len() > 0 { rest.len() - 1 } else { 0 }, max_len, page, bound);
}

/// Recording the same page twice in a row records it once.
pub proof fn law_push_twice_is_push_once(entries: Seq<usize>, cursor: int, max_len: int, page: usize)
    requires
        history_wf(entries, cursor, max_len),
    ensures
        ({
            let once = pushed(entries, cursor, max_len, page);
            pushed(once, once.len() - 1, max_len, page) == once
        }),
{
    let once = pushed(entries, cursor, max_len, page);
    let base = kept(entries, cursor);
    if base.len() > 0 && base.last() == page {
    } else if base.len() + 1 > max_len {
        assert(once.last() == page);
    } else {
        assert(once.last() == page);
    }
    assert(once.len() > 0);
    assert(once.take(once.len() - 1 + 1) =~= once);
}

/// Replacing the current entry never makes the history longer than the
/// part up to the cursor was.
pub proof fn law_replace_never_grows(entries: Seq<usize>, cursor: int, max_len: int, page: usize)
    requires
        history_wf(entries, cursor, max_len),
    ensures
        replaced(entries, cursor, max_len, page).len() <= if entries.len() == 0 {
            1
        } else {
            cursor + 1
        },
{
    let base = kept(entries, cursor);
    let rest = if base.len() > 0 { base.drop_last() } else { base };
    let c = if rest.len() > 0 { rest.len() - 1 } else { 0 };
    if rest.len() > 0 {
        assert(rest.take(c + 1) =~= rest);
    }
}

/// A bounded history that never records the same page twice in a row.
#[derive(Debug)]
pub struct History {
    entries: VecDeque<usize>,
    cursor: usize,
    max_len: usize,
}

impl History {
    /// The recorded page indices, oldest first.
    pub closed spec fn entries(&self) -> Seq<usize> {
        self.entries@
    }

    /// Position of the current entry in [`entries`](Self::entries).
    pub closed spec fn cursor(&self) -> int {
        self.cursor as int
    }

    /// How many entries are kept at most.
    pub closed spec fn max_len(&self) -> int {
        self.max_len as int
    }

    /// The history invariant.
    pub open spec fn wf(&self) -> bool {
        history_wf(self.entries(), self.cursor(), self.max_len())
    }

    /// The page under the cursor, if any.
    pub open spec fn current_spec(&self) -> Option<usize> {
        if 0 <= self.cursor() < self.entries().len() {
            Some(self.entries()[self.cursor()])
        } else {
            None
        }
    }

    /// Creates an empty history that keeps at most `max_len` entries. A
    /// history keeps at least one entry, so a bound of 0 is a programming
    /// error (a caller that lets it through gets a bound of 1).
    pub fn new(max_len: usize) -> (h: Self)
        requires
            max_len > 0,
        ensures
            h.wf(),
            h.entries() == Seq::<usize>::empty(),
            h.cursor() == 0,
            h.max_len() == max_len,
    {
        let bound = if max_len == 0 { 1 } else { max_len };
        History { entries: VecDeque::new(), cursor: 0, max_len: bound }
    }

    /// How many entries are kept at most.
    pub fn capacity(&self) -> (n: usize)
        ensures
            n as int == self.max_len(),
    {
        self.max_len
    }

    /// Number of recorded entries.
    pub fn len(&self) -> (n: usize)
        ensures
            n as int == self.entries().len(),
    {
        self.entries.len()
    }

    /// Records a visit to `page`.
    pub fn push(&mut self, page: usize)
        requires
            old(self).wf(),
        ensures
            final(self).wf(),
            final(self).max_len() == old(self).max_len(),
            final(self).entries() == pushed(
                old(self).entries(),
                old(self).cursor(),
                old(self).max_len(),
                page,
            ),
            final(self).cursor() == final(self).entries().len() - 1,
            final(self).current_spec() == Some(page),
    {
        let ghost e0 = self.entries@;
        let ghost c0 = self.cursor as int;
        self.entries.truncate(self.cursor + 1);
        assert(self.entries@ == kept(e0, c0));
        let len = self.entries.len();
        if len > 0 && self.entries[len - 1] == page {
            assert(no_consecutive_duplicates(self.entries@)) by {
                assert forall|i: int| 0 <= i < self.entries@.len() - 1 implies #[trigger] self.entries@[i]
                    != self.entries@[i + 1] by {
                    assert(self.entries@[i] == e0[i]);
                    assert(self.entries@[i + 1] == e0[i + 1]);
                }
            }
            return;
        }
        let ghost base = self.entries@;
        self.entries.push_back(page);
        let ghost grown = self.entries@;
        assert(no_consecutive_duplicates(grown)) by {
            assert forall|i: int| 0 <= i < grown.len() - 1 implies #[trigger] grown[i] != grown[i
                + 1] by {
                if i + 1 < base.len() {
                    assert(grown[i] == e0[i]);
                    assert(grown[i + 1] == e0[i + 1]);
                } else {
                    assert(grown[i + 1] == page);
                    assert(grown[i] == base.last());
                }
            }
        }
        if self.entries.len() > self.max_len {
            let _ = self.entries.pop_front();
            assert(self.entries@ == grown.drop_first());
            assert(no_consecutive_duplicates(self.entries@)) by {
                assert forall|i: int| 0 <= i < self.entries@.len() - 1 implies #[trigger] self.entries@[i]
                    != self.entries@[i + 1] by {
                    assert(self.entries@[i] == grown[i + 1]);
                    assert(self.entries@[i + 1] == grown[i + 2]);
                }
            }
        }
        self.cursor = self.entries.len() - 1;
    }

    /// Replaces the entry under the cursor with `page`.
    pub fn replace(&mut self, page: usize)
        requires
            old(self).wf(),
        ensures
            final(self).wf(),
            final(self).max_len() == old(self).max_len(),
            final(self).entries() == replaced(
                old(self).entries(),
                old(self).cursor(),
                old(self).max_len(),
                page,
            ),
            final(self).cursor() == final(self).entries().len() - 1,
            final(self).current_spec() == Some(page),
    {
        let ghost e0 = self.entries@;
        let ghost c0 = self.cursor as int;
        self.entries.truncate(self.cursor + 1);
        assert(self.entries@ == kept(e0, c0));
        let ghost base = self.entries@;
        let _ = self.entries.pop_back();
        let ghost rest = self.entries@;
        assert(rest == if base.len() > 0 { base.drop_last() } else { base });
        let len = self.entries.len();
        self.cursor = if len > 0 { len - 1 } else { 0 };
        assert(no_consecutive_duplicates(rest)) by {
            assert forall|i: int| 0 <= i < rest.len() - 1 implies #[trigger] rest[i] != rest[i + 1] by {
                assert(rest[i] == e0[i]);
                assert(rest[i + 1] == e0[i + 1]);
            }
        }
        self.push(page);
    }

    /// The page under the cursor.
    pub fn current(&self) -> (page: Option<usize>)
        requires
            self.wf(),
        ensures
            page == self.current_spec(),
    {
        if self.cursor < self.entries.len() {
            Some(self.entries[self.cursor])
        } else {
            None
        }
    }

    /// Whether [`back`](Self::back) would move.
    pub fn can_go_back(&self) -> (can: bool)
        ensures
            can == (self.cursor() > 0),
    {
        self.cursor > 0
    }

    /// Whether [`forward`](Self::forward) would move.
    pub fn can_go_forward(&self) -> (can: bool)
        requires
            self.wf(),
        ensures
            can == (self.cursor() + 1 < self.entries().len()),
    {
        self.cursor + 1 < self.entries.len()
    }

    /// Moves the cursor one step back and returns the page there.
    pub fn back(&mut self) -> (page: Option<usize>)
        requires
            old(self).wf(),
        ensures
            final(self).wf(),
            final(self).entries() == old(self).entries(),
            final(self).max_len() == old(self).max_len(),
            old(self).cursor() > 0 ==> final(self).cursor() == old(self).cursor() - 1
                && page == Some(old(self).entries()[old(self).cursor() - 1]),
            old(self).cursor() == 0 ==> *final(self) == *old(self) && page is None,
            page == if old(self).cursor() > 0 { final(self).current_spec() } else { None },
    {
        if self.can_go_back() {
            self.cursor = self.cursor - 1;
            self.current()
        } else {
            None
        }
    }

    /// Moves the cursor one step forward and returns the page there.
    pub fn forward(&mut self) -> (page: Option<usize>)
        requires
            old(self).wf(),
        ensures
            final(self).wf(),
            final(self).entries() == old(self).entries(),
            final(self).max_len() == old(self).max_len(),
            old(self).cursor() + 1 < old(self).entries().len() ==> final(self).cursor()
                == old(self).cursor() + 1 && page == Some(
                old(self).entries()[old(self).cursor() + 1],
            ),
            !(old(self).cursor() + 1 < old(self).entries().len()) ==> *final(self) == *old(self)
                && page is None,
    {
        if self.can_go_forward() {
            self.cursor = self.cursor + 1;
            self.current()
        } else {
            None
        }
    }
}

} // verus!
