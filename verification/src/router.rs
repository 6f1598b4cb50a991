//! The router: a list of pages, one of which is current, with back/forward
//! history and the lifecycle of every page instance.
//!
//! # History
//!
//! - Bounded: the oldest entry is forgotten past the bound (default 50).
//! - The same page is never recorded twice in a row; navigating to the
//!   current page adds nothing.
//! - Any navigation discards the forward branch, also when the target is the
//!   page under the cursor after a `back`.
//! - `replace` swaps the current entry instead of adding one.
//!
//! # Messages
//!
//! A page message carries the index and *generation* of the instance that
//! produced it. It is delivered only to a live instance of that page with
//! that generation; a `Drop` page that is left gets a new generation, so a
//! message reaches exactly the instance that produced it, or nobody.
//!
//! # Snapshots
//!
//! A `Drop` page that is left hands its instance over and keeps what the
//! instance returns; the next instance of that page is restored from it.
//! Every hand-over is recorded, so what a rebuilt page gets back is the
//! latest snapshot it handed over.

use crate::error::NavigationError;
use crate::history::{all_below, lemma_pushed_below, lemma_replaced_below, pushed, replaced, History};
use crate::message::{same_type, Navigation, PageMessage, RouteMessage};
use crate::page::{
    handoff_page, lemma_pending_push_other, lemma_pending_untouched, pending, Call, Handoff,
    Journal, Lifecycle, PageFactory, PageInstance,
};
use std::any::TypeId;
use vstd::prelude::*;

verus! {

/// Entries a router's history keeps unless told otherwise.
pub const DEFAULT_HISTORY_LEN: usize = 50;

/// What the router knows about one page, apart from the instance itself.
#[derive(Debug, Clone, Copy, PartialEq, Eq)]
pub struct PageState {
    /// The page type's lifecycle.
    pub lifecycle: Lifecycle,
    /// Whether an instance exists right now.
    pub live: bool,
    /// Whether a snapshot waits for the next instance.
    pub has_snapshot: bool,
    /// Generation of the current (or next) instance.
    pub generation: u64,
    /// Whether the kept-alive instance was left and not yet returned to.
    pub suspended: bool,
}

/// What [`Router::pages`] yields for each page.
#[derive(Debug, Clone, Copy, PartialEq, Eq)]
#[non_exhaustive]
pub struct PageInfo<'a> {
    /// Position in the order pages were added.
    pub index: usize,
    /// The display name given to `add`.
    pub name: &'a str,
    /// Whether this is the current page.
    pub is_current: bool,
    /// The page type's lifecycle.
    pub lifecycle: Lifecycle,
}

/// The state of the page being left: a kept-alive page is marked suspended,
/// a dropped page loses its instance and moves to the next generation (its
/// snapshot is whatever the instance handed over, which is not modelled).
pub open spec fn left_state(s: PageState) -> PageState {
    match s.lifecycle {
        Lifecycle::Drop => if s.live {
            PageState {
                lifecycle: s.lifecycle,
                live: false,
                has_snapshot: s.has_snapshot,
                generation: vstd::wrapping::u64_specs::wrapping_add(s.generation, 1),
                suspended: s.suspended,
            }
        } else {
            s
        },
        _ => PageState {
            lifecycle: s.lifecycle,
            live: s.live,
            has_snapshot: s.has_snapshot,
            generation: s.generation,
            suspended: true,
        },
    }
}

/// The state of the page that becomes current: it has an instance, is not
/// suspended, and a snapshot was consumed if an instance had to be built.
pub open spec fn entered_state(s: PageState) -> PageState {
    PageState {
        lifecycle: s.lifecycle,
        live: true,
        has_snapshot: if s.live { s.has_snapshot } else { false },
        generation: s.generation,
        suspended: false,
    }
}

/// Equal except for whether a snapshot is stored.
pub open spec fn same_but_snapshot(a: PageState, b: PageState) -> bool {
    &&& a.lifecycle == b.lifecycle
    &&& a.live == b.live
    &&& a.generation == b.generation
    &&& a.suspended == b.suspended
}

/// The lifecycle calls of leaving page `from`.
pub open spec fn leave_calls(states: Seq<PageState>, from: Option<usize>) -> Seq<Call> {
    match from {
        Some(f) => if 0 <= f < states.len() && states[f as int].live {
            match states[f as int].lifecycle {
                Lifecycle::Drop => seq![Call::Snapshot(f)],
                _ => seq![Call::Suspend(f)],
            }
        } else {
            Seq::empty()
        },
        None => Seq::empty(),
    }
}

/// The lifecycle calls of making page `to` current, in order: leave the
/// current page; build (and restore) or resume the target; enter it.
/// Nothing when `to` is already current.
pub open spec fn activation_calls(states: Seq<PageState>, current: Option<usize>, to: usize) -> Seq<
    Call,
> {
    if current == Some(to) {
        Seq::empty()
    } else {
        let t = states[to as int];
        let arrive = if !t.live {
            if t.has_snapshot {
                seq![Call::Build(to, t.generation), Call::Restore(to)]
            } else {
                seq![Call::Build(to, t.generation)]
            }
        } else if t.suspended {
            seq![Call::Resume(to)]
        } else {
            Seq::empty()
        };
        leave_calls(states, current) + arrive + seq![Call::Enter(to)]
    }
}

/// `post` is `pre` after page `to` was made current (page states only).
pub open spec fn states_activated(
    pre: Seq<PageState>,
    pre_current: Option<usize>,
    post: Seq<PageState>,
    to: usize,
) -> bool {
    &&& post.len() == pre.len()
    &&& if pre_current == Some(to) {
        post == pre
    } else {
        &&& forall|i: int|
            0 <= i < pre.len() && i != to && Some(i as usize) != pre_current ==> #[trigger] post[i]
                == pre[i]
        &&& post[to as int] == entered_state(pre[to as int])
        &&& match pre_current {
            Some(f) => {
                &&& same_but_snapshot(post[f as int], left_state(pre[f as int]))
                &&& (pre[f as int].lifecycle != Lifecycle::Drop || !pre[f as int].live)
                    ==> post[f as int] == left_state(pre[f as int])
            },
            None => true,
        }
    }
}

/// The last position of `key` in `keys`.
pub open spec fn last_index(keys: Seq<TypeId>, key: TypeId) -> Option<usize>
    decreases keys.len(),
{
    if keys.len() == 0 {
        None
    } else if keys.last() == key {
        Some((keys.len() - 1) as usize)
    } else {
        last_index(keys.drop_last(), key)
    }
}

/// In a sequence where `key` occurs at most once, `last_index` finds it
/// exactly where it is, and finds nothing where it is not.
pub proof fn lemma_last_index(keys: Seq<TypeId>, key: TypeId)
    requires
        keys.len() <= usize::MAX,
    ensures
        match last_index(keys, key) {
            Some(i) => i < keys.len() && keys[i as int] == key && forall|j: int|
                i < j < keys.len() ==> keys[j] != key,
            None => forall|j: int| 0 <= j < keys.len() ==> keys[j] != key,
        },
    decreases keys.len(),
{
    if keys.len() > 0 && keys.last() != key {
        lemma_last_index(keys.drop_last(), key);
        assert forall|j: int| 0 <= j < keys.len() - 1 implies keys.drop_last()[j] == keys[j] by {}
    }
}

/// One page of a router.
struct Entry<F, I, S> {
    key: TypeId,
    name: String,
    factory: F,
    lifecycle: Lifecycle,
    instance: Option<I>,
    snapshot: Option<S>,
    generation: u64,
    suspended: bool,
}

impl<F, I, S> Entry<F, I, S> {
    spec fn state(&self) -> PageState {
        PageState {
            lifecycle: self.lifecycle,
            live: self.instance is Some,
            has_snapshot: self.snapshot is Some,
            generation: self.generation,
            suspended: self.suspended,
        }
    }
}

/// A list of pages, one of which is current, with back/forward history.
///
/// `C` is handed to every page's factory; `F` builds the instances. There
/// is no page until the first navigation.
pub struct Router<C, F: PageFactory<C>> {
    pages: Vec<
        Entry<F, F::Instance, <<F as PageFactory<C>>::Instance as PageInstance>::Snapshot>,
    >,
    current: Option<usize>,
    history: History,
    mouse_navigation: bool,
    context: C,
    journal: Journal<
        <<F as PageFactory<C>>::Instance as PageInstance>::Options,
        <<F as PageFactory<C>>::Instance as PageInstance>::Snapshot,
    >,
}

impl<C, F: PageFactory<C>> Router<C, F> {
    /// Number of pages added.
    pub closed spec fn page_count(&self) -> nat {
        self.pages@.len()
    }

    /// What the router knows about page `i`.
    pub closed spec fn state(&self, i: int) -> PageState {
        self.pages@[i].state()
    }

    /// What the router knows about every page, in the order they were added.
    pub open spec fn states(&self) -> Seq<PageState> {
        Seq::new(self.page_count(), |i: int| self.state(i))
    }

    /// The page type of page `i`.
    pub closed spec fn key(&self, i: int) -> TypeId {
        self.pages@[i].key
    }

    /// The display name of page `i`.
    pub closed spec fn name(&self, i: int) -> Seq<char> {
        self.pages@[i].name@
    }

    /// Index of the current page.
    pub closed spec fn current_page(&self) -> Option<usize> {
        self.current
    }

    /// The history.
    pub closed spec fn history(&self) -> History {
        self.history
    }

    /// Whether mouse back/forward buttons move through the history.
    pub closed spec fn mouse_navigation_spec(&self) -> bool {
        self.mouse_navigation
    }

    /// The context handed to every factory.
    pub closed spec fn context_spec(&self) -> C {
        self.context
    }

    /// Every lifecycle call made so far, in order.
    pub closed spec fn calls(&self) -> Seq<Call> {
        self.journal.calls()
    }

    /// Every hand-over of a dropped page's state so far, in order.
    pub closed spec fn handoffs(&self) -> Seq<Handoff<SnapshotOf<C, F>>> {
        self.journal.handoffs()
    }

    /// The navigation each delivered message's page asked for (or `None`),
    /// in delivery order.
    pub closed spec fn asked(&self) -> Seq<Option<Navigation<OptionsOf<C, F>>>> {
        self.journal.asked()
    }

    /// The instance of page `i`, if it has one right now.
    pub closed spec fn instance_of(&self, i: int) -> Option<F::Instance> {
        self.pages@[i].instance
    }

    /// The snapshot stored for page `i`'s next instance, if any.
    pub closed spec fn stored_snapshot(&self, i: int) -> Option<SnapshotOf<C, F>> {
        self.pages@[i].snapshot
    }

    /// The snapshot stored for every page, in the order pages were added.
    pub open spec fn stored_snapshots(&self) -> Seq<Option<SnapshotOf<C, F>>> {
        Seq::new(self.page_count(), |i: int| self.stored_snapshot(i))
    }

    /// The page types, in the order pages were added.
    pub open spec fn keys(&self) -> Seq<TypeId> {
        Seq::new(self.page_count(), |i: int| self.key(i))
    }

    /// The index of the page of type `key`, if it was added.
    pub open spec fn index_spec(&self, key: TypeId) -> Option<usize> {
        last_index(self.keys(), key)
    }

    /// In a well-formed router every page type occurs once, so the index
    /// of a page type is the one page that has it, and there is none when
    /// no page has it.
    pub proof fn lemma_index_spec(&self, key: TypeId)
        requires
            self.wf(),
        ensures
            forall|i: int|
                0 <= i < self.page_count() && #[trigger] self.key(i) == key ==> self.index_spec(
                    key,
                ) == Some(i as usize),
            self.index_spec(key) is None <==> forall|i: int|
                0 <= i < self.page_count() ==> #[trigger] self.key(i) != key,
            self.index_spec(key) matches Some(i) ==> i < self.page_count() && self.key(i as int)
                == key,
    {
        assert(self.pages.len() == self.pages@.len());
        lemma_last_index(self.keys(), key);
        assert forall|i: int|
            0 <= i < self.page_count() && #[trigger] self.key(i) == key implies self.index_spec(
            key,
        ) == Some(i as usize) by {
            assert(self.keys()[i] == key);
            match last_index(self.keys(), key) {
                Some(k) => {
                    if (k as int) != i {
                        if (k as int) < i {
                            assert(self.pages@[k as int].key != self.pages@[i].key);
                        } else {
                            assert(self.pages@[i].key != self.pages@[k as int].key);
                        }
                    }
                },
                None => {},
            }
        }
        if last_index(self.keys(), key) is None {
            assert forall|i: int| 0 <= i < self.page_count() implies #[trigger] self.key(i) != key by {
                assert(self.keys()[i] == self.key(i));
            }
        } else {
            let k = last_index(self.keys(), key)->0;
            assert(self.keys()[k as int] == self.key(k as int));
        }
    }

    /// The router invariant: the part about the history is open, the rest
    /// about the pages and instances is [`inv`](Self::inv).
    pub open spec fn wf(&self) -> bool {
        &&& self.inv()
        &&& self.history().wf()
        &&& forall|i: int|
            0 <= i < self.history().entries().len() ==> #[trigger] self.history().entries()[i]
                < self.page_count()
    }

    /// What the router keeps about its pages, instances and logs.
    pub closed spec fn inv(&self) -> bool {
        &&& self.history.wf()
        &&& forall|i: int|
            0 <= i < self.history.entries().len() ==> #[trigger] self.history.entries()[i]
                < self.pages@.len()
        &&& forall|i: int, j: int|
            0 <= i < j < self.pages@.len() ==> #[trigger] self.pages@[i].key
                != #[trigger] self.pages@[j].key
        &&& forall|i: int|
            0 <= i < self.pages@.len() && #[trigger] self.pages@[i].lifecycle
                == Lifecycle::Resident ==> self.pages@[i].instance is Some
        &&& forall|i: int|
            0 <= i < self.pages@.len() && #[trigger] self.pages@[i].lifecycle == Lifecycle::Drop
                && self.current != Some(i as usize) ==> self.pages@[i].instance is None
        &&& forall|i: int|
            0 <= i < self.pages@.len() && #[trigger] self.pages@[i].suspended ==> self.current
                != Some(i as usize)
        &&& match self.current {
            Some(c) => c < self.pages@.len() && self.pages@[c as int].instance is Some,
            None => true,
        }
        &&& forall|i: int|
            0 <= i < self.pages@.len() ==> #[trigger] self.pages@[i].snapshot == pending(
                self.journal.handoffs(),
                i as usize,
            )
        &&& forall|k: int|
            0 <= k < self.journal.handoffs().len() ==> handoff_page(#[trigger] self.journal.handoffs()[k])
                < self.pages@.len()
    }

    /// A router with no pages.
    pub fn new(context: C) -> (router: Self)
        ensures
            router.wf(),
            router.page_count() == 0,
            router.current_page() is None,
            router.history().entries() == Seq::<usize>::empty(),
            router.history().max_len() == DEFAULT_HISTORY_LEN,
            router.mouse_navigation_spec(),
            router.context_spec() == context,
            router.calls() == Seq::<Call>::empty(),
            router.handoffs() == Seq::<Handoff<SnapshotOf<C, F>>>::empty(),
            router.asked() == Seq::<Option<Navigation<OptionsOf<C, F>>>>::empty(),
    {
        Router {
            pages: Vec::new(),
            current: None,
            history: History::new(DEFAULT_HISTORY_LEN),
            mouse_navigation: true,
            context,
            journal: Journal::new(),
        }
    }

    /// Whether the mouse back/forward buttons move through the history.
    pub fn mouse_navigation(self, enabled: bool) -> (router: Self)
        requires
            self.wf(),
        ensures
            router.wf(),
            router.mouse_navigation_spec() == enabled,
            router.page_count() == self.page_count(),
            forall|i: int|
                0 <= i < self.page_count() ==> router.key(i) == self.key(i) && router.name(i)
                    == self.name(i) && router.stored_snapshot(i) == self.stored_snapshot(i),
            router.states() == self.states(),
            router.current_page() == self.current_page(),
            router.history() == self.history(),
            router.context_spec() == self.context_spec(),
            router.calls() == self.calls(),
            router.handoffs() == self.handoffs(),
            router.asked() == self.asked(),
    {
        let mut router = self;
        router.mouse_navigation = enabled;
        router
    }

    /// Whether the mouse back/forward buttons move through the history.
    pub fn mouse_navigation_enabled(&self) -> (enabled: bool)
        ensures
            enabled == self.mouse_navigation_spec(),
    {
        self.mouse_navigation
    }

    /// How many history entries to keep (at least one); replaces the
    /// history with an empty one, so call it before the first navigation.
    pub fn history_len(self, len: usize) -> (router: Self)
        requires
            self.wf(),
            len > 0,
        ensures
            router.wf(),
            router.history().entries() == Seq::<usize>::empty(),
            router.history().max_len() == len,
            router.states() == self.states(),
            router.current_page() == self.current_page(),
            router.mouse_navigation_spec() == self.mouse_navigation_spec(),
            router.page_count() == self.page_count(),
            forall|i: int|
                0 <= i < self.page_count() ==> router.key(i) == self.key(i) && router.name(i)
                    == self.name(i) && router.stored_snapshot(i) == self.stored_snapshot(i),
            router.context_spec() == self.context_spec(),
            router.calls() == self.calls(),
            router.handoffs() == self.handoffs(),
            router.asked() == self.asked(),
    {
        let mut router = self;
        router.history = History::new(len);
        router
    }

    /// The context handed to every page.
    pub fn context(&self) -> (context: &C)
        ensures
            *context == self.context_spec(),
    {
        &self.context
    }

    /// Index of the current page, `None` before the first navigation.
    pub fn current(&self) -> (current: Option<usize>)
        ensures
            current == self.current_page(),
    {
        self.current
    }

    /// How many pages were added.
    pub fn len(&self) -> (n: usize)
        ensures
            n == self.page_count(),
    {
        self.pages.len()
    }

    /// Index of the page of type `key`, if added.
    pub fn index_of(&self, key: &TypeId) -> (index: Option<usize>)
        requires
            self.wf(),
        ensures
            index == self.index_spec(*key),
            index matches Some(i) ==> i < self.page_count() && self.key(i as int) == *key,
            index is None ==> forall|i: int| 0 <= i < self.page_count() ==> self.key(i) != *key,
    {
        let n = self.pages.len();
        let mut i: usize = 0;
        while i < n
            invariant
                self.wf(),
                n == self.pages@.len(),
                i <= n,
                forall|j: int| 0 <= j < i ==> self.pages@[j].key != *key,
            decreases n - i,
        {
            if same_type(&self.pages[i].key, key) {
                proof {
                    lemma_last_index(self.keys(), *key);
                    assert(self.keys()[i as int] == *key);
                    match last_index(self.keys(), *key) {
                        Some(k) => {
                            if (k as int) != (i as int) {
                                assert(self.pages@[i as int].key != self.pages@[k as int].key);
                            }
                        },
                        None => {},
                    }
                }
                return Some(i);
            }
            i = i + 1;
        }
        proof {
            lemma_last_index(self.keys(), *key);
            if last_index(self.keys(), *key) is Some {
                let k = last_index(self.keys(), *key)->0;
                assert(self.keys()[k as int] == self.pages@[k as int].key);
            }
        }
        None
    }

    /// Whether `back` would move.
    pub fn can_go_back(&self) -> (can: bool)
        ensures
            can == (self.history().cursor() > 0),
    {
        self.history.can_go_back()
    }

    /// Whether `forward` would move.
    pub fn can_go_forward(&self) -> (can: bool)
        requires
            self.wf(),
        ensures
            can == (self.history().cursor() + 1 < self.history().entries().len()),
    {
        self.history.can_go_forward()
    }
}


impl<C, F: PageFactory<C>> Router<C, F> {
    /// Makes `to` current without touching the history. No-op if it already
    /// is.
    fn activate(&mut self, to: usize)
        requires
            old(self).wf(),
            to < old(self).page_count(),
        ensures
            final(self).wf(),
            final(self).page_count() == old(self).page_count(),
            forall|i: int|
                0 <= i < old(self).page_count() ==> final(self).key(i) == old(self).key(i)
                    && final(self).name(i) == old(self).name(i),
            states_activated(old(self).states(), old(self).current_page(), final(self).states(), to),
            final(self).current_page() == Some(to),
            final(self).history() == old(self).history(),
            final(self).mouse_navigation_spec() == old(self).mouse_navigation_spec(),
            final(self).context_spec() == old(self).context_spec(),
            final(self).calls() == old(self).calls() + activation_calls(
                old(self).states(),
                old(self).current_page(),
                to,
            ),
            final(self).handoffs() == old(self).handoffs() + Self::activation_handoffs(
                old(self),
                final(self),
                to,
            ),
            final(self).asked() == old(self).asked(),
    {
        let ghost pre = *self;
        let ghost pre_states = self.states();
        if let Some(c) = self.current {
            if c == to {
                assert(self.journal.calls() == self.journal.calls() + Seq::<Call>::empty());
                assert(self.states() =~= pre_states);
                return;
            }
        }
        if let Some(from) = self.current {
            match self.pages[from].lifecycle {
                Lifecycle::Drop => {
                    let taken = self.pages[from].instance.take();
                    if let Some(instance) = taken {
                        let snapshot = self.journal.snapshot(instance, from);
                        let ghost kept = snapshot;
                        self.pages[from].snapshot = snapshot;
                        let next = self.pages[from].generation.wrapping_add(1);
                        self.pages[from].generation = next;
                        proof {
                            assert forall|i: int| 0 <= i < self.pages@.len() implies #[trigger]
                                self.pages@[i].snapshot == pending(self.journal.handoffs(), i as usize) by {
                                assert(self.pages@.len() == self.pages.len());
                                assert((i as usize) as int == i);
                                if i != from as int {
                                    lemma_pending_push_other(
                                        pre.journal.handoffs(),
                                        Handoff::Taken(from, kept),
                                        i as usize,
                                    );
                                    assert(self.pages@[i] == pre.pages@[i]);
                                }
                            }
                        }
                    }
                    assert(self.pages@[from as int].instance is None);
                },
                _ => {
                    if let Some(instance) = &mut self.pages[from].instance {
                        self.journal.suspend(instance, from);
                    }
                    self.pages[from].suspended = true;
                },
            }
        }
        assert(pre.current != Some(to));
        let ghost after_leave = self.pages@;
        assert(pre.current matches Some(f) ==> {
            &&& (after_leave[f as int].lifecycle == Lifecycle::Drop ==> after_leave[f as int].instance is None)
            &&& after_leave[f as int].lifecycle == pre.pages@[f as int].lifecycle
        });
        assert(forall|i: int| 0 <= i < after_leave.len() && Some(i as usize) != pre.current ==>
            after_leave[i] == pre.pages@[i]);
        let ghost mid = self.journal.calls();
        assert(mid == pre.journal.calls() + leave_calls(pre_states, pre.current));
        if self.pages[to].instance.is_none() {
            let generation = self.pages[to].generation;
            let mut instance = self.journal.build(&self.pages[to].factory, &self.context, to, generation);
            let ghost log_before = self.journal.handoffs();
            let snapshot = self.pages[to].snapshot.take();
            if let Some(snapshot) = snapshot {
                let ghost handed = snapshot;
                self.journal.restore(&mut instance, to, snapshot);
                proof {
                    assert forall|i: int| 0 <= i < self.pages@.len() && i != to as int implies
                        #[trigger] pending(self.journal.handoffs(), i as usize) == pending(log_before, i as usize) by {
                        assert(self.pages@.len() == self.pages.len());
                        assert((i as usize) as int == i);
                        lemma_pending_push_other(log_before, Handoff::Restored(to, handed), i as usize);
                    }
                }
            }
            self.pages[to].instance = Some(instance);
        } else if self.pages[to].suspended {
            if let Some(instance) = &mut self.pages[to].instance {
                self.journal.resume(instance, to);
            }
        }
        self.pages[to].suspended = false;
        self.current = Some(to);
        if let Some(instance) = &mut self.pages[to].instance {
            self.journal.enter(instance, to);
        }
        assert(!self.pages@[to as int].suspended);
        assert(self.current == Some(to));
        assert(self.pages@.len() == after_leave.len());
        assert(forall|i: int| 0 <= i < self.pages@.len() && i != to ==> self.pages@[i] == after_leave[i]);
        assert forall|i: int| 0 <= i < self.pages@.len() && i != to && Some(i as usize) != pre.current
            implies self.pages@[i] == pre.pages@[i] by {}
        assert forall|i: int| 0 <= i < self.pages@.len() implies #[trigger] self.pages@[i].key
            == pre.pages@[i].key && self.pages@[i].lifecycle == pre.pages@[i].lifecycle by {}
        assert(forall|i: int, j: int|
            0 <= i < j < self.pages@.len() ==> #[trigger] self.pages@[i].key
                != #[trigger] self.pages@[j].key);
        assert forall|i: int|
            0 <= i < self.pages@.len() && #[trigger] self.pages@[i].lifecycle == Lifecycle::Drop
                && self.current != Some(i as usize) implies self.pages@[i].instance is None by {
            assert(self.pages@.len() == self.pages.len());
            assert((i as usize) as int == i);
            assert(i != to);
            assert(self.pages@[i] == after_leave[i]);
            match pre.current {
                Some(f) => {
                    if i != f as int {
                        assert(after_leave[i] == pre.pages@[i]);
                    }
                },
                None => {
                    assert(after_leave[i] == pre.pages@[i]);
                },
            }
        }
        assert forall|i: int|
            0 <= i < self.pages@.len() && #[trigger] self.pages@[i].suspended implies self.current
                != Some(i as usize) by {
            assert(self.pages@.len() == self.pages.len());
            assert((i as usize) as int == i);
            if i != to {
                assert(self.pages@[i] == after_leave[i]);
            }
        }
        assert forall|i: int| 0 <= i < self.pages@.len() implies #[trigger] self.pages@[i].snapshot
            == pending(self.journal.handoffs(), i as usize) by {
            assert(self.pages@.len() == self.pages.len());
            assert((i as usize) as int == i);
            if i != to {
                assert(self.pages@[i] == after_leave[i]);
            }
        }
        assert(self.journal.handoffs() =~= pre.journal.handoffs() + Self::activation_handoffs(&pre, self, to));
    }
}


/// What a dropped page of a router keeps for its next instance.
pub type SnapshotOf<C, F> = <<F as PageFactory<C>>::Instance as PageInstance>::Snapshot;

/// The options a navigation carries for the pages of a router.
pub type OptionsOf<C, F> = <<F as PageFactory<C>>::Instance as PageInstance>::Options;

/// The messages the pages of a router handle.
pub type MessageOf<C, F> = <<F as PageFactory<C>>::Instance as PageInstance>::Message;

/// What handling a page message produces.
pub type OutputOf<C, F> = <<F as PageFactory<C>>::Instance as PageInstance>::Output;

impl<C, F: PageFactory<C>> Router<C, F> {
    /// Same pages, names, settings and context.
    pub open spec fn same_pages(pre: &Self, post: &Self) -> bool {
        &&& post.page_count() == pre.page_count()
        &&& forall|i: int|
            0 <= i < pre.page_count() ==> post.key(i) == pre.key(i) && post.name(i) == pre.name(i)
        &&& post.mouse_navigation_spec() == pre.mouse_navigation_spec()
        &&& post.context_spec() == pre.context_spec()
        &&& post.asked() == pre.asked()
    }

    /// `post` is `pre` after a message was handed to the instance of page
    /// `id`, which asked for `navigation`: one `Update` call is recorded and
    /// so is the navigation; nothing else the router tracks changed.
    pub open spec fn delivered(
        pre: &Self,
        post: &Self,
        id: usize,
        navigation: Option<Navigation<OptionsOf<C, F>>>,
    ) -> bool {
        &&& post.page_count() == pre.page_count()
        &&& forall|i: int|
            0 <= i < pre.page_count() ==> post.key(i) == pre.key(i) && post.name(i) == pre.name(i)
        &&& post.mouse_navigation_spec() == pre.mouse_navigation_spec()
        &&& post.context_spec() == pre.context_spec()
        &&& post.states() =~= pre.states()
        &&& post.stored_snapshots() =~= pre.stored_snapshots()
        &&& post.current_page() == pre.current_page()
        &&& post.history() == pre.history()
        &&& post.handoffs() == pre.handoffs()
        &&& post.calls() == pre.calls().push(Call::Update(id))
        &&& post.asked() == pre.asked().push(navigation)
    }

    /// Nothing the router tracks changed.
    pub open spec fn unchanged(pre: &Self, post: &Self) -> bool {
        &&& Self::same_pages(pre, post)
        &&& post.states() =~= pre.states()
        &&& post.current_page() == pre.current_page()
        &&& post.history() == pre.history()
        &&& post.calls() == pre.calls()
        &&& post.handoffs() == pre.handoffs()
        &&& post.stored_snapshots() =~= pre.stored_snapshots()
    }

    /// The hand-overs of making page `to` current, in order: a dropped page
    /// that is left hands over what it keeps (now stored for it); a page
    /// that is rebuilt gets back what was stored for it. Nothing when `to`
    /// is already current.
    pub open spec fn activation_handoffs(pre: &Self, post: &Self, to: usize) -> Seq<
        Handoff<SnapshotOf<C, F>>,
    > {
        if pre.current_page() == Some(to) {
            Seq::empty()
        } else {
            let leave = match pre.current_page() {
                Some(f) => if pre.states()[f as int].live && pre.states()[f as int].lifecycle
                    == Lifecycle::Drop {
                    seq![Handoff::Taken(f, post.stored_snapshots()[f as int])]
                } else {
                    Seq::empty()
                },
                None => Seq::empty(),
            };
            let arrive = if !pre.states()[to as int].live && pre.stored_snapshots()[to as int] is Some {
                seq![Handoff::Restored(to, pre.stored_snapshots()[to as int]->0)]
            } else {
                Seq::empty()
            };
            leave + arrive
        }
    }

    /// `post` is `pre` after page `to` was made current and recorded in the
    /// history; `navigate` says whether options were delivered to it.
    pub open spec fn visited(pre: &Self, post: &Self, to: usize, navigate: bool) -> bool {
        &&& Self::same_pages(pre, post)
        &&& states_activated(pre.states(), pre.current_page(), post.states(), to)
        &&& post.current_page() == Some(to)
        &&& post.history().max_len() == pre.history().max_len()
        &&& post.history().entries() == pushed(
            pre.history().entries(),
            pre.history().cursor(),
            pre.history().max_len(),
            to,
        )
        &&& post.history().cursor() == post.history().entries().len() - 1
        &&& post.calls() == pre.calls() + activation_calls(pre.states(), pre.current_page(), to) + (
        if navigate {
            seq![Call::Navigate(to)]
        } else {
            Seq::empty()
        })
        &&& post.handoffs() == pre.handoffs() + Self::activation_handoffs(pre, post, to)
    }

    /// `post` is `pre` after page `to` was made current, replacing the
    /// current history entry.
    pub open spec fn replaced_with(pre: &Self, post: &Self, to: usize) -> bool {
        &&& Self::same_pages(pre, post)
        &&& states_activated(pre.states(), pre.current_page(), post.states(), to)
        &&& post.current_page() == Some(to)
        &&& post.history().max_len() == pre.history().max_len()
        &&& post.history().entries() == replaced(
            pre.history().entries(),
            pre.history().cursor(),
            pre.history().max_len(),
            to,
        )
        &&& post.history().cursor() == post.history().entries().len() - 1
        &&& post.calls() == pre.calls() + activation_calls(pre.states(), pre.current_page(), to)
        &&& post.handoffs() == pre.handoffs() + Self::activation_handoffs(pre, post, to)
    }

    /// `post` is `pre` after the history cursor moved to `cursor` and the
    /// page recorded there was made current.
    pub open spec fn moved(pre: &Self, post: &Self, cursor: int) -> bool {
        let to = pre.history().entries()[cursor];
        &&& Self::same_pages(pre, post)
        &&& states_activated(pre.states(), pre.current_page(), post.states(), to)
        &&& post.current_page() == Some(to)
        &&& post.history().max_len() == pre.history().max_len()
        &&& post.history().entries() == pre.history().entries()
        &&& post.history().cursor() == cursor
        &&& post.calls() == pre.calls() + activation_calls(pre.states(), pre.current_page(), to)
        &&& post.handoffs() == pre.handoffs() + Self::activation_handoffs(pre, post, to)
    }

    /// `post` is `pre` after one step back: moved if the cursor can go back,
    /// unchanged otherwise.
    pub open spec fn stepped_back(pre: &Self, post: &Self, page: Option<usize>) -> bool {
        if pre.history().cursor() > 0 {
            &&& Self::moved(pre, post, pre.history().cursor() - 1)
            &&& page == Some(pre.history().entries()[pre.history().cursor() - 1])
        } else {
            &&& Self::unchanged(pre, post)
            &&& page is None
        }
    }

    /// `post` is `pre` after one step forward: moved if the cursor can go
    /// forward, unchanged otherwise.
    pub open spec fn stepped_forward(pre: &Self, post: &Self, page: Option<usize>) -> bool {
        if pre.history().cursor() + 1 < pre.history().entries().len() {
            &&& Self::moved(pre, post, pre.history().cursor() + 1)
            &&& page == Some(pre.history().entries()[pre.history().cursor() + 1])
        } else {
            &&& Self::unchanged(pre, post)
            &&& page is None
        }
    }

    /// Makes `to` current, delivers `options`, and records the visit.
    fn visit(&mut self, to: usize, options: Option<OptionsOf<C, F>>)
        requires
            old(self).wf(),
            to < old(self).page_count(),
        ensures
            final(self).wf(),
            Self::visited(old(self), final(self), to, options is Some),
    {
        let ghost pre = *self;
        self.activate(to);
        let ghost mid = *self;
        let has_options = options.is_some();
        if let Some(options) = options {
            if let Some(instance) = &mut self.pages[to].instance {
                self.journal.navigate(instance, to, &options);
            }
        }
        assert(self.pages@.len() == mid.pages@.len());
        assert forall|i: int| 0 <= i < self.pages@.len() implies #[trigger] self.pages@[i].state()
            == mid.pages@[i].state() && self.pages@[i].key == mid.pages@[i].key
            && self.pages@[i].name == mid.pages@[i].name && self.pages@[i].lifecycle
            == mid.pages@[i].lifecycle && self.pages@[i].suspended == mid.pages@[i].suspended && (
            self.pages@[i].instance is Some) == (mid.pages@[i].instance is Some) by {}
        assert(self.states() =~= mid.states());
        proof {
            lemma_pushed_below(
                self.history.entries(),
                self.history.cursor(),
                self.history.max_len(),
                to,
                self.pages@.len() as int,
            );
        }
        self.history.push(to);
        assert(self.journal.calls() =~= pre.journal.calls() + activation_calls(pre.states(), pre.current, to) + (
        if has_options {
            seq![Call::Navigate(to)]
        } else {
            Seq::empty()
        }));
        assert(self.states() =~= mid.states());
    }

    /// Navigates to the page of type `key`, records it in the history and
    /// returns its index. Refused, with nothing changed, if the page was
    /// never added.
    pub fn navigate(&mut self, key: &TypeId, page_type: &'static str) -> (result: Result<
        usize,
        NavigationError,
    >)
        requires
            old(self).wf(),
        ensures
            final(self).wf(),
            match result {
                Ok(id) => old(self).index_spec(*key) == Some(id) && Self::visited(
                    old(self),
                    final(self),
                    id,
                    false,
                ),
                Err(e) => old(self).index_spec(*key) is None && e == (NavigationError::UnknownPage {
                    page_type,
                }) && Self::unchanged(old(self), final(self)),
            },
    {
        match self.index_of(key) {
            Some(id) => {
                self.visit(id, None);
                Ok(id)
            },
            None => Err(NavigationError::UnknownPage { page_type }),
        }
    }

    /// Like [`navigate`](Self::navigate), with options for the page's
    /// `on_navigate`; delivers them even if the page is already current.
    pub fn navigate_with(
        &mut self,
        key: &TypeId,
        page_type: &'static str,
        options: OptionsOf<C, F>,
    ) -> (result: Result<usize, NavigationError>)
        requires
            old(self).wf(),
        ensures
            final(self).wf(),
            match result {
                Ok(id) => old(self).index_spec(*key) == Some(id) && Self::visited(
                    old(self),
                    final(self),
                    id,
                    true,
                ),
                Err(e) => old(self).index_spec(*key) is None && e == (NavigationError::UnknownPage {
                    page_type,
                }) && Self::unchanged(old(self), final(self)),
            },
    {
        match self.index_of(key) {
            Some(id) => {
                self.visit(id, Some(options));
                Ok(id)
            },
            None => Err(NavigationError::UnknownPage { page_type }),
        }
    }

    /// Navigates to the page at `index` and records it in the history.
    /// Refused, with nothing changed, if there is no such page.
    pub fn navigate_index(&mut self, index: usize) -> (result: Result<usize, NavigationError>)
        requires
            old(self).wf(),
        ensures
            final(self).wf(),
            match result {
                Ok(id) => id == index && index < old(self).page_count() && Self::visited(
                    old(self),
                    final(self),
                    index,
                    false,
                ),
                Err(e) => index >= old(self).page_count() && e == (NavigationError::IndexOutOfRange {
                    index,
                    len: old(self).page_count() as usize,
                }) && Self::unchanged(old(self), final(self)),
            },
    {
        let len = self.pages.len();
        if index >= len {
            return Err(NavigationError::IndexOutOfRange { index, len });
        }
        self.visit(index, None);
        Ok(index)
    }

    /// Navigates to the page of type `key`, replacing the current history
    /// entry instead of adding one. Refused, with nothing changed, if the
    /// page was never added.
    pub fn replace(&mut self, key: &TypeId, page_type: &'static str) -> (result: Result<
        usize,
        NavigationError,
    >)
        requires
            old(self).wf(),
        ensures
            final(self).wf(),
            match result {
                Ok(id) => old(self).index_spec(*key) == Some(id) && Self::replaced_with(
                    old(self),
                    final(self),
                    id,
                ),
                Err(e) => old(self).index_spec(*key) is None && e == (NavigationError::UnknownPage {
                    page_type,
                }) && Self::unchanged(old(self), final(self)),
            },
    {
        match self.index_of(key) {
            Some(id) => {
                self.replace_at(id);
                Ok(id)
            },
            None => Err(NavigationError::UnknownPage { page_type }),
        }
    }

    /// Makes `to` current and swaps it into the current history entry.
    fn replace_at(&mut self, to: usize)
        requires
            old(self).wf(),
            to < old(self).page_count(),
        ensures
            final(self).wf(),
            Self::replaced_with(old(self), final(self), to),
    {
        let ghost pre = *self;
        self.activate(to);
        let ghost mid = *self;
        proof {
            lemma_replaced_below(
                self.history.entries(),
                self.history.cursor(),
                self.history.max_len(),
                to,
                self.pages@.len() as int,
            );
        }
        self.history.replace(to);
        assert(self.states() =~= mid.states());
    }

    /// Moves one step back in the history and returns the new current page.
    pub fn back(&mut self) -> (page: Option<usize>)
        requires
            old(self).wf(),
        ensures
            final(self).wf(),
            Self::stepped_back(old(self), final(self), page),
    {
        let ghost pre = *self;
        let moved = self.history.back();
        assert(self.states() =~= pre.states());
        match moved {
            Some(id) => {
                self.activate(id);
                Some(id)
            },
            None => None,
        }
    }

    /// Moves one step forward in the history and returns the new current
    /// page.
    pub fn forward(&mut self) -> (page: Option<usize>)
        requires
            old(self).wf(),
        ensures
            final(self).wf(),
            Self::stepped_forward(old(self), final(self), page),
    {
        let ghost pre = *self;
        let moved = self.history.forward();
        assert(self.states() =~= pre.states());
        match moved {
            Some(id) => {
                self.activate(id);
                Some(id)
            },
            None => None,
        }
    }
}


/// The refusal a navigation result carries, if any.
pub open spec fn refusal(result: Result<(), NavigationError>) -> Option<NavigationError> {
    match result {
        Ok(()) => None,
        Err(e) => Some(e),
    }
}

impl<C, F: PageFactory<C>> Router<C, F> {
    /// The page a step back would show.
    pub open spec fn back_target(&self) -> Option<usize> {
        if self.history().cursor() > 0 {
            Some(self.history().entries()[self.history().cursor() - 1])
        } else {
            None
        }
    }

    /// The page a step forward would show.
    pub open spec fn forward_target(&self) -> Option<usize> {
        if self.history().cursor() + 1 < self.history().entries().len() {
            Some(self.history().entries()[self.history().cursor() + 1])
        } else {
            None
        }
    }

    /// Whether a message stamped with `page_id` and `generation` reaches a
    /// live instance: the page exists, has an instance, and that instance
    /// has this generation.
    pub open spec fn deliverable(&self, page_id: usize, generation: u64) -> bool {
        &&& page_id < self.page_count()
        &&& self.state(page_id as int).live
        &&& self.state(page_id as int).generation == generation
    }

    /// `post` is `pre` after `navigation` was applied with `result`.
    pub open spec fn applied(
        pre: &Self,
        post: &Self,
        navigation: Navigation<OptionsOf<C, F>>,
        result: Result<(), NavigationError>,
    ) -> bool {
        match navigation {
            Navigation::To { target, page_type, options } => match pre.index_spec(target) {
                Some(id) => result is Ok && Self::visited(pre, post, id, options is Some),
                None => result == Err::<(), NavigationError>(
                    NavigationError::UnknownPage { page_type },
                ) && Self::unchanged(pre, post),
            },
            Navigation::Index(index) => if index < pre.page_count() {
                result is Ok && Self::visited(pre, post, index, false)
            } else {
                result == Err::<(), NavigationError>(
                    NavigationError::IndexOutOfRange { index, len: pre.page_count() as usize },
                ) && Self::unchanged(pre, post)
            },
            Navigation::Back => result is Ok && Self::stepped_back(pre, post, pre.back_target()),
            Navigation::Forward => result is Ok && Self::stepped_forward(
                pre,
                post,
                pre.forward_target(),
            ),
            Navigation::Replace { target, page_type } => match pre.index_spec(target) {
                Some(id) => result is Ok && Self::replaced_with(pre, post, id),
                None => result == Err::<(), NavigationError>(
                    NavigationError::UnknownPage { page_type },
                ) && Self::unchanged(pre, post),
            },
        }
    }

    /// `post` is `pre` after a page's update asked for `navigation` (or for
    /// none) and the router honoured it, refusing with `refused`.
    pub open spec fn handled(
        pre: &Self,
        post: &Self,
        navigation: Option<Navigation<OptionsOf<C, F>>>,
        refused: Option<NavigationError>,
    ) -> bool {
        match navigation {
            Some(n) => exists|r: Result<(), NavigationError>|
                Self::applied(pre, post, n, r) && refused == refusal(r),
            None => Self::unchanged(pre, post) && refused is None,
        }
    }

    /// Appends page `key` under the display `name`. A `Resident` page is
    /// built right away. Adding a page type twice is a programming error
    /// (a caller that lets it through leaves the router unchanged).
    pub fn add(&mut self, key: TypeId, name: String, lifecycle: Lifecycle, factory: F)
        requires
            old(self).wf(),
            old(self).index_spec(key) is None,
        ensures
            final(self).wf(),
            ({
                let id = old(self).page_count() as int;
                &&& final(self).page_count() == id + 1
                &&& final(self).key(id) == key
                &&& final(self).name(id) == name@
                &&& final(self).state(id) == (PageState {
                    lifecycle,
                    live: lifecycle == Lifecycle::Resident,
                    has_snapshot: false,
                    generation: 0,
                    suspended: false,
                })
                &&& forall|i: int|
                    0 <= i < id ==> final(self).key(i) == old(self).key(i) && final(self).name(i)
                        == old(self).name(i) && final(self).state(i) == old(self).state(i)
                &&& final(self).current_page() == old(self).current_page()
                &&& final(self).history() == old(self).history()
                &&& final(self).mouse_navigation_spec() == old(self).mouse_navigation_spec()
                &&& final(self).context_spec() == old(self).context_spec()
                &&& final(self).calls() == old(self).calls() + if lifecycle == Lifecycle::Resident {
                    seq![Call::Build(id as usize, 0)]
                } else {
                    Seq::empty()
                }
                &&& final(self).handoffs() == old(self).handoffs()
                &&& final(self).asked() == old(self).asked()
            }),
    {
        let ghost pre = *self;
        proof {
            pre.lemma_index_spec(key);
        }
        let id = self.pages.len();
        let instance = if lifecycle == Lifecycle::Resident {
            let built = self.journal.build(&factory, &self.context, id, 0);
            Some(built)
        } else {
            None
        };
        let ghost pre_pages = self.pages@;
        self.pages.push(
            Entry {
                key,
                name,
                factory,
                lifecycle,
                instance,
                snapshot: None,
                generation: 0,
                suspended: false,
            },
        );
        assert forall|i: int| 0 <= i < id implies self.pages@[i] == pre_pages[i] by {}
        assert forall|i: int, j: int|
            0 <= i < j < self.pages@.len() implies #[trigger] self.pages@[i].key
                != #[trigger] self.pages@[j].key by {
            if j == id {
                assert(pre.key(i) != key);
            }
        }
        proof {
            assert forall|k: int| 0 <= k < self.journal.handoffs().len() implies handoff_page(
                #[trigger] self.journal.handoffs()[k],
            ) != id by {}
            lemma_pending_untouched(self.journal.handoffs(), id);
        }
    }

    /// Every page, in the order they were added.
    pub fn pages(&self) -> (infos: Vec<PageInfo<'_>>)
        requires
            self.wf(),
        ensures
            infos@.len() == self.page_count(),
            forall|i: int|
                0 <= i < infos@.len() ==> {
                    let info = #[trigger] infos@[i];
                    &&& info.index == i
                    &&& info.name@ == self.name(i)
                    &&& info.is_current == (self.current_page() == Some(i as usize))
                    &&& info.lifecycle == self.state(i).lifecycle
                },
    {
        let mut infos: Vec<PageInfo<'_>> = Vec::new();
        let n = self.pages.len();
        let mut i: usize = 0;
        while i < n
            invariant
                n == self.pages@.len(),
                i <= n,
                infos@.len() == i,
                forall|k: int|
                    0 <= k < i ==> {
                        let info = #[trigger] infos@[k];
                        &&& info.index == k
                        &&& info.name@ == self.name(k)
                        &&& info.is_current == (self.current_page() == Some(k as usize))
                        &&& info.lifecycle == self.state(k).lifecycle
                    },
            decreases n - i,
        {
            let is_current = match self.current {
                Some(c) => c == i,
                None => false,
            };
            let entry = &self.pages[i];
            infos.push(
                PageInfo {
                    index: i,
                    name: entry.name.as_str(),
                    is_current,
                    lifecycle: entry.lifecycle,
                },
            );
            i = i + 1;
        }
        infos
    }

    /// The live instance of page `id`, if it has one right now.
    pub fn instance(&self, id: usize) -> (instance: Option<&F::Instance>)
        ensures
            instance is Some == (id < self.page_count() && self.state(id as int).live),
            instance matches Some(i) ==> self.instance_of(id as int) == Some(*i),
    {
        if id < self.pages.len() {
            self.pages[id].instance.as_ref()
        } else {
            None
        }
    }

    /// Mutable access to the live instance of page `id`, if it has one.
    pub fn instance_mut(&mut self, id: usize) -> (instance: Option<&mut F::Instance>)
        requires
            old(self).wf(),
        ensures
            instance is Some == (id < old(self).page_count() && old(self).state(id as int).live),
            instance matches Some(i) ==> old(self).instance_of(id as int) == Some(*i)
                && final(self).instance_of(id as int) == Some(*final(i)),
            forall|j: int|
                0 <= j < old(self).page_count() && (j != id || instance is None)
                    ==> final(self).instance_of(j) == old(self).instance_of(j),
            final(self).wf(),
            Self::unchanged(old(self), final(self)),
    {
        if id < self.pages.len() {
            self.pages[id].instance.as_mut()
        } else {
            None
        }
    }

    /// Mutable access to the context. Pages built earlier keep whatever
    /// they copied out of it.
    pub fn context_mut(&mut self) -> (context: &mut C)
        ensures
            *context == old(self).context_spec(),
            final(self).context_spec() == *final(context),
            old(self).wf() ==> final(self).wf(),
            final(self).page_count() == old(self).page_count(),
            forall|i: int|
                0 <= i < old(self).page_count() ==> final(self).key(i) == old(self).key(i)
                    && final(self).name(i) == old(self).name(i),
            final(self).states() == old(self).states(),
            final(self).stored_snapshots() == old(self).stored_snapshots(),
            final(self).current_page() == old(self).current_page(),
            final(self).history() == old(self).history(),
            final(self).mouse_navigation_spec() == old(self).mouse_navigation_spec(),
            final(self).calls() == old(self).calls(),
            final(self).handoffs() == old(self).handoffs(),
            final(self).asked() == old(self).asked(),
    {
        &mut self.context
    }

    /// Addresses `message` to the live instance of page `key`; `None` if the
    /// page was never added or has no instance right now.
    pub fn message(&self, key: &TypeId, message: MessageOf<C, F>) -> (routed: Option<
        RouteMessage<MessageOf<C, F>, OptionsOf<C, F>>,
    >)
        requires
            self.wf(),
        ensures
            match self.index_spec(*key) {
                Some(id) => if self.state(id as int).live {
                    routed matches Some(RouteMessage::Page(m)) && m.page_id_spec() == id
                        && m.generation_spec() == self.state(id as int).generation
                        && m.inner_spec() == message
                } else {
                    routed is None
                },
                None => routed is None,
            },
    {
        match self.index_of(key) {
            Some(id) => {
                if self.pages[id].instance.is_some() {
                    Some(RouteMessage::Page(PageMessage::new(id, self.pages[id].generation, message)))
                } else {
                    None
                }
            },
            None => None,
        }
    }

    /// Delivers `message` to the instance it was stamped for, if that
    /// instance is still live; returns what the page's update produced.
    pub fn deliver(&mut self, message: &PageMessage<MessageOf<C, F>>) -> (result: Option<
        (OutputOf<C, F>, Option<Navigation<OptionsOf<C, F>>>),
    >)
        requires
            old(self).wf(),
        ensures
            final(self).wf(),
            result is Some == old(self).deliverable(message.page_id_spec(), message.generation_spec()),
            result matches Some(r) ==> Self::delivered(
                old(self),
                final(self),
                message.page_id_spec(),
                r.1,
            ),
            result is None ==> Self::unchanged(old(self), final(self)),
    {
        let ghost pre = *self;
        let id = message.page_id();
        if id >= self.pages.len() {
            return None;
        }
        if self.pages[id].generation != message.generation() {
            return None;
        }
        let result = match &mut self.pages[id].instance {
            Some(instance) => {
                let answer = self.journal.update(instance, id, message);
                Some(answer)
            },
            None => None,
        };
        assert forall|i: int| 0 <= i < self.pages@.len() implies #[trigger] self.pages@[i].state()
            == pre.pages@[i].state() && self.pages@[i].key == pre.pages@[i].key
            && self.pages@[i].name == pre.pages@[i].name && self.pages@[i].lifecycle
            == pre.pages@[i].lifecycle && self.pages@[i].suspended == pre.pages@[i].suspended
            && self.pages@[i].snapshot == pre.pages@[i].snapshot && (self.pages@[i].instance is Some)
            == (pre.pages@[i].instance is Some) by {}
        assert(self.states() =~= pre.states());
        assert(self.stored_snapshots() =~= pre.stored_snapshots());
        result
    }

    /// Whether `navigation` names a page of this router: an added page
    /// type, or an index below the number of pages. A step back or forward
    /// always does.
    pub open spec fn resolves(&self, navigation: Navigation<OptionsOf<C, F>>) -> bool {
        match navigation {
            Navigation::To { target, .. } => self.index_spec(target) is Some,
            Navigation::Replace { target, .. } => self.index_spec(target) is Some,
            Navigation::Index(index) => index < self.page_count(),
            Navigation::Back => true,
            Navigation::Forward => true,
        }
    }

    /// Whether `navigation` names a page of this router.
    pub fn can_apply(&self, navigation: &Navigation<OptionsOf<C, F>>) -> (ok: bool)
        requires
            self.wf(),
        ensures
            ok == self.resolves(*navigation),
    {
        match navigation {
            Navigation::To { target, .. } => self.index_of(target).is_some(),
            Navigation::Replace { target, .. } => self.index_of(target).is_some(),
            Navigation::Index(index) => *index < self.pages.len(),
            Navigation::Back => true,
            Navigation::Forward => true,
        }
    }

    /// Applies a navigation request that names a page of this router; one
    /// that does not is a programming error.
    pub fn apply(&mut self, navigation: Navigation<OptionsOf<C, F>>)
        requires
            old(self).wf(),
            old(self).resolves(navigation),
        ensures
            final(self).wf(),
            Self::applied(old(self), final(self), navigation, Ok(())),
    {
        let result = self.try_apply(navigation);
        assert(result is Ok);
    }

    /// Applies a navigation request; one that names no page of this router
    /// is refused and changes nothing.
    fn try_apply(&mut self, navigation: Navigation<OptionsOf<C, F>>) -> (result: Result<
        (),
        NavigationError,
    >)
        requires
            old(self).wf(),
        ensures
            final(self).wf(),
            Self::applied(old(self), final(self), navigation, result),
            result is Ok == old(self).resolves(navigation),
    {
        match navigation {
            Navigation::To { target, page_type, options } => match self.index_of(&target) {
                Some(id) => {
                    self.visit(id, options);
                    Ok(())
                },
                None => Err(NavigationError::UnknownPage { page_type }),
            },
            Navigation::Index(index) => match self.navigate_index(index) {
                Ok(_) => Ok(()),
                Err(e) => Err(e),
            },
            Navigation::Back => {
                let _ = self.back();
                Ok(())
            },
            Navigation::Forward => {
                let _ = self.forward();
                Ok(())
            },
            Navigation::Replace { target, page_type } => match self.index_of(&target) {
                Some(id) => {
                    self.replace_at(id);
                    Ok(())
                },
                None => Err(NavigationError::UnknownPage { page_type }),
            },
        }
    }

    /// Delivers a router message. A page message reaches only the live
    /// instance whose generation it carries, once (otherwise it is dropped,
    /// no page is called and nothing changes); the navigation that page
    /// asks for is then applied, or refused when it names no page of this
    /// router. A navigation carried by the message itself must name a page
    /// of this router. Returns what the page produced and the refusal, if
    /// any.
    pub fn update(&mut self, message: RouteMessage<MessageOf<C, F>, OptionsOf<C, F>>) -> (result: (
        Option<OutputOf<C, F>>,
        Option<NavigationError>,
    ))
        requires
            old(self).wf(),
            message matches RouteMessage::Navigate(n) ==> old(self).resolves(n),
        ensures
            final(self).wf(),
            match message {
                RouteMessage::Page(m) => if old(self).deliverable(
                    m.page_id_spec(),
                    m.generation_spec(),
                ) {
                    &&& result.0 is Some
                    &&& final(self).asked().len() == old(self).asked().len() + 1
                    &&& exists|mid: Self|
                        #[trigger] Self::delivered(
                            old(self),
                            &mid,
                            m.page_id_spec(),
                            final(self).asked().last(),
                        ) && Self::handled(&mid, final(self), final(self).asked().last(), result.1)
                } else {
                    &&& result.0 is None
                    &&& result.1 is None
                    &&& Self::unchanged(old(self), final(self))
                },
                RouteMessage::Navigate(n) => {
                    &&& result.0 is None
                    &&& result.1 is None
                    &&& Self::applied(old(self), final(self), n, Ok(()))
                },
            },
    {
        match message {
            RouteMessage::Page(m) => {
                let ghost pre = *self;
                match self.deliver(&m) {
                    Some((output, navigation)) => {
                        let ghost mid = *self;
                        let ghost nav = navigation;
                        assert(Self::delivered(&pre, &mid, m.page_id_spec(), nav));
                        match navigation {
                            Some(n) => {
                                let r = self.try_apply(n);
                                let refused = match r {
                                    Ok(()) => None,
                                    Err(e) => Some(e),
                                };
                                proof {
                                    assert(nav == Some(n));
                                    assert(refused == refusal(r));
                                    assert(Self::applied(&mid, self, n, r) && refused == refusal(r));
                                    assert(Self::handled(&mid, self, nav, refused));
                                    assert(self.asked() == mid.asked());
                                    assert(self.asked().last() == nav);
                                }
                                (Some(output), refused)
                            },
                            None => {
                                proof {
                                    assert(Self::handled(&mid, self, nav, None));
                                    assert(self.asked().last() == nav);
                                }
                                (Some(output), None)
                            },
                        }
                    },
                    None => (None, None),
                }
            },
            RouteMessage::Navigate(n) => {
                let ghost nav = n;
                self.apply(n);
                assert(Self::applied(old(self), self, nav, Ok(())));
                (None, None)
            },
        }
    }

}


impl<C, F: PageFactory<C>> Router<C, F> {
    /// Every router keeps these facts about its instances: a `Resident` page
    /// always has one, a `Drop` page has one only while it is current, the
    /// current page has one, and a suspended page is never current.
    pub proof fn law_instance_lifetimes(r: &Self)
        requires
            r.wf(),
        ensures
            forall|i: int|
                0 <= i < r.page_count() && #[trigger] r.state(i).lifecycle == Lifecycle::Resident
                    ==> r.state(i).live,
            forall|i: int|
                0 <= i < r.page_count() && #[trigger] r.state(i).lifecycle == Lifecycle::Drop
                    && r.current_page() != Some(i as usize) ==> !r.state(i).live,
            forall|i: int|
                0 <= i < r.page_count() && #[trigger] r.state(i).suspended ==> r.current_page()
                    != Some(i as usize),
            r.current_page() matches Some(c) ==> c < r.page_count() && r.state(c as int).live,
            forall|i: int, j: int| 0 <= i < j < r.page_count() ==> r.key(i) != r.key(j),
            forall|i: int|
                0 <= i < r.history().entries().len() ==> #[trigger] r.history().entries()[i]
                    < r.page_count(),
    {
        assert forall|i: int, j: int| 0 <= i < j < r.page_count() implies r.key(i) != r.key(j) by {
            assert(r.pages@[i].key != r.pages@[j].key);
        }
    }

    /// A message reaches exactly the instance that produced it, or nobody:
    /// once a `Drop` page is left its instance is gone and its generation
    /// has moved on, so a message stamped for the old instance is not
    /// deliverable, now or to the instance built on the next visit.
    pub proof fn law_stale_messages_are_dropped(pre: &Self, post: &Self, to: usize, generation: u64)
        requires
            pre.wf(),
            post.wf(),
            pre.current_page() matches Some(f) && f != to && pre.state(f as int).lifecycle
                == Lifecycle::Drop && pre.deliverable(f, generation),
            states_activated(pre.states(), pre.current_page(), post.states(), to),
            post.page_count() == pre.page_count(),
        ensures
            !post.deliverable(pre.current_page()->0, generation),
            post.state(pre.current_page()->0 as int).generation != generation,
    {
        let f = pre.current_page()->0;
        assert(pre.states()[f as int] == pre.state(f as int));
        assert(post.states()[f as int] == post.state(f as int));
    }

    /// Generations never move except when a dropped instance is discarded:
    /// a page that keeps its instance keeps its generation, so its messages
    /// stay deliverable across any navigation.
    pub proof fn law_live_messages_survive(pre: &Self, post: &Self, to: usize, page: usize, generation: u64)
        requires
            pre.wf(),
            states_activated(pre.states(), pre.current_page(), post.states(), to),
            post.page_count() == pre.page_count(),
            pre.deliverable(page, generation),
            pre.state(page as int).lifecycle != Lifecycle::Drop || pre.current_page() != Some(page)
                || page == to,
        ensures
            post.deliverable(page, generation),
    {
        assert(pre.states()[page as int] == pre.state(page as int));
        assert(post.states()[page as int] == post.state(page as int));
    }

    /// Navigating to the page that is already current makes no lifecycle
    /// call except delivering the options, and leaves every page as it was.
    pub proof fn law_current_page_only_navigates(pre: &Self, post: &Self, to: usize, options: bool)
        requires
            pre.current_page() == Some(to),
            Self::visited(pre, post, to, options),
        ensures
            post.states() == pre.states(),
            post.calls() == pre.calls() + if options {
                seq![Call::Navigate(to)]
            } else {
                Seq::<Call>::empty()
            },
    {
        assert(activation_calls(pre.states(), pre.current_page(), to) == Seq::<Call>::empty());
        assert(pre.calls() + Seq::<Call>::empty() == pre.calls());
    }

    /// Navigating to the current page when it is the newest history entry
    /// adds nothing to the history.
    pub proof fn law_current_page_adds_no_entry(pre: &Self, post: &Self, to: usize, options: bool)
        requires
            pre.wf(),
            pre.history().entries().len() > 0,
            pre.history().cursor() == pre.history().entries().len() - 1,
            pre.history().entries().last() == to,
            Self::visited(pre, post, to, options),
        ensures
            post.history().entries() == pre.history().entries(),
            post.history().cursor() == pre.history().cursor(),
    {
        let e = pre.history().entries();
        assert(e.take(pre.history().cursor() + 1) =~= e);
    }

    /// Any navigation discards the forward branch: afterwards there is
    /// nothing to go forward to.
    pub proof fn law_navigation_discards_forward(pre: &Self, post: &Self, to: usize, options: bool)
        requires
            Self::visited(pre, post, to, options),
        ensures
            post.forward_target() is None,
    {
    }

    /// A step back followed by a step forward returns to the page and
    /// history position it started from.
    pub proof fn law_back_then_forward(pre: &Self, mid: &Self, post: &Self)
        requires
            pre.wf(),
            pre.history().cursor() > 0,
            Self::stepped_back(pre, mid, pre.back_target()),
            Self::stepped_forward(mid, post, mid.forward_target()),
        ensures
            post.history().entries() == pre.history().entries(),
            post.history().cursor() == pre.history().cursor(),
            post.current_page() == Some(pre.history().entries()[pre.history().cursor()]),
    {
    }

    /// What is stored for a page's next instance is what its latest
    /// hand-over left: the snapshot its instance last handed over when it
    /// was dropped, unless a new instance was restored from it since.
    pub proof fn law_stored_snapshot_is_the_latest_handed_over(r: &Self)
        requires
            r.wf(),
        ensures
            forall|i: int|
                0 <= i < r.page_count() ==> #[trigger] r.stored_snapshot(i) == pending(
                    r.handoffs(),
                    i as usize,
                ),
    {
        assert forall|i: int| 0 <= i < r.page_count() implies #[trigger] r.stored_snapshot(i)
            == pending(r.handoffs(), i as usize) by {
            assert(r.pages@[i].snapshot == pending(r.journal.handoffs(), i as usize));
        }
    }

    /// A page that is rebuilt is restored from the latest snapshot it handed
    /// over, which is then used up: nothing waits for it afterwards.
    pub proof fn law_restore_hands_back_the_latest_snapshot(pre: &Self, post: &Self, to: usize)
        requires
            pre.wf(),
            post.wf(),
            to < pre.page_count(),
            pre.current_page() != Some(to),
            !pre.state(to as int).live,
            pending(pre.handoffs(), to) is Some,
            post.handoffs() == pre.handoffs() + Self::activation_handoffs(pre, post, to),
        ensures
            post.handoffs().last() == Handoff::Restored(to, pending(pre.handoffs(), to)->0),
            pending(post.handoffs(), to) is None,
    {
        Self::law_stored_snapshot_is_the_latest_handed_over(pre);
        assert(pre.stored_snapshots()[to as int] == pre.stored_snapshot(to as int));
        assert(pre.states()[to as int] == pre.state(to as int));
        let extra = Self::activation_handoffs(pre, post, to);
        assert(extra.last() == Handoff::Restored(to, pending(pre.handoffs(), to)->0));
        assert(post.handoffs().last() == extra.last());
        assert(post.handoffs().drop_last().push(post.handoffs().last()) =~= post.handoffs());
    }

    /// Leaving a kept-alive (`Suspend` or `Resident`) page tells its
    /// instance first: the first call a navigation away from it makes is
    /// that page's `on_suspend`, and the page is left suspended.
    pub proof fn law_leaving_a_kept_page_suspends_it(
        pre: &Self,
        post: &Self,
        to: usize,
        options: bool,
        from: usize,
    )
        requires
            pre.wf(),
            Self::visited(pre, post, to, options),
            pre.current_page() == Some(from),
            from != to,
            pre.state(from as int).lifecycle != Lifecycle::Drop,
        ensures
            post.calls().len() > pre.calls().len(),
            post.calls()[pre.calls().len() as int] == Call::Suspend(from),
            post.state(from as int).suspended,
            post.state(from as int).live,
    {
        assert(pre.states()[from as int] == pre.state(from as int));
        assert(post.states()[from as int] == post.state(from as int));
        Self::law_instance_lifetimes(pre);
        let extra = activation_calls(pre.states(), pre.current_page(), to);
        assert(extra[0] == Call::Suspend(from));
    }

    /// Every page that becomes current through the history is entered: after
    /// a step back or forward to another page, the last call made is that
    /// page's `on_enter`.
    pub proof fn law_history_moves_enter_the_page(pre: &Self, post: &Self, cursor: int)
        requires
            pre.wf(),
            0 <= cursor < pre.history().entries().len(),
            Self::moved(pre, post, cursor),
            pre.current_page() != Some(pre.history().entries()[cursor]),
        ensures
            post.calls().len() > pre.calls().len(),
            post.calls().last() == Call::Enter(pre.history().entries()[cursor]),
            post.current_page() == Some(pre.history().entries()[cursor]),
    {
    }

    /// Options a navigation carries reach the target page, whatever its
    /// lifecycle: the last call made is its `on_navigate`, right after its
    /// `on_enter` when it was not current already.
    pub proof fn law_options_reach_the_page(pre: &Self, post: &Self, to: usize)
        requires
            pre.wf(),
            to < pre.page_count(),
            Self::visited(pre, post, to, true),
        ensures
            post.calls().len() >= pre.calls().len() + 1,
            post.calls().last() == Call::Navigate(to),
            pre.current_page() != Some(to) ==> post.calls()[post.calls().len() - 2] == Call::Enter(
                to,
            ),
    {
    }

    /// The navigation a page asks for in answer to a message is honoured: if
    /// the delivered page asked to go back and the history can, the router
    /// ends up on the page before, with the page it left ahead of it.
    pub proof fn law_a_page_asking_back_goes_back(
        pre: &Self,
        mid: &Self,
        post: &Self,
        id: usize,
        refused: Option<NavigationError>,
    )
        requires
            pre.wf(),
            Self::delivered(pre, mid, id, Some(Navigation::Back)),
            Self::handled(mid, post, Some(Navigation::Back), refused),
            pre.history().cursor() > 0,
        ensures
            refused is None,
            post.current_page() == Some(pre.history().entries()[pre.history().cursor() - 1]),
            post.history().cursor() == pre.history().cursor() - 1,
            post.history().cursor() + 1 < post.history().entries().len(),
    {
    }
}

} // verus!
