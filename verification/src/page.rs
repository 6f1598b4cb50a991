//! The page contract as the router sees it: how long an instance lives, the
//! lifecycle calls it receives, and how instances are built.

use crate::message::{Navigation, PageMessage};
use vstd::prelude::*;

verus! {

/// What happens to a page's instance when the router leaves it.
#[derive(Debug, Clone, Copy, PartialEq, Eq, Hash, Default, Structural)]
#[non_exhaustive]
pub enum Lifecycle {
    /// The instance is built on first visit and dropped when left; its
    /// snapshot is taken on the way out and handed back on the next visit.
    /// The default.
    #[default]
    Drop,
    /// The instance is built on first visit and kept alive when left; it is
    /// told via `on_suspend` and `on_resume`.
    Suspend,
    /// The instance is built when the page is added and lives as long as
    /// the router; otherwise like `Suspend`.
    Resident,
}

/// One lifecycle call the router makes on a page instance, in the order it
/// makes them. Each names the page index.
#[derive(Debug, Clone, Copy, PartialEq, Eq)]
pub enum Call {
    /// An instance was built with this generation.
    Build(usize, u64),
    /// The stored snapshot was handed to the fresh instance.
    Restore(usize),
    /// The page became current.
    Enter(usize),
    /// The navigation carried options for the page.
    Navigate(usize),
    /// A kept-alive page was left.
    Suspend(usize),
    /// A kept-alive page was returned to.
    Resume(usize),
    /// A dropped page's instance was consumed into its snapshot.
    Snapshot(usize),
    /// A message was handed to the page's instance.
    Update(usize),
}

/// One hand-over of a dropped page's state, in the order the router makes
/// them.
pub enum Handoff<S> {
    /// Page `.0` was left and its instance consumed into `.1`, which is
    /// stored for the page's next instance.
    Taken(usize, Option<S>),
    /// Page `.0` was rebuilt and its new instance was handed `.1`.
    Restored(usize, S),
}

/// The page a hand-over concerns.
pub open spec fn handoff_page<S>(h: Handoff<S>) -> usize {
    match h {
        Handoff::Taken(p, _) => p,
        Handoff::Restored(p, _) => p,
    }
}

/// The snapshot waiting for page `page` after the hand-overs in `log`: the
/// one its latest `Taken` stored, unless a `Restored` consumed it since.
pub open spec fn pending<S>(log: Seq<Handoff<S>>, page: usize) -> Option<S>
    decreases log.len(),
{
    if log.len() == 0 {
        None
    } else if handoff_page(log.last()) == page {
        match log.last() {
            Handoff::Taken(_, snapshot) => snapshot,
            Handoff::Restored(_, _) => None,
        }
    } else {
        pending(log.drop_last(), page)
    }
}

/// A hand-over for another page leaves what waits for `page` alone.
pub proof fn lemma_pending_push_other<S>(log: Seq<Handoff<S>>, h: Handoff<S>, page: usize)
    requires
        handoff_page(h) != page,
    ensures
        pending(log.push(h), page) == pending(log, page),
{
    assert(log.push(h).drop_last() =~= log);
}

/// Nothing waits for a page no hand-over concerns.
pub proof fn lemma_pending_untouched<S>(log: Seq<Handoff<S>>, page: usize)
    requires
        forall|k: int| 0 <= k < log.len() ==> handoff_page(#[trigger] log[k]) != page,
    ensures
        pending(log, page) is None,
    decreases log.len(),
{
    if log.len() > 0 {
        assert(handoff_page(log[log.len() - 1]) != page);
        let rest = log.drop_last();
        assert forall|k: int| 0 <= k < rest.len() implies handoff_page(#[trigger] rest[k]) != page by {
            assert(rest[k] == log[k]);
        }
        lemma_pending_untouched(rest, page);
    }
}

/// A dropped page gets back what it handed over last: after a `Taken`
/// for `page`, whatever hand-overs of other pages follow, the snapshot
/// waiting for it is the one taken; after a `Restored`, nothing waits.
pub proof fn law_pending_is_the_latest_taken<S>(
    log: Seq<Handoff<S>>,
    page: usize,
    last: Handoff<S>,
    rest: Seq<Handoff<S>>,
)
    requires
        handoff_page(last) == page,
        forall|k: int| 0 <= k < rest.len() ==> handoff_page(#[trigger] rest[k]) != page,
    ensures
        pending(log.push(last) + rest, page) == match last {
            Handoff::Taken(_, snapshot) => snapshot,
            Handoff::Restored(_, _) => None,
        },
    decreases rest.len(),
{
    if rest.len() == 0 {
        assert(log.push(last) + rest =~= log.push(last));
    } else {
        let shorter = rest.drop_last();
        assert((log.push(last) + rest).drop_last() =~= log.push(last) + shorter);
        assert(handoff_page(rest[rest.len() - 1]) != page);
        assert forall|k: int| 0 <= k < shorter.len() implies handoff_page(#[trigger] shorter[k])
            != page by {
            assert(shorter[k] == rest[k]);
        }
        law_pending_is_the_latest_taken(log, page, last, shorter);
    }
}

/// A live page instance, with its concrete page type erased by the host.
///
/// The router decides *when* each of these is called; what a page does in
/// them is its own business, so none of them promises anything.
pub trait PageInstance: Sized {
    /// Messages delivered to the instance.
    type Message;
    /// Options a navigation may carry for the instance.
    type Options;
    /// What the instance keeps across a drop.
    type Snapshot;
    /// What handling a message produces besides an optional navigation
    /// (the host's task).
    type Output;

    /// The page became current.
    fn on_enter(&mut self);

    /// A navigation carried `options` for the page.
    fn on_navigate(&mut self, options: &Self::Options);

    /// A kept-alive page was left.
    fn on_suspend(&mut self);

    /// A kept-alive page was returned to.
    fn on_resume(&mut self);

    /// Receives the snapshot a previous instance left, right after being
    /// built.
    fn restore(&mut self, snapshot: Self::Snapshot);

    /// Consumes a dropped instance into what it keeps.
    fn into_snapshot(self) -> Option<Self::Snapshot>;

    /// Handles one message; may ask for a navigation.
    fn update(&mut self, message: &PageMessage<Self::Message>) -> (Self::Output, Option<
        Navigation<Self::Options>,
    >);
}

/// Builds the instances of one page.
pub trait PageFactory<C>: Sized {
    /// The instances this factory builds.
    type Instance: PageInstance;

    /// Builds an instance of page `id` with the given generation.
    fn build(&self, context: &C, id: usize, generation: u64) -> Self::Instance;
}

/// The record of every lifecycle call a router makes on its page
/// instances, of every snapshot hand-over, and of the navigation each
/// delivered message's page asked for. The record grows only through the
/// functions below, and each of them makes the call it records: an entry
/// is never written without its call, nor a call made without its entry.
pub struct Journal<O, S> {
    calls: Ghost<Seq<Call>>,
    handoffs: Ghost<Seq<Handoff<S>>>,
    asked: Ghost<Seq<Option<Navigation<O>>>>,
}

impl<O, S> Journal<O, S> {
    /// Every lifecycle call made so far, in order.
    pub closed spec fn calls(&self) -> Seq<Call> {
        self.calls@
    }

    /// Every snapshot hand-over so far, in order.
    pub closed spec fn handoffs(&self) -> Seq<Handoff<S>> {
        self.handoffs@
    }

    /// The navigation each updated page asked for, in order.
    pub closed spec fn asked(&self) -> Seq<Option<Navigation<O>>> {
        self.asked@
    }

    /// Nothing recorded yet.
    pub fn new() -> (journal: Self)
        ensures
            journal.calls() == Seq::<Call>::empty(),
            journal.handoffs() == Seq::<Handoff<S>>::empty(),
            journal.asked() == Seq::<Option<Navigation<O>>>::empty(),
    {
        Journal { calls: Ghost(Seq::empty()), handoffs: Ghost(Seq::empty()), asked: Ghost(Seq::empty()) }
    }

    /// Builds instance `generation` of page `id` with `factory`.
    pub fn build<C, F: PageFactory<C>>(&mut self, factory: &F, context: &C, id: usize, generation: u64) -> (instance: F::Instance)
        ensures
            final(self).calls() == old(self).calls().push(Call::Build(id, generation)),
            final(self).handoffs() == old(self).handoffs(),
            final(self).asked() == old(self).asked(),
    {
        let instance = factory.build(context, id, generation);
        self.calls = Ghost(self.calls@.push(Call::Build(id, generation)));
        instance
    }

    /// Hands `snapshot` to the fresh instance of page `id`.
    pub fn restore<I: PageInstance<Snapshot = S>>(&mut self, instance: &mut I, id: usize, snapshot: S)
        ensures
            final(self).calls() == old(self).calls().push(Call::Restore(id)),
            final(self).handoffs() == old(self).handoffs().push(Handoff::Restored(id, snapshot)),
            final(self).asked() == old(self).asked(),
    {
        let ghost handed = snapshot;
        instance.restore(snapshot);
        self.calls = Ghost(self.calls@.push(Call::Restore(id)));
        self.handoffs = Ghost(self.handoffs@.push(Handoff::Restored(id, handed)));
    }

    /// Consumes the instance of page `id` into what it keeps.
    pub fn snapshot<I: PageInstance<Snapshot = S>>(&mut self, instance: I, id: usize) -> (kept: Option<S>)
        ensures
            final(self).calls() == old(self).calls().push(Call::Snapshot(id)),
            final(self).handoffs() == old(self).handoffs().push(Handoff::Taken(id, kept)),
            final(self).asked() == old(self).asked(),
    {
        let kept = instance.into_snapshot();
        let ghost recorded = kept;
        self.calls = Ghost(self.calls@.push(Call::Snapshot(id)));
        self.handoffs = Ghost(self.handoffs@.push(Handoff::Taken(id, recorded)));
        kept
    }

    /// Tells the instance of page `id` that it became current.
    pub fn enter<I: PageInstance>(&mut self, instance: &mut I, id: usize)
        ensures
            final(self).calls() == old(self).calls().push(Call::Enter(id)),
            final(self).handoffs() == old(self).handoffs(),
            final(self).asked() == old(self).asked(),
    {
        instance.on_enter();
        self.calls = Ghost(self.calls@.push(Call::Enter(id)));
    }

    /// Hands navigation options to the instance of page `id`.
    pub fn navigate<I: PageInstance<Options = O>>(&mut self, instance: &mut I, id: usize, options: &O)
        ensures
            final(self).calls() == old(self).calls().push(Call::Navigate(id)),
            final(self).handoffs() == old(self).handoffs(),
            final(self).asked() == old(self).asked(),
    {
        instance.on_navigate(options);
        self.calls = Ghost(self.calls@.push(Call::Navigate(id)));
    }

    /// Tells the kept-alive instance of page `id` that it was left.
    pub fn suspend<I: PageInstance>(&mut self, instance: &mut I, id: usize)
        ensures
            final(self).calls() == old(self).calls().push(Call::Suspend(id)),
            final(self).handoffs() == old(self).handoffs(),
            final(self).asked() == old(self).asked(),
    {
        instance.on_suspend();
        self.calls = Ghost(self.calls@.push(Call::Suspend(id)));
    }

    /// Tells the kept-alive instance of page `id` that it was returned to.
    pub fn resume<I: PageInstance>(&mut self, instance: &mut I, id: usize)
        ensures
            final(self).calls() == old(self).calls().push(Call::Resume(id)),
            final(self).handoffs() == old(self).handoffs(),
            final(self).asked() == old(self).asked(),
    {
        instance.on_resume();
        self.calls = Ghost(self.calls@.push(Call::Resume(id)));
    }

    /// Hands `message` to the instance of page `id`; returns its answer
    /// and records the navigation the answer asks for.
    pub fn update<I: PageInstance<Options = O>>(&mut self, instance: &mut I, id: usize, message: &PageMessage<I::Message>) -> (answer: (I::Output, Option<Navigation<O>>))
        ensures
            final(self).calls() == old(self).calls().push(Call::Update(id)),
            final(self).handoffs() == old(self).handoffs(),
            final(self).asked() == old(self).asked().push(answer.1),
    {
        let answer = instance.update(message);
        let ghost navigation = answer.1;
        self.calls = Ghost(self.calls@.push(Call::Update(id)));
        self.asked = Ghost(self.asked@.push(navigation));
        answer
    }
}

} // verus!
