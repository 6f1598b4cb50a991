//! The ancestor protocol: how an inner texture's invalidation reaches the
//! outer textures it is baked into.
//!
//! A widget that records a texture runs its content's `update` inside
//! [`TextureCaches::with_ancestor`]. Any texture-recording widget *inside*
//! that content then calls [`TextureCaches::propagate`] after its own
//! `update`: if its cache was invalidated since the last time it
//! propagated, every ancestor on the stack is invalidated too, so the outer
//! texture re-records in the same frame. Propagation is keyed on the cache's
//! generation, not on its invalidated flag: a cache that is invalidated but
//! never drawn keeps its flag set, and would otherwise re-invalidate its
//! ancestors on every event for as long as it is hidden.

use vstd::prelude::*;

verus! {

/// A handle to one texture cache of a [`TextureCaches`].
#[derive(Debug, Clone, Copy, PartialEq, Eq, Hash, Structural)]
pub struct TextureCache(usize);

/// The invalidation state of one texture cache.
#[derive(Debug, Clone, Copy, PartialEq, Eq)]
pub struct CacheState {
    /// Whether the recorded texture is stale.
    pub invalidated: bool,
    /// Bumped on every invalidation.
    pub generation: u64,
}

/// Every texture cache, and the caches whose content `update` is currently
/// running, outermost first.
#[derive(Debug)]
pub struct TextureCaches {
    caches: Vec<CacheState>,
    ancestors: Vec<usize>,
}

/// The state of a cache after an invalidation.
pub open spec fn invalidated(s: CacheState) -> CacheState {
    CacheState {
        invalidated: true,
        generation: vstd::wrapping::u64_specs::wrapping_add(s.generation, 1),
    }
}

impl TextureCache {
    /// The index of the cache this handle names.
    pub closed spec fn id(self) -> int {
        self.0 as int
    }
}

impl TextureCaches {
    /// The state of every cache, in creation order.
    pub closed spec fn states(&self) -> Seq<CacheState> {
        self.caches@
    }

    /// The ancestor stack, outermost first, as cache indices.
    pub closed spec fn stack(&self) -> Seq<usize> {
        self.ancestors@
    }

    /// Every ancestor names an existing cache.
    pub closed spec fn wf(&self) -> bool {
        forall|i: int|
            0 <= i < self.ancestors@.len() ==> #[trigger] self.ancestors@[i] < self.caches@.len()
    }

    /// Whether `cache` names a cache of this set.
    pub open spec fn has(&self, cache: TextureCache) -> bool {
        0 <= cache.id() < self.states().len()
    }

    /// The states after every cache on the ancestor stack was invalidated.
    pub open spec fn ancestors_invalidated(&self) -> Seq<CacheState> {
        Seq::new(
            self.states().len(),
            |i: int|
                if self.stack().contains(i as usize) {
                    invalidated(self.states()[i])
                } else {
                    self.states()[i]
                },
        )
    }

    /// No caches, nothing on the stack.
    pub fn new() -> (caches: Self)
        ensures
            caches.wf(),
            caches.states() == Seq::<CacheState>::empty(),
            caches.stack() == Seq::<usize>::empty(),
    {
        TextureCaches { caches: Vec::new(), ancestors: Vec::new() }
    }

    /// A new cache. A fresh cache has nothing recorded, so it starts
    /// invalidated, at generation 1.
    pub fn create(&mut self) -> (cache: TextureCache)
        requires
            old(self).wf(),
        ensures
            final(self).wf(),
            cache.id() == old(self).states().len(),
            final(self).states() == old(self).states().push(
                CacheState { invalidated: true, generation: 1 },
            ),
            final(self).stack() == old(self).stack(),
    {
        let id = self.caches.len();
        self.caches.push(CacheState { invalidated: true, generation: 1 });
        TextureCache(id)
    }

    /// Marks `cache` stale and moves it to the next generation.
    pub fn invalidate(&mut self, cache: TextureCache)
        requires
            old(self).wf(),
            old(self).has(cache),
        ensures
            final(self).wf(),
            final(self).states() == old(self).states().update(
                cache.id(),
                invalidated(old(self).states()[cache.id()]),
            ),
            final(self).stack() == old(self).stack(),
    {
        let s = self.caches[cache.0];
        self.caches.set(
            cache.0,
            CacheState { invalidated: true, generation: s.generation.wrapping_add(1) },
        );
    }

    /// Whether `cache` names a cache of this set.
    pub fn contains(&self, cache: TextureCache) -> (found: bool)
        ensures
            found == self.has(cache),
    {
        cache.0 < self.caches.len()
    }

    /// Whether `cache` is stale.
    pub fn is_invalidated(&self, cache: TextureCache) -> (stale: bool)
        requires
            self.has(cache),
        ensures
            stale == self.states()[cache.id()].invalidated,
    {
        self.caches[cache.0].invalidated
    }

    /// Whether `cache` is stale; clears the flag.
    pub fn take_invalidated(&mut self, cache: TextureCache) -> (stale: bool)
        requires
            old(self).wf(),
            old(self).has(cache),
        ensures
            final(self).wf(),
            stale == old(self).states()[cache.id()].invalidated,
            final(self).states() == old(self).states().update(
                cache.id(),
                CacheState {
                    invalidated: false,
                    generation: old(self).states()[cache.id()].generation,
                },
            ),
            final(self).stack() == old(self).stack(),
    {
        let s = self.caches[cache.0];
        self.caches.set(cache.0, CacheState { invalidated: false, generation: s.generation });
        s.invalidated
    }

    /// The generation of `cache`.
    pub fn generation(&self, cache: TextureCache) -> (generation: u64)
        requires
            self.has(cache),
        ensures
            generation == self.states()[cache.id()].generation,
    {
        self.caches[cache.0].generation
    }

    /// Invalidates every registered ancestor unconditionally.
    pub fn invalidate_ancestors(&mut self)
        requires
            old(self).wf(),
        ensures
            final(self).wf(),
            final(self).states() == old(self).ancestors_invalidated(),
            final(self).stack() == old(self).stack(),
    {
        let ghost pre = *self;
        let mut i: usize = 0;
        let n = self.caches.len();
        while i < n
            invariant
                n == self.caches@.len(),
                n == pre.caches@.len(),
                i <= n,
                self.ancestors@ == pre.ancestors@,
                pre.wf(),
                forall|k: int|
                    0 <= k < n ==> #[trigger] self.caches@[k] == if k < i && pre.stack().contains(
                        k as usize,
                    ) {
                        invalidated(pre.caches@[k])
                    } else {
                        pre.caches@[k]
                    },
            decreases n - i,
        {
            if self.on_stack(i) {
                let s = self.caches[i];
                self.caches.set(
                    i,
                    CacheState { invalidated: true, generation: s.generation.wrapping_add(1) },
                );
            }
            i = i + 1;
        }
        assert(self.caches@ =~= pre.ancestors_invalidated());
    }

    /// Whether cache `id` is on the ancestor stack.
    fn on_stack(&self, id: usize) -> (found: bool)
        ensures
            found == self.stack().contains(id),
    {
        let mut j: usize = 0;
        while j < self.ancestors.len()
            invariant
                j <= self.ancestors@.len(),
                forall|k: int| 0 <= k < j ==> self.ancestors@[k] != id,
            decreases self.ancestors@.len() - j,
        {
            if self.ancestors[j] == id {
                assert(self.ancestors@[j as int] == id);
                return true;
            }
            j = j + 1;
        }
        false
    }

    /// Invalidates every registered ancestor if `cache` was invalidated
    /// since the generation stored in `propagated`, and records the new
    /// generation. Returns whether it propagated.
    pub fn propagate(&mut self, cache: TextureCache, propagated: &mut u64) -> (did: bool)
        requires
            old(self).wf(),
            old(self).has(cache),
        ensures
            final(self).wf(),
            did == (old(self).states()[cache.id()].generation != *old(propagated)),
            *final(propagated) == old(self).states()[cache.id()].generation,
            did ==> final(self).states() == old(self).ancestors_invalidated(),
            !did ==> final(self).states() == old(self).states(),
            final(self).stack() == old(self).stack(),
    {
        let generation = self.caches[cache.0].generation;
        if generation == *propagated {
            return false;
        }
        *propagated = generation;
        self.invalidate_ancestors();
        true
    }

    /// Registers `cache` as an ancestor of everything updated until the
    /// matching [`leave_ancestor`](Self::leave_ancestor).
    pub fn enter_ancestor(&mut self, cache: TextureCache)
        requires
            old(self).wf(),
            old(self).has(cache),
        ensures
            final(self).wf(),
            final(self).states() == old(self).states(),
            final(self).stack() == old(self).stack().push(cache.id() as usize),
    {
        self.ancestors.push(cache.0);
    }

    /// Unregisters the innermost ancestor.
    pub fn leave_ancestor(&mut self)
        requires
            old(self).wf(),
        ensures
            final(self).wf(),
            final(self).states() == old(self).states(),
            final(self).stack() == if old(self).stack().len() > 0 {
                old(self).stack().drop_last()
            } else {
                old(self).stack()
            },
    {
        let _ = self.ancestors.pop();
    }
}

/// Propagation happens once per invalidation: after a propagation the slot
/// holds the cache's generation, so propagating the unchanged cache again
/// reports nothing, while an invalidation always moves the cache to a
/// generation the slot does not hold, so the next propagation reports it.
pub proof fn law_propagation_happens_once_per_invalidation(s: CacheState, slot: u64)
    requires
        slot == s.generation,
    ensures
        !(s.generation != slot),
        invalidated(s).generation != slot,
        invalidated(s).invalidated,
{
}

/// Every ancestor on the stack is invalidated by a propagation, and no
/// other cache is touched.
pub proof fn law_every_ancestor_is_invalidated(c: &TextureCaches)
    requires
        c.wf(),
    ensures
        c.ancestors_invalidated().len() == c.states().len(),
        forall|i: int|
            0 <= i < c.stack().len() ==> #[trigger] c.ancestors_invalidated()[c.stack()[i] as int]
                == invalidated(c.states()[c.stack()[i] as int]),
        forall|k: int|
            0 <= k < c.states().len() && !c.stack().contains(k as usize)
                ==> #[trigger] c.ancestors_invalidated()[k] == c.states()[k],
{
    assert forall|i: int| 0 <= i < c.stack().len() implies #[trigger] c.ancestors_invalidated()[c.stack()[i] as int]
        == invalidated(c.states()[c.stack()[i] as int]) by {
        assert(c.stack().contains(c.stack()[i]));
        assert(c.stack()[i] < c.states().len());
    }
}

/// The stack is empty outside the scope: leaving an ancestor undoes
/// entering it.
pub proof fn law_leave_undoes_enter(stack: Seq<usize>, id: usize)
    ensures
        stack.push(id).len() > 0,
        stack.push(id).drop_last() == stack,
{
    assert(stack.push(id).drop_last() =~= stack);
}

} // verus!
