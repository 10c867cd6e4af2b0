//! The per-kernel cell that remembers the module cache of the current
//! context.
//!
//! A kernel has one cell for the life of the process. The cell is empty or
//! owns one `ModuleData`. That cache stands for the context it was built
//! against and for no other: once another context asks, the held cache is
//! stale, it is dropped, and a fresh one for the asking context takes its
//! place.
use vstd::prelude::*;
use crate::context::{Accelerator, Context};
use crate::module_data::{compile_step, lookup, slot_matches, ModuleData, PlatformId, PlatformModule};

verus! {

pub struct ModuleContextData {
    slot: Option<ModuleData>,
}

impl ModuleContextData {
    pub closed spec fn held(&self) -> Option<ModuleData> {
        self.slot
    }

    /// An empty cell.
    pub fn new() -> (r: ModuleContextData)
        ensures
            r.held() is None,
    {
        ModuleContextData { slot: None }
    }

    pub fn is_none(&self) -> (r: bool)
        ensures
            r == (self.held() is None),
    {
        !self.is_some()
    }

    pub fn is_some(&self) -> (r: bool)
        ensures
            r == (self.held() is Some),
    {
        self.slot.is_some()
    }

    /// The held cache if it was built against `context`; `None` if the cell
    /// is empty or its cache is stale.
    pub fn upgrade(&self, context: &Context) -> (r: Option<&ModuleData>)
        ensures
            r is Some <==> held_for(self.held(), context.spec_id()),
            r is Some ==> *r->0 == self.held()->0,
    {
        match &self.slot {
            Some(data) => {
                if data.owned_by(context) {
                    Some(data)
                } else {
                    None
                }
            },
            None => None,
        }
    }

    /// Empties the cell, dropping the cache it held. Caches held elsewhere
    /// are not touched.
    pub fn drop(&mut self)
        ensures
            final(self).held() is None,
    {
        self.slot = None;
    }

    /// The cache of `context`: the held one if it was built against
    /// `context`, else a fresh one that the cell now holds in place of an
    /// empty or stale slot.
    pub fn get_cache_data(&mut self, context: &Context) -> (r: &mut ModuleData)
        ensures
            resolve_step(old(self).held(), Some(*r), context.spec_id()),
            final(self).held() == Some(*final(r)),
    {
        let hit = match &self.slot {
            Some(data) => data.owned_by(context),
            None => false,
        };
        if !hit {
            self.slot = Some(ModuleData::new(context));
        }
        self.slot.as_mut().unwrap()
    }

    /// Compiles through the cache of `context`, which `get_cache_data`
    /// resolves first: a module cached there for `accel` and platform `p`
    /// is returned, else `codegen` runs and a success is cached.
    pub fn compile<F, E>(&mut self, context: &Context, accel: &Accelerator, p: PlatformId, codegen: F, expect_platform_ty: bool) -> (r: Result<PlatformModule, E>) where
        F: FnOnce() -> Result<PlatformModule, E>,

        requires
            codegen.requires(()),
            accel.id.0 < usize::MAX,
            expect_platform_ty && held_for(old(self).held(), context.spec_id())
                ==> slot_matches(old(self).held()->0.entries(), accel.id, p),
        ensures
            final(self).held() is Some,
            final(self).held()->0.owner() == context.spec_id(),
            ({
                let before = if held_for(old(self).held(), context.spec_id()) {
                    old(self).held()->0.entries()
                } else {
                    Seq::empty()
                };
                &&& compile_step(before, final(self).held()->0.entries(), accel.id, p, r)
                &&& lookup(before, accel.id, p) is None ==> codegen.ensures((), r)
            }),
    {
        let data = self.get_cache_data(context);
        data.compile(accel, p, codegen, expect_platform_ty)
    }
}

/// `held` is a cache built against context `ctx`.
pub open spec fn held_for(held: Option<ModuleData>, ctx: nat) -> bool {
    held is Some && held->0.owner() == ctx
}

/// What `get_cache_data` does to a cell for context `ctx`: a cache of `ctx`
/// stays as it is; an empty or stale slot gets a fresh, empty cache of
/// `ctx`.
pub open spec fn resolve_step(before: Option<ModuleData>, after: Option<ModuleData>, ctx: nat) -> bool {
    &&& after is Some
    &&& held_for(before, ctx) ==> after == before
    &&& !held_for(before, ctx) ==> {
        &&& after->0.owner() == ctx
        &&& after->0.entries() == Seq::<Option<PlatformModule>>::empty()
    }
}

/// Stale replacement: when the cell holds the cache of context `a` and a
/// different context `b` resolves it, `b` gets a fresh, empty cache of its
/// own, and the cache of `a` is no longer held. Resolving again for `b`
/// then keeps that cache.
pub proof fn lemma_stale_cache_replaced(
    before: Option<ModuleData>,
    after: Option<ModuleData>,
    again: Option<ModuleData>,
    a: nat,
    b: nat,
)
    requires
        held_for(before, a),
        a != b,
        resolve_step(before, after, b),
        resolve_step(after, again, b),
    ensures
        held_for(after, b),
        !held_for(after, a),
        after->0.entries() == Seq::<Option<PlatformModule>>::empty(),
        again == after,
{
}

/// Within one context the cell resolves to one cache: resolving twice for
/// the same context yields the same cache.
pub proof fn lemma_one_cache_per_context(
    before: Option<ModuleData>,
    first: Option<ModuleData>,
    second: Option<ModuleData>,
    ctx: nat,
)
    requires
        resolve_step(before, first, ctx),
        resolve_step(first, second, ctx),
    ensures
        held_for(first, ctx),
        second == first,
{
}

} // verus!
