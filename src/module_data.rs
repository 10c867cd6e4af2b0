//! Per-context cache of compiled modules, one slot per accelerator.
//!
//! A slot is filled by the first successful compile for its accelerator and
//! then hands back that module on every later request for that platform:
//! the code generator runs only while the slot holds no module of the
//! platform asked for, and a failed compile leaves the slot as it was so
//! that a later call tries again.
use vstd::prelude::*;
use crate::context::{Accelerator, AcceleratorId, Context, WeakContext};
use crate::table::{grow_to, padded};

verus! {

/// Identifies the platform that produced a module.
#[derive(Clone, Copy, Debug, PartialEq, Eq, Structural, Hash)]
pub struct PlatformId(pub u32);

/// A compiled, device-resident module: the platform that loaded it and the
/// platform's handle for it. The cache never looks inside the handle.
#[derive(Clone, Copy, Debug, PartialEq, Eq, Structural, Hash)]
pub struct PlatformModule {
    pub platform: PlatformId,
    pub handle: u64,
}

/// A platform's own view of the modules it loads. A platform names itself
/// with a `PlatformId` and rebuilds its module type from a handle.
pub trait PlatformModuleData: Sized {
    spec fn spec_platform() -> PlatformId;

    fn platform() -> (r: PlatformId)
        ensures
            r == Self::spec_platform(),
    ;

    fn from_handle(handle: u64) -> Self;

    /// The module as this platform's type, if this platform produced it.
    fn downcast(m: &PlatformModule) -> (r: Option<Self>)
        ensures
            r is Some <==> m.platform == Self::spec_platform(),
    {
        if m.platform == Self::platform() {
            Some(Self::from_handle(m.handle))
        } else {
            None
        }
    }
}

pub struct ModuleData {
    ctxt: WeakContext,
    entries: Vec<Option<PlatformModule>>,
}

/// The slot of `id` in `entries`, empty past the end.
pub open spec fn slot(entries: Seq<Option<PlatformModule>>, id: AcceleratorId) -> Option<PlatformModule> {
    if id.0 < entries.len() {
        entries[id.0 as int]
    } else {
        None
    }
}

/// What a lookup for platform `p` yields: the slot's module if it was
/// produced by `p`.
pub open spec fn lookup(entries: Seq<Option<PlatformModule>>, id: AcceleratorId, p: PlatformId) -> Option<PlatformModule> {
    match slot(entries, id) {
        Some(m) => if m.platform == p { Some(m) } else { None },
        None => None,
    }
}

/// The slot of `id` is empty or holds a module of platform `p`.
pub open spec fn slot_matches(entries: Seq<Option<PlatformModule>>, id: AcceleratorId, p: PlatformId) -> bool {
    slot(entries, id) is Some ==> slot(entries, id)->0.platform == p
}

/// The entries with `m` published in the slot of `id`.
pub open spec fn published(entries: Seq<Option<PlatformModule>>, id: AcceleratorId, m: PlatformModule) -> Seq<Option<PlatformModule>> {
    padded(entries, (id.0 + 1) as nat).update(id.0 as int, Some(m))
}

impl ModuleData {
    pub closed spec fn owner(&self) -> nat {
        self.ctxt.spec_id()
    }

    pub closed spec fn entries(&self) -> Seq<Option<PlatformModule>> {
        self.entries@
    }

    /// An empty cache owned by `ctxt`.
    pub fn new(ctxt: &Context) -> (r: ModuleData)
        ensures
            r.owner() == ctxt.spec_id(),
            r.entries() == Seq::<Option<PlatformModule>>::empty(),
    {
        ModuleData { ctxt: ctxt.downgrade_ref(), entries: Vec::new() }
    }

    /// Whether this cache belongs to `ctxt`.
    pub fn owned_by(&self, ctxt: &Context) -> (r: bool)
        ensures
            r == (self.owner() == ctxt.spec_id()),
    {
        self.ctxt.upgrade(ctxt).is_some()
    }

    /// The module cached for accelerator `id` if platform `p` produced it.
    /// A slot holding another platform's module reads as empty; a caller
    /// that asserts the platform (`expect_platform_ty`) must not meet one.
    pub fn get(&self, id: AcceleratorId, p: PlatformId, expect_platform_ty: bool) -> (r: Option<PlatformModule>)
        requires
            expect_platform_ty ==> slot_matches(self.entries(), id, p),
        ensures
            r == lookup(self.entries(), id, p),
    {
        if id.0 < self.entries.len() {
            match self.entries[id.0] {
                Some(m) => {
                    if m.platform == p {
                        Some(m)
                    } else {
                        None
                    }
                },
                None => None,
            }
        } else {
            None
        }
    }

    /// Whether the slot of `id` holds a module of a platform other than `p`.
    pub fn holds_other_platform(&self, id: AcceleratorId, p: PlatformId) -> (r: bool)
        ensures
            r == !slot_matches(self.entries(), id, p),
    {
        if id.0 < self.entries.len() {
            match self.entries[id.0] {
                Some(m) => m.platform != p,
                None => false,
            }
        } else {
            false
        }
    }

    /// The module for `accel` built by platform `p`: the cached one if there
    /// is one; otherwise `codegen` compiles and loads it, and a success is
    /// cached before it is returned. A failure is returned as it came and
    /// caches nothing.
    pub fn compile<F, E>(&mut self, accel: &Accelerator, p: PlatformId, codegen: F, expect_platform_ty: bool) -> (r: Result<PlatformModule, E>) where
        F: FnOnce() -> Result<PlatformModule, E>,

        requires
            codegen.requires(()),
            accel.id.0 < usize::MAX,
            expect_platform_ty ==> slot_matches(old(self).entries(), accel.id, p),
        ensures
            final(self).owner() == old(self).owner(),
            compile_step(old(self).entries(), final(self).entries(), accel.id, p, r),
            lookup(old(self).entries(), accel.id, p) is None ==> codegen.ensures((), r),
    {
        let id = accel.id;
        if let Some(m) = self.get(id, p, expect_platform_ty) {
            return Ok(m);
        }
        match codegen() {
            Ok(m) => {
                grow_to(&mut self.entries, id.0 + 1);
                self.entries.set(id.0, Some(m));
                Ok(m)
            },
            Err(e) => Err(e),
        }
    }
}

/// What `compile` does to a cache's entries, from those before the call to
/// those after it and its result: a cached module of the platform is
/// returned and nothing changes; otherwise a compiled module is published
/// in the slot, and an error leaves the entries as they were.
pub open spec fn compile_step<E>(
    before: Seq<Option<PlatformModule>>,
    after: Seq<Option<PlatformModule>>,
    id: AcceleratorId,
    p: PlatformId,
    r: Result<PlatformModule, E>,
) -> bool {
    match lookup(before, id, p) {
        Some(m) => r == Ok::<PlatformModule, E>(m) && after == before,
        None => match r {
            Ok(m) => after == published(before, id, m),
            Err(_) => after == before,
        },
    }
}

/// Once `compile` has cached a module of platform `p` for accelerator
/// `id`, every later `compile` on any accelerator, and every lookup, for
/// platform `p` leaves that slot holding the same module.
pub proof fn lemma_write_once<E>(
    before: Seq<Option<PlatformModule>>,
    after: Seq<Option<PlatformModule>>,
    other: AcceleratorId,
    r: Result<PlatformModule, E>,
    id: AcceleratorId,
    p: PlatformId,
    m: PlatformModule,
)
    requires
        lookup(before, id, p) == Some(m),
        compile_step(before, after, other, p, r),
    ensures
        lookup(after, id, p) == Some(m),
{
    if lookup(before, other, p) is None && r is Ok {
        assert(other != id);
        let n = (other.0 + 1) as nat;
        assert(padded(before, n)[id.0 as int] == before[id.0 as int]);
    }
}

/// A slot that holds `m` at call `from` still holds it at call `to`.
proof fn lemma_slot_stays<E>(
    states: Seq<Seq<Option<PlatformModule>>>,
    results: Seq<Result<PlatformModule, E>>,
    id: AcceleratorId,
    p: PlatformId,
    from: int,
    to: int,
    m: PlatformModule,
)
    requires
        0 <= from <= to < states.len(),
        states.len() == results.len() + 1,
        lookup(states[from], id, p) == Some(m),
        forall|k: int| 0 <= k < results.len() ==> compile_step(states[k], states[k + 1], id, p, #[trigger] results[k]),
    ensures
        lookup(states[to], id, p) == Some(m),
    decreases to - from,
{
    if from < to {
        assert(compile_step(states[from], states[from + 1], id, p, results[from]));
        lemma_slot_stays(states, results, id, p, from + 1, to, m);
    }
}

/// Single compile: over any run of `compile` calls for one accelerator and
/// platform, starting from an empty slot, the code generator is consulted
/// only until its first success (while the slot is empty); from then on
/// every call returns that same module. `states` are the cache's entries
/// between the calls, `results` what the calls returned.
pub proof fn lemma_single_compile<E>(
    states: Seq<Seq<Option<PlatformModule>>>,
    results: Seq<Result<PlatformModule, E>>,
    id: AcceleratorId,
    p: PlatformId,
)
    requires
        states.len() == results.len() + 1,
        forall|k: int| 0 <= k < results.len() ==> compile_step(states[k], states[k + 1], id, p, #[trigger] results[k]),
        forall|k: int| 0 <= k < results.len() && (#[trigger] results[k]) is Ok ==> results[k]->Ok_0.platform == p,
    ensures
        forall|i: int, j: int| 0 <= i < j < results.len() && (#[trigger] results[i]) is Ok ==> {
            &&& results[j] == results[i]
            &&& lookup(#[trigger] states[j], id, p) == Some(results[i]->Ok_0)
        },
{
    assert forall|i: int, j: int| 0 <= i < j < results.len() && (#[trigger] results[i]) is Ok implies {
        &&& results[j] == results[i]
        &&& lookup(#[trigger] states[j], id, p) == Some(results[i]->Ok_0)
    } by {
        let m = results[i]->Ok_0;
        assert(compile_step(states[i], states[i + 1], id, p, results[i]));
        if lookup(states[i], id, p) is None {
            assert(states[i + 1] == published(states[i], id, m));
            assert(states[i + 1][id.0 as int] == Some(m));
        }
        assert(lookup(states[i + 1], id, p) == Some(m));
        lemma_slot_stays(states, results, id, p, i + 1, j, m);
        assert(compile_step(states[j], states[j + 1], id, p, results[j]));
    }
}

} // verus!
