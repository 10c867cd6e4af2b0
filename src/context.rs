//! The context: accelerator identities, the table of registered
//! accelerators, and the registry that lets accelerators of one target share
//! a single code generator.
//!
//! A code generator ("driver") is known by a `DriverId`. The registry maps a
//! target to the driver last built for it, without keeping that driver
//! alive: a driver is live while some registered accelerator uses it, and a
//! target whose driver is no longer live gets a new one.
use vstd::prelude::*;
use crate::table::{grow_to, padded};

verus! {

/// Identity of an accelerator within one context.
#[derive(Clone, Copy, Debug, PartialEq, Eq, Structural, Hash)]
pub struct AcceleratorId(pub usize);

impl AcceleratorId {
    pub fn new(index: usize) -> (r: AcceleratorId)
        ensures
            r.0 == index,
    {
        AcceleratorId(index)
    }

    pub fn index(&self) -> (r: usize)
        ensures
            r == self.0,
    {
        self.0
    }
}

/// A compilation target: an architecture and its option set.
#[derive(Clone, Copy, Debug, PartialEq, Eq, Structural, Hash)]
pub struct AcceleratorTargetDesc {
    pub arch: u32,
    pub options: u64,
}

/// Identity of a code generator built for one target.
#[derive(Clone, Copy, Debug, PartialEq, Eq, Structural, Hash)]
pub struct DriverId(pub usize);

/// A device as the context knows it: its identity, its target, and, once
/// initialized, the code generator it uses.
#[derive(Clone, Copy, Debug, PartialEq, Eq, Structural)]
pub struct Accelerator {
    pub id: AcceleratorId,
    pub target: AcceleratorTargetDesc,
    pub driver: Option<DriverId>,
}

impl Accelerator {
    /// A device that is not initialized yet.
    pub fn new(id: AcceleratorId, target: AcceleratorTargetDesc) -> (r: Accelerator)
        ensures
            r == (Accelerator { id, target, driver: None }),
    {
        Accelerator { id, target, driver: None }
    }
}

/// How `initialize_accel` gave an accelerator its code generator.
#[derive(Clone, Copy, Debug, PartialEq, Eq, Structural)]
pub enum DriverAttach {
    /// The target's live code generator was attached.
    Shared(DriverId),
    /// No live code generator existed for the target: a new one was
    /// registered and the caller builds it.
    Created(DriverId),
}

impl DriverAttach {
    pub open spec fn spec_driver(self) -> DriverId {
        match self {
            DriverAttach::Shared(d) => d,
            DriverAttach::Created(d) => d,
        }
    }

    pub fn driver(&self) -> (r: DriverId)
        ensures
            r == self.spec_driver(),
    {
        match self {
            DriverAttach::Shared(d) => *d,
            DriverAttach::Created(d) => *d,
        }
    }
}

/// Hands out context identities, each once.
pub struct ContextIds {
    next: u64,
}

impl ContextIds {
    pub closed spec fn spec_next(&self) -> nat {
        self.next as nat
    }

    pub fn new() -> (r: ContextIds)
        ensures
            r.spec_next() == 0,
    {
        ContextIds { next: 0 }
    }
}

/// A weak reference to a context: it names the context without keeping
/// its data.
#[derive(Clone, Copy, Debug, PartialEq, Eq, Structural)]
pub struct WeakContext {
    id: u64,
}

impl WeakContext {
    pub closed spec fn spec_id(&self) -> nat {
        self.id as nat
    }

    /// `live` if this refers to it: a weak reference upgrades only to the
    /// context it was taken from.
    pub fn upgrade<'a>(&self, live: &'a Context) -> (r: Option<&'a Context>)
        ensures
            r is Some <==> self.spec_id() == live.spec_id(),
            r is Some ==> *r->0 == *live,
    {
        if self.id == live.id {
            Some(live)
        } else {
            None
        }
    }
}

/// The root of the caching subsystem: registered accelerators and the
/// code generators they share.
pub struct Context {
    id: u64,
    next_accel_id: usize,
    accelerators: Vec<Option<Accelerator>>,
    /// Each target at most once, with the code generator last built for it.
    translators: Vec<(AcceleratorTargetDesc, DriverId)>,
    /// The target of each code generator, indexed by `DriverId`.
    drivers: Vec<AcceleratorTargetDesc>,
}

/// Index of the registry entry for `t`, if any.
pub open spec fn find_target(tr: Seq<(AcceleratorTargetDesc, DriverId)>, t: AcceleratorTargetDesc) -> Option<int> {
    if exists|i: int| 0 <= i < tr.len() && tr[i].0 == t {
        Some(choose|i: int| 0 <= i < tr.len() && tr[i].0 == t)
    } else {
        None
    }
}

/// Some registered accelerator uses driver `d`.
pub open spec fn driver_live(accels: Seq<Option<Accelerator>>, d: DriverId) -> bool {
    exists|i: int| 0 <= i < accels.len() && #[trigger] accels[i] is Some && accels[i]->0.driver == Some(d)
}

/// Registry entries have distinct targets and name drivers that exist.
pub open spec fn translators_wf(tr: Seq<(AcceleratorTargetDesc, DriverId)>, n_drivers: nat) -> bool {
    &&& forall|i: int, j: int| 0 <= i < j < tr.len() ==> tr[i].0 != tr[j].0
    &&& forall|i: int| 0 <= i < tr.len() ==> (#[trigger] tr[i]).1.0 < n_drivers
}

/// The registry with `t` mapped to `d`: the entry for `t` replaced, or
/// added at the end.
pub open spec fn registry_set(tr: Seq<(AcceleratorTargetDesc, DriverId)>, t: AcceleratorTargetDesc, d: DriverId) -> Seq<(AcceleratorTargetDesc, DriverId)> {
    match find_target(tr, t) {
        Some(i) => tr.update(i, (t, d)),
        None => tr.push((t, d)),
    }
}

impl Context {
    pub closed spec fn spec_id(&self) -> nat {
        self.id as nat
    }

    pub closed spec fn spec_next_accel_id(&self) -> nat {
        self.next_accel_id as nat
    }

    pub closed spec fn accels(&self) -> Seq<Option<Accelerator>> {
        self.accelerators@
    }

    pub closed spec fn registry(&self) -> Seq<(AcceleratorTargetDesc, DriverId)> {
        self.translators@
    }

    pub closed spec fn driver_targets(&self) -> Seq<AcceleratorTargetDesc> {
        self.drivers@
    }

    pub closed spec fn wf(&self) -> bool {
        &&& translators_wf(self.translators@, self.drivers@.len())
        &&& self.drivers@.len() <= usize::MAX
        &&& forall|i: int| 0 <= i < self.accelerators@.len() && #[trigger] self.accelerators@[i] is Some
            ==> self.accelerators@[i]->0.id.0 == i
    }

    /// A fresh context with the next identity of `ids`; `None` once all
    /// identities have been handed out.
    pub fn new(ids: &mut ContextIds) -> (r: Option<Context>)
        ensures
            new_step(*old(ids), *final(ids), r),
    {
        if ids.next == u64::MAX {
            return None;
        }
        let id = ids.next;
        ids.next = ids.next + 1;
        Some(Context {
            id,
            next_accel_id: 0,
            accelerators: Vec::new(),
            translators: Vec::new(),
            drivers: Vec::new(),
        })
    }

    pub fn downgrade_ref(&self) -> (r: WeakContext)
        ensures
            r.spec_id() == self.spec_id(),
    {
        WeakContext { id: self.id }
    }

    /// Whether `take_accel_id` may be called: identities are capped at half
    /// the range of `usize`.
    pub fn can_take_accel_id(&self) -> (r: bool)
        ensures
            r == (self.spec_next_accel_id() <= usize::MAX / 2),
    {
        self.next_accel_id <= usize::MAX / 2
    }

    /// Allocates the next accelerator identity.
    pub fn take_accel_id(&mut self) -> (r: AcceleratorId)
        requires
            old(self).spec_next_accel_id() <= usize::MAX / 2,
        ensures
            r.0 == old(self).spec_next_accel_id(),
            final(self).spec_next_accel_id() == old(self).spec_next_accel_id() + 1,
            final(self).spec_id() == old(self).spec_id(),
            final(self).accels() == old(self).accels(),
            final(self).registry() == old(self).registry(),
            final(self).driver_targets() == old(self).driver_targets(),
            final(self).wf() == old(self).wf(),
    {
        let id = self.next_accel_id;
        self.next_accel_id = id + 1;
        AcceleratorId(id)
    }

    /// Index of the registry entry for `t`.
    fn find_translator(&self, t: &AcceleratorTargetDesc) -> (r: Option<usize>)
        requires
            self.wf(),
        ensures
            r is Some <==> find_target(self.registry(), *t) is Some,
            r is Some ==> r->0 == find_target(self.registry(), *t)->0,
    {
        let mut i: usize = 0;
        while i < self.translators.len()
            invariant
                self.wf(),
                i <= self.translators@.len(),
                forall|j: int| 0 <= j < i ==> self.translators@[j].0 != *t,
            decreases self.translators@.len() - i,
        {
            if self.translators[i].0 == *t {
                proof {
                    let tr = self.translators@;
                    let k = choose|k: int| 0 <= k < tr.len() && tr[k].0 == *t;
                    assert(translators_wf(tr, self.drivers@.len()));
                    if k != i as int {
                        assert(k < i || i < k);
                    }
                }
                return Some(i);
            }
            i = i + 1;
        }
        None
    }

    /// Whether some registered accelerator uses driver `d`.
    fn is_driver_live(&self, d: DriverId) -> (r: bool)
        ensures
            r == driver_live(self.accels(), d),
    {
        let mut i: usize = 0;
        while i < self.accelerators.len()
            invariant
                i <= self.accelerators@.len(),
                forall|j: int| 0 <= j < i ==> !(#[trigger] self.accelerators@[j] is Some && self.accelerators@[j]->0.driver == Some(d)),
            decreases self.accelerators@.len() - i,
        {
            match &self.accelerators[i] {
                Some(a) => {
                    if a.driver == Some(d) {
                        return true;
                    }
                },
                None => {},
            }
            i = i + 1;
        }
        false
    }

    /// Gives `accel` its code generator and registers it. If the registry
    /// names a live code generator for the accelerator's target, that one is
    /// shared; otherwise a new one is registered for the target, replacing a
    /// dead entry or adding one. The accelerator is then published at its
    /// identity, the table growing as needed.
    pub fn initialize_accel(&mut self, accel: &mut Accelerator) -> (r: DriverAttach)
        requires
            old(self).wf(),
            old(accel).id.0 < usize::MAX,
        ensures
            final(self).wf(),
            init_step(*old(self), *old(accel), *final(self), *final(accel), r),
    {
        let t = accel.target;
        let found = self.find_translator(&t);
        let r = match found {
            Some(i) => {
                let d = self.translators[i].1;
                if self.is_driver_live(d) {
                    DriverAttach::Shared(d)
                } else {
                    let nd = DriverId(self.drivers.len());
                    self.drivers.push(t);
                    self.translators.set(i, (t, nd));
                    DriverAttach::Created(nd)
                }
            },
            None => {
                let nd = DriverId(self.drivers.len());
                self.drivers.push(t);
                self.translators.push((t, nd));
                DriverAttach::Created(nd)
            },
        };
        accel.driver = Some(r.driver());
        proof {
            assert(self.drivers.len() == self.drivers@.len());
        }
        let ghost tr = self.translators@;
        let ghost nd = self.drivers@.len();
        assert forall|i: int| 0 <= i < tr.len() implies (#[trigger] tr[i]).1.0 < nd by {}
        let idx = accel.id.0;
        grow_to(&mut self.accelerators, idx + 1);
        self.accelerators.set(idx, Some(*accel));
        proof {
            let old_tr = old(self).translators@;
            if found is None {
                assert(self.translators@ =~= registry_set(old_tr, t, r.spec_driver()));
            }
            assert forall|i: int, j: int| 0 <= i < j < tr.len() implies tr[i].0 != tr[j].0 by {
                if found is None {
                    assert(find_target(old_tr, t) is None);
                    if j == old_tr.len() {
                        assert(!(old_tr[i].0 == t));
                    }
                }
            }
            let acc = self.accelerators@;
            assert forall|i: int| 0 <= i < acc.len() && #[trigger] acc[i] is Some implies acc[i]->0.id.0 == i by {
                if i != idx as int {
                    assert(acc[i] == padded(old(self).accelerators@, (idx + 1) as nat)[i]);
                    if i >= old(self).accelerators@.len() {
                        assert(acc[i] is None);
                    }
                }
            }
        }
        r
    }

    /// Takes the accelerator with identity `id` out of the table; its code
    /// generator stops being live once no registered accelerator uses it.
    pub fn remove_accel(&mut self, id: AcceleratorId) -> (r: Option<Accelerator>)
        requires
            old(self).wf(),
        ensures
            final(self).wf(),
            final(self).spec_id() == old(self).spec_id(),
            final(self).spec_next_accel_id() == old(self).spec_next_accel_id(),
            final(self).registry() == old(self).registry(),
            final(self).driver_targets() == old(self).driver_targets(),
            id.0 < old(self).accels().len() ==> {
                &&& r == old(self).accels()[id.0 as int]
                &&& final(self).accels() == old(self).accels().update(id.0 as int, None)
            },
            id.0 >= old(self).accels().len() ==> r is None && final(self).accels() == old(self).accels(),
    {
        if id.0 < self.accelerators.len() {
            let r = self.accelerators[id.0];
            self.accelerators.set(id.0, None);
            proof {
                let acc = self.accelerators@;
                assert forall|i: int| 0 <= i < acc.len() && #[trigger] acc[i] is Some implies acc[i]->0.id.0 == i by {
                    assert(acc[i] == old(self).accelerators@[i]);
                }
            }
            r
        } else {
            None
        }
    }

    /// The first registered accelerator, by identity, that `f` accepts.
    pub fn find_accel<F>(&self, f: F) -> (r: Option<Accelerator>) where F: Fn(&Accelerator) -> bool
        requires
            forall|a: &Accelerator| #[trigger] f.requires((a,)),
        ensures
            r is Some ==> exists|i: int| 0 <= i < self.accels().len() && self.accels()[i] == r
                && f.ensures((&r->0,), true)
                && forall|j: int| 0 <= j < i && #[trigger] self.accels()[j] is Some
                    ==> f.ensures((&self.accels()[j]->0,), false),
            r is None ==> forall|j: int| 0 <= j < self.accels().len() && #[trigger] self.accels()[j] is Some
                ==> f.ensures((&self.accels()[j]->0,), false),
    {
        let mut i: usize = 0;
        while i < self.accelerators.len()
            invariant
                i <= self.accelerators@.len(),
                self.accels() == self.accelerators@,
                forall|a: &Accelerator| #[trigger] f.requires((a,)),
                forall|j: int| 0 <= j < i && #[trigger] self.accelerators@[j] is Some
                    ==> f.ensures((&self.accelerators@[j]->0,), false),
            decreases self.accelerators@.len() - i,
        {
            match &self.accelerators[i] {
                Some(a) => {
                    if f(a) {
                        return Some(*a);
                    }
                },
                None => {},
            }
            i = i + 1;
        }
        None
    }

    /// The registered accelerators that `f` accepts, by identity.
    pub fn filter_accels<F>(&self, f: F) -> (r: Vec<Accelerator>) where F: Fn(&Accelerator) -> bool
        requires
            self.wf(),
            forall|a: &Accelerator| #[trigger] f.requires((a,)),
        ensures
            forall|k: int| 0 <= k < r@.len() ==> f.ensures((&(#[trigger] r@[k]),), true)
                && exists|i: int| 0 <= i < self.accels().len() && self.accels()[i] == Some(r@[k]),
            forall|k1: int, k2: int| 0 <= k1 < k2 < r@.len() ==> r@[k1].id.0 < r@[k2].id.0,
            forall|j: int| 0 <= j < self.accels().len() && #[trigger] self.accels()[j] is Some
                ==> f.ensures((&self.accels()[j]->0,), false)
                    || exists|k: int| 0 <= k < r@.len() && r@[k] == self.accels()[j]->0,
    {
        let mut out: Vec<Accelerator> = Vec::new();
        let mut i: usize = 0;
        while i < self.accelerators.len()
            invariant
                self.wf(),
                i <= self.accelerators@.len(),
                self.accels() == self.accelerators@,
                forall|a: &Accelerator| #[trigger] f.requires((a,)),
                forall|k: int| 0 <= k < out@.len() ==> f.ensures((&(#[trigger] out@[k]),), true)
                    && exists|m: int| 0 <= m < i && self.accelerators@[m] == Some(out@[k]),
                forall|k: int| 0 <= k < out@.len() ==> (#[trigger] out@[k]).id.0 < i,
                forall|k1: int, k2: int| 0 <= k1 < k2 < out@.len() ==> out@[k1].id.0 < out@[k2].id.0,
                forall|j: int| 0 <= j < i && #[trigger] self.accelerators@[j] is Some
                    ==> f.ensures((&self.accelerators@[j]->0,), false)
                        || exists|k: int| 0 <= k < out@.len() && out@[k] == self.accelerators@[j]->0,
            decreases self.accelerators@.len() - i,
        {
            let ghost prev = out@;
            match &self.accelerators[i] {
                Some(a) => {
                    if f(a) {
                        assert(a.id.0 == i);
                        out.push(*a);
                    }
                },
                None => {},
            }
            proof {
                let acc = self.accelerators@;
                assert forall|k: int| 0 <= k < prev.len() implies out@[k] == prev[k] by {}
                assert forall|k: int| 0 <= k < out@.len() implies f.ensures((&(#[trigger] out@[k]),), true)
                    && exists|m: int| 0 <= m < i + 1 && acc[m] == Some(out@[k]) by {
                    if k < prev.len() {
                        let m = choose|m: int| 0 <= m < i && acc[m] == Some(prev[k]);
                        assert(acc[m] == Some(out@[k]));
                    } else {
                        assert(acc[i as int] == Some(out@[k]));
                    }
                }
                assert forall|j: int| 0 <= j < i + 1 && #[trigger] acc[j] is Some
                    implies f.ensures((&acc[j]->0,), false)
                        || exists|k: int| 0 <= k < out@.len() && out@[k] == acc[j]->0 by {
                    if j < i && !f.ensures((&acc[j]->0,), false) {
                        let k = choose|k: int| 0 <= k < prev.len() && prev[k] == acc[j]->0;
                        assert(out@[k] == acc[j]->0);
                    } else if j == i && out@.len() > prev.len() {
                        assert(out@[prev.len() as int] == acc[j]->0);
                    }
                }
            }
            i = i + 1;
        }
        proof {
            let acc = self.accelerators@;
            assert forall|k: int| 0 <= k < out@.len() implies f.ensures((&(#[trigger] out@[k]),), true)
                && exists|m: int| 0 <= m < acc.len() && acc[m] == Some(out@[k]) by {
                let m = choose|m: int| 0 <= m < i && acc[m] == Some(out@[k]);
            }
        }
        out
    }
}

/// What `Context::new` does: while identities last, a well-formed empty
/// context with the next identity, which is then used up.
pub open spec fn new_step(ids0: ContextIds, ids1: ContextIds, r: Option<Context>) -> bool {
    &&& ids0.spec_next() < u64::MAX ==> {
        &&& r is Some
        &&& ids1.spec_next() == ids0.spec_next() + 1
        &&& r->0.spec_id() == ids0.spec_next()
        &&& r->0.wf()
        &&& r->0.spec_next_accel_id() == 0
        &&& r->0.accels().len() == 0
        &&& r->0.registry().len() == 0
        &&& r->0.driver_targets().len() == 0
    }
    &&& ids0.spec_next() >= u64::MAX ==> r is None && ids1 == ids0
}

/// Two contexts are equal when they are the same context: equality goes by
/// identity, never by contents.
impl PartialEq for Context {
    fn eq(&self, rhs: &Context) -> (r: bool) {
        self.id == rhs.id
    }
}

impl vstd::std_specs::cmp::PartialEqSpecImpl for Context {
    open spec fn obeys_eq_spec() -> bool {
        true
    }

    open spec fn eq_spec(&self, rhs: &Context) -> bool {
        self.spec_id() == rhs.spec_id()
    }
}

impl Eq for Context {
}

/// What `initialize_accel` does, from the context and accelerator before
/// the call to those after it and its result.
pub open spec fn init_step(c0: Context, a0: Accelerator, c1: Context, a1: Accelerator, r: DriverAttach) -> bool {
    let t = a0.target;
    let found = find_target(c0.registry(), t);
    let live = found is Some && driver_live(c0.accels(), c0.registry()[found->0].1);
    &&& c1.spec_id() == c0.spec_id()
    &&& c1.spec_next_accel_id() == c0.spec_next_accel_id()
    &&& a1 == (Accelerator { driver: Some(r.spec_driver()), ..a0 })
    &&& c1.accels() == padded(c0.accels(), (a0.id.0 + 1) as nat).update(a0.id.0 as int, Some(a1))
    &&& live ==> {
        &&& r == DriverAttach::Shared(c0.registry()[found->0].1)
        &&& c1.registry() == c0.registry()
        &&& c1.driver_targets() == c0.driver_targets()
    }
    &&& !live ==> {
        &&& r == DriverAttach::Created(DriverId(c0.driver_targets().len() as usize))
        &&& c1.registry() == registry_set(c0.registry(), t, r.spec_driver())
        &&& c1.driver_targets() == c0.driver_targets().push(t)
    }
}

/// Contexts made one after the other from the same identities are never
/// equal: a context made from `ids0` differs from every context made later,
/// from a state `ids2` at or past the one that its making left.
pub proof fn lemma_new_contexts_differ(
    ids0: ContextIds,
    ids1: ContextIds,
    c1: Context,
    ids2: ContextIds,
    ids3: ContextIds,
    c2: Context,
)
    requires
        new_step(ids0, ids1, Some(c1)),
        new_step(ids2, ids3, Some(c2)),
        ids1.spec_next() <= ids2.spec_next(),
    ensures
        c1.spec_id() != c2.spec_id(),
{
}

/// Two accelerators of one target, initialized one after the other, share
/// the code generator the first one was given.
pub proof fn lemma_equal_targets_share_driver(
    c0: Context,
    x0: Accelerator,
    c1: Context,
    x1: Accelerator,
    r1: DriverAttach,
    y0: Accelerator,
    c2: Context,
    y1: Accelerator,
    r2: DriverAttach,
)
    requires
        c0.wf(),
        c1.wf(),
        init_step(c0, x0, c1, x1, r1),
        init_step(c1, y0, c2, y1, r2),
        y0.target == x0.target,
    ensures
        r2 == DriverAttach::Shared(r1.spec_driver()),
        y1.driver == x1.driver,
{
    let t = x0.target;
    let d = r1.spec_driver();
    let tr0 = c0.registry();
    let tr1 = c1.registry();
    let f0 = find_target(tr0, t);
    let idx = x0.id.0 as int;
    assert(c1.accels()[idx] == Some(x1));
    assert(driver_live(c1.accels(), d));
    let live0 = f0 is Some && driver_live(c0.accels(), tr0[f0->0].1);
    if live0 {
        assert(tr1 == tr0);
        assert(find_target(tr1, t) == f0);
    } else {
        assert(tr1 == registry_set(tr0, t, d));
        let w = if f0 is Some { f0->0 } else { tr0.len() as int };
        assert(tr1[w] == (t, d));
        assert(find_target(tr1, t) is Some);
        let k = find_target(tr1, t)->0;
        assert(tr1[k].0 == t);
        if k != w {
            assert(k < w || w < k);
        }
    }
}

/// Once no registered accelerator uses the code generator that the
/// registry names for a target, the next accelerator of that target gets a
/// new, distinct one.
pub proof fn lemma_reclaimed_driver_is_rebuilt(
    c0: Context,
    y0: Accelerator,
    c1: Context,
    y1: Accelerator,
    r: DriverAttach,
    old_driver: DriverId,
)
    requires
        c0.wf(),
        init_step(c0, y0, c1, y1, r),
        find_target(c0.registry(), y0.target) is Some,
        c0.registry()[find_target(c0.registry(), y0.target)->0].1 == old_driver,
        !driver_live(c0.accels(), old_driver),
    ensures
        r is Created,
        r.spec_driver() != old_driver,
{
    let i = find_target(c0.registry(), y0.target)->0;
    assert(c0.registry()[i].1.0 < c0.driver_targets().len());
}

} // verus!
