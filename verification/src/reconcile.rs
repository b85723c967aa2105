//! The reconciliation loop's decision core: a registry mapping container ids
//! to worker handles, kept in step with the runtime's container list each
//! tick. The caller runs the tick timer, lists the containers, aborts the
//! handles this module says to drop, and spawns workers for the ids it says
//! to launch; the registry itself is mutated only here.

use vstd::prelude::*;
use crate::identity::{ContainerIdentity, ContainerIdentityModel};

verus! {

/// One registered worker: the container id it serves and the caller's handle
/// to the running worker.
pub struct RegistryEntry<H> {
    pub id: String,
    pub handle: H,
}

/// The worker registry: at most one entry per container id.
pub struct Registry<H> {
    pub entries: Vec<RegistryEntry<H>>,
}

/// Whether an id is registered in a sequence of entries.
pub open spec fn spec_registered<H>(entries: Seq<RegistryEntry<H>>, id: Seq<char>) -> bool {
    exists|i: int| 0 <= i < entries.len() && #[trigger] entries[i].id@ == id
}

/// Whether the listing contains an entry with the given id.
pub open spec fn spec_listed(current: Seq<ContainerIdentityModel>, id: Seq<char>) -> bool {
    exists|i: int| 0 <= i < current.len() && #[trigger] current[i].id == Some(id)
}

/// The registry entries whose ids the listing still contains, in registry
/// order: these workers survive the tick untouched.
pub open spec fn spec_retained<H>(
    entries: Seq<RegistryEntry<H>>,
    current: Seq<ContainerIdentityModel>,
) -> Seq<RegistryEntry<H>>
    decreases entries.len(),
{
    if entries.len() == 0 {
        Seq::empty()
    } else {
        spec_retained(entries.drop_last(), current) + (if spec_listed(
            current,
            entries.last().id@,
        ) {
            seq![entries.last()]
        } else {
            Seq::empty()
        })
    }
}

/// The registry entries whose ids the listing no longer contains, in
/// registry order: these workers are aborted and dropped this tick.
pub open spec fn spec_pruned<H>(
    entries: Seq<RegistryEntry<H>>,
    current: Seq<ContainerIdentityModel>,
) -> Seq<RegistryEntry<H>>
    decreases entries.len(),
{
    if entries.len() == 0 {
        Seq::empty()
    } else {
        spec_pruned(entries.drop_last(), current) + (if spec_listed(
            current,
            entries.last().id@,
        ) {
            Seq::empty()
        } else {
            seq![entries.last()]
        })
    }
}

/// Whether position `i` of the listing starts a new worker this tick: it
/// carries an id, that id is not registered, and no earlier listing position
/// carries the same id.
pub open spec fn spec_is_launch<H>(
    entries: Seq<RegistryEntry<H>>,
    current: Seq<ContainerIdentityModel>,
    i: int,
) -> bool {
    &&& 0 <= i < current.len()
    &&& current[i].id is Some
    &&& !spec_registered(entries, current[i].id->Some_0)
    &&& forall|j: int| 0 <= j < i ==> #[trigger] current[j].id != current[i].id
}

impl<H> Registry<H> {
    /// At most one entry per container id.
    pub open spec fn wf(self) -> bool {
        forall|i: int, j: int|
            0 <= i < j < self.entries@.len() ==> #[trigger] self.entries@[i].id@ != #[trigger] self.entries@[j].id@
    }

    /// The empty registry.
    pub fn new() -> (r: Registry<H>)
        ensures
            r.entries@ =~= Seq::<RegistryEntry<H>>::empty(),
            r.wf(),
    {
        Registry { entries: Vec::new() }
    }

    /// Whether a worker is registered for the id.
    pub fn contains(&self, id: &String) -> (r: bool)
        ensures
            r == spec_registered(self.entries@, id@),
    {
        let mut i: usize = 0;
        while i < self.entries.len()
            invariant
                i <= self.entries.len(),
                forall|j: int| 0 <= j < i ==> #[trigger] self.entries@[j].id@ != id@,
            decreases self.entries.len() - i,
        {
            if self.entries[i].id == *id {
                return true;
            }
            i = i + 1;
        }
        false
    }

    /// Registers a worker for a previously unregistered id.
    pub fn insert(&mut self, id: String, handle: H)
        requires
            old(self).wf(),
            !spec_registered(old(self).entries@, id@),
        ensures
            final(self).entries@ == old(self).entries@.push(RegistryEntry { id, handle }),
            final(self).wf(),
    {
        self.entries.push(RegistryEntry { id, handle });
        proof {
            assert forall|i: int, j: int|
                0 <= i < j < self.entries@.len() implies #[trigger] self.entries@[i].id@
                != #[trigger] self.entries@[j].id@ by {
                if j == self.entries@.len() - 1 {
                    assert(self.entries@[i].id@ != id@);
                }
            }
        }
    }

    /// Splits the registry against the current listing: entries whose id is
    /// still listed stay, in order and untouched; the rest are removed and
    /// returned so the caller can abort their workers.
    pub fn prune_absent(&mut self, current: &Vec<ContainerIdentity>) -> (removed: Vec<
        RegistryEntry<H>,
    >)
        ensures
            final(self).entries@ == spec_retained(old(self).entries@, current.deep_view()),
            removed@ == spec_pruned(old(self).entries@, current.deep_view()),
            old(self).wf() ==> final(self).wf(),
    {
        let ghost orig = self.entries@;
        let ghost cm = current.deep_view();
        let mut kept: Vec<RegistryEntry<H>> = Vec::new();
        let mut removed: Vec<RegistryEntry<H>> = Vec::new();
        let ghost mut k: int = 0;
        proof {
            assert(orig.skip(0) =~= orig);
        }
        while self.entries.len() > 0
            invariant
                0 <= k <= orig.len(),
                k + self.entries@.len() == orig.len(),
                self.entries@ =~= orig.skip(k),
                cm == current.deep_view(),
                kept@ =~= spec_retained(orig.take(k), cm),
                removed@ =~= spec_pruned(orig.take(k), cm),
            decreases self.entries.len(),
        {
            let entry = self.entries.remove(0);
            proof {
                assert(orig.skip(k)[0] == orig[k]);
                assert(entry == orig[k]);
                assert(orig.take(k + 1).drop_last() =~= orig.take(k));
                assert(orig.take(k + 1).last() == orig[k]);
            }
            if listed(current, &entry.id) {
                kept.push(entry);
            } else {
                removed.push(entry);
            }
            proof {
                assert(self.entries@ =~= orig.skip(k + 1));
                k = k + 1;
            }
        }
        proof {
            assert(orig.take(k) =~= orig);
            if old(self).wf() {
                lemma_retained_wf(orig, cm);
            }
        }
        self.entries = kept;
        removed
    }

    /// The listing positions that start a new worker this tick: in order,
    /// every position whose id is present, unregistered, and not repeated
    /// earlier in the listing.
    pub fn to_launch(&self, current: &Vec<ContainerIdentity>) -> (r: Vec<usize>)
        ensures
            forall|t: int|
                0 <= t < r@.len() ==> spec_is_launch(
                    self.entries@,
                    current.deep_view(),
                    #[trigger] r@[t] as int,
                ),
            forall|i: int|
                spec_is_launch(self.entries@, current.deep_view(), i) ==> exists|t: int|
                    0 <= t < r@.len() && #[trigger] r@[t] as int == i,
            forall|t1: int, t2: int| 0 <= t1 < t2 < r@.len() ==> r@[t1] < r@[t2],
    {
        let ghost cm = current.deep_view();
        let mut r: Vec<usize> = Vec::new();
        let mut i: usize = 0;
        while i < current.len()
            invariant
                i <= current.len(),
                cm == current.deep_view(),
                forall|t: int|
                    0 <= t < r@.len() ==> spec_is_launch(
                        self.entries@,
                        cm,
                        #[trigger] r@[t] as int,
                    ),
                forall|t: int| 0 <= t < r@.len() ==> r@[t] < i,
                forall|p: int|
                    0 <= p < i && spec_is_launch(self.entries@, cm, p) ==> exists|t: int|
                        0 <= t < r@.len() && #[trigger] r@[t] as int == p,
                forall|t1: int, t2: int| 0 <= t1 < t2 < r@.len() ==> r@[t1] < r@[t2],
            decreases current.len() - i,
        {
            let ghost r0 = r@;
            proof {
                assert(cm[i as int] == current@[i as int].deep_view());
            }
            if let Some(s) = &current[i].id {
                proof {
                    assert(cm[i as int].id == Some(s@));
                }
                let registered = self.contains(s);
                let dup = id_listed_before(current, i, s);
                if !registered && !dup {
                    r.push(i);
                    proof {
                        assert(r@[r@.len() - 1] as int == i as int);
                        assert(spec_is_launch(self.entries@, cm, i as int));
                    }
                } else {
                    proof {
                        if registered {
                            assert(!spec_is_launch(self.entries@, cm, i as int));
                        } else {
                            let j = choose|j: int|
                                0 <= j < i && #[trigger] cm[j].id == Some(s@);
                            assert(cm[j].id == cm[i as int].id);
                            assert(!spec_is_launch(self.entries@, cm, i as int));
                        }
                    }
                }
            } else {
                proof {
                    assert(cm[i as int].id is None);
                    assert(!spec_is_launch(self.entries@, cm, i as int));
                }
            }
            proof {
                assert forall|p: int|
                    0 <= p < i + 1 && spec_is_launch(self.entries@, cm, p) implies exists|t: int|
                    0 <= t < r@.len() && #[trigger] r@[t] as int == p by {
                    if p < i {
                        let t = choose|t: int| 0 <= t < r0.len() && #[trigger] r0[t] as int == p;
                        assert(r@[t] as int == p);
                    } else {
                        assert(r@[r@.len() - 1] as int == p);
                    }
                }
            }
            i = i + 1;
        }
        r
    }

    /// Empties the registry, handing every entry back so the caller can
    /// abort all workers: the final shutdown sweep.
    pub fn take_all(&mut self) -> (removed: Vec<RegistryEntry<H>>)
        ensures
            removed@ == old(self).entries@,
            final(self).entries@ =~= Seq::<RegistryEntry<H>>::empty(),
            final(self).wf(),
    {
        let mut out: Vec<RegistryEntry<H>> = Vec::new();
        core::mem::swap(&mut self.entries, &mut out);
        out
    }
}

/// Whether an earlier listing position already carries the same id.
fn id_listed_before(current: &Vec<ContainerIdentity>, i: usize, id: &String) -> (r: bool)
    requires
        i <= current@.len(),
    ensures
        r == exists|j: int|
            0 <= j < i && #[trigger] current.deep_view()[j].id == Some(id@),
{
    let mut j: usize = 0;
    while j < i
        invariant
            j <= i <= current@.len(),
            forall|p: int| 0 <= p < j ==> #[trigger] current.deep_view()[p].id != Some(id@),
        decreases i - j,
    {
        if let Some(s) = &current[j].id {
            if *s == *id {
                proof {
                    assert(current.deep_view()[j as int].id == Some(id@));
                }
                return true;
            }
        }
        proof {
            assert(current.deep_view()[j as int].id != Some(id@));
        }
        j = j + 1;
    }
    false
}

/// An id is registered among the retained entries exactly when it was
/// registered before the tick and the listing still contains it.
pub proof fn lemma_retained_iff<H>(
    entries: Seq<RegistryEntry<H>>,
    current: Seq<ContainerIdentityModel>,
    id: Seq<char>,
)
    ensures
        spec_registered(spec_retained(entries, current), id) <==> (spec_registered(entries, id)
            && spec_listed(current, id)),
    decreases entries.len(),
{
    if entries.len() > 0 {
        let prefix = entries.drop_last();
        lemma_retained_iff(prefix, current, id);
        let rp = spec_retained(prefix, current);
        let whole = spec_retained(entries, current);
        if spec_registered(whole, id) {
            let w = choose|i: int| 0 <= i < whole.len() && #[trigger] whole[i].id@ == id;
            if w < rp.len() {
                assert(rp[w].id@ == id);
                assert(spec_registered(rp, id));
                let w2 = choose|i: int| 0 <= i < prefix.len() && #[trigger] prefix[i].id@ == id;
                assert(entries[w2].id@ == id);
                assert(spec_registered(entries, id));
            } else {
                assert(whole[w] == entries.last());
                assert(entries[entries.len() - 1].id@ == id);
                assert(spec_registered(entries, id));
            }
        }
        if spec_registered(entries, id) && spec_listed(current, id) {
            let w = choose|i: int| 0 <= i < entries.len() && #[trigger] entries[i].id@ == id;
            if w < entries.len() - 1 {
                assert(prefix[w].id@ == id);
                assert(spec_registered(prefix, id));
                let w2 = choose|i: int| 0 <= i < rp.len() && #[trigger] rp[i].id@ == id;
                assert(whole[w2].id@ == id);
                assert(spec_registered(whole, id));
            } else {
                assert(entries.last().id@ == id);
                assert(whole[rp.len() as int].id@ == id);
                assert(spec_registered(whole, id));
            }
        }
    }
}

/// An id is registered among the pruned entries exactly when it was
/// registered before the tick and the listing no longer contains it.
pub proof fn lemma_pruned_iff<H>(
    entries: Seq<RegistryEntry<H>>,
    current: Seq<ContainerIdentityModel>,
    id: Seq<char>,
)
    ensures
        spec_registered(spec_pruned(entries, current), id) <==> (spec_registered(entries, id)
            && !spec_listed(current, id)),
    decreases entries.len(),
{
    if entries.len() > 0 {
        let prefix = entries.drop_last();
        lemma_pruned_iff(prefix, current, id);
        let rp = spec_pruned(prefix, current);
        let whole = spec_pruned(entries, current);
        if spec_registered(whole, id) {
            let w = choose|i: int| 0 <= i < whole.len() && #[trigger] whole[i].id@ == id;
            if w < rp.len() {
                assert(rp[w].id@ == id);
                assert(spec_registered(rp, id));
                let w2 = choose|i: int| 0 <= i < prefix.len() && #[trigger] prefix[i].id@ == id;
                assert(entries[w2].id@ == id);
                assert(spec_registered(entries, id));
            } else {
                assert(whole[w] == entries.last());
                assert(entries[entries.len() - 1].id@ == id);
                assert(spec_registered(entries, id));
            }
        }
        if spec_registered(entries, id) && !spec_listed(current, id) {
            let w = choose|i: int| 0 <= i < entries.len() && #[trigger] entries[i].id@ == id;
            if w < entries.len() - 1 {
                assert(prefix[w].id@ == id);
                assert(spec_registered(prefix, id));
                let w2 = choose|i: int| 0 <= i < rp.len() && #[trigger] rp[i].id@ == id;
                assert(whole[w2].id@ == id);
                assert(spec_registered(whole, id));
            } else {
                assert(entries.last().id@ == id);
                assert(whole[rp.len() as int].id@ == id);
                assert(spec_registered(whole, id));
            }
        }
    }
}

/// Every retained entry is one of the entries the tick started with: a worker
/// whose container stays listed survives the tick as the same instance, with
/// its handle and position relative to the other survivors preserved.
pub proof fn lemma_retained_are_originals<H>(
    entries: Seq<RegistryEntry<H>>,
    current: Seq<ContainerIdentityModel>,
)
    ensures
        forall|i: int|
            0 <= i < spec_retained(entries, current).len() ==> entries.contains(
                #[trigger] spec_retained(entries, current)[i],
            ),
    decreases entries.len(),
{
    if entries.len() > 0 {
        let prefix = entries.drop_last();
        lemma_retained_are_originals(prefix, current);
        let rp = spec_retained(prefix, current);
        let whole = spec_retained(entries, current);
        assert forall|i: int| 0 <= i < whole.len() implies entries.contains(
            #[trigger] whole[i],
        ) by {
            if i < rp.len() {
                assert(prefix.contains(rp[i]));
                let w = choose|j: int| 0 <= j < prefix.len() && prefix[j] == rp[i];
                assert(entries[w] == whole[i]);
            } else {
                assert(whole[i] == entries.last());
                assert(entries[entries.len() - 1] == whole[i]);
            }
        }
    }
}

/// Pruning keeps the registry invariant: the survivors' ids stay pairwise
/// distinct.
pub proof fn lemma_retained_wf<H>(
    entries: Seq<RegistryEntry<H>>,
    current: Seq<ContainerIdentityModel>,
)
    requires
        forall|i: int, j: int|
            0 <= i < j < entries.len() ==> #[trigger] entries[i].id@ != #[trigger] entries[j].id@,
    ensures
        forall|i: int, j: int|
            0 <= i < j < spec_retained(entries, current).len()
                ==> #[trigger] spec_retained(entries, current)[i].id@
                != #[trigger] spec_retained(entries, current)[j].id@,
    decreases entries.len(),
{
    if entries.len() > 0 {
        let prefix = entries.drop_last();
        lemma_retained_wf(prefix, current);
        let rp = spec_retained(prefix, current);
        let whole = spec_retained(entries, current);
        assert forall|i: int, j: int|
            0 <= i < j < whole.len() implies #[trigger] whole[i].id@
            != #[trigger] whole[j].id@ by {
            if j < rp.len() {
                assert(whole[i] == rp[i] && whole[j] == rp[j]);
            } else {
                assert(whole[j] == entries.last());
                assert(whole[i] == rp[i]);
                if rp[i].id@ == entries.last().id@ {
                    assert(spec_registered(rp, entries.last().id@));
                    lemma_retained_iff(prefix, current, entries.last().id@);
                    let w = choose|p: int|
                        0 <= p < prefix.len() && #[trigger] prefix[p].id@ == entries.last().id@;
                    assert(entries[w].id@ == entries[entries.len() - 1].id@);
                    assert(false);
                }
            }
        }
    }
}

/// When every registered id is still listed, the tick prunes nothing: the
/// registry survives unchanged.
pub proof fn lemma_all_listed_prunes_nothing<H>(
    entries: Seq<RegistryEntry<H>>,
    current: Seq<ContainerIdentityModel>,
)
    requires
        forall|id: Seq<char>| #[trigger] spec_registered(entries, id) ==> spec_listed(current, id),
    ensures
        spec_retained(entries, current) == entries,
        spec_pruned(entries, current) == Seq::<RegistryEntry<H>>::empty(),
    decreases entries.len(),
{
    if entries.len() == 0 {
        assert(spec_retained(entries, current) =~= entries);
    } else {
        let prefix = entries.drop_last();
        assert forall|id: Seq<char>| #[trigger] spec_registered(prefix, id) implies spec_listed(
            current,
            id,
        ) by {
            let w = choose|i: int| 0 <= i < prefix.len() && #[trigger] prefix[i].id@ == id;
            assert(entries[w].id@ == id);
            assert(spec_registered(entries, id));
        }
        lemma_all_listed_prunes_nothing(prefix, current);
        assert(entries[entries.len() - 1].id@ == entries.last().id@);
        assert(spec_registered(entries, entries.last().id@));
        assert(spec_listed(current, entries.last().id@));
        assert(spec_retained(entries, current) =~= entries);
        assert(spec_pruned(entries, current) =~= Seq::<RegistryEntry<H>>::empty());
    }
}

/// Reconciliation is idempotent: when the listed ids are exactly the
/// registered ids, a tick removes no worker and launches none, and the
/// registry comes out unchanged.
pub proof fn lemma_tick_idempotent<H>(
    entries: Seq<RegistryEntry<H>>,
    current: Seq<ContainerIdentityModel>,
)
    requires
        forall|id: Seq<char>| #[trigger] spec_registered(entries, id) ==> spec_listed(current, id),
        forall|id: Seq<char>| #[trigger] spec_listed(current, id) ==> spec_registered(entries, id),
    ensures
        spec_retained(entries, current) == entries,
        spec_pruned(entries, current) == Seq::<RegistryEntry<H>>::empty(),
        forall|i: int| !spec_is_launch(entries, current, i),
{
    lemma_all_listed_prunes_nothing(entries, current);
    assert forall|i: int| !spec_is_launch(entries, current, i) by {
        if 0 <= i < current.len() && current[i].id is Some {
            assert(current[i].id == Some(current[i].id->Some_0));
            assert(spec_listed(current, current[i].id->Some_0));
        }
    }
}

/// Every listed id without a worker gets one: some listing position is a
/// launch for exactly that id.
pub proof fn lemma_new_ids_launch<H>(
    entries: Seq<RegistryEntry<H>>,
    current: Seq<ContainerIdentityModel>,
    id: Seq<char>,
)
    requires
        spec_listed(current, id),
        !spec_registered(entries, id),
    ensures
        exists|i: int| spec_is_launch(entries, current, i) && #[trigger] current[i].id == Some(id),
{
    let w = choose|i: int| 0 <= i < current.len() && #[trigger] current[i].id == Some(id);
    lemma_first_occurrence(current, id, w);
    let first = choose|i: int|
        (0 <= i < current.len() && #[trigger] current[i].id == Some(id) && forall|j: int|
            0 <= j < i ==> #[trigger] current[j].id != Some(id));
    assert forall|j: int| 0 <= j < first implies #[trigger] current[j].id != current[first].id by {
        assert(current[j].id != Some(id));
    }
    assert(spec_is_launch(entries, current, first));
}

proof fn lemma_first_occurrence(current: Seq<ContainerIdentityModel>, id: Seq<char>, w: int)
    requires
        0 <= w < current.len(),
        current[w].id == Some(id),
    ensures
        exists|i: int|
            (0 <= i < current.len() && #[trigger] current[i].id == Some(id) && forall|j: int|
                0 <= j < i ==> #[trigger] current[j].id != Some(id)),
    decreases w,
{
    if exists|j: int| 0 <= j < w && #[trigger] current[j].id == Some(id) {
        let j = choose|j: int| 0 <= j < w && #[trigger] current[j].id == Some(id);
        lemma_first_occurrence(current, id, j);
    } else {
        assert(0 <= w < current.len() && current[w].id == Some(id) && forall|j: int|
            0 <= j < w ==> #[trigger] current[j].id != Some(id));
    }
}

/// Whether the listing contains an entry with the given id.
fn listed(current: &Vec<ContainerIdentity>, id: &String) -> (r: bool)
    ensures
        r == spec_listed(current.deep_view(), id@),
{
    let mut i: usize = 0;
    while i < current.len()
        invariant
            i <= current.len(),
            forall|j: int|
                0 <= j < i ==> #[trigger] current.deep_view()[j].id != Some(id@),
        decreases current.len() - i,
    {
        if let Some(s) = &current[i].id {
            if *s == *id {
                proof {
                    assert(current.deep_view()[i as int].id == Some(id@));
                }
                return true;
            }
        }
        proof {
            assert(current.deep_view()[i as int].id != Some(id@));
        }
        i = i + 1;
    }
    false
}

} // verus!
