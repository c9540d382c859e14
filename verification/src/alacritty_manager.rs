//! The instance registry: tracks managed terminal processes and reconciles
//! its view against the live process table.
//!
//! The registry itself performs no operating-system work. The caller reads
//! the live pid set and the command lines of untracked processes, and hands
//! them in as plain values; every decision about what to keep, drop or
//! adopt is made here and verified.

use vstd::prelude::*;
use crate::types::{AlacrittyInstance, InstanceModel};

verus! {

broadcast use vstd::std_specs::vec::group_vec_axioms, vstd::seq::group_seq_axioms;

/// The models of a sequence of instances, element for element.
pub open spec fn insts(s: Seq<AlacrittyInstance>) -> Seq<InstanceModel> {
    Seq::new(s.len(), |i: int| s[i]@)
}

/// The models of a sequence of strings, element for element.
pub open spec fn strs(s: Seq<String>) -> Seq<Seq<char>> {
    Seq::new(s.len(), |i: int| s[i]@)
}

/// Whether some tracked entry carries this pid.
pub open spec fn has_pid(s: Seq<InstanceModel>, pid: u32) -> bool {
    exists|i: int| 0 <= i < s.len() && #[trigger] s[i].pid == pid
}

/// Whether some tracked entry carries this id.
pub open spec fn has_id(s: Seq<InstanceModel>, id: Seq<char>) -> bool {
    exists|i: int| 0 <= i < s.len() && #[trigger] s[i].id == id
}

/// The registry invariant: no two entries share an id or a pid.
pub open spec fn registry_wf(s: Seq<InstanceModel>) -> bool {
    forall|i: int, j: int|
        0 <= i < j < s.len() ==> (#[trigger] s[i]).id != (#[trigger] s[j]).id && s[i].pid
            != s[j].pid
}

/// The entries of `s` whose pid is in the live set, in order.
pub open spec fn keep_live(s: Seq<InstanceModel>, live: Seq<u32>) -> Seq<InstanceModel>
    decreases s.len(),
{
    if s.len() == 0 {
        s
    } else if live.contains(s.last().pid) {
        keep_live(s.drop_last(), live).push(s.last())
    } else {
        keep_live(s.drop_last(), live)
    }
}

/// Adopts one discovered entry: appended only when its pid is live and
/// neither its pid nor its id is tracked yet.
pub open spec fn adopt_one(s: Seq<InstanceModel>, m: InstanceModel, live: Seq<u32>)
    -> Seq<InstanceModel> {
    if live.contains(m.pid) && !has_pid(s, m.pid) && !has_id(s, m.id) {
        s.push(m)
    } else {
        s
    }
}

/// Adopts the discovered entries in order.
pub open spec fn adopt_all(s: Seq<InstanceModel>, d: Seq<InstanceModel>, live: Seq<u32>)
    -> Seq<InstanceModel>
    decreases d.len(),
{
    if d.len() == 0 {
        s
    } else {
        adopt_all(adopt_one(s, d[0], live), d.drop_first(), live)
    }
}

/// One reconciliation round: drop the dead, then adopt the discovered.
pub open spec fn reconciled(s: Seq<InstanceModel>, live: Seq<u32>, d: Seq<InstanceModel>)
    -> Seq<InstanceModel> {
    adopt_all(keep_live(s, live), d, live)
}

/// Membership across pruning: an entry survives exactly when its pid is
/// live.
pub proof fn lemma_keep_live_contains(s: Seq<InstanceModel>, live: Seq<u32>, x: InstanceModel)
    ensures
        keep_live(s, live).contains(x) <==> s.contains(x) && live.contains(x.pid),
    decreases s.len(),
{
    if s.len() > 0 {
        lemma_keep_live_contains(s.drop_last(), live, x);
        assert(s.contains(x) <==> s.drop_last().contains(x) || s.last() == x) by {
            if s.contains(x) {
                let i = choose|i: int| 0 <= i < s.len() && s[i] == x;
                if i < s.len() - 1 {
                    assert(s.drop_last()[i] == x);
                }
            }
            if s.drop_last().contains(x) {
                let i = choose|i: int| 0 <= i < s.drop_last().len() && s.drop_last()[i] == x;
                assert(s[i] == x);
            }
        }
        if live.contains(s.last().pid) {
            let k = keep_live(s.drop_last(), live);
            assert(k.push(s.last()).contains(x) <==> k.contains(x) || s.last() == x) by {
                if k.push(s.last()).contains(x) {
                    let i = choose|i: int| 0 <= i < k.push(s.last()).len()
                        && k.push(s.last())[i] == x;
                    if i < k.len() {
                        assert(k[i] == x);
                    }
                }
                if k.contains(x) {
                    let i = choose|i: int| 0 <= i < k.len() && k[i] == x;
                    assert(k.push(s.last())[i] == x);
                }
                assert(k.push(s.last())[k.len() as int] == s.last());
            }
        }
    }
}

/// Adoption only appends: whatever was tracked stays tracked.
pub proof fn lemma_adopt_all_keeps(
    s: Seq<InstanceModel>,
    d: Seq<InstanceModel>,
    live: Seq<u32>,
    x: InstanceModel,
)
    requires
        s.contains(x),
    ensures
        adopt_all(s, d, live).contains(x),
    decreases d.len(),
{
    if d.len() > 0 {
        let s1 = adopt_one(s, d[0], live);
        assert(s1.contains(x)) by {
            let i = choose|i: int| 0 <= i < s.len() && s[i] == x;
            assert(s1[i] == x);
        }
        lemma_adopt_all_keeps(s1, d.drop_first(), live, x);
    }
}

/// Every pid that pruning lets through is live; adoption adds only live
/// pids; so every entry of a reconciled registry has a live pid.
pub proof fn lemma_reconciled_pids_live(
    s: Seq<InstanceModel>,
    live: Seq<u32>,
    d: Seq<InstanceModel>,
)
    ensures
        forall|i: int|
            0 <= i < reconciled(s, live, d).len() ==> live.contains(
                (#[trigger] reconciled(s, live, d)[i]).pid),
{
    lemma_keep_live_pids_live(s, live);
    lemma_adopt_all_pids_live(keep_live(s, live), d, live);
}

proof fn lemma_keep_live_pids_live(s: Seq<InstanceModel>, live: Seq<u32>)
    ensures
        forall|i: int|
            0 <= i < keep_live(s, live).len() ==> live.contains(
                (#[trigger] keep_live(s, live)[i]).pid),
    decreases s.len(),
{
    if s.len() > 0 {
        lemma_keep_live_pids_live(s.drop_last(), live);
        if live.contains(s.last().pid) {
            let k = keep_live(s.drop_last(), live);
            assert forall|i: int| 0 <= i < k.push(s.last()).len() implies live.contains(
                (#[trigger] k.push(s.last())[i]).pid) by {
                if i < k.len() {
                    assert(k.push(s.last())[i] == k[i]);
                }
            }
        }
    }
}

proof fn lemma_adopt_all_pids_live(s: Seq<InstanceModel>, d: Seq<InstanceModel>, live: Seq<u32>)
    requires
        forall|i: int| 0 <= i < s.len() ==> live.contains((#[trigger] s[i]).pid),
    ensures
        forall|i: int|
            0 <= i < adopt_all(s, d, live).len() ==> live.contains(
                (#[trigger] adopt_all(s, d, live)[i]).pid),
    decreases d.len(),
{
    lemma_keep_live_pids_live(s, live);
    if d.len() > 0 {
        let s1 = adopt_one(s, d[0], live);
        assert(forall|i: int| 0 <= i < s1.len() ==> live.contains((#[trigger] s1[i]).pid)) by {
            if live.contains(d[0].pid) && !has_pid(s, d[0].pid) && !has_id(s, d[0].id) {
                assert(forall|i: int|
                    0 <= i < s.len() ==> s.push(d[0])[i] == #[trigger] s[i]);
            }
        }
        lemma_adopt_all_pids_live(s1, d.drop_first(), live);
    }
}

/// Pruning a registry whose pids are all live changes nothing.
pub proof fn lemma_keep_live_noop(s: Seq<InstanceModel>, live: Seq<u32>)
    requires
        forall|i: int| 0 <= i < s.len() ==> live.contains((#[trigger] s[i]).pid),
    ensures
        keep_live(s, live) == s,
    decreases s.len(),
{
    if s.len() > 0 {
        assert(live.contains(s.last().pid));
        assert(forall|i: int|
            0 <= i < s.drop_last().len() ==> live.contains((#[trigger] s.drop_last()[i]).pid));
        lemma_keep_live_noop(s.drop_last(), live);
        assert(keep_live(s, live) =~= s);
    }
}

/// Adopting entries whose pids are already tracked changes nothing.
pub proof fn lemma_adopt_tracked_noop(s: Seq<InstanceModel>, d: Seq<InstanceModel>, live: Seq<u32>)
    requires
        forall|k: int| 0 <= k < d.len() ==> has_pid(s, (#[trigger] d[k]).pid),
    ensures
        adopt_all(s, d, live) == s,
    decreases d.len(),
{
    if d.len() > 0 {
        assert(has_pid(s, d[0].pid));
        assert(adopt_one(s, d[0], live) == s);
        assert(forall|k: int|
            0 <= k < d.drop_first().len() ==> has_pid(s, (#[trigger] d.drop_first()[k]).pid));
        lemma_adopt_tracked_noop(s, d.drop_first(), live);
    }
}

/// Law: reconciliation is idempotent. With no change to the live process
/// set between two rounds, the second round — which then discovers nothing,
/// since every live pid is already tracked — leaves the registry exactly as
/// the first round left it.
pub proof fn lemma_reconcile_idempotent(
    s: Seq<InstanceModel>,
    live: Seq<u32>,
    d: Seq<InstanceModel>,
)
    ensures
        reconciled(reconciled(s, live, d), live, Seq::empty()) == reconciled(s, live, d),
{
    let r = reconciled(s, live, d);
    lemma_reconciled_pids_live(s, live, d);
    lemma_keep_live_noop(r, live);
}

/// Law: identity is stable. A tracked entry whose pid stays live survives
/// reconciliation with all its fields — its id in particular — unchanged.
pub proof fn lemma_identity_stable(
    s: Seq<InstanceModel>,
    live: Seq<u32>,
    d: Seq<InstanceModel>,
    i: int,
)
    requires
        0 <= i < s.len(),
        live.contains(s[i].pid),
    ensures
        reconciled(s, live, d).contains(s[i]),
{
    assert(s.contains(s[i]));
    lemma_keep_live_contains(s, live, s[i]);
    lemma_adopt_all_keeps(keep_live(s, live), d, live, s[i]);
}

/// Law: garbage collection removes exactly the dead. With nothing newly
/// discovered, an entry survives reconciliation if and only if it was
/// tracked before and its pid is still live.
pub proof fn lemma_garbage_collection(s: Seq<InstanceModel>, live: Seq<u32>, x: InstanceModel)
    ensures
        reconciled(s, live, Seq::empty()).contains(x) <==> s.contains(x) && live.contains(x.pid),
{
    lemma_keep_live_contains(s, live, x);
}

proof fn lemma_keep_live_wf(s: Seq<InstanceModel>, live: Seq<u32>)
    requires
        registry_wf(s),
    ensures
        registry_wf(keep_live(s, live)),
    decreases s.len(),
{
    if s.len() > 0 {
        assert(registry_wf(s.drop_last()));
        lemma_keep_live_wf(s.drop_last(), live);
        if live.contains(s.last().pid) {
            let k = keep_live(s.drop_last(), live);
            let t = k.push(s.last());
            assert forall|i: int, j: int| 0 <= i < j < t.len() implies (#[trigger] t[i]).id
                != (#[trigger] t[j]).id && t[i].pid != t[j].pid by {
                if j < k.len() {
                    assert(t[i] == k[i] && t[j] == k[j]);
                } else {
                    assert(t[j] == s.last());
                    assert(t[i] == k[i]);
                    assert(k.contains(k[i]));
                    lemma_keep_live_contains(s.drop_last(), live, k[i]);
                    let w = choose|w: int|
                        0 <= w < s.drop_last().len() && s.drop_last()[w] == k[i];
                    assert(s[w] == k[i]);
                    assert(s.last() == s[s.len() - 1]);
                }
            }
        }
    }
}

proof fn lemma_adopt_all_wf(s: Seq<InstanceModel>, d: Seq<InstanceModel>, live: Seq<u32>)
    requires
        registry_wf(s),
    ensures
        registry_wf(adopt_all(s, d, live)),
    decreases d.len(),
{
    if d.len() > 0 {
        let s1 = adopt_one(s, d[0], live);
        assert(registry_wf(s1)) by {
            if live.contains(d[0].pid) && !has_pid(s, d[0].pid) && !has_id(s, d[0].id) {
                let t = s.push(d[0]);
                assert forall|i: int, j: int| 0 <= i < j < t.len() implies (#[trigger] t[i]).id
                    != (#[trigger] t[j]).id && t[i].pid != t[j].pid by {
                    if j < s.len() {
                        assert(t[i] == s[i] && t[j] == s[j]);
                    } else {
                        assert(t[i] == s[i] && t[j] == d[0]);
                    }
                }
            }
        }
        lemma_adopt_all_wf(s1, d.drop_first(), live);
    }
}

/// Relies on uuid::Uuid::new_v4 and its hyphenated rendering through
/// Display: a freshly drawn random identifier, printed as 36 characters of
/// lower-case hexadecimal digits and hyphens. The value is random, so
/// nothing is assumed beyond its shape.
#[verifier::external_body]
pub fn fresh_instance_id() -> (r: String)
    ensures
        r@.len() == 36,
        forall|i: int|
            0 <= i < r@.len() ==> (#[trigger] r@[i] == '-' || ('0' <= r@[i] <= '9') || (
            'a' <= r@[i] <= 'f')),
{
    uuid::Uuid::new_v4().to_string()
}

/// Whether the vector holds the value.
pub fn contains_u32(v: &Vec<u32>, x: u32) -> (r: bool)
    ensures
        r == v@.contains(x),
{
    let mut i: usize = 0;
    while i < v.len()
        invariant
            i <= v@.len(),
            forall|j: int| 0 <= j < i ==> v@[j] != x,
        decreases v@.len() - i,
    {
        if v[i] == x {
            return true;
        }
        i += 1;
    }
    false
}

/// The instance registry. Owns the id-to-instance mapping exclusively; its
/// invariant — no two entries share an id or a pid — holds after every
/// operation.
pub struct AlacrittyManager {
    instances: Vec<AlacrittyInstance>,
}

impl View for AlacrittyManager {
    type V = Seq<InstanceModel>;

    closed spec fn view(&self) -> Seq<InstanceModel> {
        insts(self.instances@)
    }
}

impl AlacrittyManager {
    /// A registry tracking nothing.
    pub fn new() -> (r: Self)
        ensures
            r@ =~= Seq::<InstanceModel>::empty(),
            registry_wf(r@),
    {
        AlacrittyManager { instances: Vec::new() }
    }

    /// How many instances are tracked.
    pub fn count(&self) -> (r: usize)
        ensures
            r == self@.len(),
    {
        self.instances.len()
    }

    /// The tracked instances, in snapshot order.
    pub fn entries(&self) -> (r: &Vec<AlacrittyInstance>)
        ensures
            insts(r@) == self@,
    {
        &self.instances
    }

    /// Whether some tracked entry carries this pid.
    pub fn tracks_pid(&self, pid: u32) -> (r: bool)
        ensures
            r == has_pid(self@, pid),
    {
        let mut i: usize = 0;
        while i < self.instances.len()
            invariant
                i <= self.instances@.len(),
                forall|j: int| 0 <= j < i ==> (#[trigger] self@[j]).pid != pid,
            decreases self.instances@.len() - i,
        {
            if self.instances[i].pid == pid {
                assert(self@[i as int].pid == pid);
                return true;
            }
            i += 1;
        }
        false
    }

    /// Whether some tracked entry carries this id.
    pub fn tracks_id(&self, id: &str) -> (r: bool)
        ensures
            r == has_id(self@, id@),
    {
        let mut i: usize = 0;
        while i < self.instances.len()
            invariant
                i <= self.instances@.len(),
                forall|j: int| 0 <= j < i ==> (#[trigger] self@[j]).id != id@,
            decreases self.instances@.len() - i,
        {
            if crate::text::str_eq(self.instances[i].id.as_str(), id) {
                assert(self@[i as int].id == id@);
                return true;
            }
            i += 1;
        }
        false
    }

    /// The first tracked entry with this id, if any.
    pub fn get<'a>(&'a self, id: &str) -> (r: Option<&'a AlacrittyInstance>)
        ensures
            match r {
                Option::Some(x) => find_id(self@, id@) == Option::Some(x@),
                Option::None => find_id(self@, id@) is None,
            },
    {
        let ghost m = self@;
        proof {
            assert(m.subrange(0, m.len() as int) =~= m);
        }
        let mut i: usize = 0;
        while i < self.instances.len()
            invariant
                i <= self.instances@.len(),
                m == self@,
                find_id(m, id@) == find_id(m.subrange(i as int, m.len() as int), id@),
            decreases self.instances@.len() - i,
        {
            let ghost rest = m.subrange(i as int, m.len() as int);
            proof {
                assert(rest[0] == m[i as int]);
                assert(rest.drop_first() =~= m.subrange(i + 1, m.len() as int));
            }
            if crate::text::str_eq(self.instances[i].id.as_str(), id) {
                return Option::Some(&self.instances[i]);
            }
            i += 1;
        }
        proof {
            assert(m.subrange(m.len() as int, m.len() as int) =~= Seq::empty());
        }
        Option::None
    }

    /// Removes every entry whose pid is not in the live set; keeps the rest
    /// untouched and in order.
    fn prune(&mut self, live: &Vec<u32>)
        ensures
            final(self)@ == keep_live(old(self)@, live@),
    {
        let ghost m = old(self)@;
        let mut kept: Vec<AlacrittyInstance> = Vec::new();
        let mut i: usize = 0;
        while i < self.instances.len()
            invariant
                i <= self.instances@.len(),
                self.instances@ == old(self).instances@,
                m == insts(self.instances@),
                insts(kept@) == keep_live(m.subrange(0, i as int), live@),
            decreases self.instances@.len() - i,
        {
            proof {
                assert(m.subrange(0, i + 1).drop_last() =~= m.subrange(0, i as int));
                assert(m.subrange(0, i + 1).last() == m[i as int]);
            }
            if contains_u32(live, self.instances[i].pid) {
                let c = self.instances[i].clone();
                kept.push(c);
                proof {
                    assert(insts(kept@) =~= keep_live(m.subrange(0, i as int), live@).push(
                        m[i as int]));
                }
            }
            i += 1;
        }
        proof {
            assert(m.subrange(0, m.len() as int) =~= m);
        }
        self.instances = kept;
    }

    /// One reconciliation round against a snapshot of the live process
    /// table: entries of dead pids leave; discovered entries of live,
    /// untracked pids enter; tracked, still-alive entries are not touched.
    pub fn reconcile(&mut self, live: &Vec<u32>, discovered: &Vec<AlacrittyInstance>)
        requires
            registry_wf(old(self)@),
        ensures
            final(self)@ == reconciled(old(self)@, live@, insts(discovered@)),
            registry_wf(final(self)@),
    {
        let ghost m = old(self)@;
        let ghost dm = insts(discovered@);
        self.prune(live);
        proof {
            assert(dm.subrange(0, dm.len() as int) =~= dm);
        }
        let mut i: usize = 0;
        while i < discovered.len()
            invariant
                i <= discovered@.len(),
                dm == insts(discovered@),
                reconciled(m, live@, dm) == adopt_all(
                    self@, dm.subrange(i as int, dm.len() as int), live@),
            decreases discovered@.len() - i,
        {
            let ghost rest = dm.subrange(i as int, dm.len() as int);
            proof {
                assert(rest[0] == dm[i as int]);
                assert(rest.drop_first() =~= dm.subrange(i + 1, dm.len() as int));
            }
            let cand = &discovered[i];
            if contains_u32(live, cand.pid) && !self.tracks_pid(cand.pid) && !self.tracks_id(
                cand.id.as_str()) {
                let c = cand.clone();
                let ghost before = self@;
                self.instances.push(c);
                proof {
                    assert(self@ =~= before.push(dm[i as int]));
                }
            }
            i += 1;
        }
        proof {
            assert(dm.subrange(dm.len() as int, dm.len() as int) =~= Seq::empty());
            lemma_keep_live_wf(m, live@);
            lemma_adopt_all_wf(keep_live(m, live@), dm, live@);
        }
    }
}

/// The next step in resolving a window handle for a tracked instance.
pub enum WindowResolution {
    /// The id is not tracked.
    UnknownInstance,
    /// A handle is already cached.
    Cached(u32),
    /// No handle is cached yet: look one up for this pid.
    LookupByPid(u32),
}

/// The first tracked entry with this id, if any.
pub open spec fn find_id(s: Seq<InstanceModel>, id: Seq<char>) -> Option<InstanceModel>
    decreases s.len(),
{
    if s.len() == 0 {
        Option::None
    } else if s[0].id == id {
        Option::Some(s[0])
    } else {
        find_id(s.drop_first(), id)
    }
}

/// A lookup by id succeeds exactly when some entry carries the id.
pub proof fn lemma_find_id_has(s: Seq<InstanceModel>, id: Seq<char>)
    ensures
        find_id(s, id) is Some <==> has_id(s, id),
        match find_id(s, id) {
            Option::Some(m) => s.contains(m) && m.id == id,
            Option::None => true,
        },
    decreases s.len(),
{
    if s.len() > 0 && s[0].id != id {
        lemma_find_id_has(s.drop_first(), id);
        assert forall|i: int| 0 <= i < s.drop_first().len() implies s.contains(
            #[trigger] s.drop_first()[i]) by {
            assert(s[i + 1] == s.drop_first()[i]);
        }
        if has_id(s, id) {
            let i = choose|i: int| 0 <= i < s.len() && #[trigger] s[i].id == id;
            assert(s.drop_first()[i - 1].id == id);
        }
    }
}

/// The entries of `s` that share neither id nor pid with `m`, in order.
pub open spec fn drop_conflicts(s: Seq<InstanceModel>, m: InstanceModel) -> Seq<InstanceModel>
    decreases s.len(),
{
    if s.len() == 0 {
        s
    } else if s.last().id == m.id || s.last().pid == m.pid {
        drop_conflicts(s.drop_last(), m)
    } else {
        drop_conflicts(s.drop_last(), m).push(s.last())
    }
}

/// What recording a freshly created instance leaves behind: any stale entry
/// sharing its id or pid is gone, the new entry stands at the end.
pub open spec fn recorded(s: Seq<InstanceModel>, m: InstanceModel) -> Seq<InstanceModel> {
    drop_conflicts(s, m).push(m)
}

proof fn lemma_drop_conflicts_clean(s: Seq<InstanceModel>, m: InstanceModel)
    ensures
        forall|i: int|
            0 <= i < drop_conflicts(s, m).len() ==> (#[trigger] drop_conflicts(s, m)[i]).id
                != m.id && drop_conflicts(s, m)[i].pid != m.pid,
        forall|x: InstanceModel| #[trigger] drop_conflicts(s, m).contains(x) ==> s.contains(x),
    decreases s.len(),
{
    if s.len() > 0 {
        lemma_drop_conflicts_clean(s.drop_last(), m);
        assert forall|x: InstanceModel| s.drop_last().contains(x) implies s.contains(x) by {
            if s.drop_last().contains(x) {
                let i = choose|i: int| 0 <= i < s.drop_last().len() && s.drop_last()[i] == x;
                assert(s[i] == x);
            }
        }
        if !(s.last().id == m.id || s.last().pid == m.pid) {
            let k = drop_conflicts(s.drop_last(), m);
            assert forall|i: int| 0 <= i < k.push(s.last()).len() implies (#[trigger] k.push(
                s.last())[i]).id != m.id && k.push(s.last())[i].pid != m.pid by {
                if i < k.len() {
                    assert(k.push(s.last())[i] == k[i]);
                }
            }
            assert forall|x: InstanceModel| k.push(s.last()).contains(x) implies s.contains(
                x) by {
                let i = choose|i: int| 0 <= i < k.push(s.last()).len() && k.push(s.last())[i]
                    == x;
                if i < k.len() {
                    assert(k.contains(k[i]));
                } else {
                    assert(s.contains(s[s.len() - 1]));
                }
            }
        }
    }
}

proof fn lemma_recorded_wf(s: Seq<InstanceModel>, m: InstanceModel)
    requires
        registry_wf(s),
    ensures
        registry_wf(recorded(s, m)),
    decreases s.len(),
{
    lemma_drop_conflicts_wf(s, m);
    lemma_drop_conflicts_clean(s, m);
    let k = drop_conflicts(s, m);
    let t = k.push(m);
    assert forall|i: int, j: int| 0 <= i < j < t.len() implies (#[trigger] t[i]).id
        != (#[trigger] t[j]).id && t[i].pid != t[j].pid by {
        if j < k.len() {
            assert(t[i] == k[i] && t[j] == k[j]);
        } else {
            assert(t[i] == k[i] && t[j] == m);
        }
    }
}

proof fn lemma_drop_conflicts_wf(s: Seq<InstanceModel>, m: InstanceModel)
    requires
        registry_wf(s),
    ensures
        registry_wf(drop_conflicts(s, m)),
    decreases s.len(),
{
    if s.len() > 0 {
        assert(registry_wf(s.drop_last()));
        lemma_drop_conflicts_wf(s.drop_last(), m);
        if !(s.last().id == m.id || s.last().pid == m.pid) {
            lemma_drop_conflicts_clean(s.drop_last(), m);
            let k = drop_conflicts(s.drop_last(), m);
            let t = k.push(s.last());
            assert forall|i: int, j: int| 0 <= i < j < t.len() implies (#[trigger] t[i]).id
                != (#[trigger] t[j]).id && t[i].pid != t[j].pid by {
                if j < k.len() {
                    assert(t[i] == k[i] && t[j] == k[j]);
                } else {
                    assert(t[i] == k[i] && t[j] == s.last());
                    assert(k.contains(k[i]));
                    let w = choose|w: int|
                        0 <= w < s.drop_last().len() && s.drop_last()[w] == k[i];
                    assert(s[w] == k[i]);
                    assert(s.last() == s[s.len() - 1]);
                }
            }
        }
    }
}

/// The same entry with a window handle filled in.
pub open spec fn with_window(m: InstanceModel, w: u32) -> InstanceModel {
    InstanceModel { window_id: Option::Some(w), ..m }
}

/// The registry after a window handle is noted for `id`: the matching
/// entry, where its handle was still unknown, now carries the handle;
/// everything else is untouched.
pub open spec fn window_noted(s: Seq<InstanceModel>, id: Seq<char>, w: u32)
    -> Seq<InstanceModel> {
    Seq::new(s.len(), |j: int|
        if s[j].id == id && s[j].window_id is None {
            with_window(s[j], w)
        } else {
            s[j]
        })
}

/// The pids of the live set that no tracked entry carries, in order.
pub open spec fn untracked(s: Seq<InstanceModel>, live: Seq<u32>) -> Seq<u32>
    decreases live.len(),
{
    if live.len() == 0 {
        live
    } else if has_pid(s, live.last()) {
        untracked(s, live.drop_last())
    } else {
        untracked(s, live.drop_last()).push(live.last())
    }
}

impl AlacrittyManager {
    /// Records a freshly created instance. A stale entry left over under
    /// the same pid — the operating system reuses pids — or, in principle,
    /// under the same id gives way to the new entry.
    pub fn record_spawn(&mut self, inst: AlacrittyInstance)
        requires
            registry_wf(old(self)@),
        ensures
            final(self)@ == recorded(old(self)@, inst@),
            registry_wf(final(self)@),
    {
        let ghost m = old(self)@;
        let ghost mi = inst@;
        let mut kept: Vec<AlacrittyInstance> = Vec::new();
        let mut i: usize = 0;
        while i < self.instances.len()
            invariant
                i <= self.instances@.len(),
                self.instances@ == old(self).instances@,
                m == insts(self.instances@),
                mi == inst@,
                insts(kept@) == drop_conflicts(m.subrange(0, i as int), mi),
            decreases self.instances@.len() - i,
        {
            proof {
                assert(m.subrange(0, i + 1).drop_last() =~= m.subrange(0, i as int));
                assert(m.subrange(0, i + 1).last() == m[i as int]);
            }
            let same_id = crate::text::str_eq(self.instances[i].id.as_str(), inst.id.as_str());
            if !(same_id || self.instances[i].pid == inst.pid) {
                let c = self.instances[i].clone();
                kept.push(c);
                proof {
                    assert(insts(kept@) =~= drop_conflicts(m.subrange(0, i as int), mi).push(
                        m[i as int]));
                }
            }
            i += 1;
        }
        proof {
            assert(m.subrange(0, m.len() as int) =~= m);
        }
        kept.push(inst);
        self.instances = kept;
        proof {
            assert(self@ =~= drop_conflicts(m, mi).push(mi));
            lemma_recorded_wf(m, mi);
        }
    }

    /// Caches a window handle for the given id. Once a handle is known it
    /// is never overwritten: the handle is monotonic.
    pub fn note_window(&mut self, id: &str, window: u32)
        ensures
            final(self)@ == window_noted(old(self)@, id@, window),
            registry_wf(old(self)@) ==> registry_wf(final(self)@),
    {
        let ghost m = old(self)@;
        let n = self.instances.len();
        let mut i: usize = 0;
        while i < n
            invariant
                i <= n,
                n == self.instances@.len(),
                m.len() == n,
                m == old(self)@,
                forall|j: int| i <= j < n ==> self@[j] == m[j],
                forall|j: int| 0 <= j < i ==> self@[j] == window_noted(m, id@, window)[j],
            decreases n - i,
        {
            if crate::text::str_eq(self.instances[i].id.as_str(), id) {
                if self.instances[i].window_id.is_none() {
                    let mut upd = self.instances[i].clone();
                    upd.window_id = Some(window);
                    let ghost before = self@;
                    self.instances[i] = upd;
                    proof {
                        assert(self@ =~= before.update(i as int, upd@));
                        assert(upd@ == with_window(m[i as int], window));
                    }
                }
            }
            i += 1;
        }
        proof {
            assert(self@ =~= window_noted(m, id@, window));
            let f = self@;
            assert forall|i2: int, j2: int| 0 <= i2 < j2 < f.len() && registry_wf(m) implies
                (f[i2]).id != (f[j2]).id && f[i2].pid != f[j2].pid by {
                assert(f[i2].id == m[i2].id && f[i2].pid == m[i2].pid);
                assert(f[j2].id == m[j2].id && f[j2].pid == m[j2].pid);
            }
        }
    }

    /// Starts resolving a window handle for the given id: the cached
    /// handle where one is known; otherwise the pid to look one up by,
    /// with the process-class filter applied by the caller. A found handle
    /// is cached through [`AlacrittyManager::note_window`].
    pub fn resolve_window(&self, id: &str) -> (r: WindowResolution)
        ensures
            match find_id(self@, id@) {
                Option::None => r == WindowResolution::UnknownInstance,
                Option::Some(m) => match m.window_id {
                    Option::Some(w) => r == WindowResolution::Cached(w),
                    Option::None => r == WindowResolution::LookupByPid(m.pid),
                },
            },
    {
        match self.get(id) {
            Option::None => WindowResolution::UnknownInstance,
            Option::Some(inst) => match inst.window_id {
                Option::Some(w) => WindowResolution::Cached(w),
                Option::None => WindowResolution::LookupByPid(inst.pid),
            },
        }
    }

    /// The pids of the live snapshot that are not tracked yet: the caller
    /// reads their command lines so that reconciliation can adopt them.
    pub fn untracked_pids(&self, live: &Vec<u32>) -> (r: Vec<u32>)
        ensures
            r@ == untracked(self@, live@),
    {
        let mut out: Vec<u32> = Vec::new();
        let mut i: usize = 0;
        while i < live.len()
            invariant
                i <= live@.len(),
                out@ == untracked(self@, live@.subrange(0, i as int)),
            decreases live@.len() - i,
        {
            proof {
                assert(live@.subrange(0, i + 1).drop_last() =~= live@.subrange(0, i as int));
                assert(live@.subrange(0, i + 1).last() == live@[i as int]);
            }
            if !self.tracks_pid(live[i]) {
                out.push(live[i]);
            }
            i += 1;
        }
        proof {
            assert(live@.subrange(0, live@.len() as int) =~= live@);
        }
        out
    }
}

/// One pass of the launch-flag grammar over command-line tokens, starting
/// at token `i` with the given running title and command: the primary flags
/// and their short aliases each take the following token as value; a flag
/// at the very end, missing its value, is skipped.
pub open spec fn scan_flags(args: Seq<Seq<char>>, i: int, title: Seq<char>, command: Seq<char>)
    -> (Seq<char>, Seq<char>)
    decreases args.len() - i,
{
    if i < 0 || i >= args.len() {
        (title, command)
    } else if args[i] == "--title"@ || args[i] == "-t"@ {
        if i + 1 < args.len() {
            scan_flags(args, i + 2, args[i + 1], command)
        } else {
            scan_flags(args, i + 1, title, command)
        }
    } else if args[i] == "--command"@ || args[i] == "-e"@ {
        if i + 1 < args.len() {
            scan_flags(args, i + 2, title, args[i + 1])
        } else {
            scan_flags(args, i + 1, title, command)
        }
    } else {
        scan_flags(args, i + 1, title, command)
    }
}

/// The default title of a discovered process: a fixed prefix and its pid.
pub open spec fn discovered_title(pid: u32) -> Seq<char> {
    "alacritty-"@ + crate::text::dec_of(pid as nat)
}

/// Title and command of a discovered process, read from its command-line
/// tokens by the launch-flag grammar, with the documented defaults.
pub open spec fn parsed_cmdline(args: Seq<Seq<char>>, pid: u32) -> (Seq<char>, Seq<char>) {
    scan_flags(args, 0, discovered_title(pid), "shell"@)
}

/// Reads title and command from the command-line tokens of process `pid`.
pub fn parse_cmdline(args: &Vec<String>, pid: u32) -> (r: (String, String))
    ensures
        (r.0@, r.1@) == parsed_cmdline(strs(args@), pid),
{
    let ghost vs = strs(args@);
    let mut title = String::from_str("alacritty-");
    {
        let digits = crate::text::u64_to_dec(pid as u64);
        title.append(digits.as_str());
    }
    let mut command = String::from_str("shell");
    let mut i: usize = 0;
    while i < args.len()
        invariant
            i <= args@.len(),
            vs == strs(args@),
            scan_flags(vs, i as int, title@, command@) == parsed_cmdline(vs, pid),
        decreases args@.len() - i,
    {
        if crate::text::str_eq(args[i].as_str(), "--title") || crate::text::str_eq(
            args[i].as_str(), "-t") {
            if i + 1 < args.len() {
                title = args[i + 1].clone();
                i += 2;
            } else {
                i += 1;
            }
        } else if crate::text::str_eq(args[i].as_str(), "--command") || crate::text::str_eq(
            args[i].as_str(), "-e") {
            if i + 1 < args.len() {
                command = args[i + 1].clone();
                i += 2;
            } else {
                i += 1;
            }
        } else {
            i += 1;
        }
    }
    (title, command)
}

/// Builds the registry entry for a process discovered by reconciliation:
/// a fresh opaque id, title and command from its command line, and an
/// unknown creation time recorded as zero.
pub fn build_discovered(pid: u32, args: &Vec<String>, window_id: Option<u32>) -> (r:
    AlacrittyInstance)
    ensures
        r@.pid == pid,
        r@.window_id == window_id,
        r@.created_at == 0,
        r@.id.len() == 36,
        (r@.title, r@.command) == parsed_cmdline(strs(args@), pid),
{
    let id = fresh_instance_id();
    let (title, command) = parse_cmdline(args, pid);
    AlacrittyInstance { id, pid, window_id, title, command, created_at: 0 }
}

} // verus!
