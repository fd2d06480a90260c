//! The durable timer store: an ordered queue of scheduled tasks, one row per
//! task, with upsert semantics on `(tenant, namespace, unique_key)`.
//!
//! Timestamps are UTC milliseconds since the epoch; task payloads are carried
//! in their serialized JSON form.

use vstd::prelude::*;

verus! {

/// One scheduled task row.  `unique_key` gives the row upsert identity within
/// `(tenant, namespace)`; `data` is the payload as serialized JSON text.
pub struct ScheduledTask {
    pub id: u64,
    pub tenant: u64,
    pub namespace: String,
    pub unique_key: Option<String>,
    pub data: String,
    pub fire_at_ms: i64,
}

impl Clone for ScheduledTask {
    fn clone(&self) -> (r: Self)
        ensures
            r == *self,
    {
        ScheduledTask {
            id: self.id,
            tenant: self.tenant,
            namespace: self.namespace.clone(),
            unique_key: self.unique_key.clone(),
            data: self.data.clone(),
            fire_at_ms: self.fire_at_ms,
        }
    }
}

/// Does `t` occupy the upsert slot `(tenant, namespace, key)`?
pub open spec fn task_keyed(t: ScheduledTask, tenant: u64, namespace: Seq<char>, key: Seq<char>) -> bool {
    &&& t.tenant == tenant
    &&& t.namespace@ == namespace
    &&& t.unique_key matches Some(k) && k@ == key
}

/// Is the task eligible for this tenant, outside the in-flight set, and in a
/// namespace some started script declared?
pub open spec fn task_eligible(t: ScheduledTask, tenant: u64, exclude: Seq<u64>, namespaces: Seq<String>) -> bool {
    &&& t.tenant == tenant
    &&& !exclude.contains(t.id)
    &&& has_name(namespaces, t.namespace@)
}

/// Does some string in `names` read `n`?
pub open spec fn has_name(names: Seq<String>, n: Seq<char>) -> bool {
    exists|i: int| 0 <= i < names.len() && names[i]@ == n
}

/// Appending one name extends the name set by exactly that name.
pub proof fn lemma_has_name_push(s: Seq<String>, x: String)
    ensures
        forall|n: Seq<char>| #[trigger] has_name(s.push(x), n) <==> (has_name(s, n) || x@ == n),
{
    assert forall|n: Seq<char>| #[trigger] has_name(s.push(x), n)
        implies (has_name(s, n) || x@ == n) by {
        let j = choose|j: int| 0 <= j < s.push(x).len() && (#[trigger] s.push(x)[j])@ == n;
        if j < s.len() {
            assert(s[j]@ == n);
        }
    }
    assert forall|n: Seq<char>| has_name(s, n) || x@ == n
        implies #[trigger] has_name(s.push(x), n) by {
        if has_name(s, n) {
            let j = choose|j: int| 0 <= j < s.len() && (#[trigger] s[j])@ == n;
            assert(s.push(x)[j]@ == n);
        } else {
            assert(s.push(x)[s.len() as int]@ == n);
        }
    }
}

/// Rows in strictly ascending id order.
pub open spec fn ids_sorted(s: Seq<ScheduledTask>) -> bool {
    forall|i: int, j: int| 0 <= i < j < s.len() ==> s[i].id < s[j].id
}

/// Every row id lies below the allocation cursor.
pub open spec fn ids_below(s: Seq<ScheduledTask>, cursor: u64) -> bool {
    forall|i: int| 0 <= i < s.len() ==> (#[trigger] s[i]).id < cursor
}

/// Do two rows occupy the same upsert slot `(tenant, namespace, unique_key)`?
pub open spec fn same_slot(a: ScheduledTask, b: ScheduledTask) -> bool {
    &&& a.tenant == b.tenant
    &&& a.namespace@ == b.namespace@
    &&& a.unique_key matches Some(ka) && (b.unique_key matches Some(kb) && ka@ == kb@)
}

/// An upsert slot is held by at most one row.
pub open spec fn keys_unique(s: Seq<ScheduledTask>) -> bool {
    forall|i: int, j: int|
        0 <= i < s.len() && 0 <= j < s.len() && i != j
            ==> !same_slot(#[trigger] s[i], #[trigger] s[j])
}

/// The in-memory model of the durable store.  Rows are kept in ascending id
/// order; ids are never reused.
pub struct TimerStore {
    tasks: Vec<ScheduledTask>,
    next_id: u64,
}

impl View for TimerStore {
    type V = Seq<ScheduledTask>;

    closed spec fn view(&self) -> Seq<ScheduledTask> {
        self.tasks@
    }
}

impl TimerStore {
    /// The next id the store would assign; ids of stored rows stay below it.
    pub closed spec fn id_cursor(self) -> u64 {
        self.next_id
    }

    /// Rows are strictly id-ordered, ids stay below the allocation cursor, and
    /// an upsert slot is held by at most one row.
    pub open spec fn wf(self) -> bool {
        &&& ids_sorted(self@)
        &&& ids_below(self@, self.id_cursor())
        &&& keys_unique(self@)
    }

    pub fn new() -> (r: TimerStore)
        ensures
            r.wf(),
            r@ == Seq::<ScheduledTask>::empty(),
    {
        TimerStore { tasks: Vec::new(), next_id: 1 }
    }

    /// Earliest fire time over the eligible tasks of this tenant, or `None`
    /// when no task is eligible.
    pub fn get_next_task_time(&self, tenant: u64, exclude: &Vec<u64>, namespaces: &Vec<String>) -> (r: Option<i64>)
        ensures
            r matches Some(t) ==> {
                &&& exists|i: int|
                    0 <= i < self@.len() && task_eligible(#[trigger] self@[i], tenant, exclude@, namespaces@)
                        && self@[i].fire_at_ms == t
                &&& forall|i: int|
                    0 <= i < self@.len() && task_eligible(#[trigger] self@[i], tenant, exclude@, namespaces@)
                        ==> self@[i].fire_at_ms >= t
            },
            r is None ==> forall|i: int|
                0 <= i < self@.len() ==> !task_eligible(#[trigger] self@[i], tenant, exclude@, namespaces@),
    {
        let mut best: Option<i64> = None;
        let mut i: usize = 0;
        while i < self.tasks.len()
            invariant
                i <= self.tasks.len(),
                best matches Some(t) ==> {
                    &&& exists|k: int|
                        0 <= k < i && task_eligible(#[trigger] self.tasks@[k], tenant, exclude@, namespaces@)
                            && self.tasks@[k].fire_at_ms == t
                    &&& forall|k: int|
                        0 <= k < i && task_eligible(#[trigger] self.tasks@[k], tenant, exclude@, namespaces@)
                            ==> self.tasks@[k].fire_at_ms >= t
                },
                best is None ==> forall|k: int|
                    0 <= k < i ==> !task_eligible(#[trigger] self.tasks@[k], tenant, exclude@, namespaces@),
            decreases self.tasks.len() - i,
        {
            let t = &self.tasks[i];
            if eligible_exec(t, tenant, exclude, namespaces) {
                match best {
                    Some(b) => {
                        if t.fire_at_ms < b {
                            best = Some(t.fire_at_ms);
                        }
                    },
                    None => {
                        best = Some(t.fire_at_ms);
                    },
                }
            }
            i += 1;
        }
        best
    }

    /// Index of the row holding upsert slot `(tenant, namespace, key)`, if any.
    fn find_keyed(&self, tenant: u64, namespace: &String, key: &String) -> (r: Option<usize>)
        ensures
            r matches Some(i) ==> 0 <= i < self@.len()
                && task_keyed(self@[i as int], tenant, namespace@, key@),
            r is None ==> forall|i: int|
                0 <= i < self@.len() ==> !task_keyed(#[trigger] self@[i], tenant, namespace@, key@),
    {
        let mut i: usize = 0;
        while i < self.tasks.len()
            invariant
                i <= self.tasks.len(),
                forall|k: int| 0 <= k < i ==> !task_keyed(#[trigger] self.tasks@[k], tenant, namespace@, key@),
            decreases self.tasks.len() - i,
        {
            let t = &self.tasks[i];
            let key_match = match &t.unique_key {
                Some(k) => *k == *key,
                None => false,
            };
            if t.tenant == tenant && t.namespace == *namespace && key_match {
                return Some(i);
            }
            i += 1;
        }
        None
    }

    /// Insert a task, or update the row already holding `(tenant, namespace,
    /// unique_key)` when that key is present: the later call's `data` and
    /// `fire_at_ms` win and the row keeps its id.
    pub fn create_task(&mut self, tenant: u64, namespace: String, unique_key: Option<String>, data: String, fire_at_ms: i64) -> (r: Result<ScheduledTask, StoreError>)
        requires
            old(self).wf(),
        ensures
            final(self).wf(),
            r is Err <==> (!upsert_hit(old(self)@, tenant, namespace@, unique_key)
                && old(self).id_cursor() == u64::MAX),
            match r {
                Ok(t) => {
                    &&& t.tenant == tenant
                    &&& t.namespace == namespace
                    &&& t.unique_key == unique_key
                    &&& t.data == data
                    &&& t.fire_at_ms == fire_at_ms
                    &&& if upsert_hit(old(self)@, tenant, namespace@, unique_key) {
                        &&& exists|i: int|
                            0 <= i < old(self)@.len()
                                && task_keyed(#[trigger] old(self)@[i], tenant, namespace@, (unique_key->Some_0)@)
                                && t.id == old(self)@[i].id
                                && final(self)@ == old(self)@.update(i, t)
                        &&& final(self).id_cursor() == old(self).id_cursor()
                    } else {
                        &&& t.id == old(self).id_cursor()
                        &&& final(self)@ == old(self)@.push(t)
                        &&& final(self).id_cursor() == old(self).id_cursor() + 1
                    }
                },
                Err(e) => {
                    &&& e == StoreError::IdSpaceExhausted
                    &&& *final(self) == *old(self)
                },
            },
    {
        let hit: Option<usize> = match &unique_key {
            Some(key) => self.find_keyed(tenant, &namespace, key),
            None => None,
        };
        match hit {
            Some(i) => {
                let id = self.tasks[i].id;
                let t = ScheduledTask { id, tenant, namespace, unique_key, data, fire_at_ms };
                let out = t.clone();
                self.tasks.set(i, t);
                proof {
                    let s0 = old(self)@;
                    let s1 = self@;
                    assert forall|k: int, l: int|
                        0 <= k < s1.len() && 0 <= l < s1.len() && k != l
                        implies !same_slot(s1[k], s1[l]) by {
                        if k != i && l != i {
                            assert(!same_slot(s0[k], s0[l]));
                        } else if k == i as int {
                            assert(!same_slot(s0[k], s0[l]));
                        } else {
                            assert(!same_slot(s0[k], s0[l]));
                        }
                    }
                }
                Ok(out)
            },
            None => {
                if self.next_id == u64::MAX {
                    return Err(StoreError::IdSpaceExhausted);
                }
                let t = ScheduledTask {
                    id: self.next_id,
                    tenant,
                    namespace,
                    unique_key,
                    data,
                    fire_at_ms,
                };
                let out = t.clone();
                self.tasks.push(t);
                self.next_id = self.next_id + 1;
                proof {
                    let s0 = old(self)@;
                    let s1 = self@;
                    assert forall|k: int, l: int|
                        0 <= k < s1.len() && 0 <= l < s1.len() && k != l
                        implies !same_slot(s1[k], s1[l]) by {
                        if k < s0.len() && l < s0.len() {
                            assert(!same_slot(s0[k], s0[l]));
                        }
                    }
                }
                Ok(out)
            },
        }
    }

    /// All eligible tasks of this tenant already due at `now_ms`, in store
    /// (ascending id) order.
    pub fn get_triggered_tasks(&self, tenant: u64, now_ms: i64, exclude: &Vec<u64>, namespaces: &Vec<String>) -> (r: Vec<ScheduledTask>)
        ensures
            r@ == self@.filter(due_filter(tenant, now_ms, exclude@, namespaces@)),
    {
        let ghost pred = due_filter(tenant, now_ms, exclude@, namespaces@);
        let mut out: Vec<ScheduledTask> = Vec::new();
        proof {
            lemma_filter_empty::<ScheduledTask>(pred);
            assert(self.tasks@.subrange(0, 0) =~= Seq::<ScheduledTask>::empty());
        }
        let mut i: usize = 0;
        while i < self.tasks.len()
            invariant
                i <= self.tasks.len(),
                out@ == self.tasks@.subrange(0, i as int).filter(pred),
                pred == due_filter(tenant, now_ms, exclude@, namespaces@),
            decreases self.tasks.len() - i,
        {
            let t = &self.tasks[i];
            if eligible_exec(t, tenant, exclude, namespaces) && t.fire_at_ms <= now_ms {
                out.push(t.clone());
            }
            proof {
                lemma_filter_step(self.tasks@, pred, i as int);
            }
            i += 1;
        }
        proof {
            assert(self.tasks@.subrange(0, self.tasks@.len() as int) =~= self.tasks@);
        }
        out
    }

    /// Delete the tenant's row `id`; the returned count says whether a row
    /// actually went.
    pub fn del_task_by_id(&mut self, tenant: u64, id: u64) -> (r: u64)
        requires
            old(self).wf(),
        ensures
            final(self).wf(),
            final(self)@ == old(self)@.filter(del_id_keep(tenant, id)),
            final(self).id_cursor() == old(self).id_cursor(),
            r == old(self)@.len() - final(self)@.len(),
    {
        let ghost pred = del_id_keep(tenant, id);
        let mut kept: Vec<ScheduledTask> = Vec::new();
        proof {
            lemma_filter_empty::<ScheduledTask>(pred);
            assert(self.tasks@.subrange(0, 0) =~= Seq::<ScheduledTask>::empty());
        }
        let mut i: usize = 0;
        while i < self.tasks.len()
            invariant
                i <= self.tasks.len(),
                kept@.len() <= i,
                kept@ == self.tasks@.subrange(0, i as int).filter(pred),
                pred == del_id_keep(tenant, id),
            decreases self.tasks.len() - i,
        {
            let t = &self.tasks[i];
            if !(t.tenant == tenant && t.id == id) {
                kept.push(t.clone());
            }
            proof {
                lemma_filter_step(self.tasks@, pred, i as int);
            }
            i += 1;
        }
        proof {
            assert(self.tasks@.subrange(0, self.tasks@.len() as int) =~= self.tasks@);
            lemma_filter_wf(self.tasks@, pred);
        }
        let removed = self.tasks.len() - kept.len();
        self.tasks = kept;
        removed as u64
    }

    /// Delete the row holding upsert slot `(tenant, namespace, key)`, if any.
    pub fn del_task_by_key(&mut self, tenant: u64, namespace: &String, key: &String) -> (r: u64)
        requires
            old(self).wf(),
        ensures
            final(self).wf(),
            final(self)@ == old(self)@.filter(del_key_keep(tenant, namespace@, key@)),
            final(self).id_cursor() == old(self).id_cursor(),
            r == old(self)@.len() - final(self)@.len(),
    {
        let ghost pred = del_key_keep(tenant, namespace@, key@);
        let mut kept: Vec<ScheduledTask> = Vec::new();
        proof {
            lemma_filter_empty::<ScheduledTask>(pred);
            assert(self.tasks@.subrange(0, 0) =~= Seq::<ScheduledTask>::empty());
        }
        let mut i: usize = 0;
        while i < self.tasks.len()
            invariant
                i <= self.tasks.len(),
                kept@.len() <= i,
                kept@ == self.tasks@.subrange(0, i as int).filter(pred),
                pred == del_key_keep(tenant, namespace@, key@),
            decreases self.tasks.len() - i,
        {
            let t = &self.tasks[i];
            let key_match = match &t.unique_key {
                Some(k) => *k == *key,
                None => false,
            };
            if !(t.tenant == tenant && t.namespace == *namespace && key_match) {
                kept.push(t.clone());
            }
            proof {
                lemma_filter_step(self.tasks@, pred, i as int);
            }
            i += 1;
        }
        proof {
            assert(self.tasks@.subrange(0, self.tasks@.len() as int) =~= self.tasks@);
            lemma_filter_wf(self.tasks@, pred);
        }
        let removed = self.tasks.len() - kept.len();
        self.tasks = kept;
        removed as u64
    }

    /// Delete the tenant's rows, either all of them or only one namespace's.
    pub fn del_all_tasks(&mut self, tenant: u64, namespace: Option<&String>) -> (r: u64)
        requires
            old(self).wf(),
        ensures
            final(self).wf(),
            final(self)@ == old(self)@.filter(del_scope_keep(tenant, opt_name_view(namespace))),
            final(self).id_cursor() == old(self).id_cursor(),
            r == old(self)@.len() - final(self)@.len(),
    {
        let ghost pred = del_scope_keep(tenant, opt_name_view(namespace));
        let mut kept: Vec<ScheduledTask> = Vec::new();
        proof {
            lemma_filter_empty::<ScheduledTask>(pred);
            assert(self.tasks@.subrange(0, 0) =~= Seq::<ScheduledTask>::empty());
        }
        let mut i: usize = 0;
        while i < self.tasks.len()
            invariant
                i <= self.tasks.len(),
                kept@.len() <= i,
                kept@ == self.tasks@.subrange(0, i as int).filter(pred),
                pred == del_scope_keep(tenant, opt_name_view(namespace)),
            decreases self.tasks.len() - i,
        {
            let t = &self.tasks[i];
            let ns_match = match namespace {
                Some(ns) => t.namespace == *ns,
                None => true,
            };
            if !(t.tenant == tenant && ns_match) {
                kept.push(t.clone());
            }
            proof {
                lemma_filter_step(self.tasks@, pred, i as int);
            }
            i += 1;
        }
        proof {
            assert(self.tasks@.subrange(0, self.tasks@.len() as int) =~= self.tasks@);
            lemma_filter_wf(self.tasks@, pred);
        }
        let removed = self.tasks.len() - kept.len();
        self.tasks = kept;
        removed as u64
    }

    /// Look a row up by id within one tenant.
    pub fn get_task_by_id(&self, tenant: u64, id: u64) -> (r: Option<ScheduledTask>)
        ensures
            r matches Some(t) ==> t.tenant == tenant && t.id == id && self@.contains(t),
            r is None ==> forall|i: int|
                0 <= i < self@.len() ==> !((#[trigger] self@[i]).tenant == tenant && self@[i].id == id),
    {
        let mut i: usize = 0;
        while i < self.tasks.len()
            invariant
                i <= self.tasks.len(),
                forall|k: int| 0 <= k < i ==> !((#[trigger] self.tasks@[k]).tenant == tenant && self.tasks@[k].id == id),
            decreases self.tasks.len() - i,
        {
            let t = &self.tasks[i];
            if t.tenant == tenant && t.id == id {
                let out = t.clone();
                assert(self.tasks@[i as int] == out);
                return Some(out);
            }
            i += 1;
        }
        None
    }

    /// Look a row up by its upsert slot.
    pub fn get_task_by_key(&self, tenant: u64, namespace: &String, key: &String) -> (r: Option<ScheduledTask>)
        ensures
            r matches Some(t) ==> task_keyed(t, tenant, namespace@, key@) && self@.contains(t),
            r is None ==> forall|i: int|
                0 <= i < self@.len() ==> !task_keyed(#[trigger] self@[i], tenant, namespace@, key@),
    {
        let found = self.find_keyed(tenant, namespace, key);
        match found {
            Some(i) => {
                let out = self.tasks[i].clone();
                assert(self.tasks@[i as int] == out);
                Some(out)
            },
            None => None,
        }
    }

    /// One id-ordered page of the tenant's rows with ids above `after_id`,
    /// at most `limit` long.
    pub fn get_tasks(&self, tenant: u64, namespace: Option<&String>, after_id: u64, limit: usize) -> (r: Vec<ScheduledTask>)
        ensures
            exists|i: int|
                0 <= i <= self@.len()
                    && r@ == self@.subrange(0, i).filter(page_pred(tenant, opt_name_view(namespace), after_id))
                    && (r@.len() == limit || i == self@.len()),
            r@.len() <= limit,
            ids_sorted(self@) ==> ids_sorted(r@),
    {
        let ghost pred = page_pred(tenant, opt_name_view(namespace), after_id);
        let mut out: Vec<ScheduledTask> = Vec::new();
        proof {
            lemma_filter_empty::<ScheduledTask>(pred);
            assert(self.tasks@.subrange(0, 0) =~= Seq::<ScheduledTask>::empty());
        }
        let mut i: usize = 0;
        while i < self.tasks.len() && out.len() < limit
            invariant
                i <= self.tasks.len(),
                out@.len() <= limit,
                out@ == self.tasks@.subrange(0, i as int).filter(pred),
                pred == page_pred(tenant, opt_name_view(namespace), after_id),
            decreases self.tasks.len() - i,
        {
            let t = &self.tasks[i];
            let ns_match = match namespace {
                Some(ns) => t.namespace == *ns,
                None => true,
            };
            if t.tenant == tenant && t.id > after_id && ns_match {
                out.push(t.clone());
            }
            proof {
                lemma_filter_step(self.tasks@, pred, i as int);
            }
            i += 1;
        }
        proof {
            assert(out@.len() == limit || i as int == self@.len());
            assert(0 <= i as int <= self@.len()
                && out@ == self@.subrange(0, i as int).filter(pred)
                && (out@.len() == limit || i as int == self@.len()));
            if ids_sorted(self@) {
                let pre = self@.subrange(0, i as int);
                assert(ids_sorted(pre));
                lemma_filter_wf(pre, pred);
            }
        }
        out
    }

    /// How many rows this tenant holds.
    pub fn get_task_count(&self, tenant: u64) -> (r: u64)
        ensures
            r == self@.filter(tenant_pred(tenant)).len(),
    {
        let ghost pred = tenant_pred(tenant);
        let mut count: usize = 0;
        proof {
            lemma_filter_empty::<ScheduledTask>(pred);
            assert(self.tasks@.subrange(0, 0) =~= Seq::<ScheduledTask>::empty());
        }
        let mut i: usize = 0;
        while i < self.tasks.len()
            invariant
                i <= self.tasks.len(),
                count <= i,
                count == self.tasks@.subrange(0, i as int).filter(pred).len(),
                pred == tenant_pred(tenant),
            decreases self.tasks.len() - i,
        {
            let t = &self.tasks[i];
            if t.tenant == tenant {
                count += 1;
            }
            proof {
                lemma_filter_step(self.tasks@, pred, i as int);
            }
            i += 1;
        }
        proof {
            assert(self.tasks@.subrange(0, self.tasks@.len() as int) =~= self.tasks@);
        }
        count as u64
    }
}

/// The one failure the in-memory model can produce: the id space is used up.
/// A durable implementation would surface its own transient errors here.
#[derive(Clone, Copy, Debug, PartialEq, Eq, Structural)]
pub enum StoreError {
    IdSpaceExhausted,
}

/// Is some row of `s` already holding the upsert slot named by `key`?
pub open spec fn upsert_hit(s: Seq<ScheduledTask>, tenant: u64, namespace: Seq<char>, key: Option<String>) -> bool {
    key matches Some(k) && exists|i: int| 0 <= i < s.len() && task_keyed(#[trigger] s[i], tenant, namespace, k@)
}

/// Rows kept by `del_task_by_id`: everything but this tenant's row `id`.
pub open spec fn del_id_keep(tenant: u64, id: u64) -> spec_fn(ScheduledTask) -> bool {
    |t: ScheduledTask| !(t.tenant == tenant && t.id == id)
}

/// Rows kept by `del_task_by_key`: everything but the row in this upsert slot.
pub open spec fn del_key_keep(tenant: u64, namespace: Seq<char>, key: Seq<char>) -> spec_fn(ScheduledTask) -> bool {
    |t: ScheduledTask| !task_keyed(t, tenant, namespace, key)
}

/// Rows kept by `del_all_tasks`: all of the tenant's rows go when no namespace
/// is named, otherwise only those of the named namespace.
pub open spec fn del_scope_keep(tenant: u64, namespace: Option<Seq<char>>) -> spec_fn(ScheduledTask) -> bool {
    |t: ScheduledTask| !(t.tenant == tenant && (match namespace {
        Some(ns) => t.namespace@ == ns,
        None => true,
    }))
}

/// Rows selected by one page of `get_tasks`.
pub open spec fn page_pred(tenant: u64, namespace: Option<Seq<char>>, after_id: u64) -> spec_fn(ScheduledTask) -> bool {
    |t: ScheduledTask| t.tenant == tenant && t.id > after_id && (match namespace {
        Some(ns) => t.namespace@ == ns,
        None => true,
    })
}

/// Rows belonging to one tenant.
pub open spec fn tenant_pred(tenant: u64) -> spec_fn(ScheduledTask) -> bool {
    |t: ScheduledTask| t.tenant == tenant
}

/// The contents of an optional namespace argument.
pub open spec fn opt_name_view(o: Option<&String>) -> Option<Seq<char>> {
    match o {
        Some(s) => Some(s@),
        None => None,
    }
}

/// Eligibility of one task row, checked executably.
fn eligible_exec(t: &ScheduledTask, tenant: u64, exclude: &Vec<u64>, namespaces: &Vec<String>) -> (r: bool)
    ensures
        r == task_eligible(*t, tenant, exclude@, namespaces@),
{
    t.tenant == tenant && !contains_id(exclude, t.id) && contains_name(namespaces, &t.namespace)
}

/// Linear membership test on an id list.
pub fn contains_id(v: &Vec<u64>, x: u64) -> (r: bool)
    ensures
        r == v@.contains(x),
{
    let mut i: usize = 0;
    while i < v.len()
        invariant
            i <= v.len(),
            forall|k: int| 0 <= k < i ==> v@[k] != x,
        decreases v.len() - i,
    {
        if v[i] == x {
            assert(v@[i as int] == x);
            return true;
        }
        i += 1;
    }
    false
}

/// The selection predicate for due tasks: eligible and already due at `now_ms`.
pub open spec fn due_filter(tenant: u64, now_ms: i64, exclude: Seq<u64>, namespaces: Seq<String>) -> spec_fn(ScheduledTask) -> bool {
    |t: ScheduledTask| task_eligible(t, tenant, exclude, namespaces) && t.fire_at_ms <= now_ms
}

/// Filtering a one-longer prefix extends the filtered prefix by the new
/// element exactly when the predicate accepts it.
pub proof fn lemma_filter_step<A>(s: Seq<A>, pred: spec_fn(A) -> bool, i: int)
    requires
        0 <= i < s.len(),
    ensures
        s.subrange(0, i + 1).filter(pred) == (if pred(s[i]) {
            s.subrange(0, i).filter(pred).push(s[i])
        } else {
            s.subrange(0, i).filter(pred)
        }),
{
    let pre = s.subrange(0, i + 1);
    assert(pre.drop_last() =~= s.subrange(0, i));
    assert(pre.last() == s[i]);
    reveal_with_fuel(Seq::filter, 2);
}

/// An empty sequence filters to an empty sequence.
pub proof fn lemma_filter_empty<A>(pred: spec_fn(A) -> bool)
    ensures
        Seq::<A>::empty().filter(pred) == Seq::<A>::empty(),
{
    reveal_with_fuel(Seq::filter, 1);
}

/// Filtering keeps every store invariant: the result is a subsequence, so id
/// order, the id bound and key uniqueness all carry over.
pub proof fn lemma_filter_wf(s: Seq<ScheduledTask>, pred: spec_fn(ScheduledTask) -> bool)
    ensures
        forall|k: int| 0 <= k < s.filter(pred).len()
            ==> exists|j: int| 0 <= j < s.len() && #[trigger] s.filter(pred)[k] == s[j],
        ids_sorted(s) ==> ids_sorted(s.filter(pred)),
        keys_unique(s) ==> keys_unique(s.filter(pred)),
        forall|c: u64| #[trigger] ids_below(s, c) ==> ids_below(s.filter(pred), c),
    decreases s.len(),
{
    reveal_with_fuel(Seq::filter, 2);
    if s.len() == 0 {
    } else {
        let d = s.drop_last();
        let f = s.filter(pred);
        let df = d.filter(pred);
        lemma_filter_wf(d, pred);
        assert(forall|j: int| 0 <= j < d.len() ==> #[trigger] d[j] == s[j]);
        assert forall|k: int| 0 <= k < f.len()
            implies exists|j: int| 0 <= j < s.len() && #[trigger] f[k] == s[j] by {
            if k < df.len() {
                let j = choose|j: int| 0 <= j < d.len() && df[k] == d[j];
                assert(f[k] == s[j]);
            } else {
                assert(f[k] == s[s.len() - 1]);
            }
        }
        if ids_sorted(s) {
            assert(ids_sorted(d));
            assert forall|k: int, l: int| 0 <= k < l < f.len() implies f[k].id < f[l].id by {
                if l < df.len() {
                    assert(df[k].id < df[l].id);
                } else {
                    let j = choose|j: int| 0 <= j < d.len() && df[k] == d[j];
                    assert(s[j].id < s[s.len() - 1].id);
                }
            }
        }
        if keys_unique(s) {
            assert(keys_unique(d));
            assert forall|k: int, l: int|
                0 <= k < f.len() && 0 <= l < f.len() && k != l
                implies !same_slot(f[k], f[l]) by {
                if k < df.len() && l < df.len() {
                    assert(!same_slot(df[k], df[l]));
                } else if k < df.len() {
                    let j = choose|j: int| 0 <= j < d.len() && df[k] == d[j];
                    assert(!same_slot(s[j], s[s.len() - 1]));
                } else {
                    let j = choose|j: int| 0 <= j < d.len() && df[l] == d[j];
                    assert(!same_slot(s[s.len() - 1], s[j]));
                }
            }
        }
        assert forall|c: u64| #[trigger] ids_below(s, c) implies ids_below(f, c) by {
            assert forall|k: int| 0 <= k < f.len() implies (#[trigger] f[k]).id < c by {
                let j = choose|j: int| 0 <= j < s.len() && f[k] == s[j];
                assert(s[j].id < c);
            }
        }
    }
}

/// Linear membership test on a name list, comparing string contents.
pub fn contains_name(names: &Vec<String>, n: &String) -> (r: bool)
    ensures
        r == has_name(names@, n@),
{
    let mut i: usize = 0;
    while i < names.len()
        invariant
            i <= names.len(),
            forall|k: int| 0 <= k < i ==> names@[k]@ != n@,
        decreases names.len() - i,
    {
        let s: &String = &names[i];
        if *s == *n {
            assert(names@[i as int]@ == n@);
            return true;
        }
        i += 1;
    }
    false
}

} // verus!
