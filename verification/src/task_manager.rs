//! The per-tenant scheduler cursor: remembers the next fire time, the tasks
//! picked up but not yet acknowledged, and the namespaces that started scripts
//! have declared.

use vstd::prelude::*;
use crate::runtime::ScriptMeta;
use crate::timers::{
    ScheduledTask, TimerStore, contains_name, del_id_keep, due_filter, has_name, ids_sorted,
    lemma_filter_wf, lemma_has_name_push, task_eligible,
};

verus! {

/// What the scheduling loop should do next: nothing is scheduled, sleep until
/// the given time, or run these due tasks.
pub enum NextAction {
    Idle,
    Wait(i64),
    Run(Vec<ScheduledTask>),
}

/// The ids of a task sequence, in order.
pub open spec fn ids_of(s: Seq<ScheduledTask>) -> Seq<u64> {
    s.map_values(|t: ScheduledTask| t.id)
}

/// No id appears twice.
pub open spec fn ids_unique(s: Seq<u64>) -> bool {
    forall|i: int, j: int| 0 <= i < j < s.len() ==> s[i] != s[j]
}

/// No name appears twice.
pub open spec fn names_unique(s: Seq<String>) -> bool {
    forall|i: int, j: int| 0 <= i < j < s.len() ==> s[i]@ != s[j]@
}

/// The ghost image of a [`Manager`].
pub ghost struct ManagerView {
    pub guild_id: u64,
    pub next_task_time: Option<Option<i64>>,
    pub pending: Seq<u64>,
    pub task_names: Seq<String>,
}

/// The per-tenant task-manager cursor.  The outer option of `next_task_time`
/// distinguishes "not yet queried" from "queried"; the inner one is `None`
/// when the store has no eligible task.
pub struct Manager {
    guild_id: u64,
    next_task_time: Option<Option<i64>>,
    pending: Vec<u64>,
    task_names: Vec<String>,
}

impl View for Manager {
    type V = ManagerView;

    closed spec fn view(&self) -> ManagerView {
        ManagerView {
            guild_id: self.guild_id,
            next_task_time: self.next_task_time,
            pending: self.pending@,
            task_names: self.task_names@,
        }
    }
}

impl Manager {
    /// In-flight ids and declared namespaces carry no duplicates.
    pub open spec fn wf(self) -> bool {
        &&& ids_unique(self@.pending)
        &&& names_unique(self@.task_names)
    }

    pub fn new(guild_id: u64) -> (r: Manager)
        ensures
            r.wf(),
            r@.guild_id == guild_id,
            r@.next_task_time is None,
            r@.pending == Seq::<u64>::empty(),
            r@.task_names == Seq::<String>::empty(),
    {
        Manager {
            guild_id,
            next_task_time: None,
            pending: Vec::new(),
            task_names: Vec::new(),
        }
    }

    /// Forget all in-flight ids; the cached fire time is untouched.
    pub fn clear_pending(&mut self)
        requires
            old(self).wf(),
        ensures
            final(self).wf(),
            final(self)@.guild_id == old(self)@.guild_id,
            final(self)@.next_task_time == old(self)@.next_task_time,
            final(self)@.pending == Seq::<u64>::empty(),
            final(self)@.task_names == old(self)@.task_names,
    {
        self.pending.clear();
    }

    /// Drop the cached next fire time, forcing the next call to query anew.
    pub fn clear_next(&mut self)
        requires
            old(self).wf(),
        ensures
            final(self).wf(),
            final(self)@.guild_id == old(self)@.guild_id,
            final(self)@.next_task_time is None,
            final(self)@.pending == old(self)@.pending,
            final(self)@.task_names == old(self)@.task_names,
    {
        self.next_task_time = None;
    }

    /// Forget the declared namespaces; used when the VM restarts.
    pub fn clear_task_names(&mut self)
        requires
            old(self).wf(),
        ensures
            final(self).wf(),
            final(self)@.guild_id == old(self)@.guild_id,
            final(self)@.next_task_time == old(self)@.next_task_time,
            final(self)@.pending == old(self)@.pending,
            final(self)@.task_names == Seq::<String>::empty(),
    {
        self.task_names.clear();
    }

    /// Union the script's declared namespaces into the known set and drop the
    /// cached fire time, so newly gated tasks become visible.
    pub fn script_started(&mut self, meta: &ScriptMeta)
        requires
            old(self).wf(),
        ensures
            final(self).wf(),
            final(self)@.guild_id == old(self)@.guild_id,
            final(self)@.next_task_time is None,
            final(self)@.pending == old(self)@.pending,
            forall|n: Seq<char>| #![trigger has_name(final(self)@.task_names, n)]
                has_name(final(self)@.task_names, n)
                    <==> (has_name(old(self)@.task_names, n) || has_name(meta.task_names@, n)),
    {
        let mut i: usize = 0;
        while i < meta.task_names.len()
            invariant
                i <= meta.task_names.len(),
                self.guild_id == old(self)@.guild_id,
                self.pending@ == old(self)@.pending,
                names_unique(self.task_names@),
                ids_unique(self.pending@),
                forall|n: Seq<char>|
                    has_name(self.task_names@, n)
                        <==> (has_name(old(self)@.task_names, n)
                            || has_name(meta.task_names@.subrange(0, i as int), n)),
            decreases meta.task_names.len() - i,
        {
            let name = &meta.task_names[i];
            let ghost prev = self.task_names@;
            let already = contains_name(&self.task_names, name);
            if !already {
                self.task_names.push(name.clone());
                proof {
                    lemma_has_name_push(prev, self.task_names@.last());
                    assert forall|k1: int, j1: int| 0 <= k1 < j1 < self.task_names@.len()
                        implies self.task_names@[k1]@ != self.task_names@[j1]@ by {
                        if j1 == prev.len() {
                            assert(prev[k1]@ == self.task_names@[k1]@);
                            assert(!has_name(prev, meta.task_names@[i as int]@));
                        }
                    }
                }
            }
            proof {
                assert(meta.task_names@.subrange(0, i + 1)
                    =~= meta.task_names@.subrange(0, i as int).push(meta.task_names@[i as int]));
                lemma_has_name_push(meta.task_names@.subrange(0, i as int), meta.task_names@[i as int]);
                if already {
                    assert(has_name(prev, meta.task_names@[i as int]@));
                }
            }
            i += 1;
        }
        proof {
            assert(meta.task_names@.subrange(0, meta.task_names@.len() as int) =~= meta.task_names@);
        }
        self.next_task_time = None;
    }

    /// One scheduler step, following the cursor discipline: query the store
    /// when the cache is unset; report `Idle` when nothing eligible is
    /// scheduled; `Wait` while the cached fire time lies in the future;
    /// otherwise pick up every due task, mark it in-flight and drop the cache.
    pub fn next_action(&mut self, store: &TimerStore, now_ms: i64) -> (r: NextAction)
        requires
            old(self).wf(),
            store.wf(),
        ensures
            final(self).wf(),
            final(self)@.guild_id == old(self)@.guild_id,
            final(self)@.task_names == old(self)@.task_names,
            match r {
                NextAction::Idle => {
                    &&& final(self)@.pending == old(self)@.pending
                    &&& final(self)@.next_task_time == Some(Option::<i64>::None)
                    &&& old(self)@.next_task_time is None ==> forall|i: int|
                        0 <= i < store@.len() ==> !task_eligible(
                            #[trigger] store@[i],
                            old(self)@.guild_id,
                            old(self)@.pending,
                            old(self)@.task_names,
                        )
                },
                NextAction::Wait(t) => {
                    &&& final(self)@.pending == old(self)@.pending
                    &&& t > now_ms
                    &&& final(self)@.next_task_time == Some(Some(t))
                    &&& old(self)@.next_task_time matches Some(Some(t0)) ==> t == t0
                    &&& old(self)@.next_task_time is None ==> exists|i: int|
                        0 <= i < store@.len() && task_eligible(
                            #[trigger] store@[i],
                            old(self)@.guild_id,
                            old(self)@.pending,
                            old(self)@.task_names,
                        ) && store@[i].fire_at_ms == t
                    &&& old(self)@.next_task_time is None ==> forall|i: int|
                        0 <= i < store@.len() && task_eligible(
                            #[trigger] store@[i],
                            old(self)@.guild_id,
                            old(self)@.pending,
                            old(self)@.task_names,
                        ) ==> store@[i].fire_at_ms >= t
                },
                NextAction::Run(tasks) => {
                    &&& tasks@ == store@.filter(due_filter(
                        old(self)@.guild_id,
                        now_ms,
                        old(self)@.pending,
                        old(self)@.task_names,
                    ))
                    &&& final(self)@.pending == old(self)@.pending + ids_of(tasks@)
                    &&& final(self)@.next_task_time is None
                },
            },
            (old(self)@.next_task_time is None && exists|i: int|
                0 <= i < store@.len() && task_eligible(
                    #[trigger] store@[i],
                    old(self)@.guild_id,
                    old(self)@.pending,
                    old(self)@.task_names,
                ) && store@[i].fire_at_ms <= now_ms) ==> r is Run,
            (old(self)@.next_task_time matches Some(Some(t0)) && t0 <= now_ms) ==> r is Run,
            old(self)@.next_task_time matches Some(Some(t0)) ==> (t0 > now_ms ==> r
                == NextAction::Wait(t0)),
            (old(self)@.next_task_time is None && (exists|i: int|
                0 <= i < store@.len() && task_eligible(
                    #[trigger] store@[i],
                    old(self)@.guild_id,
                    old(self)@.pending,
                    old(self)@.task_names,
                )) && (forall|i: int|
                0 <= i < store@.len() && task_eligible(
                    #[trigger] store@[i],
                    old(self)@.guild_id,
                    old(self)@.pending,
                    old(self)@.task_names,
                ) ==> store@[i].fire_at_ms > now_ms)) ==> r is Wait,
            old(self)@.next_task_time == Some(Option::<i64>::None) ==> r is Idle,
            (old(self)@.next_task_time is None && forall|i: int|
                0 <= i < store@.len() ==> !task_eligible(
                    #[trigger] store@[i],
                    old(self)@.guild_id,
                    old(self)@.pending,
                    old(self)@.task_names,
                )) ==> r is Idle,
    {
        let cached: Option<i64> = match self.next_task_time {
            Some(v) => v,
            None => {
                let fetched = store.get_next_task_time(self.guild_id, &self.pending, &self.task_names);
                self.next_task_time = Some(fetched);
                fetched
            },
        };
        match cached {
            None => NextAction::Idle,
            Some(t) => {
                if t > now_ms {
                    NextAction::Wait(t)
                } else {
                    let ghost g = old(self)@.guild_id;
                    let ghost excl = old(self)@.pending;
                    let ghost names = old(self)@.task_names;
                    let ghost pred = due_filter(g, now_ms, excl, names);
                    let tasks = store.get_triggered_tasks(self.guild_id, now_ms, &self.pending, &self.task_names);
                    proof {
                        lemma_filter_wf(store@, pred);
                        assert forall|j: int| 0 <= j < tasks@.len()
                            implies task_eligible(#[trigger] tasks@[j], g, excl, names) by {
                            store@.lemma_filter_pred(pred, j);
                        }
                        assert(ids_of(tasks@.subrange(0, 0)) =~= Seq::<u64>::empty());
                        assert(self.pending@ =~= excl + ids_of(tasks@.subrange(0, 0)));
                    }
                    let mut k: usize = 0;
                    while k < tasks.len()
                        invariant
                            k <= tasks.len(),
                            tasks@ == store@.filter(pred),
                            pred == due_filter(g, now_ms, excl, names),
                            ids_sorted(tasks@),
                            ids_unique(excl),
                            forall|j: int| 0 <= j < tasks@.len()
                                ==> task_eligible(#[trigger] tasks@[j], g, excl, names),
                            self.guild_id == g,
                            self.task_names@ == names,
                            self.pending@ == excl + ids_of(tasks@.subrange(0, k as int)),
                            ids_unique(self.pending@),
                        decreases tasks.len() - k,
                    {
                        self.pending.push(tasks[k].id);
                        proof {
                            let pre = tasks@.subrange(0, k as int);
                            let now_pre = tasks@.subrange(0, k + 1);
                            assert(ids_of(now_pre) =~= ids_of(pre).push(tasks@[k as int].id));
                            assert(self.pending@ =~= excl + ids_of(now_pre));
                            let p = self.pending@;
                            assert forall|a: int, b: int| 0 <= a < b < p.len()
                                implies p[a] != p[b] by {
                                if b < excl.len() {
                                } else if a < excl.len() {
                                    let tb = b - excl.len();
                                    assert(p[b] == tasks@[tb].id);
                                    assert(task_eligible(tasks@[tb], g, excl, names));
                                    assert(!excl.contains(p[b]));
                                    assert(p[a] == excl[a]);
                                } else {
                                    let ta = a - excl.len();
                                    let tb = b - excl.len();
                                    assert(p[a] == tasks@[ta].id);
                                    assert(p[b] == tasks@[tb].id);
                                    assert(tasks@[ta].id < tasks@[tb].id);
                                }
                            }
                        }
                        k += 1;
                    }
                    proof {
                        assert(tasks@.subrange(0, tasks@.len() as int) =~= tasks@);
                    }
                    self.next_task_time = None;
                    NextAction::Run(tasks)
                }
            },
        }
    }

    /// Take `id` out of the in-flight set and delete its row from the store.
    /// With a durable store the deletion would be retried until it succeeds;
    /// the in-memory model cannot fail.
    pub fn ack_triggered_task(&mut self, store: &mut TimerStore, id: u64)
        requires
            old(self).wf(),
            old(store).wf(),
        ensures
            final(self).wf(),
            final(store).wf(),
            final(self)@.guild_id == old(self)@.guild_id,
            final(self)@.next_task_time == old(self)@.next_task_time,
            final(self)@.task_names == old(self)@.task_names,
            forall|x: u64|
                final(self)@.pending.contains(x) <==> (old(self)@.pending.contains(x) && x != id),
            final(store)@ == old(store)@.filter(del_id_keep(old(self)@.guild_id, id)),
    {
        let mut i: usize = 0;
        let mut found: Option<usize> = None;
        while i < self.pending.len()
            invariant
                i <= self.pending.len(),
                found matches Some(k) ==> 0 <= k < self.pending.len() && self.pending@[k as int] == id,
                found is None ==> forall|k: int| 0 <= k < i ==> self.pending@[k] != id,
            decreases self.pending.len() - i,
        {
            if self.pending[i] == id {
                found = Some(i);
            }
            i += 1;
        }
        match found {
            Some(k) => {
                let ghost before = self.pending@;
                let ghost ki = k as int;
                self.pending.swap_remove(k);
                proof {
                    let after = self.pending@;
                    assert(before[ki] == id);
                    assert forall|x: u64| after.contains(x)
                        implies (before.contains(x) && x != id) by {
                        let j = choose|j: int| 0 <= j < after.len() && after[j] == x;
                        if j == ki {
                            assert(before[before.len() - 1] == x);
                        } else {
                            assert(before[j] == x);
                        }
                    }
                    assert forall|x: u64| before.contains(x) && x != id
                        implies after.contains(x) by {
                        let j = choose|j: int| 0 <= j < before.len() && before[j] == x;
                        if j == before.len() - 1 {
                            assert(after[ki] == x);
                        } else {
                            assert(after[j] == x);
                        }
                    }
                    assert forall|i1: int, j1: int| 0 <= i1 < j1 < after.len()
                        implies after[i1] != after[j1] by {
                        if i1 == ki {
                            assert(after[i1] == before[before.len() - 1]);
                            assert(after[j1] == before[j1]);
                        } else if j1 == ki {
                            assert(after[j1] == before[before.len() - 1]);
                            assert(after[i1] == before[i1]);
                        } else {
                            assert(after[i1] == before[i1]);
                            assert(after[j1] == before[j1]);
                        }
                    }
                }
            },
            None => {},
        }
        store.del_task_by_id(self.guild_id, id);
    }
}

/// How long the scheduler backs off after a store error.
pub const STORE_ERROR_BACKOFF_MS: i64 = 10_000;

/// A store error is never propagated out of the scheduler: whatever query
/// failed, the loop simply waits ten seconds and tries again.  A durable
/// store's driver maps its failures through this decision.
pub fn wait_after_store_error(now_ms: i64) -> (r: NextAction)
    requires
        now_ms <= i64::MAX - STORE_ERROR_BACKOFF_MS,
    ensures
        r matches NextAction::Wait(t) && t == now_ms + STORE_ERROR_BACKOFF_MS,
{
    NextAction::Wait(now_ms + STORE_ERROR_BACKOFF_MS)
}

/// Namespace gating: when no started script declares namespace `n`, no task
/// of namespace `n` appears in what `next_action` hands out for delivery.
pub proof fn lemma_namespace_gating(
    store: Seq<ScheduledTask>,
    tenant: u64,
    now_ms: i64,
    exclude: Seq<u64>,
    namespaces: Seq<String>,
    n: Seq<char>,
)
    requires
        !has_name(namespaces, n),
    ensures
        forall|k: int|
            0 <= k < store.filter(due_filter(tenant, now_ms, exclude, namespaces)).len()
                ==> (#[trigger] store.filter(due_filter(tenant, now_ms, exclude, namespaces))[k]).namespace@ != n,
{
    let pred = due_filter(tenant, now_ms, exclude, namespaces);
    assert forall|k: int| 0 <= k < store.filter(pred).len()
        implies (#[trigger] store.filter(pred)[k]).namespace@ != n by {
        store.lemma_filter_pred(pred, k);
    }
}

/// No double fire: while an id sits in the in-flight set, what `next_action`
/// hands out for delivery never carries that id again.
pub proof fn lemma_no_double_fire(
    store: Seq<ScheduledTask>,
    tenant: u64,
    now_ms: i64,
    pending: Seq<u64>,
    namespaces: Seq<String>,
    id: u64,
)
    requires
        pending.contains(id),
    ensures
        forall|k: int|
            0 <= k < store.filter(due_filter(tenant, now_ms, pending, namespaces)).len()
                ==> (#[trigger] store.filter(due_filter(tenant, now_ms, pending, namespaces))[k]).id != id,
{
    let pred = due_filter(tenant, now_ms, pending, namespaces);
    assert forall|k: int| 0 <= k < store.filter(pred).len()
        implies (#[trigger] store.filter(pred)[k]).id != id by {
        store.lemma_filter_pred(pred, k);
    }
}

/// At least once, one step of it: a stored task that is due, eligible and not
/// in flight is in what `next_action` hands out for delivery on this very
/// call.  Repeated calls (and the pending reset after a restart) extend this
/// to eventual delivery.
pub proof fn lemma_due_task_delivered(
    store: Seq<ScheduledTask>,
    t: ScheduledTask,
    tenant: u64,
    now_ms: i64,
    exclude: Seq<u64>,
    namespaces: Seq<String>,
)
    requires
        store.contains(t),
        task_eligible(t, tenant, exclude, namespaces),
        t.fire_at_ms <= now_ms,
    ensures
        store.filter(due_filter(tenant, now_ms, exclude, namespaces)).contains(t),
{
    let pred = due_filter(tenant, now_ms, exclude, namespaces);
    let i = choose|i: int| 0 <= i < store.len() && store[i] == t;
    store.lemma_filter_contains(pred, i);
}

} // verus!
