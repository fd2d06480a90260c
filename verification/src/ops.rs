//! The task operations a script can invoke: scheduling with plan limits,
//! deletion, lookup and paginated listing.  Payloads arrive from the engine
//! as JSON values; the store keeps them as their serialized text.

use vstd::prelude::*;
use crate::runtime::RuntimeEvent;
use crate::timers::{
    ScheduledTask, StoreError, TimerStore, del_id_keep, del_key_keep, del_scope_keep,
    opt_name_view, page_pred, task_keyed, tenant_pred, upsert_hit,
};

verus! {

/// Why a task operation was refused; each limit error carries the plan limit
/// that was exceeded.
#[derive(Clone, Copy, Debug, PartialEq, Eq, Structural)]
pub enum TaskOpError {
    DataTooLarge(u64),
    TooManyTasks(u64),
    Store(StoreError),
}

/// The serialized payload's size in bytes.
pub open spec fn json_byte_len(s: Seq<char>) -> nat {
    vstd::utf8::encode_utf8(s).len()
}

/// Page size of task listings.
pub const TASKS_PAGE_SIZE: usize = 25;

/// Split epoch milliseconds into whole seconds and the millisecond remainder.
pub fn ms_to_parts(ms: u64) -> (r: (u64, u32))
    ensures
        r.0 == ms as int / 1000,
        r.1 == ms as int % 1000,
        r.0 * 1000 + r.1 == ms,
{
    let s = ms / 1000;
    let m = (ms % 1000) as u32;
    proof {
        vstd::arithmetic::div_mod::lemma_fundamental_div_mod(ms as int, 1000);
    }
    (s, m)
}

/// The store change a successful scheduling performs: the row in the task's
/// upsert slot is overwritten keeping its id, or a fresh row is appended
/// under the next id.
pub open spec fn created(
    pre: Seq<ScheduledTask>,
    pre_cursor: u64,
    post: Seq<ScheduledTask>,
    post_cursor: u64,
    t: ScheduledTask,
) -> bool {
    if upsert_hit(pre, t.tenant, t.namespace@, t.unique_key) {
        &&& exists|i: int|
            0 <= i < pre.len() && task_keyed(
                #[trigger] pre[i],
                t.tenant,
                t.namespace@,
                (t.unique_key->Some_0)@,
            ) && t.id == pre[i].id && post == pre.update(i, t)
        &&& post_cursor == pre_cursor
    } else {
        &&& t.id == pre_cursor
        &&& post == pre.push(t)
        &&& post_cursor == pre_cursor + 1
    }
}

/// Upsert by key: two creations naming the same `(tenant, namespace, key)`
/// slot leave exactly one row in that slot; the row keeps its original id and
/// carries the second call's payload and fire time.
pub proof fn lemma_upsert_by_key(
    s0: Seq<ScheduledTask>,
    c0: u64,
    s1: Seq<ScheduledTask>,
    c1: u64,
    s2: Seq<ScheduledTask>,
    c2: u64,
    t1: ScheduledTask,
    t2: ScheduledTask,
    tenant: u64,
    namespace: Seq<char>,
    key: Seq<char>,
)
    requires
        crate::timers::keys_unique(s0),
        created(s0, c0, s1, c1, t1),
        created(s1, c1, s2, c2, t2),
        task_keyed(t1, tenant, namespace, key),
        task_keyed(t2, tenant, namespace, key),
    ensures
        exists|i: int| 0 <= i < s2.len() && task_keyed(#[trigger] s2[i], tenant, namespace, key)
            && s2[i] == t2,
        forall|i: int, j: int|
            0 <= i < s2.len() && 0 <= j < s2.len() && task_keyed(#[trigger] s2[i], tenant, namespace, key)
                && task_keyed(#[trigger] s2[j], tenant, namespace, key) ==> i == j,
        t2.id == t1.id,
{
    let k1v = (t1.unique_key->Some_0)@;
    assert(k1v == key);
    // where the first creation left `t1`, and that `s1` keeps slot uniqueness
    let p1: int = if upsert_hit(s0, t1.tenant, t1.namespace@, t1.unique_key) {
        choose|i: int|
            0 <= i < s0.len() && task_keyed(#[trigger] s0[i], t1.tenant, t1.namespace@, k1v)
                && t1.id == s0[i].id && s1 == s0.update(i, t1)
    } else {
        s0.len() as int
    };
    assert(0 <= p1 < s1.len() && s1[p1] == t1);
    assert forall|i: int|
        0 <= i < s1.len() && i != p1 implies !task_keyed(#[trigger] s1[i], tenant, namespace, key) by {
        if upsert_hit(s0, t1.tenant, t1.namespace@, t1.unique_key) {
            assert(s1[i] == s0[i]);
            assert(!crate::timers::same_slot(s0[p1], s0[i]));
        } else {
            assert(s1[i] == s0[i]);
        }
    }
    // the second creation necessarily hits that slot
    assert(task_keyed(s1[p1], t2.tenant, t2.namespace@, (t2.unique_key->Some_0)@));
    assert(upsert_hit(s1, t2.tenant, t2.namespace@, t2.unique_key));
    let p2 = choose|i: int|
        0 <= i < s1.len() && task_keyed(
            #[trigger] s1[i],
            t2.tenant,
            t2.namespace@,
            (t2.unique_key->Some_0)@,
        ) && t2.id == s1[i].id && s2 == s1.update(i, t2);
    assert(p2 == p1);
    assert(s2[p1] == t2);
    assert(t2.id == t1.id);
    assert forall|i: int, j: int|
        0 <= i < s2.len() && 0 <= j < s2.len() && task_keyed(#[trigger] s2[i], tenant, namespace, key)
            && task_keyed(#[trigger] s2[j], tenant, namespace, key) implies i == j by {
        if i != p1 {
            assert(s2[i] == s1[i]);
        }
        if j != p1 {
            assert(s2[j] == s1[j]);
        }
    }
}

/// Schedule a task whose payload is already serialized.  The payload must fit
/// the plan's byte limit and the tenant's task count must not already exceed
/// the plan's count limit; on success the store is upserted and a
/// `NewTaskScheduled` event is emitted.
pub fn schedule_task_serialized(
    store: &mut TimerStore,
    tenant: u64,
    namespace: String,
    unique_key: Option<String>,
    data_json: String,
    execute_at_ms: i64,
    data_limit: u64,
    count_limit: u64,
    events: &mut Vec<RuntimeEvent>,
) -> (r: Result<ScheduledTask, TaskOpError>)
    requires
        old(store).wf(),
    ensures
        final(store).wf(),
        r == Result::<ScheduledTask, TaskOpError>::Err(TaskOpError::DataTooLarge(data_limit))
            <==> json_byte_len(data_json@) > data_limit,
        r == Result::<ScheduledTask, TaskOpError>::Err(TaskOpError::TooManyTasks(count_limit))
            <==> (json_byte_len(data_json@) <= data_limit && old(store)@.filter(tenant_pred(tenant)).len()
            > count_limit),
        r == Result::<ScheduledTask, TaskOpError>::Err(TaskOpError::Store(StoreError::IdSpaceExhausted))
            <==> (json_byte_len(data_json@) <= data_limit && old(store)@.filter(tenant_pred(tenant)).len()
            <= count_limit && !upsert_hit(old(store)@, tenant, namespace@, unique_key) && old(
            store,
        ).id_cursor() == u64::MAX),
        r is Err ==> (json_byte_len(data_json@) > data_limit || old(store)@.filter(
            tenant_pred(tenant),
        ).len() > count_limit || (!upsert_hit(old(store)@, tenant, namespace@, unique_key) && old(
            store,
        ).id_cursor() == u64::MAX)),
        match r {
            Ok(t) => {
                &&& t.tenant == tenant
                &&& t.namespace == namespace
                &&& t.unique_key == unique_key
                &&& t.data == data_json
                &&& t.fire_at_ms == execute_at_ms
                &&& created(
                    old(store)@,
                    old(store).id_cursor(),
                    final(store)@,
                    final(store).id_cursor(),
                    t,
                )
                &&& final(events)@ == old(events)@.push(RuntimeEvent::NewTaskScheduled)
            },
            Err(_) => {
                &&& *final(store) == *old(store)
                &&& final(events)@ == old(events)@
            },
        },
{
    let byte_len = data_json.as_str().as_bytes().len();
    if byte_len as u64 > data_limit {
        return Err(TaskOpError::DataTooLarge(data_limit));
    }
    let current = store.get_task_count(tenant);
    if current > count_limit {
        return Err(TaskOpError::TooManyTasks(count_limit));
    }
    match store.create_task(tenant, namespace, unique_key, data_json, execute_at_ms) {
        Ok(t) => {
            events.push(RuntimeEvent::NewTaskScheduled);
            Ok(t)
        },
        Err(e) => Err(TaskOpError::Store(e)),
    }
}

/// An opaque JSON value of the embedding runtime.
#[verifier::external_type_specification]
#[verifier::external_body]
pub struct ExJsonValue(serde_json::Value);

/// Relies on serde_json::to_string: serializing a `Value` yields its compact
/// JSON text.  For a `Value` it cannot fail — serialization only fails for
/// maps with non-string keys, and a `Value`'s maps are keyed by strings — so
/// the error arm is dead.
#[verifier::external_body]
fn json_value_text(v: &serde_json::Value) -> (r: String)
{
    match serde_json::to_string(v) {
        Ok(s) => s,
        Err(_) => String::new(),
    }
}

/// Schedule a task whose payload arrives as a JSON value.  The payload is
/// serialized by the embedding runtime's JSON library and then checked and
/// stored exactly as in [`schedule_task_serialized`]; since nothing here
/// constrains that text, the contract states what holds whatever it came to.
pub fn schedule_task(
    store: &mut TimerStore,
    tenant: u64,
    namespace: String,
    unique_key: Option<String>,
    data: &serde_json::Value,
    execute_at_ms: i64,
    data_limit: u64,
    count_limit: u64,
    events: &mut Vec<RuntimeEvent>,
) -> (r: Result<ScheduledTask, TaskOpError>)
    requires
        old(store).wf(),
    ensures
        final(store).wf(),
        old(store)@.filter(tenant_pred(tenant)).len() > count_limit ==> r is Err,
        r == Result::<ScheduledTask, TaskOpError>::Err(TaskOpError::TooManyTasks(count_limit))
            ==> old(store)@.filter(tenant_pred(tenant)).len() > count_limit,
        r matches Err(e) ==> (e matches TaskOpError::Store(se) ==> se
            == StoreError::IdSpaceExhausted && !upsert_hit(
            old(store)@,
            tenant,
            namespace@,
            unique_key,
        ) && old(store).id_cursor() == u64::MAX),
        match r {
            Ok(t) => {
                &&& t.tenant == tenant
                &&& t.namespace == namespace
                &&& t.unique_key == unique_key
                &&& json_byte_len(t.data@) <= data_limit
                &&& t.fire_at_ms == execute_at_ms
                &&& old(store)@.filter(tenant_pred(tenant)).len() <= count_limit
                &&& created(
                    old(store)@,
                    old(store).id_cursor(),
                    final(store)@,
                    final(store).id_cursor(),
                    t,
                )
                &&& final(events)@ == old(events)@.push(RuntimeEvent::NewTaskScheduled)
            },
            Err(_) => {
                &&& *final(store) == *old(store)
                &&& final(events)@ == old(events)@
            },
        },
{
    let text = json_value_text(data);
    schedule_task_serialized(
        store,
        tenant,
        namespace,
        unique_key,
        text,
        execute_at_ms,
        data_limit,
        count_limit,
        events,
    )
}

/// Delete one task by id; reports whether a row went.
pub fn del_task(store: &mut TimerStore, tenant: u64, task_id: u64) -> (r: bool)
    requires
        old(store).wf(),
    ensures
        final(store).wf(),
        final(store)@ == old(store)@.filter(del_id_keep(tenant, task_id)),
        r == (final(store)@.len() != old(store)@.len()),
{
    let removed = store.del_task_by_id(tenant, task_id);
    removed > 0
}

/// Delete the task in one upsert slot; reports whether a row went.
pub fn del_task_by_key(store: &mut TimerStore, tenant: u64, name: &String, key: &String) -> (r: bool)
    requires
        old(store).wf(),
    ensures
        final(store).wf(),
        final(store)@ == old(store)@.filter(del_key_keep(tenant, name@, key@)),
        r == (final(store)@.len() != old(store)@.len()),
{
    let removed = store.del_task_by_key(tenant, name, key);
    removed > 0
}

/// Delete all of the tenant's tasks in one namespace; reports how many went.
pub fn del_all_tasks(store: &mut TimerStore, tenant: u64, name: &String) -> (r: u64)
    requires
        old(store).wf(),
    ensures
        final(store).wf(),
        final(store)@ == old(store)@.filter(
            del_scope_keep(tenant, opt_name_view(Some(name))),
        ),
        r == old(store)@.len() - final(store)@.len(),
{
    store.del_all_tasks(tenant, Some(name))
}

/// Look one task up by id.
pub fn get_task(store: &TimerStore, tenant: u64, id: u64) -> (r: Option<ScheduledTask>)
    ensures
        r matches Some(t) ==> t.tenant == tenant && t.id == id && store@.contains(t),
        r is None ==> forall|i: int|
            0 <= i < store@.len() ==> !((#[trigger] store@[i]).tenant == tenant && store@[i].id
                == id),
{
    store.get_task_by_id(tenant, id)
}

/// Look one task up by its upsert slot.
pub fn get_task_by_key(store: &TimerStore, tenant: u64, name: &String, key: &String) -> (r: Option<ScheduledTask>)
    ensures
        r matches Some(t) ==> task_keyed(t, tenant, name@, key@) && store@.contains(t),
        r is None ==> forall|i: int|
            0 <= i < store@.len() ==> !task_keyed(#[trigger] store@[i], tenant, name@, key@),
{
    store.get_task_by_key(tenant, name, key)
}

/// One page of the tenant's tasks after `after_id`, at most
/// [`TASKS_PAGE_SIZE`] long, in ascending id order.
pub fn get_all_tasks(store: &TimerStore, tenant: u64, name: Option<&String>, after_id: u64) -> (r: Vec<ScheduledTask>)
    ensures
        exists|i: int|
            0 <= i <= store@.len() && r@ == store@.subrange(0, i).filter(
                page_pred(tenant, opt_name_view(name), after_id),
            ) && (r@.len() == TASKS_PAGE_SIZE || i == store@.len()),
        r@.len() <= TASKS_PAGE_SIZE,
        crate::timers::ids_sorted(store@) ==> crate::timers::ids_sorted(r@),
{
    store.get_tasks(tenant, name, after_id, TASKS_PAGE_SIZE)
}

} // verus!
