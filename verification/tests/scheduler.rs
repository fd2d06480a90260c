use botloader::ops::{
    del_all_tasks, del_task, del_task_by_key, get_all_tasks, get_task, get_task_by_key,
    schedule_task_serialized, TaskOpError,
};
use botloader::runtime::{RuntimeEvent, ScriptMeta};
use botloader::task_manager::{wait_after_store_error, Manager, NextAction};
use botloader::timers::TimerStore;

fn meta(task_names: Vec<String>) -> ScriptMeta {
    ScriptMeta {
        script_id: 1,
        commands: Vec::new(),
        command_groups: Vec::new(),
        task_names,
        interval_timers: Vec::new(),
    }
}

#[test]
fn schedule_then_fire() {
    let mut store = TimerStore::new();
    let mut mgr = Manager::new(7);
    let now = 1_000_000i64;
    let t = store
        .create_task(7, "x".to_string(), None, "{\"n\":1}".to_string(), now + 1000)
        .unwrap();
    mgr.script_started(&meta(vec!["x".to_string()]));

    match mgr.next_action(&store, now) {
        NextAction::Wait(until) => assert_eq!(until, now + 1000),
        _ => panic!("expected a wait until the stored fire time"),
    }

    let fired = match mgr.next_action(&store, now + 1500) {
        NextAction::Run(tasks) => tasks,
        _ => panic!("expected the due task to run"),
    };
    assert_eq!(fired.len(), 1);
    assert_eq!(fired[0].id, t.id);
    assert_eq!(fired[0].namespace, "x");
    assert_eq!(fired[0].data, "{\"n\":1}");

    // while the task is in flight it is not handed out again
    match mgr.next_action(&store, now + 2000) {
        NextAction::Idle => {}
        _ => panic!("expected idle while the task is pending"),
    }

    mgr.ack_triggered_task(&mut store, t.id);
    assert_eq!(store.get_task_count(7), 0);
}

#[test]
fn key_upsert_single_delivery() {
    let mut store = TimerStore::new();
    let mut mgr = Manager::new(7);
    let now = 5_000_000i64;
    let first = store
        .create_task(
            7,
            "x".to_string(),
            Some("k".to_string()),
            "{\"v\":1}".to_string(),
            now + 10_000,
        )
        .unwrap();
    let second = store
        .create_task(
            7,
            "x".to_string(),
            Some("k".to_string()),
            "{\"v\":2}".to_string(),
            now + 1000,
        )
        .unwrap();
    assert_eq!(first.id, second.id);
    assert_eq!(store.get_task_count(7), 1);

    mgr.script_started(&meta(vec!["x".to_string()]));
    let fired = match mgr.next_action(&store, now + 1100) {
        NextAction::Run(tasks) => tasks,
        _ => panic!("expected the upserted task to run at the second fire time"),
    };
    assert_eq!(fired.len(), 1);
    assert_eq!(fired[0].data, "{\"v\":2}");
    assert_eq!(fired[0].fire_at_ms, now + 1000);
}

#[test]
fn unknown_namespace_left_dormant() {
    let mut store = TimerStore::new();
    let mut mgr = Manager::new(7);
    let now = 9_000_000i64;
    store
        .create_task(7, "z".to_string(), None, "{}".to_string(), now - 1000)
        .unwrap();

    match mgr.next_action(&store, now) {
        NextAction::Idle => {}
        NextAction::Wait(_) => {}
        NextAction::Run(_) => panic!("a task of an undeclared namespace must not be delivered"),
    }
    assert_eq!(store.get_task_count(7), 1);
}

#[test]
fn restart_drops_pending_then_redelivers() {
    let mut store = TimerStore::new();
    let mut mgr = Manager::new(7);
    let now = 2_000_000i64;
    let t = store
        .create_task(7, "x".to_string(), None, "{}".to_string(), now - 500)
        .unwrap();
    mgr.script_started(&meta(vec!["x".to_string()]));
    let fired = match mgr.next_action(&store, now) {
        NextAction::Run(tasks) => tasks,
        _ => panic!("expected the due task to run"),
    };
    assert_eq!(fired.len(), 1);

    // the VM restarts: the in-flight set and the namespaces are both cleared
    mgr.clear_pending();
    mgr.clear_task_names();
    match mgr.next_action(&store, now + 100) {
        NextAction::Run(_) => panic!("no namespace is declared after the restart"),
        _ => {}
    }

    // once the script re-announces, the same task is delivered again
    mgr.script_started(&meta(vec!["x".to_string()]));
    let refired = match mgr.next_action(&store, now + 200) {
        NextAction::Run(tasks) => tasks,
        _ => panic!("expected redelivery after the namespace returned"),
    };
    assert_eq!(refired.len(), 1);
    assert_eq!(refired[0].id, t.id);
}

#[test]
fn pending_suppression_is_per_id() {
    let mut store = TimerStore::new();
    let mut mgr = Manager::new(7);
    let now = 3_000_000i64;
    let a = store
        .create_task(7, "x".to_string(), None, "{}".to_string(), now - 100)
        .unwrap();
    mgr.script_started(&meta(vec!["x".to_string()]));
    let first = match mgr.next_action(&store, now) {
        NextAction::Run(tasks) => tasks,
        _ => panic!("expected the first task to run"),
    };
    assert_eq!(first.len(), 1);

    // a later task becomes due while the first is still in flight
    let b = store
        .create_task(7, "x".to_string(), None, "{}".to_string(), now + 50)
        .unwrap();
    mgr.clear_next();
    let second = match mgr.next_action(&store, now + 100) {
        NextAction::Run(tasks) => tasks,
        _ => panic!("expected the second task to run"),
    };
    assert_eq!(second.len(), 1);
    assert_eq!(second[0].id, b.id);
    assert!(second.iter().all(|t| t.id != a.id));
}

#[test]
fn namespace_union_deduplicates() {
    let mut mgr = Manager::new(7);
    mgr.script_started(&meta(vec!["x".to_string(), "y".to_string()]));
    mgr.script_started(&meta(vec!["y".to_string(), "z".to_string()]));
    let store = TimerStore::new();
    // no tasks at all: the cursor settles on idle whatever was declared
    match mgr.next_action(&store, 0) {
        NextAction::Idle => {}
        _ => panic!("expected idle on an empty store"),
    }
}

#[test]
fn tenants_are_isolated() {
    let mut store = TimerStore::new();
    store
        .create_task(7, "x".to_string(), None, "{}".to_string(), 0)
        .unwrap();
    store
        .create_task(8, "x".to_string(), None, "{}".to_string(), 0)
        .unwrap();
    let mut mgr = Manager::new(8);
    mgr.script_started(&meta(vec!["x".to_string()]));
    let fired = match mgr.next_action(&store, 100) {
        NextAction::Run(tasks) => tasks,
        _ => panic!("expected the other tenant's task to run"),
    };
    assert_eq!(fired.len(), 1);
    assert_eq!(fired[0].tenant, 8);
}

#[test]
fn delete_by_id_and_by_key() {
    let mut store = TimerStore::new();
    let a = store
        .create_task(7, "x".to_string(), None, "{}".to_string(), 10)
        .unwrap();
    store
        .create_task(7, "x".to_string(), Some("k".to_string()), "{}".to_string(), 20)
        .unwrap();

    assert!(del_task(&mut store, 7, a.id));
    assert!(!del_task(&mut store, 7, a.id));
    assert!(del_task_by_key(&mut store, 7, &"x".to_string(), &"k".to_string()));
    assert!(!del_task_by_key(&mut store, 7, &"x".to_string(), &"k".to_string()));
    assert_eq!(store.get_task_count(7), 0);
}

#[test]
fn delete_all_in_namespace() {
    let mut store = TimerStore::new();
    for i in 0..3i64 {
        store
            .create_task(7, "x".to_string(), None, "{}".to_string(), i)
            .unwrap();
    }
    store
        .create_task(7, "y".to_string(), None, "{}".to_string(), 0)
        .unwrap();
    assert_eq!(del_all_tasks(&mut store, 7, &"x".to_string()), 3);
    assert_eq!(store.get_task_count(7), 1);
}

#[test]
fn lookup_by_id_and_key() {
    let mut store = TimerStore::new();
    let a = store
        .create_task(7, "x".to_string(), Some("k".to_string()), "{\"a\":1}".to_string(), 10)
        .unwrap();
    let by_id = get_task(&store, 7, a.id).expect("task by id");
    assert_eq!(by_id.data, "{\"a\":1}");
    let by_key = get_task_by_key(&store, 7, &"x".to_string(), &"k".to_string()).expect("task by key");
    assert_eq!(by_key.id, a.id);
    assert!(get_task(&store, 7, a.id + 1).is_none());
    assert!(get_task_by_key(&store, 7, &"x".to_string(), &"nope".to_string()).is_none());
}

#[test]
fn listing_pages_by_25() {
    let mut store = TimerStore::new();
    for i in 0..30i64 {
        store
            .create_task(7, "x".to_string(), None, "{}".to_string(), i)
            .unwrap();
    }
    let page = get_all_tasks(&store, 7, None, 0);
    assert_eq!(page.len(), 25);
    let last_id = page[24].id;
    for w in page.windows(2) {
        assert!(w[0].id < w[1].id);
    }
    let rest = get_all_tasks(&store, 7, None, last_id);
    assert_eq!(rest.len(), 5);
}

#[test]
fn store_errors_degrade_to_backoff() {
    match wait_after_store_error(1_000_000) {
        NextAction::Wait(t) => assert_eq!(t, 1_010_000),
        _ => panic!("a store error must turn into a bounded wait"),
    }
}

#[test]
fn schedule_respects_data_limit() {
    let mut store = TimerStore::new();
    let mut events: Vec<RuntimeEvent> = Vec::new();
    let r = schedule_task_serialized(
        &mut store,
        7,
        "x".to_string(),
        None,
        "{\"n\":12345}".to_string(),
        1000,
        4,
        100,
        &mut events,
    );
    match r {
        Err(TaskOpError::DataTooLarge(limit)) => assert_eq!(limit, 4),
        _ => panic!("expected the payload to be over the plan limit"),
    }
    assert_eq!(store.get_task_count(7), 0);
    assert!(events.is_empty());
}

#[test]
fn schedule_respects_count_limit() {
    let mut store = TimerStore::new();
    let mut events: Vec<RuntimeEvent> = Vec::new();
    // with a limit of zero the first creation still goes through ...
    schedule_task_serialized(
        &mut store,
        7,
        "x".to_string(),
        None,
        "{}".to_string(),
        1000,
        100,
        0,
        &mut events,
    )
    .expect("first creation fits");
    assert!(matches!(events.last(), Some(RuntimeEvent::NewTaskScheduled)));
    // ... and the next one is refused, since a task is now present
    let r = schedule_task_serialized(
        &mut store,
        7,
        "x".to_string(),
        None,
        "{}".to_string(),
        2000,
        100,
        0,
        &mut events,
    );
    match r {
        Err(TaskOpError::TooManyTasks(limit)) => assert_eq!(limit, 0),
        _ => panic!("expected the count limit to refuse the second task"),
    }
    assert_eq!(events.len(), 1);
}
