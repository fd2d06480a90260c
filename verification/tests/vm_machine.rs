use botloader::runtime::ScriptMeta;
use botloader::script_store::{CompiledItem, Script, ScriptContributes};
use botloader::task_manager::{Manager, NextAction};
use botloader::timers::TimerStore;
use botloader::vm::{
    complete_module_eval_poll, on_near_heap_limit, should_invoke_dispatch, tick_outcome,
    DispatchTarget, EnginePoll, EvalPoll, LogLevel, OneshotPoll, RtId, ShutdownReason, TickPoll,
    TickResult, Vm, VmCommand, VmContext, VmEvent, VmRole, VmShutdownHandle,
    run_until_completion_poll,
};

fn script(id: u64, name: &str, source: &str) -> Script {
    Script {
        id,
        name: name.to_string(),
        original_source: source.to_string(),
        enabled: true,
        plugin_id: None,
        plugin_auto_update: None,
        contributes: ScriptContributes {
            commands: Vec::new(),
            interval_timers: Vec::new(),
        },
    }
}

fn compiled(js: &str) -> CompiledItem {
    CompiledItem {
        output: js.to_string(),
        source_map_raw: "{}".to_string(),
    }
}

fn ctx() -> VmContext {
    VmContext { guild_id: 7, role: VmRole::Main }
}

#[test]
fn compile_failure_survives() {
    let mut vm = Vm::new(ctx());
    let mut logs = Vec::new();
    let r = vm.compile_script(
        script(1, "badscript", "let x: ="),
        Err("unexpected token".to_string()),
        &mut logs,
    );
    assert!(r.is_none());
    assert_eq!(logs.len(), 1);
    assert_eq!(logs[0].guild_id, 7);
    assert_eq!(logs[0].level, LogLevel::Error);
    assert_eq!(
        logs[0].message,
        "Script compilation failed for badscript.ts: unexpected token"
    );

    // the VM keeps going: a later, valid script loads normally
    let r2 = vm.compile_script(script(2, "good", "let a = 1;"), Ok(compiled("let a = 1;\n")), &mut logs);
    assert_eq!(r2, Some(2));
    let url = vm.begin_run_script(2).expect("module url for the fresh script");
    assert_eq!(url, "file:///guild_scripts/good.js");
    vm.finish_run_script(2, Ok(()), &mut logs);
    assert_eq!(logs.len(), 1);
    // a second load attempt of the same script is skipped
    assert!(vm.begin_run_script(2).is_none());
}

#[test]
fn eval_error_marks_failed() {
    let mut vm = Vm::new(ctx());
    let mut logs = Vec::new();
    vm.compile_script(script(3, "crashy", "boom()"), Ok(compiled("boom();\n")), &mut logs);
    let url = vm.begin_run_script(3).expect("module url");
    assert_eq!(url, "file:///guild_scripts/crashy.js");
    vm.finish_run_script(3, Err("boom is not defined".to_string()), &mut logs);
    assert_eq!(logs.len(), 1);
    assert_eq!(logs[0].message, "Script error occurred: boom is not defined");
    // failed scripts are not loaded again
    assert!(vm.begin_run_script(3).is_none());
}

#[test]
fn oom_respawn() {
    // the near-heap-limit callback forces an out-of-memory shutdown
    let mut handle = VmShutdownHandle::new();
    handle.register_isolate_handle();
    let (new_limit, signal) = on_near_heap_limit(&mut handle, 512 * 1024, 512 * 1024);
    assert_eq!(new_limit, 1024 * 1024);
    // the callback asks the caller to preempt the engine's execution
    assert!(signal.terminate_execution);
    assert!(signal.wakeup);
    assert!(handle.check_terminated());

    // the loop observes the flag and reports the reason
    let vm = Vm::new(ctx());
    let mut events = Vec::new();
    let drain = vm.exit_events(&handle, &mut events);
    assert!(!drain);
    assert_eq!(events.last(), Some(&(7, VmRole::Main, VmEvent::Shutdown(ShutdownReason::OutOfMemory))));

    // the supervisor respawns: fresh handle, cleared cursor, and pre-existing
    // tasks resume once the script announces its namespaces again
    let fresh = VmShutdownHandle::new();
    assert!(!fresh.check_terminated());
    let mut store = TimerStore::new();
    store
        .create_task(7, "x".to_string(), None, "{}".to_string(), 0)
        .unwrap();
    let mut mgr = Manager::new(7);
    mgr.clear_pending();
    mgr.clear_task_names();
    mgr.script_started(&ScriptMeta {
        script_id: 1,
        commands: Vec::new(),
        command_groups: Vec::new(),
        task_names: vec!["x".to_string()],
        interval_timers: Vec::new(),
    });
    match mgr.next_action(&store, 100) {
        NextAction::Run(tasks) => assert_eq!(tasks.len(), 1),
        _ => panic!("expected the old task to resume after the respawn"),
    }
}

#[test]
fn shutdown_reason_reporting() {
    // a request before the interpreter exists is void: the reason stays unset
    let mut early = VmShutdownHandle::new();
    let sig = early.shutdown_vm(ShutdownReason::ThreadTermination, false);
    assert!(sig.wakeup);
    assert!(!sig.terminate_execution);
    assert!(!early.check_terminated());
    assert_eq!(early.exit_reason(), ShutdownReason::Unknown);

    // with the interpreter registered the reason is recorded and reported
    let mut live = VmShutdownHandle::new();
    live.register_isolate_handle();
    let sig = live.shutdown_vm(ShutdownReason::ThreadTermination, false);
    assert!(sig.wakeup);
    assert!(!sig.terminate_execution);
    assert!(live.check_terminated());
    assert_eq!(live.exit_reason(), ShutdownReason::ThreadTermination);

    let vm = Vm::new(ctx());
    let mut events = Vec::new();
    let drain = vm.exit_events(&live, &mut events);
    assert!(drain);
    assert_eq!(
        events[0],
        (7, VmRole::Main, VmEvent::Shutdown(ShutdownReason::ThreadTermination))
    );
}

#[test]
fn forced_termination_preempts() {
    let mut handle = VmShutdownHandle::new();
    handle.register_isolate_handle();
    let sig = handle.shutdown_vm(ShutdownReason::OutOfMemory, true);
    assert!(sig.terminate_execution);
    assert!(sig.wakeup);
    assert!(handle.check_terminated());
    let vm = Vm::new(ctx());
    let mut events = Vec::new();
    vm.exit_events(&handle, &mut events);
    assert_eq!(events.len(), 1);
    assert!(matches!(events[0].2, VmEvent::Shutdown(ShutdownReason::OutOfMemory)));
}

#[test]
fn dispatch_acknowledges_in_enqueue_order() {
    let vm = Vm::new(ctx());
    let mut events = Vec::new();
    let first = vm.dispatch_event("MESSAGE_CREATE".to_string(), "{\"id\":1}".to_string(), 11, &mut events);
    // the acknowledgement precedes the handler call the directive stands for
    assert_eq!(events.len(), 1);
    let second = vm.dispatch_event("MESSAGE_DELETE".to_string(), "{\"id\":2}".to_string(), 12, &mut events);
    assert_eq!(
        events,
        vec![
            (7, VmRole::Main, VmEvent::DispatchedEvent(11)),
            (7, VmRole::Main, VmEvent::DispatchedEvent(12)),
        ]
    );
    assert_eq!(first.name, "MESSAGE_CREATE");
    assert_eq!(first.data, "{\"id\":1}");
    assert_eq!(second.name, "MESSAGE_DELETE");
}

#[test]
fn dispatch_target_gating() {
    assert!(should_invoke_dispatch(DispatchTarget::Callable));
    assert!(!should_invoke_dispatch(DispatchTarget::MissingCoreObject));
    assert!(!should_invoke_dispatch(DispatchTarget::CoreNotObject));
    assert!(!should_invoke_dispatch(DispatchTarget::MissingDispatchFn));
    assert!(!should_invoke_dispatch(DispatchTarget::DispatchFnNotFunction));
}

#[test]
fn tick_readiness_ladder() {
    // a wakeup wins over everything
    assert!(matches!(
        tick_outcome(true, Some(None), false, EnginePoll::ReadyErr("x".to_string())),
        TickPoll::Ready(TickResult::Continue)
    ));
    // then the command mailbox
    let cmd = Some(Some(VmCommand::DispatchEvent("E".to_string(), "{}".to_string(), 1)));
    assert!(matches!(
        tick_outcome(false, cmd, false, EnginePoll::Pending),
        TickPoll::Ready(TickResult::Command(Some(VmCommand::DispatchEvent(_, _, 1))))
    ));
    // a closed mailbox still surfaces as a command outcome
    assert!(matches!(
        tick_outcome(false, Some(None), false, EnginePoll::Pending),
        TickPoll::Ready(TickResult::Command(None))
    ));
    // engine readiness is reported only while there is news
    assert!(matches!(
        tick_outcome(false, None, false, EnginePoll::Pending),
        TickPoll::NotReady
    ));
    assert!(matches!(
        tick_outcome(false, None, false, EnginePoll::ReadyOk),
        TickPoll::Ready(TickResult::Completed)
    ));
    // a second consecutive completion stays pending: no hot loop
    assert!(matches!(
        tick_outcome(false, None, true, EnginePoll::ReadyOk),
        TickPoll::NotReady
    ));
    assert!(matches!(
        tick_outcome(false, None, false, EnginePoll::ReadyErr("bad".to_string())),
        TickPoll::Ready(TickResult::VmError(_))
    ));
}

#[test]
fn completed_reported_once() {
    let vm = Vm::new(ctx());
    let mut events = Vec::new();
    let completed = vm.on_completed(&mut events);
    assert!(completed);
    assert_eq!(events, vec![(7, VmRole::Main, VmEvent::VmFinished)]);
}

#[test]
fn update_script_replaces_by_id() {
    let mut vm = Vm::new(ctx());
    let mut logs = Vec::new();
    vm.compile_script(script(1, "one", "a"), Ok(compiled("a;\n")), &mut logs);
    vm.compile_script(script(2, "two", "b"), Ok(compiled("b;\n")), &mut logs);

    let replacement = script(2, "two", "b2");
    let new_set = vm.update_script(replacement).expect("id 2 is present");
    assert_eq!(new_set.len(), 2);
    assert_eq!(new_set[0].id, 1);
    assert_eq!(new_set[0].original_source, "a");
    assert_eq!(new_set[1].id, 2);
    assert_eq!(new_set[1].original_source, "b2");

    // an unknown id changes nothing and asks for no restart
    assert!(vm.update_script(script(9, "nine", "x")).is_none());
}

#[test]
fn unload_scripts_filters_by_id() {
    let mut vm = Vm::new(ctx());
    let mut logs = Vec::new();
    vm.compile_script(script(1, "one", "a"), Ok(compiled("a;\n")), &mut logs);
    vm.compile_script(script(2, "two", "b"), Ok(compiled("b;\n")), &mut logs);
    vm.compile_script(script(3, "three", "c"), Ok(compiled("c;\n")), &mut logs);

    let keep = vm.unload_scripts(&vec![script(2, "two", "b")]);
    assert_eq!(keep.len(), 2);
    assert_eq!(keep[0].id, 1);
    assert_eq!(keep[1].id, 3);
}

#[test]
fn restart_isolates_incarnations() {
    let mut vm = Vm::new(ctx());
    let mut logs = Vec::new();
    vm.compile_script(script(1, "old", "gone()"), Ok(compiled("gone();\n")), &mut logs);
    vm.begin_run_script(1).expect("the old script loads");

    let new_set = vec![script(2, "fresh", "hello()")];
    vm.restart(&new_set, vec![Ok(compiled("hello();\n"))], &mut logs);

    // nothing of the previous incarnation is observable
    assert!(vm.script_store.get_script(1).is_none());
    let fresh = vm.script_store.get_script(2).expect("the new script is stored");
    assert_eq!(fresh.script.name, "fresh");
    // the stored entry carries exactly that script's compile output
    assert_eq!(fresh.compiled.output, "hello();\n");
    // and the new script is loadable from scratch
    assert_eq!(
        vm.begin_run_script(2).expect("fresh module url"),
        "file:///guild_scripts/fresh.js"
    );
}

#[test]
fn restart_skips_failed_compiles() {
    let mut vm = Vm::new(ctx());
    let mut logs = Vec::new();
    let set = vec![script(1, "ok", "a"), script(2, "broken", "b")];
    vm.restart(
        &set,
        vec![Ok(compiled("a;\n")), Err("syntax error".to_string())],
        &mut logs,
    );
    assert!(vm.script_store.get_script(1).is_some());
    assert!(vm.script_store.get_script(2).is_none());
    assert_eq!(logs.len(), 1);
    assert_eq!(logs[0].message, "Script compilation failed for broken.ts: syntax error");
}

#[test]
fn module_eval_polls() {
    assert!(matches!(
        run_until_completion_poll(EnginePoll::Pending),
        EvalPoll::Pending
    ));
    assert!(matches!(
        run_until_completion_poll(EnginePoll::ReadyOk),
        EvalPoll::Ready(Ok(()))
    ));
    assert!(matches!(
        run_until_completion_poll(EnginePoll::ReadyErr("e".to_string())),
        EvalPoll::Ready(Err(_))
    ));

    // a result already on the channel wins
    assert!(matches!(
        complete_module_eval_poll(
            OneshotPoll::Delivered(Err("e".to_string())),
            EnginePoll::Pending,
            OneshotPoll::Waiting
        ),
        EvalPoll::Ready(Err(_))
    ));
    // a closed channel counts as clean completion
    assert!(matches!(
        complete_module_eval_poll(OneshotPoll::Closed, EnginePoll::Pending, OneshotPoll::Waiting),
        EvalPoll::Ready(Ok(()))
    ));
    // otherwise the event loop decides
    assert!(matches!(
        complete_module_eval_poll(OneshotPoll::Waiting, EnginePoll::Pending, OneshotPoll::Waiting),
        EvalPoll::Pending
    ));
    assert!(matches!(
        complete_module_eval_poll(
            OneshotPoll::Waiting,
            EnginePoll::ReadyErr("x".to_string()),
            OneshotPoll::Waiting
        ),
        EvalPoll::Ready(Err(_))
    ));
    // a result that arrived during the drive is picked up
    assert!(matches!(
        complete_module_eval_poll(
            OneshotPoll::Waiting,
            EnginePoll::ReadyOk,
            OneshotPoll::Delivered(Err("late".to_string()))
        ),
        EvalPoll::Ready(Err(_))
    ));
    assert!(matches!(
        complete_module_eval_poll(OneshotPoll::Waiting, EnginePoll::ReadyOk, OneshotPoll::Waiting),
        EvalPoll::Ready(Ok(()))
    ));
}

#[test]
fn vm_error_is_logged_not_fatal() {
    let vm = Vm::new(ctx());
    let mut logs = Vec::new();
    vm.on_vm_error(&"ReferenceError: x".to_string(), &mut logs);
    assert_eq!(logs.len(), 1);
    assert_eq!(logs[0].message, "Script error occurred: ReferenceError: x");
}

#[test]
fn stop_timeout_is_logged() {
    let vm = Vm::new(ctx());
    let mut logs = Vec::new();
    vm.on_stop_timeout(&mut logs);
    assert_eq!(
        logs[0].message,
        "shutting down your vm timed out after 15 sec, cancelling all pending promises and force-shutting down now instead..."
    );
}

#[test]
fn near_heap_limit_grows_once() {
    let mut handle = VmShutdownHandle::new();
    handle.register_isolate_handle();
    // once the limit has already been raised, it is not raised again
    let (kept, signal) = on_near_heap_limit(&mut handle, 1024 * 1024, 512 * 1024);
    assert_eq!(kept, 1024 * 1024);
    assert!(signal.terminate_execution);
}

#[test]
fn rt_id_description() {
    let main = RtId { guild_id: 7, role: VmRole::Main };
    assert_eq!(main.describe(), "Isolate (guild_id: 7, role: Main)");
    let pack = RtId { guild_id: 12345, role: VmRole::Pack(3) };
    assert_eq!(pack.describe(), "Isolate (guild_id: 12345, role: Pack(3))");
}
