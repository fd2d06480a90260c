//! The per-tenant VM state machine: commands in, events out, one script store
//! per incarnation, and the shutdown handle that the outside world uses to
//! stop it.
//!
//! The interpreter itself lives outside; its observable behaviour reaches the
//! machine as values (compiler verdicts, module-evaluation outcomes, event
//! loop polls), and every decision taken on those values is verified.

use vstd::prelude::*;
use crate::script_store::{
    CompiledItem, Script, ScriptLoadState, ScriptView, ScriptsStateStore, scripts_view,
};
use crate::timers::{lemma_filter_empty, lemma_filter_step};

verus! {

/// Why a VM went down.
#[derive(Clone, Copy, Debug, PartialEq, Eq, Structural)]
pub enum ShutdownReason {
    Unknown,
    OutOfMemory,
    ThreadTermination,
}

/// Which VM of the tenant this is.
#[derive(Clone, Copy, Debug, PartialEq, Eq, Structural)]
pub enum VmRole {
    Main,
    Pack(u64),
}

/// Commands the per-tenant handler sends into the VM.  Event payloads travel
/// as serialized JSON text.
pub enum VmCommand {
    DispatchEvent(String, String, u64),
    LoadScript(Script),
    UnloadScripts(Vec<Script>),
    UpdateScript(Script),
    Restart(Vec<Script>),
}

/// Events the VM emits toward the handler.
#[derive(Clone, Copy, Debug, PartialEq, Eq, Structural)]
pub enum VmEvent {
    Shutdown(ShutdownReason),
    DispatchedEvent(u64),
    VmFinished,
}

/// An emitted event, tagged with its tenant and VM role.
pub type GuildVmEvent = (u64, VmRole, VmEvent);

/// Severity of a tenant log line.
#[derive(Clone, Copy, Debug, PartialEq, Eq, Structural)]
pub enum LogLevel {
    Info,
    Error,
    ScriptError,
}

/// One line for the tenant's log.
pub struct LogEntry {
    pub guild_id: u64,
    pub level: LogLevel,
    pub message: String,
    pub context: Option<String>,
}

/// Did this call append exactly one log line with these contents?
pub open spec fn logged(old_l: Seq<LogEntry>, new_l: Seq<LogEntry>, guild_id: u64, level: LogLevel, message: Seq<char>, context: Option<Seq<char>>) -> bool {
    exists|e: LogEntry|
        new_l == old_l.push(e) && e.guild_id == guild_id && e.level == level && e.message@
            == message && (match context {
            Some(c) => e.context matches Some(s) && s@ == c,
            None => e.context is None,
        })
}

/// The identity of one VM.
#[derive(Clone, Copy, Debug, PartialEq, Eq, Structural)]
pub struct VmContext {
    pub guild_id: u64,
    pub role: VmRole,
}

/// The state behind the shutdown handle.  The reason and the registered
/// interpreter handle act as one value: either no shutdown was requested, or
/// a reason is set and the interpreter is to be terminated.
#[derive(Clone, Copy, Debug, PartialEq, Eq, Structural)]
pub struct VmShutdownHandle {
    pub terminated: bool,
    pub has_isolate_handle: bool,
    pub shutdown_reason: Option<ShutdownReason>,
}

/// What one `shutdown_vm` request asks the caller to do: always wake the VM
/// loop up, and preempt the engine when a forced shutdown found a registered
/// interpreter.
#[derive(Clone, Copy, Debug, PartialEq, Eq, Structural)]
pub struct ShutdownSignal {
    pub terminate_execution: bool,
    pub wakeup: bool,
}

/// The transition `shutdown_vm` performs: with an interpreter registered the
/// reason is recorded and the loop is told to terminate; without one the
/// request is void and the reason is cleared.
pub open spec fn shutdown_vm_spec(s: VmShutdownHandle, reason: ShutdownReason) -> VmShutdownHandle {
    if s.has_isolate_handle {
        VmShutdownHandle {
            terminated: true,
            has_isolate_handle: true,
            shutdown_reason: Some(reason),
        }
    } else {
        VmShutdownHandle { shutdown_reason: None, ..s }
    }
}

/// The reason the VM loop reports once it exits.
pub open spec fn exit_reason_spec(s: VmShutdownHandle) -> ShutdownReason {
    match s.shutdown_reason {
        Some(r) => r,
        None => ShutdownReason::Unknown,
    }
}

impl VmShutdownHandle {
    /// Fresh state: no shutdown requested, no interpreter registered.
    pub fn new() -> (r: VmShutdownHandle)
        ensures
            r == (VmShutdownHandle {
                terminated: false,
                has_isolate_handle: false,
                shutdown_reason: None,
            }),
    {
        VmShutdownHandle {
            terminated: false,
            has_isolate_handle: false,
            shutdown_reason: None,
        }
    }

    /// The VM registers its interpreter handle once it is running.
    pub fn register_isolate_handle(&mut self)
        ensures
            *final(self) == (VmShutdownHandle { has_isolate_handle: true, ..*old(self) }),
    {
        self.has_isolate_handle = true;
    }

    /// Request termination.  The returned signal always carries one wakeup;
    /// engine preemption is requested only for a forced shutdown that found a
    /// registered interpreter.
    pub fn shutdown_vm(&mut self, reason: ShutdownReason, force: bool) -> (r: ShutdownSignal)
        ensures
            *final(self) == shutdown_vm_spec(*old(self), reason),
            r.terminate_execution == (old(self).has_isolate_handle && force),
            r.wakeup,
    {
        self.shutdown_reason = Some(reason);
        let terminate_execution = if self.has_isolate_handle {
            self.terminated = true;
            force
        } else {
            self.shutdown_reason = None;
            false
        };
        ShutdownSignal { terminate_execution, wakeup: true }
    }

    /// The flag the VM loop polls between ticks.
    pub fn check_terminated(&self) -> (r: bool)
        ensures
            r == self.terminated,
    {
        self.terminated
    }

    /// The reason to report when the loop exits: the recorded one, or
    /// `Unknown` when none was recorded.
    pub fn exit_reason(&self) -> (r: ShutdownReason)
        ensures
            r == exit_reason_spec(*self),
    {
        match self.shutdown_reason {
            Some(reason) => reason,
            None => ShutdownReason::Unknown,
        }
    }
}

/// The near-heap-limit policy: request a forced out-of-memory shutdown
/// through the handle, and grant the engine one doubling of the initial
/// budget so the termination can be observed before the limit bites again.
/// The returned signal carries the preemption the caller must perform: with
/// an interpreter registered, the engine's execution is to be terminated.
pub fn on_near_heap_limit(state: &mut VmShutdownHandle, current_limit: usize, initial_limit: usize) -> (r: (usize, ShutdownSignal))
    requires
        current_limit + initial_limit <= usize::MAX,
    ensures
        *final(state) == shutdown_vm_spec(*old(state), ShutdownReason::OutOfMemory),
        r.0 == if current_limit != initial_limit {
            current_limit as int
        } else {
            current_limit + initial_limit
        },
        r.1.terminate_execution == old(state).has_isolate_handle,
        r.1.wakeup,
{
    let sig = state.shutdown_vm(ShutdownReason::OutOfMemory, true);
    let expanded = if current_limit != initial_limit {
        current_limit
    } else {
        current_limit + initial_limit
    };
    (expanded, sig)
}

/// What polling the engine's event loop reported.
pub enum EnginePoll {
    Pending,
    ReadyOk,
    ReadyErr(String),
}

/// The outcome of one tick of the VM loop.
pub enum TickResult {
    VmError(String),
    Completed,
    Command(Option<VmCommand>),
    Continue,
}

/// Whether a tick produced an outcome or stays pending.
pub enum TickPoll {
    Ready(TickResult),
    NotReady,
}

/// The readiness ladder of one tick: a wakeup wins, then the command mailbox,
/// then the engine's event loop, whose completion is reported only once —
/// a second consecutive completion stays pending to avoid a hot loop.
pub fn tick_outcome(wakeup_ready: bool, cmd: Option<Option<VmCommand>>, completed: bool, engine: EnginePoll) -> (r: TickPoll)
    ensures
        wakeup_ready ==> r == TickPoll::Ready(TickResult::Continue),
        !wakeup_ready ==> match cmd {
            Some(c) => r == TickPoll::Ready(TickResult::Command(c)),
            None => match engine {
                EnginePoll::Pending => r == TickPoll::NotReady,
                EnginePoll::ReadyOk => r == if completed {
                    TickPoll::NotReady
                } else {
                    TickPoll::Ready(TickResult::Completed)
                },
                EnginePoll::ReadyErr(e) => r == TickPoll::Ready(TickResult::VmError(e)),
            },
        },
{
    if wakeup_ready {
        return TickPoll::Ready(TickResult::Continue);
    }
    match cmd {
        Some(c) => TickPoll::Ready(TickResult::Command(c)),
        None => match engine {
            EnginePoll::Pending => TickPoll::NotReady,
            EnginePoll::ReadyOk => {
                if completed {
                    TickPoll::NotReady
                } else {
                    TickPoll::Ready(TickResult::Completed)
                }
            },
            EnginePoll::ReadyErr(e) => TickPoll::Ready(TickResult::VmError(e)),
        },
    }
}

/// One poll of a oneshot result channel.
pub enum OneshotPoll {
    Waiting,
    Delivered(Result<(), String>),
    Closed,
}

/// Whether driving the module evaluation produced an outcome yet.
pub enum EvalPoll {
    Pending,
    Ready(Result<(), String>),
}

/// One poll while draining the event loop to completion: the engine's
/// readiness carries over directly.
pub fn run_until_completion_poll(engine: EnginePoll) -> (r: EvalPoll)
    ensures
        r == (match engine {
            EnginePoll::Pending => EvalPoll::Pending,
            EnginePoll::ReadyOk => EvalPoll::Ready(Result::<(), String>::Ok(())),
            EnginePoll::ReadyErr(e) => EvalPoll::Ready(Result::<(), String>::Err(e)),
        }),
{
    match engine {
        EnginePoll::Pending => EvalPoll::Pending,
        EnginePoll::ReadyOk => EvalPoll::Ready(Ok(())),
        EnginePoll::ReadyErr(e) => EvalPoll::Ready(Err(e)),
    }
}

/// One poll while completing a module evaluation: a result already on the
/// channel wins; otherwise the event loop is driven, and a result that
/// arrived during that drive is picked up before reporting completion.  A
/// closed channel counts as clean completion.
pub fn complete_module_eval_poll(first: OneshotPoll, engine: EnginePoll, second: OneshotPoll) -> (r: EvalPoll)
    ensures
        first matches OneshotPoll::Delivered(res) ==> r == EvalPoll::Ready(res),
        first is Closed ==> r == EvalPoll::Ready(Result::<(), String>::Ok(())),
        first is Waiting ==> match engine {
            EnginePoll::Pending => r == EvalPoll::Pending,
            EnginePoll::ReadyErr(e) => r == EvalPoll::Ready(Result::<(), String>::Err(e)),
            EnginePoll::ReadyOk => match second {
                OneshotPoll::Delivered(res) => r == EvalPoll::Ready(res),
                OneshotPoll::Closed => r == EvalPoll::Ready(Result::<(), String>::Ok(())),
                OneshotPoll::Waiting => r == EvalPoll::Ready(Result::<(), String>::Ok(())),
            },
        },
{
    match first {
        OneshotPoll::Delivered(res) => EvalPoll::Ready(res),
        OneshotPoll::Closed => EvalPoll::Ready(Ok(())),
        OneshotPoll::Waiting => match engine {
            EnginePoll::Pending => EvalPoll::Pending,
            EnginePoll::ReadyErr(e) => EvalPoll::Ready(Err(e)),
            EnginePoll::ReadyOk => match second {
                OneshotPoll::Delivered(res) => EvalPoll::Ready(res),
                OneshotPoll::Closed => EvalPoll::Ready(Ok(())),
                OneshotPoll::Waiting => EvalPoll::Ready(Ok(())),
            },
        },
    }
}

/// The module URL under which a script's generated module is loaded.
pub open spec fn module_url(name: Seq<char>) -> Seq<char> {
    "file:///guild_scripts/"@ + name + ".js"@
}

/// The log line for a failed compilation.
pub open spec fn compile_fail_message(name: Seq<char>, err: Seq<char>) -> Seq<char> {
    "Script compilation failed for "@ + name + ".ts: "@ + err
}

/// The log line for a script runtime error.
pub open spec fn script_error_message(err: Seq<char>) -> Seq<char> {
    "Script error occurred: "@ + err
}

/// What the engine's global lookup found before an event dispatch.
#[derive(Clone, Copy, Debug, PartialEq, Eq, Structural)]
pub enum DispatchTarget {
    MissingCoreObject,
    CoreNotObject,
    MissingDispatchFn,
    DispatchFnNotFunction,
    Callable,
}

/// A missing or malformed dispatch entry point is logged and skipped, never
/// fatal: the handler is invoked only when the lookup found it callable.
pub fn should_invoke_dispatch(t: DispatchTarget) -> (r: bool)
    ensures
        r == (t is Callable),
{
    match t {
        DispatchTarget::Callable => true,
        _ => false,
    }
}

/// The payload handed to the script's dispatch wrapper.
pub struct ScriptDispatchData {
    pub name: String,
    pub data: String,
}

/// The store transform `compile_add_script` performs on success.
pub open spec fn compile_add_transform(
    pre: Seq<crate::script_store::ScriptStateView>,
    post: Seq<crate::script_store::ScriptStateView>,
    sv: ScriptView,
    cv: crate::script_store::CompiledItemView,
) -> bool {
    let st = crate::script_store::ScriptStateView {
        script: sv,
        compiled: cv,
        load_state: ScriptLoadState::Unloaded,
    };
    if exists|i: int| 0 <= i < pre.len() && (#[trigger] pre[i]).script.id == sv.id {
        exists|i: int|
            0 <= i < pre.len() && (#[trigger] pre[i]).script.id == sv.id && post == pre.update(
                i,
                st,
            )
    } else {
        post == pre.push(st)
    }
}

/// The store transform `set_state` performs.
pub open spec fn set_state_transform(
    pre: Seq<crate::script_store::ScriptStateView>,
    post: Seq<crate::script_store::ScriptStateView>,
    id: u64,
    state: ScriptLoadState,
) -> bool {
    &&& post.len() == pre.len()
    &&& forall|i: int|
        0 <= i < pre.len() && (#[trigger] pre[i]).script.id != id ==> post[i] == pre[i]
    &&& forall|i: int|
        0 <= i < pre.len() && (#[trigger] pre[i]).script.id == id ==> post[i]
            == (crate::script_store::ScriptStateView { load_state: state, ..pre[i] })
}

/// Is a script with this id in the sequence?
pub open spec fn has_script_id(s: Seq<ScriptView>, id: u64) -> bool {
    exists|i: int| 0 <= i < s.len() && s[i].id == id
}

/// Scripts kept by `unload_scripts`: those whose id is not being unloaded.
pub open spec fn unload_keep(removed: Seq<ScriptView>) -> spec_fn(ScriptView) -> bool {
    |sv: ScriptView| !has_script_id(removed, sv.id)
}

/// Linear membership test for a script id.
fn contains_script_id(v: &Vec<Script>, id: u64) -> (r: bool)
    ensures
        r == has_script_id(scripts_view(v@), id),
{
    let mut i: usize = 0;
    while i < v.len()
        invariant
            i <= v.len(),
            forall|k: int| 0 <= k < i ==> (#[trigger] scripts_view(v@)[k]).id != id,
        decreases v.len() - i,
    {
        if v[i].id == id {
            assert(scripts_view(v@)[i as int].id == id);
            return true;
        }
        i += 1;
    }
    false
}

fn build_module_url(name: &String) -> (r: String)
    ensures
        r@ == module_url(name@),
{
    let mut s = String::from_str("file:///guild_scripts/");
    s.append(name.as_str());
    s.append(".js");
    proof {
        assert(s@ =~= module_url(name@));
    }
    s
}

fn build_compile_fail_message(name: &String, err: &String) -> (r: String)
    ensures
        r@ == compile_fail_message(name@, err@),
{
    let mut s = String::from_str("Script compilation failed for ");
    s.append(name.as_str());
    s.append(".ts: ");
    s.append(err.as_str());
    proof {
        assert(s@ =~= compile_fail_message(name@, err@));
    }
    s
}

fn build_script_error_message(err: &String) -> (r: String)
    ensures
        r@ == script_error_message(err@),
{
    let mut s = String::from_str("Script error occurred: ");
    s.append(err.as_str());
    proof {
        assert(s@ =~= script_error_message(err@));
    }
    s
}

/// The per-tenant VM: its identity and the script registry of the current
/// incarnation.  The interpreter and the channels live with the caller; the
/// machine receives their observations as values.
pub struct Vm {
    pub ctx: VmContext,
    pub script_store: ScriptsStateStore,
}

impl Vm {
    pub open spec fn wf(self) -> bool {
        self.script_store.wf()
    }

    /// A fresh incarnation starts with an empty script registry.
    pub fn new(ctx: VmContext) -> (r: Vm)
        ensures
            r.wf(),
            r.ctx == ctx,
            r.script_store@ == Seq::<crate::script_store::ScriptStateView>::empty(),
    {
        Vm { ctx, script_store: ScriptsStateStore::new() }
    }

    /// Record a compile result: a success is registered and its id handed
    /// back; a compile error is logged for the tenant and the VM carries on.
    pub fn compile_script(&mut self, script: Script, compiled: Result<CompiledItem, String>, logs: &mut Vec<LogEntry>) -> (r: Option<u64>)
        requires
            old(self).wf(),
        ensures
            final(self).wf(),
            final(self).ctx == old(self).ctx,
            r matches Some(id) ==> {
                &&& id == script@.id
                &&& compiled matches Ok(c) && compile_add_transform(
                    old(self).script_store@,
                    final(self).script_store@,
                    script@,
                    c@,
                )
                &&& final(logs)@ == old(logs)@
            },
            r is None ==> {
                &&& final(self).script_store@ == old(self).script_store@
                &&& compiled matches Err(e) && logged(
                    old(logs)@,
                    final(logs)@,
                    old(self).ctx.guild_id,
                    LogLevel::Error,
                    compile_fail_message(script@.name, e@),
                    Option::<Seq<char>>::None,
                )
            },
    {
        let id = script.id;
        let name = script.name.clone();
        match self.script_store.compile_add_script(script, compiled) {
            Ok(_) => Some(id),
            Err(e) => {
                let message = build_compile_fail_message(&name, &e);
                let entry = LogEntry {
                    guild_id: self.ctx.guild_id,
                    level: LogLevel::Error,
                    message,
                    context: None,
                };
                logs.push(entry);
                None
            },
        }
    }

    /// Gate a module load: skip scripts already loaded or failed and unknown
    /// ids; otherwise mark the script loaded and hand back the module URL to
    /// evaluate.
    pub fn begin_run_script(&mut self, script_id: u64) -> (r: Option<String>)
        requires
            old(self).wf(),
        ensures
            final(self).wf(),
            final(self).ctx == old(self).ctx,
            r matches Some(url) ==> {
                &&& exists|i: int|
                    0 <= i < old(self).script_store@.len()
                        && (#[trigger] old(self).script_store@[i]).script.id == script_id
                        && old(self).script_store@[i].load_state == ScriptLoadState::Unloaded
                        && url@ == module_url(old(self).script_store@[i].script.name)
                &&& set_state_transform(
                    old(self).script_store@,
                    final(self).script_store@,
                    script_id,
                    ScriptLoadState::Loaded,
                )
            },
            r is None ==> {
                &&& final(self).script_store@ == old(self).script_store@
                &&& (forall|i: int|
                    0 <= i < old(self).script_store@.len()
                        ==> (#[trigger] old(self).script_store@[i]).script.id != script_id)
                    || (exists|i: int|
                        0 <= i < old(self).script_store@.len()
                            && (#[trigger] old(self).script_store@[i]).script.id == script_id
                            && old(self).script_store@[i].load_state != ScriptLoadState::Unloaded)
            },
    {
        match self.script_store.is_failed_or_loaded(script_id) {
            Some(true) => None,
            Some(false) => {
                match self.script_store.get_script(script_id) {
                    Some(st) => {
                        self.script_store.set_state(script_id, ScriptLoadState::Loaded);
                        Some(build_module_url(&st.script.name))
                    },
                    None => {
                        proof {
                            assert(false);
                        }
                        None
                    },
                }
            },
            None => None,
        }
    }

    /// Record the outcome of evaluating a just-loaded module: an evaluation
    /// error marks the script failed and is logged; success changes nothing.
    pub fn finish_run_script(&mut self, script_id: u64, eval: Result<(), String>, logs: &mut Vec<LogEntry>)
        requires
            old(self).wf(),
        ensures
            final(self).wf(),
            final(self).ctx == old(self).ctx,
            eval is Ok ==> final(self).script_store@ == old(self).script_store@ && final(logs)@
                == old(logs)@,
            eval matches Err(e) ==> {
                &&& set_state_transform(
                    old(self).script_store@,
                    final(self).script_store@,
                    script_id,
                    ScriptLoadState::Failed,
                )
                &&& logged(
                    old(logs)@,
                    final(logs)@,
                    old(self).ctx.guild_id,
                    LogLevel::Error,
                    script_error_message(e@),
                    Option::<Seq<char>>::None,
                )
            },
    {
        match eval {
            Ok(_) => {},
            Err(e) => {
                self.script_store.set_state(script_id, ScriptLoadState::Failed);
                let message = build_script_error_message(&e);
                logs.push(LogEntry {
                    guild_id: self.ctx.guild_id,
                    level: LogLevel::Error,
                    message,
                    context: None,
                });
            },
        }
    }

    /// A script error surfaced by the event loop is logged; the loop carries
    /// on.
    pub fn on_vm_error(&self, err: &String, logs: &mut Vec<LogEntry>)
        ensures
            logged(
                old(logs)@,
                final(logs)@,
                self.ctx.guild_id,
                LogLevel::Error,
                script_error_message(err@),
                Option::<Seq<char>>::None,
            ),
    {
        let message = build_script_error_message(err);
        logs.push(LogEntry {
            guild_id: self.ctx.guild_id,
            level: LogLevel::Error,
            message,
            context: None,
        });
    }

    /// The event loop completed all work: report it once.
    pub fn on_completed(&self, events: &mut Vec<GuildVmEvent>) -> (completed: bool)
        ensures
            final(events)@ == old(events)@.push((self.ctx.guild_id, self.ctx.role, VmEvent::VmFinished)),
            completed,
    {
        events.push((self.ctx.guild_id, self.ctx.role, VmEvent::VmFinished));
        true
    }

    /// The clean-shutdown drain overran its deadline: pending promises are
    /// abandoned, with a warning in the tenant log.
    pub fn on_stop_timeout(&self, logs: &mut Vec<LogEntry>)
        ensures
            logged(
                old(logs)@,
                final(logs)@,
                self.ctx.guild_id,
                LogLevel::Error,
                "shutting down your vm timed out after 15 sec, cancelling all pending promises and force-shutting down now instead..."@,
                Option::<Seq<char>>::None,
            ),
    {
        let message = String::from_str(
            "shutting down your vm timed out after 15 sec, cancelling all pending promises and force-shutting down now instead...",
        );
        logs.push(LogEntry {
            guild_id: self.ctx.guild_id,
            level: LogLevel::Error,
            message,
            context: None,
        });
    }

    /// Acknowledge reception of a dispatched event before the script's
    /// handler runs, and assemble the payload for the dispatch wrapper.
    pub fn dispatch_event(&self, name: String, data: String, evt_id: u64, events: &mut Vec<GuildVmEvent>) -> (r: ScriptDispatchData)
        ensures
            final(events)@ == old(events)@.push(
                (self.ctx.guild_id, self.ctx.role, VmEvent::DispatchedEvent(evt_id)),
            ),
            r.name == name,
            r.data == data,
    {
        events.push((self.ctx.guild_id, self.ctx.role, VmEvent::DispatchedEvent(evt_id)));
        ScriptDispatchData { name, data }
    }

    /// The script set that replacing one script yields, or nothing when no
    /// stored script has its id; the caller restarts on a replacement.
    pub fn update_script(&self, script: Script) -> (r: Option<Vec<Script>>)
        ensures
            r matches Some(v) ==> {
                &&& exists|i: int|
                    0 <= i < self.script_store@.len()
                        && (#[trigger] self.script_store@[i]).script.id == script@.id
                &&& scripts_view(v@).len() == self.script_store@.len()
                &&& forall|k: int|
                    0 <= k < self.script_store@.len() ==> scripts_view(v@)[k] == (
                    if (#[trigger] self.script_store@[k]).script.id == script@.id {
                        script@
                    } else {
                        self.script_store@[k].script
                    })
            },
            r is None ==> forall|i: int|
                0 <= i < self.script_store@.len()
                    ==> (#[trigger] self.script_store@[i]).script.id != script@.id,
    {
        let mut current = self.script_store.current_scripts();
        proof {
            assert(scripts_view(current@).len() == current@.len());
            assert(self.script_store@.map_values(
                |st: crate::script_store::ScriptStateView| st.script,
            ).len() == self.script_store@.len());
        }
        let mut need_reset = false;
        let mut k: usize = 0;
        while k < current.len()
            invariant
                k <= current.len(),
                current@.len() == self.script_store@.len(),
                forall|j: int|
                    k <= j < current@.len() ==> scripts_view(current@)[j]
                        == self.script_store@.map_values(|st: crate::script_store::ScriptStateView| st.script)[j],
                forall|j: int|
                    0 <= j < k ==> scripts_view(current@)[j] == (
                    if (#[trigger] self.script_store@[j]).script.id == script@.id {
                        script@
                    } else {
                        self.script_store@[j].script
                    }),
                need_reset == exists|j: int|
                    0 <= j < k && (#[trigger] self.script_store@[j]).script.id == script@.id,
            decreases current.len() - k,
        {
            if current[k].id == script.id {
                proof {
                    assert(scripts_view(current@)[k as int].id == script@.id);
                    assert(self.script_store@[k as int].script.id == script@.id);
                }
                current.set(k, script.clone());
                need_reset = true;
            }
            proof {
                assert(scripts_view(current@)[k as int] == (
                if self.script_store@[k as int].script.id == script@.id {
                    script@
                } else {
                    self.script_store@[k as int].script
                }));
            }
            k += 1;
        }
        if need_reset {
            Some(current)
        } else {
            None
        }
    }

    /// The script set that remains after unloading the given scripts; the
    /// caller restarts with it.
    pub fn unload_scripts(&self, scripts: &Vec<Script>) -> (r: Vec<Script>)
        ensures
            scripts_view(r@) == self.script_store@.map_values(
                |st: crate::script_store::ScriptStateView| st.script,
            ).filter(unload_keep(scripts_view(scripts@))),
    {
        let ghost pred = unload_keep(scripts_view(scripts@));
        let ghost m = self.script_store@.map_values(
            |st: crate::script_store::ScriptStateView| st.script,
        );
        let current = self.script_store.current_scripts();
        let mut out: Vec<Script> = Vec::new();
        proof {
            lemma_filter_empty::<ScriptView>(pred);
            assert(scripts_view(out@) =~= m.subrange(0, 0).filter(pred));
        }
        let mut k: usize = 0;
        while k < current.len()
            invariant
                k <= current.len(),
                scripts_view(current@) == m,
                current@.len() == m.len(),
                pred == unload_keep(scripts_view(scripts@)),
                scripts_view(out@) == m.subrange(0, k as int).filter(pred),
            decreases current.len() - k,
        {
            let gone = contains_script_id(scripts, current[k].id);
            proof {
                assert(scripts_view(current@)[k as int] == current@[k as int]@);
                assert(m[k as int] == current@[k as int]@);
            }
            if !gone {
                out.push(current[k].clone());
                proof {
                    lemma_filter_step(m, pred, k as int);
                    assert(scripts_view(out@) =~= m.subrange(0, k + 1).filter(pred));
                }
            } else {
                proof {
                    lemma_filter_step(m, pred, k as int);
                }
            }
            k += 1;
        }
        proof {
            assert(m.subrange(0, m.len() as int) =~= m);
        }
        out
    }

    /// Tear the incarnation down and bring it up with the new script set:
    /// the registry is cleared, each new script's compile verdict recorded,
    /// and nothing of the previous incarnation remains observable.
    #[verifier::rlimit(60)]
    pub fn restart(&mut self, new_scripts: &Vec<Script>, outcomes: Vec<Result<CompiledItem, String>>, logs: &mut Vec<LogEntry>)
        requires
            old(self).wf(),
            outcomes@.len() == new_scripts@.len(),
        ensures
            final(self).wf(),
            final(self).ctx == old(self).ctx,
            forall|k: int|
                0 <= k < final(self).script_store@.len() ==> exists|j: int|
                    0 <= j < new_scripts@.len()
                        && (#[trigger] final(self).script_store@[k]).script == new_scripts@[j]@
                        && final(self).script_store@[k].load_state == ScriptLoadState::Unloaded
                        && outcomes@[j] is Ok
                        && final(self).script_store@[k].compiled == (outcomes@[j]->Ok_0)@,
            forall|j: int|
                0 <= j < new_scripts@.len() && (#[trigger] outcomes@[j]) is Ok ==> exists|k: int|
                    0 <= k < final(self).script_store@.len()
                        && (#[trigger] final(self).script_store@[k]).script.id
                        == new_scripts@[j]@.id,
            old(logs)@.is_prefix_of(final(logs)@),
    {
        self.script_store.clear();
        let mut j: usize = 0;
        let mut outcomes = outcomes;
        while j < new_scripts.len()
            invariant
                j <= new_scripts.len(),
                outcomes@.len() == new_scripts@.len(),
                self.wf(),
                self.ctx == old(self).ctx,
                forall|k: int|
                    0 <= k < self.script_store@.len() ==> exists|j1: int|
                        0 <= j1 < j && (#[trigger] self.script_store@[k]).script
                            == new_scripts@[j1]@ && self.script_store@[k].load_state
                            == ScriptLoadState::Unloaded && outcomes@[j1] is Ok
                            && self.script_store@[k].compiled == (outcomes@[j1]->Ok_0)@,
                forall|j1: int|
                    0 <= j1 < j && (#[trigger] outcomes@[j1]) is Ok ==> exists|k: int|
                        0 <= k < self.script_store@.len()
                            && (#[trigger] self.script_store@[k]).script.id
                            == new_scripts@[j1]@.id,
                old(logs)@.is_prefix_of(logs@),
            decreases new_scripts.len() - j,
    {
            let script = new_scripts[j].clone();
            let outcome: Result<CompiledItem, String> = match &outcomes[j] {
                Ok(c) => Ok(c.clone()),
                Err(e) => Err(e.clone()),
            };
            let ghost oc = outcome;
            let ghost pre = self.script_store@;
            let ghost pre_logs = logs@;
            let ghost sv = new_scripts@[j as int]@;
            let _ = self.compile_script(script, outcome, logs);
            proof {
                let post = self.script_store@;
                let jv = j as int;
                if oc is Ok {
                    let st = crate::script_store::ScriptStateView {
                        script: sv,
                        compiled: (oc->Ok_0)@,
                        load_state: ScriptLoadState::Unloaded,
                    };
                    assert(compile_add_transform(pre, post, sv, (oc->Ok_0)@));
                    if exists|i: int| 0 <= i < pre.len() && (#[trigger] pre[i]).script.id == sv.id {
                        let i0 = choose|i0: int|
                            0 <= i0 < pre.len() && (#[trigger] pre[i0]).script.id == sv.id && post
                                == pre.update(i0, st);
                        assert forall|k: int| 0 <= k < post.len()
                            implies exists|j1: int|
                                0 <= j1 < jv + 1 && (#[trigger] post[k]).script == new_scripts@[j1]@
                                    && post[k].load_state == ScriptLoadState::Unloaded
                                    && outcomes@[j1] is Ok
                                    && post[k].compiled == (outcomes@[j1]->Ok_0)@ by {
                            if k == i0 {
                                assert(post[k].script == new_scripts@[jv]@);
                                assert(outcomes@[jv] is Ok);
                                assert(post[k].compiled == (outcomes@[jv]->Ok_0)@);
                            } else {
                                assert(post[k] == pre[k]);
                                let j1 = choose|j1: int|
                                    0 <= j1 < jv && (#[trigger] pre[k]).script == new_scripts@[j1]@
                                        && pre[k].load_state == ScriptLoadState::Unloaded
                                        && outcomes@[j1] is Ok
                                        && pre[k].compiled == (outcomes@[j1]->Ok_0)@;
                                assert(post[k].script == new_scripts@[j1]@);
                            }
                        }
                        assert forall|j1: int| 0 <= j1 < jv + 1 && (#[trigger] outcomes@[j1]) is Ok
                            implies exists|k: int|
                                0 <= k < post.len() && (#[trigger] post[k]).script.id
                                    == new_scripts@[j1]@.id by {
                            if j1 == jv {
                                assert(post[i0].script.id == new_scripts@[jv]@.id);
                            } else {
                                let k1 = choose|k1: int|
                                    0 <= k1 < pre.len() && (#[trigger] pre[k1]).script.id
                                        == new_scripts@[j1]@.id;
                                if k1 == i0 {
                                    assert(post[i0].script.id == pre[i0].script.id);
                                } else {
                                    assert(post[k1].script.id == new_scripts@[j1]@.id);
                                }
                            }
                        }
                    } else {
                        assert(post == pre.push(st));
                        assert forall|k: int| 0 <= k < post.len()
                            implies exists|j1: int|
                                0 <= j1 < jv + 1 && (#[trigger] post[k]).script == new_scripts@[j1]@
                                    && post[k].load_state == ScriptLoadState::Unloaded
                                    && outcomes@[j1] is Ok
                                    && post[k].compiled == (outcomes@[j1]->Ok_0)@ by {
                            if k == pre.len() {
                                assert(post[k].script == new_scripts@[jv]@);
                                assert(outcomes@[jv] is Ok);
                                assert(post[k].compiled == (outcomes@[jv]->Ok_0)@);
                            } else {
                                assert(post[k] == pre[k]);
                                let j1 = choose|j1: int|
                                    0 <= j1 < jv && (#[trigger] pre[k]).script == new_scripts@[j1]@
                                        && pre[k].load_state == ScriptLoadState::Unloaded
                                        && outcomes@[j1] is Ok
                                        && pre[k].compiled == (outcomes@[j1]->Ok_0)@;
                                assert(post[k].script == new_scripts@[j1]@);
                            }
                        }
                        assert forall|j1: int| 0 <= j1 < jv + 1 && (#[trigger] outcomes@[j1]) is Ok
                            implies exists|k: int|
                                0 <= k < post.len() && (#[trigger] post[k]).script.id
                                    == new_scripts@[j1]@.id by {
                            if j1 == jv {
                                assert(post[pre.len() as int].script.id == new_scripts@[jv]@.id);
                            } else {
                                let k1 = choose|k1: int|
                                    0 <= k1 < pre.len() && (#[trigger] pre[k1]).script.id
                                        == new_scripts@[j1]@.id;
                                assert(post[k1].script.id == new_scripts@[j1]@.id);
                            }
                        }
                    }
                } else {
                    assert(post == pre);
                    assert forall|j1: int| 0 <= j1 < jv + 1 && (#[trigger] outcomes@[j1]) is Ok
                        implies exists|k: int|
                            0 <= k < post.len() && (#[trigger] post[k]).script.id
                                == new_scripts@[j1]@.id by {
                        let k1 = choose|k1: int|
                            0 <= k1 < pre.len() && (#[trigger] pre[k1]).script.id
                                == new_scripts@[j1]@.id;
                        assert(post[k1].script.id == new_scripts@[j1]@.id);
                    }
                }
                assert(pre_logs.is_prefix_of(logs@)) by {
                    if logs@.len() > pre_logs.len() {
                        assert(pre_logs =~= logs@.subrange(0, pre_logs.len() as int));
                    }
                }
            }
            j += 1;
        }
    }

    /// What the loop does once `check_terminated` turns true: drain the event
    /// loop only for a clean thread termination, then report the recorded
    /// reason, or `Unknown` when none was recorded.
    pub fn exit_events(&self, shutdown: &VmShutdownHandle, events: &mut Vec<GuildVmEvent>) -> (drain: bool)
        ensures
            drain == (shutdown.shutdown_reason == Some(ShutdownReason::ThreadTermination)),
            final(events)@ == old(events)@.push(
                (self.ctx.guild_id, self.ctx.role, VmEvent::Shutdown(exit_reason_spec(*shutdown))),
            ),
    {
        let drain = match shutdown.shutdown_reason {
            Some(ShutdownReason::ThreadTermination) => true,
            _ => false,
        };
        let reason = shutdown.exit_reason();
        events.push((self.ctx.guild_id, self.ctx.role, VmEvent::Shutdown(reason)));
        drain
    }
}

/// The printed form of a VM role.
pub open spec fn role_text(role: VmRole) -> Seq<char> {
    match role {
        VmRole::Main => "Main"@,
        VmRole::Pack(n) => "Pack("@ + crate::textfmt::dec_str(n as int) + ")"@,
    }
}

/// The identity under which a VM is registered with its supervising thread.
#[derive(Clone, Copy, Debug, PartialEq, Eq, Structural)]
pub struct RtId {
    pub guild_id: u64,
    pub role: VmRole,
}

impl RtId {
    /// The line shown for this VM in operator-facing listings.
    pub fn describe(&self) -> (r: String)
        ensures
            r@ == "Isolate (guild_id: "@ + crate::textfmt::dec_str(self.guild_id as int)
                + ", role: "@ + role_text(self.role) + ")"@,
    {
        let mut s = String::from_str("Isolate (guild_id: ");
        let id_text = crate::textfmt::u64_to_string(self.guild_id);
        s.append(id_text.as_str());
        s.append(", role: ");
        match self.role {
            VmRole::Main => {
                s.append("Main");
            },
            VmRole::Pack(n) => {
                s.append("Pack(");
                let n_text = crate::textfmt::u64_to_string(n);
                s.append(n_text.as_str());
                s.append(")");
            },
        }
        s.append(")");
        proof {
            assert(s@ =~= "Isolate (guild_id: "@ + crate::textfmt::dec_str(self.guild_id as int)
                + ", role: "@ + role_text(self.role) + ")"@);
        }
        s
    }
}

/// Ordering: acknowledgements of dispatched events are appended in call
/// order, so the script sees events in the order they were enqueued, and
/// each acknowledgement precedes the handler call that follows it.
pub proof fn lemma_dispatch_order(
    e0: Seq<GuildVmEvent>,
    e1: Seq<GuildVmEvent>,
    e2: Seq<GuildVmEvent>,
    ctx: VmContext,
    a: u64,
    b: u64,
)
    requires
        e1 == e0.push((ctx.guild_id, ctx.role, VmEvent::DispatchedEvent(a))),
        e2 == e1.push((ctx.guild_id, ctx.role, VmEvent::DispatchedEvent(b))),
    ensures
        e2[e0.len() as int] == (ctx.guild_id, ctx.role, VmEvent::DispatchedEvent(a)),
        e2[e0.len() as int + 1] == (ctx.guild_id, ctx.role, VmEvent::DispatchedEvent(b)),
        e0.len() < e2.len(),
{
}

/// Shutdown reason: the emitted `Shutdown` carries the requested reason
/// exactly when the request found an interpreter registered; with no request,
/// or a request made before the interpreter existed, the loop reports
/// `Unknown`.
pub proof fn lemma_shutdown_reason(s: VmShutdownHandle, reason: ShutdownReason)
    requires
        s.shutdown_reason is None,
    ensures
        exit_reason_spec(s) == ShutdownReason::Unknown,
        s.has_isolate_handle ==> exit_reason_spec(shutdown_vm_spec(s, reason)) == reason,
        !s.has_isolate_handle ==> exit_reason_spec(shutdown_vm_spec(s, reason))
            == ShutdownReason::Unknown,
{
}

/// Forced termination: a forced request with a registered interpreter sets
/// the terminated flag the loop polls, so the loop leaves its tick cycle and
/// emits `Shutdown` with this reason on its next turn; the drain that may
/// precede the emission is bounded by the fifteen-second stop deadline.
pub proof fn lemma_forced_termination(s: VmShutdownHandle, reason: ShutdownReason)
    requires
        s.has_isolate_handle,
    ensures
        shutdown_vm_spec(s, reason).terminated,
        exit_reason_spec(shutdown_vm_spec(s, reason)) == reason,
{
}

} // verus!
