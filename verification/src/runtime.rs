//! Types the script runtime reports to the host: the metadata a script
//! announces when it starts, the events the runtime sends upward, and the
//! in-memory module-source loader.

use vstd::prelude::*;
use crate::textfmt::{dec_str, u64_to_string};
use crate::vm::{LogEntry, LogLevel, logged};

verus! {

/// A slash command a script declares at startup.
pub struct Command {
    pub name: String,
}

/// A command group a script declares at startup.
pub struct CommandGroup {
    pub name: String,
}

/// An interval timer a script declares at startup.
pub struct IntervalTimer {
    pub name: String,
}

/// What a script announces when it starts: its declared commands, the
/// scheduler namespaces it owns, and its interval timers.
pub struct ScriptMeta {
    pub script_id: u64,
    pub commands: Vec<Command>,
    pub command_groups: Vec<CommandGroup>,
    pub task_names: Vec<String>,
    pub interval_timers: Vec<IntervalTimer>,
}

/// Events the runtime sends to the per-tenant handler.
pub enum RuntimeEvent {
    ScriptStarted(ScriptMeta),
    NewTaskScheduled,
    InvalidRequestsExceeded,
}

/// A module-source loader that serves a single in-memory string.
pub struct InMemSourceLoader {
    pub src: String,
}

impl InMemSourceLoader {
    /// Loading never fails and always hands back the stored source.
    pub fn load(&self) -> (r: Result<String, String>)
        ensures
            r matches Ok(s) && s@ == self.src@,
    {
        Ok(self.src.clone())
    }
}

/// Builds the loader that module resolution uses for statically known sources.
pub fn in_mem_source_load_fn(src: &str) -> (r: InMemSourceLoader)
    ensures
        r.src@ == src@,
{
    InMemSourceLoader { src: src.to_owned() }
}

/// The report line for one invalid command declaration.
pub open spec fn command_line(name: Seq<char>, err: Seq<char>) -> Seq<char> {
    "\ncommand "@ + name + ": "@ + err
}

/// The report line for one invalid command-group declaration.
pub open spec fn group_line(name: Seq<char>, err: Seq<char>) -> Seq<char> {
    "\ncommand group "@ + name + ": "@ + err
}

/// All command report lines, in order.
pub open spec fn command_lines(items: Seq<(String, String)>) -> Seq<char>
    decreases items.len(),
{
    if items.len() == 0 {
        Seq::empty()
    } else {
        command_lines(items.drop_last()) + command_line(items.last().0@, items.last().1@)
    }
}

/// All command-group report lines, in order.
pub open spec fn group_lines(items: Seq<(String, String)>) -> Seq<char>
    decreases items.len(),
{
    if items.len() == 0 {
        Seq::empty()
    } else {
        group_lines(items.drop_last()) + group_line(items.last().0@, items.last().1@)
    }
}

/// Aggregate the validation findings for a script's declared commands and
/// command groups — `(name, message)` pairs the validator produced — into one
/// report.  No findings means the declarations are valid.
pub fn validate_script_meta(command_findings: &Vec<(String, String)>, group_findings: &Vec<(String, String)>) -> (r: Result<(), String>)
    ensures
        r is Ok <==> (command_findings@.len() == 0 && group_findings@.len() == 0),
        r matches Err(e) ==> e@ == "failed validating script: "@ + command_lines(
            command_findings@,
        ) + group_lines(group_findings@),
{
    let mut outbuf = String::new();
    let mut i: usize = 0;
    proof {
        assert(outbuf@ =~= command_lines(command_findings@.subrange(0, 0)));
    }
    while i < command_findings.len()
        invariant
            i <= command_findings.len(),
            outbuf@ == command_lines(command_findings@.subrange(0, i as int)),
        decreases command_findings.len() - i,
    {
        let f = &command_findings[i];
        outbuf.append("\ncommand ");
        outbuf.append(f.0.as_str());
        outbuf.append(": ");
        outbuf.append(f.1.as_str());
        proof {
            let now = command_findings@.subrange(0, i + 1);
            assert(now.drop_last() =~= command_findings@.subrange(0, i as int));
            assert(now.last() == command_findings@[i as int]);
            assert(outbuf@ =~= command_lines(now));
        }
        i += 1;
    }
    proof {
        assert(command_findings@.subrange(0, command_findings@.len() as int)
            =~= command_findings@);
        assert(group_lines(group_findings@.subrange(0, 0)) =~= Seq::<char>::empty());
    }
    let mut j: usize = 0;
    while j < group_findings.len()
        invariant
            j <= group_findings.len(),
            outbuf@ == command_lines(command_findings@) + group_lines(
                group_findings@.subrange(0, j as int),
            ),
        decreases group_findings.len() - j,
    {
        let f = &group_findings[j];
        outbuf.append("\ncommand group ");
        outbuf.append(f.0.as_str());
        outbuf.append(": ");
        outbuf.append(f.1.as_str());
        proof {
            let now = group_findings@.subrange(0, j + 1);
            assert(now.drop_last() =~= group_findings@.subrange(0, j as int));
            assert(now.last() == group_findings@[j as int]);
            assert(outbuf@ =~= command_lines(command_findings@) + group_lines(now));
        }
        j += 1;
    }
    proof {
        assert(group_findings@.subrange(0, group_findings@.len() as int) =~= group_findings@);
    }
    if command_findings.len() == 0 && group_findings.len() == 0 {
        Ok(())
    } else {
        let mut m = String::from_str("failed validating script: ");
        m.append(outbuf.as_str());
        proof {
            assert(m@ =~= "failed validating script: "@ + command_lines(command_findings@)
                + group_lines(group_findings@));
        }
        Err(m)
    }
}

/// A script announced itself: with a clean validation verdict the start is
/// published to the handler; a validation failure is written to the tenant
/// log under the script's id and handed back to the script.
pub fn script_start(
    guild_id: u64,
    meta: ScriptMeta,
    validation: Result<(), String>,
    events: &mut Vec<RuntimeEvent>,
    logs: &mut Vec<LogEntry>,
) -> (r: Result<(), String>)
    ensures
        validation is Ok ==> r is Ok && final(events)@ == old(events)@.push(
            RuntimeEvent::ScriptStarted(meta),
        ) && final(logs)@ == old(logs)@,
        validation matches Err(e) ==> {
            &&& r matches Err(e2) && e2 == e
            &&& final(events)@ == old(events)@
            &&& logged(
                old(logs)@,
                final(logs)@,
                guild_id,
                LogLevel::ScriptError,
                "script meta validation failed: "@ + e@,
                Some(dec_str(meta.script_id as int)),
            )
        },
{
    let script_id = meta.script_id;
    match validation {
        Ok(_) => {
            events.push(RuntimeEvent::ScriptStarted(meta));
            Ok(())
        },
        Err(e) => {
            let mut message = String::from_str("script meta validation failed: ");
            message.append(e.as_str());
            let context = u64_to_string(script_id);
            logs.push(LogEntry {
                guild_id,
                level: LogLevel::ScriptError,
                message,
                context: Some(context),
            });
            Err(e)
        },
    }
}

/// Guard for the engine's resource table: a host function may register a new
/// resource only while the table stays within its limit.
pub fn check_resource_capacity(count: usize) -> (r: Result<(), String>)
    ensures
        r is Ok <==> count <= 100,
        r matches Err(e) ==> e@
            == "exhausted resource table limit, make sure to close your resources when you're done with them."@,
{
    if count > 100 {
        Err(String::from_str(
            "exhausted resource table limit, make sure to close your resources when you're done with them.",
        ))
    } else {
        Ok(())
    }
}

/// The stub installed in place of engine operations the platform disables.
pub fn disabled_op() -> (r: Result<(), String>)
    ensures
        r matches Err(e) && e@ == "this op is disabled"@,
{
    Err(String::from_str("this op is disabled"))
}

/// The tenant id as scripts see it: its decimal text.
pub fn current_guild_id_string(guild_id: u64) -> (r: String)
    ensures
        r@ == dec_str(guild_id as int),
{
    u64_to_string(guild_id)
}

} // verus!
