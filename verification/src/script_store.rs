//! The per-incarnation registry of compiled scripts: their sources, compiler
//! output, and load states, plus source-map lookup for the error translator.
//!
//! A script is present exactly when it compiled successfully at least once in
//! the current incarnation; compile errors are never cached.

use vstd::prelude::*;
use crate::runtime::{Command, IntervalTimer};

verus! {

/// What a script contributes statically: declared commands and interval
/// timers.
pub struct ScriptContributes {
    pub commands: Vec<Command>,
    pub interval_timers: Vec<IntervalTimer>,
}

/// One tenant script: identity, source, and its static contributions.
pub struct Script {
    pub id: u64,
    pub name: String,
    pub original_source: String,
    pub enabled: bool,
    pub plugin_id: Option<u64>,
    pub plugin_auto_update: Option<bool>,
    pub contributes: ScriptContributes,
}

/// The ghost image of a [`Script`]: plain values and name sequences.
pub ghost struct ScriptView {
    pub id: u64,
    pub name: Seq<char>,
    pub original_source: Seq<char>,
    pub enabled: bool,
    pub plugin_id: Option<u64>,
    pub plugin_auto_update: Option<bool>,
    pub commands: Seq<Seq<char>>,
    pub interval_timers: Seq<Seq<char>>,
}

impl View for Command {
    type V = Seq<char>;

    open spec fn view(&self) -> Seq<char> {
        self.name@
    }
}

impl View for IntervalTimer {
    type V = Seq<char>;

    open spec fn view(&self) -> Seq<char> {
        self.name@
    }
}

impl View for Script {
    type V = ScriptView;

    open spec fn view(&self) -> ScriptView {
        ScriptView {
            id: self.id,
            name: self.name@,
            original_source: self.original_source@,
            enabled: self.enabled,
            plugin_id: self.plugin_id,
            plugin_auto_update: self.plugin_auto_update,
            commands: self.contributes.commands@.map_values(|c: Command| c@),
            interval_timers: self.contributes.interval_timers@.map_values(|t: IntervalTimer| t@),
        }
    }
}

/// The ghost image of a sequence of scripts.
pub open spec fn scripts_view(s: Seq<Script>) -> Seq<ScriptView> {
    s.map_values(|x: Script| x@)
}

/// What the external compiler returns for one script: the generated module
/// text and its source map, kept in raw form for the error translator.
pub struct CompiledItem {
    pub output: String,
    pub source_map_raw: String,
}

/// The ghost image of a [`CompiledItem`].
pub ghost struct CompiledItemView {
    pub output: Seq<char>,
    pub source_map_raw: Seq<char>,
}

impl View for CompiledItem {
    type V = CompiledItemView;

    open spec fn view(&self) -> CompiledItemView {
        CompiledItemView {
            output: self.output@,
            source_map_raw: self.source_map_raw@,
        }
    }
}

/// How far a stored script has come in the current incarnation.
#[derive(Clone, Copy, Debug, PartialEq, Eq, Structural)]
pub enum ScriptLoadState {
    Unloaded,
    Loaded,
    Failed,
}

/// A stored script together with its compiler output and load state.
pub struct ScriptState {
    pub script: Script,
    pub compiled: CompiledItem,
    pub load_state: ScriptLoadState,
}

/// The ghost image of a [`ScriptState`].
pub ghost struct ScriptStateView {
    pub script: ScriptView,
    pub compiled: CompiledItemView,
    pub load_state: ScriptLoadState,
}

impl View for ScriptState {
    type V = ScriptStateView;

    open spec fn view(&self) -> ScriptStateView {
        ScriptStateView {
            script: self.script@,
            compiled: self.compiled@,
            load_state: self.load_state,
        }
    }
}

impl Clone for Command {
    fn clone(&self) -> (r: Self)
        ensures
            r@ == self@,
    {
        Command { name: self.name.clone() }
    }
}

impl Clone for IntervalTimer {
    fn clone(&self) -> (r: Self)
        ensures
            r@ == self@,
    {
        IntervalTimer { name: self.name.clone() }
    }
}

impl Clone for ScriptContributes {
    fn clone(&self) -> (r: Self)
        ensures
            r.commands@.map_values(|c: Command| c@) == self.commands@.map_values(|c: Command| c@),
            r.interval_timers@.map_values(|t: IntervalTimer| t@)
                == self.interval_timers@.map_values(|t: IntervalTimer| t@),
    {
        let commands = self.commands.clone();
        let interval_timers = self.interval_timers.clone();
        proof {
            assert(commands@.map_values(|c: Command| c@)
                =~= self.commands@.map_values(|c: Command| c@));
            assert(interval_timers@.map_values(|t: IntervalTimer| t@)
                =~= self.interval_timers@.map_values(|t: IntervalTimer| t@));
        }
        ScriptContributes { commands, interval_timers }
    }
}

impl Clone for Script {
    fn clone(&self) -> (r: Self)
        ensures
            r@ == self@,
    {
        Script {
            id: self.id,
            name: self.name.clone(),
            original_source: self.original_source.clone(),
            enabled: self.enabled,
            plugin_id: self.plugin_id,
            plugin_auto_update: self.plugin_auto_update,
            contributes: self.contributes.clone(),
        }
    }
}

impl Clone for CompiledItem {
    fn clone(&self) -> (r: Self)
        ensures
            r@ == self@,
    {
        CompiledItem {
            output: self.output.clone(),
            source_map_raw: self.source_map_raw.clone(),
        }
    }
}

impl Clone for ScriptState {
    fn clone(&self) -> (r: Self)
        ensures
            r@ == self@,
    {
        ScriptState {
            script: self.script.clone(),
            compiled: self.compiled.clone(),
            load_state: self.load_state,
        }
    }
}

/// Script ids are unique within the store.
pub open spec fn script_ids_unique(s: Seq<ScriptStateView>) -> bool {
    forall|i: int, j: int|
        0 <= i < j < s.len() ==> s[i].script.id != s[j].script.id
}

/// The in-memory registry of this incarnation's compiled scripts.
pub struct ScriptsStateStore {
    scripts: Vec<ScriptState>,
}

impl View for ScriptsStateStore {
    type V = Seq<ScriptStateView>;

    closed spec fn view(&self) -> Seq<ScriptStateView> {
        self.scripts@.map_values(|s: ScriptState| s@)
    }
}

impl ScriptsStateStore {
    pub open spec fn wf(self) -> bool {
        script_ids_unique(self@)
    }

    pub fn new() -> (r: ScriptsStateStore)
        ensures
            r.wf(),
            r@ == Seq::<ScriptStateView>::empty(),
    {
        let r = ScriptsStateStore { scripts: Vec::new() };
        proof {
            assert(r@ =~= Seq::<ScriptStateView>::empty());
        }
        r
    }

    /// Index of the entry for `id`, if any.
    fn find_id(&self, id: u64) -> (r: Option<usize>)
        ensures
            r matches Some(i) ==> 0 <= i < self@.len() && self@[i as int].script.id == id,
            r is None ==> forall|i: int| 0 <= i < self@.len() ==> (#[trigger] self@[i]).script.id != id,
    {
        let mut i: usize = 0;
        while i < self.scripts.len()
            invariant
                i <= self.scripts.len(),
                forall|k: int| 0 <= k < i ==> (#[trigger] self@[k]).script.id != id,
            decreases self.scripts.len() - i,
        {
            if self.scripts[i].script.id == id {
                return Some(i);
            }
            i += 1;
        }
        None
    }

    /// Record the compiler's verdict for `script`: a success is stored as
    /// `Unloaded`, replacing any entry with the same id; a compile error is
    /// handed back and never cached.
    pub fn compile_add_script(&mut self, script: Script, compiled: Result<CompiledItem, String>) -> (r: Result<ScriptState, String>)
        requires
            old(self).wf(),
        ensures
            final(self).wf(),
            match r {
                Ok(st) => {
                    &&& compiled matches Ok(c) && st@.compiled == c@
                    &&& st@.script == script@
                    &&& st@.load_state == ScriptLoadState::Unloaded
                    &&& if exists|i: int|
                        0 <= i < old(self)@.len() && (#[trigger] old(self)@[i]).script.id == script@.id {
                        exists|i: int|
                            0 <= i < old(self)@.len()
                                && (#[trigger] old(self)@[i]).script.id == script@.id
                                && final(self)@ == old(self)@.update(i, st@)
                    } else {
                        final(self)@ == old(self)@.push(st@)
                    }
                },
                Err(e) => {
                    &&& compiled matches Err(e0) && e == e0
                    &&& final(self)@ == old(self)@
                },
            },
    {
        match compiled {
            Ok(c) => {
                let st = ScriptState {
                    script,
                    compiled: c,
                    load_state: ScriptLoadState::Unloaded,
                };
                let out = st.clone();
                match self.find_id(st.script.id) {
                    Some(i) => {
                        let ghost pre = self.scripts@;
                        let ghost stv = st@;
                        self.scripts.set(i, st);
                        proof {
                            assert(self@ =~= pre.map_values(|s: ScriptState| s@).update(i as int, stv));
                        }
                    },
                    None => {
                        let ghost pre = self.scripts@;
                        let ghost stv = st@;
                        self.scripts.push(st);
                        proof {
                            assert(self@ =~= pre.map_values(|s: ScriptState| s@).push(stv));
                        }
                    },
                }
                Ok(out)
            },
            Err(e) => Err(e),
        }
    }

    /// Look an entry up by script id.
    pub fn get_script(&self, id: u64) -> (r: Option<ScriptState>)
        ensures
            r matches Some(st) ==> st@.script.id == id && self@.contains(st@),
            r is None ==> forall|i: int| 0 <= i < self@.len() ==> (#[trigger] self@[i]).script.id != id,
    {
        match self.find_id(id) {
            Some(i) => {
                let st = self.scripts[i].clone();
                assert(self@[i as int] == st@);
                Some(st)
            },
            None => None,
        }
    }

    /// Look an entry up by script name; the first match wins.
    pub fn get_script_by_name(&self, name: &String) -> (r: Option<ScriptState>)
        ensures
            r matches Some(st) ==> st@.script.name == name@ && self@.contains(st@),
            r is None ==> forall|i: int| 0 <= i < self@.len() ==> (#[trigger] self@[i]).script.name != name@,
    {
        let mut i: usize = 0;
        while i < self.scripts.len()
            invariant
                i <= self.scripts.len(),
                forall|k: int| 0 <= k < i ==> (#[trigger] self@[k]).script.name != name@,
            decreases self.scripts.len() - i,
        {
            if self.scripts[i].script.name == *name {
                let st = self.scripts[i].clone();
                assert(self@[i as int] == st@);
                return Some(st);
            }
            i += 1;
        }
        None
    }

    /// Set the load state of the entry for `id`; absent ids are ignored.
    pub fn set_state(&mut self, id: u64, state: ScriptLoadState)
        requires
            old(self).wf(),
        ensures
            final(self).wf(),
            final(self)@.len() == old(self)@.len(),
            forall|i: int| 0 <= i < old(self)@.len() && (#[trigger] old(self)@[i]).script.id != id
                ==> final(self)@[i] == old(self)@[i],
            forall|i: int| 0 <= i < old(self)@.len() && (#[trigger] old(self)@[i]).script.id == id
                ==> final(self)@[i] == (ScriptStateView { load_state: state, ..old(self)@[i] }),
    {
        match self.find_id(id) {
            Some(i) => {
                let entry = &self.scripts[i];
                let updated = ScriptState {
                    script: entry.script.clone(),
                    compiled: entry.compiled.clone(),
                    load_state: state,
                };
                let ghost pre = self.scripts@;
                let ghost uv = updated@;
                self.scripts.set(i, updated);
                proof {
                    assert(self@ =~= pre.map_values(|s: ScriptState| s@).update(i as int, uv));
                }
            },
            None => {},
        }
    }

    /// Was the script already loaded, or did its evaluation fail?  `None`
    /// when the id is unknown.
    pub fn is_failed_or_loaded(&self, id: u64) -> (r: Option<bool>)
        ensures
            r matches Some(b) ==> exists|i: int|
                0 <= i < self@.len() && (#[trigger] self@[i]).script.id == id
                    && b == (self@[i].load_state == ScriptLoadState::Loaded
                        || self@[i].load_state == ScriptLoadState::Failed),
            r is None ==> forall|i: int| 0 <= i < self@.len() ==> (#[trigger] self@[i]).script.id != id,
    {
        match self.find_id(id) {
            Some(i) => {
                let st = &self.scripts[i];
                let b = match st.load_state {
                    ScriptLoadState::Loaded => true,
                    ScriptLoadState::Failed => true,
                    ScriptLoadState::Unloaded => false,
                };
                assert(self@[i as int].load_state == st.load_state);
                Some(b)
            },
            None => None,
        }
    }

    /// Drop every entry; used when the incarnation is torn down.
    pub fn clear(&mut self)
        ensures
            final(self).wf(),
            final(self)@ == Seq::<ScriptStateView>::empty(),
    {
        self.scripts.clear();
        proof {
            assert(self@ =~= Seq::<ScriptStateView>::empty());
        }
    }

    /// The source map stored for the script of this name, for the error-stack
    /// translator.
    pub fn resolve_source_map(&self, name: &String) -> (r: Option<String>)
        ensures
            r matches Some(m) ==> exists|i: int|
                0 <= i < self@.len() && (#[trigger] self@[i]).script.name == name@
                    && self@[i].compiled.source_map_raw == m@,
            r is None ==> forall|i: int| 0 <= i < self@.len() ==> (#[trigger] self@[i]).script.name != name@,
    {
        match self.get_script_by_name(name) {
            Some(st) => {
                let ghost j = choose|j: int| 0 <= j < self@.len() && #[trigger] self@[j] == st@;
                assert(self@[j].compiled.source_map_raw == st.compiled.source_map_raw@);
                Some(st.compiled.source_map_raw)
            },
            None => None,
        }
    }

    /// The scripts currently stored, in store order.
    pub fn current_scripts(&self) -> (r: Vec<Script>)
        ensures
            scripts_view(r@) == self@.map_values(|st: ScriptStateView| st.script),
    {
        let mut out: Vec<Script> = Vec::new();
        let mut i: usize = 0;
        proof {
            assert(scripts_view(out@)
                =~= self@.map_values(|st: ScriptStateView| st.script).subrange(0, 0));
        }
        while i < self.scripts.len()
            invariant
                i <= self.scripts.len(),
                out@.len() == i,
                scripts_view(out@)
                    == self@.map_values(|st: ScriptStateView| st.script).subrange(0, i as int),
            decreases self.scripts.len() - i,
        {
            out.push(self.scripts[i].script.clone());
            proof {
                let m = self@.map_values(|st: ScriptStateView| st.script);
                assert(out@.len() == i + 1);
                assert(self@[i as int] == self.scripts@[i as int]@);
                assert(m[i as int] == self@[i as int].script);
                assert(scripts_view(out@)[i as int] == out@[i as int]@);
                assert(scripts_view(out@) =~= m.subrange(0, i + 1));
            }
            i += 1;
        }
        proof {
            assert(self@.map_values(|st: ScriptStateView| st.script)
                .subrange(0, self@.len() as int)
                =~= self@.map_values(|st: ScriptStateView| st.script));
        }
        out
    }
}

} // verus!
