//! The execution engine: creates execution records, builds the command
//! an execution spawns, and applies the outcomes the embedding program
//! reports (spawn result, process exit, explicit stop) to the execution
//! store under the status state machine.
//!
//! One run proceeds: [`ExecutionService::execute_plugin`] checks the
//! plugin and appends a `Pending` record, handing back the command and
//! the run's private working directory; the embedding program creates
//! the directory and spawns the process, reporting through
//! [`ExecutionService::record_spawn`] (`Pending -> Running`); its
//! monitor task waits for the exit and reports through
//! [`ExecutionService::finalize_execution`], which fixes the terminal
//! state and the captured output in one update.

use vstd::prelude::*;

use crate::errors::AppError;
use crate::execution::{
    clone_execution, is_terminal, status_step, Execution, ExecutionStatus, ExecutionV,
};
use crate::executors::{
    CommandSpec, ExecutionOutput, ExecutionOutputV, NodeExecutor, PluginExecutor, PythonExecutor,
};
use crate::ids::new_uuid;
use crate::plugin::{Plugin, PluginType, PluginV};
use crate::plugin_service::{find_plugin, has_plugin_id, PluginService};
use crate::textspec::join_path;
use crate::timefmt::now_timestamp;

verus! {

/// Some stored execution carries this identifier.
pub open spec fn has_execution_id(s: Seq<ExecutionV>, id: Seq<char>) -> bool {
    exists|i: int| 0 <= i < s.len() && (#[trigger] s[i]).id == id
}

/// The position of the execution with this identifier (meaningful when
/// [`has_execution_id`] holds and identifiers are unique).
pub open spec fn execution_index_of(s: Seq<ExecutionV>, id: Seq<char>) -> int {
    choose|i: int| 0 <= i < s.len() && (#[trigger] s[i]).id == id
}

/// The stored execution with this identifier, if any.
pub open spec fn find_execution(s: Seq<ExecutionV>, id: Seq<char>) -> Option<ExecutionV> {
    if has_execution_id(s, id) {
        Some(s[execution_index_of(s, id)])
    } else {
        None
    }
}

/// The execution store invariant: identifiers are unique.
pub open spec fn wf_executions(s: Seq<ExecutionV>) -> bool {
    forall|i: int, j: int| 0 <= i < j < s.len() ==> (#[trigger] s[i]).id != (#[trigger] s[j]).id
}

/// A fresh record at the instant of creation, before any spawn.
pub open spec fn pending_execution(id: Seq<char>, plugin_id: Seq<char>, now: i64) -> ExecutionV {
    ExecutionV {
        id,
        plugin_id,
        status: ExecutionStatus::Pending,
        pid: None,
        exit_code: None,
        stdout: None,
        stderr: None,
        started_at: now,
        finished_at: None,
    }
}

/// Captured output as stored: an empty buffer is recorded as no output.
pub open spec fn normalized_output(s: Seq<char>) -> Option<Seq<char>> {
    if s.len() == 0 {
        None
    } else {
        Some(s)
    }
}

/// The record a monitor writes on terminal transition: exit code zero
/// completes the run, any other outcome fails it; a record already made
/// terminal (an explicit stop) keeps its status; outputs, the exit code
/// and the finish timestamp are fixed in the same update.
pub open spec fn finalized_execution(e: ExecutionV, out: ExecutionOutputV, now: i64) -> ExecutionV {
    ExecutionV {
        status: if is_terminal(e.status) {
            e.status
        } else if out.exit_code == Some(0i32) {
            ExecutionStatus::Completed
        } else {
            ExecutionStatus::Failed
        },
        exit_code: out.exit_code,
        stdout: normalized_output(out.stdout),
        stderr: normalized_output(out.stderr),
        finished_at: Some(now),
        ..e
    }
}

/// The record after an explicit stop: a user-intent override that
/// forces a non-terminal record to `Stopped`; a terminal record is left
/// as it is.
pub open spec fn stopped_execution(e: ExecutionV) -> ExecutionV {
    ExecutionV {
        status: if is_terminal(e.status) {
            e.status
        } else {
            ExecutionStatus::Stopped
        },
        ..e
    }
}

/// What the embedding program reports right after attempting the spawn.
pub enum SpawnOutcome {
    Started(i32),
    Failed(String),
}

/// Spec-level mirror of [`SpawnOutcome`].
pub ghost enum SpawnOutcomeV {
    Started(i32),
    Failed(Seq<char>),
}

impl View for SpawnOutcome {
    type V = SpawnOutcomeV;

    open spec fn view(&self) -> SpawnOutcomeV {
        match self {
            SpawnOutcome::Started(pid) => SpawnOutcomeV::Started(*pid),
            SpawnOutcome::Failed(m) => SpawnOutcomeV::Failed(m@),
        }
    }
}

/// What [`ExecutionService::execute_plugin`] hands back: the created
/// record, the command to spawn, and the run's private working
/// directory, which the embedding program creates before the spawn and
/// whose removal the monitor triggers afterwards.
pub struct StartedExecution {
    pub execution: Execution,
    pub command: CommandSpec,
    pub work_dir: String,
}

/// The execution store and the engine around it.
pub struct ExecutionService {
    executions: Vec<Execution>,
    python_executor: PythonExecutor,
    node_executor: NodeExecutor,
    work_root: String,
}

impl View for ExecutionService {
    type V = Seq<ExecutionV>;

    closed spec fn view(&self) -> Seq<ExecutionV> {
        self.executions@.map_values(|e: Execution| e@)
    }
}

impl ExecutionService {
    /// The store invariant, as a predicate on the service.
    pub open spec fn wf(&self) -> bool {
        wf_executions(self@)
    }

    /// The directory all per-execution working directories live under.
    pub closed spec fn work_root(&self) -> Seq<char> {
        self.work_root@
    }

    /// The interpreter the Python-family executor launches.
    pub closed spec fn python_interpreter(&self) -> Seq<char> {
        self.python_executor.interpreter()
    }

    /// The interpreter the JavaScript-family executor launches.
    pub closed spec fn node_interpreter(&self) -> Seq<char> {
        self.node_executor.interpreter()
    }

    /// The interpreter selected for a runtime kind: a pure function of
    /// the plugin's kind.
    pub open spec fn interpreter_for(&self, kind: PluginType) -> Seq<char> {
        match kind {
            PluginType::Python => self.python_interpreter(),
            PluginType::JavaScript => self.node_interpreter(),
        }
    }

    /// An empty engine over the given working-directory root, with the
    /// default interpreters.
    pub fn new(work_root: String) -> (r: Self)
        ensures
            r@ == Seq::<ExecutionV>::empty(),
            r.wf(),
            r.work_root() == work_root@,
            r.python_interpreter() == "python3"@,
            r.node_interpreter() == "node"@,
    {
        let r = ExecutionService {
            executions: Vec::new(),
            python_executor: PythonExecutor::new(None),
            node_executor: NodeExecutor::new(None),
            work_root,
        };
        proof {
            assert(r@ =~= Seq::<ExecutionV>::empty());
        }
        r
    }

    /// The private working directory reserved for an execution
    /// identifier.
    pub fn work_dir_for(&self, execution_id: &str) -> (r: String)
        ensures
            r@ == join_path(self.work_root(), execution_id@),
    {
        crate::textspec::join_path_exec(self.work_root.as_str(), execution_id)
    }

    /// Index of the record with this identifier.
    fn find_index_by_id(&self, id: &str) -> (r: Option<usize>)
        ensures
            match r {
                Some(i) => i < self@.len() && self@[i as int].id == id@,
                None => !has_execution_id(self@, id@),
            },
    {
        let n = self.executions.len();
        let mut i: usize = 0;
        while i < n
            invariant
                i <= n,
                n == self.executions@.len(),
                self@.len() == n,
                forall|k: int| 0 <= k < n ==> (#[trigger] self@[k]) == self.executions@[k]@,
                forall|k: int| 0 <= k < i ==> (#[trigger] self@[k]).id != id@,
            decreases n - i,
        {
            if crate::textspec::str_eq(self.executions[i].id.as_str(), id) {
                return Some(i);
            }
            i += 1;
        }
        None
    }

    /// Starts one run of a plugin under a caller-chosen identifier and
    /// timestamp: the deterministic core of [`Self::execute_plugin`].
    /// An unknown plugin is `NotFound` and a disabled one `Disabled`,
    /// and neither leaves any record; otherwise a `Pending` record is
    /// appended and the command to spawn is handed back, its working
    /// directory private to this execution.
    pub fn execute_plugin_with_id(
        &mut self,
        plugins: &PluginService,
        plugin_id: &str,
        args: Vec<String>,
        env: Vec<(String, String)>,
        execution_id: String,
        now: i64,
    ) -> (r: Result<StartedExecution, AppError>)
        requires
            old(self).wf(),
            plugins.wf(),
        ensures
            final(self).wf(),
            final(self).work_root() == old(self).work_root(),
            final(self).python_interpreter() == old(self).python_interpreter(),
            final(self).node_interpreter() == old(self).node_interpreter(),
            !has_plugin_id(plugins@, plugin_id@) ==> r == Err::<StartedExecution, AppError>(
                AppError::NotFound,
            ),
            has_plugin_id(plugins@, plugin_id@) && !find_plugin(
                plugins@,
                plugin_id@,
            )->Some_0.enabled ==> r == Err::<StartedExecution, AppError>(AppError::Disabled),
            has_plugin_id(plugins@, plugin_id@) && find_plugin(
                plugins@,
                plugin_id@,
            )->Some_0.enabled ==> (r is Ok <==> !has_execution_id(old(self)@, execution_id@)),
            r is Err ==> final(self)@ == old(self)@,
            r matches Err(e) ==> (e == AppError::NotFound || e == AppError::Disabled || e@
                matches crate::errors::AppErrorV::AlreadyExists { .. }),
            r matches Ok(se) ==> {
                let p = find_plugin(plugins@, plugin_id@)->Some_0;
                &&& se.execution@ == pending_execution(execution_id@, plugin_id@, now)
                &&& final(self)@ == old(self)@.push(se.execution@)
                &&& se.work_dir@ == join_path(old(self).work_root(), execution_id@)
                &&& se.command@.program == old(self).interpreter_for(p.plugin_type)
                &&& se.command@.script_path == join_path(p.plugin_path, p.entry_point)
                &&& se.command@.args == args.deep_view()
                &&& se.command@.env == env.deep_view()
                &&& se.command@.work_dir == se.work_dir@
            },
    {
        let plugin = match plugins.get_plugin(plugin_id) {
            Ok(p) => p,
            Err(_) => { return Err(AppError::NotFound); },
        };
        if !plugin.enabled {
            return Err(AppError::Disabled);
        }
        if self.find_index_by_id(execution_id.as_str()).is_some() {
            proof {
                assert(has_execution_id(self@, execution_id@));
            }
            return Err(AppError::AlreadyExists(execution_id));
        }
        let work_dir = self.work_dir_for(execution_id.as_str());
        let command = match plugin.plugin_type {
            PluginType::Python => self.python_executor.build_command(
                &plugin,
                args,
                env,
                work_dir.as_str(),
            ),
            PluginType::JavaScript => self.node_executor.build_command(
                &plugin,
                args,
                env,
                work_dir.as_str(),
            ),
        };
        let record = Execution {
            id: execution_id,
            plugin_id: String::from_str(plugin_id),
            status: ExecutionStatus::Pending,
            pid: None,
            exit_code: None,
            stdout: None,
            stderr: None,
            started_at: now,
            finished_at: None,
        };
        let ghost pre = self@;
        let ghost rv = record@;
        let returned = clone_execution(&record);
        self.executions.push(record);
        proof {
            assert(self@ =~= pre.push(rv));
            assert forall|i: int, j: int|
                0 <= i < j < self@.len() implies (#[trigger] self@[i]).id
                != (#[trigger] self@[j]).id by {
                if j == pre.len() {
                    if self@[i].id == rv.id {
                        assert(has_execution_id(pre, rv.id));
                    }
                }
            }
        }
        Ok(StartedExecution { execution: returned, command, work_dir })
    }

    /// Starts one run of a plugin: generates a fresh identifier, stamps
    /// the present moment, and defers to [`Self::execute_plugin_with_id`].
    /// No record is left behind by any failure.
    pub fn execute_plugin(
        &mut self,
        plugins: &PluginService,
        plugin_id: &str,
        args: Vec<String>,
        env: Vec<(String, String)>,
    ) -> (r: Result<StartedExecution, AppError>)
        requires
            old(self).wf(),
            plugins.wf(),
        ensures
            final(self).wf(),
            final(self).work_root() == old(self).work_root(),
            !has_plugin_id(plugins@, plugin_id@) ==> r == Err::<StartedExecution, AppError>(
                AppError::NotFound,
            ),
            has_plugin_id(plugins@, plugin_id@) && !find_plugin(
                plugins@,
                plugin_id@,
            )->Some_0.enabled ==> r == Err::<StartedExecution, AppError>(AppError::Disabled),
            r is Err ==> final(self)@ == old(self)@,
            r matches Err(e) ==> (e == AppError::NotFound || e == AppError::Disabled || e@
                matches crate::errors::AppErrorV::AlreadyExists { .. }),
            r matches Ok(se) ==> {
                let p = find_plugin(plugins@, plugin_id@)->Some_0;
                &&& se.execution@.plugin_id == plugin_id@
                &&& se.execution@.status == ExecutionStatus::Pending
                &&& se.execution@.pid is None
                &&& se.execution@.finished_at is None
                &&& se.execution@.id.len() == 36
                &&& final(self)@ == old(self)@.push(se.execution@)
                &&& se.work_dir@ == join_path(old(self).work_root(), se.execution@.id)
                &&& se.command@.program == old(self).interpreter_for(p.plugin_type)
                &&& se.command@.script_path == join_path(p.plugin_path, p.entry_point)
                &&& se.command@.args == args.deep_view()
                &&& se.command@.env == env.deep_view()
                &&& se.command@.work_dir == se.work_dir@
            },
    {
        let execution_id = new_uuid();
        let now = now_timestamp();
        self.execute_plugin_with_id(plugins, plugin_id, args, env, execution_id, now)
    }

    /// Applies the spawn attempt's outcome. A successful spawn records
    /// the process id and moves a still-`Pending` record to `Running`;
    /// the id is recorded at most once, so a record that is no longer
    /// `Pending` (or already carries a pid) is left untouched. A failed
    /// spawn propagates the failure and leaves the record `Pending`
    /// permanently; the embedding program removes the working
    /// directory.
    pub fn record_spawn(&mut self, execution_id: &str, outcome: SpawnOutcome) -> (r: Result<
        (),
        AppError,
    >)
        requires
            old(self).wf(),
        ensures
            final(self).wf(),
            final(self).work_root() == old(self).work_root(),
            final(self).python_interpreter() == old(self).python_interpreter(),
            final(self).node_interpreter() == old(self).node_interpreter(),
            !has_execution_id(old(self)@, execution_id@) ==> r == Err::<(), AppError>(
                AppError::NotFound,
            ) && final(self)@ == old(self)@,
            has_execution_id(old(self)@, execution_id@) ==> {
                let idx = execution_index_of(old(self)@, execution_id@);
                let e = old(self)@[idx];
                match outcome@ {
                    SpawnOutcomeV::Started(pid) => {
                        &&& r is Ok
                        &&& (e.status == ExecutionStatus::Pending && e.pid is None
                            ==> final(self)@ == old(self)@.update(
                            idx,
                            ExecutionV {
                                status: ExecutionStatus::Running,
                                pid: Some(pid),
                                ..e
                            },
                        ))
                        &&& (!(e.status == ExecutionStatus::Pending && e.pid is None)
                            ==> final(self)@ == old(self)@)
                        &&& status_step(e.status, final(self)@[idx].status)
                    },
                    SpawnOutcomeV::Failed(m) => {
                        &&& r == Err::<(), AppError>(AppError::Execution(outcome->Failed_0))
                        &&& final(self)@ == old(self)@
                    },
                }
            },
    {
        let i = match self.find_index_by_id(execution_id) {
            Some(i) => i,
            None => { return Err(AppError::NotFound); },
        };
        let ghost pre = self@;
        proof {
            assert(has_execution_id(pre, execution_id@));
            let j = execution_index_of(pre, execution_id@);
            if j != i {
                assert(pre[j].id == pre[i as int].id);
            }
        }
        let pid = match outcome {
            SpawnOutcome::Started(pid) => pid,
            SpawnOutcome::Failed(m) => { return Err(AppError::Execution(m)); },
        };
        let still_pending = matches!(self.executions[i].status, ExecutionStatus::Pending)
            && self.executions[i].pid.is_none();
        if !still_pending {
            return Ok(());
        }
        let mut e = clone_execution(&self.executions[i]);
        e.status = ExecutionStatus::Running;
        e.pid = Some(pid);
        self.executions.set(i, e);
        proof {
            let idx = i as int;
            assert(self@ =~= pre.update(
                idx,
                ExecutionV { status: ExecutionStatus::Running, pid: Some(pid), ..pre[idx] },
            ));
            assert forall|k: int, l: int|
                0 <= k < l < self@.len() implies (#[trigger] self@[k]).id
                != (#[trigger] self@[l]).id by {
                assert(self@[k].id == pre[k].id);
                assert(self@[l].id == pre[l].id);
            }
        }
        Ok(())
    }

    /// Applies what the monitor observed once the process was waited
    /// on: the terminal status, the exit code and the captured output
    /// are fixed in one update, empty output recorded as no output. A
    /// record that already has a finish timestamp was finalized before
    /// and is left untouched; a record a stop made terminal keeps its
    /// `Stopped` status while output is still recorded.
    pub fn finalize_execution(&mut self, execution_id: &str, output: ExecutionOutput, now: i64) -> (
    r: Result<(), AppError>)
        requires
            old(self).wf(),
        ensures
            final(self).wf(),
            final(self).work_root() == old(self).work_root(),
            final(self).python_interpreter() == old(self).python_interpreter(),
            final(self).node_interpreter() == old(self).node_interpreter(),
            !has_execution_id(old(self)@, execution_id@) ==> r == Err::<(), AppError>(
                AppError::NotFound,
            ) && final(self)@ == old(self)@,
            has_execution_id(old(self)@, execution_id@) ==> {
                let idx = execution_index_of(old(self)@, execution_id@);
                let e = old(self)@[idx];
                &&& r is Ok
                &&& (e.finished_at is Some ==> final(self)@ == old(self)@)
                &&& (e.finished_at is None ==> final(self)@ == old(self)@.update(
                    idx,
                    finalized_execution(e, output@, now),
                ))
                &&& status_step(e.status, final(self)@[idx].status)
            },
    {
        let i = match self.find_index_by_id(execution_id) {
            Some(i) => i,
            None => { return Err(AppError::NotFound); },
        };
        let ghost pre = self@;
        proof {
            assert(has_execution_id(pre, execution_id@));
            let j = execution_index_of(pre, execution_id@);
            if j != i {
                assert(pre[j].id == pre[i as int].id);
            }
        }
        if self.executions[i].finished_at.is_some() {
            return Ok(());
        }
        let mut e = clone_execution(&self.executions[i]);
        let terminal = matches!(
            e.status,
            ExecutionStatus::Completed | ExecutionStatus::Failed | ExecutionStatus::Stopped
        );
        if !terminal {
            e.status = if output.exit_code == Some(0i32) {
                ExecutionStatus::Completed
            } else {
                ExecutionStatus::Failed
            };
        }
        e.exit_code = output.exit_code;
        e.stdout = if output.stdout.as_str().unicode_len() == 0 {
            None
        } else {
            Some(output.stdout)
        };
        e.stderr = if output.stderr.as_str().unicode_len() == 0 {
            None
        } else {
            Some(output.stderr)
        };
        e.finished_at = Some(now);
        let ghost ev = e@;
        self.executions.set(i, e);
        proof {
            let idx = i as int;
            assert(ev == finalized_execution(pre[idx], output@, now));
            assert(self@ =~= pre.update(idx, finalized_execution(pre[idx], output@, now)));
            assert forall|k: int, l: int|
                0 <= k < l < self@.len() implies (#[trigger] self@[k]).id
                != (#[trigger] self@[l]).id by {
                assert(self@[k].id == pre[k].id);
                assert(self@[l].id == pre[l].id);
            }
        }
        Ok(())
    }

    /// Forces a run to `Stopped`: a user-intent override, applied
    /// whether or not the process can still be terminated. The stored
    /// process id is handed back so the embedding program can
    /// best-effort-kill the process; a record already terminal keeps
    /// its status (stop does not revert a finished run). Unknown
    /// identifiers are `NotFound`.
    pub fn stop_execution(&mut self, execution_id: &str) -> (r: Result<Option<i32>, AppError>)
        requires
            old(self).wf(),
        ensures
            final(self).wf(),
            final(self).work_root() == old(self).work_root(),
            final(self).python_interpreter() == old(self).python_interpreter(),
            final(self).node_interpreter() == old(self).node_interpreter(),
            !has_execution_id(old(self)@, execution_id@) ==> r == Err::<Option<i32>, AppError>(
                AppError::NotFound,
            ) && final(self)@ == old(self)@,
            has_execution_id(old(self)@, execution_id@) ==> {
                let idx = execution_index_of(old(self)@, execution_id@);
                let e = old(self)@[idx];
                &&& r == Ok::<Option<i32>, AppError>(e.pid)
                &&& final(self)@ == old(self)@.update(idx, stopped_execution(e))
                &&& status_step(e.status, final(self)@[idx].status)
                &&& is_terminal(final(self)@[idx].status) || final(self)@[idx].status == e.status
            },
    {
        let i = match self.find_index_by_id(execution_id) {
            Some(i) => i,
            None => { return Err(AppError::NotFound); },
        };
        let ghost pre = self@;
        proof {
            assert(has_execution_id(pre, execution_id@));
            let j = execution_index_of(pre, execution_id@);
            if j != i {
                assert(pre[j].id == pre[i as int].id);
            }
        }
        let pid = self.executions[i].pid;
        let mut e = clone_execution(&self.executions[i]);
        let terminal = matches!(
            e.status,
            ExecutionStatus::Completed | ExecutionStatus::Failed | ExecutionStatus::Stopped
        );
        if !terminal {
            e.status = ExecutionStatus::Stopped;
        }
        let ghost ev = e@;
        self.executions.set(i, e);
        proof {
            let idx = i as int;
            assert(ev == stopped_execution(pre[idx]));
            assert(self@ =~= pre.update(idx, stopped_execution(pre[idx])));
            assert forall|k: int, l: int|
                0 <= k < l < self@.len() implies (#[trigger] self@[k]).id
                != (#[trigger] self@[l]).id by {
                assert(self@[k].id == pre[k].id);
                assert(self@[l].id == pre[l].id);
            }
        }
        Ok(pid)
    }

    /// The execution with this identifier; unknown identifiers are
    /// `NotFound`.
    pub fn get_execution(&self, id: &str) -> (r: Result<Execution, AppError>)
        requires
            self.wf(),
        ensures
            r is Ok <==> has_execution_id(self@, id@),
            r matches Ok(e) ==> Some(e@) == find_execution(self@, id@),
            r matches Err(e) ==> e == AppError::NotFound,
    {
        match self.find_index_by_id(id) {
            Some(i) => {
                let e = clone_execution(&self.executions[i]);
                proof {
                    assert(has_execution_id(self@, id@));
                    let j = execution_index_of(self@, id@);
                    if j != i {
                        assert(self@[j].id == self@[i as int].id);
                    }
                }
                Ok(e)
            },
            None => Err(AppError::NotFound),
        }
    }

    /// Every execution, in creation order.
    pub fn list_all_executions(&self) -> (r: Vec<Execution>)
        ensures
            r@.len() == self@.len(),
            forall|k: int| 0 <= k < r@.len() ==> (#[trigger] r@[k])@ == self@[k],
    {
        let n = self.executions.len();
        let mut out: Vec<Execution> = Vec::new();
        let mut i: usize = 0;
        while i < n
            invariant
                i <= n,
                n == self.executions@.len(),
                self@.len() == n,
                forall|k: int| 0 <= k < n ==> (#[trigger] self@[k]) == self.executions@[k]@,
                out@.len() == i,
                forall|k: int| 0 <= k < i ==> (#[trigger] out@[k])@ == self@[k],
            decreases n - i,
        {
            out.push(clone_execution(&self.executions[i]));
            i += 1;
        }
        out
    }

    /// The executions of one plugin, in creation order.
    pub fn list_executions_for(&self, plugin_id: &str) -> (r: Vec<Execution>)
        ensures
            r@.map_values(|e: Execution| e@) == executions_for(self@, plugin_id@),
    {
        let n = self.executions.len();
        let mut out: Vec<Execution> = Vec::new();
        let mut i: usize = 0;
        while i < n
            invariant
                i <= n,
                n == self.executions@.len(),
                self@.len() == n,
                forall|k: int| 0 <= k < n ==> (#[trigger] self@[k]) == self.executions@[k]@,
                out@.map_values(|e: Execution| e@) == executions_for(
                    self@.subrange(0, i as int),
                    plugin_id@,
                ),
            decreases n - i,
        {
            let ghost prefix = self@.subrange(0, i as int);
            let ghost prefix2 = self@.subrange(0, i + 1 as int);
            proof {
                assert(prefix2.drop_last() =~= prefix);
                assert(prefix2.last() == self@[i as int]);
            }
            if crate::textspec::str_eq(self.executions[i].plugin_id.as_str(), plugin_id) {
                out.push(clone_execution(&self.executions[i]));
                proof {
                    assert(out@.map_values(|e: Execution| e@) =~= executions_for(
                        prefix2,
                        plugin_id@,
                    ));
                }
            } else {
                proof {
                    assert(out@.map_values(|e: Execution| e@) =~= executions_for(
                        prefix2,
                        plugin_id@,
                    ));
                }
            }
            i += 1;
        }
        proof {
            assert(self@.subrange(0, n as int) =~= self@);
        }
        out
    }

    /// Every execution, optionally filtered to one plugin, in creation
    /// order.
    pub fn list_executions(&self, plugin_id: Option<&str>) -> (r: Vec<Execution>)
        ensures
            plugin_id is None ==> r@.len() == self@.len() && forall|k: int|
                0 <= k < r@.len() ==> (#[trigger] r@[k])@ == self@[k],
            plugin_id matches Some(pid) ==> r@.map_values(|e: Execution| e@) == executions_for(
                self@,
                pid@,
            ),
    {
        match plugin_id {
            Some(pid) => self.list_executions_for(pid),
            None => self.list_all_executions(),
        }
    }
}

/// The records that remain after one plugin's executions are removed,
/// in order.
pub open spec fn executions_without(s: Seq<ExecutionV>, plugin_id: Seq<char>) -> Seq<ExecutionV>
    decreases s.len(),
{
    if s.len() == 0 {
        Seq::empty()
    } else {
        let rest = executions_without(s.drop_last(), plugin_id);
        if s.last().plugin_id == plugin_id {
            rest
        } else {
            rest.push(s.last())
        }
    }
}

/// Removing one plugin's executions keeps a subsequence of the store:
/// every surviving record was stored before, and unique identifiers
/// stay unique.
pub proof fn lemma_executions_without_wf(s: Seq<ExecutionV>, plugin_id: Seq<char>)
    requires
        wf_executions(s),
    ensures
        wf_executions(executions_without(s, plugin_id)),
        forall|e: ExecutionV|
            #[trigger] executions_without(s, plugin_id).contains(e) ==> s.contains(e),
    decreases s.len(),
{
    if s.len() > 0 {
        let s0 = s.drop_last();
        assert(wf_executions(s0)) by {
            assert forall|i: int, j: int|
                0 <= i < j < s0.len() implies (#[trigger] s0[i]).id != (#[trigger] s0[j]).id by {
                assert(s0[i] == s[i] && s0[j] == s[j]);
            }
        }
        lemma_executions_without_wf(s0, plugin_id);
        let r0 = executions_without(s0, plugin_id);
        let r = executions_without(s, plugin_id);
        assert forall|e: ExecutionV| #[trigger] r.contains(e) implies s.contains(e) by {
            if r0.contains(e) {
                assert(s0.contains(e));
                let i = choose|i: int| 0 <= i < s0.len() && s0[i] == e;
                assert(s[i] == e);
            } else {
                assert(e == s.last());
                assert(s[s.len() - 1] == e);
            }
        }
        if s.last().plugin_id != plugin_id {
            assert forall|i: int, j: int|
                0 <= i < j < r.len() implies (#[trigger] r[i]).id != (#[trigger] r[j]).id by {
                if j == r.len() - 1 {
                    assert(r0.contains(r0[i]));
                    assert(s0.contains(r0[i]));
                    let k = choose|k: int| 0 <= k < s0.len() && s0[k] == r0[i];
                    assert(s[k] == r0[i]);
                    assert(s[k].id != s.last().id);
                }
            }
        }
    }
}

impl ExecutionService {
    /// Removes every execution of one plugin from the store: the
    /// cascade an uninstallation performs. Other plugins' records are
    /// kept, in order.
    pub fn remove_plugin_executions(&mut self, plugin_id: &str)
        requires
            old(self).wf(),
        ensures
            final(self).wf(),
            final(self).work_root() == old(self).work_root(),
            final(self).python_interpreter() == old(self).python_interpreter(),
            final(self).node_interpreter() == old(self).node_interpreter(),
            final(self)@ == executions_without(old(self)@, plugin_id@),
    {
        let n = self.executions.len();
        let mut out: Vec<Execution> = Vec::new();
        let mut i: usize = 0;
        while i < n
            invariant
                i <= n,
                n == self.executions@.len(),
                self@.len() == n,
                forall|k: int| 0 <= k < n ==> (#[trigger] self@[k]) == self.executions@[k]@,
                out@.map_values(|e: Execution| e@) == executions_without(
                    self@.subrange(0, i as int),
                    plugin_id@,
                ),
            decreases n - i,
        {
            let ghost prefix = self@.subrange(0, i as int);
            let ghost prefix2 = self@.subrange(0, i + 1 as int);
            proof {
                assert(prefix2.drop_last() =~= prefix);
                assert(prefix2.last() == self@[i as int]);
            }
            if !crate::textspec::str_eq(self.executions[i].plugin_id.as_str(), plugin_id) {
                out.push(clone_execution(&self.executions[i]));
            }
            proof {
                assert(out@.map_values(|e: Execution| e@) =~= executions_without(
                    prefix2,
                    plugin_id@,
                ));
            }
            i += 1;
        }
        proof {
            assert(self@.subrange(0, n as int) =~= self@);
        }
        self.executions = out;
        proof {
            lemma_executions_without_wf(old(self)@, plugin_id@);
        }
    }
}

/// The subsequence of records owned by one plugin, in order.
pub open spec fn executions_for(s: Seq<ExecutionV>, plugin_id: Seq<char>) -> Seq<ExecutionV>
    decreases s.len(),
{
    if s.len() == 0 {
        Seq::empty()
    } else {
        let rest = executions_for(s.drop_last(), plugin_id);
        if s.last().plugin_id == plugin_id {
            rest.push(s.last())
        } else {
            rest
        }
    }
}

/// Working directories are keyed by execution identifier, so two
/// distinct executions never share one: concurrent runs cannot collide
/// on filesystem state.
pub proof fn lemma_work_dirs_distinct(root: Seq<char>, id1: Seq<char>, id2: Seq<char>)
    requires
        id1 != id2,
    ensures
        join_path(root, id1) != join_path(root, id2),
{
    crate::textspec::lemma_join_path_injective(root, id1, id2);
}

} // verus!
