//! Executor variants, one per runtime kind. An executor turns a plugin
//! and an invocation into the concrete command the embedding program
//! spawns: interpreter binary, script path, arguments, environment and
//! working directory. Selection of the variant is a pure function of
//! the plugin's runtime kind.

use vstd::prelude::*;

use crate::plugin::Plugin;
use crate::textspec::{join_path, join_path_exec};

verus! {

broadcast use vstd::string::group_string_axioms;

/// What a finished process left behind: the drained output pipes and
/// the exit code (absent when the process died without one, or when
/// waiting on it failed).
pub struct ExecutionOutput {
    pub stdout: String,
    pub stderr: String,
    pub exit_code: Option<i32>,
}

/// Spec-level mirror of [`ExecutionOutput`].
pub ghost struct ExecutionOutputV {
    pub stdout: Seq<char>,
    pub stderr: Seq<char>,
    pub exit_code: Option<i32>,
}

impl View for ExecutionOutput {
    type V = ExecutionOutputV;

    open spec fn view(&self) -> ExecutionOutputV {
        ExecutionOutputV {
            stdout: self.stdout@,
            stderr: self.stderr@,
            exit_code: self.exit_code,
        }
    }
}

/// The command an execution spawns: the interpreter binary, the resolved
/// script path as its first argument, the caller's arguments after it,
/// the environment entries to merge into the process environment, and
/// the working directory to run in. Standard output and standard error
/// are to be captured as pipes, not inherited.
pub struct CommandSpec {
    pub program: String,
    pub script_path: String,
    pub args: Vec<String>,
    pub env: Vec<(String, String)>,
    pub work_dir: String,
}

/// Spec-level mirror of [`CommandSpec`].
pub ghost struct CommandSpecV {
    pub program: Seq<char>,
    pub script_path: Seq<char>,
    pub args: Seq<Seq<char>>,
    pub env: Seq<(Seq<char>, Seq<char>)>,
    pub work_dir: Seq<char>,
}

impl View for CommandSpec {
    type V = CommandSpecV;

    open spec fn view(&self) -> CommandSpecV {
        CommandSpecV {
            program: self.program@,
            script_path: self.script_path@,
            args: self.args.deep_view(),
            env: self.env.deep_view(),
            work_dir: self.work_dir@,
        }
    }
}

/// One runtime kind's way of launching a plugin.
pub trait PluginExecutor {
    /// The interpreter binary this executor launches.
    spec fn interpreter(&self) -> Seq<char>;

    /// The command for running `plugin`'s entry point, resolved against
    /// its install directory, with the given arguments and environment,
    /// in the given working directory.
    fn build_command(
        &self,
        plugin: &Plugin,
        args: Vec<String>,
        env: Vec<(String, String)>,
        work_dir: &str,
    ) -> (r: CommandSpec)
        ensures
            r@.program == self.interpreter(),
            r@.script_path == join_path(plugin.plugin_path@, plugin.entry_point@),
            r@.args == args.deep_view(),
            r@.env == env.deep_view(),
            r@.work_dir == work_dir@,
    ;
}

/// The executor for the Python-family runtime kind.
pub struct PythonExecutor {
    python_path: String,
}

impl PythonExecutor {
    /// An executor around the given interpreter binary, or the default
    /// `python3` when none is configured.
    pub fn new(python_path: Option<String>) -> (r: Self)
        ensures
            r.interpreter() == match python_path {
                Some(p) => p@,
                None => "python3"@,
            },
    {
        PythonExecutor {
            python_path: match python_path {
                Some(p) => p,
                None => String::from_str("python3"),
            },
        }
    }
}

impl PluginExecutor for PythonExecutor {
    closed spec fn interpreter(&self) -> Seq<char> {
        self.python_path@
    }

    fn build_command(
        &self,
        plugin: &Plugin,
        args: Vec<String>,
        env: Vec<(String, String)>,
        work_dir: &str,
    ) -> (r: CommandSpec) {
        CommandSpec {
            program: self.python_path.clone(),
            script_path: join_path_exec(plugin.plugin_path.as_str(), plugin.entry_point.as_str()),
            args,
            env,
            work_dir: String::from_str(work_dir),
        }
    }
}

/// The executor for the JavaScript-family runtime kind.
pub struct NodeExecutor {
    node_path: String,
}

impl NodeExecutor {
    /// An executor around the given interpreter binary, or the default
    /// `node` when none is configured.
    pub fn new(node_path: Option<String>) -> (r: Self)
        ensures
            r.interpreter() == match node_path {
                Some(p) => p@,
                None => "node"@,
            },
    {
        NodeExecutor {
            node_path: match node_path {
                Some(p) => p,
                None => String::from_str("node"),
            },
        }
    }
}

impl PluginExecutor for NodeExecutor {
    closed spec fn interpreter(&self) -> Seq<char> {
        self.node_path@
    }

    fn build_command(
        &self,
        plugin: &Plugin,
        args: Vec<String>,
        env: Vec<(String, String)>,
        work_dir: &str,
    ) -> (r: CommandSpec) {
        CommandSpec {
            program: self.node_path.clone(),
            script_path: join_path_exec(plugin.plugin_path.as_str(), plugin.entry_point.as_str()),
            args,
            env,
            work_dir: String::from_str(work_dir),
        }
    }
}

} // verus!
