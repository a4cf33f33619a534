//! The shapes the HTTP control surface exchanges, and the conversions
//! from the stored records into them. (De)serialisation itself lives in
//! the embedding program; the field values are fixed here.

use vstd::prelude::*;

use crate::execution::{Execution, ExecutionStatus, ExecutionV};
use crate::params::PluginParameter;
use crate::plugin::{Plugin, PluginType, PluginV};
use crate::timefmt::{format_rfc3339, rfc3339_of};

verus! {

/// An installation request, as the control surface receives it.
pub struct InstallPluginRequest {
    pub name: String,
    pub version: String,
    pub plugin_type: String,
    pub description: String,
    pub author: String,
    pub package_url: String,
    pub entry_point: String,
    pub metadata: Option<String>,
    pub parameters: Option<Vec<PluginParameter>>,
}

/// A self-update request, as the control surface receives it.
pub struct UpdateRequest {
    pub package_url: String,
}

/// A self-update report, as the control surface answers it.
pub struct UpdateResponse {
    pub status: String,
    pub restart_required: bool,
    pub current_version: String,
    pub package_version: String,
}

/// The display name of a runtime kind.
pub open spec fn plugin_type_name(t: PluginType) -> Seq<char> {
    match t {
        PluginType::Python => "Python"@,
        PluginType::JavaScript => "JavaScript"@,
    }
}

/// The display name of an execution status.
pub open spec fn status_name(s: ExecutionStatus) -> Seq<char> {
    match s {
        ExecutionStatus::Pending => "Pending"@,
        ExecutionStatus::Running => "Running"@,
        ExecutionStatus::Completed => "Completed"@,
        ExecutionStatus::Failed => "Failed"@,
        ExecutionStatus::Stopped => "Stopped"@,
    }
}

/// A plugin record as the control surface presents it: the runtime
/// kind by name, the timestamps rendered, the install path withheld.
pub struct PluginResponse {
    pub id: String,
    pub name: String,
    pub version: String,
    pub plugin_type: String,
    pub description: String,
    pub author: String,
    pub entry_point: String,
    pub enabled: bool,
    pub created_at: String,
    pub updated_at: String,
}

/// Spec-level mirror of [`PluginResponse`].
pub ghost struct PluginResponseV {
    pub id: Seq<char>,
    pub name: Seq<char>,
    pub version: Seq<char>,
    pub plugin_type: Seq<char>,
    pub description: Seq<char>,
    pub author: Seq<char>,
    pub entry_point: Seq<char>,
    pub enabled: bool,
    pub created_at: Seq<char>,
    pub updated_at: Seq<char>,
}

impl View for PluginResponse {
    type V = PluginResponseV;

    open spec fn view(&self) -> PluginResponseV {
        PluginResponseV {
            id: self.id@,
            name: self.name@,
            version: self.version@,
            plugin_type: self.plugin_type@,
            description: self.description@,
            author: self.author@,
            entry_point: self.entry_point@,
            enabled: self.enabled,
            created_at: self.created_at@,
            updated_at: self.updated_at@,
        }
    }
}

/// The response a stored plugin renders to.
pub open spec fn plugin_response_of(p: PluginV) -> PluginResponseV {
    PluginResponseV {
        id: p.id,
        name: p.name,
        version: p.version,
        plugin_type: plugin_type_name(p.plugin_type),
        description: p.description,
        author: p.author,
        entry_point: p.entry_point,
        enabled: p.enabled,
        created_at: rfc3339_of(p.created_at),
        updated_at: rfc3339_of(p.updated_at),
    }
}

impl PluginResponse {
    /// Renders a stored plugin for the control surface.
    pub fn from_model(p: &Plugin) -> (r: PluginResponse)
        ensures
            r@ == plugin_response_of(p@),
    {
        PluginResponse {
            id: p.id.clone(),
            name: p.name.clone(),
            version: p.version.clone(),
            plugin_type: match p.plugin_type {
                PluginType::Python => String::from_str("Python"),
                PluginType::JavaScript => String::from_str("JavaScript"),
            },
            description: p.description.clone(),
            author: p.author.clone(),
            entry_point: p.entry_point.clone(),
            enabled: p.enabled,
            created_at: format_rfc3339(p.created_at),
            updated_at: format_rfc3339(p.updated_at),
        }
    }
}

/// The plugin list as the control surface presents it.
pub struct PluginsListResponse {
    pub data: Vec<PluginResponse>,
}

impl PluginsListResponse {
    /// Renders a list of stored plugins, in order.
    pub fn from_models(plugins: &Vec<Plugin>) -> (r: PluginsListResponse)
        ensures
            r.data@.len() == plugins@.len(),
            forall|k: int|
                0 <= k < plugins@.len() ==> (#[trigger] r.data@[k])@ == plugin_response_of(
                    plugins@[k]@,
                ),
    {
        let n = plugins.len();
        let mut data: Vec<PluginResponse> = Vec::new();
        let mut i: usize = 0;
        while i < n
            invariant
                i <= n,
                n == plugins@.len(),
                data@.len() == i,
                forall|k: int|
                    0 <= k < i ==> (#[trigger] data@[k])@ == plugin_response_of(plugins@[k]@),
            decreases n - i,
        {
            data.push(PluginResponse::from_model(&plugins[i]));
            i += 1;
        }
        PluginsListResponse { data }
    }
}

/// An execution record as the control surface presents it: the status
/// by name, timestamps as raw epoch seconds.
pub struct ExecutionResponse {
    pub id: String,
    pub plugin_id: String,
    pub status: String,
    pub pid: Option<i32>,
    pub exit_code: Option<i32>,
    pub stdout: Option<String>,
    pub stderr: Option<String>,
    pub started_at: i64,
    pub finished_at: Option<i64>,
}

/// Spec-level mirror of [`ExecutionResponse`].
pub ghost struct ExecutionResponseV {
    pub id: Seq<char>,
    pub plugin_id: Seq<char>,
    pub status: Seq<char>,
    pub pid: Option<i32>,
    pub exit_code: Option<i32>,
    pub stdout: Option<Seq<char>>,
    pub stderr: Option<Seq<char>>,
    pub started_at: i64,
    pub finished_at: Option<i64>,
}

impl View for ExecutionResponse {
    type V = ExecutionResponseV;

    open spec fn view(&self) -> ExecutionResponseV {
        ExecutionResponseV {
            id: self.id@,
            plugin_id: self.plugin_id@,
            status: self.status@,
            pid: self.pid,
            exit_code: self.exit_code,
            stdout: match &self.stdout {
                Some(s) => Some(s@),
                None => None,
            },
            stderr: match &self.stderr {
                Some(s) => Some(s@),
                None => None,
            },
            started_at: self.started_at,
            finished_at: self.finished_at,
        }
    }
}

/// The response a stored execution renders to.
pub open spec fn execution_response_of(e: ExecutionV) -> ExecutionResponseV {
    ExecutionResponseV {
        id: e.id,
        plugin_id: e.plugin_id,
        status: status_name(e.status),
        pid: e.pid,
        exit_code: e.exit_code,
        stdout: e.stdout,
        stderr: e.stderr,
        started_at: e.started_at,
        finished_at: e.finished_at,
    }
}

impl ExecutionResponse {
    /// Renders a stored execution for the control surface.
    pub fn from_model(e: &Execution) -> (r: ExecutionResponse)
        ensures
            r@ == execution_response_of(e@),
    {
        ExecutionResponse {
            id: e.id.clone(),
            plugin_id: e.plugin_id.clone(),
            status: match e.status {
                ExecutionStatus::Pending => String::from_str("Pending"),
                ExecutionStatus::Running => String::from_str("Running"),
                ExecutionStatus::Completed => String::from_str("Completed"),
                ExecutionStatus::Failed => String::from_str("Failed"),
                ExecutionStatus::Stopped => String::from_str("Stopped"),
            },
            pid: e.pid,
            exit_code: e.exit_code,
            stdout: match &e.stdout {
                Some(s) => Some(s.clone()),
                None => None,
            },
            stderr: match &e.stderr {
                Some(s) => Some(s.clone()),
                None => None,
            },
            started_at: e.started_at,
            finished_at: e.finished_at,
        }
    }
}

/// The execution list as the control surface presents it.
pub struct ExecutionsListResponse {
    pub data: Vec<ExecutionResponse>,
}

impl ExecutionsListResponse {
    /// Renders a list of stored executions, in order.
    pub fn from_models(executions: &Vec<Execution>) -> (r: ExecutionsListResponse)
        ensures
            r.data@.len() == executions@.len(),
            forall|k: int|
                0 <= k < executions@.len() ==> (#[trigger] r.data@[k])@ == execution_response_of(
                    executions@[k]@,
                ),
    {
        let n = executions.len();
        let mut data: Vec<ExecutionResponse> = Vec::new();
        let mut i: usize = 0;
        while i < n
            invariant
                i <= n,
                n == executions@.len(),
                data@.len() == i,
                forall|k: int|
                    0 <= k < i ==> (#[trigger] data@[k])@ == execution_response_of(
                        executions@[k]@,
                    ),
            decreases n - i,
        {
            data.push(ExecutionResponse::from_model(&executions[i]));
            i += 1;
        }
        ExecutionsListResponse { data }
    }
}

} // verus!
