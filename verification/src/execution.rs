//! The execution record and its status state machine:
//! `Pending -> Running -> {Completed | Failed}`, with `Stopped` reachable
//! from any non-terminal state through an explicit stop request, and
//! every terminal state a sink.

use vstd::prelude::*;

verus! {

/// The lifecycle state of one plugin run.
#[derive(Clone, Copy, Debug, PartialEq, Eq, Structural)]
pub enum ExecutionStatus {
    Pending,
    Running,
    Completed,
    Failed,
    Stopped,
}

/// A state no transition may leave.
pub open spec fn is_terminal(s: ExecutionStatus) -> bool {
    s == ExecutionStatus::Completed || s == ExecutionStatus::Failed || s
        == ExecutionStatus::Stopped
}

/// The transitions the engine is allowed to take in one step. `Running`
/// follows `Pending` when a process id is recorded; a monitor moves a
/// non-terminal record to `Completed` or `Failed`; an explicit stop moves
/// a non-terminal record to `Stopped`.
pub open spec fn status_step(pre: ExecutionStatus, post: ExecutionStatus) -> bool {
    ||| pre == post
    ||| (pre == ExecutionStatus::Pending && post == ExecutionStatus::Running)
    ||| (!is_terminal(pre) && (post == ExecutionStatus::Completed || post
        == ExecutionStatus::Failed || post == ExecutionStatus::Stopped))
}

/// Terminal states are sinks: no allowed step leaves one.
pub proof fn lemma_terminal_is_sink(pre: ExecutionStatus, post: ExecutionStatus)
    requires
        is_terminal(pre),
        status_step(pre, post),
    ensures
        post == pre,
{
}

/// One run of a plugin as a child process.
pub struct Execution {
    pub id: String,
    pub plugin_id: String,
    pub status: ExecutionStatus,
    pub pid: Option<i32>,
    pub exit_code: Option<i32>,
    pub stdout: Option<String>,
    pub stderr: Option<String>,
    pub started_at: i64,
    pub finished_at: Option<i64>,
}

/// Spec-level mirror of [`Execution`].
pub ghost struct ExecutionV {
    pub id: Seq<char>,
    pub plugin_id: Seq<char>,
    pub status: ExecutionStatus,
    pub pid: Option<i32>,
    pub exit_code: Option<i32>,
    pub stdout: Option<Seq<char>>,
    pub stderr: Option<Seq<char>>,
    pub started_at: i64,
    pub finished_at: Option<i64>,
}

impl View for Execution {
    type V = ExecutionV;

    open spec fn view(&self) -> ExecutionV {
        ExecutionV {
            id: self.id@,
            plugin_id: self.plugin_id@,
            status: self.status,
            pid: self.pid,
            exit_code: self.exit_code,
            stdout: match &self.stdout {
                Some(s) => Some(s@),
                None => None,
            },
            stderr: match &self.stderr {
                Some(s) => Some(s@),
                None => None,
            },
            started_at: self.started_at,
            finished_at: self.finished_at,
        }
    }
}

/// A duplicate of an execution record.
pub fn clone_execution(e: &Execution) -> (r: Execution)
    ensures
        r@ == e@,
{
    Execution {
        id: e.id.clone(),
        plugin_id: e.plugin_id.clone(),
        status: e.status,
        pid: e.pid,
        exit_code: e.exit_code,
        stdout: match &e.stdout {
            Some(s) => Some(s.clone()),
            None => None,
        },
        stderr: match &e.stderr {
            Some(s) => Some(s.clone()),
            None => None,
        },
        started_at: e.started_at,
        finished_at: e.finished_at,
    }
}

} // verus!
