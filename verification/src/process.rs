//! Process sessions: the OS processes that tool calls start, from
//! starting through running to exited or failed.
use vstd::prelude::*;
use crate::error::AgentOsError;
use crate::state::KernelState;
use crate::text::str_eq;

verus! {

/// How a command is run.
#[derive(Debug, Clone, Copy, PartialEq, Eq, Structural)]
pub enum ProcessCommandMode {
    Argv,
    Shell,
}

/// Whether the process has a terminal.
#[derive(Debug, Clone, Copy, PartialEq, Eq, Structural)]
pub enum ProcessTtyMode {
    NoTty,
    Pty,
}

/// Whether the process can be written to.
#[derive(Debug, Clone, Copy, PartialEq, Eq, Structural)]
pub enum ProcessStdinMode {
    Closed,
    Piped,
}

/// Where a process is in its life.
#[derive(Debug, Clone, Copy, PartialEq, Eq, Structural)]
pub enum ProcessLifecycleState {
    Starting,
    Running,
    Exited,
    Failed,
}

/// Which output stream.
#[derive(Debug, Clone, Copy, PartialEq, Eq, Structural)]
pub enum ProcessOutputStreamName {
    Stdout,
    Stderr,
}

/// What is known of one output stream of a process.
#[derive(Debug)]
pub struct ProcessOutputStream {
    pub name: ProcessOutputStreamName,
    pub sequence: u64,
    pub bytes: u64,
    pub cursor: u64,
    pub truncated: bool,
    pub spool_path: Option<String>,
}

/// What a tool call gives to start a process.
#[derive(Debug)]
pub struct StartProcessSessionInput {
    pub tool_call_id: String,
    pub agent_id: String,
    pub thread_id: String,
    pub task_id: String,
    pub session_id: String,
    pub syscall_id: String,
    pub capability_id: Option<String>,
    pub workspace_root: String,
    pub cwd: String,
    pub command_mode: ProcessCommandMode,
    pub command: String,
    pub args: Vec<String>,
    pub executed_program: String,
    pub executed_args: Vec<String>,
    pub environment_keys: Vec<String>,
}

/// A process session.
#[derive(Debug)]
pub struct ProcessSession {
    pub process_id: String,
    pub input: StartProcessSessionInput,
    pub tty_mode: ProcessTtyMode,
    pub stdin_mode: ProcessStdinMode,
    pub os_pid: Option<u32>,
    pub state: ProcessLifecycleState,
    pub exit_code: Option<i32>,
    pub error: Option<String>,
    pub stdout: ProcessOutputStream,
    pub stderr: ProcessOutputStream,
    pub started_at: String,
    pub updated_at: String,
    pub completed_at: Option<String>,
}

pub open spec fn has_process(ps: Seq<ProcessSession>, id: Seq<char>) -> bool {
    exists|i: int| 0 <= i < ps.len() && ps[i].process_id@ == id
}

pub open spec fn process_pos(ps: Seq<ProcessSession>, id: Seq<char>) -> int {
    choose|i: int| 0 <= i < ps.len() && ps[i].process_id@ == id
}

pub open spec fn process_ids_unique(ps: Seq<ProcessSession>) -> bool {
    forall|i: int, j: int| 0 <= i < ps.len() && 0 <= j < ps.len() && #[trigger] ps[i].process_id@ == #[trigger] ps[j].process_id@ ==> i == j
}

/// An output stream with nothing in it yet.
pub open spec fn empty_stream(s: ProcessOutputStream, name: ProcessOutputStreamName) -> bool {
    s == ProcessOutputStream { name, sequence: 0, bytes: 0, cursor: 0, truncated: false, spool_path: None }
}

/// `after` is `before` with process `k` replaced by `p` and nothing else
/// changed.
pub open spec fn process_replaced(before: KernelState, after: KernelState, k: int, p: ProcessSession) -> bool {
    &&& 0 <= k < before.process_sessions@.len()
    &&& after.process_sessions@ == before.process_sessions@.update(k, p)
    &&& after == (KernelState { process_sessions: after.process_sessions, ..before })
}

fn empty_process_stream(name: ProcessOutputStreamName) -> (r: ProcessOutputStream)
    ensures
        empty_stream(r, name),
{
    ProcessOutputStream { name, sequence: 0, bytes: 0, cursor: 0, truncated: false, spool_path: None }
}

impl KernelState {
    /// The position of process `id`, if any.
    pub fn find_process(&self, id: &str) -> (r: Option<usize>)
        requires
            process_ids_unique(self.process_sessions@),
        ensures
            r.is_none() <==> !has_process(self.process_sessions@, id@),
            r matches Some(i) ==> i == process_pos(self.process_sessions@, id@) && i < self.process_sessions@.len(),
    {
        let mut i: usize = 0;
        while i < self.process_sessions.len()
            invariant
                i <= self.process_sessions@.len(),
                process_ids_unique(self.process_sessions@),
                forall|j: int| 0 <= j < i ==> self.process_sessions@[j].process_id@ != id@,
            decreases self.process_sessions@.len() - i,
        {
            if str_eq(self.process_sessions[i].process_id.as_str(), id) {
                proof {
                    let k = process_pos(self.process_sessions@, id@);
                    assert(self.process_sessions@[k].process_id@ == self.process_sessions@[i as int].process_id@);
                }
                return Some(i);
            }
            i = i + 1;
        }
        None
    }

    /// Records process `process_id` starting at `now` for `input`: no
    /// terminal, stdin closed, empty output streams.
    pub fn start_process_session(&mut self, input: StartProcessSessionInput, process_id: String, now: String)
        requires
            old(self).wf(),
            !has_process(old(self).process_sessions@, process_id@),
        ensures
            final(self).wf(),
            ({
                let p = final(self).process_sessions@.last();
                &&& final(self).process_sessions@ == old(self).process_sessions@.push(p)
                &&& p.process_id == process_id
                &&& p.input == input
                &&& p.tty_mode == ProcessTtyMode::NoTty
                &&& p.stdin_mode == ProcessStdinMode::Closed
                &&& p.os_pid is None
                &&& p.state == ProcessLifecycleState::Starting
                &&& p.exit_code is None
                &&& p.error is None
                &&& empty_stream(p.stdout, ProcessOutputStreamName::Stdout)
                &&& empty_stream(p.stderr, ProcessOutputStreamName::Stderr)
                &&& p.started_at == now
                &&& p.updated_at == now
                &&& p.completed_at is None
                &&& *final(self) == (KernelState { process_sessions: final(self).process_sessions, ..*old(self) })
            }),
    {
        let session = ProcessSession {
            process_id,
            input,
            tty_mode: ProcessTtyMode::NoTty,
            stdin_mode: ProcessStdinMode::Closed,
            os_pid: None,
            state: ProcessLifecycleState::Starting,
            exit_code: None,
            error: None,
            stdout: empty_process_stream(ProcessOutputStreamName::Stdout),
            stderr: empty_process_stream(ProcessOutputStreamName::Stderr),
            started_at: now.clone(),
            updated_at: now,
            completed_at: None,
        };
        let ghost before = self.process_sessions@;
        self.process_sessions.push(session);
        proof {
            assert forall|a: int, b: int|
                0 <= a < self.process_sessions@.len() && 0 <= b < self.process_sessions@.len()
                    && #[trigger] self.process_sessions@[a].process_id@ == #[trigger] self.process_sessions@[b].process_id@
                implies a == b by {
                if a < before.len() {
                    assert(self.process_sessions@[a] == before[a]);
                }
                if b < before.len() {
                    assert(self.process_sessions@[b] == before[b]);
                }
                if a < before.len() && b == before.len() {
                    assert(before[a].process_id@ == process_id@);
                    assert(has_process(before, process_id@));
                }
                if b < before.len() && a == before.len() {
                    assert(before[b].process_id@ == process_id@);
                    assert(has_process(before, process_id@));
                }
            }
        }
    }

    fn take_process(&mut self, process_id: &str) -> (r: Result<(usize, ProcessSession), AgentOsError>)
        requires
            old(self).wf(),
        ensures
            !has_process(old(self).process_sessions@, process_id@) ==> r == Err::<(usize, ProcessSession), AgentOsError>(
                AgentOsError::NotFound("process session"),
            ) && *final(self) == *old(self) && final(self).wf(),
            has_process(old(self).process_sessions@, process_id@) ==> (r matches Ok((k, p)) && k as int == process_pos(
                old(self).process_sessions@,
                process_id@,
            ) && k < old(self).process_sessions@.len() && p == old(self).process_sessions@[k as int]
                && final(self).process_sessions@ == old(self).process_sessions@.remove(k as int) && *final(self) == (KernelState {
                process_sessions: final(self).process_sessions,
                ..*old(self)
            })),
    {
        let k = match self.find_process(process_id) {
            None => return Err(AgentOsError::NotFound("process session")),
            Some(k) => k,
        };
        let p = self.process_sessions.remove(k);
        Ok((k, p))
    }

    /// Process `process_id` is running at `now` as OS process `os_pid`,
    /// its streams spooled to the given paths. An unknown process is
    /// `NotFound`.
    pub fn mark_process_session_running(
        &mut self,
        process_id: &str,
        os_pid: Option<u32>,
        stdout_spool_path: Option<String>,
        stderr_spool_path: Option<String>,
        now: String,
    ) -> (r: Result<(), AgentOsError>)
        requires
            old(self).wf(),
        ensures
            final(self).wf(),
            !has_process(old(self).process_sessions@, process_id@) ==> r == Err::<(), AgentOsError>(
                AgentOsError::NotFound("process session"),
            ) && *final(self) == *old(self),
            has_process(old(self).process_sessions@, process_id@) ==> {
                let k = process_pos(old(self).process_sessions@, process_id@);
                let p0 = old(self).process_sessions@[k];
                &&& r is Ok
                &&& process_replaced(*old(self), *final(self), k, ProcessSession {
                    state: ProcessLifecycleState::Running,
                    os_pid,
                    stdout: ProcessOutputStream { spool_path: stdout_spool_path, ..p0.stdout },
                    stderr: ProcessOutputStream { spool_path: stderr_spool_path, ..p0.stderr },
                    updated_at: now,
                    ..p0
                })
            },
    {
        let (k, mut p) = match self.take_process(process_id) {
            Err(e) => return Err(e),
            Ok(x) => x,
        };
        p.state = ProcessLifecycleState::Running;
        p.os_pid = os_pid;
        p.stdout.spool_path = stdout_spool_path;
        p.stderr.spool_path = stderr_spool_path;
        p.updated_at = now;
        self.process_sessions.insert(k, p);
        proof {
            assert(self.process_sessions@ =~= old(self).process_sessions@.update(k as int, p));
            assert forall|a: int, b: int|
                0 <= a < self.process_sessions@.len() && 0 <= b < self.process_sessions@.len()
                    && #[trigger] self.process_sessions@[a].process_id@ == #[trigger] self.process_sessions@[b].process_id@
                implies a == b by {
                assert(self.process_sessions@[a].process_id@ == old(self).process_sessions@[a].process_id@);
                assert(self.process_sessions@[b].process_id@ == old(self).process_sessions@[b].process_id@);
            }
        }
        Ok(())
    }

    /// Process `process_id` exited at `now` with `exit_code`, its streams
    /// as given. An unknown process is `NotFound`.
    pub fn exit_process_session(
        &mut self,
        process_id: &str,
        exit_code: Option<i32>,
        stdout: ProcessOutputStream,
        stderr: ProcessOutputStream,
        now: String,
    ) -> (r: Result<(), AgentOsError>)
        requires
            old(self).wf(),
        ensures
            final(self).wf(),
            !has_process(old(self).process_sessions@, process_id@) ==> r == Err::<(), AgentOsError>(
                AgentOsError::NotFound("process session"),
            ) && *final(self) == *old(self),
            has_process(old(self).process_sessions@, process_id@) ==> {
                let k = process_pos(old(self).process_sessions@, process_id@);
                &&& r is Ok
                &&& process_replaced(*old(self), *final(self), k, ProcessSession {
                    state: ProcessLifecycleState::Exited,
                    exit_code,
                    stdout,
                    stderr,
                    updated_at: now,
                    completed_at: Some(now),
                    ..old(self).process_sessions@[k]
                })
            },
    {
        let (k, mut p) = match self.take_process(process_id) {
            Err(e) => return Err(e),
            Ok(x) => x,
        };
        p.state = ProcessLifecycleState::Exited;
        p.exit_code = exit_code;
        p.stdout = stdout;
        p.stderr = stderr;
        p.updated_at = now.clone();
        p.completed_at = Some(now);
        self.process_sessions.insert(k, p);
        proof {
            assert(self.process_sessions@ =~= old(self).process_sessions@.update(k as int, p));
            assert forall|a: int, b: int|
                0 <= a < self.process_sessions@.len() && 0 <= b < self.process_sessions@.len()
                    && #[trigger] self.process_sessions@[a].process_id@ == #[trigger] self.process_sessions@[b].process_id@
                implies a == b by {
                assert(self.process_sessions@[a].process_id@ == old(self).process_sessions@[a].process_id@);
                assert(self.process_sessions@[b].process_id@ == old(self).process_sessions@[b].process_id@);
            }
        }
        Ok(())
    }

    /// Process `process_id` failed at `now` with `error`. An unknown
    /// process is `NotFound`.
    pub fn fail_process_session(&mut self, process_id: &str, error: String, now: String) -> (r: Result<(), AgentOsError>)
        requires
            old(self).wf(),
        ensures
            final(self).wf(),
            !has_process(old(self).process_sessions@, process_id@) ==> r == Err::<(), AgentOsError>(
                AgentOsError::NotFound("process session"),
            ) && *final(self) == *old(self),
            has_process(old(self).process_sessions@, process_id@) ==> {
                let k = process_pos(old(self).process_sessions@, process_id@);
                &&& r is Ok
                &&& process_replaced(*old(self), *final(self), k, ProcessSession {
                    state: ProcessLifecycleState::Failed,
                    error: Some(error),
                    updated_at: now,
                    completed_at: Some(now),
                    ..old(self).process_sessions@[k]
                })
            },
    {
        let (k, mut p) = match self.take_process(process_id) {
            Err(e) => return Err(e),
            Ok(x) => x,
        };
        p.state = ProcessLifecycleState::Failed;
        p.error = Some(error);
        p.updated_at = now.clone();
        p.completed_at = Some(now);
        self.process_sessions.insert(k, p);
        proof {
            assert(self.process_sessions@ =~= old(self).process_sessions@.update(k as int, p));
            assert forall|a: int, b: int|
                0 <= a < self.process_sessions@.len() && 0 <= b < self.process_sessions@.len()
                    && #[trigger] self.process_sessions@[a].process_id@ == #[trigger] self.process_sessions@[b].process_id@
                implies a == b by {
                assert(self.process_sessions@[a].process_id@ == old(self).process_sessions@[a].process_id@);
                assert(self.process_sessions@[b].process_id@ == old(self).process_sessions@[b].process_id@);
            }
        }
        Ok(())
    }

    /// The position of the first process started by tool call
    /// `tool_call_id`, if any.
    pub fn process_session_by_tool_call_id(&self, tool_call_id: &str) -> (r: Option<usize>)
        ensures
            match r {
                Some(i) => i < self.process_sessions@.len() && self.process_sessions@[i as int].input.tool_call_id@
                    == tool_call_id@ && forall|j: int| 0 <= j < i ==> self.process_sessions@[j].input.tool_call_id@
                    != tool_call_id@,
                None => forall|j: int| 0 <= j < self.process_sessions@.len() ==> self.process_sessions@[j].input.tool_call_id@
                    != tool_call_id@,
            },
    {
        let mut i: usize = 0;
        while i < self.process_sessions.len()
            invariant
                i <= self.process_sessions@.len(),
                forall|j: int| 0 <= j < i ==> self.process_sessions@[j].input.tool_call_id@ != tool_call_id@,
            decreases self.process_sessions@.len() - i,
        {
            if str_eq(self.process_sessions[i].input.tool_call_id.as_str(), tool_call_id) {
                return Some(i);
            }
            i = i + 1;
        }
        None
    }
}

} // verus!
