//! The supervisor of one worker process: whether it runs, the handle that
//! owns it, and the commands sent to it.
//!
//! The handle type `P` is whatever the host spawns; this module never acts
//! on it. Starting runs in steps that the host performs in between: ask the
//! bridge where to look for the script, probe those places, build the
//! command line, spawn, and hand the process back with `attach`. Stopping
//! gives the process back to the host, with the command that asks it to
//! quit, to kill it after the grace interval.
use vstd::prelude::*;
use vstd::string::*;
use crate::launch::{FsPath, candidate_names, script_for, found, script_name, script_candidates, first_found};
use crate::protocol::{ExecutorCommand, is_text_object, is_uuid_text, text_object};

verus! {

/// How long a stopping worker gets to quit on its own before it is killed,
/// in milliseconds.
pub const STOP_GRACE_MS: u64 = 500;

/// Why an operation on the bridge failed. The first two say that the
/// bridge's state refused the operation; the others that the environment
/// failed it.
#[derive(Clone, Debug)]
pub enum BridgeError {
    AlreadyRunning,
    NotRunning,
    /// The worker script, by name, is in none of the places looked at.
    ScriptNotFound(String),
    SpawnError(String),
    WriteError(String),
    FlushError(String),
    /// Killing the worker, or waiting for it to end, failed.
    StopError(String),
}

/// The message that the host shows for an error.
pub open spec fn error_message(e: BridgeError) -> Seq<char> {
    match e {
        BridgeError::AlreadyRunning => "Python process already running"@,
        BridgeError::NotRunning => "Python process not running"@,
        BridgeError::ScriptNotFound(s) => "Python bridge script "@ + s@
            + " not found in any expected location"@,
        BridgeError::SpawnError(m) => "Failed to start Python process: "@ + m@,
        BridgeError::WriteError(m) => "Failed to send command: "@ + m@,
        BridgeError::FlushError(m) => "Failed to flush stdin: "@ + m@,
        BridgeError::StopError(m) => m@,
    }
}

impl BridgeError {
    pub fn message(&self) -> (r: String)
        ensures
            r@ == error_message(*self),
    {
        match self {
            BridgeError::AlreadyRunning => String::from_str("Python process already running"),
            BridgeError::NotRunning => String::from_str("Python process not running"),
            BridgeError::ScriptNotFound(s) => {
                let mut out = String::from_str("Python bridge script ");
                out.append(s.as_str());
                out.append(" not found in any expected location");
                out
            },
            BridgeError::SpawnError(m) => String::from_str("Failed to start Python process: ").concat(
                m.as_str(),
            ),
            BridgeError::WriteError(m) => String::from_str("Failed to send command: ").concat(
                m.as_str(),
            ),
            BridgeError::FlushError(m) => String::from_str("Failed to flush stdin: ").concat(
                m.as_str(),
            ),
            BridgeError::StopError(m) => m.clone(),
        }
    }
}

/// Where to look for the script of one start, in the order of trying.
#[derive(Clone, Debug)]
pub struct ScriptSearch {
    pub executor_type: String,
    pub script: String,
    pub candidates: Vec<FsPath>,
}

impl ScriptSearch {
    /// The first place that the probe found. Entry `i` of `exists` tells
    /// whether candidate `i` exists; a missing entry counts as no.
    pub fn resolve(&self, exists: &Vec<bool>) -> (r: Result<FsPath, BridgeError>)
        ensures
            r is Err <==> forall|i: int| 0 <= i < self.candidates@.len() ==> !found(exists@, i),
            r matches Err(e) ==> e matches BridgeError::ScriptNotFound(s) && s@ == self.script@,
            r matches Ok(p) ==> exists|i: int|
                0 <= i < self.candidates@.len() && found(exists@, i) && p@ == self.candidates@[i]@
                    && forall|j: int| 0 <= j < i ==> !found(exists@, j),
    {
        match first_found(&self.candidates, exists) {
            Some(i) => {
                let c = &self.candidates[i];
                let p = FsPath { root: c.root.clone(), parts: c.parts.clone() };
                assert(p@ =~= self.candidates@[i as int]@);
                Ok(p)
            },
            None => Err(BridgeError::ScriptNotFound(self.script.clone())),
        }
    }
}

/// What stopping hands back to the host: the process, the command that asks
/// it to quit, and how long to wait before killing it.
#[derive(Debug)]
pub struct Shutdown<P> {
    pub process: P,
    pub stop_command: ExecutorCommand,
    pub grace_ms: u64,
}

/// One worker process and the state that goes with it. The bridge runs
/// exactly while it holds a process handle.
#[derive(Debug)]
pub struct PythonBridge<P> {
    process: Option<P>,
}

/// What `start` gives on a bridge in a given state: refused while it runs.
pub open spec fn start_outcome<P>(b: PythonBridge<P>) -> Result<(), BridgeError> {
    if b.running() {
        Err(BridgeError::AlreadyRunning)
    } else {
        Ok(())
    }
}

/// What `send` gives on a bridge in a given state: refused unless it runs.
pub open spec fn send_outcome<P>(b: PythonBridge<P>) -> Result<(), BridgeError> {
    if b.running() {
        Ok(())
    } else {
        Err(BridgeError::NotRunning)
    }
}

/// What a stop does: the bridge holds no process after it, whatever held
/// before. A bridge that ran hands its process back with a `stop` command
/// and the grace interval; one that did not run is left as it was.
pub open spec fn stopped_as<P>(before: PythonBridge<P>, after: PythonBridge<P>, r: Option<Shutdown<P>>) -> bool {
    stopped_with(before, after, r, STOP_GRACE_MS)
}

/// What a stop with a given grace interval does.
pub open spec fn stopped_with<P>(before: PythonBridge<P>, after: PythonBridge<P>, r: Option<Shutdown<P>>, grace_ms: u64) -> bool {
    &&& after.held() is None
    &&& match r {
        Some(s) => {
            &&& before.running()
            &&& s.process == before.held()->0
            &&& is_command(s.stop_command, "stop"@)
            &&& s.stop_command.params is None
            &&& s.grace_ms == grace_ms
        },
        None => !before.running() && after == before,
    }
}

/// Whether a command is a fresh one with the given name.
pub open spec fn is_command(c: ExecutorCommand, name: Seq<char>) -> bool {
    &&& c.cmd_type@ == "command"@
    &&& c.command@ == name
    &&& is_uuid_text(c.id@)
}

/// The result of a send on a bridge: refused unless it runs, else the
/// command with the given name and a payload that `params_ok` accepts.
pub open spec fn sent<P>(
    b: PythonBridge<P>,
    r: Result<ExecutorCommand, BridgeError>,
    name: Seq<char>,
    params_ok: spec_fn(Option<serde_json::Value>) -> bool,
) -> bool {
    match r {
        Ok(c) => b.running() && is_command(c, name) && params_ok(c.params),
        Err(e) => !b.running() && e == BridgeError::NotRunning,
    }
}

impl<P> PythonBridge<P> {
    /// The process handle that the bridge holds, if any.
    pub closed spec fn held(&self) -> Option<P> {
        self.process
    }

    pub open spec fn running(&self) -> bool {
        self.held() is Some
    }

    /// A bridge that runs nothing.
    pub fn new() -> (r: Self)
        ensures
            r.held() is None,
    {
        PythonBridge { process: None }
    }

    /// Whether a worker was started and not stopped since. This is what the
    /// bridge tracks, not what the system says of the process.
    pub fn is_running(&self) -> (r: bool)
        ensures
            r == self.running(),
    {
        self.process.is_some()
    }

    /// The handle of the running worker, for writing to its input.
    pub fn process(&self) -> (r: Option<&P>)
        ensures
            r is Some == self.running(),
            r matches Some(p) ==> *p == self.held()->0,
    {
        match &self.process {
            Some(p) => Some(p),
            None => None,
        }
    }

    /// The first step of a start with an executor type: refused while a
    /// worker runs; else the places to look for its script, given the
    /// working directory (none to look at when it is unknown).
    pub fn start_with_executor(&self, executor_type: &str, cwd: Option<&FsPath>) -> (r: Result<
        ScriptSearch,
        BridgeError,
    >)
        ensures
            r is Err <==> start_outcome(*self) is Err,
            r matches Err(e) ==> e == BridgeError::AlreadyRunning,
            r matches Ok(s) ==> {
                &&& s.executor_type@ == executor_type@
                &&& s.script@ == script_for(executor_type@)
                &&& cwd is None ==> s.candidates@.len() == 0
                &&& cwd matches Some(d) ==> s.candidates@.len() == candidate_names(d@.1, s.script@).len()
                &&& cwd matches Some(d) ==> forall|i: int|
                    0 <= i < s.candidates@.len() ==> #[trigger] s.candidates@[i]@ == (
                        d@.0,
                        candidate_names(d@.1, s.script@)[i],
                    )
            },
    {
        if self.process.is_some() {
            return Err(BridgeError::AlreadyRunning);
        }
        let script = script_name(executor_type);
        let candidates = match cwd {
            Some(d) => script_candidates(d, script.as_str()),
            None => Vec::new(),
        };
        Ok(ScriptSearch { executor_type: String::from_str(executor_type), script, candidates })
    }

    /// The first step of a start with the default executor type, `simple`.
    pub fn start(&self, cwd: Option<&FsPath>) -> (r: Result<ScriptSearch, BridgeError>)
        ensures
            r is Err <==> start_outcome(*self) is Err,
            r matches Err(e) ==> e == BridgeError::AlreadyRunning,
            r matches Ok(s) ==> {
                &&& s.executor_type@ == "simple"@
                &&& s.script@ == script_for("simple"@)
                &&& cwd is None ==> s.candidates@.len() == 0
                &&& cwd matches Some(d) ==> s.candidates@.len() == candidate_names(d@.1, s.script@).len()
                &&& cwd matches Some(d) ==> forall|i: int|
                    0 <= i < s.candidates@.len() ==> #[trigger] s.candidates@[i]@ == (
                        d@.0,
                        candidate_names(d@.1, s.script@)[i],
                    )
            },
    {
        self.start_with_executor("simple", cwd)
    }

    /// The last step of a start: the bridge takes the spawned process and
    /// runs.
    pub fn attach(&mut self, process: P)
        requires
            !old(self).running(),
        ensures
            final(self).held() == Some(process),
    {
        self.process = Some(process);
    }

    /// Stops the worker. When none runs this changes nothing and hands back
    /// nothing. Else the bridge lets go of the process, which no longer
    /// counts as running whatever it does, and hands it back with a `stop`
    /// command to send before the grace interval and the kill.
    pub fn stop(&mut self) -> (r: Option<Shutdown<P>>)
        ensures
            stopped_as(*old(self), *final(self), r),
    {
        self.stop_with_grace(STOP_GRACE_MS)
    }

    /// Stops the worker as `stop` does, with another grace interval.
    pub fn stop_with_grace(&mut self, grace_ms: u64) -> (r: Option<Shutdown<P>>)
        ensures
            stopped_with(*old(self), *final(self), r, grace_ms),
    {
        match self.process.take() {
            Some(process) => Some(
                Shutdown { process, stop_command: ExecutorCommand::new("stop", None), grace_ms },
            ),
            None => None,
        }
    }

    /// Builds a command, with a fresh identifier, for the running worker;
    /// refused when none runs. The host writes `to_line()` of the command
    /// to the worker's input; nothing waits for the response.
    pub fn send_command(&mut self, command: &str, params: Option<serde_json::Value>) -> (r: Result<
        ExecutorCommand,
        BridgeError,
    >)
        ensures
            *final(self) == *old(self),
            r is Err <==> send_outcome(*old(self)) is Err,
            sent(
                *old(self),
                r,
                command@,
                (|p: Option<serde_json::Value>| p == params),
            ),
    {
        if self.process.is_none() {
            return Err(BridgeError::NotRunning);
        }
        Ok(ExecutorCommand::new(command, params))
    }

    /// Asks the worker to load the configuration file at a path.
    pub fn load_configuration(&mut self, config_path: &str) -> (r: Result<ExecutorCommand, BridgeError>)
        ensures
            *final(self) == *old(self),
            sent(*old(self), r, "load"@, (|p: Option<serde_json::Value>| is_text_object(p, "config_path"@, config_path@))),
    {
        let params = text_object("config_path", config_path);
        self.send_command("load", Some(params))
    }

    /// Asks the worker to start executing in a mode.
    pub fn start_execution(&mut self, mode: &str) -> (r: Result<ExecutorCommand, BridgeError>)
        ensures
            *final(self) == *old(self),
            sent(*old(self), r, "start"@, (|p: Option<serde_json::Value>| is_text_object(p, "mode"@, mode@))),
    {
        let params = text_object("mode", mode);
        self.send_command("start", Some(params))
    }

    /// Asks the worker to start executing with a given payload.
    pub fn start_execution_with_params(&mut self, params: Option<serde_json::Value>) -> (r: Result<
        ExecutorCommand,
        BridgeError,
    >)
        ensures
            *final(self) == *old(self),
            sent(
                *old(self),
                r,
                "start"@,
                (|p: Option<serde_json::Value>| p == params),
            ),
    {
        self.send_command("start", params)
    }

    /// Asks the worker to stop executing.
    pub fn stop_execution(&mut self) -> (r: Result<ExecutorCommand, BridgeError>)
        ensures
            *final(self) == *old(self),
            sent(*old(self), r, "stop"@, (|p: Option<serde_json::Value>| p is None)),
    {
        self.send_command("stop", None)
    }

    /// Asks the worker for its status.
    pub fn get_status(&mut self) -> (r: Result<ExecutorCommand, BridgeError>)
        ensures
            *final(self) == *old(self),
            sent(*old(self), r, "status"@, (|p: Option<serde_json::Value>| p is None)),
    {
        self.send_command("status", None)
    }

    /// Asks the worker to start recording below a directory.
    pub fn start_recording(&mut self, base_dir: &str) -> (r: Result<ExecutorCommand, BridgeError>)
        ensures
            *final(self) == *old(self),
            sent(*old(self), r, "start_recording"@, (|p: Option<serde_json::Value>| is_text_object(p, "base_dir"@, base_dir@))),
    {
        let params = text_object("base_dir", base_dir);
        self.send_command("start_recording", Some(params))
    }

    /// Asks the worker to stop recording.
    pub fn stop_recording(&mut self) -> (r: Result<ExecutorCommand, BridgeError>)
        ensures
            *final(self) == *old(self),
            sent(*old(self), r, "stop_recording"@, (|p: Option<serde_json::Value>| p is None)),
    {
        self.send_command("stop_recording", None)
    }

    /// Asks the worker whether it records.
    pub fn get_recording_status(&mut self) -> (r: Result<ExecutorCommand, BridgeError>)
        ensures
            *final(self) == *old(self),
            sent(*old(self), r, "recording_status"@, (|p: Option<serde_json::Value>| p is None)),
    {
        self.send_command("recording_status", None)
    }
}

/// The result of a stop, from what its steps gave: a failed kill, then a
/// failed wait, is the stop's error; else a failed `stop` command is; else
/// the stop succeeded. Every step has run, whatever an earlier one gave.
pub open spec fn shutdown_outcome(
    sent: Result<(), BridgeError>,
    killed: Result<(), String>,
    reaped: Result<(), String>,
) -> Result<(), BridgeError> {
    match (killed, reaped) {
        (Err(m), _) => Err(BridgeError::StopError(m)),
        (Ok(()), Err(m)) => Err(BridgeError::StopError(m)),
        (Ok(()), Ok(())) => sent,
    }
}

pub fn shutdown_result(
    sent: Result<(), BridgeError>,
    killed: Result<(), String>,
    reaped: Result<(), String>,
) -> (r: Result<(), BridgeError>)
    ensures
        r == shutdown_outcome(sent, killed, reaped),
{
    match killed {
        Err(m) => Err(BridgeError::StopError(m)),
        Ok(()) => match reaped {
            Err(m) => Err(BridgeError::StopError(m)),
            Ok(()) => sent,
        },
    }
}

/// Once a worker runs, a second start is refused, until a stop: a start
/// that succeeded and the attach of its process leave a bridge on which
/// start gives `AlreadyRunning`.
pub proof fn second_start_is_refused<P>(before: PythonBridge<P>, after: PythonBridge<P>, process: P)
    requires
        start_outcome(before) is Ok,
        after.held() == Some(process),
    ensures
        start_outcome(after) == Err::<(), BridgeError>(BridgeError::AlreadyRunning),
{
}

/// Stopping a bridge that never started changes nothing and hands nothing
/// back: no step of a stop runs, and the host reports success.
pub proof fn stop_when_idle_is_no_op<P>(before: PythonBridge<P>, after: PythonBridge<P>, r: Option<Shutdown<P>>)
    requires
        before.held() is None,
        stopped_as(before, after, r),
    ensures
        r is None,
        after == before,
{
}

/// After a stop the bridge no longer runs and holds no process, whether or
/// not the worker obeyed the `stop` command: its process is handed back to be
/// killed, and a failure to send the command or to kill is only reported.
pub proof fn stop_always_releases<P>(before: PythonBridge<P>, after: PythonBridge<P>, r: Option<Shutdown<P>>)
    requires
        stopped_as(before, after, r),
    ensures
        !after.running(),
        after.held() is None,
        before.running() ==> r is Some && r->0.process == before.held()->0,
{
}

/// A bridge that was never started, or that was stopped, refuses every send
/// with `NotRunning` and hands out no command to write.
pub proof fn send_refused_when_stopped<P>(
    b: PythonBridge<P>,
    name: Seq<char>,
    params_ok: spec_fn(Option<serde_json::Value>) -> bool,
    r: Result<ExecutorCommand, BridgeError>,
)
    requires
        b.held() is None,
        sent(b, r, name, params_ok),
    ensures
        r == Err::<ExecutorCommand, BridgeError>(BridgeError::NotRunning),
{
}

} // verus!
