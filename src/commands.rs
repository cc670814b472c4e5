//! The host's commands on the bridge: which checks each makes, what it asks
//! of the worker, and what it answers. A command that has something to send
//! hands the host the worker command to write; once written, `complete`
//! gives the answer.
use vstd::prelude::*;
use vstd::string::*;
use crate::bridge::{BridgeError, PythonBridge, error_message};
use crate::json::{JsonNode, int_value, members, new_object, node_of, pack, put_member, unsigned_node};
use crate::protocol::{ExecutorCommand, is_text_object, member_object, single_member};

verus! {

/// The answer to a host command. `data` holds JSON text.
#[derive(Clone, Debug)]
pub struct CommandResponse {
    pub success: bool,
    pub message: Option<String>,
    pub data: Option<String>,
}

/// A worker command still to write, and how the host command ends.
#[derive(Debug)]
pub struct PendingSend {
    pub command: ExecutorCommand,
    pub on_success: CommandResponse,
    pub failure_prefix: String,
}

/// What a host command asks the host to do next.
#[derive(Debug)]
pub enum Reply {
    Done(CommandResponse),
    Send(PendingSend),
}

pub open spec fn text_of(o: Option<String>) -> Option<Seq<char>> {
    match o {
        Some(s) => Some(s@),
        None => None,
    }
}

/// Whether an answer has the given success, message and data.
pub open spec fn answers(r: CommandResponse, success: bool, message: Option<Seq<char>>, data: Option<Seq<char>>) -> bool {
    r.success == success && text_of(r.message) == message && text_of(r.data) == data
}

/// Whether a reply sends the worker command with this name and payload,
/// then answers as given, or fails with the prefix before the write error.
pub open spec fn sends(
    r: Reply,
    name: Seq<char>,
    params_ok: spec_fn(Option<serde_json::Value>) -> bool,
    message: Option<Seq<char>>,
    data: Option<Seq<char>>,
    prefix: Seq<char>,
) -> bool {
    match r {
        Reply::Send(p) => {
            &&& p.command.command@ == name
            &&& params_ok(p.command.params)
            &&& p.command.cmd_type@ == "command"@
            &&& answers(p.on_success, true, message, data)
            &&& p.failure_prefix@ == prefix
        },
        Reply::Done(_) => false,
    }
}

/// Whether a host command failed with this message.
pub open spec fn fails_with<T>(r: Result<T, String>, message: Seq<char>) -> bool {
    match r {
        Err(m) => m@ == message,
        Ok(_) => false,
    }
}

/// Whether a host command went on to send, as `sends` describes.
pub open spec fn goes_on(
    r: Result<Reply, String>,
    name: Seq<char>,
    params_ok: spec_fn(Option<serde_json::Value>) -> bool,
    message: Option<Seq<char>>,
    data: Option<Seq<char>>,
    prefix: Seq<char>,
) -> bool {
    match r {
        Ok(reply) => sends(reply, name, params_ok, message, data, prefix),
        Err(_) => false,
    }
}

/// Whether a reply answers at once, as given.
pub open spec fn done_with(r: Reply, success: bool, message: Option<Seq<char>>, data: Option<Seq<char>>) -> bool {
    match r {
        Reply::Done(a) => answers(a, success, message, data),
        Reply::Send(_) => false,
    }
}

/// Whether there is a bridge that does not run.
pub open spec fn stopped<P>(bridge: Option<PythonBridge<P>>) -> bool {
    match bridge {
        Some(b) => !b.running(),
        None => false,
    }
}

/// Whether there is a bridge that runs.
pub open spec fn live<P>(bridge: Option<PythonBridge<P>>) -> bool {
    match bridge {
        Some(b) => b.running(),
        None => false,
    }
}

/// Whether a payload is the one of a start of execution: an object with
/// the monitor's index, a number, and the process's id, a string.
pub open spec fn is_execution_params(p: Option<serde_json::Value>, process_id: Seq<char>, monitor_index: i32) -> bool {
    match p {
        Some(v) => match node_of(v) {
            JsonNode::Object(m) => {
                &&& members(m).dom() == set!["monitor_index"@, "process_id"@]
                &&& node_of(members(m)["monitor_index"@]) is Number
                &&& unsigned_node(node_of(members(m)["monitor_index"@])) == if monitor_index >= 0 {
                    Some(monitor_index as u64)
                } else {
                    None::<u64>
                }
                &&& match node_of(members(m)["process_id"@]) {
                    JsonNode::Text(t) => t@ == process_id,
                    _ => false,
                }
            },
            _ => false,
        },
        None => false,
    }
}

/// The payload of a start of execution.
pub fn execution_params(process_id: &str, monitor_index: i32) -> (r: serde_json::Value)
    ensures
        is_execution_params(Some(r), process_id@, monitor_index),
{
    let mut m = new_object();
    let ghost empty = members(m);
    put_member(&mut m, String::from_str("monitor_index"), int_value(monitor_index));
    let pid = pack(JsonNode::Text(String::from_str(process_id)));
    put_member(&mut m, String::from_str("process_id"), pid);
    proof {
        reveal_strlit("monitor_index");
        reveal_strlit("process_id");
        assert("monitor_index"@.len() != "process_id"@.len());
        vstd::set_lib::lemma_set_empty_equivalency_len(empty.dom());
        assert(members(m).dom() =~= set!["monitor_index"@, "process_id"@]);
    }
    pack(JsonNode::Object(m))
}

pub open spec fn bool_text(b: bool) -> Seq<char> {
    if b {
        "true"@
    } else {
        "false"@
    }
}

/// The data of a status answer.
pub open spec fn status_text(python_running: bool, config_loaded: bool) -> Seq<char> {
    "{\"config_loaded\":"@ + bool_text(config_loaded) + ",\"python_running\":"@ + bool_text(
        python_running,
    ) + "}"@
}

fn bool_word(b: bool) -> (r: &'static str)
    ensures
        r@ == bool_text(b),
{
    if b {
        "true"
    } else {
        "false"
    }
}

pub fn status_data(python_running: bool, config_loaded: bool) -> (r: String)
    ensures
        r@ == status_text(python_running, config_loaded),
{
    let mut out = String::from_str("{\"config_loaded\":");
    out.append(bool_word(config_loaded));
    out.append(",\"python_running\":");
    out.append(bool_word(python_running));
    out.append("}");
    out
}

fn respond(success: bool, message: Option<&str>, data: Option<String>) -> (r: CommandResponse)
    ensures
        r.success == success,
        text_of(r.message) == match message {
            Some(m) => Some(m@),
            None => None::<Seq<char>>,
        },
        r.data == data,
{
    let message = match message {
        Some(m) => Some(String::from_str(m)),
        None => None,
    };
    CommandResponse { success, message, data }
}

fn pending(command: ExecutorCommand, on_success: CommandResponse, failure_prefix: &str) -> (r: Reply)
    ensures
        r matches Reply::Send(p) && p.command == command && p.on_success == on_success
            && p.failure_prefix@ == failure_prefix@,
{
    Reply::Send(PendingSend { command, on_success, failure_prefix: String::from_str(failure_prefix) })
}

/// A failure whose message is a prefix, then the bridge's message.
pub fn failure(prefix: &str, e: &BridgeError) -> (r: String)
    ensures
        r@ == prefix@ + error_message(*e),
{
    String::from_str(prefix).concat(e.message().as_str())
}

impl PendingSend {
    /// How the host command ends, from what writing its worker command gave.
    pub fn complete(self, written: Result<(), BridgeError>) -> (r: Result<CommandResponse, String>)
        ensures
            written is Ok ==> r == Ok::<CommandResponse, String>(self.on_success),
            written matches Err(e) ==> fails_with(r, self.failure_prefix@ + error_message(e)),
    {
        match written {
            Ok(()) => Ok(self.on_success),
            Err(e) => Err(failure(self.failure_prefix.as_str(), &e)),
        }
    }
}

/// Whether a host command found no bridge, or a bridge that does not run.
pub open spec fn idle<P>(bridge: Option<PythonBridge<P>>) -> bool {
    match bridge {
        Some(b) => !b.running(),
        None => true,
    }
}

/// Starts execution of a process on a monitor (the first one when none is
/// given). Fails when there is no bridge, when it does not run, or when no
/// process is given.
pub fn start_execution<P>(
    bridge: &mut Option<PythonBridge<P>>,
    process_id: Option<String>,
    monitor_index: Option<i32>,
) -> (r: Result<Reply, String>)
    ensures
        *final(bridge) == *old(bridge),
        old(bridge).is_none() ==> fails_with(r, "Python executor not initialized"@),
        stopped(*old(bridge)) ==> fails_with(r, "Python executor not running"@),
        live(*old(bridge)) && process_id is None ==> fails_with(r, "Process ID is required"@),
        live(*old(bridge)) && process_id is Some ==> goes_on(
            r,
            "start"@,
            (|p: Option<serde_json::Value>|
                is_execution_params(
                    p,
                    process_id->0@,
                    match monitor_index {
                        Some(i) => i,
                        None => 0,
                    },
                )),
            Some("Execution started"@),
            None,
            "Failed to start execution: "@,
        ),
{
    match bridge {
        None => Err(String::from_str("Python executor not initialized")),
        Some(b) => {
            if !b.is_running() {
                return Err(String::from_str("Python executor not running"));
            }
            let index = match monitor_index {
                Some(i) => i,
                None => 0,
            };
            let pid = match process_id {
                Some(p) => p,
                None => {
                    return Err(String::from_str("Process ID is required"));
                },
            };
            let params = execution_params(pid.as_str(), index);
            match b.start_execution_with_params(Some(params)) {
                Ok(c) => Ok(
                    pending(
                        c,
                        respond(true, Some("Execution started"), None),
                        "Failed to start execution: ",
                    ),
                ),
                Err(e) => Err(failure("Failed to start execution: ", &e)),
            }
        },
    }
}

/// Asks the worker to stop executing. Fails when there is no bridge, or
/// when it does not run.
pub fn stop_execution<P>(bridge: &mut Option<PythonBridge<P>>) -> (r: Result<Reply, String>)
    ensures
        *final(bridge) == *old(bridge),
        old(bridge).is_none() ==> fails_with(r, "Python executor not initialized"@),
        stopped(*old(bridge)) ==> fails_with(r, "Failed to stop execution: "@ + error_message(BridgeError::NotRunning)),
        live(*old(bridge)) ==> goes_on(
            r,
            "stop"@,
            (|p: Option<serde_json::Value>| p is None),
            Some("Execution stopped"@),
            None,
            "Failed to stop execution: "@,
        ),
{
    match bridge {
        None => Err(String::from_str("Python executor not initialized")),
        Some(b) => match b.stop_execution() {
            Ok(c) => Ok(
                pending(c, respond(true, Some("Execution stopped"), None), "Failed to stop execution: "),
            ),
            Err(e) => Err(failure("Failed to stop execution: ", &e)),
        },
    }
}

/// Reports whether the worker runs and whether a configuration is loaded;
/// a running worker is asked for its status too.
pub fn get_executor_status<P>(bridge: &mut Option<PythonBridge<P>>, config_loaded: bool) -> (r: Reply)
    ensures
        *final(bridge) == *old(bridge),
        idle(*old(bridge)) ==> done_with(
            r,
            true,
            None,
            Some(status_text(false, config_loaded)),
        ),
        !idle(*old(bridge)) ==> sends(
            r,
            "status"@,
            (|p: Option<serde_json::Value>| p is None),
            None,
            Some(status_text(true, config_loaded)),
            "Failed to get status: "@,
        ),
{
    let running = match bridge {
        Some(b) => b.is_running(),
        None => false,
    };
    if !running {
        return Reply::Done(respond(true, None, Some(status_data(false, config_loaded))));
    }
    match bridge {
        Some(b) => match b.get_status() {
            Ok(c) => pending(
                c,
                respond(true, None, Some(status_data(true, config_loaded))),
                "Failed to get status: ",
            ),
            Err(_) => Reply::Done(respond(true, None, Some(status_data(false, config_loaded)))),
        },
        None => Reply::Done(respond(true, None, Some(status_data(false, config_loaded)))),
    }
}

/// Asks the worker to start recording below a directory. Fails when there
/// is no bridge, or when it does not run.
pub fn start_recording<P>(bridge: &mut Option<PythonBridge<P>>, base_dir: &str) -> (r: Result<
    Reply,
    String,
>)
    ensures
        *final(bridge) == *old(bridge),
        old(bridge).is_none() ==> fails_with(r, "Python executor not initialized"@),
        stopped(*old(bridge)) ==> fails_with(r, "Python executor not running"@),
        live(*old(bridge)) ==> goes_on(
            r,
            "start_recording"@,
            (|p: Option<serde_json::Value>| is_text_object(p, "base_dir"@, base_dir@)),
            Some("Recording start command sent"@),
            Some(member_object("base_dir"@, base_dir@)),
            "Failed to start recording: "@,
        ),
{
    match bridge {
        None => Err(String::from_str("Python executor not initialized")),
        Some(b) => {
            if !b.is_running() {
                return Err(String::from_str("Python executor not running"));
            }
            match b.start_recording(base_dir) {
                Ok(c) => Ok(
                    pending(
                        c,
                        respond(
                            true,
                            Some("Recording start command sent"),
                            Some(single_member("base_dir", base_dir)),
                        ),
                        "Failed to start recording: ",
                    ),
                ),
                Err(e) => Err(failure("Failed to start recording: ", &e)),
            }
        },
    }
}

/// Asks the worker to stop recording. Fails when there is no bridge, or
/// when it does not run.
pub fn stop_recording<P>(bridge: &mut Option<PythonBridge<P>>) -> (r: Result<Reply, String>)
    ensures
        *final(bridge) == *old(bridge),
        old(bridge).is_none() ==> fails_with(r, "Python executor not initialized"@),
        stopped(*old(bridge)) ==> fails_with(r, "Python executor not running"@),
        live(*old(bridge)) ==> goes_on(
            r,
            "stop_recording"@,
            (|p: Option<serde_json::Value>| p is None),
            Some("Recording stop command sent"@),
            None,
            "Failed to stop recording: "@,
        ),
{
    match bridge {
        None => Err(String::from_str("Python executor not initialized")),
        Some(b) => {
            if !b.is_running() {
                return Err(String::from_str("Python executor not running"));
            }
            match b.stop_recording() {
                Ok(c) => Ok(
                    pending(
                        c,
                        respond(true, Some("Recording stop command sent"), None),
                        "Failed to stop recording: ",
                    ),
                ),
                Err(e) => Err(failure("Failed to stop recording: ", &e)),
            }
        },
    }
}

/// The data of an answer that says nothing records.
pub open spec fn not_recording_text() -> Seq<char> {
    "{\"is_recording\":false}"@
}

/// Asks a running worker whether it records; without one, answers that
/// nothing records.
pub fn get_recording_status<P>(bridge: &mut Option<PythonBridge<P>>) -> (r: Reply)
    ensures
        *final(bridge) == *old(bridge),
        idle(*old(bridge)) ==> done_with(
            r,
            true,
            None,
            Some(not_recording_text()),
        ),
        !idle(*old(bridge)) ==> sends(
            r,
            "recording_status"@,
            (|p: Option<serde_json::Value>| p is None),
            Some("Recording status command sent"@),
            None,
            "Failed to get recording status: "@,
        ),
{
    let running = match bridge {
        Some(b) => b.is_running(),
        None => false,
    };
    let idle_answer = respond(true, None, Some(String::from_str("{\"is_recording\":false}")));
    if !running {
        return Reply::Done(idle_answer);
    }
    match bridge {
        Some(b) => match b.get_recording_status() {
            Ok(c) => pending(
                c,
                respond(true, Some("Recording status command sent"), None),
                "Failed to get recording status: ",
            ),
            Err(_) => Reply::Done(idle_answer),
        },
        None => Reply::Done(idle_answer),
    }
}

/// The answer to a start while a worker already runs; none when a start
/// may go ahead.
pub fn start_refusal<P>(bridge: &Option<PythonBridge<P>>) -> (r: Option<CommandResponse>)
    ensures
        idle(*bridge) <==> r is None,
        r matches Some(a) ==> answers(a, false, Some("Python executor already running"@), None),
{
    match bridge {
        Some(b) => {
            if b.is_running() {
                Some(respond(false, Some("Python executor already running"), None))
            } else {
                None
            }
        },
        None => None,
    }
}

/// The answer to a start that succeeded.
pub fn started_response(executor_type: &str) -> (r: CommandResponse)
    ensures
        answers(r, true, Some("Python executor started with "@ + executor_type@ + " mode"@), None),
{
    let mut m = String::from_str("Python executor started with ");
    m.append(executor_type);
    m.append(" mode");
    CommandResponse { success: true, message: Some(m), data: None }
}

/// The answer to a stop that succeeded.
pub fn stopped_response() -> (r: CommandResponse)
    ensures
        answers(r, true, Some("Python executor stopped"@), None),
{
    respond(true, Some("Python executor stopped"), None)
}

} // verus!
