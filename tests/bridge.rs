use qontinui_runner::bridge::{shutdown_result, BridgeError, PythonBridge, STOP_GRACE_MS};
use qontinui_runner::launch::FsPath;

fn json(text: &str) -> serde_json::Value {
    serde_json::from_str(text).unwrap()
}

fn path(parts: &[&str]) -> FsPath {
    FsPath { root: "/".to_string(), parts: parts.iter().map(|s| s.to_string()).collect() }
}

#[test]
fn new_bridge_is_not_running() {
    let b: PythonBridge<u32> = PythonBridge::new();
    assert!(!b.is_running());
    assert!(b.process().is_none());
}

#[test]
fn second_start_is_already_running() {
    for variant in ["simple", "mock", "real", "minimal"] {
        let mut b: PythonBridge<u32> = PythonBridge::new();
        let cwd = path(&["home", "proj"]);
        assert!(b.start_with_executor(variant, Some(&cwd)).is_ok());
        b.attach(7);
        assert!(b.is_running());
        assert!(matches!(b.start_with_executor(variant, Some(&cwd)), Err(BridgeError::AlreadyRunning)));
        assert_eq!(b.process(), Some(&7));
    }
}

#[test]
fn send_before_start_is_not_running() {
    let mut b: PythonBridge<u32> = PythonBridge::new();
    assert!(matches!(b.send_command("status", None), Err(BridgeError::NotRunning)));
    assert!(matches!(b.load_configuration("/c.json"), Err(BridgeError::NotRunning)));
    assert!(matches!(b.get_status(), Err(BridgeError::NotRunning)));
    assert!(!b.is_running());
}

#[test]
fn send_after_stop_is_not_running() {
    let mut b: PythonBridge<u32> = PythonBridge::new();
    b.attach(1);
    assert!(b.stop().is_some());
    assert!(matches!(b.send_command("status", None), Err(BridgeError::NotRunning)));
    assert!(matches!(b.stop_recording(), Err(BridgeError::NotRunning)));
}

#[test]
fn stop_when_never_started_is_no_op() {
    let mut b: PythonBridge<u32> = PythonBridge::new();
    assert!(b.stop().is_none());
    assert!(!b.is_running());
    assert!(shutdown_result(Ok(()), Ok(()), Ok(())).is_ok());
}

#[test]
fn stop_releases_process_and_sends_stop() {
    let mut b: PythonBridge<u32> = PythonBridge::new();
    b.attach(99);
    let s = b.stop().unwrap();
    assert_eq!(s.process, 99);
    assert_eq!(s.grace_ms, 500);
    assert_eq!(STOP_GRACE_MS, 500);
    assert_eq!(s.stop_command.command, "stop");
    assert!(s.stop_command.params.is_none());
    assert!(!b.is_running());
    assert!(b.process().is_none());
    assert!(b.stop().is_none());
}

#[test]
fn stop_of_worker_that_ignored_stop_still_releases() {
    let mut b: PythonBridge<u32> = PythonBridge::new();
    b.attach(5);
    let _ = b.stop();
    assert!(!b.is_running());
    let failed_send = Err(BridgeError::WriteError("broken pipe".to_string()));
    assert!(matches!(shutdown_result(failed_send, Ok(()), Ok(())), Err(BridgeError::WriteError(_))));
}

#[test]
fn kill_failure_outranks_send_failure() {
    let sent = Err(BridgeError::WriteError("w".to_string()));
    let r = shutdown_result(sent, Err("no such process".to_string()), Ok(()));
    assert!(matches!(r, Err(BridgeError::StopError(m)) if m == "no such process"));
    let r = shutdown_result(Ok(()), Ok(()), Err("wait failed".to_string()));
    assert!(matches!(r, Err(BridgeError::StopError(m)) if m == "wait failed"));
}

#[test]
fn facade_commands_have_names_and_payloads() {
    let mut b: PythonBridge<u32> = PythonBridge::new();
    b.attach(3);
    let c = b.load_configuration("/cfg/a.json").unwrap();
    assert_eq!(c.command, "load");
    assert_eq!(c.params, Some(json("{\"config_path\":\"/cfg/a.json\"}")));
    let c = b.start_execution("mock").unwrap();
    assert_eq!(c.command, "start");
    assert_eq!(c.params, Some(json("{\"mode\":\"mock\"}")));
    let c = b.start_execution_with_params(Some(json("{\"process_id\":\"p\"}"))).unwrap();
    assert_eq!(c.command, "start");
    assert_eq!(c.params, Some(json("{\"process_id\":\"p\"}")));
    assert_eq!(b.stop_execution().unwrap().command, "stop");
    assert_eq!(b.get_status().unwrap().command, "status");
    let c = b.start_recording("/rec").unwrap();
    assert_eq!(c.command, "start_recording");
    assert_eq!(c.params, Some(json("{\"base_dir\":\"/rec\"}")));
    assert_eq!(b.stop_recording().unwrap().command, "stop_recording");
    assert_eq!(b.get_recording_status().unwrap().command, "recording_status");
    assert!(b.is_running());
}

#[test]
fn each_send_gets_a_new_id() {
    let mut b: PythonBridge<u32> = PythonBridge::new();
    b.attach(3);
    let a = b.get_status().unwrap();
    let c = b.get_status().unwrap();
    assert_ne!(a.id, c.id);
    assert_eq!(a.cmd_type, "command");
}

#[test]
fn start_lists_script_candidates() {
    let b: PythonBridge<u32> = PythonBridge::new();
    let s = b.start_with_executor("real", Some(&path(&["w", "runner", "src-tauri"]))).unwrap();
    assert_eq!(s.executor_type, "real");
    assert_eq!(s.script, "qontinui_executor.py");
    assert_eq!(s.candidates.len(), 3);
    assert_eq!(s.candidates[0].parts, vec!["w", "runner", "python-bridge", "qontinui_executor.py"]);
    let d = b.start(Some(&path(&["w"]))).unwrap();
    assert_eq!(d.executor_type, "simple");
    assert_eq!(d.script, "qontinui_bridge.py");
}

#[test]
fn missing_script_is_script_not_found() {
    let b: PythonBridge<u32> = PythonBridge::new();
    let s = b.start_with_executor("minimal", Some(&path(&["w"]))).unwrap();
    match s.resolve(&vec![false, false]) {
        Err(BridgeError::ScriptNotFound(name)) => assert_eq!(name, "minimal_bridge.py"),
        _ => panic!("expected ScriptNotFound"),
    }
    assert!(s.resolve(&vec![]).is_err());
}

#[test]
fn first_existing_script_wins() {
    let b: PythonBridge<u32> = PythonBridge::new();
    let s = b.start_with_executor("mock", Some(&path(&["a", "b", "debug"]))).unwrap();
    let p = s.resolve(&vec![false, true, true]).unwrap();
    assert_eq!(p.parts, vec!["a", "b", "debug", "python-bridge", "qontinui_bridge.py"]);
}

#[test]
fn error_messages() {
    assert_eq!(BridgeError::AlreadyRunning.message(), "Python process already running");
    assert_eq!(BridgeError::NotRunning.message(), "Python process not running");
    assert_eq!(
        BridgeError::ScriptNotFound("x.py".to_string()).message(),
        "Python bridge script x.py not found in any expected location"
    );
    assert_eq!(BridgeError::SpawnError("e".to_string()).message(), "Failed to start Python process: e");
    assert_eq!(BridgeError::WriteError("e".to_string()).message(), "Failed to send command: e");
    assert_eq!(BridgeError::FlushError("e".to_string()).message(), "Failed to flush stdin: e");
    assert_eq!(BridgeError::StopError("e".to_string()).message(), "e");
}

#[test]
fn stop_with_custom_grace_interval() {
    let mut b: PythonBridge<u32> = PythonBridge::new();
    assert!(b.stop_with_grace(50).is_none());
    b.attach(4);
    let s = b.stop_with_grace(50).unwrap();
    assert_eq!(s.grace_ms, 50);
    assert_eq!(s.process, 4);
    assert_eq!(s.stop_command.command, "stop");
    assert!(!b.is_running());
}

#[test]
fn unknown_working_directory_finds_no_script() {
    let b: PythonBridge<u32> = PythonBridge::new();
    let s = b.start_with_executor("real", None).unwrap();
    assert!(s.candidates.is_empty());
    assert!(matches!(s.resolve(&vec![true]), Err(BridgeError::ScriptNotFound(n)) if n == "qontinui_executor.py"));
}
