use qontinui_runner::bridge::{BridgeError, PythonBridge};
use qontinui_runner::commands::{
    execution_params, failure, get_executor_status, get_recording_status, start_execution,
    start_recording, start_refusal, started_response, status_data, stop_execution,
    stop_recording, stopped_response, Reply,
};

fn running() -> Option<PythonBridge<u32>> {
    let mut b = PythonBridge::new();
    b.attach(1);
    Some(b)
}

fn idle() -> Option<PythonBridge<u32>> {
    Some(PythonBridge::new())
}

fn json_value(text: &str) -> serde_json::Value {
    serde_json::from_str(text).unwrap()
}

#[test]
fn execution_params_value() {
    assert_eq!(execution_params("proc-1", 0), json_value("{\"monitor_index\":0,\"process_id\":\"proc-1\"}"));
    assert_eq!(execution_params("a\"b", -12), json_value("{\"monitor_index\":-12,\"process_id\":\"a\\\"b\"}"));
    assert_eq!(execution_params("x", 2147483647), json_value("{\"monitor_index\":2147483647,\"process_id\":\"x\"}"));
}

#[test]
fn status_data_text() {
    assert_eq!(status_data(true, false), "{\"config_loaded\":false,\"python_running\":true}");
    assert_eq!(status_data(false, true), "{\"config_loaded\":true,\"python_running\":false}");
}

#[test]
fn start_execution_checks_in_order() {
    let mut none: Option<PythonBridge<u32>> = None;
    assert_eq!(start_execution(&mut none, Some("p".into()), None).unwrap_err(), "Python executor not initialized");
    assert_eq!(start_execution(&mut idle(), Some("p".into()), None).unwrap_err(), "Python executor not running");
    assert_eq!(start_execution(&mut running(), None, Some(1)).unwrap_err(), "Process ID is required");
}

#[test]
fn start_execution_defaults_to_first_monitor() {
    match start_execution(&mut running(), Some("proc-9".into()), None).unwrap() {
        Reply::Send(p) => {
            assert_eq!(p.command.command, "start");
            assert_eq!(p.command.params, Some(json_value("{\"monitor_index\":0,\"process_id\":\"proc-9\"}")));
            assert_eq!(p.failure_prefix, "Failed to start execution: ");
            let done = p.complete(Ok(())).unwrap();
            assert!(done.success);
            assert_eq!(done.message.as_deref(), Some("Execution started"));
            assert!(done.data.is_none());
        }
        Reply::Done(_) => panic!("expected a send"),
    }
}

#[test]
fn failed_write_reports_prefix_and_cause() {
    match start_execution(&mut running(), Some("p".into()), Some(3)).unwrap() {
        Reply::Send(p) => {
            assert_eq!(p.command.params, Some(json_value("{\"monitor_index\":3,\"process_id\":\"p\"}")));
            let err = p.complete(Err(BridgeError::WriteError("broken pipe".into()))).unwrap_err();
            assert_eq!(err, "Failed to start execution: Failed to send command: broken pipe");
        }
        Reply::Done(_) => panic!("expected a send"),
    }
}

#[test]
fn stop_execution_on_idle_bridge_fails() {
    let mut none: Option<PythonBridge<u32>> = None;
    assert_eq!(stop_execution(&mut none).unwrap_err(), "Python executor not initialized");
    assert_eq!(
        stop_execution(&mut idle()).unwrap_err(),
        "Failed to stop execution: Python process not running"
    );
    match stop_execution(&mut running()).unwrap() {
        Reply::Send(p) => {
            assert_eq!(p.command.command, "stop");
            assert_eq!(p.complete(Ok(())).unwrap().message.as_deref(), Some("Execution stopped"));
        }
        Reply::Done(_) => panic!("expected a send"),
    }
}

#[test]
fn executor_status_reports_state() {
    let mut none: Option<PythonBridge<u32>> = None;
    match get_executor_status(&mut none, true) {
        Reply::Done(a) => {
            assert!(a.success);
            assert!(a.message.is_none());
            assert_eq!(a.data.as_deref(), Some("{\"config_loaded\":true,\"python_running\":false}"));
        }
        Reply::Send(_) => panic!("nothing to send"),
    }
    match get_executor_status(&mut running(), false) {
        Reply::Send(p) => {
            assert_eq!(p.command.command, "status");
            let a = p.complete(Ok(())).unwrap();
            assert_eq!(a.data.as_deref(), Some("{\"config_loaded\":false,\"python_running\":true}"));
        }
        Reply::Done(_) => panic!("expected a send"),
    }
}

#[test]
fn recording_commands() {
    assert_eq!(start_recording(&mut idle(), "/r").unwrap_err(), "Python executor not running");
    match start_recording(&mut running(), "/rec").unwrap() {
        Reply::Send(p) => {
            assert_eq!(p.command.command, "start_recording");
            let a = p.complete(Ok(())).unwrap();
            assert_eq!(a.message.as_deref(), Some("Recording start command sent"));
            assert_eq!(a.data.as_deref(), Some("{\"base_dir\":\"/rec\"}"));
        }
        Reply::Done(_) => panic!("expected a send"),
    }
    let mut none: Option<PythonBridge<u32>> = None;
    assert_eq!(stop_recording(&mut none).unwrap_err(), "Python executor not initialized");
    match stop_recording(&mut running()).unwrap() {
        Reply::Send(p) => assert_eq!(p.failure_prefix, "Failed to stop recording: "),
        Reply::Done(_) => panic!("expected a send"),
    }
}

#[test]
fn recording_status_without_worker() {
    match get_recording_status(&mut idle()) {
        Reply::Done(a) => assert_eq!(a.data.as_deref(), Some("{\"is_recording\":false}")),
        Reply::Send(_) => panic!("nothing to send"),
    }
    match get_recording_status(&mut running()) {
        Reply::Send(p) => {
            assert_eq!(p.command.command, "recording_status");
            let a = p.complete(Ok(())).unwrap();
            assert_eq!(a.message.as_deref(), Some("Recording status command sent"));
        }
        Reply::Done(_) => panic!("expected a send"),
    }
}

#[test]
fn start_answers() {
    let r = start_refusal(&running()).unwrap();
    assert!(!r.success);
    assert_eq!(r.message.as_deref(), Some("Python executor already running"));
    assert!(start_refusal(&idle()).is_none());
    assert!(start_refusal::<u32>(&None).is_none());
    let a = started_response("mock");
    assert!(a.success);
    assert_eq!(a.message.as_deref(), Some("Python executor started with mock mode"));
    assert_eq!(stopped_response().message.as_deref(), Some("Python executor stopped"));
    assert_eq!(failure("X: ", &BridgeError::AlreadyRunning), "X: Python process already running");
}
