use qontinui_runner::config::{
    count_text, join_texts, ConfigLoader, ConfigMetadata, ExecutionMode, ExecutionSettings, QontinuiConfig,
    Settings,
};

fn metadata(name: &str) -> ConfigMetadata {
    ConfigMetadata {
        name: name.to_string(),
        description: None,
        author: None,
        created: None,
        modified: None,
        tags: vec![],
        target_application: None,
    }
}

fn config(version: &str, name: &str, states: usize) -> QontinuiConfig {
    QontinuiConfig {
        version: version.to_string(),
        metadata: metadata(name),
        images: vec![serde_json::Value::Null],
        workflows: vec![serde_json::Value::Null, serde_json::Value::Null],
        states: (0..states).map(|_| serde_json::Value::Null).collect(),
        transitions: vec![],
        categories: vec!["a".to_string()],
        settings: None,
    }
}

fn execution(mode: Option<ExecutionMode>, dir: Option<&str>) -> Settings {
    Settings {
        execution: Some(ExecutionSettings {
            default_timeout: None,
            default_retry_count: None,
            action_delay: None,
            failure_strategy: None,
            headless: None,
            use_graph_execution: None,
            execution_mode: mode,
            screenshot_directory: dir.map(|d| d.to_string()),
        }),
        recognition: None,
        logging: None,
        performance: None,
    }
}

#[test]
fn mode_names_and_tests() {
    assert_eq!(ExecutionMode::Real.as_str(), "real");
    assert_eq!(ExecutionMode::Mock.as_str(), "mock");
    assert_eq!(ExecutionMode::Screenshot.as_str(), "screenshot");
    assert!(ExecutionMode::Mock.is_mock());
    assert!(!ExecutionMode::Mock.is_real());
    assert!(ExecutionMode::Screenshot.is_screenshot());
    assert!(ExecutionMode::Real.is_real());
    assert_eq!(ExecutionMode::default(), ExecutionMode::Real);
}

#[test]
fn valid_config_passes() {
    assert!(config("1.0", "demo", 1).validate().is_ok());
}

#[test]
fn invalid_config_lists_every_problem() {
    let errors = config("", "", 0).validate().unwrap_err();
    assert_eq!(
        errors,
        vec![
            "Configuration version is required",
            "At least one state is required",
            "Configuration name is required"
        ]
    );
    let errors = config("1", "n", 0).validate().unwrap_err();
    assert_eq!(errors, vec!["At least one state is required"]);
}

#[test]
fn loader_joins_problems() {
    let err = ConfigLoader::accept(config("", "x", 0)).err().unwrap();
    assert_eq!(err, "Configuration version is required, At least one state is required");
    assert!(ConfigLoader::accept(config("2", "x", 3)).is_ok());
}

#[test]
fn join_texts_separates() {
    assert_eq!(join_texts(&vec![], ", "), "");
    assert_eq!(join_texts(&vec!["a".to_string()], ", "), "a");
    assert_eq!(join_texts(&vec!["a".to_string(), "b".to_string(), "c".to_string()], "-"), "a-b-c");
}

#[test]
fn summary_counts() {
    let mut c = config("1.2", "demo", 12);
    c.transitions = vec![serde_json::Value::Null; 105];
    assert_eq!(
        c.summary(),
        "Configuration: demo (v1.2)\nStates: 12, Workflows: 2, Transitions: 105, Images: 1, Categories: 1"
    );
}

#[test]
fn execution_mode_from_settings() {
    let mut c = config("1", "n", 1);
    assert_eq!(c.get_execution_mode(), ExecutionMode::Real);
    assert!(c.is_real_mode());
    assert!(c.get_screenshot_directory().is_none());
    c.settings = Some(execution(Some(ExecutionMode::Screenshot), Some("/shots")));
    assert!(c.is_screenshot_mode());
    assert!(!c.is_mock_mode());
    assert_eq!(c.get_screenshot_directory().as_deref(), Some("/shots"));
    c.settings = Some(execution(Some(ExecutionMode::Mock), None));
    assert!(c.is_mock_mode());
    c.settings = Some(execution(None, None));
    assert!(c.is_real_mode());
}

#[test]
fn counts_in_decimal() {
    assert_eq!(count_text(0), "0");
    assert_eq!(count_text(9), "9");
    assert_eq!(count_text(10), "10");
    assert_eq!(count_text(4096), "4096");
    assert_eq!(count_text(usize::MAX), usize::MAX.to_string());
}
