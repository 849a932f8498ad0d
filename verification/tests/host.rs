use agent_os_kernel::host::{
    decimal_text, hostd_arguments, hostd_executable_file_name, ExternalRuntimeModelConfig,
    HostRuntimeModelConfig, ProviderRuntimeModelConfig, StdioHostConfig,
};
use std::path::PathBuf;

#[test]
fn stdio_host_config_defaults_to_no_runtime_model() {
    let config = StdioHostConfig::state_db("state.sqlite");

    assert_eq!(PathBuf::from(&config.state_db), PathBuf::from("state.sqlite"));
    assert_eq!(config.max_steps, None);
    assert!(config.model_args.is_empty());
}

#[test]
fn hostd_file_name_depends_on_platform() {
    assert_eq!(hostd_executable_file_name(true), "agent-os-hostd.exe");
    assert_eq!(hostd_executable_file_name(false), "agent-os-hostd");
}

#[test]
fn decimal_text_writes_numbers_without_leading_zeros() {
    assert_eq!(decimal_text(0), "0");
    assert_eq!(decimal_text(7), "7");
    assert_eq!(decimal_text(10), "10");
    assert_eq!(decimal_text(2048), "2048");
    assert_eq!(decimal_text(u64::MAX), "18446744073709551615");
}

#[test]
fn default_config_starts_host_with_state_db_only() {
    let config = StdioHostConfig::state_db("state.sqlite");
    assert_eq!(
        hostd_arguments(&config),
        vec!["--stdio".to_string(), "--state-db".to_string(), "state.sqlite".to_string()]
    );
}

#[test]
fn full_config_passes_every_setting_to_host() {
    let mut config = StdioHostConfig::state_db("data/state.sqlite");
    config.model_command = Some("model-runner".to_string());
    config.model_args = vec!["--fast".to_string(), "--quiet".to_string()];
    config.model = Some("openai/gpt-4o".to_string());
    config.provider_config = Some("config.json".to_string());
    config.max_steps = Some(16);
    config.max_tokens = Some(2048);
    config.temperature = Some("0.2".to_string());
    let expected: Vec<String> = [
        "--stdio",
        "--state-db",
        "data/state.sqlite",
        "--model-command",
        "model-runner",
        "--model-arg",
        "--fast",
        "--model-arg",
        "--quiet",
        "--model",
        "openai/gpt-4o",
        "--provider-config",
        "config.json",
        "--max-steps",
        "16",
        "--max-tokens",
        "2048",
        "--temperature",
        "0.2",
    ]
    .iter()
    .map(|s| s.to_string())
    .collect();
    assert_eq!(hostd_arguments(&config), expected);
}

#[test]
fn model_args_without_model_command_are_not_passed() {
    let mut config = StdioHostConfig::state_db("state.sqlite");
    config.model_args = vec!["--ignored".to_string()];
    config.max_steps = Some(1);
    assert_eq!(
        hostd_arguments(&config),
        vec![
            "--stdio".to_string(),
            "--state-db".to_string(),
            "state.sqlite".to_string(),
            "--max-steps".to_string(),
            "1".to_string()
        ]
    );
}

#[test]
fn runtime_model_configs_compare_by_value() {
    let external = HostRuntimeModelConfig::External(ExternalRuntimeModelConfig {
        program: "runner".to_string(),
        args: vec!["--x".to_string()],
        max_steps: 16,
    });
    assert_eq!(external.clone(), external);
    let provider = HostRuntimeModelConfig::Provider(ProviderRuntimeModelConfig {
        model: Some("mock/mock-provider-model".to_string()),
        config_path: None,
        max_steps: 16,
        max_tokens: Some(2048),
        temperature: None,
    });
    assert_ne!(external, provider);
}
