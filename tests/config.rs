use gibberish::config::env_names_unique;
use gibberish::config::{
    finish_loading, parse_usize, parse_usize_env_var, ConfigError, LlmConfig, SessionConfig,
    ShellConfig, SkinMode,
};

const TEST_INITIAL_PROMPT: &str = "Use raw_input tool.";

fn base_config(api_key: &str) -> SessionConfig {
    let env = vec![
        ("COLUMNS".to_string(), "80".to_string()),
        ("LINES".to_string(), "24".to_string()),
    ];
    SessionConfig {
        wait_ms: 1000,
        yolo: false,
        shell: ShellConfig {
            program: "/bin/bash".to_string(),
            args: vec!["--noprofile".to_string()],
            env,
        },
        llm: LlmConfig {
            api_key: api_key.to_string(),
            skin: SkinMode::Default,
            initial_prompt: TEST_INITIAL_PROMPT.to_string(),
        },
    }
}

#[test]
fn uses_env_api_key_when_config_api_key_is_missing() {
    let mut config = base_config("");
    config.resolve_llm_api_key(Some("env-key".to_string()));

    assert_eq!(config.llm.api_key, "env-key");
}

#[test]
fn keeps_config_api_key_when_present() {
    let mut config = base_config("config-key");
    config.resolve_llm_api_key(Some("env-key".to_string()));

    assert_eq!(config.llm.api_key, "config-key");
}

#[test]
fn ignores_blank_env_api_key() {
    let mut config = base_config("");
    config.resolve_llm_api_key(Some("   ".to_string()));

    assert!(config.validate_llm().is_err());
}

#[test]
fn reads_terminal_size_from_env() {
    let config = base_config("k");
    assert_eq!(config.terminal_size(), Ok((80, 24)));
}

#[test]
fn reports_missing_columns() {
    let mut config = base_config("k");
    config.shell.env.remove(0);
    assert_eq!(
        config.terminal_size(),
        Err(ConfigError::MissingVariable("COLUMNS".to_string()))
    );
}

#[test]
fn reports_non_numeric_lines() {
    let mut config = base_config("k");
    config.shell.env[1].1 = "24x".to_string();
    assert_eq!(
        config.terminal_size(),
        Err(ConfigError::NotANumber("LINES".to_string(), "24x".to_string()))
    );
}

#[test]
fn rejects_zero_columns_and_rows() {
    let mut config = base_config("k");
    config.shell.env[0].1 = "0".to_string();
    assert_eq!(config.terminal_size(), Err(ConfigError::ZeroColumns));
    config.shell.env[0].1 = "80".to_string();
    config.shell.env[1].1 = "+0".to_string();
    assert_eq!(config.terminal_size(), Err(ConfigError::ZeroRows));
}

#[test]
fn parses_unsigned_numerals() {
    assert_eq!(parse_usize("80"), Some(80));
    assert_eq!(parse_usize("+7"), Some(7));
    assert_eq!(parse_usize("007"), Some(7));
    assert_eq!(parse_usize(""), None);
    assert_eq!(parse_usize("+"), None);
    assert_eq!(parse_usize("-1"), None);
    assert_eq!(parse_usize(" 1"), None);
    assert_eq!(parse_usize("18446744073709551615"), Some(usize::MAX));
    assert_eq!(parse_usize("18446744073709551616"), None);
}

#[test]
fn env_variable_lookup_is_case_sensitive() {
    let env = vec![("columns".to_string(), "10".to_string())];
    assert_eq!(
        parse_usize_env_var(&env, "COLUMNS"),
        Err(ConfigError::MissingVariable("COLUMNS".to_string()))
    );
}

#[test]
fn validates_llm_settings_in_order() {
    let config = base_config(" \t");
    assert_eq!(config.validate_llm(), Err(ConfigError::EmptyApiKey));
    let mut config = base_config("key");
    config.llm.initial_prompt = "\n".to_string();
    assert_eq!(config.validate_llm(), Err(ConfigError::EmptyInitialPrompt));
    assert_eq!(base_config("key").validate_llm(), Ok(()));
}

#[test]
fn finish_loading_takes_key_from_environment() {
    let loaded = finish_loading(base_config(""), Some("env-key".to_string())).expect("valid");
    assert_eq!(loaded.llm.api_key, "env-key");
    let refused = finish_loading(base_config(""), None);
    assert_eq!(refused.err(), Some(ConfigError::EmptyApiKey));
}

#[test]
fn config_error_messages() {
    assert_eq!(
        ConfigError::MissingVariable("LINES".to_string()).message(),
        "missing shell.env.LINES"
    );
    assert_eq!(
        ConfigError::ZeroColumns.message(),
        "shell.env.COLUMNS must be greater than zero"
    );
}

#[test]
fn detects_repeated_env_names() {
    let mut config = base_config("k");
    assert!(env_names_unique(&config.shell.env));
    config.shell.env.push(("LINES".to_string(), "30".to_string()));
    assert!(!env_names_unique(&config.shell.env));
}
