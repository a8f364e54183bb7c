use vultr_cli::config::{
    config_get, config_set, find_profile, parse_u32, resolve_run_settings, Config, HttpSettings, OutputFormat,
    Profile, Settings,
};
use vultr_cli::error::VultrError;
use vultr_cli::handlers::{decode_kubeconfig, encode_user_data};

fn sample() -> Config {
    Config {
        default_profile: "production".to_string(),
        profiles: vec![
            ("default".to_string(), Profile { output_format: Some(OutputFormat::Table) }),
            ("production".to_string(), Profile { output_format: Some(OutputFormat::Json) }),
            ("staging".to_string(), Profile { output_format: None }),
        ],
        settings: Settings::default(),
    }
}

#[test]
fn settings_defaults() {
    let s = Settings::default();
    assert_eq!(s.output_format, OutputFormat::Table);
    assert!(s.confirm_destructive);
    assert_eq!(s.wait_timeout, 600);
    assert_eq!(s.poll_interval, 5);
    assert_eq!(s.http, HttpSettings { timeout: 30, max_retries: 3, backoff_initial_ms: 500, backoff_max_ms: 10_000 });
}

#[test]
fn default_profile_of_the_configuration_is_used() {
    let cfg = sample();
    let run = resolve_run_settings("default", None, false, None, None, &cfg);
    assert_eq!(run.profile, "production");
    assert_eq!(run.output, OutputFormat::Json);
    assert_eq!(run.wait_timeout, 600);
    assert_eq!(run.poll_interval, 5);
    assert!(!run.skip_confirm);
}

#[test]
fn command_line_overrides_the_configuration() {
    let cfg = sample();
    let run = resolve_run_settings("staging", Some(OutputFormat::Table), true, Some(30), Some(2), &cfg);
    assert_eq!(run.profile, "staging");
    assert_eq!(run.output, OutputFormat::Table);
    assert_eq!(run.wait_timeout, 30);
    assert_eq!(run.poll_interval, 2);
    assert!(run.skip_confirm);
}

#[test]
fn profile_without_format_falls_back_to_settings() {
    let mut cfg = sample();
    cfg.settings.output_format = OutputFormat::Json;
    cfg.settings.confirm_destructive = false;
    assert_eq!(resolve_run_settings("staging", None, false, None, None, &cfg).output, OutputFormat::Json);
    assert_eq!(resolve_run_settings("missing", None, false, None, None, &cfg).output, OutputFormat::Json);
    assert!(resolve_run_settings("staging", None, false, None, None, &cfg).skip_confirm);
    cfg.default_profile = "default".to_string();
    let run = resolve_run_settings("default", None, false, None, None, &cfg);
    assert_eq!(run.profile, "default");
    assert_eq!(run.output, OutputFormat::Table);
}

#[test]
fn profiles_are_found_by_name() {
    let cfg = sample();
    assert_eq!(find_profile(&cfg.profiles, "production"), Some(Profile { output_format: Some(OutputFormat::Json) }));
    assert_eq!(find_profile(&cfg.profiles, "nope"), None);
}

#[test]
fn config_get_reads_every_key() {
    let cfg = sample();
    assert_eq!(config_get(&cfg, "output_format").unwrap(), "table");
    assert_eq!(config_get(&cfg, "confirm_destructive").unwrap(), "true");
    assert_eq!(config_get(&cfg, "wait_timeout").unwrap(), "600");
    assert_eq!(config_get(&cfg, "poll_interval").unwrap(), "5");
    assert_eq!(config_get(&cfg, "default_profile").unwrap(), "production");
    assert_eq!(config_get(&cfg, "http.timeout").unwrap(), "30");
    assert_eq!(config_get(&cfg, "http.max_retries").unwrap(), "3");
    assert_eq!(config_get(&cfg, "http.backoff_initial_ms").unwrap(), "500");
    assert_eq!(config_get(&cfg, "http.backoff_max_ms").unwrap(), "10000");
    match config_get(&cfg, "colour") {
        Err(VultrError::InvalidInput(m)) => assert_eq!(
            m,
            "Unknown config key: colour. Valid keys: output_format, confirm_destructive, wait_timeout, \
             poll_interval, default_profile, http.timeout, http.max_retries, http.backoff_initial_ms, \
             http.backoff_max_ms"
        ),
        other => panic!("unexpected {:?}", other),
    }
}

#[test]
fn config_set_changes_one_setting() {
    let mut cfg = sample();
    config_set(&mut cfg, "output_format", "JSON").unwrap();
    assert_eq!(cfg.settings.output_format, OutputFormat::Json);
    config_set(&mut cfg, "confirm_destructive", "false").unwrap();
    assert!(!cfg.settings.confirm_destructive);
    config_set(&mut cfg, "wait_timeout", "+120").unwrap();
    assert_eq!(cfg.settings.wait_timeout, 120);
    config_set(&mut cfg, "poll_interval", "7").unwrap();
    assert_eq!(cfg.settings.poll_interval, 7);
    config_set(&mut cfg, "default_profile", "staging").unwrap();
    assert_eq!(cfg.default_profile, "staging");
    config_set(&mut cfg, "http.timeout", "60").unwrap();
    config_set(&mut cfg, "http.max_retries", "5").unwrap();
    config_set(&mut cfg, "http.backoff_initial_ms", "250").unwrap();
    config_set(&mut cfg, "http.backoff_max_ms", "20000").unwrap();
    assert_eq!(cfg.settings.http, HttpSettings { timeout: 60, max_retries: 5, backoff_initial_ms: 250, backoff_max_ms: 20000 });
    assert_eq!(cfg.profiles.len(), 3);
}

#[test]
fn config_set_rejects_bad_values_and_keys() {
    let mut cfg = sample();
    let before = format!("{:?}", cfg);
    let msg = |r: Result<(), VultrError>| match r {
        Err(VultrError::InvalidInput(m)) => m,
        other => panic!("unexpected {:?}", other),
    };
    assert_eq!(msg(config_set(&mut cfg, "output_format", "yaml")), "Unknown output format: yaml");
    assert_eq!(msg(config_set(&mut cfg, "confirm_destructive", "yes")), "Value must be 'true' or 'false'");
    assert_eq!(msg(config_set(&mut cfg, "wait_timeout", "-1")), "Value must be a positive integer");
    assert_eq!(msg(config_set(&mut cfg, "http.max_retries", "4294967296")), "Value must be a positive integer");
    assert!(msg(config_set(&mut cfg, "colour", "red")).starts_with("Unknown config key: colour. Valid keys:"));
    assert_eq!(format!("{:?}", cfg), before);
}

#[test]
fn parse_u32_matches_std() {
    for s in ["0", "+7", "4294967295", "4294967296", "", "+", "-1", "12a", "99999999999999999999"] {
        assert_eq!(parse_u32(s), s.parse::<u32>().ok(), "{}", s);
    }
}

#[test]
fn output_format_parses_and_prints() {
    assert_eq!("Table".parse::<OutputFormat>(), Ok(OutputFormat::Table));
    assert_eq!("json".parse::<OutputFormat>(), Ok(OutputFormat::Json));
    assert_eq!("xml".parse::<OutputFormat>(), Err("Unknown output format: xml".to_string()));
    assert_eq!(OutputFormat::Json.to_string(), "json");
}

#[test]
fn kubeconfig_is_decoded() {
    assert_eq!(decode_kubeconfig("YXBpVmVyc2lvbjogdjE=").unwrap(), "apiVersion: v1");
    match decode_kubeconfig("not base64!") {
        Err(VultrError::InvalidInput(m)) => assert!(m.starts_with("Failed to decode config: ")),
        other => panic!("unexpected {:?}", other),
    }
    match decode_kubeconfig("//79") {
        Err(VultrError::InvalidInput(m)) => assert!(m.starts_with("Invalid UTF-8 in config: ")),
        other => panic!("unexpected {:?}", other),
    }
}

#[test]
fn decoding_gives_back_what_was_encoded() {
    for text in ["", "a", "ab", "abc", "apiVersion: v1\nkind: Config\n", "ünïcödé ✓"] {
        assert_eq!(decode_kubeconfig(&encode_user_data(text.as_bytes())).unwrap(), text);
    }
    // Non-canonical padding and trailing bits are refused.
    assert!(decode_kubeconfig("YQ").is_err());
    assert!(decode_kubeconfig("YR==").is_err());
}
