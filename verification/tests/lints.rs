use cargo_clippy_lints::errors::LintError;
use cargo_clippy_lints::lints::{ConfigFile, Lints};

#[test]
fn deny_flags_preserve_order() {
    let l = Lints {
        deny: vec!["a".to_string(), "b".to_string()],
        warn: vec![],
        allow: vec![],
    };
    let expected = vec!["-D".to_string(), "a".to_string(), "-D".to_string(), "b".to_string()];
    assert_eq!(l.deny_flags(), expected);
}

#[test]
fn warn_and_allow_flags_use_their_markers() {
    let l = Lints {
        deny: vec![],
        warn: vec!["w".to_string()],
        allow: vec!["x".to_string()],
    };
    assert_eq!(l.warn_flags(), vec!["-W".to_string(), "w".to_string()]);
    assert_eq!(l.allow_flags(), vec!["-A".to_string(), "x".to_string()]);
    assert!(l.deny_flags().is_empty());
}

#[test]
fn duplicate_lints_pass_through() {
    let l = Lints {
        deny: vec!["a".to_string(), "a".to_string()],
        warn: vec![],
        allow: vec![],
    };
    let expected = vec!["-D".to_string(), "a".to_string(), "-D".to_string(), "a".to_string()];
    assert_eq!(l.deny_flags(), expected);
}

#[test]
fn missing_file_yields_default_with_no_flags() {
    let l = Lints::from_config(None).unwrap();
    assert!(l.deny_flags().is_empty());
    assert!(l.warn_flags().is_empty());
    assert!(l.allow_flags().is_empty());
}

#[test]
fn full_config_is_parsed_in_order() {
    let contents = "deny = [\"x\"]\nwarn = [\"w1\", \"w2\"]\nallow = []\n";
    let l = Lints::from_config_with_path("lints.toml", contents).unwrap();
    assert_eq!(l.deny, vec!["x".to_string()]);
    assert_eq!(l.warn, vec!["w1".to_string(), "w2".to_string()]);
    assert!(l.allow.is_empty());
}

#[test]
fn absent_keys_default_to_empty() {
    let l = Lints::from_config_with_path("lints.toml", "warn = [\"w\"]\n").unwrap();
    assert!(l.deny.is_empty());
    assert_eq!(l.warn, vec!["w".to_string()]);
    assert!(l.allow.is_empty());
}

#[test]
fn unknown_keys_are_ignored() {
    let contents = "other = 3\n[extra]\nkey = \"v\"\n";
    let l = Lints::from_config_with_path("lints.toml", contents).unwrap();
    assert!(l.deny.is_empty() && l.warn.is_empty() && l.allow.is_empty());
}

#[test]
fn malformed_toml_is_a_parse_failure() {
    let r = Lints::from_config_with_path("lints.toml", "deny = [");
    match r {
        Err(LintError::ConfigParseFailure { path, detail: _ }) => {
            assert_eq!(path, "lints.toml".to_string());
        }
        other => panic!("expected a parse failure, got {:?}", other),
    }
}

#[test]
fn wrong_key_type_is_a_parse_failure() {
    let r = Lints::from_config_with_path("lints.toml", "deny = 5\n");
    assert!(matches!(r, Err(LintError::ConfigParseFailure { .. })));
}

#[test]
fn wrong_element_type_is_a_parse_failure() {
    let r = Lints::from_config_with_path("lints.toml", "deny = [1]\n");
    assert!(matches!(r, Err(LintError::ConfigParseFailure { .. })));
}

#[test]
fn missing_file_is_distinct_from_malformed_file() {
    assert!(Lints::from_config(None).is_ok());
    let cfg = ConfigFile {
        path: "/p/lints.toml".to_string(),
        contents: "not valid = = toml".to_string(),
    };
    let r = Lints::from_config(Some(&cfg));
    match r {
        Err(LintError::ConfigParseFailure { path, detail: _ }) => {
            assert_eq!(path, "/p/lints.toml".to_string());
        }
        other => panic!("expected a parse failure, got {:?}", other),
    }
}

#[test]
fn parse_failure_message_names_the_file() {
    let e = Lints::from_config_with_path("proj/lints.toml", "deny = [").unwrap_err();
    let m = e.message();
    assert!(m.starts_with("failed to parse config proj/lints.toml: "));
}

#[test]
fn example_scenario() {
    // Working directory /proj/sub, config file at /proj/lints.toml.
    let start = vec!["proj".to_string(), "sub".to_string()];
    let has_config = vec![false, true, false];
    let dir = Lints::find_config_path(&start, &has_config).unwrap();
    assert_eq!(dir, vec!["proj".to_string()]);

    let contents = "deny = [\"unwrap_used\"]\nwarn = []\nallow = [\"dead_code\"]\n";
    let cfg = ConfigFile {
        path: "/proj/lints.toml".to_string(),
        contents: contents.to_string(),
    };
    let l = Lints::from_config(Some(&cfg)).unwrap();
    assert_eq!(l.deny_flags(), vec!["-D".to_string(), "unwrap_used".to_string()]);
    assert!(l.warn_flags().is_empty());
    assert_eq!(l.allow_flags(), vec!["-A".to_string(), "dead_code".to_string()]);

    let args = l.clippy_args(&vec!["--all-targets".to_string()]);
    let expected: Vec<String> = vec![
        "clippy",
        "--all-targets",
        "--",
        "-D",
        "unwrap_used",
        "-A",
        "dead_code",
    ]
    .into_iter()
    .map(|s| s.to_string())
    .collect();
    assert_eq!(args, expected);
}
