use datalens_mcp::config::{
    env_non_empty, parse_timeout_seconds, AppConfig, DEFAULT_API_VERSION, DEFAULT_BASE_URL,
    DEFAULT_TIMEOUT_SECONDS,
};

fn vars(pairs: &[(&str, &str)]) -> Vec<(String, String)> {
    pairs.iter().map(|(k, v)| (k.to_string(), v.to_string())).collect()
}

#[test]
fn from_env_uses_the_defaults_where_nothing_is_set() {
    let cfg = AppConfig::from_env(&vars(&[]));
    assert_eq!(
        cfg,
        AppConfig {
            base_url: "https://api.datalens.tech".to_owned(),
            api_version: "0".to_owned(),
            org_id: None,
            subject_token: None,
            timeout_seconds: 30,
        }
    );
    assert_eq!(DEFAULT_BASE_URL, "https://api.datalens.tech");
    assert_eq!(DEFAULT_API_VERSION, "0");
    assert_eq!(DEFAULT_TIMEOUT_SECONDS, 30);
}

#[test]
fn from_env_reads_and_trims_every_setting() {
    let cfg = AppConfig::from_env(&vars(&[
        ("PATH", "/usr/bin"),
        ("DATALENS_BASE_URL", " http://localhost:9000/ "),
        ("DATALENS_API_VERSION", "2"),
        ("DATALENS_ORG_ID", "org-1\n"),
        ("YC_IAM_TOKEN", "\ttoken"),
        ("DATALENS_TIMEOUT_SECONDS", " 12 "),
    ]));
    assert_eq!(
        cfg,
        AppConfig {
            base_url: "http://localhost:9000/".to_owned(),
            api_version: "2".to_owned(),
            org_id: Some("org-1".to_owned()),
            subject_token: Some("token".to_owned()),
            timeout_seconds: 12,
        }
    );
}

#[test]
fn from_env_takes_the_first_credential_that_is_set() {
    let all = vars(&[
        ("DATALENS_SUBJECT_TOKEN", "third"),
        ("YC_IAM_TOKEN", "second"),
        ("DATALENS_IAM_TOKEN", "first"),
    ]);
    assert_eq!(AppConfig::from_env(&all).subject_token, Some("first".to_owned()));
    let blank_first = vars(&[
        ("DATALENS_IAM_TOKEN", "   "),
        ("YC_IAM_TOKEN", "second"),
        ("DATALENS_SUBJECT_TOKEN", "third"),
    ]);
    assert_eq!(AppConfig::from_env(&blank_first).subject_token, Some("second".to_owned()));
    let only_last = vars(&[("YC_IAM_TOKEN", ""), ("DATALENS_SUBJECT_TOKEN", "third")]);
    assert_eq!(AppConfig::from_env(&only_last).subject_token, Some("third".to_owned()));
    let none = vars(&[("YC_IAM_TOKEN", ""), ("DATALENS_IAM_TOKEN", " ")]);
    assert_eq!(AppConfig::from_env(&none).subject_token, None);
}

#[test]
fn blank_settings_count_as_missing() {
    let cfg = AppConfig::from_env(&vars(&[
        ("DATALENS_BASE_URL", "  "),
        ("DATALENS_API_VERSION", ""),
        ("DATALENS_ORG_ID", "\t"),
    ]));
    assert_eq!(cfg.base_url, "https://api.datalens.tech");
    assert_eq!(cfg.api_version, "0");
    assert_eq!(cfg.org_id, None);
}

#[test]
fn env_non_empty_trims_and_drops_blanks() {
    let env = vars(&[("A", " x "), ("B", "  "), ("C", ""), ("A", "second")]);
    assert_eq!(env_non_empty(&env, "A"), Some("x".to_owned()));
    assert_eq!(env_non_empty(&env, "B"), None);
    assert_eq!(env_non_empty(&env, "C"), None);
    assert_eq!(env_non_empty(&env, "D"), None);
    assert_eq!(env_non_empty(&env, "a"), None);
}

#[test]
fn parse_timeout_seconds_falls_back_on_the_default() {
    let timeout = |value: &str| parse_timeout_seconds(&vars(&[("DATALENS_TIMEOUT_SECONDS", value)]));
    assert_eq!(parse_timeout_seconds(&vars(&[])), 30);
    assert_eq!(timeout("45"), 45);
    assert_eq!(timeout(" 45 "), 45);
    assert_eq!(timeout("+7"), 7);
    assert_eq!(timeout("1"), 1);
    assert_eq!(timeout("0"), 30);
    assert_eq!(timeout("-5"), 30);
    assert_eq!(timeout("abc"), 30);
    assert_eq!(timeout("1.5"), 30);
    assert_eq!(timeout(""), 30);
    assert_eq!(timeout("   "), 30);
    assert_eq!(timeout("18446744073709551615"), u64::MAX);
    assert_eq!(timeout("18446744073709551616"), 30);
}
