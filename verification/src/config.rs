//! The gateway's settings, resolved once from the environment's variables.
use vstd::prelude::*;
use crate::text::{parse_u64, parse_u64_spec, text_eq, text_view, trim, trim_spec};

verus! {

/// The endpoint that is used where none is configured.
pub const DEFAULT_BASE_URL: &'static str = "https://api.datalens.tech";

/// The API version that is sent where none is configured.
pub const DEFAULT_API_VERSION: &'static str = "0";

/// The time allowed for one call, in seconds, where none is configured.
pub const DEFAULT_TIMEOUT_SECONDS: u64 = 30;

/// The settings of the gateway. They are read when the process starts and
/// never change afterwards.
#[derive(Debug, Clone, PartialEq, Eq)]
pub struct AppConfig {
    pub base_url: String,
    pub api_version: String,
    pub org_id: Option<String>,
    pub subject_token: Option<String>,
    pub timeout_seconds: u64,
}

/// What an `AppConfig` holds.
pub struct AppConfigView {
    pub base_url: Seq<char>,
    pub api_version: Seq<char>,
    pub org_id: Option<Seq<char>>,
    pub subject_token: Option<Seq<char>>,
    pub timeout_seconds: u64,
}

impl View for AppConfig {
    type V = AppConfigView;

    open spec fn view(&self) -> AppConfigView {
        AppConfigView {
            base_url: self.base_url@,
            api_version: self.api_version@,
            org_id: text_view(self.org_id),
            subject_token: text_view(self.subject_token),
            timeout_seconds: self.timeout_seconds,
        }
    }
}

/// The value of the first variable called `name`, if there is one.
pub open spec fn env_value(vars: Seq<(String, String)>, name: Seq<char>) -> Option<Seq<char>>
    decreases vars.len(),
{
    if vars.len() == 0 {
        None
    } else if vars[0].0@ == name {
        Some(vars[0].1@)
    } else {
        env_value(vars.drop_first(), name)
    }
}

/// A setting counts only where, trimmed, it is not empty; it then is its
/// trimmed value.
pub open spec fn non_empty(value: Option<Seq<char>>) -> Option<Seq<char>> {
    match value {
        Some(v) => if trim_spec(v).len() > 0 {
            Some(trim_spec(v))
        } else {
            None
        },
        None => None,
    }
}

/// The first of two settings that is there.
pub open spec fn or_else(first: Option<Seq<char>>, second: Option<Seq<char>>) -> Option<
    Seq<char>,
> {
    if first is Some {
        first
    } else {
        second
    }
}

/// The time allowed for a call under the setting `raw`: the positive whole
/// number of seconds that it writes, else the default.
pub open spec fn timeout_spec(raw: Option<Seq<char>>) -> u64 {
    match raw {
        Some(text) => match parse_u64_spec(text) {
            Some(seconds) => if seconds > 0 {
                seconds
            } else {
                DEFAULT_TIMEOUT_SECONDS
            },
            None => DEFAULT_TIMEOUT_SECONDS,
        },
        None => DEFAULT_TIMEOUT_SECONDS,
    }
}

/// The settings that the variables `vars` give.
pub open spec fn config_spec(vars: Seq<(String, String)>) -> AppConfigView {
    AppConfigView {
        base_url: match non_empty(env_value(vars, "DATALENS_BASE_URL"@)) {
            Some(url) => url,
            None => DEFAULT_BASE_URL@,
        },
        api_version: match non_empty(env_value(vars, "DATALENS_API_VERSION"@)) {
            Some(version) => version,
            None => DEFAULT_API_VERSION@,
        },
        org_id: non_empty(env_value(vars, "DATALENS_ORG_ID"@)),
        subject_token: or_else(
            non_empty(env_value(vars, "DATALENS_IAM_TOKEN"@)),
            or_else(
                non_empty(env_value(vars, "YC_IAM_TOKEN"@)),
                non_empty(env_value(vars, "DATALENS_SUBJECT_TOKEN"@)),
            ),
        ),
        timeout_seconds: timeout_spec(non_empty(env_value(vars, "DATALENS_TIMEOUT_SECONDS"@))),
    }
}

/// The trimmed value of the variable `name`, unless the variable is missing
/// or blank.
pub fn env_non_empty(vars: &Vec<(String, String)>, name: &str) -> (value: Option<String>)
    ensures
        text_view(value) == non_empty(env_value(vars@, name@)),
{
    let mut i: usize = 0;
    assert(vars@.skip(0) =~= vars@);
    while i < vars.len()
        invariant
            i <= vars.len(),
            env_value(vars@, name@) == env_value(vars@.skip(i as int), name@),
        decreases vars.len() - i,
    {
        if text_eq(vars[i].0.as_str(), name) {
            let trimmed = trim(vars[i].1.as_str());
            return if trimmed.is_empty() {
                None
            } else {
                Some(trimmed.to_owned())
            };
        }
        assert(vars@.skip(i as int).drop_first() =~= vars@.skip(i + 1));
        i += 1;
    }
    None
}

/// The time allowed for one call, in seconds, as the variable
/// `DATALENS_TIMEOUT_SECONDS` sets it. A value that is no positive whole
/// number gives the default of 30 seconds.
pub fn parse_timeout_seconds(vars: &Vec<(String, String)>) -> (seconds: u64)
    ensures
        seconds == timeout_spec(non_empty(env_value(vars@, "DATALENS_TIMEOUT_SECONDS"@))),
        seconds > 0,
{
    match env_non_empty(vars, "DATALENS_TIMEOUT_SECONDS") {
        Some(raw) => match parse_u64(raw.as_str()) {
            Some(value) => if value > 0 {
                value
            } else {
                DEFAULT_TIMEOUT_SECONDS
            },
            None => DEFAULT_TIMEOUT_SECONDS,
        },
        None => DEFAULT_TIMEOUT_SECONDS,
    }
}

impl AppConfig {
    /// Resolves the settings from the environment's variables, given as
    /// pairs of name and value. The credential is the first that is set of
    /// `DATALENS_IAM_TOKEN`, `YC_IAM_TOKEN` and `DATALENS_SUBJECT_TOKEN`.
    pub fn from_env(vars: &Vec<(String, String)>) -> (cfg: AppConfig)
        ensures
            cfg@ == config_spec(vars@),
    {
        let timeout_seconds = parse_timeout_seconds(vars);
        let base_url = match env_non_empty(vars, "DATALENS_BASE_URL") {
            Some(url) => url,
            None => DEFAULT_BASE_URL.to_owned(),
        };
        let api_version = match env_non_empty(vars, "DATALENS_API_VERSION") {
            Some(version) => version,
            None => DEFAULT_API_VERSION.to_owned(),
        };
        let org_id = env_non_empty(vars, "DATALENS_ORG_ID");
        let subject_token = match env_non_empty(vars, "DATALENS_IAM_TOKEN") {
            Some(token) => Some(token),
            None => match env_non_empty(vars, "YC_IAM_TOKEN") {
                Some(token) => Some(token),
                None => env_non_empty(vars, "DATALENS_SUBJECT_TOKEN"),
            },
        };
        AppConfig { base_url, api_version, org_id, subject_token, timeout_seconds }
    }
}

} // verus!
