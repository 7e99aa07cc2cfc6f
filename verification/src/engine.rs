//! The call engine: what is sent for a call, and what the answer means.
//!
//! The engine decides and the caller carries out. `build_request` says what
//! to send, or why nothing is sent; `classify_response` and
//! `transport_failure` say how the exchange ended.
use vstd::prelude::*;
use vstd::string::*;
use vstd::utf8::*;
use crate::config::{AppConfig, AppConfigView};
use crate::json::{parse_json, json_parse, outcome_view, JsonObject, JsonValue, JsonView};
use crate::outcome::{CallOutcome, CallOutcomeView, MissingSetting, RequestError, RequestErrorView};
use crate::text::{
    is_blank,
    join,
    lemma_trim_empty_iff_blank,
    starts_with,
    strip_trailing,
    strip_trailing_spec,
    trim,
    truncate_utf8,
    truncate_utf8_spec,
};

verus! {

/// The number of bytes of a response body that a diagnostic may carry.
pub const DIAGNOSTIC_BODY_LIMIT: usize = 2000;

/// A request, ready to be sent as `POST` with `body` as JSON.
#[derive(Debug, PartialEq)]
pub struct RpcRequest {
    pub url: String,
    pub headers: Vec<(String, String)>,
    pub body: JsonObject,
    pub timeout_seconds: u64,
}

/// What an `RpcRequest` holds.
pub struct RpcRequestView {
    pub url: Seq<char>,
    pub headers: Seq<(Seq<char>, Seq<char>)>,
    pub body: Map<Seq<char>, JsonView>,
    pub timeout_seconds: u64,
}

/// The names and values of a list of headers.
pub open spec fn headers_view(headers: Seq<(String, String)>) -> Seq<(Seq<char>, Seq<char>)> {
    Seq::new(headers.len(), |i: int| (headers[i].0@, headers[i].1@))
}

impl View for RpcRequest {
    type V = RpcRequestView;

    open spec fn view(&self) -> RpcRequestView {
        RpcRequestView {
            url: self.url@,
            headers: headers_view(self.headers@),
            body: self.body@,
            timeout_seconds: self.timeout_seconds,
        }
    }
}

/// The value of the legacy authorization header for a credential: the
/// credential itself where it begins with `OAuth `, else the credential
/// behind that prefix.
pub open spec fn legacy_auth_spec(credential: Seq<char>) -> Seq<char> {
    if "OAuth "@.is_prefix_of(credential) {
        credential
    } else {
        "OAuth "@ + credential
    }
}

/// The value of the legacy authorization header for `credential`.
pub fn legacy_auth_header(credential: &str) -> (value: String)
    ensures
        value@ == legacy_auth_spec(credential@),
{
    if starts_with(credential, "OAuth ") {
        credential.to_owned()
    } else {
        join("OAuth ", credential)
    }
}

/// Prefixing is idempotent: the header made from a header is that header,
/// so a credential is never prefixed twice.
pub proof fn lemma_legacy_auth_idempotent(credential: Seq<char>)
    ensures
        legacy_auth_spec(legacy_auth_spec(credential)) == legacy_auth_spec(credential),
        "OAuth "@.is_prefix_of(legacy_auth_spec(credential)),
{
    let prefix = "OAuth "@;
    if !prefix.is_prefix_of(credential) {
        assert((prefix + credential).subrange(0, prefix.len() as int) =~= prefix);
    }
}

/// The address of `method` under `base_url`: the base without its trailing
/// slashes, then `/rpc/` and the method's name.
pub open spec fn rpc_url_spec(base_url: Seq<char>, method: Seq<char>) -> Seq<char> {
    strip_trailing_spec(base_url, '/') + "/rpc/"@ + method
}

/// The address to which a call of `method` is posted.
pub fn rpc_url(base_url: &str, method: &str) -> (url: String)
    ensures
        url@ == rpc_url_spec(base_url@, method@),
{
    let mut url = join(strip_trailing(base_url, '/'), "/rpc/");
    url.append(method);
    url
}

/// Whether a byte may stand in a header's value: a tab, or anything from
/// the space upwards but the delete character.
pub open spec fn is_header_byte(b: u8) -> bool {
    (b >= 32 && b != 127) || b == 9
}

/// Whether `text` can be a header's value: every byte of it may stand in
/// one.
pub open spec fn is_header_value(text: Seq<char>) -> bool {
    forall|i: int|
        0 <= i < encode_utf8(text).len() ==> is_header_byte(#[trigger] encode_utf8(text)[i])
}

/// Calls `reqwest::header::HeaderValue::from_str` and says whether it
/// accepted the text. The contract claims what the function's source shows:
/// it accepts a text exactly when every byte of it is a tab or is at least
/// 32 and not 127.
#[verifier::external_body]
fn header_value_accepted(value: &str) -> (accepted: bool)
    ensures
        accepted == is_header_value(value@),
{
    reqwest::header::HeaderValue::from_str(value).is_ok()
}

/// The headers of a call, in the order in which they are set.
pub open spec fn request_headers(
    api_version: Seq<char>,
    org_id: Seq<char>,
    credential: Seq<char>,
) -> Seq<(Seq<char>, Seq<char>)> {
    seq![
        ("accept"@, "application/json"@),
        ("content-type"@, "application/json"@),
        ("x-dl-api-version"@, api_version),
        ("x-dl-org-id"@, org_id),
        ("x-yacloud-subjecttoken"@, credential),
        ("x-dl-auth-token"@, legacy_auth_spec(credential)),
    ]
}

/// The message for a header whose value cannot be sent.
pub open spec fn invalid_header_message(name: Seq<char>) -> Seq<char> {
    "invalid header value for `"@ + name + "`: failed to parse header value"@
}

/// The first of the configured headers whose value cannot be sent, if any.
pub open spec fn first_invalid_header(
    api_version: Seq<char>,
    org_id: Seq<char>,
    credential: Seq<char>,
) -> Option<Seq<char>> {
    if !is_header_value(api_version) {
        Some("x-dl-api-version"@)
    } else if !is_header_value(org_id) {
        Some("x-dl-org-id"@)
    } else if !is_header_value(credential) {
        Some("x-yacloud-subjecttoken"@)
    } else if !is_header_value(legacy_auth_spec(credential)) {
        Some("x-dl-auth-token"@)
    } else {
        None
    }
}

/// What is sent for a call of `method` with `payload` under `cfg`, or why
/// nothing is sent. The checks are made in this order: the payload is an
/// object; the organization id is set; the credential is set; each header's
/// value can be sent.
pub open spec fn request_spec(cfg: AppConfigView, method: Seq<char>, payload: JsonView) -> Result<
    RpcRequestView,
    RequestErrorView,
> {
    if !(payload is Object) {
        Err(
            RequestErrorView::InvalidArguments {
                method: method,
                message: "payload must be a JSON object"@,
            },
        )
    } else if cfg.org_id is None {
        Err(
            RequestErrorView::Configuration {
                method: method,
                missing: MissingSetting::OrganizationId,
            },
        )
    } else if cfg.subject_token is None {
        Err(RequestErrorView::Configuration { method: method, missing: MissingSetting::Credential })
    } else {
        let org_id = cfg.org_id->0;
        let credential = cfg.subject_token->0;
        match first_invalid_header(cfg.api_version, org_id, credential) {
            Some(name) => Err(
                RequestErrorView::InvalidArguments {
                    method: method,
                    message: invalid_header_message(name),
                },
            ),
            None => Ok(
                RpcRequestView {
                    url: rpc_url_spec(cfg.base_url, method),
                    headers: request_headers(cfg.api_version, org_id, credential),
                    body: payload->Object_0,
                    timeout_seconds: cfg.timeout_seconds,
                },
            ),
        }
    }
}

/// Without an organization id or without a credential nothing is sent,
/// whatever the method and whatever object the payload is: the call fails
/// with a configuration error that names the missing setting.
pub proof fn lemma_missing_setting_stops_the_call(
    cfg: AppConfigView,
    method: Seq<char>,
    payload: JsonView,
)
    requires
        payload is Object,
        cfg.org_id is None || cfg.subject_token is None,
    ensures
        request_spec(cfg, method, payload) == Err::<RpcRequestView, RequestErrorView>(
            RequestErrorView::Configuration {
                method: method,
                missing: if cfg.org_id is None {
                    MissingSetting::OrganizationId
                } else {
                    MissingSetting::Credential
                },
            },
        ),
{
}

/// The meaning of a request or of the reason for none.
pub open spec fn request_view(request: Result<RpcRequest, RequestError>) -> Result<
    RpcRequestView,
    RequestErrorView,
> {
    match request {
        Ok(r) => Ok(r@),
        Err(e) => Err(e@),
    }
}

fn invalid_header(method: &str, name: &str) -> (error: RequestError)
    ensures
        error@ == (RequestErrorView::InvalidArguments {
            method: method@,
            message: invalid_header_message(name@),
        }),
{
    let mut message = join("invalid header value for `", name);
    message.append("`: failed to parse header value");
    RequestError::InvalidArguments { method: method.to_owned(), message }
}

/// Prepares the call of `method` with `payload`. Nothing is sent where the
/// payload is no object, where the organization id or the credential is
/// missing, or where a header's value cannot be sent.
pub fn build_request(cfg: &AppConfig, method: &str, payload: JsonValue) -> (request: Result<
    RpcRequest,
    RequestError,
>)
    ensures
        request_view(request) == request_spec(cfg@, method@, payload@),
{
    let body = match payload {
        JsonValue::Object(object) => object,
        _ => {
            return Err(
                RequestError::InvalidArguments {
                    method: method.to_owned(),
                    message: "payload must be a JSON object".to_owned(),
                },
            );
        },
    };
    let org_id = match &cfg.org_id {
        Some(org_id) => org_id,
        None => {
            return Err(
                RequestError::Configuration {
                    method: method.to_owned(),
                    missing: MissingSetting::OrganizationId,
                },
            );
        },
    };
    let credential = match &cfg.subject_token {
        Some(credential) => credential,
        None => {
            return Err(
                RequestError::Configuration {
                    method: method.to_owned(),
                    missing: MissingSetting::Credential,
                },
            );
        },
    };
    let url = rpc_url(cfg.base_url.as_str(), method);
    if !header_value_accepted(cfg.api_version.as_str()) {
        return Err(invalid_header(method, "x-dl-api-version"));
    }
    if !header_value_accepted(org_id.as_str()) {
        return Err(invalid_header(method, "x-dl-org-id"));
    }
    if !header_value_accepted(credential.as_str()) {
        return Err(invalid_header(method, "x-yacloud-subjecttoken"));
    }
    let legacy = legacy_auth_header(credential.as_str());
    if !header_value_accepted(legacy.as_str()) {
        return Err(invalid_header(method, "x-dl-auth-token"));
    }
    let mut headers: Vec<(String, String)> = Vec::new();
    headers.push(("accept".to_owned(), "application/json".to_owned()));
    headers.push(("content-type".to_owned(), "application/json".to_owned()));
    headers.push(("x-dl-api-version".to_owned(), cfg.api_version.clone()));
    headers.push(("x-dl-org-id".to_owned(), org_id.clone()));
    headers.push(("x-yacloud-subjecttoken".to_owned(), credential.clone()));
    headers.push(("x-dl-auth-token".to_owned(), legacy));
    assert(headers_view(headers@) =~= request_headers(cfg@.api_version, org_id@, credential@));
    Ok(RpcRequest { url, headers, body, timeout_seconds: cfg.timeout_seconds })
}

/// Whether a status reports success: 200 to 299.
pub open spec fn is_success_status(status: u16) -> bool {
    200 <= status < 300
}

/// The detail that stands for a response body in an error: the body as JSON
/// where it reads as JSON, else its text, cut to the diagnostic limit.
/// `parsed` is what reading the body as JSON gave.
pub open spec fn response_data_spec(
    body: Seq<char>,
    parsed: Result<JsonView, Seq<char>>,
) -> JsonView {
    match parsed {
        Ok(value) => value,
        Err(_) => JsonView::String(truncate_utf8_spec(body, DIAGNOSTIC_BODY_LIMIT as int)),
    }
}

/// The detail for `body`, given what reading it as JSON gave.
pub fn response_data_from(body: &str, parsed: Result<JsonValue, String>) -> (detail: JsonValue)
    ensures
        detail@ == response_data_spec(body@, outcome_view(parsed)),
{
    match parsed {
        Ok(value) => value,
        Err(_) => JsonValue::String(truncate_utf8(body, DIAGNOSTIC_BODY_LIMIT)),
    }
}

/// The detail that stands for a response body in an error: the body as JSON
/// where it reads as JSON, else its text, cut to the diagnostic limit.
pub fn parse_response_data(body: &str) -> (detail: JsonValue)
    ensures
        detail@ == response_data_spec(body@, json_parse(body@)),
{
    response_data_from(body, parse_json(body))
}

/// What is said of a body that is JSON but no object.
pub open spec fn not_an_object() -> Seq<char> {
    "the response is not a JSON object"@
}

/// How an exchange ended that brought back `status` and `body`, where
/// `parsed` is what reading the body as JSON gave. The cases are tried in
/// this order: a status outside 200 to 299 is an upstream error; a blank
/// body is an empty success; a body that is a JSON object is a success with
/// that object; anything else is a decode error.
pub open spec fn classify_spec(
    method: Seq<char>,
    status: u16,
    body: Seq<char>,
    parsed: Result<JsonView, Seq<char>>,
) -> CallOutcomeView {
    if !is_success_status(status) {
        CallOutcomeView::UpstreamError {
            method: method,
            status: status,
            detail: response_data_spec(body, parsed),
        }
    } else if is_blank(body) {
        CallOutcomeView::EmptySuccess
    } else {
        match parsed {
            Ok(JsonView::Object(object)) => CallOutcomeView::ObjectSuccess(object),
            Ok(_) => CallOutcomeView::DecodeError {
                method: method,
                cause: not_an_object(),
                body: truncate_utf8_spec(body, DIAGNOSTIC_BODY_LIMIT as int),
            },
            Err(cause) => CallOutcomeView::DecodeError {
                method: method,
                cause: cause,
                body: truncate_utf8_spec(body, DIAGNOSTIC_BODY_LIMIT as int),
            },
        }
    }
}

/// Classifies an answer, given what reading its body as JSON gave.
pub fn classify_parsed(
    method: &str,
    status: u16,
    body: &str,
    parsed: Result<JsonValue, String>,
) -> (outcome: CallOutcome)
    ensures
        outcome@ == classify_spec(method@, status, body@, outcome_view(parsed)),
{
    if !(200 <= status && status < 300) {
        return CallOutcome::UpstreamError {
            method: method.to_owned(),
            status,
            detail: response_data_from(body, parsed),
        };
    }
    proof {
        lemma_trim_empty_iff_blank(body@);
    }
    if trim(body).is_empty() {
        return CallOutcome::EmptySuccess;
    }
    match parsed {
        Ok(JsonValue::Object(object)) => CallOutcome::ObjectSuccess(object),
        Ok(_) => CallOutcome::DecodeError {
            method: method.to_owned(),
            cause: "the response is not a JSON object".to_owned(),
            body: truncate_utf8(body, DIAGNOSTIC_BODY_LIMIT),
        },
        Err(cause) => CallOutcome::DecodeError {
            method: method.to_owned(),
            cause,
            body: truncate_utf8(body, DIAGNOSTIC_BODY_LIMIT),
        },
    }
}

/// Classifies the answer to a call of `method`: its status and the text of
/// its body.
pub fn classify_response(method: &str, status: u16, body: &str) -> (outcome: CallOutcome)
    ensures
        outcome@ == classify_spec(method@, status, body@, json_parse(body@)),
{
    classify_parsed(method, status, body, parse_json(body))
}

/// The outcome of a call of `method` that did not get through, with the
/// words of the cause.
pub fn transport_failure(method: &str, cause: &str) -> (outcome: CallOutcome)
    ensures
        outcome@ == (CallOutcomeView::TransportError { method: method@, cause: cause@ }),
{
    CallOutcome::TransportError { method: method.to_owned(), cause: cause.to_owned() }
}

} // verus!
