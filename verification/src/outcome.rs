//! How a call can end: the outcomes of an exchange with the remote API, the
//! failures that keep a call from being sent, and the one shape in which
//! every failure goes back to the caller.
use vstd::prelude::*;
use crate::json::{JsonNumber, JsonObject, JsonValue, JsonView};
use crate::text::{decimal_spec, decimal_text, join, text_view};

verus! {

/// A setting without which no call can be made.
#[derive(Debug, Clone, Copy, PartialEq, Eq, Structural)]
pub enum MissingSetting {
    OrganizationId,
    Credential,
}

/// Why a call was not sent. No network activity has taken place.
#[derive(Debug, PartialEq)]
pub enum RequestError {
    /// The configuration lacks a setting that every call needs.
    Configuration { method: String, missing: MissingSetting },
    /// The caller's arguments cannot be turned into a request.
    InvalidArguments { method: String, message: String },
}

/// What a `RequestError` holds.
pub enum RequestErrorView {
    Configuration { method: Seq<char>, missing: MissingSetting },
    InvalidArguments { method: Seq<char>, message: Seq<char> },
}

impl View for RequestError {
    type V = RequestErrorView;

    open spec fn view(&self) -> RequestErrorView {
        match self {
            RequestError::Configuration { method, missing } => RequestErrorView::Configuration {
                method: method@,
                missing: *missing,
            },
            RequestError::InvalidArguments {
                method,
                message,
            } => RequestErrorView::InvalidArguments { method: method@, message: message@ },
        }
    }
}

/// How an exchange with the remote API ended.
#[derive(Debug, PartialEq)]
pub enum CallOutcome {
    /// A success status with a blank body.
    EmptySuccess,
    /// A success status with a JSON object as its body.
    ObjectSuccess(JsonObject),
    /// Any other status. `detail` is the body as JSON where it is JSON, else
    /// its text, cut to the diagnostic limit.
    UpstreamError { method: String, status: u16, detail: JsonValue },
    /// The request did not get through, or no answer came in time.
    TransportError { method: String, cause: String },
    /// A success status with a body that is no JSON object. `body` is the
    /// body's text, cut to the diagnostic limit.
    DecodeError { method: String, cause: String, body: String },
}

/// What a `CallOutcome` holds.
pub enum CallOutcomeView {
    EmptySuccess,
    ObjectSuccess(Map<Seq<char>, JsonView>),
    UpstreamError { method: Seq<char>, status: u16, detail: JsonView },
    TransportError { method: Seq<char>, cause: Seq<char> },
    DecodeError { method: Seq<char>, cause: Seq<char>, body: Seq<char> },
}

impl View for CallOutcome {
    type V = CallOutcomeView;

    open spec fn view(&self) -> CallOutcomeView {
        match self {
            CallOutcome::EmptySuccess => CallOutcomeView::EmptySuccess,
            CallOutcome::ObjectSuccess(object) => CallOutcomeView::ObjectSuccess(object@),
            CallOutcome::UpstreamError {
                method,
                status,
                detail,
            } => CallOutcomeView::UpstreamError {
                method: method@,
                status: *status,
                detail: detail@,
            },
            CallOutcome::TransportError { method, cause } => CallOutcomeView::TransportError {
                method: method@,
                cause: cause@,
            },
            CallOutcome::DecodeError { method, cause, body } => CallOutcomeView::DecodeError {
                method: method@,
                cause: cause@,
                body: body@,
            },
        }
    }
}

/// The kinds of failure.
#[derive(Debug, Clone, Copy, PartialEq, Eq, Structural)]
pub enum ErrorCategory {
    Configuration,
    InvalidArguments,
    Transport,
    Upstream,
    Decode,
}

/// A failure as it goes back to the caller: its kind, a message, and a
/// detail object that always names the method.
#[derive(Debug, PartialEq)]
pub struct ToolError {
    pub category: ErrorCategory,
    pub message: String,
    pub detail: JsonObject,
}

/// What a `ToolError` holds.
pub struct ToolErrorView {
    pub category: ErrorCategory,
    pub message: Seq<char>,
    pub detail: Map<Seq<char>, JsonView>,
}

impl View for ToolError {
    type V = ToolErrorView;

    open spec fn view(&self) -> ToolErrorView {
        ToolErrorView { category: self.category, message: self.message@, detail: self.detail@ }
    }
}

/// The detail object that names `method` and nothing else.
pub open spec fn method_detail(method: Seq<char>) -> Map<Seq<char>, JsonView> {
    Map::<Seq<char>, JsonView>::empty().insert("method"@, JsonView::String(method))
}

/// What is said where the organization id is missing.
pub const MISSING_ORGANIZATION_ID: &'static str =
    "DATALENS_ORG_ID environment variable is required";

/// What is said where the credential is missing.
pub const MISSING_CREDENTIAL: &'static str =
    "YC_IAM_TOKEN (or DATALENS_IAM_TOKEN) environment variable is required";

/// The message that tells which setting is missing.
pub open spec fn missing_setting_message(missing: MissingSetting) -> Seq<char> {
    match missing {
        MissingSetting::OrganizationId => MISSING_ORGANIZATION_ID@,
        MissingSetting::Credential => MISSING_CREDENTIAL@,
    }
}

/// A failure to send, as it goes back to the caller.
pub open spec fn request_error_report(error: RequestErrorView) -> ToolErrorView {
    match error {
        RequestErrorView::Configuration { method, missing } => ToolErrorView {
            category: ErrorCategory::Configuration,
            message: missing_setting_message(missing),
            detail: method_detail(method),
        },
        RequestErrorView::InvalidArguments { method, message } => ToolErrorView {
            category: ErrorCategory::InvalidArguments,
            message: message,
            detail: method_detail(method),
        },
    }
}

/// How a status is worded in a message: its status line where it has one,
/// else its number.
pub open spec fn status_words(status: u16, line: Option<Seq<char>>) -> Seq<char> {
    match line {
        Some(words) => words,
        None => decimal_spec(status as nat),
    }
}

/// What the caller gets for an outcome: the object of a success (the empty
/// object for an empty success), else the failure. `line` is the status line
/// of an upstream error's status.
pub open spec fn outcome_report(outcome: CallOutcomeView, line: Option<Seq<char>>) -> Result<
    Map<Seq<char>, JsonView>,
    ToolErrorView,
> {
    match outcome {
        CallOutcomeView::EmptySuccess => Ok(Map::<Seq<char>, JsonView>::empty()),
        CallOutcomeView::ObjectSuccess(object) => Ok(object),
        CallOutcomeView::UpstreamError { method, status, detail } => Err(
            ToolErrorView {
                category: ErrorCategory::Upstream,
                message: "DataLens API returned "@ + status_words(status, line)
                    + " for method "@ + method,
                detail: method_detail(method).insert(
                    "status"@,
                    JsonView::Number(decimal_spec(status as nat)),
                ).insert("response"@, detail),
            },
        ),
        CallOutcomeView::TransportError { method, cause } => Err(
            ToolErrorView {
                category: ErrorCategory::Transport,
                message: "failed to reach DataLens API: "@ + cause,
                detail: method_detail(method),
            },
        ),
        CallOutcomeView::DecodeError { method, cause, body } => Err(
            ToolErrorView {
                category: ErrorCategory::Decode,
                message: "DataLens API returned invalid or non-object JSON: "@ + cause,
                detail: method_detail(method).insert("body"@, JsonView::String(body)),
            },
        ),
    }
}

/// The meaning of an object or a failure.
pub open spec fn report_view(report: Result<JsonObject, ToolError>) -> Result<
    Map<Seq<char>, JsonView>,
    ToolErrorView,
> {
    match report {
        Ok(object) => Ok(object@),
        Err(error) => Err(error@),
    }
}

/// The status line of `status`: its number and the reason phrase that goes
/// with it, as `reqwest::StatusCode` prints them; `None` for a number that
/// is no status code.
pub uninterp spec fn status_line_of(status: u16) -> Option<Seq<char>>;

/// Calls `reqwest::StatusCode::from_u16` and prints the status code it
/// gives. The contract claims only that the outcome is a function of the
/// number, named `status_line_of`.
#[verifier::external_body]
fn status_line(status: u16) -> (line: Option<String>)
    ensures
        text_view(line) == status_line_of(status),
{
    match reqwest::StatusCode::from_u16(status) {
        Ok(code) => Some(code.to_string()),
        Err(_) => None,
    }
}

fn method_object(method: String) -> (detail: JsonObject)
    ensures
        detail@ == method_detail(method@),
{
    let mut detail = JsonObject::new();
    detail.insert("method".to_owned(), JsonValue::String(method));
    detail
}

impl RequestError {
    /// The failure as it goes back to the caller.
    pub fn into_tool_error(self) -> (error: ToolError)
        ensures
            error@ == request_error_report(self@),
    {
        match self {
            RequestError::Configuration { method, missing } => {
                let message = match missing {
                    MissingSetting::OrganizationId => MISSING_ORGANIZATION_ID,
                    MissingSetting::Credential => MISSING_CREDENTIAL,
                };
                ToolError {
                    category: ErrorCategory::Configuration,
                    message: message.to_owned(),
                    detail: method_object(method),
                }
            },
            RequestError::InvalidArguments { method, message } => ToolError {
                category: ErrorCategory::InvalidArguments,
                message,
                detail: method_object(method),
            },
        }
    }
}

impl CallOutcome {
    /// What the caller gets, with the status line that belongs to an
    /// upstream error's status given by the caller.
    pub fn into_result_with(self, line: Option<String>) -> (report: Result<JsonObject, ToolError>)
        ensures
            report_view(report) == outcome_report(self@, text_view(line)),
    {
        match self {
            CallOutcome::EmptySuccess => Ok(JsonObject::new()),
            CallOutcome::ObjectSuccess(object) => Ok(object),
            CallOutcome::UpstreamError { method, status, detail } => {
                let words = match line {
                    Some(words) => words,
                    None => decimal_text(status as u64),
                };
                let mut message = join("DataLens API returned ", words.as_str());
                message.append(" for method ");
                message.append(method.as_str());
                let mut data = method_object(method);
                let number = JsonNumber::from_u64(status as u64);
                data.insert("status".to_owned(), JsonValue::Number(number));
                data.insert("response".to_owned(), detail);
                Err(ToolError { category: ErrorCategory::Upstream, message, detail: data })
            },
            CallOutcome::TransportError { method, cause } => Err(
                ToolError {
                    category: ErrorCategory::Transport,
                    message: join("failed to reach DataLens API: ", cause.as_str()),
                    detail: method_object(method),
                },
            ),
            CallOutcome::DecodeError { method, cause, body } => {
                let message = join(
                    "DataLens API returned invalid or non-object JSON: ",
                    cause.as_str(),
                );
                let mut data = method_object(method);
                data.insert("body".to_owned(), JsonValue::String(body));
                Err(ToolError { category: ErrorCategory::Decode, message, detail: data })
            },
        }
    }

    /// What the caller gets: the object of a success, else the failure with
    /// its message and detail.
    pub fn into_result(self) -> (report: Result<JsonObject, ToolError>)
        ensures
            report_view(report) == (match self@ {
                CallOutcomeView::UpstreamError { status, .. } => outcome_report(
                    self@,
                    status_line_of(status),
                ),
                _ => outcome_report(self@, None),
            }),
    {
        let line = match &self {
            CallOutcome::UpstreamError { status, .. } => status_line(*status),
            _ => None,
        };
        self.into_result_with(line)
    }
}

} // verus!
