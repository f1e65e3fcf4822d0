//! The error taxonomy of the SDK and the rule that decides which errors are
//! worth retrying.
//!
//! Every error value has a mathematical view ([`ErrorView`]) in which texts are
//! character sequences; the contracts of this module are stated over that view.

use crate::text::{concat2, decimal, str_equal, u64_to_decimal};
use vstd::prelude::*;
use vstd::string::*;

verus! {

/// Error codes returned by the Allscreenshots API.
#[derive(Debug, Clone, PartialEq, Eq)]
pub enum ErrorCode {
    /// Invalid request parameters
    ValidationError,
    /// Authentication failed
    Unauthorized,
    /// Resource not found
    NotFound,
    /// Rate limit exceeded
    RateLimitExceeded,
    /// Internal server error
    InternalError,
    /// Job was cancelled
    Cancelled,
    /// Request timeout
    Timeout,
    /// Network error
    NetworkError,
    /// Unknown error code
    Unknown(String),
}

/// The view of an [`ErrorCode`]: the same variants, with the text of an
/// unknown code as a character sequence.
pub enum ErrorCodeView {
    ValidationError,
    Unauthorized,
    NotFound,
    RateLimitExceeded,
    InternalError,
    Cancelled,
    Timeout,
    NetworkError,
    Unknown(Seq<char>),
}

impl ErrorCodeView {
    /// The text by which the service writes this code.
    pub open spec fn name(self) -> Seq<char> {
        match self {
            ErrorCodeView::ValidationError => "VALIDATION_ERROR"@,
            ErrorCodeView::Unauthorized => "UNAUTHORIZED"@,
            ErrorCodeView::NotFound => "NOT_FOUND"@,
            ErrorCodeView::RateLimitExceeded => "RATE_LIMIT_EXCEEDED"@,
            ErrorCodeView::InternalError => "INTERNAL_ERROR"@,
            ErrorCodeView::Cancelled => "CANCELLED"@,
            ErrorCodeView::Timeout => "TIMEOUT"@,
            ErrorCodeView::NetworkError => "NETWORK_ERROR"@,
            ErrorCodeView::Unknown(text) => text,
        }
    }

    /// The code that a text denotes: one of the eight recognized codes when the
    /// text is exactly its name, and `Unknown` holding the text otherwise.
    pub open spec fn parse(text: Seq<char>) -> ErrorCodeView {
        if text == "VALIDATION_ERROR"@ {
            ErrorCodeView::ValidationError
        } else if text == "UNAUTHORIZED"@ {
            ErrorCodeView::Unauthorized
        } else if text == "NOT_FOUND"@ {
            ErrorCodeView::NotFound
        } else if text == "RATE_LIMIT_EXCEEDED"@ {
            ErrorCodeView::RateLimitExceeded
        } else if text == "INTERNAL_ERROR"@ {
            ErrorCodeView::InternalError
        } else if text == "CANCELLED"@ {
            ErrorCodeView::Cancelled
        } else if text == "TIMEOUT"@ {
            ErrorCodeView::Timeout
        } else if text == "NETWORK_ERROR"@ {
            ErrorCodeView::NetworkError
        } else {
            ErrorCodeView::Unknown(text)
        }
    }

    /// Whether the code tells that the same request may succeed when repeated:
    /// the service was rate limiting or failed internally.
    pub open spec fn signals_transient_fault(self) -> bool {
        self is RateLimitExceeded || self is InternalError
    }
}

impl View for ErrorCode {
    type V = ErrorCodeView;

    open spec fn view(&self) -> ErrorCodeView {
        match self {
            ErrorCode::ValidationError => ErrorCodeView::ValidationError,
            ErrorCode::Unauthorized => ErrorCodeView::Unauthorized,
            ErrorCode::NotFound => ErrorCodeView::NotFound,
            ErrorCode::RateLimitExceeded => ErrorCodeView::RateLimitExceeded,
            ErrorCode::InternalError => ErrorCodeView::InternalError,
            ErrorCode::Cancelled => ErrorCodeView::Cancelled,
            ErrorCode::Timeout => ErrorCodeView::Timeout,
            ErrorCode::NetworkError => ErrorCodeView::NetworkError,
            ErrorCode::Unknown(text) => ErrorCodeView::Unknown(text@),
        }
    }
}

impl ErrorCode {
    /// Reads an error code from the text the service sent.
    pub fn from(s: &str) -> (code: ErrorCode)
        ensures
            code@ == ErrorCodeView::parse(s@),
    {
        if str_equal(s, "VALIDATION_ERROR") {
            ErrorCode::ValidationError
        } else if str_equal(s, "UNAUTHORIZED") {
            ErrorCode::Unauthorized
        } else if str_equal(s, "NOT_FOUND") {
            ErrorCode::NotFound
        } else if str_equal(s, "RATE_LIMIT_EXCEEDED") {
            ErrorCode::RateLimitExceeded
        } else if str_equal(s, "INTERNAL_ERROR") {
            ErrorCode::InternalError
        } else if str_equal(s, "CANCELLED") {
            ErrorCode::Cancelled
        } else if str_equal(s, "TIMEOUT") {
            ErrorCode::Timeout
        } else if str_equal(s, "NETWORK_ERROR") {
            ErrorCode::NetworkError
        } else {
            ErrorCode::Unknown(s.to_owned())
        }
    }

    /// Writes the code as the service writes it.
    pub fn to_string(&self) -> (s: String)
        ensures
            s@ == self@.name(),
    {
        match self {
            ErrorCode::ValidationError => "VALIDATION_ERROR".to_owned(),
            ErrorCode::Unauthorized => "UNAUTHORIZED".to_owned(),
            ErrorCode::NotFound => "NOT_FOUND".to_owned(),
            ErrorCode::RateLimitExceeded => "RATE_LIMIT_EXCEEDED".to_owned(),
            ErrorCode::InternalError => "INTERNAL_ERROR".to_owned(),
            ErrorCode::Cancelled => "CANCELLED".to_owned(),
            ErrorCode::Timeout => "TIMEOUT".to_owned(),
            ErrorCode::NetworkError => "NETWORK_ERROR".to_owned(),
            ErrorCode::Unknown(text) => text.clone(),
        }
    }
}

/// What is known of a request that failed below the HTTP layer: the request
/// could not be sent, or its response could not be read.
#[derive(Debug, Clone, PartialEq, Eq)]
pub struct HttpFailure {
    /// The request ran into the transport's timeout
    pub timeout: bool,
    /// The connection to the service could not be established
    pub connect: bool,
    /// Human-readable description of the failure
    pub message: String,
}

/// The view of an [`HttpFailure`].
pub struct HttpFailureView {
    pub timeout: bool,
    pub connect: bool,
    pub message: Seq<char>,
}

impl View for HttpFailure {
    type V = HttpFailureView;

    open spec fn view(&self) -> HttpFailureView {
        HttpFailureView { timeout: self.timeout, connect: self.connect, message: self.message@ }
    }
}

/// The main error type for the Allscreenshots SDK.
#[derive(Debug, Clone, PartialEq, Eq)]
pub enum AllscreenshotsError {
    /// API returned an error response
    ApiError {
        /// The error code from the API
        code: ErrorCode,
        /// The error message from the API
        message: String,
        /// HTTP status code
        status: u16,
    },
    /// Validation error for request parameters
    ValidationError(String),
    /// HTTP request failed
    HttpError(HttpFailure),
    /// Failed to parse URL
    UrlError(String),
    /// JSON serialization/deserialization error
    JsonError(String),
    /// Configuration error
    ConfigError(String),
    /// Environment variable not set
    EnvVarNotSet(String),
    /// All retries exhausted
    RetriesExhausted(String),
    /// Request timeout
    Timeout,
}

/// The view of an [`AllscreenshotsError`]: the same variants over character
/// sequences.
pub enum ErrorView {
    ApiError { code: ErrorCodeView, message: Seq<char>, status: u16 },
    ValidationError(Seq<char>),
    HttpError(HttpFailureView),
    UrlError(Seq<char>),
    JsonError(Seq<char>),
    ConfigError(Seq<char>),
    EnvVarNotSet(Seq<char>),
    RetriesExhausted(Seq<char>),
    Timeout,
}

impl ErrorView {
    /// Whether repeating the identical request has a chance of success.
    ///
    /// An API error is retryable when its code signals a transient fault or its
    /// status is 500 or above; a transport failure when it was a timeout or a
    /// failed connection; a request timeout always. Every other error is
    /// permanent.
    pub open spec fn retryable(self) -> bool {
        match self {
            ErrorView::ApiError { code, message, status } => code.signals_transient_fault()
                || status >= 500,
            ErrorView::HttpError(failure) => failure.timeout || failure.connect,
            ErrorView::Timeout => true,
            _ => false,
        }
    }

    /// The one-line text that describes the error.
    pub open spec fn description(self) -> Seq<char> {
        match self {
            ErrorView::ApiError { code, message, status } => "API error ("@ + code.name() + "): "@
                + message,
            ErrorView::ValidationError(text) => "Validation error: "@ + text,
            ErrorView::HttpError(failure) => "HTTP error: "@ + failure.message,
            ErrorView::UrlError(text) => "Invalid URL: "@ + text,
            ErrorView::JsonError(text) => "JSON error: "@ + text,
            ErrorView::ConfigError(text) => "Configuration error: "@ + text,
            ErrorView::EnvVarNotSet(name) => "Environment variable '"@ + name + "' not set"@,
            ErrorView::RetriesExhausted(text) => "All retries exhausted: "@ + text,
            ErrorView::Timeout => "Request timeout"@,
        }
    }

    /// Whether the error was raised on the client's side before any request
    /// was sent: a request that failed validation, or a configuration that
    /// cannot be used.
    pub open spec fn raised_before_sending(self) -> bool {
        self is ValidationError || self is ConfigError || self is EnvVarNotSet || self is UrlError
    }

    /// The API error that stands for a response of the given status, code text
    /// and message. A response without a code gets the code `Unknown("UNKNOWN")`.
    pub open spec fn api(status: u16, code: Option<Seq<char>>, message: Seq<char>) -> ErrorView {
        ErrorView::ApiError {
            code: match code {
                Some(text) => ErrorCodeView::parse(text),
                None => ErrorCodeView::Unknown("UNKNOWN"@),
            },
            message,
            status,
        }
    }

    /// The error that classifies a response with a non-success status.
    ///
    /// With a payload that was decoded, code and message come from the payload;
    /// without one, the code is absent and the message is `HTTP <status> error`.
    pub open spec fn classify(status: u16, payload: Option<ApiErrorResponseView>) -> ErrorView {
        match payload {
            Some(p) => ErrorView::api(status, p.error_code, p.message_text()),
            None => ErrorView::api(status, None, "HTTP "@ + decimal(status as nat) + " error"@),
        }
    }
}

impl View for AllscreenshotsError {
    type V = ErrorView;

    open spec fn view(&self) -> ErrorView {
        match self {
            AllscreenshotsError::ApiError { code, message, status } => ErrorView::ApiError {
                code: code@,
                message: message@,
                status: *status,
            },
            AllscreenshotsError::ValidationError(text) => ErrorView::ValidationError(text@),
            AllscreenshotsError::HttpError(failure) => ErrorView::HttpError(failure@),
            AllscreenshotsError::UrlError(text) => ErrorView::UrlError(text@),
            AllscreenshotsError::JsonError(text) => ErrorView::JsonError(text@),
            AllscreenshotsError::ConfigError(text) => ErrorView::ConfigError(text@),
            AllscreenshotsError::EnvVarNotSet(name) => ErrorView::EnvVarNotSet(name@),
            AllscreenshotsError::RetriesExhausted(text) => ErrorView::RetriesExhausted(text@),
            AllscreenshotsError::Timeout => ErrorView::Timeout,
        }
    }
}

impl AllscreenshotsError {
    /// Returns `true` if the error is retryable.
    pub fn is_retryable(&self) -> (retryable: bool)
        ensures
            retryable == self@.retryable(),
    {
        match self {
            AllscreenshotsError::ApiError { code, message: _, status } => {
                let transient = match code {
                    ErrorCode::RateLimitExceeded => true,
                    ErrorCode::InternalError => true,
                    _ => false,
                };
                transient || *status >= 500
            },
            AllscreenshotsError::HttpError(failure) => failure.timeout || failure.connect,
            AllscreenshotsError::Timeout => true,
            _ => false,
        }
    }

    /// Creates an API error from response data.
    pub fn from_api_response(status: u16, code: Option<&str>, message: &str) -> (error: Self)
        ensures
            error@ == ErrorView::api(
                status,
                match code {
                    Some(text) => Some(text@),
                    None => None,
                },
                message@,
            ),
    {
        let code = match code {
            Some(text) => ErrorCode::from(text),
            None => ErrorCode::Unknown("UNKNOWN".to_owned()),
        };
        AllscreenshotsError::ApiError { code, message: message.to_owned(), status }
    }

    /// Classifies a response whose status is not a success: the API error built
    /// from the decoded error payload, or from the status alone where the body
    /// could not be read or decoded.
    pub fn from_error_response(status: u16, payload: Option<&ApiErrorResponse>) -> (error: Self)
        ensures
            error@ == ErrorView::classify(
                status,
                match payload {
                    Some(p) => Some(p@),
                    None => None,
                },
            ),
    {
        match payload {
            Some(p) => {
                let message = p.get_message();
                match &p.error_code {
                    Some(code) => AllscreenshotsError::from_api_response(
                        status,
                        Some(code.as_str()),
                        message.as_str(),
                    ),
                    None => AllscreenshotsError::from_api_response(status, None, message.as_str()),
                }
            },
            None => {
                let number = u64_to_decimal(status as u64);
                let mut message = concat2("HTTP ", number.as_str());
                message.append(" error");
                AllscreenshotsError::from_api_response(status, None, message.as_str())
            },
        }
    }

    /// Writes the one-line description of the error.
    pub fn to_string(&self) -> (s: String)
        ensures
            s@ == self@.description(),
    {
        match self {
            AllscreenshotsError::ApiError { code, message, status: _ } => {
                let name = code.to_string();
                let mut s = concat2("API error (", name.as_str());
                s.append("): ");
                s.append(message.as_str());
                s
            },
            AllscreenshotsError::ValidationError(text) => concat2(
                "Validation error: ",
                text.as_str(),
            ),
            AllscreenshotsError::HttpError(failure) => concat2(
                "HTTP error: ",
                failure.message.as_str(),
            ),
            AllscreenshotsError::UrlError(text) => concat2("Invalid URL: ", text.as_str()),
            AllscreenshotsError::JsonError(text) => concat2("JSON error: ", text.as_str()),
            AllscreenshotsError::ConfigError(text) => concat2(
                "Configuration error: ",
                text.as_str(),
            ),
            AllscreenshotsError::EnvVarNotSet(name) => {
                let mut s = concat2("Environment variable '", name.as_str());
                s.append("' not set");
                s
            },
            AllscreenshotsError::RetriesExhausted(text) => concat2(
                "All retries exhausted: ",
                text.as_str(),
            ),
            AllscreenshotsError::Timeout => "Request timeout".to_owned(),
        }
    }
}

/// The error payload that the service sends with a non-success status: an
/// optional error code and up to three alternative message fields.
#[derive(Debug, Clone, PartialEq, Eq)]
pub struct ApiErrorResponse {
    /// The service's error code (`errorCode`)
    pub error_code: Option<String>,
    /// The service-specific message (`errorMessage`)
    pub error_message: Option<String>,
    /// The generic message (`message`)
    pub message: Option<String>,
    /// The generic error text (`error`)
    pub error: Option<String>,
}

/// The view of an [`ApiErrorResponse`].
pub struct ApiErrorResponseView {
    pub error_code: Option<Seq<char>>,
    pub error_message: Option<Seq<char>>,
    pub message: Option<Seq<char>>,
    pub error: Option<Seq<char>>,
}

impl ApiErrorResponseView {
    /// The message of the payload: the first field that is present among the
    /// service-specific message, the generic message and the generic error
    /// text, or `Unknown error` when all three are absent.
    pub open spec fn message_text(self) -> Seq<char> {
        match self.error_message {
            Some(text) => text,
            None => match self.message {
                Some(text) => text,
                None => match self.error {
                    Some(text) => text,
                    None => "Unknown error"@,
                },
            },
        }
    }
}

/// The character sequence of an optional string.
pub open spec fn option_text(text: Option<String>) -> Option<Seq<char>> {
    match text {
        Some(s) => Some(s@),
        None => None,
    }
}

impl View for ApiErrorResponse {
    type V = ApiErrorResponseView;

    open spec fn view(&self) -> ApiErrorResponseView {
        ApiErrorResponseView {
            error_code: option_text(self.error_code),
            error_message: option_text(self.error_message),
            message: option_text(self.message),
            error: option_text(self.error),
        }
    }
}

impl ApiErrorResponse {
    /// Get the error message from any available field.
    pub fn get_message(&self) -> (text: String)
        ensures
            text@ == self@.message_text(),
    {
        match &self.error_message {
            Some(text) => text.clone(),
            None => match &self.message {
                Some(text) => text.clone(),
                None => match &self.error {
                    Some(text) => text.clone(),
                    None => "Unknown error".to_owned(),
                },
            },
        }
    }
}

/// A response with a status of 500 or above is classified as retryable,
/// whatever its body held.
pub proof fn lemma_server_error_is_retryable(status: u16, payload: Option<ApiErrorResponseView>)
    requires
        status >= 500,
    ensures
        ErrorView::classify(status, payload).retryable(),
{
}

/// A response whose payload carries the rate-limit code or the internal-error
/// code is classified as retryable, whatever its status.
pub proof fn lemma_transient_code_is_retryable(status: u16, payload: ApiErrorResponseView)
    requires
        payload.error_code == Some("RATE_LIMIT_EXCEEDED"@) || payload.error_code == Some(
            "INTERNAL_ERROR"@,
        ),
    ensures
        ErrorView::classify(status, Some(payload)).retryable(),
{
    lemma_code_names_differ();
}

/// A response with a status below 500 is classified as retryable only when its
/// payload carries the rate-limit code or the internal-error code: a client
/// error such as a validation error at status 400 is permanent.
pub proof fn lemma_client_error_is_permanent(status: u16, payload: Option<ApiErrorResponseView>)
    requires
        status < 500,
    ensures
        ErrorView::classify(status, payload).retryable() <==> (payload matches Some(p)
            && (p.error_code == Some("RATE_LIMIT_EXCEEDED"@) || p.error_code == Some(
            "INTERNAL_ERROR"@,
        ))),
{
    lemma_code_names_differ();
}

/// Errors raised before any request is sent are never retryable, and neither
/// are decode failures nor an exhausted retry budget.
pub proof fn lemma_permanent_kinds(error: ErrorView)
    requires
        error.raised_before_sending() || error is JsonError || error is RetriesExhausted,
    ensures
        !error.retryable(),
{
}

/// An error is retryable only as a failure of the network, a request that
/// timed out, or an answer of the service with a status of 500 or above or
/// with the rate-limit or the internal-error code.
pub proof fn lemma_retryable_is_transient(error: ErrorView)
    requires
        error.retryable(),
    ensures
        error is HttpError || error is Timeout || error is ApiError,
        error matches ErrorView::HttpError(failure) ==> failure.timeout || failure.connect,
        error matches ErrorView::ApiError { code, status, .. } ==> status >= 500
            || code.signals_transient_fault(),
{
}

/// A request that the service refused for want of authorization (the code
/// `UNAUTHORIZED` with a status below 500) is not retried.
pub proof fn lemma_authorization_failure_is_permanent(status: u16, message: Seq<char>)
    requires
        status < 500,
    ensures
        !ErrorView::api(status, Some("UNAUTHORIZED"@), message).retryable(),
{
    lemma_code_names_differ();
}

/// Classification yields an API error that carries the response's status; no
/// other kind of error comes out of it.
pub proof fn lemma_classify_kind(status: u16, payload: Option<ApiErrorResponseView>)
    ensures
        ErrorView::classify(status, payload) matches ErrorView::ApiError { status: s, .. } && s
            == status,
{
}

/// The names of the eight recognized codes are pairwise different, so each
/// name denotes its own code, and `UNKNOWN` is none of them.
pub proof fn lemma_code_names_differ()
    ensures
        ErrorCodeView::parse("VALIDATION_ERROR"@) == ErrorCodeView::ValidationError,
        ErrorCodeView::parse("UNAUTHORIZED"@) == ErrorCodeView::Unauthorized,
        ErrorCodeView::parse("NOT_FOUND"@) == ErrorCodeView::NotFound,
        ErrorCodeView::parse("RATE_LIMIT_EXCEEDED"@) == ErrorCodeView::RateLimitExceeded,
        ErrorCodeView::parse("INTERNAL_ERROR"@) == ErrorCodeView::InternalError,
        ErrorCodeView::parse("CANCELLED"@) == ErrorCodeView::Cancelled,
        ErrorCodeView::parse("TIMEOUT"@) == ErrorCodeView::Timeout,
        ErrorCodeView::parse("NETWORK_ERROR"@) == ErrorCodeView::NetworkError,
        ErrorCodeView::parse("UNKNOWN"@) == ErrorCodeView::Unknown("UNKNOWN"@),
{
    reveal_strlit("VALIDATION_ERROR");
    reveal_strlit("UNAUTHORIZED");
    reveal_strlit("NOT_FOUND");
    reveal_strlit("RATE_LIMIT_EXCEEDED");
    reveal_strlit("INTERNAL_ERROR");
    reveal_strlit("CANCELLED");
    reveal_strlit("TIMEOUT");
    reveal_strlit("NETWORK_ERROR");
    reveal_strlit("UNKNOWN");
    assert("VALIDATION_ERROR"@.len() == 16);
    assert("UNAUTHORIZED"@.len() == 12);
    assert("NOT_FOUND"@.len() == 9 && "NOT_FOUND"@[0] == 'N');
    assert("RATE_LIMIT_EXCEEDED"@.len() == 19);
    assert("INTERNAL_ERROR"@.len() == 14);
    assert("CANCELLED"@.len() == 9 && "CANCELLED"@[0] == 'C');
    assert("TIMEOUT"@.len() == 7 && "TIMEOUT"@[0] == 'T');
    assert("NETWORK_ERROR"@.len() == 13);
    assert("UNKNOWN"@.len() == 7 && "UNKNOWN"@[0] == 'U');
}

/// Reading a code back from its written form gives the code again, for every
/// code that `parse` can produce.
pub proof fn lemma_code_round_trip(text: Seq<char>)
    ensures
        ErrorCodeView::parse(ErrorCodeView::parse(text).name()) == ErrorCodeView::parse(text),
{
    lemma_code_names_differ();
}

} // verus!
