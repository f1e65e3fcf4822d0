//! The client: endpoint and credentials, the catalog of operations that the
//! service offers, and the handling of what the service answers.
//!
//! The client performs no network activity itself. Each endpoint method
//! describes one call as an [`Operation`]; the transport layer sends it and
//! hands back the status and body, which the `handle_*` methods turn into the
//! result of the attempt. The retry policy then decides what follows.
//!
//! An endpoint that sends a request takes it as `request_json`, the request
//! encoded as JSON; the operation carries that text as its body, unchanged.

use crate::error::{
    option_text, AllscreenshotsError, ApiErrorResponse, ApiErrorResponseView, ErrorView,
    HttpFailure,
};
use crate::retry::RetryConfig;
use crate::text::{concat2, concat3, i64_to_decimal, signed_decimal};
use vstd::prelude::*;
use vstd::string::*;

verus! {

/// Base URL of the service, used where the builder is given none.
pub const DEFAULT_BASE_URL: &'static str = "https://api.allscreenshots.com";

/// Request timeout in milliseconds, used where the builder is given none.
pub const DEFAULT_TIMEOUT_MS: u64 = 60000;

/// Name of the environment variable that holds the API key.
pub const API_KEY_ENV_VAR: &'static str = "ALLSCREENSHOTS_API_KEY";

/// Name of the request header that carries the API key.
pub const API_KEY_HEADER: &'static str = "X-API-Key";

/// Name of the request header that tells the type of the body.
pub const CONTENT_TYPE_HEADER: &'static str = "Content-Type";

/// Content type of every request body.
pub const JSON_CONTENT_TYPE: &'static str = "application/json";

/// Whether an HTTP status reports success: any status from 200 to 299.
pub open spec fn success_status(status: u16) -> bool {
    200 <= status < 300
}

/// Tells whether an HTTP status reports success.
pub fn is_success_status(status: u16) -> (success: bool)
    ensures
        success == success_status(status),
{
    200 <= status && status < 300
}

/// The HTTP method of an operation.
#[derive(Debug, Clone, Copy, PartialEq, Eq)]
pub enum HttpMethod {
    Get,
    Post,
    Put,
    Delete,
}

impl HttpMethod {
    /// The name of the method on the wire.
    pub open spec fn name(self) -> Seq<char> {
        match self {
            HttpMethod::Get => "GET"@,
            HttpMethod::Post => "POST"@,
            HttpMethod::Put => "PUT"@,
            HttpMethod::Delete => "DELETE"@,
        }
    }

    /// Writes the name of the method.
    pub fn as_str(&self) -> (s: &'static str)
        ensures
            s@ == self.name(),
    {
        match self {
            HttpMethod::Get => "GET",
            HttpMethod::Post => "POST",
            HttpMethod::Put => "PUT",
            HttpMethod::Delete => "DELETE",
        }
    }
}

/// The payload that an operation expects in a successful response.
#[derive(Debug, Clone, Copy, PartialEq, Eq)]
pub enum ResponseKind {
    /// The raw bytes of the body
    Binary,
    /// A JSON document of the shape that the endpoint documents
    Json,
    /// Nothing: the status alone tells the result
    Empty,
}

/// One network call: method, target, credentials, optional JSON body and the
/// expected response. An operation is sent once per attempt, unchanged.
#[derive(Debug, Clone, PartialEq, Eq)]
pub struct Operation {
    /// HTTP method
    pub method: HttpMethod,
    /// Absolute URL of the target
    pub url: String,
    /// API key, sent in the `X-API-Key` header
    pub api_key: String,
    /// JSON text of the request body, if the call has one
    pub body: Option<String>,
    /// What a successful response holds
    pub response: ResponseKind,
}

/// The view of an [`Operation`].
pub struct OperationView {
    pub method: HttpMethod,
    pub url: Seq<char>,
    pub api_key: Seq<char>,
    pub body: Option<Seq<char>>,
    pub response: ResponseKind,
}

impl OperationView {
    /// The request headers of the operation, as pairs of name and value: the
    /// API key always, and the JSON content type when there is a body.
    pub open spec fn headers(self) -> Seq<(Seq<char>, Seq<char>)> {
        if self.body is Some {
            seq![(API_KEY_HEADER@, self.api_key), (CONTENT_TYPE_HEADER@, JSON_CONTENT_TYPE@)]
        } else {
            seq![(API_KEY_HEADER@, self.api_key)]
        }
    }
}

impl View for Operation {
    type V = OperationView;

    open spec fn view(&self) -> OperationView {
        OperationView {
            method: self.method,
            url: self.url@,
            api_key: self.api_key@,
            body: option_text(self.body),
            response: self.response,
        }
    }
}

/// The name and the value of each header in a list, as character sequences.
pub open spec fn header_texts(headers: Seq<(String, String)>) -> Seq<(Seq<char>, Seq<char>)> {
    headers.map_values(|h: (String, String)| (h.0@, h.1@))
}

impl Operation {
    /// The request headers to send with the operation.
    pub fn headers(&self) -> (headers: Vec<(String, String)>)
        ensures
            header_texts(headers@) == self@.headers(),
    {
        let mut headers: Vec<(String, String)> = Vec::new();
        headers.push((API_KEY_HEADER.to_owned(), self.api_key.clone()));
        if self.body.is_some() {
            headers.push((CONTENT_TYPE_HEADER.to_owned(), JSON_CONTENT_TYPE.to_owned()));
        }
        assert(header_texts(headers@) =~= self@.headers());
        headers
    }
}

/// Client for interacting with the Allscreenshots API: the endpoint, the
/// credentials and the retry policy shared by all its operations.
#[derive(Debug, Clone)]
pub struct AllscreenshotsClient {
    /// Base URL of the service
    pub base_url: String,
    /// API key
    pub api_key: String,
    /// Timeout of one request, in milliseconds
    pub timeout_ms: u64,
    /// Retry policy
    pub retry_config: RetryConfig,
}

/// A query parameter that takes a number: `prefix` followed by the number in
/// decimal when a number is given, and nothing otherwise.
pub open spec fn number_parameter(prefix: Seq<char>, value: Option<i32>) -> Seq<char> {
    match value {
        Some(number) => prefix + signed_decimal(number as int),
        None => Seq::<char>::empty(),
    }
}

/// A query parameter that takes a text: `prefix` followed by the text when a
/// text is given, and nothing otherwise.
pub open spec fn text_parameter(prefix: Seq<char>, value: Option<Seq<char>>) -> Seq<char> {
    match value {
        Some(text) => prefix + text,
        None => Seq::<char>::empty(),
    }
}

/// Appends a query parameter that takes a number, if a number is given.
fn push_number_parameter(url: &mut String, prefix: &str, value: Option<i32>)
    ensures
        final(url)@ == old(url)@ + number_parameter(prefix@, value),
{
    if let Some(number) = value {
        url.append(prefix);
        url.append(i64_to_decimal(number as i64).as_str());
        assert(url@ =~= old(url)@ + (prefix@ + signed_decimal(number as int)));
    } else {
        assert(url@ =~= old(url)@ + Seq::<char>::empty());
    }
}

/// Appends a query parameter that takes a text, if a text is given.
fn push_text_parameter(url: &mut String, prefix: &str, value: Option<&str>)
    ensures
        final(url)@ == old(url)@ + text_parameter(
            prefix@,
            match value {
                Some(text) => Some(text@),
                None => None,
            },
        ),
{
    if let Some(text) = value {
        url.append(prefix);
        url.append(text);
        assert(url@ =~= old(url)@ + (prefix@ + text@));
    } else {
        assert(url@ =~= old(url)@ + Seq::<char>::empty());
    }
}

/// The query of the layout preview: the layout and the number of images, then
/// each optional parameter that is given, in a fixed order. Texts are put in
/// as they are, without escaping.
pub open spec fn preview_query(
    layout: Seq<char>,
    image_count: i32,
    canvas_width: Option<i32>,
    canvas_height: Option<i32>,
    aspect_ratios: Option<Seq<char>>,
) -> Seq<char> {
    "?layout="@ + layout + "&image_count="@ + signed_decimal(image_count as int)
        + number_parameter("&canvas_width="@, canvas_width) + number_parameter(
        "&canvas_height="@,
        canvas_height,
    ) + text_parameter("&aspect_ratios="@, aspect_ratios)
}

/// The query of the schedule history: the limit, when one is given.
pub open spec fn history_query(limit: Option<i32>) -> Seq<char> {
    number_parameter("?limit="@, limit)
}

impl AllscreenshotsClient {
    /// Whether the client can be used: it holds an API key.
    pub open spec fn well_formed(&self) -> bool {
        self.api_key@.len() > 0
    }

    /// The operation that this client issues for a method, a path below its
    /// base URL, a body and an expected response.
    pub open spec fn operation(
        &self,
        method: HttpMethod,
        path: Seq<char>,
        body: Option<Seq<char>>,
        response: ResponseKind,
    ) -> OperationView {
        OperationView {
            method,
            url: self.base_url@ + path,
            api_key: self.api_key@,
            body,
            response,
        }
    }

    /// Create a new client builder.
    pub fn builder() -> (builder: AllscreenshotsClientBuilder)
        ensures
            builder@ == ClientSettings::unset(),
    {
        AllscreenshotsClientBuilder::default()
    }

    /// Create a client using the API key from the environment.
    ///
    /// `env_api_key` is the value of the environment variable
    /// `ALLSCREENSHOTS_API_KEY`, or `None` if it is not set.
    pub fn from_env(env_api_key: Option<String>) -> (result: Result<Self, AllscreenshotsError>)
        ensures
            ClientSettings::unset().builds(option_text(env_api_key), result),
    {
        AllscreenshotsClient::builder().build(env_api_key)
    }

    /// Create a client with the given API key.
    pub fn new(api_key: &str) -> (result: Result<Self, AllscreenshotsError>)
        ensures
            (ClientSettings { api_key: Some(api_key@), ..ClientSettings::unset() }).builds(
                None,
                result,
            ),
    {
        AllscreenshotsClient::builder().api_key(api_key).build(None)
    }

    /// Describes a call of this client to an absolute URL.
    fn request(
        &self,
        method: HttpMethod,
        url: String,
        body: Option<String>,
        response: ResponseKind,
    ) -> (op: Operation)
        ensures
            op@ == (OperationView {
                method,
                url: url@,
                api_key: self.api_key@,
                body: option_text(body),
                response,
            }),
    {
        Operation { method, url, api_key: self.api_key.clone(), body, response }
    }

    /// A GET that expects JSON.
    fn get_json(&self, url: String) -> (op: Operation)
        ensures
            op@ == (OperationView {
                method: HttpMethod::Get,
                url: url@,
                api_key: self.api_key@,
                body: None,
                response: ResponseKind::Json,
            }),
    {
        self.request(HttpMethod::Get, url, None, ResponseKind::Json)
    }

    /// A POST that sends a JSON body and expects JSON.
    fn post_json(&self, url: String, body: &str) -> (op: Operation)
        ensures
            op@ == (OperationView {
                method: HttpMethod::Post,
                url: url@,
                api_key: self.api_key@,
                body: Some(body@),
                response: ResponseKind::Json,
            }),
    {
        self.request(HttpMethod::Post, url, Some(body.to_owned()), ResponseKind::Json)
    }

    /// A POST without a body that expects JSON.
    fn post_empty(&self, url: String) -> (op: Operation)
        ensures
            op@ == (OperationView {
                method: HttpMethod::Post,
                url: url@,
                api_key: self.api_key@,
                body: None,
                response: ResponseKind::Json,
            }),
    {
        self.request(HttpMethod::Post, url, None, ResponseKind::Json)
    }

    /// A PUT that sends a JSON body and expects JSON.
    fn put_json(&self, url: String, body: &str) -> (op: Operation)
        ensures
            op@ == (OperationView {
                method: HttpMethod::Put,
                url: url@,
                api_key: self.api_key@,
                body: Some(body@),
                response: ResponseKind::Json,
            }),
    {
        self.request(HttpMethod::Put, url, Some(body.to_owned()), ResponseKind::Json)
    }

    /// A DELETE that expects no payload.
    fn delete(&self, url: String) -> (op: Operation)
        ensures
            op@ == (OperationView {
                method: HttpMethod::Delete,
                url: url@,
                api_key: self.api_key@,
                body: None,
                response: ResponseKind::Empty,
            }),
    {
        self.request(HttpMethod::Delete, url, None, ResponseKind::Empty)
    }

    // Screenshot endpoints

    /// Take a screenshot synchronously.
    ///
    /// `request_json` is the screenshot request, encoded as JSON. The response
    /// holds the raw image bytes.
    pub fn screenshot(&self, request_json: &str) -> (op: Operation)
        ensures
            op@ == self.operation(
                HttpMethod::Post,
                "/v1/screenshots"@,
                Some(request_json@),
                ResponseKind::Binary,
            ),
    {
        self.request(
            HttpMethod::Post,
            concat2(self.base_url.as_str(), "/v1/screenshots"),
            Some(request_json.to_owned()),
            ResponseKind::Binary,
        )
    }

    /// Take a screenshot asynchronously.
    ///
    /// The response holds job information that can be used to poll for results.
    pub fn screenshot_async(&self, request_json: &str) -> (op: Operation)
        ensures
            op@ == self.operation(
                HttpMethod::Post,
                "/v1/screenshots/async"@,
                Some(request_json@),
                ResponseKind::Json,
            ),
    {
        self.post_json(concat2(self.base_url.as_str(), "/v1/screenshots/async"), request_json)
    }

    /// List all screenshot jobs.
    pub fn list_jobs(&self) -> (op: Operation)
        ensures
            op@ == self.operation(
                HttpMethod::Get,
                "/v1/screenshots/jobs"@,
                None,
                ResponseKind::Json,
            ),
    {
        self.get_json(concat2(self.base_url.as_str(), "/v1/screenshots/jobs"))
    }

    /// Get the status of a screenshot job.
    pub fn get_job(&self, job_id: &str) -> (op: Operation)
        ensures
            op@ == self.operation(
                HttpMethod::Get,
                "/v1/screenshots/jobs/"@ + job_id@,
                None,
                ResponseKind::Json,
            ),
    {
        let url = concat3(self.base_url.as_str(), "/v1/screenshots/jobs/", job_id);
        assert(url@ =~= self.base_url@ + ("/v1/screenshots/jobs/"@ + job_id@));
        self.get_json(url)
    }

    /// Get the result image of a completed job.
    pub fn get_job_result(&self, job_id: &str) -> (op: Operation)
        ensures
            op@ == self.operation(
                HttpMethod::Get,
                "/v1/screenshots/jobs/"@ + job_id@ + "/result"@,
                None,
                ResponseKind::Binary,
            ),
    {
        let mut url = concat3(self.base_url.as_str(), "/v1/screenshots/jobs/", job_id);
        url.append("/result");
        assert(url@ =~= self.base_url@ + ("/v1/screenshots/jobs/"@ + job_id@ + "/result"@));
        self.request(HttpMethod::Get, url, None, ResponseKind::Binary)
    }

    /// Cancel a screenshot job.
    pub fn cancel_job(&self, job_id: &str) -> (op: Operation)
        ensures
            op@ == self.operation(
                HttpMethod::Post,
                "/v1/screenshots/jobs/"@ + job_id@ + "/cancel"@,
                None,
                ResponseKind::Json,
            ),
    {
        let mut url = concat3(self.base_url.as_str(), "/v1/screenshots/jobs/", job_id);
        url.append("/cancel");
        assert(url@ =~= self.base_url@ + ("/v1/screenshots/jobs/"@ + job_id@ + "/cancel"@));
        self.post_empty(url)
    }

    // Bulk screenshot endpoints

    /// Create a bulk screenshot job.
    pub fn create_bulk_job(&self, request_json: &str) -> (op: Operation)
        ensures
            op@ == self.operation(
                HttpMethod::Post,
                "/v1/screenshots/bulk"@,
                Some(request_json@),
                ResponseKind::Json,
            ),
    {
        self.post_json(concat2(self.base_url.as_str(), "/v1/screenshots/bulk"), request_json)
    }

    /// List all bulk screenshot jobs.
    pub fn list_bulk_jobs(&self) -> (op: Operation)
        ensures
            op@ == self.operation(
                HttpMethod::Get,
                "/v1/screenshots/bulk"@,
                None,
                ResponseKind::Json,
            ),
    {
        self.get_json(concat2(self.base_url.as_str(), "/v1/screenshots/bulk"))
    }

    /// Get the status of a bulk screenshot job.
    pub fn get_bulk_job(&self, job_id: &str) -> (op: Operation)
        ensures
            op@ == self.operation(
                HttpMethod::Get,
                "/v1/screenshots/bulk/"@ + job_id@,
                None,
                ResponseKind::Json,
            ),
    {
        let url = concat3(self.base_url.as_str(), "/v1/screenshots/bulk/", job_id);
        assert(url@ =~= self.base_url@ + ("/v1/screenshots/bulk/"@ + job_id@));
        self.get_json(url)
    }

    /// Cancel a bulk screenshot job.
    pub fn cancel_bulk_job(&self, job_id: &str) -> (op: Operation)
        ensures
            op@ == self.operation(
                HttpMethod::Post,
                "/v1/screenshots/bulk/"@ + job_id@ + "/cancel"@,
                None,
                ResponseKind::Json,
            ),
    {
        let mut url = concat3(self.base_url.as_str(), "/v1/screenshots/bulk/", job_id);
        url.append("/cancel");
        assert(url@ =~= self.base_url@ + ("/v1/screenshots/bulk/"@ + job_id@ + "/cancel"@));
        self.post_empty(url)
    }

    // Compose endpoints

    /// Compose multiple screenshots into one image.
    pub fn compose(&self, request_json: &str) -> (op: Operation)
        ensures
            op@ == self.operation(
                HttpMethod::Post,
                "/v1/screenshots/compose"@,
                Some(request_json@),
                ResponseKind::Json,
            ),
    {
        self.post_json(concat2(self.base_url.as_str(), "/v1/screenshots/compose"), request_json)
    }

    /// Compose multiple screenshots asynchronously.
    ///
    /// `request_json` is the compose request with its `async` flag set, encoded
    /// as JSON; see [`crate::models::compose::ComposeRequest::async_mode`].
    pub fn compose_async(&self, request_json: &str) -> (op: Operation)
        ensures
            op@ == self.operation(
                HttpMethod::Post,
                "/v1/screenshots/compose"@,
                Some(request_json@),
                ResponseKind::Json,
            ),
    {
        self.post_json(concat2(self.base_url.as_str(), "/v1/screenshots/compose"), request_json)
    }

    /// Preview layout placement.
    pub fn preview_layout(
        &self,
        layout: &str,
        image_count: i32,
        canvas_width: Option<i32>,
        canvas_height: Option<i32>,
        aspect_ratios: Option<&str>,
    ) -> (op: Operation)
        ensures
            op@ == self.operation(
                HttpMethod::Get,
                "/v1/screenshots/compose/preview"@ + preview_query(
                    layout@,
                    image_count,
                    canvas_width,
                    canvas_height,
                    match aspect_ratios {
                        Some(text) => Some(text@),
                        None => None,
                    },
                ),
                None,
                ResponseKind::Json,
            ),
    {
        let mut url = concat3(
            self.base_url.as_str(),
            "/v1/screenshots/compose/preview",
            "?layout=",
        );
        url.append(layout);
        url.append("&image_count=");
        url.append(i64_to_decimal(image_count as i64).as_str());
        push_number_parameter(&mut url, "&canvas_width=", canvas_width);
        push_number_parameter(&mut url, "&canvas_height=", canvas_height);
        push_text_parameter(&mut url, "&aspect_ratios=", aspect_ratios);
        assert(url@ =~= self.base_url@ + ("/v1/screenshots/compose/preview"@ + preview_query(
            layout@,
            image_count,
            canvas_width,
            canvas_height,
            match aspect_ratios {
                Some(text) => Some(text@),
                None => None,
            },
        )));
        self.get_json(url)
    }

    /// List all compose jobs.
    pub fn list_compose_jobs(&self) -> (op: Operation)
        ensures
            op@ == self.operation(
                HttpMethod::Get,
                "/v1/screenshots/compose/jobs"@,
                None,
                ResponseKind::Json,
            ),
    {
        self.get_json(concat2(self.base_url.as_str(), "/v1/screenshots/compose/jobs"))
    }

    /// Get the status of a compose job.
    pub fn get_compose_job(&self, job_id: &str) -> (op: Operation)
        ensures
            op@ == self.operation(
                HttpMethod::Get,
                "/v1/screenshots/compose/jobs/"@ + job_id@,
                None,
                ResponseKind::Json,
            ),
    {
        let url = concat3(self.base_url.as_str(), "/v1/screenshots/compose/jobs/", job_id);
        assert(url@ =~= self.base_url@ + ("/v1/screenshots/compose/jobs/"@ + job_id@));
        self.get_json(url)
    }

    // Schedule endpoints

    /// Create a scheduled screenshot.
    pub fn create_schedule(&self, request_json: &str) -> (op: Operation)
        ensures
            op@ == self.operation(
                HttpMethod::Post,
                "/v1/schedules"@,
                Some(request_json@),
                ResponseKind::Json,
            ),
    {
        self.post_json(concat2(self.base_url.as_str(), "/v1/schedules"), request_json)
    }

    /// List all schedules.
    pub fn list_schedules(&self) -> (op: Operation)
        ensures
            op@ == self.operation(
                HttpMethod::Get,
                "/v1/schedules"@,
                None,
                ResponseKind::Json,
            ),
    {
        self.get_json(concat2(self.base_url.as_str(), "/v1/schedules"))
    }

    /// Get a schedule by ID.
    pub fn get_schedule(&self, schedule_id: &str) -> (op: Operation)
        ensures
            op@ == self.operation(
                HttpMethod::Get,
                "/v1/schedules/"@ + schedule_id@,
                None,
                ResponseKind::Json,
            ),
    {
        let url = concat3(self.base_url.as_str(), "/v1/schedules/", schedule_id);
        assert(url@ =~= self.base_url@ + ("/v1/schedules/"@ + schedule_id@));
        self.get_json(url)
    }

    /// Update a schedule.
    pub fn update_schedule(&self, schedule_id: &str, request_json: &str) -> (op: Operation)
        ensures
            op@ == self.operation(
                HttpMethod::Put,
                "/v1/schedules/"@ + schedule_id@,
                Some(request_json@),
                ResponseKind::Json,
            ),
    {
        let url = concat3(self.base_url.as_str(), "/v1/schedules/", schedule_id);
        assert(url@ =~= self.base_url@ + ("/v1/schedules/"@ + schedule_id@));
        self.put_json(url, request_json)
    }

    /// Delete a schedule.
    pub fn delete_schedule(&self, schedule_id: &str) -> (op: Operation)
        ensures
            op@ == self.operation(
                HttpMethod::Delete,
                "/v1/schedules/"@ + schedule_id@,
                None,
                ResponseKind::Empty,
            ),
    {
        let url = concat3(self.base_url.as_str(), "/v1/schedules/", schedule_id);
        assert(url@ =~= self.base_url@ + ("/v1/schedules/"@ + schedule_id@));
        self.delete(url)
    }

    /// Pause a schedule.
    pub fn pause_schedule(&self, schedule_id: &str) -> (op: Operation)
        ensures
            op@ == self.operation(
                HttpMethod::Post,
                "/v1/schedules/"@ + schedule_id@ + "/pause"@,
                None,
                ResponseKind::Json,
            ),
    {
        let mut url = concat3(self.base_url.as_str(), "/v1/schedules/", schedule_id);
        url.append("/pause");
        assert(url@ =~= self.base_url@ + ("/v1/schedules/"@ + schedule_id@ + "/pause"@));
        self.post_empty(url)
    }

    /// Resume a schedule.
    pub fn resume_schedule(&self, schedule_id: &str) -> (op: Operation)
        ensures
            op@ == self.operation(
                HttpMethod::Post,
                "/v1/schedules/"@ + schedule_id@ + "/resume"@,
                None,
                ResponseKind::Json,
            ),
    {
        let mut url = concat3(self.base_url.as_str(), "/v1/schedules/", schedule_id);
        url.append("/resume");
        assert(url@ =~= self.base_url@ + ("/v1/schedules/"@ + schedule_id@ + "/resume"@));
        self.post_empty(url)
    }

    /// Manually trigger a schedule.
    pub fn trigger_schedule(&self, schedule_id: &str) -> (op: Operation)
        ensures
            op@ == self.operation(
                HttpMethod::Post,
                "/v1/schedules/"@ + schedule_id@ + "/trigger"@,
                None,
                ResponseKind::Json,
            ),
    {
        let mut url = concat3(self.base_url.as_str(), "/v1/schedules/", schedule_id);
        url.append("/trigger");
        assert(url@ =~= self.base_url@ + ("/v1/schedules/"@ + schedule_id@ + "/trigger"@));
        self.post_empty(url)
    }

    /// Get the execution history of a schedule.
    pub fn get_schedule_history(&self, schedule_id: &str, limit: Option<i32>) -> (op: Operation)
        ensures
            op@ == self.operation(
                HttpMethod::Get,
                "/v1/schedules/"@ + schedule_id@ + "/history"@ + history_query(limit),
                None,
                ResponseKind::Json,
            ),
    {
        let mut url = concat3(self.base_url.as_str(), "/v1/schedules/", schedule_id);
        url.append("/history");
        push_number_parameter(&mut url, "?limit=", limit);
        assert(url@ =~= self.base_url@ + ("/v1/schedules/"@ + schedule_id@ + "/history"@
            + history_query(limit)));
        self.get_json(url)
    }

    // Usage endpoints

    /// Get usage statistics.
    pub fn get_usage(&self) -> (op: Operation)
        ensures
            op@ == self.operation(
                HttpMethod::Get,
                "/v1/usage"@,
                None,
                ResponseKind::Json,
            ),
    {
        self.get_json(concat2(self.base_url.as_str(), "/v1/usage"))
    }

    /// Get quota status.
    pub fn get_quota(&self) -> (op: Operation)
        ensures
            op@ == self.operation(
                HttpMethod::Get,
                "/v1/usage/quota"@,
                None,
                ResponseKind::Json,
            ),
    {
        self.get_json(concat2(self.base_url.as_str(), "/v1/usage/quota"))
    }

    // Response handling

    /// Turns the response to an operation that expects JSON into the result of
    /// the attempt.
    ///
    /// `body` is what came of reading the body as the expected shape; it counts
    /// when the status reports success. A body of another shape is then a
    /// `JsonError`, which is never retried. `payload` is the error payload
    /// decoded from the body, if there was one; it counts for every other
    /// status.
    pub fn handle_json_response<T>(
        &self,
        status: u16,
        body: Body<T>,
        payload: Option<&ApiErrorResponse>,
    ) -> (result: Result<T, AllscreenshotsError>)
        ensures
            response_result(status, body, payload_view(payload), result),
    {
        if is_success_status(status) {
            match body {
                Body::Decoded(value) => Ok(value),
                Body::Malformed(complaint) => Err(AllscreenshotsError::JsonError(complaint)),
                Body::Unreadable(failure) => Err(AllscreenshotsError::HttpError(failure)),
            }
        } else {
            Err(self.parse_error_response(status, payload))
        }
    }

    /// Turns the response to an operation that expects raw bytes into the
    /// result of the attempt: the body, unmodified, when the status reports
    /// success, and the classified error otherwise. A body that could not be
    /// read is a transport failure.
    pub fn handle_binary_response(
        &self,
        status: u16,
        body: Result<Vec<u8>, HttpFailure>,
        payload: Option<&ApiErrorResponse>,
    ) -> (result: Result<Vec<u8>, AllscreenshotsError>)
        ensures
            response_result(
                status,
                match body {
                    Ok(bytes) => Body::Decoded(bytes),
                    Err(failure) => Body::Unreadable(failure),
                },
                payload_view(payload),
                result,
            ),
    {
        if is_success_status(status) {
            match body {
                Ok(bytes) => Ok(bytes),
                Err(failure) => Err(AllscreenshotsError::HttpError(failure)),
            }
        } else {
            Err(self.parse_error_response(status, payload))
        }
    }

    /// Turns the response to an operation that expects no payload into the
    /// result of the attempt: success when the status reports it, and the
    /// classified error otherwise.
    pub fn handle_empty_response(&self, status: u16, payload: Option<&ApiErrorResponse>) -> (result:
        Result<(), AllscreenshotsError>)
        ensures
            response_result(status, Body::Decoded(()), payload_view(payload), result),
    {
        if is_success_status(status) {
            Ok(())
        } else {
            Err(self.parse_error_response(status, payload))
        }
    }

    /// Classifies a response whose status does not report success.
    ///
    /// With an error payload, the error takes its code and its message from
    /// the payload. Without one (the body could not be read, or is no error
    /// payload) the code is unknown and the message is `HTTP <status> error`.
    pub fn parse_error_response(&self, status: u16, payload: Option<&ApiErrorResponse>) -> (error:
        AllscreenshotsError)
        ensures
            error@ == ErrorView::classify(status, payload_view(payload)),
    {
        AllscreenshotsError::from_error_response(status, payload)
    }
}

/// What came of reading the body of a response as the payload that the
/// operation expects.
#[derive(Debug)]
pub enum Body<T> {
    /// The body was read and holds this payload
    Decoded(T),
    /// The body was read but is not of the expected shape; the text is the
    /// decoder's complaint
    Malformed(String),
    /// The body could not be read
    Unreadable(HttpFailure),
}

/// The view of an optional error payload.
pub open spec fn payload_view(payload: Option<&ApiErrorResponse>) -> Option<ApiErrorResponseView> {
    match payload {
        Some(p) => Some(p@),
        None => None,
    }
}

/// Whether `result` is the result of an attempt, given the status of the
/// response, what came of reading its body, and its error payload.
///
/// With a success status the body decides: its payload is the result, a
/// malformed body is a `JsonError` and an unreadable one an `HttpError`. With
/// any other status the result is the error that classifies the response.
pub open spec fn response_result<T>(
    status: u16,
    body: Body<T>,
    payload: Option<ApiErrorResponseView>,
    result: Result<T, AllscreenshotsError>,
) -> bool {
    if success_status(status) {
        match body {
            Body::Decoded(value) => result == Ok::<T, AllscreenshotsError>(value),
            Body::Malformed(complaint) => result matches Err(e) && e@ == ErrorView::JsonError(
                complaint@,
            ),
            Body::Unreadable(failure) => result matches Err(e) && e@ == ErrorView::HttpError(
                failure@,
            ),
        }
    } else {
        result matches Err(e) && e@ == ErrorView::classify(status, payload)
    }
}

/// What a client builder has been given so far.
pub struct ClientSettings {
    pub api_key: Option<Seq<char>>,
    pub base_url: Option<Seq<char>>,
    pub timeout_ms: Option<u64>,
    pub max_retries: Option<u32>,
}

impl ClientSettings {
    /// The settings of a fresh builder: nothing is set.
    pub open spec fn unset() -> ClientSettings {
        ClientSettings { api_key: None, base_url: None, timeout_ms: None, max_retries: None }
    }

    /// The API key that a client built from these settings uses: the key given
    /// to the builder, or else the key found in the environment.
    pub open spec fn resolved_api_key(self, env_api_key: Option<Seq<char>>) -> Option<Seq<char>> {
        match self.api_key {
            Some(key) => Some(key),
            None => env_api_key,
        }
    }

    /// The retry policy of a client built from these settings: the default
    /// policy with the number of retries that was set, if one was.
    pub open spec fn retry_config(self) -> RetryConfig {
        RetryConfig {
            max_retries: match self.max_retries {
                Some(n) => n,
                None => 3,
            },
            initial_delay_ms: 500,
            max_delay_ms: 30000,
            multiplier_permille: 2000,
            jitter_permille: 100,
        }
    }

    /// Whether `result` is what building a client from these settings gives,
    /// with `env_api_key` being the API key found in the environment.
    ///
    /// Without any API key the result is `EnvVarNotSet`, naming the variable.
    /// With an empty API key it is `ConfigError`. Otherwise it is a client that
    /// holds the key and, for whatever was not set, the defaults.
    pub open spec fn builds(
        self,
        env_api_key: Option<Seq<char>>,
        result: Result<AllscreenshotsClient, AllscreenshotsError>,
    ) -> bool {
        match self.resolved_api_key(env_api_key) {
            None => result matches Err(e) && e@ == ErrorView::EnvVarNotSet(API_KEY_ENV_VAR@),
            Some(key) => if key.len() == 0 {
                result matches Err(e) && e@ == ErrorView::ConfigError("API key cannot be empty"@)
            } else {
                &&& result matches Ok(client)
                &&& client.api_key@ == key
                &&& client.base_url@ == match self.base_url {
                    Some(url) => url,
                    None => DEFAULT_BASE_URL@,
                }
                &&& client.timeout_ms == match self.timeout_ms {
                    Some(ms) => ms,
                    None => DEFAULT_TIMEOUT_MS,
                }
                &&& client.retry_config == self.retry_config()
                &&& client.well_formed()
            },
        }
    }
}

/// Builder for creating an AllscreenshotsClient.
#[derive(Debug)]
pub struct AllscreenshotsClientBuilder {
    api_key: Option<String>,
    base_url: Option<String>,
    timeout_ms: Option<u64>,
    max_retries: Option<u32>,
}

impl View for AllscreenshotsClientBuilder {
    type V = ClientSettings;

    closed spec fn view(&self) -> ClientSettings {
        ClientSettings {
            api_key: option_text(self.api_key),
            base_url: option_text(self.base_url),
            timeout_ms: self.timeout_ms,
            max_retries: self.max_retries,
        }
    }
}

impl Default for AllscreenshotsClientBuilder {
    fn default() -> (builder: Self)
        ensures
            builder@ == ClientSettings::unset(),
    {
        AllscreenshotsClientBuilder {
            api_key: None,
            base_url: None,
            timeout_ms: None,
            max_retries: None,
        }
    }
}

impl AllscreenshotsClientBuilder {
    /// Set the API key.
    pub fn api_key(self, api_key: &str) -> (builder: Self)
        ensures
            builder@ == (ClientSettings { api_key: Some(api_key@), ..self@ }),
    {
        let mut builder = self;
        builder.api_key = Some(api_key.to_owned());
        builder
    }

    /// Set the base URL for the API.
    pub fn base_url(self, base_url: &str) -> (builder: Self)
        ensures
            builder@ == (ClientSettings { base_url: Some(base_url@), ..self@ }),
    {
        let mut builder = self;
        builder.base_url = Some(base_url.to_owned());
        builder
    }

    /// Set the request timeout, in milliseconds.
    pub fn timeout(self, timeout_ms: u64) -> (builder: Self)
        ensures
            builder@ == (ClientSettings { timeout_ms: Some(timeout_ms), ..self@ }),
    {
        let mut builder = self;
        builder.timeout_ms = Some(timeout_ms);
        builder
    }

    /// Set the maximum number of retries.
    pub fn max_retries(self, max_retries: u32) -> (builder: Self)
        ensures
            builder@ == (ClientSettings { max_retries: Some(max_retries), ..self@ }),
    {
        let mut builder = self;
        builder.max_retries = Some(max_retries);
        builder
    }

    /// Build the client.
    ///
    /// `env_api_key` is the value of the environment variable
    /// `ALLSCREENSHOTS_API_KEY`, or `None` if it is not set; it is used when
    /// the builder was given no API key.
    pub fn build(self, env_api_key: Option<String>) -> (result: Result<
        AllscreenshotsClient,
        AllscreenshotsError,
    >)
        ensures
            self@.builds(option_text(env_api_key), result),
    {
        let api_key = match self.api_key {
            Some(key) => key,
            None => match env_api_key {
                Some(key) => key,
                None => {
                    return Err(AllscreenshotsError::EnvVarNotSet(API_KEY_ENV_VAR.to_owned()));
                },
            },
        };
        if api_key.as_str().is_empty() {
            return Err(AllscreenshotsError::ConfigError("API key cannot be empty".to_owned()));
        }
        let base_url = match self.base_url {
            Some(url) => url,
            None => DEFAULT_BASE_URL.to_owned(),
        };
        let timeout_ms = match self.timeout_ms {
            Some(ms) => ms,
            None => DEFAULT_TIMEOUT_MS,
        };
        let mut retry_config = RetryConfig::default();
        if let Some(max_retries) = self.max_retries {
            retry_config.max_retries = max_retries;
        }
        Ok(AllscreenshotsClient { base_url, api_key, timeout_ms, retry_config })
    }
}

} // verus!
