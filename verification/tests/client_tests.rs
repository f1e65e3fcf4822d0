//! Tests of the client: construction, the catalog of operations, and the
//! handling of responses.

use allscreenshots_sdk::{
    image_data_url, is_success_status, with_retry, AllscreenshotsClient, AllscreenshotsError,
    ApiErrorResponse, Body, ErrorCode, HttpFailure, HttpMethod, Operation, ResponseKind,
    RetryConfig, RetryStep,
};

#[test]
fn test_builder_missing_api_key() {
    let result = AllscreenshotsClient::builder().build(None);
    assert!(result.is_err());
}

#[test]
fn test_builder_empty_api_key() {
    let result = AllscreenshotsClient::builder().api_key("").build(None);
    assert!(result.is_err());
}

#[test]
fn test_builder_with_api_key() {
    let result = AllscreenshotsClient::builder().api_key("test-api-key").build(None);
    assert!(result.is_ok());
}

#[test]
fn test_builder_custom_base_url() {
    let client = AllscreenshotsClient::builder()
        .api_key("test-api-key")
        .base_url("https://custom.api.com")
        .build(None)
        .unwrap();

    assert_eq!(client.base_url, "https://custom.api.com");
}

#[test]
fn test_builder_custom_timeout() {
    let result =
        AllscreenshotsClient::builder().api_key("test-api-key").timeout(120_000).build(None);
    assert!(result.is_ok());
}

#[test]
fn test_builder_custom_max_retries() {
    let client = AllscreenshotsClient::builder()
        .api_key("test-api-key")
        .max_retries(5)
        .build(None)
        .unwrap();

    assert_eq!(client.retry_config.max_retries, 5);
}

#[test]
fn a_missing_key_names_the_environment_variable() {
    match AllscreenshotsClient::builder().base_url("https://x.example").build(None) {
        Err(AllscreenshotsError::EnvVarNotSet(name)) => {
            assert_eq!(name, "ALLSCREENSHOTS_API_KEY");
        }
        other => panic!("unexpected result {:?}", other),
    }
    match AllscreenshotsClient::from_env(None) {
        Err(AllscreenshotsError::EnvVarNotSet(name)) => {
            assert_eq!(name, "ALLSCREENSHOTS_API_KEY");
        }
        other => panic!("unexpected result {:?}", other),
    }
}

#[test]
fn an_empty_key_is_a_configuration_error() {
    match AllscreenshotsClient::new("") {
        Err(AllscreenshotsError::ConfigError(text)) => assert_eq!(text, "API key cannot be empty"),
        other => panic!("unexpected result {:?}", other),
    }
    match AllscreenshotsClient::from_env(Some(String::new())) {
        Err(AllscreenshotsError::ConfigError(text)) => assert_eq!(text, "API key cannot be empty"),
        other => panic!("unexpected result {:?}", other),
    }
    // an empty key given to the builder is not replaced by the environment's
    match AllscreenshotsClient::builder().api_key("").build(Some("from-env".to_string())) {
        Err(AllscreenshotsError::ConfigError(_)) => {}
        other => panic!("unexpected result {:?}", other),
    }
}

#[test]
fn the_key_given_to_the_builder_wins_over_the_environment() {
    let client =
        AllscreenshotsClient::builder().api_key("explicit").build(Some("from-env".to_string()));
    assert_eq!(client.unwrap().api_key, "explicit");
    let client = AllscreenshotsClient::from_env(Some("from-env".to_string())).unwrap();
    assert_eq!(client.api_key, "from-env");
}

#[test]
fn a_client_gets_the_defaults() {
    let client = AllscreenshotsClient::new("k").unwrap();
    assert_eq!(client.api_key, "k");
    assert_eq!(client.base_url, "https://api.allscreenshots.com");
    assert_eq!(client.timeout_ms, 60_000);
    assert_eq!(client.retry_config, RetryConfig::default());

    let client = AllscreenshotsClient::builder()
        .api_key("k")
        .timeout(1_500)
        .max_retries(0)
        .build(None)
        .unwrap();
    assert_eq!(client.timeout_ms, 1_500);
    assert_eq!(client.retry_config, RetryConfig { max_retries: 0, ..RetryConfig::default() });
}

#[test]
fn success_is_any_2xx_status() {
    for status in [200u16, 201, 204, 250, 299] {
        assert!(is_success_status(status));
    }
    for status in [0u16, 100, 199, 300, 301, 400, 404, 500, 503, 65535] {
        assert!(!is_success_status(status));
    }
}

fn client() -> AllscreenshotsClient {
    AllscreenshotsClient::builder()
        .api_key("key-1")
        .base_url("https://api.example.com")
        .build(None)
        .unwrap()
}

fn expect(op: Operation, method: HttpMethod, url: &str, body: Option<&str>, kind: ResponseKind) {
    assert_eq!(op.method, method);
    assert_eq!(op.url, url);
    assert_eq!(op.api_key, "key-1");
    assert_eq!(op.body.as_deref(), body);
    assert_eq!(op.response, kind);
}

#[test]
fn screenshot_operations() {
    let c = client();
    let body = "{\"url\":\"https://example.com\"}";
    expect(
        c.screenshot(body),
        HttpMethod::Post,
        "https://api.example.com/v1/screenshots",
        Some(body),
        ResponseKind::Binary,
    );
    expect(
        c.screenshot_async(body),
        HttpMethod::Post,
        "https://api.example.com/v1/screenshots/async",
        Some(body),
        ResponseKind::Json,
    );
    expect(
        c.list_jobs(),
        HttpMethod::Get,
        "https://api.example.com/v1/screenshots/jobs",
        None,
        ResponseKind::Json,
    );
    expect(
        c.get_job("j1"),
        HttpMethod::Get,
        "https://api.example.com/v1/screenshots/jobs/j1",
        None,
        ResponseKind::Json,
    );
    expect(
        c.get_job_result("j1"),
        HttpMethod::Get,
        "https://api.example.com/v1/screenshots/jobs/j1/result",
        None,
        ResponseKind::Binary,
    );
    expect(
        c.cancel_job("j1"),
        HttpMethod::Post,
        "https://api.example.com/v1/screenshots/jobs/j1/cancel",
        None,
        ResponseKind::Json,
    );
}

#[test]
fn bulk_operations() {
    let c = client();
    expect(
        c.create_bulk_job("{}"),
        HttpMethod::Post,
        "https://api.example.com/v1/screenshots/bulk",
        Some("{}"),
        ResponseKind::Json,
    );
    expect(
        c.list_bulk_jobs(),
        HttpMethod::Get,
        "https://api.example.com/v1/screenshots/bulk",
        None,
        ResponseKind::Json,
    );
    expect(
        c.get_bulk_job("b7"),
        HttpMethod::Get,
        "https://api.example.com/v1/screenshots/bulk/b7",
        None,
        ResponseKind::Json,
    );
    expect(
        c.cancel_bulk_job("b7"),
        HttpMethod::Post,
        "https://api.example.com/v1/screenshots/bulk/b7/cancel",
        None,
        ResponseKind::Json,
    );
}

#[test]
fn compose_operations() {
    let c = client();
    expect(
        c.compose("{\"a\":1}"),
        HttpMethod::Post,
        "https://api.example.com/v1/screenshots/compose",
        Some("{\"a\":1}"),
        ResponseKind::Json,
    );
    expect(
        c.compose_async("{\"async\":true}"),
        HttpMethod::Post,
        "https://api.example.com/v1/screenshots/compose",
        Some("{\"async\":true}"),
        ResponseKind::Json,
    );
    expect(
        c.list_compose_jobs(),
        HttpMethod::Get,
        "https://api.example.com/v1/screenshots/compose/jobs",
        None,
        ResponseKind::Json,
    );
    expect(
        c.get_compose_job("c3"),
        HttpMethod::Get,
        "https://api.example.com/v1/screenshots/compose/jobs/c3",
        None,
        ResponseKind::Json,
    );
}

#[test]
fn layout_preview_query() {
    let c = client();
    expect(
        c.preview_layout("GRID", 4, None, None, None),
        HttpMethod::Get,
        "https://api.example.com/v1/screenshots/compose/preview?layout=GRID&image_count=4",
        None,
        ResponseKind::Json,
    );
    expect(
        c.preview_layout("AUTO", 12, Some(1920), Some(1080), Some("16:9,4:3")),
        HttpMethod::Get,
        "https://api.example.com/v1/screenshots/compose/preview?layout=AUTO&image_count=12&canvas_width=1920&canvas_height=1080&aspect_ratios=16:9,4:3",
        None,
        ResponseKind::Json,
    );
    expect(
        c.preview_layout("GRID", -3, None, Some(i32::MIN), None),
        HttpMethod::Get,
        "https://api.example.com/v1/screenshots/compose/preview?layout=GRID&image_count=-3&canvas_height=-2147483648",
        None,
        ResponseKind::Json,
    );
    expect(
        c.preview_layout("", 0, Some(i32::MAX), None, Some("")),
        HttpMethod::Get,
        "https://api.example.com/v1/screenshots/compose/preview?layout=&image_count=0&canvas_width=2147483647&aspect_ratios=",
        None,
        ResponseKind::Json,
    );
}

#[test]
fn schedule_operations() {
    let c = client();
    expect(
        c.create_schedule("{}"),
        HttpMethod::Post,
        "https://api.example.com/v1/schedules",
        Some("{}"),
        ResponseKind::Json,
    );
    expect(
        c.list_schedules(),
        HttpMethod::Get,
        "https://api.example.com/v1/schedules",
        None,
        ResponseKind::Json,
    );
    expect(
        c.get_schedule("s9"),
        HttpMethod::Get,
        "https://api.example.com/v1/schedules/s9",
        None,
        ResponseKind::Json,
    );
    expect(
        c.update_schedule("s9", "{\"name\":\"n\"}"),
        HttpMethod::Put,
        "https://api.example.com/v1/schedules/s9",
        Some("{\"name\":\"n\"}"),
        ResponseKind::Json,
    );
    expect(
        c.delete_schedule("s9"),
        HttpMethod::Delete,
        "https://api.example.com/v1/schedules/s9",
        None,
        ResponseKind::Empty,
    );
    expect(
        c.pause_schedule("s9"),
        HttpMethod::Post,
        "https://api.example.com/v1/schedules/s9/pause",
        None,
        ResponseKind::Json,
    );
    expect(
        c.resume_schedule("s9"),
        HttpMethod::Post,
        "https://api.example.com/v1/schedules/s9/resume",
        None,
        ResponseKind::Json,
    );
    expect(
        c.trigger_schedule("s9"),
        HttpMethod::Post,
        "https://api.example.com/v1/schedules/s9/trigger",
        None,
        ResponseKind::Json,
    );
    expect(
        c.get_schedule_history("s9", None),
        HttpMethod::Get,
        "https://api.example.com/v1/schedules/s9/history",
        None,
        ResponseKind::Json,
    );
    expect(
        c.get_schedule_history("s9", Some(25)),
        HttpMethod::Get,
        "https://api.example.com/v1/schedules/s9/history?limit=25",
        None,
        ResponseKind::Json,
    );
}

#[test]
fn usage_operations() {
    let c = client();
    expect(
        c.get_usage(),
        HttpMethod::Get,
        "https://api.example.com/v1/usage",
        None,
        ResponseKind::Json,
    );
    expect(
        c.get_quota(),
        HttpMethod::Get,
        "https://api.example.com/v1/usage/quota",
        None,
        ResponseKind::Json,
    );
}

#[test]
fn headers_carry_the_key_and_the_content_type_of_a_body() {
    let c = client();
    let headers = c.get_usage().headers();
    assert_eq!(headers, vec![("X-API-Key".to_string(), "key-1".to_string())]);
    let headers = c.create_schedule("{}").headers();
    assert_eq!(
        headers,
        vec![
            ("X-API-Key".to_string(), "key-1".to_string()),
            ("Content-Type".to_string(), "application/json".to_string()),
        ]
    );
    assert_eq!(HttpMethod::Get.as_str(), "GET");
    assert_eq!(HttpMethod::Post.as_str(), "POST");
    assert_eq!(HttpMethod::Put.as_str(), "PUT");
    assert_eq!(HttpMethod::Delete.as_str(), "DELETE");
}

fn payload(code: &str, message: &str) -> ApiErrorResponse {
    ApiErrorResponse {
        error_code: Some(code.to_string()),
        error_message: None,
        message: Some(message.to_string()),
        error: None,
    }
}

#[test]
fn binary_responses_are_handed_out_unmodified() {
    let c = client();
    let body = vec![0u8, 255, 1, 2, 3, 0];
    assert_eq!(c.handle_binary_response(200, Ok(body.clone()), None), Ok(body.clone()));
    assert_eq!(c.handle_binary_response(204, Ok(Vec::new()), None), Ok(Vec::new()));
    // an error payload does not matter for a success
    let p = payload("INTERNAL_ERROR", "x");
    assert_eq!(c.handle_binary_response(299, Ok(body.clone()), Some(&p)), Ok(body));
}

#[test]
fn binary_responses_with_an_error_status_are_classified() {
    let c = client();
    let p = payload("UNAUTHORIZED", "bad key");
    assert_eq!(
        c.handle_binary_response(401, Ok(vec![1, 2, 3]), Some(&p)),
        Err(AllscreenshotsError::ApiError {
            code: ErrorCode::Unauthorized,
            message: "bad key".to_string(),
            status: 401,
        })
    );
    assert_eq!(
        c.handle_binary_response(502, Ok(vec![1, 2, 3]), None),
        Err(AllscreenshotsError::ApiError {
            code: ErrorCode::Unknown("UNKNOWN".to_string()),
            message: "HTTP 502 error".to_string(),
            status: 502,
        })
    );
}

#[test]
fn json_responses_are_decoded_or_reported_as_malformed() {
    let c = client();
    assert_eq!(c.handle_json_response(200, Body::Decoded(5u32), None), Ok(5));
    let body = Body::<u32>::Malformed("missing field `id`".to_string());
    let result = c.handle_json_response(200, body, None);
    assert_eq!(result, Err(AllscreenshotsError::JsonError("missing field `id`".to_string())));
    assert!(!result.unwrap_err().is_retryable());
}

#[test]
fn an_unreadable_body_is_a_transport_failure() {
    let c = client();
    let failure = HttpFailure { timeout: true, connect: false, message: "body timed out".into() };
    let result = c.handle_json_response(200, Body::<u32>::Unreadable(failure.clone()), None);
    assert_eq!(result, Err(AllscreenshotsError::HttpError(failure.clone())));
    assert!(result.unwrap_err().is_retryable());
    let result = c.handle_binary_response(200, Err(failure.clone()), None);
    assert_eq!(result, Err(AllscreenshotsError::HttpError(failure.clone())));
    // with an error status the status decides, readable body or not
    let result = c.handle_binary_response(500, Err(failure), None);
    assert_eq!(
        result,
        Err(AllscreenshotsError::ApiError {
            code: ErrorCode::Unknown("UNKNOWN".to_string()),
            message: "HTTP 500 error".to_string(),
            status: 500,
        })
    );
}

#[test]
fn json_responses_with_an_error_status_are_classified() {
    let c = client();
    let p = payload("VALIDATION_ERROR", "URL is required");
    let result = c.handle_json_response(400, Body::Decoded(5u32), Some(&p));
    assert_eq!(
        result,
        Err(AllscreenshotsError::ApiError {
            code: ErrorCode::ValidationError,
            message: "URL is required".to_string(),
            status: 400,
        })
    );
    let result = c.handle_json_response(500, Body::<u32>::Malformed("not json".into()), None);
    assert_eq!(
        result,
        Err(AllscreenshotsError::ApiError {
            code: ErrorCode::Unknown("UNKNOWN".to_string()),
            message: "HTTP 500 error".to_string(),
            status: 500,
        })
    );
}

#[test]
fn empty_responses_follow_the_status() {
    let c = client();
    assert_eq!(c.handle_empty_response(204, None), Ok(()));
    let p = payload("NOT_FOUND", "no such schedule");
    assert_eq!(
        c.handle_empty_response(404, Some(&p)),
        Err(AllscreenshotsError::ApiError {
            code: ErrorCode::NotFound,
            message: "no such schedule".to_string(),
            status: 404,
        })
    );
    assert_eq!(
        c.parse_error_response(404, Some(&p)),
        c.handle_empty_response(404, Some(&p)).unwrap_err()
    );
}

#[test]
fn classification_never_yields_exhausted_retries() {
    let c = client();
    for status in [0u16, 199, 300, 400, 429, 500, 503, 65535] {
        for p in [None, Some(payload("RATE_LIMIT_EXCEEDED", "m")), Some(payload("X", "m"))] {
            let error = c.parse_error_response(status, p.as_ref());
            assert!(matches!(error, AllscreenshotsError::ApiError { .. }));
        }
    }
}

/// A transport that answers from a script of statuses and bodies.
struct ScriptedTransport {
    script: Vec<(u16, Vec<u8>)>,
    sent: Vec<Operation>,
}

impl ScriptedTransport {
    fn send(&mut self, op: &Operation) -> (u16, Vec<u8>) {
        self.sent.push(op.clone());
        self.script.remove(0)
    }
}

fn dispatch_binary(
    client: &AllscreenshotsClient,
    transport: &mut ScriptedTransport,
    op: Operation,
    sleeps: &mut Vec<u64>,
) -> Result<Vec<u8>, AllscreenshotsError> {
    let mut attempt = 0;
    loop {
        let (status, body) = transport.send(&op);
        let outcome = client.handle_binary_response(status, Ok(body), None);
        match with_retry(&client.retry_config, attempt, outcome) {
            RetryStep::Finished(result) => return result,
            RetryStep::Retry { attempt: next, delay_ms } => {
                sleeps.push(delay_ms);
                attempt = next;
            }
        }
    }
}

#[test]
fn two_unavailable_answers_then_the_image() {
    let client = AllscreenshotsClient::builder()
        .api_key("key-1")
        .base_url("https://api.example.com")
        .max_retries(3)
        .build(None)
        .unwrap();
    let mut transport = ScriptedTransport {
        script: vec![(503, Vec::new()), (503, Vec::new()), (200, vec![1, 2, 3])],
        sent: Vec::new(),
    };
    let mut sleeps = Vec::new();
    let op = client.screenshot("{\"url\":\"https://example.com\"}");
    let result = dispatch_binary(&client, &mut transport, op.clone(), &mut sleeps);
    assert_eq!(result, Ok(vec![1, 2, 3]));
    assert_eq!(sleeps.len(), 2);
    assert_eq!(transport.sent.len(), 3);
    assert!(transport.sent.iter().all(|sent| *sent == op));
    assert!(transport.script.is_empty());
    // default policy: 500 ms and 1000 ms, each within a tenth
    assert!((450..=550).contains(&sleeps[0]));
    assert!((900..=1_100).contains(&sleeps[1]));
}

#[test]
fn only_unavailable_answers_exhaust_the_retries() {
    let client = AllscreenshotsClient::builder().api_key("k").max_retries(2).build(None).unwrap();
    let mut transport = ScriptedTransport {
        script: vec![(503, Vec::new()), (500, Vec::new()), (502, Vec::new()), (200, vec![9])],
        sent: Vec::new(),
    };
    let mut sleeps = Vec::new();
    let op = client.get_job_result("j1");
    let result = dispatch_binary(&client, &mut transport, op, &mut sleeps);
    assert_eq!(
        result,
        Err(AllscreenshotsError::RetriesExhausted(
            "API error (UNKNOWN): HTTP 502 error".to_string()
        ))
    );
    assert_eq!(sleeps.len(), 2);
    assert_eq!(transport.sent.len(), 3);
    assert_eq!(transport.script.len(), 1);
}

#[test]
fn a_client_error_is_not_retried() {
    let client = AllscreenshotsClient::new("k").unwrap();
    let mut transport =
        ScriptedTransport { script: vec![(404, Vec::new()), (200, vec![9])], sent: Vec::new() };
    let mut sleeps = Vec::new();
    let op = client.get_job_result("missing");
    let result = dispatch_binary(&client, &mut transport, op, &mut sleeps);
    assert_eq!(
        result,
        Err(AllscreenshotsError::ApiError {
            code: ErrorCode::Unknown("UNKNOWN".to_string()),
            message: "HTTP 404 error".to_string(),
            status: 404,
        })
    );
    assert!(sleeps.is_empty());
    assert_eq!(transport.sent.len(), 1);
}

#[test]
fn an_image_becomes_a_data_url() {
    assert_eq!(image_data_url(&[1, 2, 3]), "data:image/png;base64,AQID");
    assert_eq!(image_data_url(&[]), "data:image/png;base64,");
    assert_eq!(image_data_url(b"hello world~"), "data:image/png;base64,aGVsbG8gd29ybGR+");
    assert_eq!(image_data_url(&[255]), "data:image/png;base64,/w==");
    assert_eq!(
        allscreenshots_sdk::image::data_url_from_base64("QUJD"),
        "data:image/png;base64,QUJD"
    );
}
