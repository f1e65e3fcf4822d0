//! Screenshot-related request and response models.
//!
//! A [`ScreenshotRequest`] is assembled with a [`ScreenshotRequestBuilder`]:
//! the builder collects the fields of a draft and `build` hands the draft out
//! only if it passes every validation rule.

use crate::error::{option_text, AllscreenshotsError, ErrorView};
use crate::models::common::{
    BlockLevel, ImageFormat, JobStatus, ResponseType, ViewportConfig, WaitUntil,
};
use crate::text::str_starts_with;
use vstd::prelude::*;

verus! {

/// Request to take a screenshot.
#[derive(Debug, Clone)]
pub struct ScreenshotRequest {
    /// Target URL to capture (required)
    pub url: String,
    /// Viewport configuration
    pub viewport: Option<ViewportConfig>,
    /// Device preset name (e.g., "Desktop HD", "iPhone 14", "iPad")
    pub device: Option<String>,
    /// Output image format
    pub format: Option<ImageFormat>,
    /// Capture full page
    pub full_page: Option<bool>,
    /// Image quality (1-100, for JPEG/WebP)
    pub quality: Option<i32>,
    /// Delay before capture in milliseconds (0-30000)
    pub delay: Option<i32>,
    /// CSS selector to wait for
    pub wait_for: Option<String>,
    /// Page load condition to wait for
    pub wait_until: Option<WaitUntil>,
    /// Timeout in milliseconds (1000-60000)
    pub timeout: Option<i32>,
    /// Enable dark mode
    pub dark_mode: Option<bool>,
    /// Custom CSS to inject
    pub custom_css: Option<String>,
    /// CSS selectors to hide
    pub hide_selectors: Option<Vec<String>>,
    /// CSS selector of element to capture
    pub selector: Option<String>,
    /// Block ads
    pub block_ads: Option<bool>,
    /// Block cookie banners
    pub block_cookie_banners: Option<bool>,
    /// Blocking level
    pub block_level: Option<BlockLevel>,
    /// Webhook URL for notifications
    pub webhook_url: Option<String>,
    /// Secret for webhook signature
    pub webhook_secret: Option<String>,
    /// Response type (BINARY or JSON)
    pub response_type: Option<ResponseType>,
}

/// Whether a target URL begins with one of the accepted schemes.
pub open spec fn has_accepted_scheme(url: Seq<char>) -> bool {
    "http://"@.is_prefix_of(url) || "https://"@.is_prefix_of(url)
}

/// Whether an optional number is absent or lies in the closed interval from
/// `low` to `high`.
pub open spec fn absent_or_within(value: Option<i32>, low: int, high: int) -> bool {
    match value {
        Some(v) => low <= v <= high,
        None => true,
    }
}

impl ScreenshotRequest {
    /// Whether every optional field of the request is unset.
    pub open spec fn options_unset(&self) -> bool {
        &&& self.viewport is None
        &&& self.device is None
        &&& self.format is None
        &&& self.full_page is None
        &&& self.quality is None
        &&& self.delay is None
        &&& self.wait_for is None
        &&& self.wait_until is None
        &&& self.timeout is None
        &&& self.dark_mode is None
        &&& self.custom_css is None
        &&& self.hide_selectors is None
        &&& self.selector is None
        &&& self.block_ads is None
        &&& self.block_cookie_banners is None
        &&& self.block_level is None
        &&& self.webhook_url is None
        &&& self.webhook_secret is None
        &&& self.response_type is None
    }

    /// The validation rules, in the order in which they are applied: the text
    /// of the first rule that the request breaks, or `None` for a request that
    /// breaks none.
    pub open spec fn validation_failure(&self) -> Option<Seq<char>> {
        if self.url@.len() == 0 {
            Some("URL is required"@)
        } else if !has_accepted_scheme(self.url@) {
            Some("URL must start with http:// or https://"@)
        } else if !absent_or_within(self.quality, 1, 100) {
            Some("Quality must be between 1 and 100"@)
        } else if !absent_or_within(self.delay, 0, 30000) {
            Some("Delay must be between 0 and 30000 milliseconds"@)
        } else if !absent_or_within(self.timeout, 1000, 60000) {
            Some("Timeout must be between 1000 and 60000 milliseconds"@)
        } else {
            None
        }
    }

    /// Whether the request passes validation: it names a target with an
    /// accepted scheme, and each bounded number that is set lies in its
    /// interval.
    pub open spec fn is_valid(&self) -> bool {
        &&& self.url@.len() > 0
        &&& has_accepted_scheme(self.url@)
        &&& absent_or_within(self.quality, 1, 100)
        &&& absent_or_within(self.delay, 0, 30000)
        &&& absent_or_within(self.timeout, 1000, 60000)
    }

    /// Create a new builder for ScreenshotRequest.
    pub fn builder() -> (builder: ScreenshotRequestBuilder)
        ensures
            builder.draft().url@ == Seq::<char>::empty(),
            builder.draft().options_unset(),
    {
        ScreenshotRequestBuilder::default()
    }

    /// Create a simple screenshot request for a URL.
    pub fn simple(url: &str) -> (request: Self)
        ensures
            request.url@ == url@,
            request.options_unset(),
    {
        let mut request = ScreenshotRequest::default();
        request.url = url.to_owned();
        request
    }
}

impl Default for ScreenshotRequest {
    fn default() -> (request: Self)
        ensures
            request.url@ == Seq::<char>::empty(),
            request.options_unset(),
    {
        ScreenshotRequest {
            url: String::new(),
            viewport: None,
            device: None,
            format: None,
            full_page: None,
            quality: None,
            delay: None,
            wait_for: None,
            wait_until: None,
            timeout: None,
            dark_mode: None,
            custom_css: None,
            hide_selectors: None,
            selector: None,
            block_ads: None,
            block_cookie_banners: None,
            block_level: None,
            webhook_url: None,
            webhook_secret: None,
            response_type: None,
        }
    }
}

/// Builder for ScreenshotRequest.
#[derive(Debug)]
pub struct ScreenshotRequestBuilder {
    request: ScreenshotRequest,
}

impl Default for ScreenshotRequestBuilder {
    fn default() -> (builder: Self)
        ensures
            builder.draft().url@ == Seq::<char>::empty(),
            builder.draft().options_unset(),
    {
        ScreenshotRequestBuilder { request: ScreenshotRequest::default() }
    }
}

impl ScreenshotRequestBuilder {
    /// The request as assembled so far.
    pub closed spec fn draft(&self) -> ScreenshotRequest {
        self.request
    }

    /// Set the target URL (required).
    pub fn url(self, url: &str) -> (builder: Self)
        ensures
            builder.draft() == (ScreenshotRequest { url: builder.draft().url, ..self.draft() }),
            builder.draft().url@ == url@,
    {
        let mut builder = self;
        builder.request.url = url.to_owned();
        builder
    }

    /// Set the viewport configuration.
    pub fn viewport(self, viewport: ViewportConfig) -> (builder: Self)
        ensures
            builder.draft() == (ScreenshotRequest { viewport: Some(viewport), ..self.draft() }),
    {
        let mut builder = self;
        builder.request.viewport = Some(viewport);
        builder
    }

    /// Set the device preset.
    pub fn device(self, device: &str) -> (builder: Self)
        ensures
            builder.draft() == (ScreenshotRequest {
                device: builder.draft().device,
                ..self.draft()
            }),
            option_text(builder.draft().device) == Some(device@),
    {
        let mut builder = self;
        builder.request.device = Some(device.to_owned());
        builder
    }

    /// Set the output format.
    pub fn format(self, format: ImageFormat) -> (builder: Self)
        ensures
            builder.draft() == (ScreenshotRequest { format: Some(format), ..self.draft() }),
    {
        let mut builder = self;
        builder.request.format = Some(format);
        builder
    }

    /// Enable or disable full page capture.
    pub fn full_page(self, full_page: bool) -> (builder: Self)
        ensures
            builder.draft() == (ScreenshotRequest { full_page: Some(full_page), ..self.draft() }),
    {
        let mut builder = self;
        builder.request.full_page = Some(full_page);
        builder
    }

    /// Set the image quality (1-100).
    pub fn quality(self, quality: i32) -> (builder: Self)
        ensures
            builder.draft() == (ScreenshotRequest { quality: Some(quality), ..self.draft() }),
    {
        let mut builder = self;
        builder.request.quality = Some(quality);
        builder
    }

    /// Set the delay before capture in milliseconds.
    pub fn delay(self, delay: i32) -> (builder: Self)
        ensures
            builder.draft() == (ScreenshotRequest { delay: Some(delay), ..self.draft() }),
    {
        let mut builder = self;
        builder.request.delay = Some(delay);
        builder
    }

    /// Set a CSS selector to wait for.
    pub fn wait_for(self, selector: &str) -> (builder: Self)
        ensures
            builder.draft() == (ScreenshotRequest {
                wait_for: builder.draft().wait_for,
                ..self.draft()
            }),
            option_text(builder.draft().wait_for) == Some(selector@),
    {
        let mut builder = self;
        builder.request.wait_for = Some(selector.to_owned());
        builder
    }

    /// Set the page load condition to wait for.
    pub fn wait_until(self, condition: WaitUntil) -> (builder: Self)
        ensures
            builder.draft() == (ScreenshotRequest { wait_until: Some(condition), ..self.draft() }),
    {
        let mut builder = self;
        builder.request.wait_until = Some(condition);
        builder
    }

    /// Set the timeout in milliseconds.
    pub fn timeout(self, timeout: i32) -> (builder: Self)
        ensures
            builder.draft() == (ScreenshotRequest { timeout: Some(timeout), ..self.draft() }),
    {
        let mut builder = self;
        builder.request.timeout = Some(timeout);
        builder
    }

    /// Enable or disable dark mode.
    pub fn dark_mode(self, dark_mode: bool) -> (builder: Self)
        ensures
            builder.draft() == (ScreenshotRequest { dark_mode: Some(dark_mode), ..self.draft() }),
    {
        let mut builder = self;
        builder.request.dark_mode = Some(dark_mode);
        builder
    }

    /// Set custom CSS to inject.
    pub fn custom_css(self, css: &str) -> (builder: Self)
        ensures
            builder.draft() == (ScreenshotRequest {
                custom_css: builder.draft().custom_css,
                ..self.draft()
            }),
            option_text(builder.draft().custom_css) == Some(css@),
    {
        let mut builder = self;
        builder.request.custom_css = Some(css.to_owned());
        builder
    }

    /// Set CSS selectors to hide.
    pub fn hide_selectors(self, selectors: Vec<String>) -> (builder: Self)
        ensures
            builder.draft() == (ScreenshotRequest {
                hide_selectors: Some(selectors),
                ..self.draft()
            }),
    {
        let mut builder = self;
        builder.request.hide_selectors = Some(selectors);
        builder
    }

    /// Set a CSS selector for the element to capture.
    pub fn selector(self, selector: &str) -> (builder: Self)
        ensures
            builder.draft() == (ScreenshotRequest {
                selector: builder.draft().selector,
                ..self.draft()
            }),
            option_text(builder.draft().selector) == Some(selector@),
    {
        let mut builder = self;
        builder.request.selector = Some(selector.to_owned());
        builder
    }

    /// Enable or disable ad blocking.
    pub fn block_ads(self, block: bool) -> (builder: Self)
        ensures
            builder.draft() == (ScreenshotRequest { block_ads: Some(block), ..self.draft() }),
    {
        let mut builder = self;
        builder.request.block_ads = Some(block);
        builder
    }

    /// Enable or disable cookie banner blocking.
    pub fn block_cookie_banners(self, block: bool) -> (builder: Self)
        ensures
            builder.draft() == (ScreenshotRequest {
                block_cookie_banners: Some(block),
                ..self.draft()
            }),
    {
        let mut builder = self;
        builder.request.block_cookie_banners = Some(block);
        builder
    }

    /// Set the blocking level.
    pub fn block_level(self, level: BlockLevel) -> (builder: Self)
        ensures
            builder.draft() == (ScreenshotRequest { block_level: Some(level), ..self.draft() }),
    {
        let mut builder = self;
        builder.request.block_level = Some(level);
        builder
    }

    /// Set the webhook URL.
    pub fn webhook_url(self, url: &str) -> (builder: Self)
        ensures
            builder.draft() == (ScreenshotRequest {
                webhook_url: builder.draft().webhook_url,
                ..self.draft()
            }),
            option_text(builder.draft().webhook_url) == Some(url@),
    {
        let mut builder = self;
        builder.request.webhook_url = Some(url.to_owned());
        builder
    }

    /// Set the webhook secret.
    pub fn webhook_secret(self, secret: &str) -> (builder: Self)
        ensures
            builder.draft() == (ScreenshotRequest {
                webhook_secret: builder.draft().webhook_secret,
                ..self.draft()
            }),
            option_text(builder.draft().webhook_secret) == Some(secret@),
    {
        let mut builder = self;
        builder.request.webhook_secret = Some(secret.to_owned());
        builder
    }

    /// Set the response type.
    pub fn response_type(self, response_type: ResponseType) -> (builder: Self)
        ensures
            builder.draft() == (ScreenshotRequest {
                response_type: Some(response_type),
                ..self.draft()
            }),
    {
        let mut builder = self;
        builder.request.response_type = Some(response_type);
        builder
    }

    /// Build the request, validating required fields.
    ///
    /// The draft is handed out unchanged when it is valid. Otherwise the result
    /// is a validation error whose text names the first rule that the draft
    /// breaks.
    pub fn build(self) -> (result: Result<ScreenshotRequest, AllscreenshotsError>)
        ensures
            match self.draft().validation_failure() {
                None => result == Ok::<ScreenshotRequest, AllscreenshotsError>(self.draft()),
                Some(text) => result matches Err(e) && e@ == ErrorView::ValidationError(text),
            },
    {
        if self.request.url.as_str().is_empty() {
            return Err(AllscreenshotsError::ValidationError("URL is required".to_owned()));
        }
        if !str_starts_with(self.request.url.as_str(), "http://") && !str_starts_with(
            self.request.url.as_str(),
            "https://",
        ) {
            return Err(
                AllscreenshotsError::ValidationError(
                    "URL must start with http:// or https://".to_owned(),
                ),
            );
        }
        if let Some(quality) = self.request.quality {
            if quality < 1 || quality > 100 {
                return Err(
                    AllscreenshotsError::ValidationError(
                        "Quality must be between 1 and 100".to_owned(),
                    ),
                );
            }
        }
        if let Some(delay) = self.request.delay {
            if delay < 0 || delay > 30000 {
                return Err(
                    AllscreenshotsError::ValidationError(
                        "Delay must be between 0 and 30000 milliseconds".to_owned(),
                    ),
                );
            }
        }
        if let Some(timeout) = self.request.timeout {
            if timeout < 1000 || timeout > 60000 {
                return Err(
                    AllscreenshotsError::ValidationError(
                        "Timeout must be between 1000 and 60000 milliseconds".to_owned(),
                    ),
                );
            }
        }
        Ok(self.request)
    }
}

/// A request passes validation exactly when no rule names a failure.
pub proof fn lemma_valid_iff_no_failure(request: ScreenshotRequest)
    ensures
        request.is_valid() <==> request.validation_failure() is None,
{
}

/// A request without a target URL is rejected.
pub proof fn lemma_rejects_empty_url(request: ScreenshotRequest)
    requires
        request.url@.len() == 0,
    ensures
        request.validation_failure() == Some("URL is required"@),
{
}

/// A request whose target URL begins with neither `http://` nor `https://` is
/// rejected.
pub proof fn lemma_rejects_missing_scheme(request: ScreenshotRequest)
    requires
        !has_accepted_scheme(request.url@),
    ensures
        request.validation_failure() is Some,
{
}

/// A request with a quality, a delay or a timeout outside its interval is
/// rejected.
pub proof fn lemma_rejects_out_of_range(request: ScreenshotRequest)
    requires
        !absent_or_within(request.quality, 1, 100) || !absent_or_within(request.delay, 0, 30000)
            || !absent_or_within(request.timeout, 1000, 60000),
    ensures
        request.validation_failure() is Some,
{
}

/// Response for an async screenshot job creation.
#[derive(Debug, Clone)]
pub struct AsyncJobCreatedResponse {
    /// Job ID
    pub id: String,
    /// Current job status
    pub status: JobStatus,
    /// URL to check job status
    pub status_url: Option<String>,
    /// Creation timestamp
    pub created_at: Option<String>,
}

/// Response for a screenshot job status.
#[derive(Debug, Clone)]
pub struct JobResponse {
    /// Job ID
    pub id: String,
    /// Current job status
    pub status: JobStatus,
    /// URL that was captured
    pub url: Option<String>,
    /// URL to download the result
    pub result_url: Option<String>,
    /// Error code if failed
    pub error_code: Option<String>,
    /// Error message if failed
    pub error_message: Option<String>,
    /// Creation timestamp
    pub created_at: Option<String>,
    /// Start timestamp
    pub started_at: Option<String>,
    /// Completion timestamp
    pub completed_at: Option<String>,
    /// Expiration timestamp
    pub expires_at: Option<String>,
    /// Additional metadata
    pub metadata: Option<serde_json::Value>,
}
} // verus!
