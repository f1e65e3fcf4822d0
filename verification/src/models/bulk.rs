//! Bulk screenshot request and response models.

use crate::models::common::{BlockLevel, ImageFormat, ViewportConfig, WaitUntil};
use vstd::prelude::*;

verus! {

/// Request for bulk screenshots.
#[derive(Debug, Clone)]
pub struct BulkRequest {
    /// List of URLs to capture (max 100)
    pub urls: Vec<BulkUrlRequest>,
    /// Default options for all URLs
    pub defaults: Option<BulkDefaults>,
    /// Webhook URL for notifications
    pub webhook_url: Option<String>,
    /// Secret for webhook signature
    pub webhook_secret: Option<String>,
}

impl BulkRequest {
    /// Create a new bulk request with the given URLs.
    pub fn new(urls: Vec<BulkUrlRequest>) -> (request: Self)
        ensures
            request == (BulkRequest {
                urls,
                defaults: None,
                webhook_url: None,
                webhook_secret: None,
            }),
    {
        BulkRequest { urls, defaults: None, webhook_url: None, webhook_secret: None }
    }

    /// Set default options for all URLs.
    pub fn with_defaults(self, defaults: BulkDefaults) -> (request: Self)
        ensures
            request == (BulkRequest { defaults: Some(defaults), ..self }),
    {
        let mut request = self;
        request.defaults = Some(defaults);
        request
    }

    /// Set the webhook URL.
    pub fn with_webhook(self, url: String, secret: Option<String>) -> (request: Self)
        ensures
            request == (BulkRequest { webhook_url: Some(url), webhook_secret: secret, ..self }),
    {
        let mut request = self;
        request.webhook_url = Some(url);
        request.webhook_secret = secret;
        request
    }
}

/// URL configuration for bulk requests.
#[derive(Debug, Clone)]
pub struct BulkUrlRequest {
    /// Target URL
    pub url: String,
    /// URL-specific options (override defaults)
    pub options: Option<BulkUrlOptions>,
}

impl BulkUrlRequest {
    /// Create a simple URL request.
    pub fn new(url: &str) -> (request: Self)
        ensures
            request.url@ == url@,
            request.options is None,
    {
        BulkUrlRequest { url: url.to_owned(), options: None }
    }

    /// Create a URL request with options.
    pub fn with_options(url: &str, options: BulkUrlOptions) -> (request: Self)
        ensures
            request.url@ == url@,
            request.options == Some(options),
    {
        BulkUrlRequest { url: url.to_owned(), options: Some(options) }
    }
}

/// URL-specific options for bulk requests.
#[derive(Debug, Clone)]
pub struct BulkUrlOptions {
    /// Viewport configuration
    pub viewport: Option<ViewportConfig>,
    /// Device preset name
    pub device: Option<String>,
    /// Output image format
    pub format: Option<ImageFormat>,
    /// Capture full page
    pub full_page: Option<bool>,
    /// Image quality (1-100)
    pub quality: Option<i32>,
    /// Delay before capture in milliseconds
    pub delay: Option<i32>,
    /// CSS selector to wait for
    pub wait_for: Option<String>,
    /// Page load condition to wait for
    pub wait_until: Option<WaitUntil>,
    /// Timeout in milliseconds
    pub timeout: Option<i32>,
    /// Enable dark mode
    pub dark_mode: Option<bool>,
    /// Custom CSS to inject
    pub custom_css: Option<String>,
    /// Block ads
    pub block_ads: Option<bool>,
    /// Block cookie banners
    pub block_cookie_banners: Option<bool>,
    /// Blocking level
    pub block_level: Option<BlockLevel>,
}

impl Default for BulkUrlOptions {
    fn default() -> (value: Self)
        ensures
            value == BulkUrlOptions::unset(),
    {
        BulkUrlOptions {
            viewport: None,
            device: None,
            format: None,
            full_page: None,
            quality: None,
            delay: None,
            wait_for: None,
            wait_until: None,
            timeout: None,
            dark_mode: None,
            custom_css: None,
            block_ads: None,
            block_cookie_banners: None,
            block_level: None,
        }
    }
}

impl BulkUrlOptions {
    /// The value in which no field is set.
    pub open spec fn unset() -> BulkUrlOptions {
        BulkUrlOptions {
            viewport: None,
            device: None,
            format: None,
            full_page: None,
            quality: None,
            delay: None,
            wait_for: None,
            wait_until: None,
            timeout: None,
            dark_mode: None,
            custom_css: None,
            block_ads: None,
            block_cookie_banners: None,
            block_level: None,
        }
    }
}
/// Default options for bulk requests.
#[derive(Debug, Clone)]
pub struct BulkDefaults {
    /// Viewport configuration
    pub viewport: Option<ViewportConfig>,
    /// Device preset name
    pub device: Option<String>,
    /// Output image format
    pub format: Option<ImageFormat>,
    /// Capture full page
    pub full_page: Option<bool>,
    /// Image quality (1-100)
    pub quality: Option<i32>,
    /// Delay before capture in milliseconds
    pub delay: Option<i32>,
    /// CSS selector to wait for
    pub wait_for: Option<String>,
    /// Page load condition to wait for
    pub wait_until: Option<WaitUntil>,
    /// Timeout in milliseconds
    pub timeout: Option<i32>,
    /// Enable dark mode
    pub dark_mode: Option<bool>,
    /// Custom CSS to inject
    pub custom_css: Option<String>,
    /// Block ads
    pub block_ads: Option<bool>,
    /// Block cookie banners
    pub block_cookie_banners: Option<bool>,
    /// Blocking level
    pub block_level: Option<BlockLevel>,
}

impl Default for BulkDefaults {
    fn default() -> (value: Self)
        ensures
            value == BulkDefaults::unset(),
    {
        BulkDefaults {
            viewport: None,
            device: None,
            format: None,
            full_page: None,
            quality: None,
            delay: None,
            wait_for: None,
            wait_until: None,
            timeout: None,
            dark_mode: None,
            custom_css: None,
            block_ads: None,
            block_cookie_banners: None,
            block_level: None,
        }
    }
}

impl BulkDefaults {
    /// The value in which no field is set.
    pub open spec fn unset() -> BulkDefaults {
        BulkDefaults {
            viewport: None,
            device: None,
            format: None,
            full_page: None,
            quality: None,
            delay: None,
            wait_for: None,
            wait_until: None,
            timeout: None,
            dark_mode: None,
            custom_css: None,
            block_ads: None,
            block_cookie_banners: None,
            block_level: None,
        }
    }
}
/// Response for bulk job creation.
#[derive(Debug, Clone)]
pub struct BulkResponse {
    /// Bulk job ID
    pub id: String,
    /// Current status
    pub status: String,
    /// Total number of jobs
    pub total_jobs: i32,
    /// Number of completed jobs
    pub completed_jobs: i32,
    /// Number of failed jobs
    pub failed_jobs: i32,
    /// Progress percentage (0-100)
    pub progress: i32,
    /// Individual job information
    pub jobs: Option<Vec<BulkJobInfo>>,
    /// Creation timestamp
    pub created_at: Option<String>,
    /// Completion timestamp
    pub completed_at: Option<String>,
}
/// Basic job information for bulk requests.
#[derive(Debug, Clone)]
pub struct BulkJobInfo {
    /// Job ID
    pub id: String,
    /// Target URL
    pub url: String,
    /// Job status
    pub status: String,
}
/// Summary of a bulk job.
#[derive(Debug, Clone)]
pub struct BulkJobSummary {
    /// Bulk job ID
    pub id: String,
    /// Current status
    pub status: String,
    /// Total number of jobs
    pub total_jobs: i32,
    /// Number of completed jobs
    pub completed_jobs: i32,
    /// Number of failed jobs
    pub failed_jobs: i32,
    /// Progress percentage (0-100)
    pub progress: i32,
    /// Creation timestamp
    pub created_at: Option<String>,
    /// Completion timestamp
    pub completed_at: Option<String>,
}
/// Detailed status response for a bulk job.
#[derive(Debug, Clone)]
pub struct BulkStatusResponse {
    /// Bulk job ID
    pub id: String,
    /// Current status
    pub status: String,
    /// Total number of jobs
    pub total_jobs: i32,
    /// Number of completed jobs
    pub completed_jobs: i32,
    /// Number of failed jobs
    pub failed_jobs: i32,
    /// Progress percentage (0-100)
    pub progress: i32,
    /// Detailed job information
    pub jobs: Option<Vec<BulkJobDetailInfo>>,
    /// Creation timestamp
    pub created_at: Option<String>,
    /// Completion timestamp
    pub completed_at: Option<String>,
}
/// Detailed job information for bulk status.
#[derive(Debug, Clone)]
pub struct BulkJobDetailInfo {
    /// Job ID
    pub id: String,
    /// Target URL
    pub url: String,
    /// Job status
    pub status: String,
    /// URL to download the result
    pub result_url: Option<String>,
    /// Storage URL
    pub storage_url: Option<String>,
    /// Output format
    pub format: Option<String>,
    /// Image width
    pub width: Option<i32>,
    /// Image height
    pub height: Option<i32>,
    /// File size in bytes
    pub file_size: Option<i64>,
    /// Render time in milliseconds
    pub render_time_ms: Option<i64>,
    /// Error code if failed
    pub error_code: Option<String>,
    /// Error message if failed
    pub error_message: Option<String>,
    /// Creation timestamp
    pub created_at: Option<String>,
    /// Completion timestamp
    pub completed_at: Option<String>,
}
} // verus!
