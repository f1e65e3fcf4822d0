//! Schedule-related request and response models.

use crate::error::option_text;
use crate::models::common::{BlockLevel, ImageFormat, ViewportConfig, WaitUntil};
use vstd::prelude::*;

verus! {

/// Request to create a scheduled screenshot.
#[derive(Debug, Clone)]
pub struct CreateScheduleRequest {
    /// Schedule name (required, max 255 chars)
    pub name: String,
    /// Target URL (required)
    pub url: String,
    /// Cron expression (required)
    pub schedule: String,
    /// Timezone (e.g., "America/New_York")
    pub timezone: Option<String>,
    /// Screenshot options
    pub options: Option<ScheduleScreenshotOptions>,
    /// Webhook URL for notifications
    pub webhook_url: Option<String>,
    /// Secret for webhook signature
    pub webhook_secret: Option<String>,
    /// Retention period in days (1-365)
    pub retention_days: Option<i32>,
    /// Start date for the schedule
    pub starts_at: Option<String>,
    /// End date for the schedule
    pub ends_at: Option<String>,
}

impl CreateScheduleRequest {
    /// Create a new schedule request.
    pub fn new(name: &str, url: &str, schedule: &str) -> (request: Self)
        ensures
            request.name@ == name@,
            request.url@ == url@,
            request.schedule@ == schedule@,
            request == (CreateScheduleRequest {
                name: request.name,
                url: request.url,
                schedule: request.schedule,
                timezone: None,
                options: None,
                webhook_url: None,
                webhook_secret: None,
                retention_days: None,
                starts_at: None,
                ends_at: None,
            }),
    {
        CreateScheduleRequest {
            name: name.to_owned(),
            url: url.to_owned(),
            schedule: schedule.to_owned(),
            timezone: None,
            options: None,
            webhook_url: None,
            webhook_secret: None,
            retention_days: None,
            starts_at: None,
            ends_at: None,
        }
    }

    /// Set the timezone.
    pub fn with_timezone(self, timezone: &str) -> (request: Self)
        ensures
            request == (CreateScheduleRequest { timezone: request.timezone, ..self }),
            option_text(request.timezone) == Some(timezone@),
    {
        let mut request = self;
        request.timezone = Some(timezone.to_owned());
        request
    }

    /// Set screenshot options.
    pub fn with_options(self, options: ScheduleScreenshotOptions) -> (request: Self)
        ensures
            request == (CreateScheduleRequest { options: Some(options), ..self }),
    {
        let mut request = self;
        request.options = Some(options);
        request
    }

    /// Set the retention period.
    pub fn with_retention_days(self, days: i32) -> (request: Self)
        ensures
            request == (CreateScheduleRequest { retention_days: Some(days), ..self }),
    {
        let mut request = self;
        request.retention_days = Some(days);
        request
    }
}

/// Request to update a schedule.
#[derive(Debug, Clone)]
pub struct UpdateScheduleRequest {
    /// Schedule name (max 255 chars)
    pub name: Option<String>,
    /// Target URL
    pub url: Option<String>,
    /// Cron expression
    pub schedule: Option<String>,
    /// Timezone
    pub timezone: Option<String>,
    /// Screenshot options
    pub options: Option<ScheduleScreenshotOptions>,
    /// Webhook URL
    pub webhook_url: Option<String>,
    /// Webhook secret
    pub webhook_secret: Option<String>,
    /// Retention period in days (1-365)
    pub retention_days: Option<i32>,
    /// Start date for the schedule
    pub starts_at: Option<String>,
    /// End date for the schedule
    pub ends_at: Option<String>,
}

impl Default for UpdateScheduleRequest {
    fn default() -> (value: Self)
        ensures
            value == UpdateScheduleRequest::unset(),
    {
        UpdateScheduleRequest {
            name: None,
            url: None,
            schedule: None,
            timezone: None,
            options: None,
            webhook_url: None,
            webhook_secret: None,
            retention_days: None,
            starts_at: None,
            ends_at: None,
        }
    }
}

impl UpdateScheduleRequest {
    /// The value in which no field is set.
    pub open spec fn unset() -> UpdateScheduleRequest {
        UpdateScheduleRequest {
            name: None,
            url: None,
            schedule: None,
            timezone: None,
            options: None,
            webhook_url: None,
            webhook_secret: None,
            retention_days: None,
            starts_at: None,
            ends_at: None,
        }
    }
}
/// Screenshot options for scheduled captures.
#[derive(Debug, Clone)]
pub struct ScheduleScreenshotOptions {
    /// Viewport configuration
    pub viewport: Option<ViewportConfig>,
    /// Device preset name
    pub device: Option<String>,
    /// Output image format
    pub format: Option<ImageFormat>,
    /// Capture full page
    pub full_page: Option<bool>,
    /// Image quality (1-100)
    pub quality: Option<i32>,
    /// Delay before capture in milliseconds
    pub delay: Option<i32>,
    /// CSS selector to wait for
    pub wait_for: Option<String>,
    /// Page load condition to wait for
    pub wait_until: Option<WaitUntil>,
    /// Timeout in milliseconds
    pub timeout: Option<i32>,
    /// Enable dark mode
    pub dark_mode: Option<bool>,
    /// Custom CSS to inject
    pub custom_css: Option<String>,
    /// CSS selectors to hide
    pub hide_selectors: Option<Vec<String>>,
    /// Block ads
    pub block_ads: Option<bool>,
    /// Block cookie banners
    pub block_cookie_banners: Option<bool>,
    /// Blocking level
    pub block_level: Option<BlockLevel>,
}

impl Default for ScheduleScreenshotOptions {
    fn default() -> (value: Self)
        ensures
            value == ScheduleScreenshotOptions::unset(),
    {
        ScheduleScreenshotOptions {
            viewport: None,
            device: None,
            format: None,
            full_page: None,
            quality: None,
            delay: None,
            wait_for: None,
            wait_until: None,
            timeout: None,
            dark_mode: None,
            custom_css: None,
            hide_selectors: None,
            block_ads: None,
            block_cookie_banners: None,
            block_level: None,
        }
    }
}

impl ScheduleScreenshotOptions {
    /// The value in which no field is set.
    pub open spec fn unset() -> ScheduleScreenshotOptions {
        ScheduleScreenshotOptions {
            viewport: None,
            device: None,
            format: None,
            full_page: None,
            quality: None,
            delay: None,
            wait_for: None,
            wait_until: None,
            timeout: None,
            dark_mode: None,
            custom_css: None,
            hide_selectors: None,
            block_ads: None,
            block_cookie_banners: None,
            block_level: None,
        }
    }
}
/// Response for a schedule.
#[derive(Debug, Clone)]
pub struct ScheduleResponse {
    /// Schedule ID
    pub id: String,
    /// Schedule name
    pub name: String,
    /// Target URL
    pub url: String,
    /// Cron expression
    pub schedule: String,
    /// Human-readable schedule description
    pub schedule_description: Option<String>,
    /// Timezone
    pub timezone: Option<String>,
    /// Current status
    pub status: String,
    /// Screenshot options
    pub options: Option<serde_json::Value>,
    /// Webhook URL
    pub webhook_url: Option<String>,
    /// Retention period in days
    pub retention_days: Option<i32>,
    /// Start date
    pub starts_at: Option<String>,
    /// End date
    pub ends_at: Option<String>,
    /// Last execution timestamp
    pub last_executed_at: Option<String>,
    /// Next execution timestamp
    pub next_execution_at: Option<String>,
    /// Total execution count
    pub execution_count: Option<i32>,
    /// Successful execution count
    pub success_count: Option<i32>,
    /// Failed execution count
    pub failure_count: Option<i32>,
    /// Creation timestamp
    pub created_at: Option<String>,
    /// Last update timestamp
    pub updated_at: Option<String>,
}
/// Response for listing schedules.
#[derive(Debug, Clone)]
pub struct ScheduleListResponse {
    /// List of schedules
    pub schedules: Vec<ScheduleResponse>,
    /// Total count
    pub total: i32,
}
/// Response for schedule execution history.
#[derive(Debug, Clone)]
pub struct ScheduleHistoryResponse {
    /// Schedule ID
    pub schedule_id: String,
    /// Total number of executions
    pub total_executions: i64,
    /// List of executions
    pub executions: Vec<ScheduleExecutionResponse>,
}
/// Response for a single schedule execution.
#[derive(Debug, Clone)]
pub struct ScheduleExecutionResponse {
    /// Execution ID
    pub id: String,
    /// Execution timestamp
    pub executed_at: String,
    /// Execution status
    pub status: String,
    /// Result URL
    pub result_url: Option<String>,
    /// Storage URL
    pub storage_url: Option<String>,
    /// File size in bytes
    pub file_size: Option<i64>,
    /// Render time in milliseconds
    pub render_time_ms: Option<i64>,
    /// Error code if failed
    pub error_code: Option<String>,
    /// Error message if failed
    pub error_message: Option<String>,
    /// Expiration timestamp
    pub expires_at: Option<String>,
}
} // verus!
