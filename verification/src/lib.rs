//! # Allscreenshots SDK
//!
//! Client-side access layer for the Allscreenshots API: it builds validated
//! requests, describes each call to the service as an operation, classifies
//! what the service answers, and decides which failures are retried and after
//! what delay.
//!
//! The crate performs no network activity. A transport layer sends each
//! [`Operation`] and reports the status and body it received; the crate turns
//! them into the result of the attempt ([`AllscreenshotsClient::handle_json_response`],
//! [`AllscreenshotsClient::handle_binary_response`]) and says what follows
//! ([`with_retry`]).
//!
//! ## Quick start
//!
//! ```rust
//! use allscreenshots_sdk::{AllscreenshotsClient, ScreenshotRequest};
//!
//! let client = AllscreenshotsClient::new("your-api-key").unwrap();
//!
//! let request = ScreenshotRequest::builder()
//!     .url("https://github.com")
//!     .device("Desktop HD")
//!     .build()
//!     .unwrap();
//! assert_eq!(request.url, "https://github.com");
//!
//! let operation = client.get_job("job-123");
//! assert_eq!(operation.url, "https://api.allscreenshots.com/v1/screenshots/jobs/job-123");
//! ```

pub mod client;
pub mod error;
pub mod image;
pub mod models;
pub mod retry;
pub mod text;

pub use client::{
    is_success_status, AllscreenshotsClient, AllscreenshotsClientBuilder, Body, HttpMethod,
    Operation, ResponseKind,
};
pub use error::{AllscreenshotsError, ApiErrorResponse, ErrorCode, HttpFailure};
pub use image::image_data_url;
pub use models::bulk::{
    BulkDefaults, BulkJobDetailInfo, BulkJobInfo, BulkJobSummary, BulkRequest, BulkResponse,
    BulkStatusResponse, BulkUrlOptions, BulkUrlRequest,
};
pub use models::common::{
    BlockLevel, ImageFormat, JobStatus, ResponseType, ViewportConfig, WaitUntil,
};
pub use models::compose::{
    Alignment, BorderConfig, CaptureDefaults, CaptureItem, ComposeJobStatusResponse,
    ComposeJobSummaryResponse, ComposeMetadata, ComposeOutputConfig, ComposeRequest,
    ComposeResponse, LabelConfig, LayoutPreviewResponse, LayoutType, PlacementPreview,
    ShadowConfig, VariantConfig,
};
pub use models::schedule::{
    CreateScheduleRequest, ScheduleExecutionResponse, ScheduleHistoryResponse,
    ScheduleListResponse, ScheduleResponse, ScheduleScreenshotOptions, UpdateScheduleRequest,
};
pub use models::screenshot::{
    AsyncJobCreatedResponse, JobResponse, ScreenshotRequest, ScreenshotRequestBuilder,
};
pub use models::usage::{
    BandwidthQuotaResponse, PeriodUsageResponse, QuotaDetailResponse, QuotaResponse,
    QuotaStatusResponse, TotalsResponse, UsageResponse,
};
pub use retry::{with_retry, RetryConfig, RetryStep};
