//! Common types used across multiple API endpoints.
//!
//! Each enumeration knows the name under which it travels in a request or a
//! response: `as_str` writes it and `parse` reads it back.

use crate::text::str_equal;
use vstd::prelude::*;

verus! {

/// A JSON document of any shape, as `serde_json::Value` holds it. Responses
/// carry such documents through without looking inside; nothing is claimed of
/// what a value holds.
#[verifier::external_type_specification]
#[verifier::external_body]
pub struct ExJsonValue(serde_json::Value);

/// Viewport configuration for screenshots.
#[derive(Debug, Clone, Copy, PartialEq, Eq)]
pub struct ViewportConfig {
    /// Width in pixels (100-4096)
    pub width: Option<i32>,
    /// Height in pixels (100-4096)
    pub height: Option<i32>,
    /// Device scale factor (1-3)
    pub device_scale_factor: Option<i32>,
}

impl ViewportConfig {
    /// Create a new viewport configuration.
    pub fn new(width: i32, height: i32) -> (viewport: Self)
        ensures
            viewport == (ViewportConfig {
                width: Some(width),
                height: Some(height),
                device_scale_factor: None,
            }),
    {
        ViewportConfig { width: Some(width), height: Some(height), device_scale_factor: None }
    }

    /// Set the device scale factor.
    pub fn with_scale_factor(self, factor: i32) -> (viewport: Self)
        ensures
            viewport == (ViewportConfig { device_scale_factor: Some(factor), ..self }),
    {
        ViewportConfig {
            width: self.width,
            height: self.height,
            device_scale_factor: Some(factor),
        }
    }
}

impl Default for ViewportConfig {
    fn default() -> (viewport: Self)
        ensures
            viewport == (ViewportConfig { width: None, height: None, device_scale_factor: None }),
    {
        ViewportConfig { width: None, height: None, device_scale_factor: None }
    }
}

/// Image format for screenshots.
#[derive(Debug, Clone, Copy, PartialEq, Eq)]
pub enum ImageFormat {
    /// PNG format (lossless)
    Png,
    /// JPEG format
    Jpeg,
    /// JPEG format (alias)
    Jpg,
    /// WebP format
    Webp,
    /// PDF format
    Pdf,
}

impl ImageFormat {
    /// The name of the format in requests and responses.
    pub open spec fn name(self) -> Seq<char> {
        match self {
            ImageFormat::Png => "png"@,
            ImageFormat::Jpeg => "jpeg"@,
            ImageFormat::Jpg => "jpg"@,
            ImageFormat::Webp => "webp"@,
            ImageFormat::Pdf => "pdf"@,
        }
    }

    /// The format that a name denotes, if any.
    pub open spec fn named(text: Seq<char>) -> Option<ImageFormat> {
        if text == "png"@ {
            Some(ImageFormat::Png)
        } else if text == "jpeg"@ {
            Some(ImageFormat::Jpeg)
        } else if text == "jpg"@ {
            Some(ImageFormat::Jpg)
        } else if text == "webp"@ {
            Some(ImageFormat::Webp)
        } else if text == "pdf"@ {
            Some(ImageFormat::Pdf)
        } else {
            None
        }
    }

    /// Writes the name of the format.
    pub fn as_str(&self) -> (s: &'static str)
        ensures
            s@ == self.name(),
    {
        match self {
            ImageFormat::Png => "png",
            ImageFormat::Jpeg => "jpeg",
            ImageFormat::Jpg => "jpg",
            ImageFormat::Webp => "webp",
            ImageFormat::Pdf => "pdf",
        }
    }

    /// Reads a format from its name.
    pub fn parse(s: &str) -> (format: Option<ImageFormat>)
        ensures
            format == ImageFormat::named(s@),
    {
        if str_equal(s, "png") {
            Some(ImageFormat::Png)
        } else if str_equal(s, "jpeg") {
            Some(ImageFormat::Jpeg)
        } else if str_equal(s, "jpg") {
            Some(ImageFormat::Jpg)
        } else if str_equal(s, "webp") {
            Some(ImageFormat::Webp)
        } else if str_equal(s, "pdf") {
            Some(ImageFormat::Pdf)
        } else {
            None
        }
    }

    /// Every format is read back from its own name.
    pub proof fn lemma_name_round_trip(self)
        ensures
            ImageFormat::named(self.name()) == Some(self),
    {
        reveal_strlit("png");
        reveal_strlit("jpeg");
        reveal_strlit("jpg");
        reveal_strlit("webp");
        reveal_strlit("pdf");
        assert("png"@.len() == 3 && "png"@[1] == 'n');
        assert("jpeg"@.len() == 4 && "jpeg"@[0] == 'j');
        assert("jpg"@.len() == 3 && "jpg"@[1] == 'p');
        assert("webp"@.len() == 4 && "webp"@[0] == 'w');
        assert("pdf"@.len() == 3 && "pdf"@[1] == 'd');
    }
}

impl Default for ImageFormat {
    fn default() -> (format: Self)
        ensures
            format == ImageFormat::Png,
    {
        ImageFormat::Png
    }
}

/// Wait condition for page loading.
#[derive(Debug, Clone, Copy, PartialEq, Eq)]
pub enum WaitUntil {
    /// Wait for the load event
    Load,
    /// Wait for DOMContentLoaded
    DomContentLoaded,
    /// Wait for network to be idle
    NetworkIdle,
    /// Wait for first commit
    Commit,
}

impl WaitUntil {
    /// The name of the condition in requests and responses.
    pub open spec fn name(self) -> Seq<char> {
        match self {
            WaitUntil::Load => "load"@,
            WaitUntil::DomContentLoaded => "domcontentloaded"@,
            WaitUntil::NetworkIdle => "networkidle"@,
            WaitUntil::Commit => "commit"@,
        }
    }

    /// The condition that a name denotes, if any.
    pub open spec fn named(text: Seq<char>) -> Option<WaitUntil> {
        if text == "load"@ {
            Some(WaitUntil::Load)
        } else if text == "domcontentloaded"@ {
            Some(WaitUntil::DomContentLoaded)
        } else if text == "networkidle"@ {
            Some(WaitUntil::NetworkIdle)
        } else if text == "commit"@ {
            Some(WaitUntil::Commit)
        } else {
            None
        }
    }

    /// Writes the name of the condition.
    pub fn as_str(&self) -> (s: &'static str)
        ensures
            s@ == self.name(),
    {
        match self {
            WaitUntil::Load => "load",
            WaitUntil::DomContentLoaded => "domcontentloaded",
            WaitUntil::NetworkIdle => "networkidle",
            WaitUntil::Commit => "commit",
        }
    }

    /// Reads a condition from its name.
    pub fn parse(s: &str) -> (condition: Option<WaitUntil>)
        ensures
            condition == WaitUntil::named(s@),
    {
        if str_equal(s, "load") {
            Some(WaitUntil::Load)
        } else if str_equal(s, "domcontentloaded") {
            Some(WaitUntil::DomContentLoaded)
        } else if str_equal(s, "networkidle") {
            Some(WaitUntil::NetworkIdle)
        } else if str_equal(s, "commit") {
            Some(WaitUntil::Commit)
        } else {
            None
        }
    }

    /// Every condition is read back from its own name.
    pub proof fn lemma_name_round_trip(self)
        ensures
            WaitUntil::named(self.name()) == Some(self),
    {
        reveal_strlit("load");
        reveal_strlit("domcontentloaded");
        reveal_strlit("networkidle");
        reveal_strlit("commit");
        assert("load"@.len() == 4);
        assert("domcontentloaded"@.len() == 16);
        assert("networkidle"@.len() == 11);
        assert("commit"@.len() == 6);
    }
}

impl Default for WaitUntil {
    fn default() -> (condition: Self)
        ensures
            condition == WaitUntil::Load,
    {
        WaitUntil::Load
    }
}

/// Block level for ads and trackers.
#[derive(Debug, Clone, Copy, PartialEq, Eq)]
pub enum BlockLevel {
    /// No blocking
    Off,
    /// Light blocking
    Light,
    /// Normal blocking
    Normal,
    /// Pro blocking
    Pro,
    /// Pro plus blocking
    ProPlus,
    /// Ultimate blocking
    Ultimate,
}

impl BlockLevel {
    /// The name of the level in requests and responses.
    pub open spec fn name(self) -> Seq<char> {
        match self {
            BlockLevel::Off => "none"@,
            BlockLevel::Light => "light"@,
            BlockLevel::Normal => "normal"@,
            BlockLevel::Pro => "pro"@,
            BlockLevel::ProPlus => "pro_plus"@,
            BlockLevel::Ultimate => "ultimate"@,
        }
    }

    /// The level that a name denotes, if any.
    pub open spec fn named(text: Seq<char>) -> Option<BlockLevel> {
        if text == "none"@ {
            Some(BlockLevel::Off)
        } else if text == "light"@ {
            Some(BlockLevel::Light)
        } else if text == "normal"@ {
            Some(BlockLevel::Normal)
        } else if text == "pro"@ {
            Some(BlockLevel::Pro)
        } else if text == "pro_plus"@ {
            Some(BlockLevel::ProPlus)
        } else if text == "ultimate"@ {
            Some(BlockLevel::Ultimate)
        } else {
            None
        }
    }

    /// Writes the name of the level.
    pub fn as_str(&self) -> (s: &'static str)
        ensures
            s@ == self.name(),
    {
        match self {
            BlockLevel::Off => "none",
            BlockLevel::Light => "light",
            BlockLevel::Normal => "normal",
            BlockLevel::Pro => "pro",
            BlockLevel::ProPlus => "pro_plus",
            BlockLevel::Ultimate => "ultimate",
        }
    }

    /// Reads a level from its name.
    pub fn parse(s: &str) -> (level: Option<BlockLevel>)
        ensures
            level == BlockLevel::named(s@),
    {
        if str_equal(s, "none") {
            Some(BlockLevel::Off)
        } else if str_equal(s, "light") {
            Some(BlockLevel::Light)
        } else if str_equal(s, "normal") {
            Some(BlockLevel::Normal)
        } else if str_equal(s, "pro") {
            Some(BlockLevel::Pro)
        } else if str_equal(s, "pro_plus") {
            Some(BlockLevel::ProPlus)
        } else if str_equal(s, "ultimate") {
            Some(BlockLevel::Ultimate)
        } else {
            None
        }
    }

    /// Every level is read back from its own name.
    pub proof fn lemma_name_round_trip(self)
        ensures
            BlockLevel::named(self.name()) == Some(self),
    {
        reveal_strlit("none");
        reveal_strlit("light");
        reveal_strlit("normal");
        reveal_strlit("pro");
        reveal_strlit("pro_plus");
        reveal_strlit("ultimate");
        assert("none"@.len() == 4);
        assert("light"@.len() == 5);
        assert("normal"@.len() == 6);
        assert("pro"@.len() == 3);
        assert("pro_plus"@.len() == 8 && "pro_plus"@[0] == 'p');
        assert("ultimate"@.len() == 8 && "ultimate"@[0] == 'u');
    }
}

impl Default for BlockLevel {
    fn default() -> (level: Self)
        ensures
            level == BlockLevel::Off,
    {
        BlockLevel::Off
    }
}

/// Job status for async operations.
#[derive(Debug, Clone, Copy, PartialEq, Eq)]
pub enum JobStatus {
    /// Job is queued
    Queued,
    /// Job is processing
    Processing,
    /// Job completed successfully
    Completed,
    /// Job failed
    Failed,
    /// Job was cancelled
    Cancelled,
}

impl JobStatus {
    /// Whether the job has reached a state that it will not leave.
    pub open spec fn terminal(self) -> bool {
        self is Completed || self is Failed || self is Cancelled
    }

    /// Whether the job ended with a result.
    pub open spec fn success(self) -> bool {
        self is Completed
    }

    /// The name of the status in requests and responses.
    pub open spec fn name(self) -> Seq<char> {
        match self {
            JobStatus::Queued => "QUEUED"@,
            JobStatus::Processing => "PROCESSING"@,
            JobStatus::Completed => "COMPLETED"@,
            JobStatus::Failed => "FAILED"@,
            JobStatus::Cancelled => "CANCELLED"@,
        }
    }

    /// The status that a name denotes, if any.
    pub open spec fn named(text: Seq<char>) -> Option<JobStatus> {
        if text == "QUEUED"@ {
            Some(JobStatus::Queued)
        } else if text == "PROCESSING"@ {
            Some(JobStatus::Processing)
        } else if text == "COMPLETED"@ {
            Some(JobStatus::Completed)
        } else if text == "FAILED"@ {
            Some(JobStatus::Failed)
        } else if text == "CANCELLED"@ {
            Some(JobStatus::Cancelled)
        } else {
            None
        }
    }

    /// Returns `true` if the job is in a terminal state.
    pub fn is_terminal(&self) -> (terminal: bool)
        ensures
            terminal == self.terminal(),
    {
        match self {
            JobStatus::Completed => true,
            JobStatus::Failed => true,
            JobStatus::Cancelled => true,
            _ => false,
        }
    }

    /// Returns `true` if the job completed successfully.
    pub fn is_success(&self) -> (success: bool)
        ensures
            success == self.success(),
    {
        match self {
            JobStatus::Completed => true,
            _ => false,
        }
    }

    /// Writes the name of the status.
    pub fn as_str(&self) -> (s: &'static str)
        ensures
            s@ == self.name(),
    {
        match self {
            JobStatus::Queued => "QUEUED",
            JobStatus::Processing => "PROCESSING",
            JobStatus::Completed => "COMPLETED",
            JobStatus::Failed => "FAILED",
            JobStatus::Cancelled => "CANCELLED",
        }
    }

    /// Reads a status from its name.
    pub fn parse(s: &str) -> (status: Option<JobStatus>)
        ensures
            status == JobStatus::named(s@),
    {
        if str_equal(s, "QUEUED") {
            Some(JobStatus::Queued)
        } else if str_equal(s, "PROCESSING") {
            Some(JobStatus::Processing)
        } else if str_equal(s, "COMPLETED") {
            Some(JobStatus::Completed)
        } else if str_equal(s, "FAILED") {
            Some(JobStatus::Failed)
        } else if str_equal(s, "CANCELLED") {
            Some(JobStatus::Cancelled)
        } else {
            None
        }
    }

    /// Every status is read back from its own name.
    pub proof fn lemma_name_round_trip(self)
        ensures
            JobStatus::named(self.name()) == Some(self),
    {
        reveal_strlit("QUEUED");
        reveal_strlit("PROCESSING");
        reveal_strlit("COMPLETED");
        reveal_strlit("FAILED");
        reveal_strlit("CANCELLED");
        assert("QUEUED"@.len() == 6 && "QUEUED"@[0] == 'Q');
        assert("PROCESSING"@.len() == 10);
        assert("COMPLETED"@.len() == 9 && "COMPLETED"@[1] == 'O');
        assert("FAILED"@.len() == 6 && "FAILED"@[0] == 'F');
        assert("CANCELLED"@.len() == 9 && "CANCELLED"@[1] == 'A');
    }

    /// A job that succeeded is in a terminal state.
    pub proof fn lemma_success_is_terminal(self)
        ensures
            self.success() ==> self.terminal(),
    {
    }
}

/// Response type for screenshot requests.
#[derive(Debug, Clone, Copy, PartialEq, Eq)]
pub enum ResponseType {
    /// Return binary image data
    Binary,
    /// Return JSON with image URL
    Json,
}

impl ResponseType {
    /// The name of the response type in requests and responses.
    pub open spec fn name(self) -> Seq<char> {
        match self {
            ResponseType::Binary => "BINARY"@,
            ResponseType::Json => "JSON"@,
        }
    }

    /// The response type that a name denotes, if any.
    pub open spec fn named(text: Seq<char>) -> Option<ResponseType> {
        if text == "BINARY"@ {
            Some(ResponseType::Binary)
        } else if text == "JSON"@ {
            Some(ResponseType::Json)
        } else {
            None
        }
    }

    /// Writes the name of the response type.
    pub fn as_str(&self) -> (s: &'static str)
        ensures
            s@ == self.name(),
    {
        match self {
            ResponseType::Binary => "BINARY",
            ResponseType::Json => "JSON",
        }
    }

    /// Reads a response type from its name.
    pub fn parse(s: &str) -> (kind: Option<ResponseType>)
        ensures
            kind == ResponseType::named(s@),
    {
        if str_equal(s, "BINARY") {
            Some(ResponseType::Binary)
        } else if str_equal(s, "JSON") {
            Some(ResponseType::Json)
        } else {
            None
        }
    }

    /// Every response type is read back from its own name.
    pub proof fn lemma_name_round_trip(self)
        ensures
            ResponseType::named(self.name()) == Some(self),
    {
        reveal_strlit("BINARY");
        reveal_strlit("JSON");
        assert("BINARY"@.len() == 6);
        assert("JSON"@.len() == 4);
    }
}

impl Default for ResponseType {
    fn default() -> (kind: Self)
        ensures
            kind == ResponseType::Binary,
    {
        ResponseType::Binary
    }
}

} // verus!
