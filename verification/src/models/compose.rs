//! Compose (multi-screenshot layout) request and response models.

use crate::error::option_text;
use crate::models::common::{ImageFormat, ViewportConfig};
use crate::text::str_equal;
use vstd::prelude::*;

verus! {

/// Layout type for composed images.
#[derive(Debug, Clone, Copy, PartialEq, Eq)]
pub enum LayoutType {
    /// Grid layout
    Grid,
    /// Horizontal layout
    Horizontal,
    /// Vertical layout
    Vertical,
    /// Masonry layout
    Masonry,
    /// Mondrian layout
    Mondrian,
    /// Partitioning layout
    Partitioning,
    /// Auto-select best layout
    Auto,
}

impl LayoutType {
    /// The name of the layout in requests and responses.
    pub open spec fn name(self) -> Seq<char> {
        match self {
            LayoutType::Grid => "GRID"@,
            LayoutType::Horizontal => "HORIZONTAL"@,
            LayoutType::Vertical => "VERTICAL"@,
            LayoutType::Masonry => "MASONRY"@,
            LayoutType::Mondrian => "MONDRIAN"@,
            LayoutType::Partitioning => "PARTITIONING"@,
            LayoutType::Auto => "AUTO"@,
        }
    }

    /// The layout that a name denotes, if any.
    pub open spec fn named(text: Seq<char>) -> Option<LayoutType> {
        if text == "GRID"@ {
            Some(LayoutType::Grid)
        } else if text == "HORIZONTAL"@ {
            Some(LayoutType::Horizontal)
        } else if text == "VERTICAL"@ {
            Some(LayoutType::Vertical)
        } else if text == "MASONRY"@ {
            Some(LayoutType::Masonry)
        } else if text == "MONDRIAN"@ {
            Some(LayoutType::Mondrian)
        } else if text == "PARTITIONING"@ {
            Some(LayoutType::Partitioning)
        } else if text == "AUTO"@ {
            Some(LayoutType::Auto)
        } else {
            None
        }
    }

    /// Writes the name of the layout.
    pub fn as_str(&self) -> (s: &'static str)
        ensures
            s@ == self.name(),
    {
        match self {
            LayoutType::Grid => "GRID",
            LayoutType::Horizontal => "HORIZONTAL",
            LayoutType::Vertical => "VERTICAL",
            LayoutType::Masonry => "MASONRY",
            LayoutType::Mondrian => "MONDRIAN",
            LayoutType::Partitioning => "PARTITIONING",
            LayoutType::Auto => "AUTO",
        }
    }

    /// Reads a layout from its name.
    pub fn parse(s: &str) -> (layout: Option<LayoutType>)
        ensures
            layout == LayoutType::named(s@),
    {
        if str_equal(s, "GRID") {
            Some(LayoutType::Grid)
        } else if str_equal(s, "HORIZONTAL") {
            Some(LayoutType::Horizontal)
        } else if str_equal(s, "VERTICAL") {
            Some(LayoutType::Vertical)
        } else if str_equal(s, "MASONRY") {
            Some(LayoutType::Masonry)
        } else if str_equal(s, "MONDRIAN") {
            Some(LayoutType::Mondrian)
        } else if str_equal(s, "PARTITIONING") {
            Some(LayoutType::Partitioning)
        } else if str_equal(s, "AUTO") {
            Some(LayoutType::Auto)
        } else {
            None
        }
    }

    /// Every layout is read back from its own name.
    pub proof fn lemma_name_round_trip(self)
        ensures
            LayoutType::named(self.name()) == Some(self),
    {
        reveal_strlit("GRID");
        reveal_strlit("HORIZONTAL");
        reveal_strlit("VERTICAL");
        reveal_strlit("MASONRY");
        reveal_strlit("MONDRIAN");
        reveal_strlit("PARTITIONING");
        reveal_strlit("AUTO");
        assert("GRID"@.len() == 4 && "GRID"@[0] == 'G');
        assert("HORIZONTAL"@.len() == 10);
        assert("VERTICAL"@.len() == 8 && "VERTICAL"@[0] == 'V');
        assert("MASONRY"@.len() == 7);
        assert("MONDRIAN"@.len() == 8 && "MONDRIAN"@[0] == 'M');
        assert("PARTITIONING"@.len() == 12);
        assert("AUTO"@.len() == 4 && "AUTO"@[0] == 'A');
    }
}

impl Default for LayoutType {
    fn default() -> (layout: Self)
        ensures
            layout == LayoutType::Grid,
    {
        LayoutType::Grid
    }
}

/// Alignment for composed images.
#[derive(Debug, Clone, Copy, PartialEq, Eq)]
pub enum Alignment {
    /// Align to top
    Top,
    /// Align to center
    Center,
    /// Align to bottom
    Bottom,
}

impl Alignment {
    /// The name of the alignment in requests and responses.
    pub open spec fn name(self) -> Seq<char> {
        match self {
            Alignment::Top => "top"@,
            Alignment::Center => "center"@,
            Alignment::Bottom => "bottom"@,
        }
    }

    /// The alignment that a name denotes, if any.
    pub open spec fn named(text: Seq<char>) -> Option<Alignment> {
        if text == "top"@ {
            Some(Alignment::Top)
        } else if text == "center"@ {
            Some(Alignment::Center)
        } else if text == "bottom"@ {
            Some(Alignment::Bottom)
        } else {
            None
        }
    }

    /// Writes the name of the alignment.
    pub fn as_str(&self) -> (s: &'static str)
        ensures
            s@ == self.name(),
    {
        match self {
            Alignment::Top => "top",
            Alignment::Center => "center",
            Alignment::Bottom => "bottom",
        }
    }

    /// Reads an alignment from its name.
    pub fn parse(s: &str) -> (alignment: Option<Alignment>)
        ensures
            alignment == Alignment::named(s@),
    {
        if str_equal(s, "top") {
            Some(Alignment::Top)
        } else if str_equal(s, "center") {
            Some(Alignment::Center)
        } else if str_equal(s, "bottom") {
            Some(Alignment::Bottom)
        } else {
            None
        }
    }

    /// Every alignment is read back from its own name.
    pub proof fn lemma_name_round_trip(self)
        ensures
            Alignment::named(self.name()) == Some(self),
    {
        reveal_strlit("top");
        reveal_strlit("center");
        reveal_strlit("bottom");
        assert("top"@.len() == 3);
        assert("center"@.len() == 6 && "center"@[0] == 'c');
        assert("bottom"@.len() == 6 && "bottom"@[0] == 'b');
    }
}

impl Default for Alignment {
    fn default() -> (alignment: Self)
        ensures
            alignment == Alignment::Center,
    {
        Alignment::Center
    }
}

/// Request to compose multiple screenshots.
#[derive(Debug, Clone)]
pub struct ComposeRequest {
    /// List of URLs/captures to include (max 20)
    pub captures: Option<Vec<CaptureItem>>,
    /// Single URL (use with variants)
    pub url: Option<String>,
    /// Different configurations for the same URL (max 20)
    pub variants: Option<Vec<VariantConfig>>,
    /// Default options for all captures
    pub defaults: Option<CaptureDefaults>,
    /// Output configuration
    pub output: Option<ComposeOutputConfig>,
    /// Run asynchronously
    pub is_async: Option<bool>,
    /// Webhook URL for notifications
    pub webhook_url: Option<String>,
    /// Secret for webhook signature
    pub webhook_secret: Option<String>,
    /// Use captures mode
    pub captures_mode: Option<bool>,
    /// Use variants mode
    pub variants_mode: Option<bool>,
}

impl ComposeRequest {
    /// Create a compose request with multiple captures.
    pub fn with_captures(captures: Vec<CaptureItem>) -> (request: Self)
        ensures
            request == (ComposeRequest {
                captures: Some(captures),
                url: None,
                variants: None,
                defaults: None,
                output: None,
                is_async: None,
                webhook_url: None,
                webhook_secret: None,
                captures_mode: None,
                variants_mode: None,
            }),
    {
        ComposeRequest {
            captures: Some(captures),
            url: None,
            variants: None,
            defaults: None,
            output: None,
            is_async: None,
            webhook_url: None,
            webhook_secret: None,
            captures_mode: None,
            variants_mode: None,
        }
    }

    /// Create a compose request with variants of a single URL.
    pub fn with_variants(url: String, variants: Vec<VariantConfig>) -> (request: Self)
        ensures
            request == (ComposeRequest {
                captures: None,
                url: Some(url),
                variants: Some(variants),
                defaults: None,
                output: None,
                is_async: None,
                webhook_url: None,
                webhook_secret: None,
                captures_mode: None,
                variants_mode: None,
            }),
    {
        ComposeRequest {
            captures: None,
            url: Some(url),
            variants: Some(variants),
            defaults: None,
            output: None,
            is_async: None,
            webhook_url: None,
            webhook_secret: None,
            captures_mode: None,
            variants_mode: None,
        }
    }

    /// Set the output configuration.
    pub fn with_output(self, output: ComposeOutputConfig) -> (request: Self)
        ensures
            request == (ComposeRequest { output: Some(output), ..self }),
    {
        let mut request = self;
        request.output = Some(output);
        request
    }

    /// Set default options.
    pub fn with_defaults(self, defaults: CaptureDefaults) -> (request: Self)
        ensures
            request == (ComposeRequest { defaults: Some(defaults), ..self }),
    {
        let mut request = self;
        request.defaults = Some(defaults);
        request
    }

    /// Run the request asynchronously.
    pub fn async_mode(self, is_async: bool) -> (request: Self)
        ensures
            request == (ComposeRequest { is_async: Some(is_async), ..self }),
    {
        let mut request = self;
        request.is_async = Some(is_async);
        request
    }
}

/// Individual capture configuration.
#[derive(Debug, Clone)]
pub struct CaptureItem {
    /// Target URL
    pub url: String,
    /// Custom ID for this capture
    pub id: Option<String>,
    /// Label for this capture
    pub label: Option<String>,
    /// Viewport configuration
    pub viewport: Option<ViewportConfig>,
    /// Device preset name
    pub device: Option<String>,
    /// Capture full page
    pub full_page: Option<bool>,
    /// Enable dark mode
    pub dark_mode: Option<bool>,
    /// Delay before capture in milliseconds
    pub delay: Option<i32>,
}

impl CaptureItem {
    /// Create a simple capture for a URL.
    pub fn new(url: &str) -> (item: Self)
        ensures
            item.url@ == url@,
            item == (CaptureItem {
                url: item.url,
                id: None,
                label: None,
                viewport: None,
                device: None,
                full_page: None,
                dark_mode: None,
                delay: None,
            }),
    {
        CaptureItem {
            url: url.to_owned(),
            id: None,
            label: None,
            viewport: None,
            device: None,
            full_page: None,
            dark_mode: None,
            delay: None,
        }
    }

    /// Set the device preset.
    pub fn with_device(self, device: &str) -> (item: Self)
        ensures
            item == (CaptureItem { device: item.device, ..self }),
            option_text(item.device) == Some(device@),
    {
        let mut item = self;
        item.device = Some(device.to_owned());
        item
    }

    /// Set a label for this capture.
    pub fn with_label(self, label: &str) -> (item: Self)
        ensures
            item == (CaptureItem { label: item.label, ..self }),
            option_text(item.label) == Some(label@),
    {
        let mut item = self;
        item.label = Some(label.to_owned());
        item
    }
}

/// Variant configuration for the same URL.
#[derive(Debug, Clone)]
pub struct VariantConfig {
    /// Custom ID for this variant
    pub id: Option<String>,
    /// Label for this variant
    pub label: Option<String>,
    /// Viewport configuration
    pub viewport: Option<ViewportConfig>,
    /// Device preset name
    pub device: Option<String>,
    /// Capture full page
    pub full_page: Option<bool>,
    /// Enable dark mode
    pub dark_mode: Option<bool>,
    /// Delay before capture in milliseconds
    pub delay: Option<i32>,
    /// Custom CSS to inject
    pub custom_css: Option<String>,
}
/// Default options for captures.
#[derive(Debug, Clone)]
pub struct CaptureDefaults {
    /// Viewport configuration
    pub viewport: Option<ViewportConfig>,
    /// Device preset name
    pub device: Option<String>,
    /// Output image format
    pub format: Option<String>,
    /// Capture full page
    pub full_page: Option<bool>,
    /// Image quality (1-100)
    pub quality: Option<i32>,
    /// Delay before capture in milliseconds
    pub delay: Option<i32>,
    /// CSS selector to wait for
    pub wait_for: Option<String>,
    /// Page load condition to wait for
    pub wait_until: Option<String>,
    /// Timeout in milliseconds
    pub timeout: Option<i32>,
    /// Enable dark mode
    pub dark_mode: Option<bool>,
    /// Custom CSS to inject
    pub custom_css: Option<String>,
    /// CSS selectors to hide
    pub hide_selectors: Option<Vec<String>>,
    /// Block ads
    pub block_ads: Option<bool>,
    /// Block cookie banners
    pub block_cookie_banners: Option<bool>,
    /// Blocking level
    pub block_level: Option<String>,
}

impl Default for CaptureDefaults {
    fn default() -> (value: Self)
        ensures
            value == CaptureDefaults::unset(),
    {
        CaptureDefaults {
            viewport: None,
            device: None,
            format: None,
            full_page: None,
            quality: None,
            delay: None,
            wait_for: None,
            wait_until: None,
            timeout: None,
            dark_mode: None,
            custom_css: None,
            hide_selectors: None,
            block_ads: None,
            block_cookie_banners: None,
            block_level: None,
        }
    }
}

impl CaptureDefaults {
    /// The value in which no field is set.
    pub open spec fn unset() -> CaptureDefaults {
        CaptureDefaults {
            viewport: None,
            device: None,
            format: None,
            full_page: None,
            quality: None,
            delay: None,
            wait_for: None,
            wait_until: None,
            timeout: None,
            dark_mode: None,
            custom_css: None,
            hide_selectors: None,
            block_ads: None,
            block_cookie_banners: None,
            block_level: None,
        }
    }
}
/// Output configuration for composed images.
#[derive(Debug, Clone)]
pub struct ComposeOutputConfig {
    /// Layout type
    pub layout: Option<LayoutType>,
    /// Output format
    pub format: Option<ImageFormat>,
    /// Image quality (1-100)
    pub quality: Option<i32>,
    /// Number of columns (1-10)
    pub columns: Option<i32>,
    /// Spacing between images (0-100)
    pub spacing: Option<i32>,
    /// Padding around the canvas (0-100)
    pub padding: Option<i32>,
    /// Background color (#RRGGBB, #RRGGBBAA, or "transparent")
    pub background: Option<String>,
    /// Vertical alignment
    pub alignment: Option<Alignment>,
    /// Maximum width (100-10000)
    pub max_width: Option<i32>,
    /// Maximum height (100-10000)
    pub max_height: Option<i32>,
    /// Thumbnail width (50-2000)
    pub thumbnail_width: Option<i32>,
    /// Label configuration
    pub labels: Option<LabelConfig>,
    /// Border configuration
    pub border: Option<BorderConfig>,
    /// Shadow configuration
    pub shadow: Option<ShadowConfig>,
}

impl Default for ComposeOutputConfig {
    fn default() -> (value: Self)
        ensures
            value == ComposeOutputConfig::unset(),
    {
        ComposeOutputConfig {
            layout: None,
            format: None,
            quality: None,
            columns: None,
            spacing: None,
            padding: None,
            background: None,
            alignment: None,
            max_width: None,
            max_height: None,
            thumbnail_width: None,
            labels: None,
            border: None,
            shadow: None,
        }
    }
}

impl ComposeOutputConfig {
    /// The value in which no field is set.
    pub open spec fn unset() -> ComposeOutputConfig {
        ComposeOutputConfig {
            layout: None,
            format: None,
            quality: None,
            columns: None,
            spacing: None,
            padding: None,
            background: None,
            alignment: None,
            max_width: None,
            max_height: None,
            thumbnail_width: None,
            labels: None,
            border: None,
            shadow: None,
        }
    }
}
/// Label configuration for composed images.
#[derive(Debug, Clone)]
pub struct LabelConfig {
    /// Enable labels
    pub enabled: Option<bool>,
    /// Font size
    pub font_size: Option<i32>,
    /// Font color
    pub color: Option<String>,
    /// Label position
    pub position: Option<String>,
}
/// Border configuration for composed images.
#[derive(Debug, Clone)]
pub struct BorderConfig {
    /// Enable border
    pub enabled: Option<bool>,
    /// Border width
    pub width: Option<i32>,
    /// Border color
    pub color: Option<String>,
    /// Border radius
    pub radius: Option<i32>,
}
/// Shadow configuration for composed images.
#[derive(Debug, Clone)]
pub struct ShadowConfig {
    /// Enable shadow
    pub enabled: Option<bool>,
    /// Shadow blur
    pub blur: Option<i32>,
    /// Shadow color
    pub color: Option<String>,
    /// Shadow offset X
    pub offset_x: Option<i32>,
    /// Shadow offset Y
    pub offset_y: Option<i32>,
}
/// Response for synchronous compose request.
#[derive(Debug, Clone)]
pub struct ComposeResponse {
    /// URL to the composed image
    pub url: Option<String>,
    /// Storage URL
    pub storage_url: Option<String>,
    /// Expiration timestamp
    pub expires_at: Option<String>,
    /// Image width
    pub width: Option<i32>,
    /// Image height
    pub height: Option<i32>,
    /// Output format
    pub format: Option<String>,
    /// File size in bytes
    pub file_size: Option<i64>,
    /// Render time in milliseconds
    pub render_time_ms: Option<i64>,
    /// Layout used
    pub layout: Option<String>,
    /// Additional metadata
    pub metadata: Option<ComposeMetadata>,
}
/// Metadata for compose response.
#[derive(Debug, Clone)]
pub struct ComposeMetadata {
    /// Number of captures
    pub capture_count: Option<i32>,
    /// Layout type used
    pub layout_type: Option<String>,
}
/// Status response for async compose job.
#[derive(Debug, Clone)]
pub struct ComposeJobStatusResponse {
    /// Job ID
    pub job_id: String,
    /// Current status
    pub status: String,
    /// Progress percentage (0-100)
    pub progress: Option<i32>,
    /// Total number of captures
    pub total_captures: Option<i32>,
    /// Number of completed captures
    pub completed_captures: Option<i32>,
    /// Result when completed
    pub result: Option<ComposeResponse>,
    /// Error code if failed
    pub error_code: Option<String>,
    /// Error message if failed
    pub error_message: Option<String>,
    /// Creation timestamp
    pub created_at: Option<String>,
    /// Completion timestamp
    pub completed_at: Option<String>,
}
/// Summary of a compose job.
#[derive(Debug, Clone)]
pub struct ComposeJobSummaryResponse {
    /// Job ID
    pub job_id: String,
    /// Current status
    pub status: String,
    /// Total number of captures
    pub total_captures: Option<i32>,
    /// Number of completed captures
    pub completed_captures: Option<i32>,
    /// Number of failed captures
    pub failed_captures: Option<i32>,
    /// Progress percentage (0-100)
    pub progress: Option<i32>,
    /// Layout type
    pub layout_type: Option<String>,
    /// Creation timestamp
    pub created_at: Option<String>,
    /// Completion timestamp
    pub completed_at: Option<String>,
}
/// Layout preview response.
#[derive(Debug, Clone)]
pub struct LayoutPreviewResponse {
    /// Layout type
    pub layout: String,
    /// Resolved layout type
    pub resolved_layout: Option<String>,
    /// Canvas width
    pub canvas_width: i32,
    /// Canvas height
    pub canvas_height: i32,
    /// Placement positions
    pub placements: Vec<PlacementPreview>,
    /// Additional metadata
    pub metadata: Option<serde_json::Value>,
}
/// Preview of image placement.
#[derive(Debug, Clone)]
pub struct PlacementPreview {
    /// Index of the image
    pub index: i32,
    /// X position
    pub x: i32,
    /// Y position
    pub y: i32,
    /// Width
    pub width: i32,
    /// Height
    pub height: i32,
    /// Label
    pub label: Option<String>,
}
} // verus!
