use vstd::prelude::*;

verus! {

/// Encodings a capture can be saved in.
#[derive(Debug, Clone, Copy, PartialEq, Eq, Structural)]
pub enum ImageFormat {
    Png,
    Jpeg,
    WebP,
}

impl ImageFormat {
    /// The file extension of the format.
    pub fn extension(&self) -> (r: &'static str)
        ensures
            *self == ImageFormat::Png ==> r@ == "png"@,
            *self == ImageFormat::Jpeg ==> r@ == "jpg"@,
            *self == ImageFormat::WebP ==> r@ == "webp"@,
    {
        match self {
            ImageFormat::Png => "png",
            ImageFormat::Jpeg => "jpg",
            ImageFormat::WebP => "webp",
        }
    }

    /// The MIME type of the format.
    pub fn mime_type(&self) -> (r: &'static str)
        ensures
            *self == ImageFormat::Png ==> r@ == "image/png"@,
            *self == ImageFormat::Jpeg ==> r@ == "image/jpeg"@,
            *self == ImageFormat::WebP ==> r@ == "image/webp"@,
    {
        match self {
            ImageFormat::Png => "image/png",
            ImageFormat::Jpeg => "image/jpeg",
            ImageFormat::WebP => "image/webp",
        }
    }
}

/// How screenshots are taken and encoded.
#[derive(Debug, Clone, Copy, PartialEq, Eq, Structural)]
pub struct ScreenshotConfig {
    pub format: ImageFormat,
    /// Quality for lossy formats, 1 to 100.
    pub quality: u8,
    pub include_cursor: bool,
    /// Delay before the capture, in milliseconds.
    pub delay_ms: u64,
}

impl Default for ScreenshotConfig {
    /// PNG, quality 90, no cursor, no delay.
    fn default() -> (r: Self)
        ensures
            r == (ScreenshotConfig { format: ImageFormat::Png, quality: 90, include_cursor: false, delay_ms: 0 }),
    {
        ScreenshotConfig { format: ImageFormat::Png, quality: 90, include_cursor: false, delay_ms: 0 }
    }
}

/// A rectangle of the screen.
#[derive(Debug, Clone, Copy, PartialEq, Eq, Structural)]
pub struct Region {
    pub x: i32,
    pub y: i32,
    pub width: u32,
    pub height: u32,
}

/// An encoded capture.
#[derive(Debug)]
pub struct CaptureResult {
    pub data: Vec<u8>,
    pub width: u32,
    pub height: u32,
    pub format: ImageFormat,
}

/// A monitor.
#[derive(Debug, Clone)]
pub struct DisplayInfo {
    pub id: u32,
    pub name: String,
    pub width: u32,
    pub height: u32,
    pub is_primary: bool,
}

/// Why a capture failed.
#[derive(Debug, Clone, PartialEq, Eq)]
pub enum ScreenshotError {
    CaptureError { message: String },
    ConversionError { message: String },
    Cancelled,
    DisplayNotFound { id: u32 },
    NotSupported,
}

/// Takes screenshots with a given configuration. The platform tools that
/// grab the screen are run by the caller.
#[derive(Debug, Clone, Copy)]
pub struct ScreenshotManager {
    config: ScreenshotConfig,
}

impl ScreenshotManager {
    pub closed spec fn spec_config(&self) -> ScreenshotConfig {
        self.config
    }

    /// A manager with the default configuration.
    pub fn new() -> (r: Self)
        ensures
            r.spec_config() == (ScreenshotConfig { format: ImageFormat::Png, quality: 90, include_cursor: false, delay_ms: 0 }),
    {
        ScreenshotManager { config: ScreenshotConfig::default() }
    }

    pub fn with_config(config: ScreenshotConfig) -> (r: Self)
        ensures
            r.spec_config() == config,
    {
        ScreenshotManager { config }
    }

    pub fn config(&self) -> (r: ScreenshotConfig)
        ensures
            r == self.spec_config(),
    {
        self.config
    }

    /// Capturing a single window is not supported.
    pub fn capture_window(&self, _window_id: u32) -> (r: Result<CaptureResult, ScreenshotError>)
        ensures
            r matches Err(ScreenshotError::NotSupported),
    {
        Err(ScreenshotError::NotSupported)
    }

    /// The displays known without platform queries: one main display.
    pub fn list_displays() -> (r: Result<Vec<DisplayInfo>, ScreenshotError>)
        ensures
            r matches Ok(v) && v@.len() == 1 && v@[0].id == 0 && v@[0].is_primary && v@[0].name@ == "Main Display"@,
    {
        let mut v: Vec<DisplayInfo> = Vec::new();
        v.push(DisplayInfo { id: 0, name: String::from_str("Main Display"), width: 0, height: 0, is_primary: true });
        Ok(v)
    }
}

impl Default for ScreenshotManager {
    fn default() -> (r: Self)
        ensures
            r.spec_config() == (ScreenshotConfig { format: ImageFormat::Png, quality: 90, include_cursor: false, delay_ms: 0 }),
    {
        ScreenshotManager::new()
    }
}

} // verus!
