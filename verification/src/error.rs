//! Why a capture failed.

use vstd::prelude::*;
use vstd::string::*;
use crate::store::Target;

verus! {

/// The kinds of failure that a caller tells apart.
#[derive(Clone, Copy, Debug, PartialEq, Eq)]
pub enum ErrorKind {
    /// The host has no window lookup or no text recognition.
    UnsupportedPlatform,
    /// No open window bears one of the candidate titles.
    WindowNotFound,
    /// The window's rectangle cannot be read, or encloses nothing.
    InvalidGeometry,
    /// The capture provider could not read pixels.
    CaptureFailed,
    /// The pixels could not be turned into an image file.
    EncodeFailed,
    /// The captures directory or the file could not be written.
    IoFailed,
    /// The host has no text recognition.
    OcrUnsupported,
    /// The recognition call failed.
    OcrFailed,
}

/// The steps of text recognition, each of which can fail.
#[derive(Clone, Copy, Debug, PartialEq, Eq)]
pub enum OcrStep {
    CreateStream,
    CreateWriter,
    WriteBytes,
    Store,
    StoreResult,
    Flush,
    FlushResult,
    Seek,
    CreateDecoder,
    Decoder,
    BitmapRequest,
    Bitmap,
    CreateEngine,
    Start,
    Outcome,
    Text,
}

impl OcrStep {
    /// What the error line says of a failure at this step.
    pub open spec fn spec_label(&self) -> Seq<char> {
        match self {
            OcrStep::CreateStream => "Failed to create stream: "@,
            OcrStep::CreateWriter => "Failed to create data writer: "@,
            OcrStep::WriteBytes => "Failed to write bytes: "@,
            OcrStep::Store => "Failed to store: "@,
            OcrStep::StoreResult => "Failed to get store result: "@,
            OcrStep::Flush => "Failed to flush: "@,
            OcrStep::FlushResult => "Failed to get flush result: "@,
            OcrStep::Seek => "Failed to seek: "@,
            OcrStep::CreateDecoder => "Failed to create decoder: "@,
            OcrStep::Decoder => "Failed to get decoder: "@,
            OcrStep::BitmapRequest => "Failed to get bitmap async: "@,
            OcrStep::Bitmap => "Failed to get bitmap: "@,
            OcrStep::CreateEngine => "Failed to create OCR engine: "@,
            OcrStep::Start => "Failed to start OCR: "@,
            OcrStep::Outcome => "Failed to get OCR result: "@,
            OcrStep::Text => "Failed to get text: "@,
        }
    }

    /// What the error line says of a failure at this step.
    pub fn label(&self) -> (label: &'static str)
        ensures
            label@ == self.spec_label(),
    {
        match self {
            OcrStep::CreateStream => "Failed to create stream: ",
            OcrStep::CreateWriter => "Failed to create data writer: ",
            OcrStep::WriteBytes => "Failed to write bytes: ",
            OcrStep::Store => "Failed to store: ",
            OcrStep::StoreResult => "Failed to get store result: ",
            OcrStep::Flush => "Failed to flush: ",
            OcrStep::FlushResult => "Failed to get flush result: ",
            OcrStep::Seek => "Failed to seek: ",
            OcrStep::CreateDecoder => "Failed to create decoder: ",
            OcrStep::Decoder => "Failed to get decoder: ",
            OcrStep::BitmapRequest => "Failed to get bitmap async: ",
            OcrStep::Bitmap => "Failed to get bitmap: ",
            OcrStep::CreateEngine => "Failed to create OCR engine: ",
            OcrStep::Start => "Failed to start OCR: ",
            OcrStep::Outcome => "Failed to get OCR result: ",
            OcrStep::Text => "Failed to get text: ",
        }
    }
}

/// A failed capture. Each failure ends the capture: nothing is retried, and
/// no partial result is handed out.
#[derive(Debug, PartialEq, Eq)]
pub enum CaptureError {
    /// Window capture was asked of a host that cannot locate windows or
    /// cannot recognize text.
    Unsupported,
    /// None of the candidate titles matched an open window.
    WindowNotFound,
    /// The windowing system would not tell the window's rectangle.
    MeasureFailed(String),
    /// The window's rectangle has zero width or zero height.
    InvalidGeometry,
    /// The displays could not be listed.
    ScreensUnavailable(String),
    /// There is no display.
    NoScreen,
    /// The capture provider refused the capture.
    CaptureRejected(Target, String),
    /// The pixel buffer is not the whole image: it does not hold width times
    /// height pixels, or a row is too long to be counted.
    Misshapen(Target),
    /// The PNG encoder refused the image.
    EncodeRefused(String),
    /// The image file is empty.
    Blank,
    /// The image file is too long for its base64 text to be counted.
    Oversized,
    /// The application's data directory is not known.
    DataDirUnavailable(String),
    /// The captures directory could not be created.
    DirectoryFailed(String),
    /// The file could not be written.
    WriteFailed(String),
    /// The host has no text recognition.
    OcrUnsupported,
    /// Text recognition failed at this step, with the provider's account.
    OcrFailed(OcrStep, String),
}

/// The value that a [`CaptureError`] stands for.
pub enum CaptureErrorView {
    Unsupported,
    WindowNotFound,
    MeasureFailed(Seq<char>),
    InvalidGeometry,
    ScreensUnavailable(Seq<char>),
    NoScreen,
    CaptureRejected(Target, Seq<char>),
    Misshapen(Target),
    EncodeRefused(Seq<char>),
    Blank,
    Oversized,
    DataDirUnavailable(Seq<char>),
    DirectoryFailed(Seq<char>),
    WriteFailed(Seq<char>),
    OcrUnsupported,
    OcrFailed(OcrStep, Seq<char>),
}

impl View for CaptureError {
    type V = CaptureErrorView;

    open spec fn view(&self) -> CaptureErrorView {
        match self {
            CaptureError::Unsupported => CaptureErrorView::Unsupported,
            CaptureError::WindowNotFound => CaptureErrorView::WindowNotFound,
            CaptureError::MeasureFailed(d) => CaptureErrorView::MeasureFailed(d@),
            CaptureError::InvalidGeometry => CaptureErrorView::InvalidGeometry,
            CaptureError::ScreensUnavailable(d) => CaptureErrorView::ScreensUnavailable(d@),
            CaptureError::NoScreen => CaptureErrorView::NoScreen,
            CaptureError::CaptureRejected(t, d) => CaptureErrorView::CaptureRejected(*t, d@),
            CaptureError::Misshapen(t) => CaptureErrorView::Misshapen(*t),
            CaptureError::EncodeRefused(d) => CaptureErrorView::EncodeRefused(d@),
            CaptureError::Blank => CaptureErrorView::Blank,
            CaptureError::Oversized => CaptureErrorView::Oversized,
            CaptureError::DataDirUnavailable(d) => CaptureErrorView::DataDirUnavailable(d@),
            CaptureError::DirectoryFailed(d) => CaptureErrorView::DirectoryFailed(d@),
            CaptureError::WriteFailed(d) => CaptureErrorView::WriteFailed(d@),
            CaptureError::OcrUnsupported => CaptureErrorView::OcrUnsupported,
            CaptureError::OcrFailed(step, d) => CaptureErrorView::OcrFailed(*step, d@),
        }
    }
}

impl CaptureErrorView {
    /// The kind of this failure.
    pub open spec fn kind(self) -> ErrorKind {
        match self {
            CaptureErrorView::Unsupported => ErrorKind::UnsupportedPlatform,
            CaptureErrorView::WindowNotFound => ErrorKind::WindowNotFound,
            CaptureErrorView::MeasureFailed(_) => ErrorKind::InvalidGeometry,
            CaptureErrorView::InvalidGeometry => ErrorKind::InvalidGeometry,
            CaptureErrorView::ScreensUnavailable(_) => ErrorKind::CaptureFailed,
            CaptureErrorView::NoScreen => ErrorKind::CaptureFailed,
            CaptureErrorView::CaptureRejected(_, _) => ErrorKind::CaptureFailed,
            CaptureErrorView::Misshapen(_) => ErrorKind::EncodeFailed,
            CaptureErrorView::EncodeRefused(_) => ErrorKind::EncodeFailed,
            CaptureErrorView::Blank => ErrorKind::EncodeFailed,
            CaptureErrorView::Oversized => ErrorKind::EncodeFailed,
            CaptureErrorView::DataDirUnavailable(_) => ErrorKind::IoFailed,
            CaptureErrorView::DirectoryFailed(_) => ErrorKind::IoFailed,
            CaptureErrorView::WriteFailed(_) => ErrorKind::IoFailed,
            CaptureErrorView::OcrUnsupported => ErrorKind::OcrUnsupported,
            CaptureErrorView::OcrFailed(_, _) => ErrorKind::OcrFailed,
        }
    }

    /// The one descriptive line that the caller is shown.
    pub open spec fn message(self) -> Seq<char> {
        match self {
            CaptureErrorView::Unsupported => "GameDay capture is only supported on Windows"@,
            CaptureErrorView::WindowNotFound =>
                "GameDay window not found. Make sure GameDay is running."@,
            CaptureErrorView::MeasureFailed(d) => "Failed to get window rect: "@ + d,
            CaptureErrorView::InvalidGeometry => "GameDay window has invalid dimensions"@,
            CaptureErrorView::ScreensUnavailable(d) => "Failed to get screens: "@ + d,
            CaptureErrorView::NoScreen => "No screens found"@,
            CaptureErrorView::CaptureRejected(Target::Screen, d) => "Failed to capture screen: "@
                + d,
            CaptureErrorView::CaptureRejected(Target::Window, d) =>
                "Failed to capture GameDay window: "@ + d,
            CaptureErrorView::Misshapen(Target::Screen) => "Failed to create image from capture"@,
            CaptureErrorView::Misshapen(Target::Window) => "Failed to create image"@,
            CaptureErrorView::EncodeRefused(d) => "Failed to encode PNG: "@ + d,
            CaptureErrorView::Blank => "Failed to encode PNG: image is empty"@,
            CaptureErrorView::Oversized => "Failed to encode PNG: image too large"@,
            CaptureErrorView::DataDirUnavailable(d) => "Failed to get app data dir: "@ + d,
            CaptureErrorView::DirectoryFailed(d) => "Failed to create captures dir: "@ + d,
            CaptureErrorView::WriteFailed(d) => "Failed to save image: "@ + d,
            CaptureErrorView::OcrUnsupported => "OCR is only supported on Windows"@,
            CaptureErrorView::OcrFailed(step, d) => step.spec_label() + d,
        }
    }
}

/// `prefix` followed by `detail`.
fn joined(prefix: &str, detail: &String) -> (text: String)
    ensures
        text@ == prefix@ + detail@,
{
    String::from_str(prefix).concat(detail.as_str())
}

impl CaptureError {
    /// The kind of this failure.
    pub fn kind(&self) -> (kind: ErrorKind)
        ensures
            kind == self@.kind(),
    {
        match self {
            CaptureError::Unsupported => ErrorKind::UnsupportedPlatform,
            CaptureError::WindowNotFound => ErrorKind::WindowNotFound,
            CaptureError::MeasureFailed(_) => ErrorKind::InvalidGeometry,
            CaptureError::InvalidGeometry => ErrorKind::InvalidGeometry,
            CaptureError::ScreensUnavailable(_) => ErrorKind::CaptureFailed,
            CaptureError::NoScreen => ErrorKind::CaptureFailed,
            CaptureError::CaptureRejected(_, _) => ErrorKind::CaptureFailed,
            CaptureError::Misshapen(_) => ErrorKind::EncodeFailed,
            CaptureError::EncodeRefused(_) => ErrorKind::EncodeFailed,
            CaptureError::Blank => ErrorKind::EncodeFailed,
            CaptureError::Oversized => ErrorKind::EncodeFailed,
            CaptureError::DataDirUnavailable(_) => ErrorKind::IoFailed,
            CaptureError::DirectoryFailed(_) => ErrorKind::IoFailed,
            CaptureError::WriteFailed(_) => ErrorKind::IoFailed,
            CaptureError::OcrUnsupported => ErrorKind::OcrUnsupported,
            CaptureError::OcrFailed(_, _) => ErrorKind::OcrFailed,
        }
    }

    /// The one descriptive line that the caller is shown.
    pub fn message(&self) -> (text: String)
        ensures
            text@ == self@.message(),
    {
        match self {
            CaptureError::Unsupported => String::from_str(
                "GameDay capture is only supported on Windows",
            ),
            CaptureError::WindowNotFound => String::from_str(
                "GameDay window not found. Make sure GameDay is running.",
            ),
            CaptureError::MeasureFailed(d) => joined("Failed to get window rect: ", d),
            CaptureError::InvalidGeometry => String::from_str(
                "GameDay window has invalid dimensions",
            ),
            CaptureError::ScreensUnavailable(d) => joined("Failed to get screens: ", d),
            CaptureError::NoScreen => String::from_str("No screens found"),
            CaptureError::CaptureRejected(Target::Screen, d) => joined(
                "Failed to capture screen: ",
                d,
            ),
            CaptureError::CaptureRejected(Target::Window, d) => joined(
                "Failed to capture GameDay window: ",
                d,
            ),
            CaptureError::Misshapen(Target::Screen) => String::from_str(
                "Failed to create image from capture",
            ),
            CaptureError::Misshapen(Target::Window) => String::from_str("Failed to create image"),
            CaptureError::EncodeRefused(d) => joined("Failed to encode PNG: ", d),
            CaptureError::Blank => String::from_str("Failed to encode PNG: image is empty"),
            CaptureError::Oversized => String::from_str("Failed to encode PNG: image too large"),
            CaptureError::DataDirUnavailable(d) => joined("Failed to get app data dir: ", d),
            CaptureError::DirectoryFailed(d) => joined("Failed to create captures dir: ", d),
            CaptureError::WriteFailed(d) => joined("Failed to save image: ", d),
            CaptureError::OcrUnsupported => String::from_str("OCR is only supported on Windows"),
            CaptureError::OcrFailed(step, d) => joined(step.label(), d),
        }
    }
}

} // verus!
