use clubhouse::error::{CaptureError, ErrorKind, OcrStep};
use clubhouse::store::Target;

fn detail() -> String {
    String::from("boom")
}

#[test]
fn unsupported_platform_error() {
    let e = CaptureError::Unsupported;
    assert_eq!(e.kind(), ErrorKind::UnsupportedPlatform);
    assert_eq!(e.message(), "GameDay capture is only supported on Windows");
}

#[test]
fn window_not_found_error() {
    let e = CaptureError::WindowNotFound;
    assert_eq!(e.kind(), ErrorKind::WindowNotFound);
    assert_eq!(e.message(), "GameDay window not found. Make sure GameDay is running.");
}

#[test]
fn geometry_errors() {
    let e = CaptureError::InvalidGeometry;
    assert_eq!(e.kind(), ErrorKind::InvalidGeometry);
    assert_eq!(e.message(), "GameDay window has invalid dimensions");
    let e = CaptureError::MeasureFailed(detail());
    assert_eq!(e.kind(), ErrorKind::InvalidGeometry);
    assert_eq!(e.message(), "Failed to get window rect: boom");
}

#[test]
fn capture_errors() {
    let e = CaptureError::ScreensUnavailable(detail());
    assert_eq!(e.kind(), ErrorKind::CaptureFailed);
    assert_eq!(e.message(), "Failed to get screens: boom");
    let e = CaptureError::NoScreen;
    assert_eq!(e.kind(), ErrorKind::CaptureFailed);
    assert_eq!(e.message(), "No screens found");
    let e = CaptureError::CaptureRejected(Target::Screen, detail());
    assert_eq!(e.kind(), ErrorKind::CaptureFailed);
    assert_eq!(e.message(), "Failed to capture screen: boom");
    let e = CaptureError::CaptureRejected(Target::Window, detail());
    assert_eq!(e.kind(), ErrorKind::CaptureFailed);
    assert_eq!(e.message(), "Failed to capture GameDay window: boom");
}

#[test]
fn encode_errors() {
    let e = CaptureError::Misshapen(Target::Screen);
    assert_eq!(e.kind(), ErrorKind::EncodeFailed);
    assert_eq!(e.message(), "Failed to create image from capture");
    let e = CaptureError::Misshapen(Target::Window);
    assert_eq!(e.kind(), ErrorKind::EncodeFailed);
    assert_eq!(e.message(), "Failed to create image");
    let e = CaptureError::EncodeRefused(detail());
    assert_eq!(e.kind(), ErrorKind::EncodeFailed);
    assert_eq!(e.message(), "Failed to encode PNG: boom");
    let e = CaptureError::Oversized;
    assert_eq!(e.kind(), ErrorKind::EncodeFailed);
    assert_eq!(e.message(), "Failed to encode PNG: image too large");
    let e = CaptureError::Blank;
    assert_eq!(e.kind(), ErrorKind::EncodeFailed);
    assert_eq!(e.message(), "Failed to encode PNG: image is empty");
}

#[test]
fn io_errors() {
    let e = CaptureError::DataDirUnavailable(detail());
    assert_eq!(e.kind(), ErrorKind::IoFailed);
    assert_eq!(e.message(), "Failed to get app data dir: boom");
    let e = CaptureError::DirectoryFailed(detail());
    assert_eq!(e.kind(), ErrorKind::IoFailed);
    assert_eq!(e.message(), "Failed to create captures dir: boom");
    let e = CaptureError::WriteFailed(detail());
    assert_eq!(e.kind(), ErrorKind::IoFailed);
    assert_eq!(e.message(), "Failed to save image: boom");
}

#[test]
fn ocr_errors() {
    let e = CaptureError::OcrUnsupported;
    assert_eq!(e.kind(), ErrorKind::OcrUnsupported);
    assert_eq!(e.message(), "OCR is only supported on Windows");
    let e = CaptureError::OcrFailed(OcrStep::Start, detail());
    assert_eq!(e.kind(), ErrorKind::OcrFailed);
    assert_eq!(e.message(), "Failed to start OCR: boom");
}

#[test]
fn ocr_step_labels() {
    assert_eq!(OcrStep::CreateStream.label(), "Failed to create stream: ");
    assert_eq!(OcrStep::CreateWriter.label(), "Failed to create data writer: ");
    assert_eq!(OcrStep::WriteBytes.label(), "Failed to write bytes: ");
    assert_eq!(OcrStep::Store.label(), "Failed to store: ");
    assert_eq!(OcrStep::StoreResult.label(), "Failed to get store result: ");
    assert_eq!(OcrStep::Flush.label(), "Failed to flush: ");
    assert_eq!(OcrStep::FlushResult.label(), "Failed to get flush result: ");
    assert_eq!(OcrStep::Seek.label(), "Failed to seek: ");
    assert_eq!(OcrStep::CreateDecoder.label(), "Failed to create decoder: ");
    assert_eq!(OcrStep::Decoder.label(), "Failed to get decoder: ");
    assert_eq!(OcrStep::BitmapRequest.label(), "Failed to get bitmap async: ");
    assert_eq!(OcrStep::Bitmap.label(), "Failed to get bitmap: ");
    assert_eq!(OcrStep::CreateEngine.label(), "Failed to create OCR engine: ");
    assert_eq!(OcrStep::Start.label(), "Failed to start OCR: ");
    assert_eq!(OcrStep::Outcome.label(), "Failed to get OCR result: ");
    assert_eq!(OcrStep::Text.label(), "Failed to get text: ");
}

#[test]
fn empty_detail_leaves_the_label() {
    let e = CaptureError::WriteFailed(String::new());
    assert_eq!(e.message(), "Failed to save image: ");
}
