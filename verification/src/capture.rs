//! The capture-to-text pipeline.
//!
//! A capture locates its target, reads pixels, encodes them, keeps the image
//! file and has its text recognized. Reading pixels, writing files and
//! recognizing text are the host's work; every decision between them is made
//! here. A [`CaptureSession`] says what it waits for ([`CaptureSession::pending`]),
//! takes in what the driver reports ([`CaptureSession::on`]), and ends with a
//! [`CaptureResult`] or a [`CaptureError`], never with part of a result.

use vstd::prelude::*;
use vstd::string::*;
use crate::codec::{
    base64_len, base64_standard, base64_text, encode_png, fits_transport, image_error_text,
    is_whole, png_encoding, png_signature,
};
use crate::error::{CaptureError, CaptureErrorView, OcrStep};
use crate::geometry::{Edges, Rectangle};
use crate::store::{file_name, file_name_of, Target, CAPTURES_DIR};

verus! {

/// How long a window is left to settle after it was raised, in milliseconds,
/// before its rectangle is read: the geometry of a window that has just come
/// to the front may lag.
pub const SETTLE_DELAY_MS: u64 = 200;

/// What a capture hands to its caller.
#[derive(Debug, PartialEq, Eq)]
pub struct CaptureResult {
    /// The recognized text.
    pub text: String,
    /// The image file, base64-encoded.
    pub image_base64: String,
    /// Where the image file was saved.
    pub image_path: Option<String>,
}

/// The value that a [`CaptureResult`] stands for.
pub struct CaptureResultView {
    pub text: Seq<char>,
    pub image_base64: Seq<char>,
    pub image_path: Option<Seq<char>>,
}

impl View for CaptureResult {
    type V = CaptureResultView;

    open spec fn view(&self) -> CaptureResultView {
        CaptureResultView {
            text: self.text@,
            image_base64: self.image_base64@,
            image_path: self.image_path.deep_view(),
        }
    }
}

/// Pixels as the capture provider hands them out: rows from the top, four
/// bytes a pixel.
#[derive(Debug, PartialEq, Eq)]
pub struct RawImage {
    pub width: u32,
    pub height: u32,
    pub rgba: Vec<u8>,
}

/// The value that a [`RawImage`] stands for.
pub struct RawImageView {
    pub width: u32,
    pub height: u32,
    pub rgba: Seq<u8>,
}

impl View for RawImage {
    type V = RawImageView;

    open spec fn view(&self) -> RawImageView {
        RawImageView { width: self.width, height: self.height, rgba: self.rgba@ }
    }
}

/// What the host can do.
#[derive(Clone, Copy, Debug, PartialEq, Eq)]
pub struct Platform {
    /// Windows can be found by title, raised and measured.
    pub window_lookup: bool,
    /// Text can be recognized in an image.
    pub text_recognition: bool,
}

/// The titles under which the application's window is known, in the order
/// in which they are tried.
pub fn window_titles() -> (titles: Vec<String>)
    ensures
        titles.deep_view() == seq!["Gameday_G"@, "Uneekor GameDay"@, "GameDay"@, "Uneekor"@],
{
    let mut titles: Vec<String> = Vec::new();
    titles.push(String::from_str("Gameday_G"));
    titles.push(String::from_str("Uneekor GameDay"));
    titles.push(String::from_str("GameDay"));
    titles.push(String::from_str("Uneekor"));
    assert(titles.deep_view() =~= seq![
        "Gameday_G"@,
        "Uneekor GameDay"@,
        "GameDay"@,
        "Uneekor"@,
    ]);
    titles
}

/// What the driver reports to a session.
#[derive(Debug, PartialEq, Eq)]
pub enum Report {
    /// The lookup of the title asked for gave this window handle, or none.
    /// A handle of zero is no window.
    Lookup(Option<u64>),
    /// The window was raised, left to settle, and has these edges.
    Measured(Edges),
    /// The window's rectangle could not be read.
    MeasureFailed(String),
    /// The capture provider read these pixels.
    Captured(RawImage),
    /// The displays could not be listed.
    ScreensUnavailable(String),
    /// There is no display.
    NoScreen,
    /// The capture provider refused the capture.
    CaptureRejected(String),
    /// The captures directory exists, and the clock reads this many seconds
    /// since the Unix epoch.
    StoreReady(u64),
    /// The application's data directory is not known.
    DataDirUnavailable(String),
    /// The captures directory could not be created.
    DirectoryFailed(String),
    /// The image file was written, at this path.
    Written(String),
    /// The image file could not be written.
    WriteFailed(String),
    /// Text recognition gave this text.
    Recognized(String),
    /// The host has no text recognition.
    OcrUnsupported,
    /// Text recognition failed at this step, with this account.
    OcrFailed(OcrStep, String),
}

/// The value that a [`Report`] stands for.
pub enum ReportView {
    Lookup(Option<u64>),
    Measured(Edges),
    MeasureFailed(Seq<char>),
    Captured(RawImageView),
    ScreensUnavailable(Seq<char>),
    NoScreen,
    CaptureRejected(Seq<char>),
    StoreReady(u64),
    DataDirUnavailable(Seq<char>),
    DirectoryFailed(Seq<char>),
    Written(Seq<char>),
    WriteFailed(Seq<char>),
    Recognized(Seq<char>),
    OcrUnsupported,
    OcrFailed(OcrStep, Seq<char>),
}

impl View for Report {
    type V = ReportView;

    open spec fn view(&self) -> ReportView {
        match self {
            Report::Lookup(found) => ReportView::Lookup(*found),
            Report::Measured(edges) => ReportView::Measured(*edges),
            Report::MeasureFailed(d) => ReportView::MeasureFailed(d@),
            Report::Captured(raw) => ReportView::Captured(raw@),
            Report::ScreensUnavailable(d) => ReportView::ScreensUnavailable(d@),
            Report::NoScreen => ReportView::NoScreen,
            Report::CaptureRejected(d) => ReportView::CaptureRejected(d@),
            Report::StoreReady(seconds) => ReportView::StoreReady(*seconds),
            Report::DataDirUnavailable(d) => ReportView::DataDirUnavailable(d@),
            Report::DirectoryFailed(d) => ReportView::DirectoryFailed(d@),
            Report::Written(path) => ReportView::Written(path@),
            Report::WriteFailed(d) => ReportView::WriteFailed(d@),
            Report::Recognized(text) => ReportView::Recognized(text@),
            Report::OcrUnsupported => ReportView::OcrUnsupported,
            Report::OcrFailed(step, d) => ReportView::OcrFailed(*step, d@),
        }
    }
}

/// Where a capture stands.
pub enum StageView {
    /// Waiting for the lookup of `titles[next]`.
    Locating { titles: Seq<Seq<char>>, next: int },
    /// Waiting for the edges of the window found.
    Measuring { handle: u64 },
    /// Waiting for pixels: of `region`, or of the whole display.
    Capturing { region: Option<Rectangle> },
    /// The image file is encoded; waiting for the captures directory and
    /// the time.
    Preparing { target: Target, png: Seq<u8> },
    /// Waiting for the image file to be written.
    Writing { png: Seq<u8>, file_name: Seq<char> },
    /// Waiting for the text.
    Recognizing { png: Seq<u8>, image_base64: Seq<char>, path: Seq<char> },
    /// Over.
    Done { outcome: Result<CaptureResultView, CaptureErrorView> },
}

/// What a session asks of its driver.
pub enum TaskView {
    FindWindow { title: Seq<char> },
    RaiseAndMeasure { handle: u64, settle_ms: u64 },
    CaptureScreen,
    CaptureRegion { region: Rectangle },
    PrepareStore { dir: Seq<char> },
    WriteFile { dir: Seq<char>, file_name: Seq<char>, bytes: Seq<u8> },
    Recognize { bytes: Seq<u8> },
    Finished,
}

/// Whether the answer to a lookup names a window.
pub open spec fn is_window(found: Option<u64>) -> bool {
    found matches Some(handle) && handle != 0
}

/// What is captured where pixels are asked of `region`.
pub open spec fn target_of(region: Option<Rectangle>) -> Target {
    match region {
        Some(_) => Target::Window,
        None => Target::Screen,
    }
}

/// A stage with nothing left to do but to fail with `error`.
pub open spec fn failed(error: CaptureErrorView) -> StageView {
    StageView::Done { outcome: Err(error) }
}

/// Where a capture of the whole primary display starts.
pub open spec fn screen_start() -> StageView {
    StageView::Capturing { region: None }
}

/// Whether a window can be captured on this host: it takes one that can
/// both locate windows and recognize text.
pub open spec fn supports_window_capture(platform: Platform) -> bool {
    platform.window_lookup && platform.text_recognition
}

/// Where a capture of the window that bears one of `titles` starts. With no
/// candidate there is no window to find.
pub open spec fn window_start(titles: Seq<Seq<char>>, platform: Platform) -> StageView {
    if !supports_window_capture(platform) {
        failed(CaptureErrorView::Unsupported)
    } else if titles.len() == 0 {
        failed(CaptureErrorView::WindowNotFound)
    } else {
        StageView::Locating { titles, next: 0 }
    }
}

/// What became of the pixels: the image file, or why there is none.
pub open spec fn encoding_of(raw: RawImageView, note: Seq<char>) -> Option<
    Result<Seq<u8>, Seq<char>>,
> {
    if !is_whole(raw.width, raw.height, raw.rgba.len() as int) {
        None
    } else {
        match png_encoding(raw.width, raw.height, raw.rgba) {
            Some(png) => Some(Ok(png)),
            None => Some(Err(note)),
        }
    }
}

/// Where a capture of `target` stands once the encoder has answered: with
/// the image file, or with its account of a refusal.
pub open spec fn after_encoding(target: Target, encoded: Result<Seq<u8>, Seq<char>>) -> StageView {
    match encoded {
        Ok(png) => if png.len() == 0 {
            failed(CaptureErrorView::Blank)
        } else if fits_transport(png.len() as int) {
            StageView::Preparing { target, png }
        } else {
            failed(CaptureErrorView::Oversized)
        },
        Err(account) => failed(CaptureErrorView::EncodeRefused(account)),
    }
}

/// Where a capture that stood at `stage` stands once the driver reported
/// `report`.
///
/// Each stage takes in the reports that answer what it asked for, and
/// disregards every other. `note` is the encoder's account of a refusal,
/// should it refuse the pixels: it alone is not settled by the report.
pub open spec fn stage_after(stage: StageView, report: ReportView, note: Seq<char>) -> StageView {
    match stage {
        StageView::Locating { titles, next } => match report {
            ReportView::Lookup(found) => if is_window(found) {
                StageView::Measuring { handle: found->0 }
            } else if next + 1 < titles.len() {
                StageView::Locating { titles, next: next + 1 }
            } else {
                failed(CaptureErrorView::WindowNotFound)
            },
            _ => stage,
        },
        StageView::Measuring { handle } => match report {
            ReportView::Measured(edges) => if edges.spec_is_degenerate() {
                failed(CaptureErrorView::InvalidGeometry)
            } else {
                StageView::Capturing { region: Some(edges.spec_bounds()) }
            },
            ReportView::MeasureFailed(d) => failed(CaptureErrorView::MeasureFailed(d)),
            _ => stage,
        },
        StageView::Capturing { region } => match report {
            ReportView::Captured(raw) => match encoding_of(raw, note) {
                Some(encoded) => after_encoding(target_of(region), encoded),
                None => failed(CaptureErrorView::Misshapen(target_of(region))),
            },
            ReportView::ScreensUnavailable(d) => failed(CaptureErrorView::ScreensUnavailable(d)),
            ReportView::NoScreen => failed(CaptureErrorView::NoScreen),
            ReportView::CaptureRejected(d) => failed(
                CaptureErrorView::CaptureRejected(target_of(region), d),
            ),
            _ => stage,
        },
        StageView::Preparing { target, png } => match report {
            ReportView::StoreReady(seconds) => StageView::Writing {
                png,
                file_name: file_name_of(target.spec_prefix(), seconds),
            },
            ReportView::DataDirUnavailable(d) => failed(CaptureErrorView::DataDirUnavailable(d)),
            ReportView::DirectoryFailed(d) => failed(CaptureErrorView::DirectoryFailed(d)),
            _ => stage,
        },
        StageView::Writing { png, file_name } => match report {
            ReportView::Written(path) => StageView::Recognizing {
                png,
                image_base64: base64_standard(png),
                path,
            },
            ReportView::WriteFailed(d) => failed(CaptureErrorView::WriteFailed(d)),
            _ => stage,
        },
        StageView::Recognizing { png, image_base64, path } => match report {
            ReportView::Recognized(text) => StageView::Done {
                outcome: Ok(CaptureResultView { text, image_base64, image_path: Some(path) }),
            },
            ReportView::OcrUnsupported => failed(CaptureErrorView::OcrUnsupported),
            ReportView::OcrFailed(step, d) => failed(CaptureErrorView::OcrFailed(step, d)),
            _ => stage,
        },
        StageView::Done { outcome } => stage,
    }
}

/// What a capture that stands at `stage` asks of its driver.
pub open spec fn pending_of(stage: StageView) -> TaskView {
    match stage {
        StageView::Locating { titles, next } => TaskView::FindWindow { title: titles[next] },
        StageView::Measuring { handle } => TaskView::RaiseAndMeasure {
            handle,
            settle_ms: SETTLE_DELAY_MS,
        },
        StageView::Capturing { region: None } => TaskView::CaptureScreen,
        StageView::Capturing { region: Some(region) } => TaskView::CaptureRegion { region },
        StageView::Preparing { target, png } => TaskView::PrepareStore {
            dir: crate::store::CAPTURES_DIR@,
        },
        StageView::Writing { png, file_name } => TaskView::WriteFile {
            dir: crate::store::CAPTURES_DIR@,
            file_name,
            bytes: png,
        },
        StageView::Recognizing { png, image_base64, path } => TaskView::Recognize { bytes: png },
        StageView::Done { outcome } => TaskView::Finished,
    }
}

/// What a session asks of its driver.
#[derive(Debug, PartialEq, Eq)]
pub enum Task<'a> {
    /// Look for a top-level window whose title is exactly `title`, and report
    /// [`Report::Lookup`].
    FindWindow { title: &'a str },
    /// Restore the window from its minimized state, bring it to the front,
    /// wait `settle_ms` milliseconds, then read its edges. Report
    /// [`Report::Measured`] or [`Report::MeasureFailed`].
    RaiseAndMeasure { handle: u64, settle_ms: u64 },
    /// Read the pixels of the whole primary display. Report
    /// [`Report::Captured`], or why there are none.
    CaptureScreen,
    /// Read the pixels of `region` of the primary display. Report
    /// [`Report::Captured`], or why there are none.
    CaptureRegion { region: Rectangle },
    /// Make sure that the directory `dir` exists under the application's data
    /// directory, and read the clock. Report [`Report::StoreReady`], or why
    /// the directory is not there.
    PrepareStore { dir: &'static str },
    /// Write `bytes` to the file `file_name` in the directory `dir`. Report
    /// [`Report::Written`] or [`Report::WriteFailed`].
    WriteFile { dir: &'static str, file_name: &'a str, bytes: &'a Vec<u8> },
    /// Have the text in the image file `bytes` recognized. Report
    /// [`Report::Recognized`], or why there is no text.
    Recognize { bytes: &'a Vec<u8> },
    /// Nothing: the capture is over, and [`CaptureSession::into_outcome`]
    /// hands out how it ended.
    Finished,
}

impl<'a> View for Task<'a> {
    type V = TaskView;

    open spec fn view(&self) -> TaskView {
        match self {
            Task::FindWindow { title } => TaskView::FindWindow { title: title@ },
            Task::RaiseAndMeasure { handle, settle_ms } => TaskView::RaiseAndMeasure {
                handle: *handle,
                settle_ms: *settle_ms,
            },
            Task::CaptureScreen => TaskView::CaptureScreen,
            Task::CaptureRegion { region } => TaskView::CaptureRegion { region: *region },
            Task::PrepareStore { dir } => TaskView::PrepareStore { dir: dir@ },
            Task::WriteFile { dir, file_name, bytes } => TaskView::WriteFile {
                dir: dir@,
                file_name: file_name@,
                bytes: bytes@,
            },
            Task::Recognize { bytes } => TaskView::Recognize { bytes: bytes@ },
            Task::Finished => TaskView::Finished,
        }
    }
}

/// How a capture ended, as a value of the model.
pub open spec fn outcome_view(outcome: Result<CaptureResult, CaptureError>) -> Result<
    CaptureResultView,
    CaptureErrorView,
> {
    match outcome {
        Ok(result) => Ok(result@),
        Err(error) => Err(error@),
    }
}

/// What the encoder answered, as a value of the model.
pub open spec fn encoded_view(encoded: Result<Vec<u8>, String>) -> Result<Seq<u8>, Seq<char>> {
    match encoded {
        Ok(png) => Ok(png@),
        Err(account) => Err(account@),
    }
}

enum Stage {
    Locating { titles: Vec<String>, next: usize },
    Measuring { handle: u64 },
    Capturing { region: Option<Rectangle> },
    Preparing { target: Target, png: Vec<u8> },
    Writing { png: Vec<u8>, file_name: String },
    Recognizing { png: Vec<u8>, image_base64: String, path: String },
    Done { outcome: Result<CaptureResult, CaptureError> },
}

/// One capture, from its start to its result.
///
/// The view is the stage at which the capture stands.
pub struct CaptureSession {
    stage: Stage,
}

impl View for CaptureSession {
    type V = StageView;

    closed spec fn view(&self) -> StageView {
        match self.stage {
            Stage::Locating { titles, next } => StageView::Locating {
                titles: titles.deep_view(),
                next: next as int,
            },
            Stage::Measuring { handle } => StageView::Measuring { handle },
            Stage::Capturing { region } => StageView::Capturing { region },
            Stage::Preparing { target, png } => StageView::Preparing { target, png: png@ },
            Stage::Writing { png, file_name } => StageView::Writing {
                png: png@,
                file_name: file_name@,
            },
            Stage::Recognizing { png, image_base64, path } => StageView::Recognizing {
                png: png@,
                image_base64: image_base64@,
                path: path@,
            },
            Stage::Done { outcome } => StageView::Done { outcome: outcome_view(outcome) },
        }
    }
}

/// What holds of every stage that a capture reaches: the title asked for
/// is one of the candidates, and the image file is not empty and short
/// enough for its base64 text.
pub open spec fn sound(stage: StageView) -> bool {
    match stage {
        StageView::Locating { titles, next } => 0 <= next < titles.len(),
        StageView::Preparing { target, png } => 0 < png.len() && fits_transport(png.len() as int),
        StageView::Writing { png, file_name } => 0 < png.len() && fits_transport(
            png.len() as int,
        ),
        StageView::Recognizing { png, image_base64, path } => 0 < png.len() && fits_transport(
            png.len() as int,
        ),
        _ => true,
    }
}

impl CaptureSession {
    #[verifier::type_invariant]
    spec fn well_formed(self) -> bool {
        &&& sound(self@)
        &&& match self@ {
            StageView::Recognizing { png, image_base64, path } => image_base64.len() > 0,
            StageView::Done { outcome: Ok(result) } => result.image_base64.len() > 0,
            _ => true,
        }
    }

    /// Starts a capture of the whole primary display.
    pub fn for_screen() -> (session: CaptureSession)
        ensures
            session@ == screen_start(),
    {
        CaptureSession { stage: Stage::Capturing { region: None } }
    }

    /// Starts a capture of the window that bears one of `titles`, which are
    /// tried in order.
    pub fn for_window(titles: Vec<String>, platform: Platform) -> (session: CaptureSession)
        ensures
            session@ == window_start(titles.deep_view(), platform),
    {
        if !platform.window_lookup || !platform.text_recognition {
            CaptureSession { stage: Stage::Done { outcome: Err(CaptureError::Unsupported) } }
        } else if titles.len() == 0 {
            CaptureSession { stage: Stage::Done { outcome: Err(CaptureError::WindowNotFound) } }
        } else {
            CaptureSession { stage: Stage::Locating { titles, next: 0 } }
        }
    }

    /// Takes up a capture of `target` where the encoder has answered, with
    /// the image file or with its account of a refusal. An empty file is no
    /// image, and one too long for its base64 text cannot be handed out:
    /// both fail the capture.
    pub fn with_encoding(target: Target, encoded: Result<Vec<u8>, String>) -> (session:
        CaptureSession)
        ensures
            session@ == after_encoding(target, encoded_view(encoded)),
    {
        match encoded {
            Ok(png) => {
                if png.len() == 0 {
                    CaptureSession { stage: Stage::Done { outcome: Err(CaptureError::Blank) } }
                } else if png.len() <= usize::MAX / 4 * 3 {
                    CaptureSession { stage: Stage::Preparing { target, png } }
                } else {
                    CaptureSession { stage: Stage::Done { outcome: Err(CaptureError::Oversized) } }
                }
            },
            Err(account) => CaptureSession {
                stage: Stage::Done { outcome: Err(CaptureError::EncodeRefused(account)) },
            },
        }
    }

    /// Takes in what the driver reports.
    ///
    /// A report that does not answer what the session waits for leaves the
    /// session as it is. Pixels are encoded here: where the encoder refuses
    /// them, its account becomes part of the error.
    pub fn on(self, report: Report) -> (next: CaptureSession)
        ensures
            exists|note: Seq<char>| next@ == #[trigger] stage_after(self@, report@, note),
    {
        proof {
            use_type_invariant(&self);
        }
        let ghost before = self@;
        let ghost told = report@;
        let ghost mut note = Seq::<char>::empty();
        let after = match self.stage {
            Stage::Locating { titles, next } => match report {
                Report::Lookup(found) => {
                    let count: usize = titles.len();
                    assert(next < count);
                    let handle: u64 = match found {
                        Some(handle) => handle,
                        None => 0,
                    };
                    if handle != 0 {
                        CaptureSession { stage: Stage::Measuring { handle } }
                    } else if next + 1 < count {
                        CaptureSession { stage: Stage::Locating { titles, next: next + 1 } }
                    } else {
                        failure(CaptureError::WindowNotFound)
                    }
                },
                _ => CaptureSession { stage: Stage::Locating { titles, next } },
            },
            Stage::Measuring { handle } => match report {
                Report::Measured(edges) => {
                    if edges.is_degenerate() {
                        failure(CaptureError::InvalidGeometry)
                    } else {
                        CaptureSession { stage: Stage::Capturing { region: Some(edges.bounds()) } }
                    }
                },
                Report::MeasureFailed(d) => failure(CaptureError::MeasureFailed(d)),
                _ => CaptureSession { stage: Stage::Measuring { handle } },
            },
            Stage::Capturing { region } => {
                let target = match region {
                    Some(_) => Target::Window,
                    None => Target::Screen,
                };
                match report {
                    Report::Captured(raw) => {
                        let encoded = encode_pixels(raw);
                        proof {
                            note = choose|note: Seq<char>|
                                encoding_view(encoded) == #[trigger] encoding_of(
                                    told->Captured_0,
                                    note,
                                );
                        }
                        match encoded {
                            Some(answer) => CaptureSession::with_encoding(target, answer),
                            None => failure(CaptureError::Misshapen(target)),
                        }
                    },
                    Report::ScreensUnavailable(d) => failure(CaptureError::ScreensUnavailable(d)),
                    Report::NoScreen => failure(CaptureError::NoScreen),
                    Report::CaptureRejected(d) => failure(
                        CaptureError::CaptureRejected(target, d),
                    ),
                    _ => CaptureSession { stage: Stage::Capturing { region } },
                }
            },
            Stage::Preparing { target, png } => match report {
                Report::StoreReady(seconds) => {
                    let file_name = file_name(target.prefix(), seconds);
                    CaptureSession { stage: Stage::Writing { png, file_name } }
                },
                Report::DataDirUnavailable(d) => failure(CaptureError::DataDirUnavailable(d)),
                Report::DirectoryFailed(d) => failure(CaptureError::DirectoryFailed(d)),
                _ => CaptureSession { stage: Stage::Preparing { target, png } },
            },
            Stage::Writing { png, file_name } => match report {
                Report::Written(path) => {
                    let image_base64 = base64_text(&png);
                    CaptureSession { stage: Stage::Recognizing { png, image_base64, path } }
                },
                Report::WriteFailed(d) => failure(CaptureError::WriteFailed(d)),
                _ => CaptureSession { stage: Stage::Writing { png, file_name } },
            },
            Stage::Recognizing { png, image_base64, path } => match report {
                Report::Recognized(text) => {
                    let result = CaptureResult { text, image_base64, image_path: Some(path) };
                    CaptureSession { stage: Stage::Done { outcome: Ok(result) } }
                },
                Report::OcrUnsupported => failure(CaptureError::OcrUnsupported),
                Report::OcrFailed(step, d) => failure(CaptureError::OcrFailed(step, d)),
                _ => CaptureSession { stage: Stage::Recognizing { png, image_base64, path } },
            },
            Stage::Done { outcome } => CaptureSession { stage: Stage::Done { outcome } },
        };
        assert(after@ == stage_after(before, told, note));
        after
    }

    /// Whether the capture is over.
    pub fn is_finished(&self) -> (finished: bool)
        ensures
            finished == (self@ is Done),
    {
        match &self.stage {
            Stage::Done { .. } => true,
            _ => false,
        }
    }

    /// What the session waits for.
    pub fn pending(&self) -> (task: Task<'_>)
        ensures
            task@ == pending_of(self@),
    {
        proof {
            use_type_invariant(self);
        }
        match &self.stage {
            Stage::Locating { titles, next } => Task::FindWindow { title: titles[*next].as_str() },
            Stage::Measuring { handle } => Task::RaiseAndMeasure {
                handle: *handle,
                settle_ms: SETTLE_DELAY_MS,
            },
            Stage::Capturing { region } => match region {
                Some(region) => Task::CaptureRegion { region: *region },
                None => Task::CaptureScreen,
            },
            Stage::Preparing { .. } => Task::PrepareStore { dir: CAPTURES_DIR },
            Stage::Writing { png, file_name } => Task::WriteFile {
                dir: CAPTURES_DIR,
                file_name: file_name.as_str(),
                bytes: png,
            },
            Stage::Recognizing { png, .. } => Task::Recognize { bytes: png },
            Stage::Done { .. } => Task::Finished,
        }
    }

    /// How the capture ended, once it is over. A result never comes with an
    /// empty image.
    pub fn into_outcome(self) -> (outcome: Option<Result<CaptureResult, CaptureError>>)
        ensures
            match outcome {
                Some(ended) => self@ == (StageView::Done { outcome: outcome_view(ended) }),
                None => !(self@ is Done),
            },
            outcome matches Some(Ok(result)) ==> result@.image_base64.len() > 0,
    {
        proof {
            use_type_invariant(&self);
        }
        match self.stage {
            Stage::Done { outcome } => Some(outcome),
            _ => None,
        }
    }
}

/// What became of the pixels, as a value of the model.
pub open spec fn encoding_view(encoded: Option<Result<Vec<u8>, String>>) -> Option<
    Result<Seq<u8>, Seq<char>>,
> {
    match encoded {
        Some(answer) => Some(encoded_view(answer)),
        None => None,
    }
}

/// Encodes pixels as a PNG file, which loses nothing of them.
///
/// Gives nothing where the buffer is not the whole image, that is, does not
/// hold exactly width times height pixels or has rows too long to count;
/// else the file, which is never empty, or the encoder's account of its
/// refusal.
pub fn encode_pixels(raw: RawImage) -> (encoded: Option<Result<Vec<u8>, String>>)
    ensures
        exists|note: Seq<char>| encoding_view(encoded) == #[trigger] encoding_of(raw@, note),
        encoded matches Some(Ok(png)) ==> png_signature().is_prefix_of(png@),
{
    let ghost pixels = raw@;
    if !holds_every_pixel(&raw) {
        assert(encoding_view(None) == encoding_of(pixels, Seq::<char>::empty()));
        None
    } else {
        match encode_png(raw.width, raw.height, raw.rgba) {
            Ok(png) => {
                assert(encoding_view(Some(Ok(png))) == encoding_of(pixels, Seq::<char>::empty()));
                Some(Ok(png))
            },
            Err(error) => {
                let account = image_error_text(&error);
                assert(encoding_view(Some(Err(account))) == encoding_of(pixels, account@));
                Some(Err(account))
            },
        }
    }
}

/// The base64 text of `bytes`, for the way back to the caller; nothing where
/// the buffer is too long for the length of its text to be counted.
pub fn transport_text(bytes: &Vec<u8>) -> (text: Option<String>)
    ensures
        match text {
            Some(text) => fits_transport(bytes@.len() as int) && text@ == base64_standard(bytes@)
                && text@.len() == base64_len(bytes@.len() as int),
            None => !fits_transport(bytes@.len() as int),
        },
{
    if bytes.len() <= usize::MAX / 4 * 3 {
        Some(base64_text(bytes))
    } else {
        None
    }
}

/// A session that is over, having failed with `error`.
fn failure(error: CaptureError) -> (session: CaptureSession)
    ensures
        session@ == failed(error@),
{
    CaptureSession { stage: Stage::Done { outcome: Err(error) } }
}

/// Whether the buffer is the whole image: it holds exactly width times
/// height pixels, and the bytes of one row can be counted.
fn holds_every_pixel(raw: &RawImage) -> (whole: bool)
    ensures
        whole == is_whole(raw@.width, raw@.height, raw@.rgba.len() as int),
{
    let width: u128 = raw.width as u128;
    let height: u128 = raw.height as u128;
    assert(4 * width * height <= 4 * 0xffff_ffff * 0xffff_ffff) by (nonlinear_arith)
        requires
            width <= 0xffff_ffff,
            height <= 0xffff_ffff,
    ;
    4 * width <= usize::MAX as u128 && raw.rgba.len() as u128 == 4 * width * height
}

} // verus!
