//! Backend logic of a desktop companion: the one-shot OAuth callback exchange
//! and the capture-to-text pipeline, as verified state machines that the
//! surrounding program drives with the results of its I/O.

pub mod callback;
pub mod capture;
pub mod capture_laws;
pub mod codec;
pub mod error;
pub mod geometry;
pub mod request;
pub mod store;
pub mod token;

pub use callback::{BindError, CallbackSession, Directive, Incoming, Phase, Wait};
pub use capture::{CaptureResult, CaptureSession, Platform, RawImage, Report, Task};
pub use error::{CaptureError, ErrorKind, OcrStep};
pub use geometry::{Edges, Rectangle};
pub use store::Target;
pub use token::{AuthToken, TokenSlot};
