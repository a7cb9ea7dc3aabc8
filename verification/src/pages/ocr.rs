//! The receipt-scanner page: pick an image, upload it, show the result.
use vstd::prelude::*;

use crate::errors::{api_error_text, ApiError};
use crate::models::OCRResult;

verus! {

/// OCR state.
#[derive(Debug)]
pub struct State {
    /// OCR result.
    pub result: Option<OCRResult>,
    /// Selected image path.
    pub image_path: Option<String>,
    /// Loading state.
    pub loading: bool,
    /// Error message.
    pub error: Option<String>,
}

impl State {
    /// The state the page starts in: nothing selected, nothing pending.
    pub open spec fn is_initial(self) -> bool {
        &&& self.result is None
        &&& self.image_path is None
        &&& !self.loading
        &&& self.error is None
    }
}

impl Default for State {
    fn default() -> (r: Self)
        ensures
            r.is_initial(),
    {
        State { result: None, image_path: None, loading: false, error: None }
    }
}

/// OCR messages.
#[derive(Debug, PartialEq, Eq)]
pub enum OCRMessage {
    /// Open camera.
    OpenCamera,
    /// Select image.
    SelectImage,
    /// Image selected.
    ImageSelected(String),
    /// Process image.
    ProcessImage(Vec<u8>),
    /// OCR result received.
    ResultReceived(OCRResult),
    /// Error occurred.
    Error(String),
}

/// What the binary is asked to perform after an update.
#[derive(Debug, PartialEq, Eq)]
pub enum Command {
    /// Nothing.
    NoOp,
    /// Read the image file at the path and feed its bytes back in.
    ReadImage { path: String },
    /// Upload the image bytes to the backend for OCR.
    Upload { image: Vec<u8> },
}

/// How one message takes the page from `pre` to `post`, asking for `cmd`.
pub open spec fn update_rel(pre: State, msg: OCRMessage, post: State, cmd: Command) -> bool {
    match msg {
        OCRMessage::OpenCamera => {
            &&& post.result == pre.result
            &&& post.image_path == pre.image_path
            &&& post.loading == pre.loading
            &&& post.error matches Some(e) && e@ == "Camera functionality not implemented yet."@
            &&& cmd == Command::NoOp
        },
        OCRMessage::SelectImage => {
            &&& post.result == pre.result
            &&& post.image_path == pre.image_path
            &&& post.loading == pre.loading
            &&& post.error matches Some(e) && e@ == "File picker not implemented yet."@
            &&& cmd == Command::NoOp
        },
        OCRMessage::ImageSelected(path) => {
            &&& post.result == pre.result
            &&& post.image_path matches Some(p) && p@ == path@
            &&& post.loading == pre.loading
            &&& post.error == pre.error
            &&& cmd matches Command::ReadImage { path: q } && q@ == path@
        },
        OCRMessage::ProcessImage(image_data) => {
            &&& post.result == pre.result
            &&& post.image_path == pre.image_path
            &&& post.loading
            &&& post.error is None
            &&& cmd matches Command::Upload { image } && image == image_data
        },
        OCRMessage::ResultReceived(result) => {
            &&& post.result == Some(result)
            &&& post.image_path == pre.image_path
            &&& !post.loading
            &&& post.error == pre.error
            &&& cmd == Command::NoOp
        },
        OCRMessage::Error(error) => {
            &&& post.result == pre.result
            &&& post.image_path == pre.image_path
            &&& !post.loading
            &&& post.error == Some(error)
            &&& cmd == Command::NoOp
        },
    }
}

/// Update OCR state.
pub fn update(state: &mut State, message: OCRMessage) -> (cmd: Command)
    ensures
        update_rel(*old(state), message, *final (state), cmd),
{
    match message {
        OCRMessage::OpenCamera => {
            state.error = Some("Camera functionality not implemented yet.".to_owned());
            Command::NoOp
        },
        OCRMessage::SelectImage => {
            state.error = Some("File picker not implemented yet.".to_owned());
            Command::NoOp
        },
        OCRMessage::ImageSelected(path) => {
            state.image_path = Some(path.clone());
            Command::ReadImage { path }
        },
        OCRMessage::ProcessImage(image_data) => {
            state.loading = true;
            state.error = None;
            Command::Upload { image: image_data }
        },
        OCRMessage::ResultReceived(result) => {
            state.result = Some(result);
            state.loading = false;
            Command::NoOp
        },
        OCRMessage::Error(error) => {
            state.error = Some(error);
            state.loading = false;
            Command::NoOp
        },
    }
}

/// The message a finished upload feeds back: the OCR result where the call
/// succeeded, the error's text where it failed.
pub fn upload_outcome_message(result: Result<OCRResult, ApiError>) -> (m: OCRMessage)
    ensures
        match result {
            Ok(r) => m == OCRMessage::ResultReceived(r),
            Err(e) => m matches OCRMessage::Error(s) && s@ == api_error_text(e),
        },
{
    match result {
        Ok(r) => OCRMessage::ResultReceived(r),
        Err(e) => OCRMessage::Error(e.message()),
    }
}

} // verus!
