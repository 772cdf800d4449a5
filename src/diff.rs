//! Intake of the staged diff from what the backend's diff command produced.
use crate::error::{ErrorModel, PipelineError, text_result_view};
use crate::text::{is_blank, trim};
use vstd::prelude::*;
use vstd::utf8::{decode_utf8, valid_utf8};

verus! {

/// What running the staged-diff command produced.
#[derive(Clone, Debug, PartialEq, Eq)]
pub struct DiffCapture {
    /// Whether the command could be started at all.
    pub launched: bool,
    /// Whether it exited with status zero.
    pub success: bool,
    /// Its standard output, as raw bytes.
    pub stdout: Vec<u8>,
    /// Its error output, as text.
    pub stderr: String,
}

pub struct DiffCaptureModel {
    pub launched: bool,
    pub success: bool,
    pub stdout: Seq<u8>,
    pub stderr: Seq<char>,
}

impl View for DiffCapture {
    type V = DiffCaptureModel;

    open spec fn view(&self) -> DiffCaptureModel {
        DiffCaptureModel {
            launched: self.launched,
            success: self.success,
            stdout: self.stdout@,
            stderr: self.stderr@,
        }
    }
}

/// The diff, or why there is none to work on, decided in the order
/// start, exit status, encoding, emptiness.
pub open spec fn diff_outcome(c: DiffCaptureModel) -> Result<Seq<char>, ErrorModel> {
    if !c.launched {
        Err(ErrorModel::BackendUnavailable)
    } else if !c.success {
        Err(ErrorModel::BackendError { detail: c.stderr })
    } else if !valid_utf8(c.stdout) {
        Err(ErrorModel::EncodingError)
    } else if is_blank(decode_utf8(c.stdout)) {
        Err(ErrorModel::NoStagedChanges)
    } else {
        Ok(decode_utf8(c.stdout))
    }
}

/// Relies on `String::from_utf8`: `Ok` exactly for valid UTF-8, holding the
/// decoded characters.
#[verifier::external_body]
fn decode_bytes(bytes: Vec<u8>) -> (r: Option<String>)
    ensures
        r is Some <==> valid_utf8(bytes@),
        r matches Some(s) ==> s@ == decode_utf8(bytes@),
{
    String::from_utf8(bytes).ok()
}

/// The staged diff, verbatim, out of what the diff command produced.
pub fn staged_diff(capture: DiffCapture) -> (r: Result<String, PipelineError>)
    ensures
        text_result_view(r) == diff_outcome(capture@),
{
    if !capture.launched {
        return Err(PipelineError::BackendUnavailable);
    }
    if !capture.success {
        return Err(PipelineError::BackendError { detail: capture.stderr });
    }
    match decode_bytes(capture.stdout) {
        None => Err(PipelineError::EncodingError),
        Some(text) => {
            let t = trim(text.as_str());
            if t.as_str().is_empty() {
                Err(PipelineError::NoStagedChanges)
            } else {
                Ok(text)
            }
        },
    }
}

} // verus!
