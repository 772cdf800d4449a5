//! The pipeline's failures.
use vstd::prelude::*;

verus! {

/// Every way a pipeline run can stop short of its goal. Each one ends the run
/// and reaches the user as it is; none is retried automatically.
#[derive(Clone, Debug, PartialEq, Eq)]
pub enum PipelineError {
    /// The version-control backend could not be located or started.
    BackendUnavailable,
    /// The staged-diff command exited non-zero; its error output.
    BackendError { detail: String },
    /// The staged diff is not valid UTF-8.
    EncodingError,
    /// Nothing is staged: the diff is empty or whitespace only.
    NoStagedChanges,
    /// The generation service answered with a status outside 200..=299.
    ServiceError { model: String, status: u16, body: String },
    /// The service's answer holds no candidate.
    EmptyResponse,
    /// The first candidate holds no text segment.
    EmptyContent,
    /// A successful answer whose body does not have the expected shape.
    MalformedResponse,
    /// The request never got an answer (connection, TLS, timeout).
    TransportError { detail: String },
    /// Staging everything exited non-zero.
    StageFailed { detail: String },
    /// The commit command exited non-zero.
    CommitFailed { detail: String },
    /// The push exited non-zero; the commit it follows stays in place.
    PushFailed { reason: String },
}

/// A `PipelineError` with its texts as character sequences.
pub enum ErrorModel {
    BackendUnavailable,
    BackendError { detail: Seq<char> },
    EncodingError,
    NoStagedChanges,
    ServiceError { model: Seq<char>, status: u16, body: Seq<char> },
    EmptyResponse,
    EmptyContent,
    MalformedResponse,
    TransportError { detail: Seq<char> },
    StageFailed { detail: Seq<char> },
    CommitFailed { detail: Seq<char> },
    PushFailed { reason: Seq<char> },
}

impl View for PipelineError {
    type V = ErrorModel;

    open spec fn view(&self) -> ErrorModel {
        match self {
            PipelineError::BackendUnavailable => ErrorModel::BackendUnavailable,
            PipelineError::BackendError { detail } => ErrorModel::BackendError { detail: detail@ },
            PipelineError::EncodingError => ErrorModel::EncodingError,
            PipelineError::NoStagedChanges => ErrorModel::NoStagedChanges,
            PipelineError::ServiceError { model, status, body } => ErrorModel::ServiceError {
                model: model@,
                status: *status,
                body: body@,
            },
            PipelineError::EmptyResponse => ErrorModel::EmptyResponse,
            PipelineError::EmptyContent => ErrorModel::EmptyContent,
            PipelineError::MalformedResponse => ErrorModel::MalformedResponse,
            PipelineError::TransportError { detail } => ErrorModel::TransportError {
                detail: detail@,
            },
            PipelineError::StageFailed { detail } => ErrorModel::StageFailed { detail: detail@ },
            PipelineError::CommitFailed { detail } => ErrorModel::CommitFailed { detail: detail@ },
            PipelineError::PushFailed { reason } => ErrorModel::PushFailed { reason: reason@ },
        }
    }
}

/// The model of a result whose success value is a text.
pub open spec fn text_result_view(r: Result<String, PipelineError>) -> Result<Seq<char>, ErrorModel> {
    match r {
        Ok(s) => Ok(s@),
        Err(e) => Err(e@),
    }
}

} // verus!
