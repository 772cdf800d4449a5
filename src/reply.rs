//! Interpretation of the generation service's answer.
use crate::error::{ErrorModel, PipelineError, text_result_view};
use crate::text::{has_no_outer_white_space, trim, trimmed};
use vstd::prelude::*;

verus! {

/// One candidate of an answer: its text segments in order.
#[derive(Clone, Debug, PartialEq, Eq)]
pub struct Candidate {
    pub parts: Vec<String>,
}

impl View for Candidate {
    type V = Seq<Seq<char>>;

    open spec fn view(&self) -> Seq<Seq<char>> {
        self.parts@.map_values(|s: String| s@)
    }
}

/// A decoded answer: its candidates in order.
#[derive(Clone, Debug, PartialEq, Eq)]
pub struct GenerationResponse {
    pub candidates: Vec<Candidate>,
}

impl View for GenerationResponse {
    type V = Seq<Seq<Seq<char>>>;

    open spec fn view(&self) -> Seq<Seq<Seq<char>>> {
        self.candidates@.map_values(|c: Candidate| c@)
    }
}

/// What came back for one request: the status, the body as text, and the
/// body decoded as an answer where it has that shape.
#[derive(Clone, Debug, PartialEq, Eq)]
pub struct ServiceReply {
    pub status: u16,
    pub body: String,
    pub response: Option<GenerationResponse>,
}

pub struct ServiceReplyModel {
    pub status: u16,
    pub body: Seq<char>,
    pub response: Option<Seq<Seq<Seq<char>>>>,
}

impl View for ServiceReply {
    type V = ServiceReplyModel;

    open spec fn view(&self) -> ServiceReplyModel {
        ServiceReplyModel {
            status: self.status,
            body: self.body@,
            response: match self.response {
                Some(g) => Some(g@),
                None => None,
            },
        }
    }
}

/// The HTTP success statuses.
pub open spec fn is_success(status: u16) -> bool {
    200 <= status <= 299
}

/// The message held by an answer: the first candidate's first text segment,
/// trimmed.
pub open spec fn response_outcome(candidates: Seq<Seq<Seq<char>>>) -> Result<Seq<char>, ErrorModel> {
    if candidates.len() == 0 {
        Err(ErrorModel::EmptyResponse)
    } else if candidates[0].len() == 0 {
        Err(ErrorModel::EmptyContent)
    } else {
        Ok(trimmed(candidates[0][0]))
    }
}

/// The message, or the failure, that a reply to a request for `model` means.
pub open spec fn reply_outcome(model: Seq<char>, reply: ServiceReplyModel) -> Result<Seq<char>, ErrorModel> {
    if !is_success(reply.status) {
        Err(ErrorModel::ServiceError { model, status: reply.status, body: reply.body })
    } else {
        match reply.response {
            None => Err(ErrorModel::MalformedResponse),
            Some(c) => response_outcome(c),
        }
    }
}

/// Whether `status` is an HTTP success status.
pub fn is_success_status(status: u16) -> (r: bool)
    ensures
        r == is_success(status),
{
    200 <= status && status <= 299
}

/// The commit message that an answer holds. On success it starts and ends
/// with a character that is not whitespace, so it has no trailing newline.
pub fn first_text(response: &GenerationResponse) -> (r: Result<String, PipelineError>)
    ensures
        text_result_view(r) == response_outcome(response@),
        r matches Ok(m) ==> has_no_outer_white_space(m@) && (m@.len() > 0 ==> m@.last() != '\n'),
{
    if response.candidates.len() == 0 {
        return Err(PipelineError::EmptyResponse);
    }
    let first = &response.candidates[0];
    assert(response@[0] == first@);
    if first.parts.len() == 0 {
        return Err(PipelineError::EmptyContent);
    }
    assert(first@[0] == first.parts@[0]@);
    Ok(trim(first.parts[0].as_str()))
}

/// The message, or the failure, that a reply to a request for `model` means.
/// A status outside 200..=299 gives `ServiceError` with the status and the
/// body unaltered.
pub fn interpret_reply(model: &str, reply: ServiceReply) -> (r: Result<String, PipelineError>)
    ensures
        text_result_view(r) == reply_outcome(model@, reply@),
        !is_success(reply.status) ==> (r matches Err(PipelineError::ServiceError { model: m, status, body })
            && m@ == model@ && status == reply.status && body@ == reply.body@),
        is_success(reply.status) && reply@.response == Some(Seq::<Seq<Seq<char>>>::empty()) ==> (r
            matches Err(PipelineError::EmptyResponse)),
        r matches Ok(m) ==> has_no_outer_white_space(m@) && (m@.len() > 0 ==> m@.last() != '\n'),
{
    if !is_success_status(reply.status) {
        return Err(
            PipelineError::ServiceError {
                model: String::from_str(model),
                status: reply.status,
                body: reply.body,
            },
        );
    }
    match reply.response {
        None => Err(PipelineError::MalformedResponse),
        Some(g) => first_text(&g),
    }
}

} // verus!
