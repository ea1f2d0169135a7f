//! Submission: the request path, and what a submission response means.

use crate::credentials::AuthError;
use crate::models::{EmailSendStatus, EmailSendStatusType, ErrorDetail, ErrorResponse, SentEmailResponse};
use crate::signer::SigningError;
use crate::tracker::OperationTracker;
use vstd::prelude::*;
use vstd::string::*;

verus! {

/// Why a submission produced no operation to track.
#[derive(Debug)]
pub enum DispatchError {
    /// The credential could not be obtained.
    Auth(AuthError),
    /// The request could not be signed.
    Signing(SigningError),
    /// The request did not reach the service or no response came back.
    Transport(String),
    /// The service refused the request; carries its error payload.
    Remote(ErrorDetail),
    /// The service accepted the request but named no operation.
    MissingOperationId,
}

/// Body of a submission response, as far as it could be read.
#[derive(Debug)]
pub enum SubmitBody {
    /// An acknowledgement naming the operation.
    Ack(SentEmailResponse),
    /// An error payload.
    Error(ErrorResponse),
    /// Nothing readable.
    Unreadable,
}

/// Whether an HTTP status code reports success.
pub open spec fn is_success_spec(code: u16) -> bool {
    200 <= code < 300
}

/// Status in which tracking starts: `Running` if the service says so,
/// `NotStarted` otherwise.
pub open spec fn initial_status(s: Option<EmailSendStatus>) -> EmailSendStatusType {
    match s {
        Some(EmailSendStatus(EmailSendStatusType::Running)) => EmailSendStatusType::Running,
        _ => EmailSendStatusType::NotStarted,
    }
}

/// An error payload with no field set.
pub open spec fn empty_detail() -> ErrorDetail {
    ErrorDetail { additional_info: None, code: None, message: None, target: None }
}

/// Path and query of the submission request.
pub fn submit_path(api_version: &str) -> (r: String)
    ensures
        r@ == "/emails:send?api-version="@ + api_version@,
{
    let mut p = "/emails:send?api-version=".to_owned();
    p.append(api_version);
    p
}

/// Whether an HTTP status code reports success.
pub fn is_success(code: u16) -> (r: bool)
    ensures
        r == is_success_spec(code),
{
    200 <= code && code < 300
}

/// Interprets a submission response, with the status location that the
/// response named. A success naming an operation starts a tracker for it,
/// polling that location, with no poll made; a success naming none is refused; any
/// other status code is the service's refusal, with its error payload, or an
/// empty one when none could be read.
pub fn interpret_submit(
    status_code: u16,
    body: SubmitBody,
    status_location: Option<String>,
    max_polls: u64,
) -> (r: Result<
    OperationTracker,
    DispatchError,
>)
    requires
        1 <= max_polls,
    ensures
        is_success_spec(status_code) ==> match body {
            SubmitBody::Ack(SentEmailResponse { id: Some(id), status, .. }) => r matches Ok(t) && t
                == (OperationTracker {
                operation_id: id,
                status_url: status_location,
                status: initial_status(status),
                polls: 0,
                max_polls,
                completed: false,
            }),
            _ => r matches Err(DispatchError::MissingOperationId),
        },
        !is_success_spec(status_code) ==> match body {
            SubmitBody::Error(ErrorResponse { error: Some(d) }) => r matches Err(
                DispatchError::Remote(e),
            ) && e == d,
            _ => r matches Err(DispatchError::Remote(e)) && e == empty_detail(),
        },
        r matches Ok(t) ==> t.wf(),
{
    if is_success(status_code) {
        match body {
            SubmitBody::Ack(SentEmailResponse { id: Some(id), status, .. }) => {
                let initial = match status {
                    Some(EmailSendStatus(EmailSendStatusType::Running)) => EmailSendStatusType::Running,
                    _ => EmailSendStatusType::NotStarted,
                };
                Ok(OperationTracker::new(id, status_location, initial, max_polls))
            },
            _ => Err(DispatchError::MissingOperationId),
        }
    } else {
        match body {
            SubmitBody::Error(ErrorResponse { error: Some(d) }) => Err(DispatchError::Remote(d)),
            _ => Err(
                DispatchError::Remote(
                    ErrorDetail { additional_info: None, code: None, message: None, target: None },
                ),
            ),
        }
    }
}

} // verus!
