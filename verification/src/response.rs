//! The answer that is sent back for a handled event.

use crate::event::{text_of, WebhookEventType, WebhookEventView};
use crate::handle::{outcome, HandleEventError};
use crate::signature::{header_bytes, verifies, verify, WebhookSecret};
use vstd::prelude::*;
use vstd::string::StringExecFns;

verus! {

/// Status of an answer that carries the result of the handling.
pub const STATUS_OK: u16 = 200;

/// Status of an answer to an event whose handling had nothing to report.
pub const STATUS_NO_CONTENT: u16 = 204;

/// Status of an answer to a request that was not accepted.
pub const STATUS_BAD_REQUEST: u16 = 400;

/// Status of an answer to an event whose handling failed.
pub const STATUS_INTERNAL_SERVER_ERROR: u16 = 500;

/// An HTTP answer: a status code and, where there is one, a text body.
#[derive(Clone, Debug, PartialEq, Eq)]
pub struct Response {
    pub status: u16,
    pub body: Option<String>,
}

/// An answer as its texts.
pub struct ResponseView {
    pub status: u16,
    pub body: Option<Seq<char>>,
}

impl View for Response {
    type V = ResponseView;

    open spec fn view(&self) -> ResponseView {
        ResponseView { status: self.status, body: text_of(self.body) }
    }
}

/// What a caller is told about a failure. The text names the failure and
/// nothing of what led to it.
pub open spec fn failure_text(error: HandleEventError) -> Seq<char> {
    match error {
        HandleEventError::MissingInstallation => "missing installation in the event"@,
        HandleEventError::InstallationAuthentication => "unable to access installation"@,
        HandleEventError::MissingRepository => "missing repository parent in the event"@,
        HandleEventError::EventHandling { event } => "failed to handle event: "@
            + event.spec_name(),
    }
}

/// The answer to an event whose handling ended with `result`.
pub open spec fn response_for(result: Result<Option<Seq<char>>, HandleEventError>) -> ResponseView {
    match result {
        Ok(Some(text)) => ResponseView { status: STATUS_OK, body: Some(text) },
        Ok(None) => ResponseView { status: STATUS_NO_CONTENT, body: None },
        Err(error) => ResponseView {
            status: STATUS_INTERNAL_SERVER_ERROR,
            body: Some(failure_text(error)),
        },
    }
}

/// The text of a result of handling an event.
pub open spec fn result_text(result: Result<Option<String>, HandleEventError>) -> Result<
    Option<Seq<char>>,
    HandleEventError,
> {
    match result {
        Ok(text) => Ok(text_of(text)),
        Err(error) => Err(error),
    }
}

impl HandleEventError {
    /// The text a caller is told about this failure.
    pub fn failure_text(&self) -> (text: String)
        ensures
            text@ == failure_text(*self),
    {
        match self {
            HandleEventError::MissingInstallation => String::from_str(
                "missing installation in the event",
            ),
            HandleEventError::InstallationAuthentication => String::from_str(
                "unable to access installation",
            ),
            HandleEventError::MissingRepository => String::from_str(
                "missing repository parent in the event",
            ),
            HandleEventError::EventHandling { event } => String::from_str(
                "failed to handle event: ",
            ).concat(event.name()),
        }
    }
}

/// Turns the result of handling an event into the answer for its sender.
pub fn respond(result: Result<Option<String>, HandleEventError>) -> (response: Response)
    ensures
        response@ == response_for(result_text(result)),
{
    match result {
        Ok(Some(text)) => Response { status: STATUS_OK, body: Some(text) },
        Ok(None) => Response { status: STATUS_NO_CONTENT, body: None },
        Err(error) => Response {
            status: STATUS_INTERNAL_SERVER_ERROR,
            body: Some(error.failure_text()),
        },
    }
}

/// The answer to a request that is not taken as sent by the platform. It is
/// the same whatever was wrong with the request, and says nothing of it.
pub open spec fn refusal() -> ResponseView {
    ResponseView { status: STATUS_BAD_REQUEST, body: None }
}

/// Decides whether a request is let in: it is where its signature header
/// signs its body under `secret`. Where it is not, the answer to send back is
/// returned, and nothing of the request is to be decoded or handled.
pub fn check_signature(secret: &WebhookSecret, body: &[u8], signature: Option<&str>) -> (refused:
    Option<Response>)
    ensures
        match refused {
            None => verifies(secret@, body@, header_bytes(signature)),
            Some(response) => !verifies(secret@, body@, header_bytes(signature)) && response@
                == refusal(),
        },
{
    if verify(secret, body, signature) {
        None
    } else {
        Some(Response { status: STATUS_BAD_REQUEST, body: None })
    }
}

/// A request without a signature header is refused, whatever its body is.
pub proof fn lemma_unsigned_request_is_refused(secret: Seq<u8>, body: Seq<u8>)
    ensures
        !verifies(secret, body, None),
{
}

/// A ping that carries a zen text is answered with status 200 and that text
/// as the body, whatever its calls would have ended with.
pub proof fn lemma_ping_answer(event: WebhookEventView, acquired: bool, created: bool)
    requires
        event.kind() == WebhookEventType::Ping,
        event.specific->zen is Some,
    ensures
        response_for(outcome(event, acquired, created)) == (ResponseView {
            status: STATUS_OK,
            body: event.specific->zen,
        }),
{
}

/// An event that is no ping and names no installation is answered with
/// status 500 and the text for a missing installation.
pub proof fn lemma_missing_installation_answer(
    event: WebhookEventView,
    acquired: bool,
    created: bool,
)
    requires
        event.kind() != WebhookEventType::Ping,
        event.installation is None,
    ensures
        response_for(outcome(event, acquired, created)) == (ResponseView {
            status: STATUS_INTERNAL_SERVER_ERROR,
            body: Some(failure_text(HandleEventError::MissingInstallation)),
        }),
{
}

/// A pull request with an installation and a repository is answered with
/// status 204 and no body once its commit status has been created.
pub proof fn lemma_pull_request_answer(event: WebhookEventView)
    requires
        event.kind() == WebhookEventType::PullRequest,
        event.installation is Some,
        event.repository is Some,
    ensures
        response_for(outcome(event, true, true)) == (ResponseView {
            status: STATUS_NO_CONTENT,
            body: None,
        }),
{
}

/// A push and an event of a kind that has no reaction are answered with
/// status 204 and no body, where they name an installation and its client was
/// acquired.
pub proof fn lemma_unreacted_kinds_answer(event: WebhookEventView, created: bool)
    requires
        event.kind() == WebhookEventType::Push || event.kind() == WebhookEventType::CheckRun
            || event.kind() == WebhookEventType::Other,
        event.installation is Some,
    ensures
        response_for(outcome(event, true, created)) == (ResponseView {
            status: STATUS_NO_CONTENT,
            body: None,
        }),
{
}

/// Every failure is answered with status 500, and every answer has one of
/// the four statuses.
pub proof fn lemma_answer_statuses(result: Result<Option<Seq<char>>, HandleEventError>)
    ensures
        result is Err <==> response_for(result).status == STATUS_INTERNAL_SERVER_ERROR,
        result matches Ok(Some(_)) <==> response_for(result).status == STATUS_OK,
        result matches Ok(None) <==> response_for(result).status == STATUS_NO_CONTENT,
{
}

} // verus!
