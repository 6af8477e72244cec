//! The event dispatcher: which calls to the platform an event needs, in what
//! order, and what the handling of the event ends with.
//!
//! The dispatcher makes no call itself. It is a state machine that its driver
//! advances: the driver performs the call that the current state asks for and
//! reports whether it succeeded.

use crate::event::{
    text_of, InstallationId, Repository, RepositoryView, WebhookEvent, WebhookEventPayload,
    WebhookEventPayloadView, WebhookEventType, WebhookEventView,
};
use vstd::prelude::*;

verus! {

/// Why the handling of an event failed.
#[derive(Clone, Copy, Debug, PartialEq, Eq, Structural)]
pub enum HandleEventError {
    /// The event names no installation, and its kind needs one.
    MissingInstallation,
    /// No client could be acquired for the event's installation.
    InstallationAuthentication,
    /// The event names no repository, and its kind needs one.
    MissingRepository,
    /// The reaction to an event of this kind failed.
    EventHandling { event: WebhookEventType },
}

/// Where the handling of one event stands, and with it what has to happen next.
#[derive(Debug, PartialEq, Eq)]
pub enum Dispatch {
    /// A client for `installation` has to be acquired.
    Authenticating { event: WebhookEvent, installation: InstallationId },
    /// A commit status for `sha` has to be created in `repository`.
    CreatingStatus { kind: WebhookEventType, repository: Repository, sha: String },
    /// Nothing is left to do.
    Finished(Result<Option<String>, HandleEventError>),
}

/// A state of a dispatch as its texts.
pub enum DispatchView {
    Authenticating { event: WebhookEventView, installation: InstallationId },
    CreatingStatus { kind: WebhookEventType, repository: RepositoryView, sha: Seq<char> },
    Finished(Result<Option<Seq<char>>, HandleEventError>),
}

impl View for Dispatch {
    type V = DispatchView;

    open spec fn view(&self) -> DispatchView {
        match self {
            Dispatch::Authenticating { event, installation } => DispatchView::Authenticating {
                event: event@,
                installation: *installation,
            },
            Dispatch::CreatingStatus { kind, repository, sha } => DispatchView::CreatingStatus {
                kind: *kind,
                repository: repository@,
                sha: sha@,
            },
            Dispatch::Finished(Ok(text)) => DispatchView::Finished(Ok(text_of(*text))),
            Dispatch::Finished(Err(e)) => DispatchView::Finished(Err(*e)),
        }
    }
}

/// The state in which the handling of `event` starts.
///
/// A ping is answered with its zen text at once. Every other event needs an
/// installation, for which a client is acquired first.
pub open spec fn begin(event: WebhookEventView) -> DispatchView {
    match event.specific {
        WebhookEventPayloadView::Ping { zen } => DispatchView::Finished(Ok(zen)),
        _ => match event.installation {
            None => DispatchView::Finished(Err(HandleEventError::MissingInstallation)),
            Some(installation) => DispatchView::Authenticating {
                event,
                installation: installation.id(),
            },
        },
    }
}

/// The state that follows once the installation's client has been acquired.
pub open spec fn authenticated(event: WebhookEventView) -> DispatchView {
    match event.specific {
        WebhookEventPayloadView::Ping { zen } => DispatchView::Finished(Ok(zen)),
        WebhookEventPayloadView::PullRequest { head_sha } => match event.repository {
            None => DispatchView::Finished(Err(HandleEventError::MissingRepository)),
            Some(repository) => DispatchView::CreatingStatus {
                kind: WebhookEventType::PullRequest,
                repository,
                sha: head_sha,
            },
        },
        WebhookEventPayloadView::CheckSuite => match event.repository {
            None => DispatchView::Finished(Err(HandleEventError::MissingRepository)),
            Some(_) => DispatchView::Finished(Ok(None)),
        },
        WebhookEventPayloadView::Push
        | WebhookEventPayloadView::CheckRun
        | WebhookEventPayloadView::Other => DispatchView::Finished(Ok(None)),
    }
}

/// The state that follows `state` once the call it asked for has succeeded or
/// failed. A finished dispatch stays as it is.
pub open spec fn step(state: DispatchView, succeeded: bool) -> DispatchView {
    match state {
        DispatchView::Authenticating { event, .. } => if succeeded {
            authenticated(event)
        } else {
            DispatchView::Finished(Err(HandleEventError::InstallationAuthentication))
        },
        DispatchView::CreatingStatus { kind, .. } => if succeeded {
            DispatchView::Finished(Ok(None))
        } else {
            DispatchView::Finished(Err(HandleEventError::EventHandling { event: kind }))
        },
        DispatchView::Finished(result) => DispatchView::Finished(result),
    }
}

/// Starts the handling of `event`.
pub fn handle_event(event: WebhookEvent) -> (dispatch: Dispatch)
    ensures
        dispatch@ == begin(event@),
{
    let WebhookEvent { installation, repository, specific } = event;
    match specific {
        WebhookEventPayload::Ping { zen } => Dispatch::Finished(Ok(zen)),
        specific => match installation {
            None => Dispatch::Finished(Err(HandleEventError::MissingInstallation)),
            Some(found) => Dispatch::Authenticating {
                event: WebhookEvent { installation, repository, specific },
                installation: found.id(),
            },
        },
    }
}

impl Dispatch {
    /// Continues after the call that this state asked for: `succeeded` says
    /// how the call ended.
    pub fn resume(self, succeeded: bool) -> (next: Dispatch)
        ensures
            next@ == step(self@, succeeded),
    {
        match self {
            Dispatch::Authenticating { event, .. } => {
                if !succeeded {
                    return Dispatch::Finished(Err(HandleEventError::InstallationAuthentication));
                }
                match event.specific {
                    WebhookEventPayload::Ping { zen } => Dispatch::Finished(Ok(zen)),
                    WebhookEventPayload::PullRequest { head_sha } => match event.repository {
                        None => Dispatch::Finished(Err(HandleEventError::MissingRepository)),
                        Some(repository) => Dispatch::CreatingStatus {
                            kind: WebhookEventType::PullRequest,
                            repository,
                            sha: head_sha,
                        },
                    },
                    WebhookEventPayload::CheckSuite => match event.repository {
                        None => Dispatch::Finished(Err(HandleEventError::MissingRepository)),
                        Some(_) => Dispatch::Finished(Ok(None)),
                    },
                    WebhookEventPayload::Push
                    | WebhookEventPayload::CheckRun
                    | WebhookEventPayload::Other => Dispatch::Finished(Ok(None)),
                }
            },
            Dispatch::CreatingStatus { kind, .. } => {
                if succeeded {
                    Dispatch::Finished(Ok(None))
                } else {
                    Dispatch::Finished(Err(HandleEventError::EventHandling { event: kind }))
                }
            },
            Dispatch::Finished(result) => Dispatch::Finished(result),
        }
    }
}

/// A call to the platform.
pub enum Call {
    /// The exchange of an installation's identifier for a client.
    AcquireClient { installation: InstallationId },
    /// The creation of a commit status.
    CreateCommitStatus { repository: RepositoryView, sha: Seq<char> },
}

/// The call that `state` waits for, if it waits for one.
pub open spec fn awaited(state: DispatchView) -> Option<Call> {
    match state {
        DispatchView::Authenticating { installation, .. } => Some(
            Call::AcquireClient { installation },
        ),
        DispatchView::CreatingStatus { repository, sha, .. } => Some(
            Call::CreateCommitStatus { repository, sha },
        ),
        DispatchView::Finished(_) => None,
    }
}

/// The calls that the handling of `event` makes, in order, where acquiring
/// the client ends as `acquired` says.
pub open spec fn calls(event: WebhookEventView, acquired: bool) -> Seq<Call> {
    let first = begin(event);
    let second = step(first, acquired);
    match (awaited(first), awaited(second)) {
        (Some(a), Some(b)) => seq![a, b],
        (Some(a), None) => seq![a],
        (None, Some(b)) => seq![b],
        (None, None) => seq![],
    }
}

/// What the handling of `event` ends with, where acquiring the client ends
/// as `acquired` says and creating the commit status as `created` says.
pub open spec fn outcome(event: WebhookEventView, acquired: bool, created: bool) -> Result<
    Option<Seq<char>>,
    HandleEventError,
> {
    match step(step(begin(event), acquired), created) {
        DispatchView::Finished(result) => result,
        _ => Err(HandleEventError::MissingInstallation),
    }
}

/// The handling of an event makes at most two calls and then has a result:
/// first, if at all, the client is acquired, then, if at all, one commit
/// status is created.
pub proof fn lemma_dispatch_ends(event: WebhookEventView, acquired: bool, created: bool)
    ensures
        !(begin(event) is CreatingStatus),
        !(step(begin(event), acquired) is Authenticating),
        step(step(begin(event), acquired), created) == DispatchView::Finished(
            outcome(event, acquired, created),
        ),
        calls(event, acquired).len() <= 2,
{
}

/// A ping is answered with its zen text, whatever else it carries, and no
/// call is made for it. Handling the same ping again gives the same answer.
pub proof fn lemma_ping_is_answered(event: WebhookEventView, acquired: bool, created: bool)
    requires
        event.kind() == WebhookEventType::Ping,
    ensures
        begin(event) == DispatchView::Finished(Ok(event.specific->zen)),
        outcome(event, acquired, created) == Ok::<Option<Seq<char>>, HandleEventError>(
            event.specific->zen,
        ),
        calls(event, acquired) == Seq::<Call>::empty(),
{
    assert(calls(event, acquired) =~= Seq::<Call>::empty());
}

/// What the handling of an event ends with depends on the event and on how
/// its calls ended, and on nothing else: two events with the same content,
/// handled with the same outcomes of their calls, end alike and make the same
/// calls.
pub proof fn lemma_dispatch_is_repeatable(
    first: WebhookEvent,
    second: WebhookEvent,
    acquired: bool,
    created: bool,
)
    requires
        first@ == second@,
    ensures
        begin(first@) == begin(second@),
        outcome(first@, acquired, created) == outcome(second@, acquired, created),
        calls(first@, acquired) == calls(second@, acquired),
{
}

/// An event that is no ping and names no installation fails for want of it,
/// and no call is made.
pub proof fn lemma_missing_installation_fails(
    event: WebhookEventView,
    acquired: bool,
    created: bool,
)
    requires
        event.kind() != WebhookEventType::Ping,
        event.installation is None,
    ensures
        outcome(event, acquired, created) == Err::<Option<Seq<char>>, HandleEventError>(
            HandleEventError::MissingInstallation,
        ),
        calls(event, acquired) == Seq::<Call>::empty(),
{
    assert(calls(event, acquired) =~= Seq::<Call>::empty());
}

/// Where no client can be acquired the handling fails on that account, and
/// nothing is called after the failed exchange.
pub proof fn lemma_failed_authentication_fails(event: WebhookEventView, created: bool)
    requires
        event.kind() != WebhookEventType::Ping,
        event.installation is Some,
    ensures
        outcome(event, false, created) == Err::<Option<Seq<char>>, HandleEventError>(
            HandleEventError::InstallationAuthentication,
        ),
        calls(event, false) == seq![
            Call::AcquireClient { installation: event.installation->0.id() },
        ],
{
    assert(calls(event, false) =~= seq![
        Call::AcquireClient { installation: event.installation->0.id() },
    ]);
}

/// A pull request with an installation and a repository leads to exactly one
/// commit status, for the head commit of the pull request in that repository,
/// after the installation's client has been acquired. It ends without a text
/// where the status is created, and fails as a pull request where it is not.
pub proof fn lemma_pull_request_creates_one_status(event: WebhookEventView, created: bool)
    requires
        event.kind() == WebhookEventType::PullRequest,
        event.installation is Some,
        event.repository is Some,
    ensures
        calls(event, true) == seq![
            Call::AcquireClient { installation: event.installation->0.id() },
            Call::CreateCommitStatus {
                repository: event.repository->0,
                sha: event.specific->head_sha,
            },
        ],
        outcome(event, true, true) == Ok::<Option<Seq<char>>, HandleEventError>(None),
        outcome(event, true, false) == Err::<Option<Seq<char>>, HandleEventError>(
            HandleEventError::EventHandling { event: WebhookEventType::PullRequest },
        ),
{
    assert(calls(event, true) =~= seq![
        Call::AcquireClient { installation: event.installation->0.id() },
        Call::CreateCommitStatus {
            repository: event.repository->0,
            sha: event.specific->head_sha,
        },
    ]);
}

/// A pull request or a check suite that names no repository fails for want of
/// it once the client has been acquired, and no commit status is created.
pub proof fn lemma_missing_repository_fails(event: WebhookEventView, created: bool)
    requires
        event.kind() == WebhookEventType::PullRequest || event.kind()
            == WebhookEventType::CheckSuite,
        event.installation is Some,
        event.repository is None,
    ensures
        outcome(event, true, created) == Err::<Option<Seq<char>>, HandleEventError>(
            HandleEventError::MissingRepository,
        ),
        calls(event, true) == seq![
            Call::AcquireClient { installation: event.installation->0.id() },
        ],
{
    assert(calls(event, true) =~= seq![
        Call::AcquireClient { installation: event.installation->0.id() },
    ]);
}

/// Only a pull request leads to a commit status: for an event of any other
/// kind none is ever created.
pub proof fn lemma_only_pull_requests_create_a_status(event: WebhookEventView, acquired: bool)
    requires
        event.kind() != WebhookEventType::PullRequest,
    ensures
        !(step(begin(event), acquired) is CreatingStatus),
        forall|i: int|
            0 <= i < calls(event, acquired).len() ==> !(#[trigger] calls(event, acquired)[i]
                is CreateCommitStatus),
{
}

/// A push, a check run and an event of a kind that has no reaction end
/// without a text once the installation's client has been acquired; so does
/// a check suite that names a repository.
pub proof fn lemma_unreacted_kinds_end_empty(event: WebhookEventView, created: bool)
    requires
        event.installation is Some,
        event.kind() == WebhookEventType::Push || event.kind() == WebhookEventType::CheckRun
            || event.kind() == WebhookEventType::Other || (event.kind()
            == WebhookEventType::CheckSuite && event.repository is Some),
    ensures
        outcome(event, true, created) == Ok::<Option<Seq<char>>, HandleEventError>(None),
{
}

} // verus!
