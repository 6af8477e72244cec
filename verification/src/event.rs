//! Webhook events as the dispatcher reads them: the kind, who it is for, which
//! repository it concerns, and the few payload fields a reaction needs.

use vstd::prelude::*;

verus! {

/// The kinds of webhook event the dispatcher tells apart. Every kind it has
/// no reaction for is `Other`.
#[derive(Clone, Copy, Debug, PartialEq, Eq, Structural)]
pub enum WebhookEventType {
    Ping,
    PullRequest,
    Push,
    CheckRun,
    CheckSuite,
    Other,
}

impl WebhookEventType {
    /// The kind's name: that of its variant.
    pub open spec fn spec_name(self) -> Seq<char> {
        match self {
            WebhookEventType::Ping => "Ping"@,
            WebhookEventType::PullRequest => "PullRequest"@,
            WebhookEventType::Push => "Push"@,
            WebhookEventType::CheckRun => "CheckRun"@,
            WebhookEventType::CheckSuite => "CheckSuite"@,
            WebhookEventType::Other => "Other"@,
        }
    }

    /// The name under which the kind appears in messages.
    pub fn name(self) -> (name: &'static str)
        ensures
            name@ == self.spec_name(),
    {
        match self {
            WebhookEventType::Ping => "Ping",
            WebhookEventType::PullRequest => "PullRequest",
            WebhookEventType::Push => "Push",
            WebhookEventType::CheckRun => "CheckRun",
            WebhookEventType::CheckSuite => "CheckSuite",
            WebhookEventType::Other => "Other",
        }
    }
}

/// Identifies one installation of the application.
#[derive(Clone, Copy, Debug, PartialEq, Eq, Structural)]
pub struct InstallationId(pub u64);

/// The installation an event was sent for. The platform sends either the
/// whole installation record or only its identifier; both name the same thing.
#[derive(Clone, Copy, Debug, PartialEq, Eq, Structural)]
pub enum EventInstallation {
    Full(InstallationId),
    Minimal(InstallationId),
}

impl EventInstallation {
    /// The identifier that either form carries.
    pub open spec fn spec_id(self) -> InstallationId {
        match self {
            EventInstallation::Full(id) => id,
            EventInstallation::Minimal(id) => id,
        }
    }

    /// The installation's identifier, whichever form the event carried.
    #[verifier::when_used_as_spec(spec_id)]
    pub fn id(self) -> (id: InstallationId)
        ensures
            id == self.spec_id(),
    {
        match self {
            EventInstallation::Full(id) => id,
            EventInstallation::Minimal(id) => id,
        }
    }
}

/// The text of an optional string.
pub open spec fn text_of(s: Option<String>) -> Option<Seq<char>> {
    match s {
        Some(t) => Some(t@),
        None => None,
    }
}

/// The repository an event concerns.
#[derive(Clone, Debug, PartialEq, Eq)]
pub struct Repository {
    /// Login of the account that owns the repository, where the event names one.
    pub owner: Option<String>,
    pub name: String,
}

/// A repository as its texts.
pub struct RepositoryView {
    pub owner: Option<Seq<char>>,
    pub name: Seq<char>,
}

impl View for Repository {
    type V = RepositoryView;

    open spec fn view(&self) -> RepositoryView {
        RepositoryView { owner: text_of(self.owner), name: self.name@ }
    }
}

/// What an event carries beyond the common fields. Only what a reaction reads
/// is kept.
#[derive(Clone, Debug, PartialEq, Eq)]
pub enum WebhookEventPayload {
    Ping { zen: Option<String> },
    PullRequest { head_sha: String },
    Push,
    CheckRun,
    CheckSuite,
    Other,
}

/// A payload as its texts.
pub enum WebhookEventPayloadView {
    Ping { zen: Option<Seq<char>> },
    PullRequest { head_sha: Seq<char> },
    Push,
    CheckRun,
    CheckSuite,
    Other,
}

impl WebhookEventPayloadView {
    /// The kind of event that a payload belongs to.
    pub open spec fn kind(self) -> WebhookEventType {
        match self {
            WebhookEventPayloadView::Ping { .. } => WebhookEventType::Ping,
            WebhookEventPayloadView::PullRequest { .. } => WebhookEventType::PullRequest,
            WebhookEventPayloadView::Push => WebhookEventType::Push,
            WebhookEventPayloadView::CheckRun => WebhookEventType::CheckRun,
            WebhookEventPayloadView::CheckSuite => WebhookEventType::CheckSuite,
            WebhookEventPayloadView::Other => WebhookEventType::Other,
        }
    }
}

impl View for WebhookEventPayload {
    type V = WebhookEventPayloadView;

    open spec fn view(&self) -> WebhookEventPayloadView {
        match self {
            WebhookEventPayload::Ping { zen } => WebhookEventPayloadView::Ping {
                zen: text_of(*zen),
            },
            WebhookEventPayload::PullRequest { head_sha } => WebhookEventPayloadView::PullRequest {
                head_sha: head_sha@,
            },
            WebhookEventPayload::Push => WebhookEventPayloadView::Push,
            WebhookEventPayload::CheckRun => WebhookEventPayloadView::CheckRun,
            WebhookEventPayload::CheckSuite => WebhookEventPayloadView::CheckSuite,
            WebhookEventPayload::Other => WebhookEventPayloadView::Other,
        }
    }
}

impl WebhookEventPayload {
    /// The kind of event this payload belongs to.
    pub fn kind(&self) -> (kind: WebhookEventType)
        ensures
            kind == self@.kind(),
    {
        match self {
            WebhookEventPayload::Ping { .. } => WebhookEventType::Ping,
            WebhookEventPayload::PullRequest { .. } => WebhookEventType::PullRequest,
            WebhookEventPayload::Push => WebhookEventType::Push,
            WebhookEventPayload::CheckRun => WebhookEventType::CheckRun,
            WebhookEventPayload::CheckSuite => WebhookEventType::CheckSuite,
            WebhookEventPayload::Other => WebhookEventType::Other,
        }
    }
}

/// One decoded webhook event.
#[derive(Clone, Debug, PartialEq, Eq)]
pub struct WebhookEvent {
    pub installation: Option<EventInstallation>,
    pub repository: Option<Repository>,
    pub specific: WebhookEventPayload,
}

/// An event as its texts.
pub struct WebhookEventView {
    pub installation: Option<EventInstallation>,
    pub repository: Option<RepositoryView>,
    pub specific: WebhookEventPayloadView,
}

impl WebhookEventView {
    /// The event's kind, which its payload determines.
    pub open spec fn kind(self) -> WebhookEventType {
        self.specific.kind()
    }
}

impl View for WebhookEvent {
    type V = WebhookEventView;

    open spec fn view(&self) -> WebhookEventView {
        WebhookEventView {
            installation: self.installation,
            repository: match self.repository {
                Some(r) => Some(r@),
                None => None,
            },
            specific: self.specific@,
        }
    }
}

impl WebhookEvent {
    /// The event's kind, which its payload determines.
    pub fn kind(&self) -> (kind: WebhookEventType)
        ensures
            kind == self@.kind(),
    {
        self.specific.kind()
    }
}

} // verus!
