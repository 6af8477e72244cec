use github_event_handler::event::{
    EventInstallation, InstallationId, Repository, WebhookEvent, WebhookEventPayload,
    WebhookEventType,
};
use github_event_handler::handle::{handle_event, Dispatch, HandleEventError};
use github_event_handler::response::respond;

fn repository() -> Repository {
    Repository { owner: Some("octocat".to_string()), name: "hello-world".to_string() }
}

fn event(specific: WebhookEventPayload) -> WebhookEvent {
    WebhookEvent {
        installation: Some(EventInstallation::Full(InstallationId(42))),
        repository: Some(repository()),
        specific,
    }
}

fn pull_request() -> WebhookEventPayload {
    WebhookEventPayload::PullRequest { head_sha: "abc123".to_string() }
}

/// Drives a dispatch to its end and counts the calls it asked for.
fn run(
    event: WebhookEvent,
    acquired: bool,
    created: bool,
) -> (Result<Option<String>, HandleEventError>, usize, usize) {
    let mut exchanges = 0;
    let mut statuses = 0;
    let mut dispatch = handle_event(event);
    loop {
        dispatch = match dispatch {
            Dispatch::Finished(result) => return (result, exchanges, statuses),
            Dispatch::Authenticating { .. } => {
                exchanges += 1;
                dispatch.resume(acquired)
            }
            Dispatch::CreatingStatus { .. } => {
                statuses += 1;
                dispatch.resume(created)
            }
        };
        assert!(exchanges + statuses <= 2);
    }
}

#[test]
fn ping_returns_its_zen() {
    let zen = "Half measures are as bad as nothing at all.";
    let ping = event(WebhookEventPayload::Ping { zen: Some(zen.to_string()) });
    assert_eq!(ping.kind(), WebhookEventType::Ping);
    assert_eq!(run(ping, true, true), (Ok(Some(zen.to_string())), 0, 0));
}

#[test]
fn ping_without_installation_returns_its_zen() {
    let ping = WebhookEvent {
        installation: None,
        repository: None,
        specific: WebhookEventPayload::Ping { zen: Some("Keep it logically awesome.".to_string()) },
    };
    assert_eq!(
        handle_event(ping),
        Dispatch::Finished(Ok(Some("Keep it logically awesome.".to_string())))
    );
}

#[test]
fn ping_without_zen_has_nothing_to_say() {
    let ping = event(WebhookEventPayload::Ping { zen: None });
    assert_eq!(run(ping, false, false), (Ok(None), 0, 0));
}

#[test]
fn same_ping_twice_gives_the_same_result() {
    let ping = event(WebhookEventPayload::Ping { zen: Some("Design for failure.".to_string()) });
    let first = run(ping.clone(), true, true);
    let second = run(ping, false, false);
    assert_eq!(first, second);
    assert_eq!(first.0, Ok(Some("Design for failure.".to_string())));
}

#[test]
fn same_event_twice_asks_for_the_same_calls() {
    let first = handle_event(event(pull_request()));
    let second = handle_event(event(pull_request()));
    assert_eq!(first, second);
    assert_eq!(first.resume(true), second.resume(true));
}

#[test]
fn missing_installation_fails_without_a_call() {
    let payloads = [
        pull_request(),
        WebhookEventPayload::Push,
        WebhookEventPayload::CheckRun,
        WebhookEventPayload::CheckSuite,
        WebhookEventPayload::Other,
    ];
    for specific in payloads {
        let event = WebhookEvent { installation: None, repository: Some(repository()), specific };
        let (result, exchanges, statuses) = run(event, true, true);
        assert_eq!(result, Err(HandleEventError::MissingInstallation));
        assert_eq!((exchanges, statuses), (0, 0));
        let response = respond(result);
        assert_eq!(response.status, 500);
        assert_eq!(response.body, Some("missing installation in the event".to_string()));
    }
}

#[test]
fn full_and_minimal_installation_name_the_same_client() {
    for installation in [
        EventInstallation::Full(InstallationId(7)),
        EventInstallation::Minimal(InstallationId(7)),
    ] {
        assert_eq!(installation.id(), InstallationId(7));
        let event = WebhookEvent {
            installation: Some(installation),
            repository: None,
            specific: WebhookEventPayload::Push,
        };
        match handle_event(event) {
            Dispatch::Authenticating { installation, .. } => {
                assert_eq!(installation, InstallationId(7))
            }
            other => panic!("expected an exchange, got {other:?}"),
        }
    }
}

#[test]
fn failed_authentication_fails_the_event() {
    let (result, exchanges, statuses) = run(event(pull_request()), false, true);
    assert_eq!(result, Err(HandleEventError::InstallationAuthentication));
    assert_eq!((exchanges, statuses), (1, 0));
    let response = respond(result);
    assert_eq!(response.status, 500);
    assert_eq!(response.body, Some("unable to access installation".to_string()));
}

#[test]
fn pull_request_creates_one_status_for_its_head() {
    let dispatch = handle_event(event(pull_request()));
    let dispatch = match dispatch {
        Dispatch::Authenticating { installation, .. } => {
            assert_eq!(installation, InstallationId(42));
            dispatch.resume(true)
        }
        other => panic!("expected an exchange, got {other:?}"),
    };
    assert_eq!(
        dispatch,
        Dispatch::CreatingStatus {
            kind: WebhookEventType::PullRequest,
            repository: repository(),
            sha: "abc123".to_string(),
        }
    );
    assert_eq!(dispatch.resume(true), Dispatch::Finished(Ok(None)));

    let (result, exchanges, statuses) = run(event(pull_request()), true, true);
    assert_eq!((exchanges, statuses), (1, 1));
    let response = respond(result);
    assert_eq!(response.status, 204);
    assert_eq!(response.body, None);
}

#[test]
fn failed_status_fails_as_a_pull_request() {
    let (result, exchanges, statuses) = run(event(pull_request()), true, false);
    assert_eq!(
        result,
        Err(HandleEventError::EventHandling { event: WebhookEventType::PullRequest })
    );
    assert_eq!((exchanges, statuses), (1, 1));
    let response = respond(result);
    assert_eq!(response.status, 500);
    assert_eq!(response.body, Some("failed to handle event: PullRequest".to_string()));
}

#[test]
fn pull_request_without_repository_fails_after_the_exchange() {
    let event = WebhookEvent {
        installation: Some(EventInstallation::Minimal(InstallationId(1))),
        repository: None,
        specific: pull_request(),
    };
    let (result, exchanges, statuses) = run(event, true, true);
    assert_eq!(result, Err(HandleEventError::MissingRepository));
    assert_eq!((exchanges, statuses), (1, 0));
    let response = respond(result);
    assert_eq!(response.status, 500);
    assert_eq!(response.body, Some("missing repository parent in the event".to_string()));
}

#[test]
fn check_suite_needs_a_repository_but_does_nothing() {
    let with = event(WebhookEventPayload::CheckSuite);
    assert_eq!(run(with, true, true), (Ok(None), 1, 0));
    let without = WebhookEvent {
        installation: Some(EventInstallation::Minimal(InstallationId(1))),
        repository: None,
        specific: WebhookEventPayload::CheckSuite,
    };
    assert_eq!(run(without, true, true), (Err(HandleEventError::MissingRepository), 1, 0));
}

#[test]
fn push_check_run_and_other_kinds_do_nothing() {
    for specific in
        [WebhookEventPayload::Push, WebhookEventPayload::CheckRun, WebhookEventPayload::Other]
    {
        for repository in [None, Some(repository())] {
            let event = WebhookEvent {
                installation: Some(EventInstallation::Minimal(InstallationId(3))),
                repository,
                specific: specific.clone(),
            };
            let (result, exchanges, statuses) = run(event, true, true);
            assert_eq!(result, Ok(None));
            assert_eq!((exchanges, statuses), (1, 0));
            let response = respond(result);
            assert_eq!(response.status, 204);
            assert_eq!(response.body, None);
        }
    }
}

#[test]
fn a_finished_dispatch_stays_as_it_is() {
    let finished = Dispatch::Finished(Err(HandleEventError::MissingRepository));
    assert_eq!(finished.resume(true), Dispatch::Finished(Err(HandleEventError::MissingRepository)));
    let finished = Dispatch::Finished(Ok(Some("zen".to_string())));
    assert_eq!(finished.resume(false), Dispatch::Finished(Ok(Some("zen".to_string()))));
}

#[test]
fn kinds_follow_the_payload() {
    assert_eq!(event(pull_request()).kind(), WebhookEventType::PullRequest);
    assert_eq!(event(WebhookEventPayload::Push).kind(), WebhookEventType::Push);
    assert_eq!(event(WebhookEventPayload::CheckRun).kind(), WebhookEventType::CheckRun);
    assert_eq!(event(WebhookEventPayload::CheckSuite).kind(), WebhookEventType::CheckSuite);
    assert_eq!(event(WebhookEventPayload::Other).kind(), WebhookEventType::Other);
    assert_eq!(WebhookEventType::CheckSuite.name(), "CheckSuite");
    assert_eq!(WebhookEventType::Other.name(), "Other");
}

#[test]
fn answers_carry_status_and_text() {
    let ok = respond(Ok(Some("pong".to_string())));
    assert_eq!((ok.status, ok.body), (200, Some("pong".to_string())));
    let empty = respond(Ok(None));
    assert_eq!((empty.status, empty.body), (204, None));
    assert_eq!(
        HandleEventError::EventHandling { event: WebhookEventType::Push }.failure_text(),
        "failed to handle event: Push"
    );
}
