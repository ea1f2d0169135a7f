use azure_ecs_rs::credentials::{
    AuthError, CachedToken, Credential, MaterialDecision, TokenCache, TokenDecision,
};
use azure_ecs_rs::signer::AuthMaterial;
use azure_ecs_rs::dispatch::{interpret_submit, is_success, submit_path, DispatchError, SubmitBody};
use azure_ecs_rs::models::{
    EmailSendStatus, EmailSendStatusType, ErrorDetail, ErrorResponse, SentEmailResponse,
};
use azure_ecs_rs::tracker::{Completion, OperationTracker, PollEvent, PollOutcome};

fn observed(status: EmailSendStatusType) -> PollEvent {
    PollEvent::Observed { status, error: None }
}

fn detail(code: &str) -> ErrorDetail {
    ErrorDetail {
        additional_info: None,
        code: Some(code.to_string()),
        message: Some("m".to_string()),
        target: None,
    }
}

#[test]
fn concurrent_callers_share_one_refresh() {
    let mut cache = TokenCache::new(60);
    assert!(matches!(cache.acquire(1000), TokenDecision::Refresh));
    assert!(matches!(cache.acquire(1001), TokenDecision::Wait));
    assert!(matches!(cache.acquire(1002), TokenDecision::Wait));
    let r = cache.complete_refresh(Ok(CachedToken {
        access_token: "t1".to_string(),
        expires_at: 5000,
    }));
    assert_eq!(r.unwrap(), "t1");
    for now in [1003u64, 2000, 4939] {
        match cache.acquire(now) {
            TokenDecision::Use(t) => assert_eq!(t, "t1"),
            other => panic!("unexpected {:?}", other),
        }
    }
}

#[test]
fn expired_token_triggers_exactly_one_exchange() {
    let mut cache = TokenCache::new(60);
    assert!(matches!(cache.acquire(0), TokenDecision::Refresh));
    cache
        .complete_refresh(Ok(CachedToken { access_token: "t1".to_string(), expires_at: 100 }))
        .unwrap();
    // Within the safety margin the token counts as expired.
    assert!(matches!(cache.acquire(40), TokenDecision::Refresh));
    assert!(matches!(cache.acquire(41), TokenDecision::Wait));
    assert!(matches!(cache.acquire(200), TokenDecision::Wait));
    cache
        .complete_refresh(Ok(CachedToken { access_token: "t2".to_string(), expires_at: 500 }))
        .unwrap();
    match cache.acquire(201) {
        TokenDecision::Use(t) => assert_eq!(t, "t2"),
        other => panic!("unexpected {:?}", other),
    }
}

#[test]
fn failed_exchange_is_reported_and_retried_on_next_call() {
    let mut cache = TokenCache::new(0);
    assert!(matches!(cache.acquire(5), TokenDecision::Refresh));
    let r = cache.complete_refresh(Err(AuthError { reason: "denied".to_string() }));
    assert_eq!(r.unwrap_err().reason, "denied");
    assert!(cache.token.is_none());
    assert!(matches!(cache.acquire(6), TokenDecision::Refresh));
}

#[test]
fn scripted_polls_reach_success_once() {
    let mut t = OperationTracker::new("op-1".to_string(), None, EmailSendStatusType::NotStarted, 10);
    let script = [
        EmailSendStatusType::NotStarted,
        EmailSendStatusType::Running,
        EmailSendStatusType::Running,
        EmailSendStatusType::Succeeded,
    ];
    let mut seen = Vec::new();
    let mut completions = Vec::new();
    for s in script {
        assert!(!t.completed);
        let step = t.on_poll(observed(s));
        seen.push(step.status);
        if step.outcome != PollOutcome::PollAgain {
            completions.push((step.status, step.outcome));
        }
    }
    assert_eq!(seen, script.to_vec());
    assert_eq!(completions, vec![(EmailSendStatusType::Succeeded, PollOutcome::Completed)]);
    assert!(t.completed);
    assert_eq!(t.status, EmailSendStatusType::Succeeded);
    assert_eq!(t.operation_id, "op-1");
}

#[test]
fn failed_status_completes_with_its_error() {
    let mut t = OperationTracker::new("op".to_string(), None, EmailSendStatusType::Running, 5);
    let step = t.on_poll(PollEvent::Observed {
        status: EmailSendStatusType::Failed,
        error: Some(detail("Bad")),
    });
    assert_eq!(step.outcome, PollOutcome::Completed);
    assert_eq!(step.status, EmailSendStatusType::Failed);
    assert_eq!(step.error.unwrap().code.as_deref(), Some("Bad"));
    assert!(t.completed);
}

#[test]
fn poll_failure_resolves_with_tracking_error() {
    let mut t = OperationTracker::new("op".to_string(), None, EmailSendStatusType::Running, 5);
    let step = t.on_poll(observed(EmailSendStatusType::Running));
    assert_eq!(step.outcome, PollOutcome::PollAgain);
    let step = t.on_poll(PollEvent::Failed(detail("Transport")));
    assert_eq!(step.status, EmailSendStatusType::Unknown);
    assert_eq!(step.outcome, PollOutcome::TrackingFailed);
    assert_eq!(step.error.unwrap().code.as_deref(), Some("Transport"));
    assert!(t.completed);
    assert_eq!(t.polls, 2);
}

#[test]
fn never_terminal_polls_time_out_at_bound() {
    let mut t = OperationTracker::new("op".to_string(), None, EmailSendStatusType::NotStarted, 3);
    let mut outcomes = Vec::new();
    while !t.completed {
        outcomes.push(t.on_poll(observed(EmailSendStatusType::Running)).outcome);
    }
    assert_eq!(
        outcomes,
        vec![PollOutcome::PollAgain, PollOutcome::PollAgain, PollOutcome::TimedOut]
    );
    assert_eq!(t.polls, 3);
}

#[test]
fn unknown_status_keeps_polling() {
    let mut t = OperationTracker::new("op".to_string(), None, EmailSendStatusType::NotStarted, 2);
    let s = t.on_poll(observed(EmailSendStatusType::parse("Bogus")));
    assert_eq!(s.status, EmailSendStatusType::Unknown);
    assert_eq!(s.outcome, PollOutcome::PollAgain);
}

#[test]
fn accepted_submission_starts_tracking() {
    let body = SubmitBody::Ack(SentEmailResponse {
        id: Some("op-9".to_string()),
        status: Some(EmailSendStatus(EmailSendStatusType::Running)),
        error: None,
    });
    let t = interpret_submit(202, body, Some("https://h/emails/operations/op-9".to_string()), 4)
        .unwrap();
    assert_eq!(t.operation_id, "op-9");
    assert_eq!(t.status_url.as_deref(), Some("https://h/emails/operations/op-9"));
    assert_eq!(t.status, EmailSendStatusType::Running);
    assert_eq!(t.polls, 0);
    assert!(!t.completed);
    let body = SubmitBody::Ack(SentEmailResponse { id: Some("x".to_string()), status: None, error: None });
    assert_eq!(interpret_submit(200, body, None, 4).unwrap().status, EmailSendStatusType::NotStarted);
}

#[test]
fn accepted_submission_without_id_is_refused() {
    let body = SubmitBody::Ack(SentEmailResponse { id: None, status: None, error: None });
    assert!(matches!(interpret_submit(202, body, None, 4), Err(DispatchError::MissingOperationId)));
    assert!(matches!(
        interpret_submit(202, SubmitBody::Unreadable, None, 4),
        Err(DispatchError::MissingOperationId)
    ));
}

#[test]
fn refused_submission_carries_remote_error() {
    let body = SubmitBody::Error(ErrorResponse { error: Some(detail("InvalidSender")) });
    match interpret_submit(400, body, None, 4) {
        Err(DispatchError::Remote(d)) => assert_eq!(d.code.as_deref(), Some("InvalidSender")),
        other => panic!("unexpected {:?}", other),
    }
    match interpret_submit(503, SubmitBody::Unreadable, None, 4) {
        Err(DispatchError::Remote(d)) => assert!(d.code.is_none() && d.message.is_none()),
        other => panic!("unexpected {:?}", other),
    }
}

#[test]
fn submit_path_and_success_codes() {
    assert_eq!(submit_path("2023-03-31"), "/emails:send?api-version=2023-03-31");
    assert!(is_success(200));
    assert!(is_success(202));
    assert!(!is_success(199));
    assert!(!is_success(300));
    assert!(!is_success(401));
}

#[test]
fn steps_resolve_the_matching_completion() {
    let mut t = OperationTracker::new("op".to_string(), None, EmailSendStatusType::NotStarted, 2);
    assert!(t.on_poll(observed(EmailSendStatusType::Running)).completion().is_none());
    match t.on_poll(observed(EmailSendStatusType::Running)).completion() {
        Some(Completion::PollTimeout) => {}
        other => panic!("unexpected {:?}", other),
    }
    let mut t = OperationTracker::new("op".to_string(), None, EmailSendStatusType::NotStarted, 2);
    match t.on_poll(observed(EmailSendStatusType::Canceled)).completion() {
        Some(Completion::Finished { status, error }) => {
            assert_eq!(status, EmailSendStatusType::Canceled);
            assert!(error.is_none());
        }
        other => panic!("unexpected {:?}", other),
    }
    let mut t = OperationTracker::new("op".to_string(), None, EmailSendStatusType::NotStarted, 2);
    match t.on_poll(PollEvent::Failed(detail("Auth"))).completion() {
        Some(Completion::TrackingFailed(Some(d))) => assert_eq!(d.code.as_deref(), Some("Auth")),
        other => panic!("unexpected {:?}", other),
    }
}

#[test]
fn credential_variants_supply_their_material() {
    let mut shared = Credential::SharedKey("c2VjcmV0".to_string());
    match shared.auth_material(10) {
        MaterialDecision::Ready(AuthMaterial::SharedKey(k)) => assert_eq!(k, "c2VjcmV0"),
        other => panic!("unexpected {:?}", other),
    }
    let mut sp = Credential::ServicePrincipal {
        tenant_id: "t".to_string(),
        client_id: "c".to_string(),
        client_secret: "s".to_string(),
        cache: TokenCache::new(60),
    };
    assert!(matches!(sp.auth_material(0), MaterialDecision::Refresh));
    assert!(matches!(sp.auth_material(1), MaterialDecision::Wait));
    if let Credential::ServicePrincipal { cache, .. } = &mut sp {
        cache
            .complete_refresh(Ok(CachedToken { access_token: "bt".to_string(), expires_at: 1000 }))
            .unwrap();
    }
    match sp.auth_material(2) {
        MaterialDecision::Ready(AuthMaterial::Bearer(t)) => assert_eq!(t, "bt"),
        other => panic!("unexpected {:?}", other),
    }
}
