use unifly_api::error::CoreError;
use unifly_api::lifecycle::{
    cloud_site_id, connect_step, find_site_id, site_resolution_error, site_uuid, AuthKind, ConnectAction, ConnectEvent,
    ConnectState,
};

#[test]
fn site_lookup_by_internal_reference() {
    let sites = vec![("default".to_string(), "id-1".to_string()), ("branch".to_string(), "id-2".to_string())];
    assert_eq!(find_site_id(&sites, "branch").unwrap(), "id-2");
    assert_eq!(find_site_id(&sites, "nowhere"), Err(CoreError::SiteNotFound { name: "nowhere".into() }));
}

#[test]
fn site_uuid_fast_path_canonicalizes() {
    assert_eq!(site_uuid("D2864B8E-56FB-4945-B69F-6D424FA5B248").as_deref(), Some("d2864b8e-56fb-4945-b69f-6d424fa5b248"));
    assert_eq!(site_uuid("default"), None);
}

#[test]
fn cloud_site_prefers_configured_site_then_host() {
    let host = "5888bc93-aaae-4242-ae2f-2050d76211fd";
    assert_eq!(cloud_site_id("default", host).as_deref(), Some(host));
    assert_eq!(cloud_site_id("d2864b8e-56fb-4945-b69f-6d424fa5b248", host).as_deref(), Some("d2864b8e-56fb-4945-b69f-6d424fa5b248"));
    assert_eq!(cloud_site_id("default", "host"), None);
}

#[test]
fn not_found_during_site_resolution_means_no_integration_api() {
    let err = site_resolution_error(CoreError::Api { message: "not found".into(), status: Some(404) });
    match err {
        CoreError::Unsupported { operation, required } => {
            assert_eq!(operation, "API-key authentication");
            assert!(required.starts_with("a controller with the Integration API"));
        }
        other => panic!("unexpected {other:?}"),
    }
    let other = CoreError::Api { message: "boom".into(), status: Some(500) };
    assert_eq!(site_resolution_error(other.clone()), other);
}

fn failed(text: &str) -> ConnectEvent {
    ConnectEvent::Failed { error: CoreError::Api { message: text.into(), status: Some(404) }, text: text.into() }
}

fn run(auth: AuthKind, refresh: bool, outcomes: Vec<ConnectEvent>) -> (ConnectState, Vec<ConnectAction>, Vec<String>) {
    let mut state = ConnectState::Idle;
    let mut actions = Vec::new();
    let mut warnings = Vec::new();
    let mut events = vec![ConnectEvent::Start];
    events.extend(outcomes);
    for event in events {
        let step = connect_step(auth, refresh, state, event);
        state = step.state;
        actions.push(step.action);
        warnings.extend(step.warning);
    }
    (state, actions, warnings)
}

#[test]
fn api_key_connection_builds_both_clients_then_refreshes() {
    let ok = || ConnectEvent::Succeeded;
    let (state, actions, warnings) = run(AuthKind::ApiKey, true, vec![ok(), ok(), ok(), ok(), ok()]);
    assert_eq!(state, ConnectState::Connected);
    assert_eq!(
        actions,
        vec![
            ConnectAction::DetectPlatform,
            ConnectAction::BuildIntegrationClient,
            ConnectAction::ResolveSite,
            ConnectAction::BuildApiKeySessionClient,
            ConnectAction::Refresh,
            ConnectAction::StartTasks,
        ]
    );
    assert!(warnings.is_empty());
}

#[test]
fn api_key_site_404_means_unsupported() {
    let (state, actions, _) =
        run(AuthKind::ApiKey, true, vec![ConnectEvent::Succeeded, ConnectEvent::Succeeded, failed("nf")]);
    assert_eq!(state, ConnectState::Failed);
    match actions.last() {
        Some(ConnectAction::Fail(CoreError::Unsupported { operation, .. })) => {
            assert_eq!(operation, "API-key authentication")
        }
        other => panic!("unexpected {other:?}"),
    }
}

#[test]
fn credentials_connection_logs_in_without_refresh() {
    let ok = || ConnectEvent::Succeeded;
    let (state, actions, _) = run(AuthKind::Credentials, false, vec![ok(), ok(), ok()]);
    assert_eq!(state, ConnectState::Connected);
    assert_eq!(
        actions,
        vec![
            ConnectAction::DetectPlatform,
            ConnectAction::BuildSessionClient,
            ConnectAction::Login,
            ConnectAction::StartTasks,
        ]
    );
}

#[test]
fn credentials_login_failure_ends_the_attempt() {
    let (state, actions, _) =
        run(AuthKind::Credentials, true, vec![ConnectEvent::Succeeded, ConnectEvent::Succeeded, failed("bad")]);
    assert_eq!(state, ConnectState::Failed);
    assert_eq!(
        actions.last(),
        Some(&ConnectAction::Fail(CoreError::Api { message: "bad".into(), status: Some(404) }))
    );
}

#[test]
fn hybrid_login_failure_only_warns() {
    let ok = || ConnectEvent::Succeeded;
    let (state, actions, warnings) = run(AuthKind::Hybrid, false, vec![ok(), ok(), ok(), ok(), failed("denied")]);
    assert_eq!(state, ConnectState::Connected);
    assert_eq!(actions[4], ConnectAction::Login);
    assert_eq!(actions[5], ConnectAction::StartTasks);
    assert_eq!(
        warnings,
        vec!["Session login failed: denied \u{2014} events, health stats, and client traffic will be unavailable".to_string()]
    );
}

#[test]
fn hybrid_session_setup_failure_only_warns() {
    let ok = || ConnectEvent::Succeeded;
    let (state, actions, warnings) = run(AuthKind::Hybrid, true, vec![ok(), ok(), ok(), failed("tls"), ok()]);
    assert_eq!(state, ConnectState::Connected);
    assert_eq!(actions[4], ConnectAction::Refresh);
    assert_eq!(warnings, vec!["Session client setup failed: tls".to_string()]);
}

#[test]
fn cloud_connection_skips_platform_and_session() {
    let ok = || ConnectEvent::Succeeded;
    let (state, actions, warnings) = run(AuthKind::Cloud, false, vec![ok(), ok()]);
    assert_eq!(state, ConnectState::Connected);
    assert_eq!(
        actions,
        vec![ConnectAction::BuildIntegrationClient, ConnectAction::ResolveSite, ConnectAction::StartTasks]
    );
    assert_eq!(warnings, vec!["Cloud auth mode active: Session API and WebSocket features are unavailable".to_string()]);
}

#[test]
fn cloud_site_failure_is_not_rewritten() {
    let (state, actions, _) = run(AuthKind::Cloud, false, vec![ConnectEvent::Succeeded, failed("nf")]);
    assert_eq!(state, ConnectState::Failed);
    assert_eq!(actions.last(), Some(&ConnectAction::Fail(CoreError::Api { message: "nf".into(), status: Some(404) })));
}

#[test]
fn events_outside_an_attempt_are_ignored() {
    let step = connect_step(AuthKind::ApiKey, true, ConnectState::Connected, ConnectEvent::Succeeded);
    assert_eq!(step.state, ConnectState::Connected);
    assert_eq!(step.action, ConnectAction::Ignore);
}

#[test]
fn site_uuid_reads_every_uuid_form() {
    let canonical = "d2864b8e-56fb-4945-b69f-6d424fa5b248";
    for text in [
        "d2864b8e56fb4945b69f6d424fa5b248",
        "D2864B8E-56FB-4945-B69F-6D424FA5B248",
        "{d2864b8e-56fb-4945-b69f-6d424fa5b248}",
        "URN:uuid:d2864b8e-56fb-4945-b69f-6d424fa5b248",
    ] {
        assert_eq!(site_uuid(text).as_deref(), Some(canonical), "{text}");
    }
    for text in [
        "d2864b8e-56fb-4945-b69f-6d424fa5b24g",
        "{d2864b8e56fb4945b69f6d424fa5b248}",
        "d2864b8e_56fb_4945_b69f_6d424fa5b248",
        "urn:uuid:d2864b8e56fb4945b69f6d424fa5b248",
    ] {
        assert_eq!(site_uuid(text), None, "{text}");
    }
}
