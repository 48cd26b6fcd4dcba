use ddns_rust::api::{
    authorize, check_request, outcome_reply, refusal_reply, update_dns, AppState, Handling,
    HttpReply, Refusal,
};
use ddns_rust::config::{Config, ProviderConfig, ServerConfig};
use ddns_rust::provider::cloudflare::{
    CloudflareListResponse, DnsRecord, Method, Progress, Reply,
};
use ddns_rust::provider::{DnsUpdateResult, ReconciliationError};

fn provider(name: &str, provider_type: &str, key: Option<&str>) -> ProviderConfig {
    ProviderConfig {
        name: name.to_string(),
        provider_type: provider_type.to_string(),
        key: key.map(|k| k.to_string()),
        api_key: "token".to_string(),
        zone_id: "Z".to_string(),
    }
}

fn state() -> AppState {
    AppState {
        config: Config {
            server: ServerConfig::default(),
            providers: vec![
                provider("open", "cloudflare", None),
                provider("locked", "cloudflare", Some("s3cret")),
                provider("other", "route53", None),
            ],
        },
    }
}

#[test]
fn key_is_compared_exactly() {
    let locked = provider("locked", "cloudflare", Some("s3cret"));
    assert!(authorize(&locked, Some("s3cret")));
    assert!(!authorize(&locked, Some("S3cret")));
    assert!(!authorize(&locked, Some("s3cret ")));
    assert!(!authorize(&locked, Some("")));
    assert!(!authorize(&locked, None));
    let open = provider("open", "cloudflare", None);
    assert!(authorize(&open, None));
    assert!(authorize(&open, Some("anything")));
    let blank = provider("blank", "cloudflare", Some(""));
    assert!(authorize(&blank, None));
    assert!(authorize(&blank, Some("")));
    assert!(!authorize(&blank, Some("x")));
}

#[test]
fn requests_are_checked_in_order() {
    let state = state();
    assert!(matches!(
        check_request(&state, "missing", "not-an-ip", None),
        Err(Refusal::InvalidAddress { .. })
    ));
    assert!(matches!(
        check_request(&state, "missing", "1.2.3.4", None),
        Err(Refusal::UnknownProvider { .. })
    ));
    assert!(matches!(
        check_request(&state, "locked", "1.2.3.4", Some("wrong")),
        Err(Refusal::AuthenticationFailed)
    ));
    assert!(matches!(
        check_request(&state, "locked", "1.2.3.999", Some("wrong")),
        Err(Refusal::InvalidAddress { .. })
    ));
    assert_eq!(check_request(&state, "locked", "1.2.3.4", Some("s3cret")).unwrap().name, "locked");
    assert_eq!(check_request(&state, "open", "1.2.3.4", None).unwrap().name, "open");
}

#[test]
fn refusals_are_answered() {
    match refusal_reply(Refusal::InvalidAddress { ip: "1.2.3".to_string() }) {
        HttpReply::Failed { status, success, error } => {
            assert_eq!(status, 400);
            assert!(!success);
            assert_eq!(error, "Invalid IP address: 1.2.3");
        }
        other => panic!("unexpected reply: {:?}", other),
    }
    match refusal_reply(Refusal::UnknownProvider { name: "nobody".to_string() }) {
        HttpReply::Failed { status, success, error } => {
            assert_eq!(status, 404);
            assert!(!success);
            assert_eq!(error, "Provider not found: nobody");
        }
        other => panic!("unexpected reply: {:?}", other),
    }
    match refusal_reply(Refusal::AuthenticationFailed) {
        HttpReply::Failed { status, success, error } => {
            assert_eq!(status, 401);
            assert!(!success);
            assert_eq!(error, "Invalid key");
        }
        other => panic!("unexpected reply: {:?}", other),
    }
}

#[test]
fn outcomes_are_answered() {
    let done = DnsUpdateResult {
        success: true,
        message: "Updated record h to IP 1.2.3.4".to_string(),
        record_id: Some("abc".to_string()),
    };
    match outcome_reply(Ok(done)) {
        HttpReply::Updated { status, success, message, record_id } => {
            assert_eq!(status, 200);
            assert!(success);
            assert_eq!(message, "Updated record h to IP 1.2.3.4");
            assert_eq!(record_id, Some("abc".to_string()));
        }
        other => panic!("unexpected reply: {:?}", other),
    }
    let unsupported =
        ReconciliationError::UnsupportedProvider { provider_type: "route53".to_string() };
    match outcome_reply(Err(unsupported)) {
        HttpReply::Failed { status, success, error } => {
            assert_eq!(status, 400);
            assert!(!success);
            assert_eq!(error, "Unsupported provider type: route53");
        }
        other => panic!("unexpected reply: {:?}", other),
    }
    let transport = ReconciliationError::TransportError {
        cause: "Failed to send request to Cloudflare".to_string(),
    };
    match outcome_reply(Err(transport)) {
        HttpReply::Failed { status, success, error } => {
            assert_eq!(status, 500);
            assert!(!success);
            assert_eq!(error, "DNS update failed: Failed to send request to Cloudflare");
        }
        other => panic!("unexpected reply: {:?}", other),
    }
    let refused = ReconciliationError::ProviderApiError {
        message: "Cloudflare API error: 9109: Invalid access token".to_string(),
    };
    match outcome_reply(Err(refused)) {
        HttpReply::Failed { status, error, .. } => {
            assert_eq!(status, 500);
            assert_eq!(
                error,
                "DNS update failed: Cloudflare API error: 9109: Invalid access token"
            );
        }
        other => panic!("unexpected reply: {:?}", other),
    }
}

#[test]
fn a_request_is_handled_turn_by_turn() {
    let state = state();
    let first = update_dns(&state, "open", "home.example.com", "2.2.2.2", None, Progress::Start);
    match first {
        Handling::Lookup { call } => assert_eq!(call.method, Method::Get),
        other => panic!("unexpected turn: {:?}", other),
    }
    let found = Reply::Body {
        response: CloudflareListResponse {
            success: true,
            errors: vec![],
            result: vec![DnsRecord {
                id: "abc".to_string(),
                record_type: "A".to_string(),
                name: "home.example.com".to_string(),
                content: "2.2.2.2".to_string(),
            }],
        },
    };
    let second = update_dns(
        &state,
        "open",
        "home.example.com",
        "2.2.2.2",
        None,
        Progress::Looked { listing: found },
    );
    match second {
        Handling::Respond { reply: HttpReply::Updated { status, message, record_id, .. } } => {
            assert_eq!(status, 200);
            assert_eq!(message, "Record already up to date with IP 2.2.2.2");
            assert_eq!(record_id, Some("abc".to_string()));
        }
        other => panic!("unexpected turn: {:?}", other),
    }
}

#[test]
fn a_refused_request_sends_nothing() {
    let state = state();
    match update_dns(&state, "locked", "h", "2.2.2.2", None, Progress::Start) {
        Handling::Respond { reply: HttpReply::Failed { status, .. } } => assert_eq!(status, 401),
        other => panic!("unexpected turn: {:?}", other),
    }
    match update_dns(&state, "other", "h", "2.2.2.2", None, Progress::Start) {
        Handling::Respond { reply: HttpReply::Failed { status, error, .. } } => {
            assert_eq!(status, 400);
            assert_eq!(error, "Unsupported provider type: route53");
        }
        other => panic!("unexpected turn: {:?}", other),
    }
    match update_dns(&state, "open", "h", "2.2.2", None, Progress::Start) {
        Handling::Respond { reply: HttpReply::Failed { status, error, .. } } => {
            assert_eq!(status, 400);
            assert_eq!(error, "Invalid IP address: 2.2.2");
        }
        other => panic!("unexpected turn: {:?}", other),
    }
}
