use ddns_rust::config::ProviderConfig;
use ddns_rust::provider::cloudflare::{
    create_record, create_record_call, get_record, get_record_call, update_existing_record,
    update_existing_record_call, update_record, ApiCall, CloudflareError, CloudflareListResponse,
    CloudflareResponse, DnsRecord, Method, Progress, Reply, Step,
};
use ddns_rust::provider::dispatch::{reconcile, reconcile_with};
use ddns_rust::provider::ReconciliationError;

fn provider(provider_type: &str) -> ProviderConfig {
    ProviderConfig {
        name: "home".to_string(),
        provider_type: provider_type.to_string(),
        key: None,
        api_key: "token-1".to_string(),
        zone_id: "Z".to_string(),
    }
}

fn record(id: &str, content: &str) -> DnsRecord {
    DnsRecord {
        id: id.to_string(),
        record_type: "A".to_string(),
        name: "home.example.com".to_string(),
        content: content.to_string(),
    }
}

fn listing(records: Vec<DnsRecord>) -> Reply<CloudflareListResponse> {
    Reply::Body { response: CloudflareListResponse { success: true, errors: vec![], result: records } }
}

fn written(record: DnsRecord) -> Reply<CloudflareResponse> {
    Reply::Body { response: CloudflareResponse { success: true, errors: vec![], result: Some(record) } }
}

fn refusal(errors: Vec<(i32, &str)>) -> Vec<CloudflareError> {
    errors
        .into_iter()
        .map(|(code, message)| CloudflareError { code, message: message.to_string() })
        .collect()
}

fn writes(calls: &[ApiCall]) -> usize {
    calls.iter().filter(|call| call.method != Method::Get).count()
}

fn assert_body(call: &ApiCall, host: &str, ip: &str) {
    let body = call.body.as_ref().unwrap();
    assert_eq!(body.record_type, "A");
    assert_eq!(body.name, host);
    assert_eq!(body.content, ip);
    assert_eq!(body.ttl, 1);
    assert!(!body.proxied);
}

#[test]
fn stale_record_is_updated() {
    let config = provider("cloudflare");
    let run = reconcile_with(
        &config,
        "home.example.com",
        "2.2.2.2",
        listing(vec![record("abc", "1.1.1.1")]),
        written(record("abc", "2.2.2.2")),
    );
    assert_eq!(run.calls.len(), 2);
    assert_eq!(run.calls[0].method, Method::Get);
    assert_eq!(
        run.calls[0].url,
        "https://api.cloudflare.com/client/v4/zones/Z/dns_records?type=A&name=home.example.com"
    );
    assert_eq!(run.calls[0].authorization, "Bearer token-1");
    assert_eq!(run.calls[0].content_type, "application/json");
    assert!(run.calls[0].body.is_none());
    assert_eq!(run.calls[1].method, Method::Put);
    assert_eq!(run.calls[1].url, "https://api.cloudflare.com/client/v4/zones/Z/dns_records/abc");
    assert_eq!(run.calls[1].authorization, "Bearer token-1");
    assert_eq!(run.calls[1].content_type, "application/json");
    assert_body(&run.calls[1], "home.example.com", "2.2.2.2");
    let result = run.outcome.unwrap();
    assert!(result.success);
    assert!(result.message.contains("Updated"));
    assert_eq!(result.message, "Updated record home.example.com to IP 2.2.2.2");
    assert_eq!(result.record_id, Some("abc".to_string()));
}

#[test]
fn current_record_is_left_alone() {
    let config = provider("cloudflare");
    let run = reconcile_with(
        &config,
        "home.example.com",
        "1.1.1.1",
        listing(vec![record("abc", "1.1.1.1")]),
        Reply::SendFailed,
    );
    assert_eq!(run.calls.len(), 1);
    assert_eq!(run.calls[0].method, Method::Get);
    let result = run.outcome.unwrap();
    assert!(result.success);
    assert!(result.message.contains("already up to date"));
    assert_eq!(result.message, "Record already up to date with IP 1.1.1.1");
    assert_eq!(result.record_id, Some("abc".to_string()));
}

#[test]
fn absent_record_is_created() {
    let config = provider("cloudflare");
    let run = reconcile_with(
        &config,
        "home.example.com",
        "3.3.3.3",
        listing(vec![]),
        written(record("new-1", "3.3.3.3")),
    );
    assert_eq!(run.calls.len(), 2);
    assert_eq!(run.calls[1].method, Method::Post);
    assert_eq!(run.calls[1].url, "https://api.cloudflare.com/client/v4/zones/Z/dns_records");
    assert_body(&run.calls[1], "home.example.com", "3.3.3.3");
    assert_eq!(run.calls.iter().filter(|call| call.method == Method::Put).count(), 0);
    let result = run.outcome.unwrap();
    assert!(result.success);
    assert_eq!(result.message, "Created new record home.example.com with IP 3.3.3.3");
    assert_eq!(result.record_id, Some("new-1".to_string()));
}

#[test]
fn only_the_first_listed_record_counts() {
    let config = provider("cloudflare");
    let run = reconcile_with(
        &config,
        "home.example.com",
        "2.2.2.2",
        listing(vec![record("first", "2.2.2.2"), record("second", "9.9.9.9")]),
        Reply::SendFailed,
    );
    assert_eq!(run.calls.len(), 1);
    assert_eq!(run.outcome.unwrap().record_id, Some("first".to_string()));
}

#[test]
fn second_run_writes_nothing() {
    let config = provider("cloudflare");
    let first = reconcile_with(
        &config,
        "home.example.com",
        "2.2.2.2",
        listing(vec![record("abc", "1.1.1.1")]),
        written(record("abc", "2.2.2.2")),
    );
    let second = reconcile_with(
        &config,
        "home.example.com",
        "2.2.2.2",
        listing(vec![record("abc", "2.2.2.2")]),
        Reply::SendFailed,
    );
    assert_eq!(writes(&first.calls), 1);
    assert_eq!(writes(&second.calls), 0);
    let first = first.outcome.unwrap();
    let second = second.outcome.unwrap();
    assert!(first.success && second.success);
    assert_eq!(first.record_id, second.record_id);
}

#[test]
fn second_run_after_creation_writes_nothing() {
    let config = provider("cloudflare");
    let first = reconcile_with(
        &config,
        "home.example.com",
        "2.2.2.2",
        listing(vec![]),
        written(record("fresh", "2.2.2.2")),
    );
    let second = reconcile_with(
        &config,
        "home.example.com",
        "2.2.2.2",
        listing(vec![record("fresh", "2.2.2.2")]),
        Reply::SendFailed,
    );
    assert_eq!(writes(&first.calls), 1);
    assert_eq!(writes(&second.calls), 0);
    assert_eq!(first.outcome.unwrap().record_id, second.outcome.unwrap().record_id);
}

#[test]
fn refused_lookup_reports_every_error() {
    let config = provider("cloudflare");
    let lookup = Reply::Body {
        response: CloudflareListResponse {
            success: false,
            errors: refusal(vec![(1003, "Invalid zone"), (-7, "No route"), (0, "")]),
            result: vec![],
        },
    };
    let run = reconcile_with(
        &config,
        "home.example.com",
        "2.2.2.2",
        lookup,
        written(record("abc", "2.2.2.2")),
    );
    assert_eq!(run.calls.len(), 1);
    assert_eq!(writes(&run.calls), 0);
    match run.outcome {
        Err(ReconciliationError::ProviderApiError { message }) => {
            assert_eq!(message, "Cloudflare API error: 1003: Invalid zone, -7: No route, 0: ");
            assert!(message.contains("1003: Invalid zone"));
            assert!(message.contains("-7: No route"));
        }
        other => panic!("unexpected outcome: {:?}", other),
    }
}

#[test]
fn refusal_without_errors_has_bare_message() {
    let lookup = Reply::Body {
        response: CloudflareListResponse { success: false, errors: vec![], result: vec![] },
    };
    match get_record(lookup) {
        Err(ReconciliationError::ProviderApiError { message }) => {
            assert_eq!(message, "Cloudflare API error: ");
        }
        other => panic!("unexpected outcome: {:?}", other),
    }
}

#[test]
fn unknown_type_sends_nothing() {
    let config = provider("route53");
    let run = reconcile_with(
        &config,
        "home.example.com",
        "2.2.2.2",
        listing(vec![record("abc", "1.1.1.1")]),
        written(record("abc", "2.2.2.2")),
    );
    assert!(run.calls.is_empty());
    match run.outcome {
        Err(ReconciliationError::UnsupportedProvider { provider_type }) => {
            assert_eq!(provider_type, "route53");
        }
        other => panic!("unexpected outcome: {:?}", other),
    }
}

#[test]
fn unknown_type_ends_every_step() {
    let config = provider("Cloudflare");
    let step = reconcile(&config, "h", "1.1.1.1", Progress::Start);
    assert!(matches!(
        step,
        Step::Done { outcome: Err(ReconciliationError::UnsupportedProvider { .. }) }
    ));
    let step = reconcile(&config, "h", "1.1.1.1", Progress::Looked { listing: listing(vec![]) });
    assert!(matches!(
        step,
        Step::Done { outcome: Err(ReconciliationError::UnsupportedProvider { .. }) }
    ));
}

#[test]
fn lookup_transport_failures() {
    match get_record(Reply::SendFailed) {
        Err(ReconciliationError::TransportError { cause }) => {
            assert_eq!(cause, "Failed to send request to Cloudflare");
        }
        other => panic!("unexpected outcome: {:?}", other),
    }
    match get_record(Reply::ParseFailed) {
        Err(ReconciliationError::TransportError { cause }) => {
            assert_eq!(cause, "Failed to parse Cloudflare response");
        }
        other => panic!("unexpected outcome: {:?}", other),
    }
}

#[test]
fn create_failures() {
    match create_record(Reply::SendFailed) {
        Err(ReconciliationError::TransportError { cause }) => {
            assert_eq!(cause, "Failed to send create request to Cloudflare");
        }
        other => panic!("unexpected outcome: {:?}", other),
    }
    match create_record(Reply::ParseFailed) {
        Err(ReconciliationError::TransportError { cause }) => {
            assert_eq!(cause, "Failed to parse Cloudflare create response");
        }
        other => panic!("unexpected outcome: {:?}", other),
    }
    let empty = Reply::Body {
        response: CloudflareResponse { success: true, errors: vec![], result: None },
    };
    match create_record(empty) {
        Err(ReconciliationError::TransportError { cause }) => {
            assert_eq!(cause, "No result in Cloudflare response");
        }
        other => panic!("unexpected outcome: {:?}", other),
    }
    let refused = Reply::Body {
        response: CloudflareResponse {
            success: false,
            errors: refusal(vec![(81057, "Record already exists.")]),
            result: Some(record("x", "1.1.1.1")),
        },
    };
    match create_record(refused) {
        Err(ReconciliationError::ProviderApiError { message }) => {
            assert_eq!(message, "Cloudflare API error: 81057: Record already exists.");
        }
        other => panic!("unexpected outcome: {:?}", other),
    }
    assert_eq!(create_record(written(record("made", "1.1.1.1"))).unwrap().id, "made");
}

#[test]
fn update_failures() {
    match update_existing_record(Reply::SendFailed) {
        Err(ReconciliationError::TransportError { cause }) => {
            assert_eq!(cause, "Failed to send update request to Cloudflare");
        }
        other => panic!("unexpected outcome: {:?}", other),
    }
    match update_existing_record(Reply::ParseFailed) {
        Err(ReconciliationError::TransportError { cause }) => {
            assert_eq!(cause, "Failed to parse Cloudflare update response");
        }
        other => panic!("unexpected outcome: {:?}", other),
    }
    assert_eq!(update_existing_record(written(record("kept", "1.1.1.1"))).unwrap().id, "kept");
}

#[test]
fn update_reports_the_record_it_was_sent_to() {
    let config = provider("cloudflare");
    let run = reconcile_with(
        &config,
        "home.example.com",
        "2.2.2.2",
        listing(vec![record("abc", "1.1.1.1")]),
        written(record("elsewhere", "2.2.2.2")),
    );
    assert_eq!(run.calls[1].url, "https://api.cloudflare.com/client/v4/zones/Z/dns_records/abc");
    assert_eq!(run.outcome.unwrap().record_id, Some("abc".to_string()));
}

#[test]
fn update_without_a_record_in_the_reply_fails() {
    let config = provider("cloudflare");
    let empty = Reply::Body {
        response: CloudflareResponse { success: true, errors: vec![], result: None },
    };
    let run = reconcile_with(
        &config,
        "home.example.com",
        "2.2.2.2",
        listing(vec![record("abc", "1.1.1.1")]),
        empty,
    );
    match run.outcome {
        Err(ReconciliationError::TransportError { cause }) => {
            assert_eq!(cause, "No result in Cloudflare response");
        }
        other => panic!("unexpected outcome: {:?}", other),
    }
}

#[test]
fn failed_write_fails_the_run() {
    let config = provider("cloudflare");
    let run = reconcile_with(
        &config,
        "home.example.com",
        "2.2.2.2",
        listing(vec![record("abc", "1.1.1.1")]),
        Reply::SendFailed,
    );
    assert_eq!(run.calls.len(), 2);
    assert!(matches!(run.outcome, Err(ReconciliationError::TransportError { .. })));
}

#[test]
fn calls_are_built_from_the_configuration() {
    let config = provider("cloudflare");
    let lookup = get_record_call(&config, "a.example.org");
    assert_eq!(lookup.method, Method::Get);
    assert_eq!(
        lookup.url,
        "https://api.cloudflare.com/client/v4/zones/Z/dns_records?type=A&name=a.example.org"
    );
    let create = create_record_call(&config, "a.example.org", "10.0.0.1");
    assert_eq!(create.method, Method::Post);
    assert_body(&create, "a.example.org", "10.0.0.1");
    let update = update_existing_record_call(&config, "r-9", "a.example.org", "10.0.0.1");
    assert_eq!(update.method, Method::Put);
    assert_eq!(update.url, "https://api.cloudflare.com/client/v4/zones/Z/dns_records/r-9");
    assert_eq!(update.authorization, "Bearer token-1");
}

#[test]
fn steps_follow_the_replies() {
    let config = provider("cloudflare");
    assert!(matches!(
        update_record(&config, "h.example.com", "1.2.3.4", Progress::Start),
        Step::Lookup { .. }
    ));
    assert!(matches!(
        update_record(
            &config,
            "h.example.com",
            "1.2.3.4",
            Progress::Looked { listing: listing(vec![]) }
        ),
        Step::Create { .. }
    ));
    assert!(matches!(
        update_record(
            &config,
            "h.example.com",
            "1.2.3.4",
            Progress::Looked { listing: listing(vec![record("r", "4.3.2.1")]) }
        ),
        Step::Update { .. }
    ));
    match update_record(
        &config,
        "h.example.com",
        "1.2.3.4",
        Progress::Updated { record_id: "r".to_string(), reply: written(record("r", "1.2.3.4")) },
    ) {
        Step::Done { outcome } => {
            assert_eq!(outcome.unwrap().message, "Updated record h.example.com to IP 1.2.3.4")
        }
        other => panic!("unexpected step: {:?}", other),
    }
    match update_record(
        &config,
        "h.example.com",
        "1.2.3.4",
        Progress::Created { reply: written(record("n", "1.2.3.4")) },
    ) {
        Step::Done { outcome } => {
            assert_eq!(outcome.unwrap().record_id, Some("n".to_string()))
        }
        other => panic!("unexpected step: {:?}", other),
    }
}
