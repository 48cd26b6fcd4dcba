//! The Cloudflare engine: which calls bring one address record in line with a
//! requested address, and what Cloudflare's replies to them mean.
//!
//! A reconciliation is a lookup, then at most one write: an update where the
//! record exists with another address, a creation where it does not exist,
//! nothing where it already holds the address. `update_record` takes one
//! step of it at a time; between two steps the caller sends the call that
//! the step asked for.

use crate::config::ProviderConfig;
use crate::provider::{DnsUpdateResult, Failure, ReconciliationError, UpdateView};
use crate::text::{decimal, push_decimal, same_text};
use vstd::prelude::*;
use vstd::string::*;

verus! {

/// An address record as Cloudflare reports it.
#[derive(Debug)]
pub struct DnsRecord {
    pub id: String,
    pub record_type: String,
    pub name: String,
    pub content: String,
}

/// A `DnsRecord` as plain values.
pub ghost struct RecordView {
    pub id: Seq<char>,
    pub record_type: Seq<char>,
    pub name: Seq<char>,
    pub content: Seq<char>,
}

impl View for DnsRecord {
    type V = RecordView;

    open spec fn view(&self) -> RecordView {
        RecordView {
            id: self.id@,
            record_type: self.record_type@,
            name: self.name@,
            content: self.content@,
        }
    }
}

/// One entry of the error list in a reply.
#[derive(Debug)]
pub struct CloudflareError {
    pub code: i32,
    pub message: String,
}

/// The reply to a creation or an update.
#[derive(Debug)]
pub struct CloudflareResponse {
    pub success: bool,
    pub errors: Vec<CloudflareError>,
    pub result: Option<DnsRecord>,
}

/// The reply to a lookup.
#[derive(Debug)]
pub struct CloudflareListResponse {
    pub success: bool,
    pub errors: Vec<CloudflareError>,
    pub result: Vec<DnsRecord>,
}

/// What came of sending one call: it could not be sent, its reply could not
/// be read, or the reply's body.
#[derive(Debug)]
pub enum Reply<T> {
    SendFailed,
    ParseFailed,
    Body { response: T },
}

/// The HTTP method of a call.
#[derive(Debug, Clone, Copy, PartialEq, Eq, Structural)]
pub enum Method {
    Get,
    Post,
    Put,
}

/// The body of a creation or an update.
#[derive(Debug)]
pub struct RecordRequest {
    pub record_type: String,
    pub name: String,
    pub content: String,
    pub ttl: u32,
    pub proxied: bool,
}

/// A `RecordRequest` as plain values.
pub ghost struct BodyView {
    pub record_type: Seq<char>,
    pub name: Seq<char>,
    pub content: Seq<char>,
    pub ttl: u32,
    pub proxied: bool,
}

impl View for RecordRequest {
    type V = BodyView;

    open spec fn view(&self) -> BodyView {
        BodyView {
            record_type: self.record_type@,
            name: self.name@,
            content: self.content@,
            ttl: self.ttl,
            proxied: self.proxied,
        }
    }
}

/// One call to Cloudflare's API, ready to be sent.
#[derive(Debug)]
pub struct ApiCall {
    pub method: Method,
    pub url: String,
    pub authorization: String,
    pub content_type: String,
    pub body: Option<RecordRequest>,
}

/// An `ApiCall` as plain values.
pub ghost struct CallView {
    pub method: Method,
    pub url: Seq<char>,
    pub authorization: Seq<char>,
    pub content_type: Seq<char>,
    pub body: Option<BodyView>,
}

impl View for ApiCall {
    type V = CallView;

    open spec fn view(&self) -> CallView {
        CallView {
            method: self.method,
            url: self.url@,
            authorization: self.authorization@,
            content_type: self.content_type@,
            body: match self.body {
                Some(body) => Some(body@),
                None => None,
            },
        }
    }
}

/// The address of a zone's records.
pub open spec fn zone_records_url(zone_id: Seq<char>) -> Seq<char> {
    "https://api.cloudflare.com/client/v4"@ + "/zones/"@ + zone_id + "/dns_records"@
}

/// The value of the authorization header.
pub open spec fn bearer(api_key: Seq<char>) -> Seq<char> {
    "Bearer "@ + api_key
}

/// The body that sets the record `host` to `ip`: an address record with
/// automatic time-to-live, never proxied.
pub open spec fn record_body(host: Seq<char>, ip: Seq<char>) -> BodyView {
    BodyView { record_type: "A"@, name: host, content: ip, ttl: 1, proxied: false }
}

/// The call that looks up the address records named `host`.
pub open spec fn lookup_call(config: ProviderConfig, host: Seq<char>) -> CallView {
    CallView {
        method: Method::Get,
        url: zone_records_url(config.zone_id@) + "?type=A&name="@ + host,
        authorization: bearer(config.api_key@),
        content_type: "application/json"@,
        body: None,
    }
}

/// The call that creates the record `host` with the address `ip`.
pub open spec fn create_call(config: ProviderConfig, host: Seq<char>, ip: Seq<char>) -> CallView {
    CallView {
        method: Method::Post,
        url: zone_records_url(config.zone_id@),
        authorization: bearer(config.api_key@),
        content_type: "application/json"@,
        body: Some(record_body(host, ip)),
    }
}

/// The call that sets the record with the identifier `record_id` to `ip`.
pub open spec fn update_call(
    config: ProviderConfig,
    record_id: Seq<char>,
    host: Seq<char>,
    ip: Seq<char>,
) -> CallView {
    CallView {
        method: Method::Put,
        url: zone_records_url(config.zone_id@) + "/"@ + record_id,
        authorization: bearer(config.api_key@),
        content_type: "application/json"@,
        body: Some(record_body(host, ip)),
    }
}

fn zone_url(config: &ProviderConfig) -> (url: String)
    ensures
        url@ == zone_records_url(config.zone_id@),
{
    let mut url = String::from_str("https://api.cloudflare.com/client/v4");
    url.append("/zones/");
    url.append(config.zone_id.as_str());
    url.append("/dns_records");
    url
}

fn authorization(config: &ProviderConfig) -> (header: String)
    ensures
        header@ == bearer(config.api_key@),
{
    let mut header = String::from_str("Bearer ");
    header.append(config.api_key.as_str());
    header
}

fn record_request(host: &str, ip: &str) -> (body: RecordRequest)
    ensures
        body@ == record_body(host@, ip@),
{
    RecordRequest {
        record_type: String::from_str("A"),
        name: String::from_str(host),
        content: String::from_str(ip),
        ttl: 1,
        proxied: false,
    }
}

/// The lookup of the address records named `host`.
pub fn get_record_call(config: &ProviderConfig, host: &str) -> (call: ApiCall)
    ensures
        call@ == lookup_call(*config, host@),
{
    let mut url = zone_url(config);
    url.append("?type=A&name=");
    url.append(host);
    ApiCall {
        method: Method::Get,
        url,
        authorization: authorization(config),
        content_type: String::from_str("application/json"),
        body: None,
    }
}

/// The creation of the record `host` with the address `ip`.
pub fn create_record_call(config: &ProviderConfig, host: &str, ip: &str) -> (call: ApiCall)
    ensures
        call@ == create_call(*config, host@, ip@),
{
    ApiCall {
        method: Method::Post,
        url: zone_url(config),
        authorization: authorization(config),
        content_type: String::from_str("application/json"),
        body: Some(record_request(host, ip)),
    }
}

/// The update that sets the record with the identifier `record_id` to `ip`.
pub fn update_existing_record_call(
    config: &ProviderConfig,
    record_id: &str,
    host: &str,
    ip: &str,
) -> (call: ApiCall)
    ensures
        call@ == update_call(*config, record_id@, host@, ip@),
{
    let mut url = zone_url(config);
    url.append("/");
    url.append(record_id);
    ApiCall {
        method: Method::Put,
        url,
        authorization: authorization(config),
        content_type: String::from_str("application/json"),
        body: Some(record_request(host, ip)),
    }
}

/// One error of a reply as text: its code, a colon and its message.
pub open spec fn error_line(error: CloudflareError) -> Seq<char> {
    decimal(error.code as int) + ": "@ + error.message@
}

/// The errors of a reply as one text, in their order, with a comma and a
/// space between two of them.
pub open spec fn joined_errors(errors: Seq<CloudflareError>) -> Seq<char>
    decreases errors.len(),
{
    if errors.len() == 0 {
        Seq::empty()
    } else if errors.len() == 1 {
        error_line(errors[0])
    } else {
        joined_errors(errors.drop_last()) + ", "@ + error_line(errors.last())
    }
}

/// The message of the failure that a refusing reply leads to.
pub open spec fn api_error_message(errors: Seq<CloudflareError>) -> Seq<char> {
    "Cloudflare API error: "@ + joined_errors(errors)
}

fn api_error(errors: &Vec<CloudflareError>) -> (error: ReconciliationError)
    ensures
        error@ == (Failure::ProviderApiError { message: api_error_message(errors@) }),
{
    let mut message = String::from_str("Cloudflare API error: ");
    let mut at: usize = 0;
    while at < errors.len()
        invariant
            at <= errors.len(),
            message@ == "Cloudflare API error: "@ + joined_errors(errors@.take(at as int)),
        decreases errors.len() - at,
    {
        if at > 0 {
            message.append(", ");
        }
        push_decimal(&mut message, errors[at].code);
        message.append(": ");
        message.append(errors[at].message.as_str());
        proof {
            let done = errors@.take(at + 1);
            assert(done.drop_last() =~= errors@.take(at as int));
            assert(done.last() == errors@[at as int]);
            assert(message@ =~= "Cloudflare API error: "@ + joined_errors(done));
        }
        at += 1;
    }
    assert(errors@.take(at as int) =~= errors@);
    ReconciliationError::ProviderApiError { message }
}

fn transport_error(cause: &str) -> (error: ReconciliationError)
    ensures
        error@ == (Failure::TransportError { cause: cause@ }),
{
    ReconciliationError::TransportError { cause: String::from_str(cause) }
}

/// What a lookup's reply says: the first record it lists, none where it
/// lists none, or the failure it stands for.
pub open spec fn found_record(reply: Reply<CloudflareListResponse>) -> Result<
    Option<RecordView>,
    Failure,
> {
    match reply {
        Reply::SendFailed => Err(
            Failure::TransportError { cause: "Failed to send request to Cloudflare"@ },
        ),
        Reply::ParseFailed => Err(
            Failure::TransportError { cause: "Failed to parse Cloudflare response"@ },
        ),
        Reply::Body { response } => if !response.success {
            Err(Failure::ProviderApiError { message: api_error_message(response.errors@) })
        } else if response.result@.len() == 0 {
            Ok(None)
        } else {
            Ok(Some(response.result@[0]@))
        },
    }
}

/// What the reply to a write says: the record it reports, or the failure it
/// stands for. `send_failed` and `parse_failed` are the causes given where
/// the call could not be sent or its reply not be read.
pub open spec fn written_record(
    reply: Reply<CloudflareResponse>,
    send_failed: Seq<char>,
    parse_failed: Seq<char>,
) -> Result<RecordView, Failure> {
    match reply {
        Reply::SendFailed => Err(Failure::TransportError { cause: send_failed }),
        Reply::ParseFailed => Err(Failure::TransportError { cause: parse_failed }),
        Reply::Body { response } => if !response.success {
            Err(Failure::ProviderApiError { message: api_error_message(response.errors@) })
        } else {
            match response.result {
                Some(record) => Ok(record@),
                None => Err(Failure::TransportError { cause: "No result in Cloudflare response"@ }),
            }
        },
    }
}

/// What the reply to a creation says.
pub open spec fn created_record(reply: Reply<CloudflareResponse>) -> Result<RecordView, Failure> {
    written_record(
        reply,
        "Failed to send create request to Cloudflare"@,
        "Failed to parse Cloudflare create response"@,
    )
}

/// What the reply to an update says.
pub open spec fn updated_record(reply: Reply<CloudflareResponse>) -> Result<RecordView, Failure> {
    written_record(
        reply,
        "Failed to send update request to Cloudflare"@,
        "Failed to parse Cloudflare update response"@,
    )
}

/// The result of reading a lookup's reply as plain values.
pub open spec fn found_view(found: Result<Option<DnsRecord>, ReconciliationError>) -> Result<
    Option<RecordView>,
    Failure,
> {
    match found {
        Ok(Some(record)) => Ok(Some(record@)),
        Ok(None) => Ok(None),
        Err(error) => Err(error@),
    }
}

/// The result of reading a write's reply as plain values.
pub open spec fn written_view(written: Result<DnsRecord, ReconciliationError>) -> Result<
    RecordView,
    Failure,
> {
    match written {
        Ok(record) => Ok(record@),
        Err(error) => Err(error@),
    }
}

/// Reads the reply to a lookup.
pub fn get_record(reply: Reply<CloudflareListResponse>) -> (found: Result<
    Option<DnsRecord>,
    ReconciliationError,
>)
    ensures
        found_view(found) == found_record(reply),
{
    match reply {
        Reply::SendFailed => Err(transport_error("Failed to send request to Cloudflare")),
        Reply::ParseFailed => Err(transport_error("Failed to parse Cloudflare response")),
        Reply::Body { response } => {
            if !response.success {
                return Err(api_error(&response.errors));
            }
            let mut records = response.result;
            if records.len() == 0 {
                Ok(None)
            } else {
                Ok(Some(records.remove(0)))
            }
        },
    }
}

fn read_written(reply: Reply<CloudflareResponse>, send_failed: &str, parse_failed: &str) -> (written:
    Result<DnsRecord, ReconciliationError>)
    ensures
        written_view(written) == written_record(reply, send_failed@, parse_failed@),
{
    match reply {
        Reply::SendFailed => Err(transport_error(send_failed)),
        Reply::ParseFailed => Err(transport_error(parse_failed)),
        Reply::Body { response } => {
            if !response.success {
                return Err(api_error(&response.errors));
            }
            match response.result {
                Some(record) => Ok(record),
                None => Err(transport_error("No result in Cloudflare response")),
            }
        },
    }
}

/// Reads the reply to a creation.
pub fn create_record(reply: Reply<CloudflareResponse>) -> (written: Result<
    DnsRecord,
    ReconciliationError,
>)
    ensures
        written_view(written) == created_record(reply),
{
    read_written(
        reply,
        "Failed to send create request to Cloudflare",
        "Failed to parse Cloudflare create response",
    )
}

/// Reads the reply to an update.
pub fn update_existing_record(reply: Reply<CloudflareResponse>) -> (written: Result<
    DnsRecord,
    ReconciliationError,
>)
    ensures
        written_view(written) == updated_record(reply),
{
    read_written(
        reply,
        "Failed to send update request to Cloudflare",
        "Failed to parse Cloudflare update response",
    )
}

/// How far a reconciliation has come: nothing was sent yet, or the reply to
/// the call of the step before has arrived. After an update it also holds
/// the identifier of the record that the update was sent to.
#[derive(Debug)]
pub enum Progress {
    Start,
    Looked { listing: Reply<CloudflareListResponse> },
    Created { reply: Reply<CloudflareResponse> },
    Updated { record_id: String, reply: Reply<CloudflareResponse> },
}

/// What a reconciliation does next: send a call and come back with its
/// reply, or end with an outcome. An update names the record it goes to;
/// the caller hands that identifier back with the reply.
#[derive(Debug)]
pub enum Step {
    Lookup { call: ApiCall },
    Create { call: ApiCall },
    Update { call: ApiCall, record_id: String },
    Done { outcome: Result<DnsUpdateResult, ReconciliationError> },
}

/// A `Step` as plain values.
pub ghost enum StepView {
    Lookup { call: CallView },
    Create { call: CallView },
    Update { call: CallView, record_id: Seq<char> },
    Done { outcome: Result<UpdateView, Failure> },
}

impl View for Step {
    type V = StepView;

    open spec fn view(&self) -> StepView {
        match self {
            Step::Lookup { call } => StepView::Lookup { call: call@ },
            Step::Create { call } => StepView::Create { call: call@ },
            Step::Update { call, record_id } => StepView::Update {
                call: call@,
                record_id: record_id@,
            },
            Step::Done { outcome } => StepView::Done {
                outcome: match outcome {
                    Ok(result) => Ok(result@),
                    Err(error) => Err(error@),
                },
            },
        }
    }
}

/// The result reported where the record already holds the address.
pub open spec fn unchanged_result(record_id: Seq<char>, ip: Seq<char>) -> UpdateView {
    UpdateView {
        success: true,
        message: "Record already up to date with IP "@ + ip,
        record_id: Some(record_id),
    }
}

/// The result reported after an update.
pub open spec fn updated_result(record_id: Seq<char>, host: Seq<char>, ip: Seq<char>) -> UpdateView {
    UpdateView {
        success: true,
        message: "Updated record "@ + host + " to IP "@ + ip,
        record_id: Some(record_id),
    }
}

/// The result reported after a creation.
pub open spec fn created_result(record_id: Seq<char>, host: Seq<char>, ip: Seq<char>) -> UpdateView {
    UpdateView {
        success: true,
        message: "Created new record "@ + host + " with IP "@ + ip,
        record_id: Some(record_id),
    }
}

/// The outcome after the reply to a creation.
pub open spec fn creation_outcome(
    reply: Reply<CloudflareResponse>,
    host: Seq<char>,
    ip: Seq<char>,
) -> Result<UpdateView, Failure> {
    match created_record(reply) {
        Ok(record) => Ok(created_result(record.id, host, ip)),
        Err(failure) => Err(failure),
    }
}

/// The outcome after the reply to an update of the record `record_id`: the
/// identifier reported is that of the record the update was sent to.
pub open spec fn update_outcome(
    reply: Reply<CloudflareResponse>,
    record_id: Seq<char>,
    host: Seq<char>,
    ip: Seq<char>,
) -> Result<UpdateView, Failure> {
    match updated_record(reply) {
        Ok(record) => Ok(updated_result(record_id, host, ip)),
        Err(failure) => Err(failure),
    }
}

/// The step that follows `progress` when the record `host` is to hold `ip`.
pub open spec fn next_step(
    config: ProviderConfig,
    host: Seq<char>,
    ip: Seq<char>,
    progress: Progress,
) -> StepView {
    match progress {
        Progress::Start => StepView::Lookup { call: lookup_call(config, host) },
        Progress::Looked { listing } => match found_record(listing) {
            Err(failure) => StepView::Done { outcome: Err(failure) },
            Ok(Some(existing)) => if existing.content == ip {
                StepView::Done { outcome: Ok(unchanged_result(existing.id, ip)) }
            } else {
                StepView::Update {
                    call: update_call(config, existing.id, host, ip),
                    record_id: existing.id,
                }
            },
            Ok(None) => StepView::Create { call: create_call(config, host, ip) },
        },
        Progress::Created { reply } => StepView::Done { outcome: creation_outcome(reply, host, ip) },
        Progress::Updated { record_id, reply } => StepView::Done {
            outcome: update_outcome(reply, record_id@, host, ip),
        },
    }
}

/// Takes one step towards the record `host` holding the address `ip`.
///
/// Started with `Progress::Start`, it asks for the lookup. Given the reply
/// to the lookup, it ends at once where the lookup failed or the record
/// already holds `ip`, and asks for the one write that is needed otherwise.
/// Given the reply to that write, it ends: after a creation with the
/// identifier of the new record, after an update with the identifier of the
/// record that the update was sent to.
pub fn update_record(config: &ProviderConfig, host: &str, ip: &str, progress: Progress) -> (step:
    Step)
    ensures
        step@ == next_step(*config, host@, ip@, progress),
{
    match progress {
        Progress::Start => Step::Lookup { call: get_record_call(config, host) },
        Progress::Looked { listing } => match get_record(listing) {
            Err(error) => Step::Done { outcome: Err(error) },
            Ok(Some(existing)) => {
                if same_text(existing.content.as_str(), ip) {
                    let mut message = String::from_str("Record already up to date with IP ");
                    message.append(ip);
                    Step::Done {
                        outcome: Ok(
                            DnsUpdateResult { success: true, message, record_id: Some(existing.id) },
                        ),
                    }
                } else {
                    Step::Update {
                        call: update_existing_record_call(config, existing.id.as_str(), host, ip),
                        record_id: existing.id,
                    }
                }
            },
            Ok(None) => Step::Create { call: create_record_call(config, host, ip) },
        },
        Progress::Created { reply } => match create_record(reply) {
            Err(error) => Step::Done { outcome: Err(error) },
            Ok(record) => {
                let mut message = String::from_str("Created new record ");
                message.append(host);
                message.append(" with IP ");
                message.append(ip);
                Step::Done {
                    outcome: Ok(
                        DnsUpdateResult { success: true, message, record_id: Some(record.id) },
                    ),
                }
            },
        },
        Progress::Updated { record_id, reply } => match update_existing_record(reply) {
            Err(error) => Step::Done { outcome: Err(error) },
            Ok(_) => {
                let mut message = String::from_str("Updated record ");
                message.append(host);
                message.append(" to IP ");
                message.append(ip);
                Step::Done {
                    outcome: Ok(
                        DnsUpdateResult { success: true, message, record_id: Some(record_id) },
                    ),
                }
            },
        },
    }
}

} // verus!
