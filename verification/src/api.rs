//! The update request as the server handles it: who may ask, what is sent to
//! the provider, and what is answered.

use crate::address::{is_dotted_quad, is_valid_ipv4};
use crate::config::{Config, ProviderConfig};
use crate::provider::cloudflare::{ApiCall, CallView, Progress, Step, StepView};
use crate::provider::dispatch::{reconcile, reconcile_step};
use crate::provider::{failure_text, DnsUpdateResult, Failure, ReconciliationError, UpdateView};
use crate::text::same_text;
use vstd::prelude::*;
use vstd::string::*;

verus! {

/// What every request handler shares: the configuration.
pub struct AppState {
    pub config: Config,
}

/// Why a request is turned away before anything is sent to a provider.
#[derive(Debug)]
pub enum Refusal {
    /// The address is no IPv4 address in dotted-quad notation.
    InvalidAddress { ip: String },
    /// No provider of that name is configured.
    UnknownProvider { name: String },
    /// The provider asks for a key, and the request did not show it.
    AuthenticationFailed,
}

/// A `Refusal` as plain values.
pub ghost enum RefusalView {
    InvalidAddress { ip: Seq<char> },
    UnknownProvider { name: Seq<char> },
    AuthenticationFailed,
}

impl View for Refusal {
    type V = RefusalView;

    open spec fn view(&self) -> RefusalView {
        match self {
            Refusal::InvalidAddress { ip } => RefusalView::InvalidAddress { ip: ip@ },
            Refusal::UnknownProvider { name } => RefusalView::UnknownProvider { name: name@ },
            Refusal::AuthenticationFailed => RefusalView::AuthenticationFailed,
        }
    }
}

/// The key that a request shows, as plain values.
pub open spec fn shown_key(key: Option<&str>) -> Option<Seq<char>> {
    match key {
        Some(text) => Some(text@),
        None => None,
    }
}

/// Whether the key that a request shows opens the provider: any does where
/// the provider has none; otherwise exactly the provider's key does,
/// character for character, and a request without a key shows the empty one.
pub open spec fn key_accepted(configured: Option<String>, shown: Option<Seq<char>>) -> bool {
    match configured {
        None => true,
        Some(secret) => secret@ == match shown {
            Some(text) => text,
            None => Seq::<char>::empty(),
        },
    }
}

/// Whether the key that a request shows opens the provider.
pub fn authorize(provider: &ProviderConfig, key: Option<&str>) -> (accepted: bool)
    ensures
        accepted == key_accepted(provider.key, shown_key(key)),
{
    match &provider.key {
        None => true,
        Some(secret) => {
            let shown = match key {
                Some(text) => text,
                None => "",
            };
            proof {
                reveal_strlit("");
                assert(""@ =~= Seq::<char>::empty());
            }
            same_text(secret.as_str(), shown)
        },
    }
}

/// The provider that a request is admitted to, or why it is turned away. The
/// address is looked at first, then the provider's name, then the key.
pub open spec fn admission(
    config: Config,
    provider_name: Seq<char>,
    ip: Seq<char>,
    key: Option<Seq<char>>,
) -> Result<ProviderConfig, RefusalView> {
    if !is_dotted_quad(ip) {
        Err(RefusalView::InvalidAddress { ip })
    } else {
        match config.provider_named(provider_name) {
            None => Err(RefusalView::UnknownProvider { name: provider_name }),
            Some(provider) => if key_accepted(provider.key, key) {
                Ok(provider)
            } else {
                Err(RefusalView::AuthenticationFailed)
            },
        }
    }
}

/// The result of `check_request` as plain values.
pub open spec fn admitted_view(admitted: Result<&ProviderConfig, Refusal>) -> Result<
    ProviderConfig,
    RefusalView,
> {
    match admitted {
        Ok(provider) => Ok(*provider),
        Err(refusal) => Err(refusal@),
    }
}

/// Decides whether a request may update a record, and at which provider.
pub fn check_request<'a>(state: &'a AppState, provider_name: &str, ip: &str, key: Option<&str>) -> (admitted:
    Result<&'a ProviderConfig, Refusal>)
    ensures
        admitted_view(admitted) == admission(state.config, provider_name@, ip@, shown_key(key)),
{
    if !is_valid_ipv4(ip) {
        return Err(Refusal::InvalidAddress { ip: String::from_str(ip) });
    }
    match state.config.get_provider(provider_name) {
        None => Err(Refusal::UnknownProvider { name: String::from_str(provider_name) }),
        Some(provider) => {
            if authorize(provider, key) {
                Ok(provider)
            } else {
                Err(Refusal::AuthenticationFailed)
            }
        },
    }
}

/// The answer to a request: a status and the fields of its body.
#[derive(Debug)]
pub enum HttpReply {
    Updated { status: u16, success: bool, message: String, record_id: Option<String> },
    Failed { status: u16, success: bool, error: String },
}

/// An `HttpReply` as plain values.
pub ghost enum ReplyView {
    Updated { status: u16, success: bool, message: Seq<char>, record_id: Option<Seq<char>> },
    Failed { status: u16, success: bool, error: Seq<char> },
}

impl View for HttpReply {
    type V = ReplyView;

    open spec fn view(&self) -> ReplyView {
        match self {
            HttpReply::Updated { status, success, message, record_id } => ReplyView::Updated {
                status: *status,
                success: *success,
                message: message@,
                record_id: match record_id {
                    Some(id) => Some(id@),
                    None => None,
                },
            },
            HttpReply::Failed { status, success, error } => ReplyView::Failed {
                status: *status,
                success: *success,
                error: error@,
            },
        }
    }
}

/// The answer to a request that is turned away: 400 for a bad address, 404
/// for an unknown provider, 401 for a wrong key.
pub open spec fn refusal_answer(refusal: RefusalView) -> ReplyView {
    match refusal {
        RefusalView::InvalidAddress { ip } => ReplyView::Failed {
            status: 400,
            success: false,
            error: "Invalid IP address: "@ + ip,
        },
        RefusalView::UnknownProvider { name } => ReplyView::Failed {
            status: 404,
            success: false,
            error: "Provider not found: "@ + name,
        },
        RefusalView::AuthenticationFailed => ReplyView::Failed {
            status: 401,
            success: false,
            error: "Invalid key"@,
        },
    }
}

/// The answer to a request whose reconciliation has ended: 200 with the
/// result, 400 where no engine is registered for the provider's type, 500
/// with the failure's text for every other failure.
pub open spec fn outcome_answer(outcome: Result<UpdateView, Failure>) -> ReplyView {
    match outcome {
        Ok(result) => ReplyView::Updated {
            status: 200,
            success: result.success,
            message: result.message,
            record_id: result.record_id,
        },
        Err(Failure::UnsupportedProvider { provider_type }) => ReplyView::Failed {
            status: 400,
            success: false,
            error: "Unsupported provider type: "@ + provider_type,
        },
        Err(failure) => ReplyView::Failed {
            status: 500,
            success: false,
            error: "DNS update failed: "@ + failure_text(failure),
        },
    }
}

/// Answers a request that is turned away.
pub fn refusal_reply(refusal: Refusal) -> (reply: HttpReply)
    ensures
        reply@ == refusal_answer(refusal@),
{
    match refusal {
        Refusal::InvalidAddress { ip } => {
            let mut error = String::from_str("Invalid IP address: ");
            error.append(ip.as_str());
            HttpReply::Failed { status: 400, success: false, error }
        },
        Refusal::UnknownProvider { name } => {
            let mut error = String::from_str("Provider not found: ");
            error.append(name.as_str());
            HttpReply::Failed { status: 404, success: false, error }
        },
        Refusal::AuthenticationFailed => HttpReply::Failed {
            status: 401,
            success: false,
            error: String::from_str("Invalid key"),
        },
    }
}

/// Answers a request whose reconciliation has ended.
pub fn outcome_reply(outcome: Result<DnsUpdateResult, ReconciliationError>) -> (reply: HttpReply)
    ensures
        reply@ == outcome_answer(crate::provider::outcome_view(outcome)),
{
    match outcome {
        Ok(result) => HttpReply::Updated {
            status: 200,
            success: result.success,
            message: result.message,
            record_id: result.record_id,
        },
        Err(failure) => {
            let text = failure.describe();
            match failure {
                ReconciliationError::UnsupportedProvider { provider_type } => HttpReply::Failed {
                    status: 400,
                    success: false,
                    error: text,
                },
                _ => {
                    let mut error = String::from_str("DNS update failed: ");
                    error.append(text.as_str());
                    HttpReply::Failed { status: 500, success: false, error }
                },
            }
        },
    }
}

/// What the server does next for a request: send a call to the provider and
/// come back with its reply, or answer.
#[derive(Debug)]
pub enum Handling {
    Lookup { call: ApiCall },
    Create { call: ApiCall },
    Update { call: ApiCall, record_id: String },
    Respond { reply: HttpReply },
}

/// A `Handling` as plain values.
pub ghost enum HandlingView {
    Lookup { call: CallView },
    Create { call: CallView },
    Update { call: CallView, record_id: Seq<char> },
    Respond { reply: ReplyView },
}

impl View for Handling {
    type V = HandlingView;

    open spec fn view(&self) -> HandlingView {
        match self {
            Handling::Lookup { call } => HandlingView::Lookup { call: call@ },
            Handling::Create { call } => HandlingView::Create { call: call@ },
            Handling::Update { call, record_id } => HandlingView::Update {
                call: call@,
                record_id: record_id@,
            },
            Handling::Respond { reply } => HandlingView::Respond { reply: reply@ },
        }
    }
}

/// What the server does next for a request that has come as far as
/// `progress`: the answer that turns it away, the call that its
/// reconciliation asks for, or the answer that ends it.
pub open spec fn handling(
    config: Config,
    provider_name: Seq<char>,
    host: Seq<char>,
    ip: Seq<char>,
    key: Option<Seq<char>>,
    progress: Progress,
) -> HandlingView {
    match admission(config, provider_name, ip, key) {
        Err(refusal) => HandlingView::Respond { reply: refusal_answer(refusal) },
        Ok(provider) => match reconcile_step(provider, host, ip, progress) {
            StepView::Lookup { call } => HandlingView::Lookup { call },
            StepView::Create { call } => HandlingView::Create { call },
            StepView::Update { call, record_id } => HandlingView::Update { call, record_id },
            StepView::Done { outcome } => HandlingView::Respond { reply: outcome_answer(outcome) },
        },
    }
}

/// Handles one turn of an update request: `GET /ddns/{provider}/{host}/{ip}`
/// with an optional `key`. A request that is turned away sends nothing to
/// any provider.
pub fn update_dns(
    state: &AppState,
    provider_name: &str,
    host: &str,
    ip: &str,
    key: Option<&str>,
    progress: Progress,
) -> (next: Handling)
    ensures
        next@ == handling(state.config, provider_name@, host@, ip@, shown_key(key), progress),
{
    match check_request(state, provider_name, ip, key) {
        Err(refusal) => Handling::Respond { reply: refusal_reply(refusal) },
        Ok(provider) => match reconcile(provider, host, ip, progress) {
            Step::Lookup { call } => Handling::Lookup { call },
            Step::Create { call } => Handling::Create { call },
            Step::Update { call, record_id } => Handling::Update { call, record_id },
            Step::Done { outcome } => Handling::Respond { reply: outcome_reply(outcome) },
        },
    }
}

/// A request that is turned away is answered at once, however far it has
/// come: no call goes to any provider.
pub proof fn law_refused_request_sends_nothing(
    config: Config,
    provider_name: Seq<char>,
    host: Seq<char>,
    ip: Seq<char>,
    key: Option<Seq<char>>,
    progress: Progress,
)
    requires
        admission(config, provider_name, ip, key).is_err(),
    ensures
        handling(config, provider_name, host, ip, key, progress) == (HandlingView::Respond {
            reply: refusal_answer(admission(config, provider_name, ip, key)->Err_0),
        }),
{
}

/// A request is admitted exactly when its address is a dotted quad, a
/// provider of the name is configured, and the key shown opens the first
/// provider of that name.
pub proof fn law_admission(
    config: Config,
    provider_name: Seq<char>,
    ip: Seq<char>,
    key: Option<Seq<char>>,
)
    ensures
        admission(config, provider_name, ip, key).is_ok() <==> (is_dotted_quad(ip)
            && config.provider_named(provider_name).is_some() && key_accepted(
            config.provider_named(provider_name)->Some_0.key,
            key,
        )),
{
}

} // verus!
