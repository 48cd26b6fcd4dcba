//! Dispatch by provider type, a whole reconciliation as the calls it sends
//! and the outcome it ends with, and what holds of every reconciliation.

use crate::config::ProviderConfig;
use crate::provider::cloudflare::{
    api_error_message, create_call, creation_outcome, error_line, found_record, joined_errors,
    lookup_call, next_step, unchanged_result, update_call, update_outcome, update_record, ApiCall,
    CallView, CloudflareError, CloudflareListResponse, CloudflareResponse, Method, Progress, Reply,
    Step, StepView,
};
use crate::provider::{outcome_view, DnsUpdateResult, Failure, ReconciliationError, UpdateView};
use crate::text::{contains_text, lemma_contains_middle, same_text};
use vstd::prelude::*;
use vstd::string::*;

verus! {

/// Whether an engine is registered for the provider type.
pub open spec fn is_supported(provider_type: Seq<char>) -> bool {
    provider_type == "cloudflare"@
}

/// The step that follows `progress` for the provider `config`.
pub open spec fn reconcile_step(
    config: ProviderConfig,
    host: Seq<char>,
    ip: Seq<char>,
    progress: Progress,
) -> StepView {
    if is_supported(config.provider_type@) {
        next_step(config, host, ip, progress)
    } else {
        StepView::Done {
            outcome: Err(Failure::UnsupportedProvider { provider_type: config.provider_type@ }),
        }
    }
}

/// Takes one step of the reconciliation of `host` with `ip` at the provider
/// `config`: the step of the engine registered for its type, or the end with
/// `UnsupportedProvider` where none is registered, whatever `progress` is.
pub fn reconcile(config: &ProviderConfig, host: &str, ip: &str, progress: Progress) -> (step: Step)
    ensures
        step@ == reconcile_step(*config, host@, ip@, progress),
{
    if same_text(config.provider_type.as_str(), "cloudflare") {
        update_record(config, host, ip, progress)
    } else {
        Step::Done {
            outcome: Err(
                ReconciliationError::UnsupportedProvider {
                    provider_type: config.provider_type.clone(),
                },
            ),
        }
    }
}

/// A whole reconciliation: the calls that were sent, in their order, and the
/// outcome.
#[derive(Debug)]
pub struct Transcript {
    pub calls: Vec<ApiCall>,
    pub outcome: Result<DnsUpdateResult, ReconciliationError>,
}

/// A `Transcript` as plain values.
pub ghost struct TranscriptView {
    pub calls: Seq<CallView>,
    pub outcome: Result<UpdateView, Failure>,
}

impl View for Transcript {
    type V = TranscriptView;

    open spec fn view(&self) -> TranscriptView {
        TranscriptView {
            calls: Seq::new(self.calls@.len(), |i: int| self.calls@[i]@),
            outcome: outcome_view(self.outcome),
        }
    }
}

/// The reconciliation of `host` with `ip` at the provider `config`, where
/// the lookup is answered by `lookup` and the write, if one is sent, by
/// `write`.
pub open spec fn reconciliation(
    config: ProviderConfig,
    host: Seq<char>,
    ip: Seq<char>,
    lookup: Reply<CloudflareListResponse>,
    write: Reply<CloudflareResponse>,
) -> TranscriptView {
    if !is_supported(config.provider_type@) {
        TranscriptView {
            calls: Seq::empty(),
            outcome: Err(Failure::UnsupportedProvider { provider_type: config.provider_type@ }),
        }
    } else {
        match found_record(lookup) {
            Err(failure) => TranscriptView {
                calls: seq![lookup_call(config, host)],
                outcome: Err(failure),
            },
            Ok(None) => TranscriptView {
                calls: seq![lookup_call(config, host), create_call(config, host, ip)],
                outcome: creation_outcome(write, host, ip),
            },
            Ok(Some(existing)) => if existing.content == ip {
                TranscriptView {
                    calls: seq![lookup_call(config, host)],
                    outcome: Ok(unchanged_result(existing.id, ip)),
                }
            } else {
                TranscriptView {
                    calls: seq![
                        lookup_call(config, host),
                        update_call(config, existing.id, host, ip),
                    ],
                    outcome: update_outcome(write, existing.id, host, ip),
                }
            },
        }
    }
}

/// Runs a whole reconciliation against replies that are known beforehand:
/// `lookup` answers the lookup, `write` the write if one is sent. It takes
/// the steps of `reconcile` and records the calls they ask for.
pub fn reconcile_with(
    config: &ProviderConfig,
    host: &str,
    ip: &str,
    lookup: Reply<CloudflareListResponse>,
    write: Reply<CloudflareResponse>,
) -> (transcript: Transcript)
    ensures
        transcript@ == reconciliation(*config, host@, ip@, lookup, write),
{
    let mut calls: Vec<ApiCall> = Vec::new();
    let first = match reconcile(config, host, ip, Progress::Start) {
        Step::Lookup { call } => call,
        Step::Done { outcome } => {
            let transcript = Transcript { calls, outcome };
            assert(transcript@.calls =~= Seq::empty());
            return transcript;
        },
        _ => vstd::pervasive::unreached(),
    };
    calls.push(first);
    let progress = match reconcile(config, host, ip, Progress::Looked { listing: lookup }) {
        Step::Done { outcome } => {
            let transcript = Transcript { calls, outcome };
            assert(transcript@.calls =~= seq![lookup_call(*config, host@)]);
            return transcript;
        },
        Step::Create { call } => {
            calls.push(call);
            Progress::Created { reply: write }
        },
        Step::Update { call, record_id } => {
            calls.push(call);
            Progress::Updated { record_id, reply: write }
        },
        Step::Lookup { call } => vstd::pervasive::unreached(),
    };
    match reconcile(config, host, ip, progress) {
        Step::Done { outcome } => {
            let transcript = Transcript { calls, outcome };
            assert(transcript@.calls =~= reconciliation(*config, host@, ip@, lookup, write).calls);
            transcript
        },
        _ => vstd::pervasive::unreached(),
    }
}

/// How many of `calls` use `method`.
pub open spec fn count_method(calls: Seq<CallView>, method: Method) -> nat
    decreases calls.len(),
{
    if calls.len() == 0 {
        0
    } else {
        count_method(calls.drop_last(), method) + if calls.last().method == method {
            1nat
        } else {
            0nat
        }
    }
}

/// How many of `calls` write: creations and updates together.
pub open spec fn count_writes(calls: Seq<CallView>) -> nat {
    count_method(calls, Method::Post) + count_method(calls, Method::Put)
}

/// The lookup's reply shows that the record already holds `ip`.
pub open spec fn already_current(lookup: Reply<CloudflareListResponse>, ip: Seq<char>) -> bool {
    match found_record(lookup) {
        Ok(Some(existing)) => existing.content == ip,
        _ => false,
    }
}

proof fn lemma_count_one(call: CallView, method: Method)
    ensures
        count_method(seq![call], method) == if call.method == method {
            1nat
        } else {
            0nat
        },
{
    reveal_with_fuel(count_method, 2);
    assert(seq![call].drop_last() =~= Seq::<CallView>::empty());
}

proof fn lemma_count_two(first: CallView, second: CallView, method: Method)
    ensures
        count_method(seq![first, second], method) == (if first.method == method {
            1nat
        } else {
            0nat
        }) + (if second.method == method {
            1nat
        } else {
            0nat
        }),
{
    lemma_count_one(first, method);
    assert(seq![first, second].drop_last() =~= seq![first]);
}

/// Every reconciliation sends at most one write, and never both a creation
/// and an update. It sends none where no engine is registered, where the
/// lookup fails, and where the record already holds the address.
pub proof fn law_at_most_one_write(
    config: ProviderConfig,
    host: Seq<char>,
    ip: Seq<char>,
    lookup: Reply<CloudflareListResponse>,
    write: Reply<CloudflareResponse>,
)
    ensures
        count_writes(reconciliation(config, host, ip, lookup, write).calls) <= 1,
        count_method(reconciliation(config, host, ip, lookup, write).calls, Method::Get) <= 1,
        count_writes(reconciliation(config, host, ip, lookup, write).calls) == 0 <==> (
        !is_supported(config.provider_type@) || found_record(lookup).is_err() || already_current(
            lookup,
            ip,
        )),
{
    let calls = reconciliation(config, host, ip, lookup, write).calls;
    if calls.len() == 1 {
        assert(calls =~= seq![calls[0]]);
        lemma_count_one(calls[0], Method::Get);
        lemma_count_one(calls[0], Method::Post);
        lemma_count_one(calls[0], Method::Put);
    } else if calls.len() == 2 {
        assert(calls =~= seq![calls[0], calls[1]]);
        lemma_count_two(calls[0], calls[1], Method::Get);
        lemma_count_two(calls[0], calls[1], Method::Post);
        lemma_count_two(calls[0], calls[1], Method::Put);
    }
}

/// Where the lookup finds no record, exactly one creation is sent, for the
/// host and the address asked for, and no update.
pub proof fn law_absent_record_is_created(
    config: ProviderConfig,
    host: Seq<char>,
    ip: Seq<char>,
    lookup: Reply<CloudflareListResponse>,
    write: Reply<CloudflareResponse>,
)
    requires
        is_supported(config.provider_type@),
        found_record(lookup) == Ok::<Option<crate::provider::cloudflare::RecordView>, Failure>(
            None,
        ),
    ensures
        reconciliation(config, host, ip, lookup, write).calls == seq![
            lookup_call(config, host),
            create_call(config, host, ip),
        ],
        count_method(reconciliation(config, host, ip, lookup, write).calls, Method::Post) == 1,
        count_method(reconciliation(config, host, ip, lookup, write).calls, Method::Put) == 0,
{
    lemma_count_two(lookup_call(config, host), create_call(config, host, ip), Method::Post);
    lemma_count_two(lookup_call(config, host), create_call(config, host, ip), Method::Put);
}

/// Where the lookup finds a record with another address, exactly one update
/// is sent, to that record's identifier, and no creation.
pub proof fn law_stale_record_is_updated(
    config: ProviderConfig,
    host: Seq<char>,
    ip: Seq<char>,
    lookup: Reply<CloudflareListResponse>,
    write: Reply<CloudflareResponse>,
)
    requires
        is_supported(config.provider_type@),
        found_record(lookup) matches Ok(Some(existing)) && existing.content != ip,
    ensures
        reconciliation(config, host, ip, lookup, write).calls == seq![
            lookup_call(config, host),
            update_call(config, found_record(lookup)->Ok_0->Some_0.id, host, ip),
        ],
        count_method(reconciliation(config, host, ip, lookup, write).calls, Method::Put) == 1,
        count_method(reconciliation(config, host, ip, lookup, write).calls, Method::Post) == 0,
{
    let update = update_call(config, found_record(lookup)->Ok_0->Some_0.id, host, ip);
    lemma_count_two(lookup_call(config, host), update, Method::Post);
    lemma_count_two(lookup_call(config, host), update, Method::Put);
}

/// The joined errors contain the line of each error.
pub proof fn lemma_joined_contains(errors: Seq<CloudflareError>, at: int)
    requires
        0 <= at < errors.len(),
    ensures
        contains_text(joined_errors(errors), error_line(errors[at])),
    decreases errors.len(),
{
    let empty = Seq::<char>::empty();
    if errors.len() == 1 {
        lemma_contains_middle(empty, error_line(errors[0]), empty);
        assert(empty + error_line(errors[0]) + empty =~= joined_errors(errors));
    } else if at == errors.len() - 1 {
        let before = joined_errors(errors.drop_last()) + ", "@;
        lemma_contains_middle(before, error_line(errors.last()), empty);
        assert(before + error_line(errors.last()) + empty =~= joined_errors(errors));
    } else {
        let rest = errors.drop_last();
        lemma_joined_contains(rest, at);
        let inner = joined_errors(rest);
        let needle = error_line(errors[at]);
        assert(rest[at] == errors[at]);
        let start = choose|start: int|
            0 <= start && start + needle.len() <= inner.len() && #[trigger] inner.subrange(
                start,
                start + needle.len(),
            ) == needle;
        let whole = joined_errors(errors);
        assert(whole.subrange(start, start + needle.len()) =~= inner.subrange(
            start,
            start + needle.len(),
        ));
    }
}

/// The message of a refusal contains the code and message of every error
/// that the reply lists.
pub proof fn lemma_message_contains_every_error(errors: Seq<CloudflareError>)
    ensures
        forall|at: int|
            0 <= at < errors.len() ==> contains_text(
                api_error_message(errors),
                #[trigger] error_line(errors[at]),
            ),
{
    let message = api_error_message(errors);
    assert forall|at: int| 0 <= at < errors.len() implies contains_text(
        message,
        #[trigger] error_line(errors[at]),
    ) by {
        lemma_joined_contains(errors, at);
        let inner = joined_errors(errors);
        let needle = error_line(errors[at]);
        let start = choose|start: int|
            0 <= start && start + needle.len() <= inner.len() && #[trigger] inner.subrange(
                start,
                start + needle.len(),
            ) == needle;
        let shift = "Cloudflare API error: "@.len() as int;
        assert(message.subrange(shift + start, shift + start + needle.len()) =~= inner.subrange(
            start,
            start + needle.len(),
        ));
    }
}

/// Where the lookup's reply reports a refusal, the reconciliation fails with
/// `ProviderApiError`, its message contains the code and message of every
/// error of the reply, and nothing but the lookup is sent.
pub proof fn law_lookup_refusal_is_reported(
    config: ProviderConfig,
    host: Seq<char>,
    ip: Seq<char>,
    response: CloudflareListResponse,
    write: Reply<CloudflareResponse>,
)
    requires
        is_supported(config.provider_type@),
        !response.success,
    ensures
        ({
            let run = reconciliation(config, host, ip, Reply::Body { response }, write);
            &&& run.calls == seq![lookup_call(config, host)]
            &&& count_writes(run.calls) == 0
            &&& run.outcome == Err::<UpdateView, Failure>(
                Failure::ProviderApiError { message: api_error_message(response.errors@) },
            )
            &&& forall|at: int|
                0 <= at < response.errors@.len() ==> contains_text(
                    api_error_message(response.errors@),
                    #[trigger] error_line(response.errors@[at]),
                )
        }),
{
    let lookup = Reply::Body { response };
    law_at_most_one_write(config, host, ip, lookup, write);
    lemma_message_contains_every_error(response.errors@);
}

/// Where the reply to the write reports a refusal, the reconciliation fails
/// with `ProviderApiError`, and its message contains the code and message of
/// every error of that reply.
pub proof fn law_write_refusal_is_reported(
    config: ProviderConfig,
    host: Seq<char>,
    ip: Seq<char>,
    lookup: Reply<CloudflareListResponse>,
    response: CloudflareResponse,
)
    requires
        is_supported(config.provider_type@),
        found_record(lookup).is_ok(),
        !already_current(lookup, ip),
        !response.success,
    ensures
        reconciliation(config, host, ip, lookup, Reply::Body { response }).outcome == Err::<
            UpdateView,
            Failure,
        >(Failure::ProviderApiError { message: api_error_message(response.errors@) }),
        forall|at: int|
            0 <= at < response.errors@.len() ==> contains_text(
                api_error_message(response.errors@),
                #[trigger] error_line(response.errors@[at]),
            ),
{
    lemma_message_contains_every_error(response.errors@);
}

/// The steps of `reconcile` make up the reconciliation: the first step asks
/// for the lookup; the step after the lookup's reply ends with the outcome or
/// asks for the one write; the step after the write's reply, given the
/// identifier that an update named, ends with the outcome.
pub proof fn law_steps_make_the_reconciliation(
    config: ProviderConfig,
    host: Seq<char>,
    ip: Seq<char>,
    lookup: Reply<CloudflareListResponse>,
    write: Reply<CloudflareResponse>,
)
    requires
        is_supported(config.provider_type@),
    ensures
        ({
            let run = reconciliation(config, host, ip, lookup, write);
            let first = reconcile_step(config, host, ip, Progress::Start);
            let second = reconcile_step(config, host, ip, Progress::Looked { listing: lookup });
            &&& run.calls.len() >= 1
            &&& first == (StepView::Lookup { call: run.calls[0] })
            &&& match second {
                StepView::Done { outcome } => run.calls.len() == 1 && run.outcome == outcome,
                StepView::Create { call } => {
                    &&& run.calls.len() == 2
                    &&& run.calls[1] == call
                    &&& reconcile_step(config, host, ip, Progress::Created { reply: write }) == (
                    StepView::Done { outcome: run.outcome })
                },
                StepView::Update { call, record_id } => {
                    &&& run.calls.len() == 2
                    &&& run.calls[1] == call
                    &&& forall|id: String|
                        id@ == record_id ==> #[trigger] reconcile_step(
                            config,
                            host,
                            ip,
                            Progress::Updated { record_id: id, reply: write },
                        ) == (StepView::Done { outcome: run.outcome })
                },
                StepView::Lookup { call } => false,
            }
        }),
{
}

/// Where no engine is registered for the provider's type, the reconciliation
/// fails with `UnsupportedProvider`, which names the type, and sends no call.
pub proof fn law_unknown_type_sends_nothing(
    config: ProviderConfig,
    host: Seq<char>,
    ip: Seq<char>,
    lookup: Reply<CloudflareListResponse>,
    write: Reply<CloudflareResponse>,
)
    requires
        !is_supported(config.provider_type@),
    ensures
        reconciliation(config, host, ip, lookup, write).calls.len() == 0,
        reconciliation(config, host, ip, lookup, write).outcome == Err::<UpdateView, Failure>(
            Failure::UnsupportedProvider { provider_type: config.provider_type@ },
        ),
        forall|progress: Progress| #[trigger]
            reconcile_step(config, host, ip, progress) == (StepView::Done {
                outcome: Err(Failure::UnsupportedProvider { provider_type: config.provider_type@ }),
            }),
{
}

/// A second reconciliation for the same host and address writes nothing.
///
/// The first one went through. The backend then answers the second lookup
/// with the record that the first one reported, holding the address asked
/// for. Then the first one sent one write, unless the record already held
/// the address, and the second one sends none; both report success and the
/// same record identifier.
pub proof fn law_second_run_writes_nothing(
    config: ProviderConfig,
    host: Seq<char>,
    ip: Seq<char>,
    lookup: Reply<CloudflareListResponse>,
    write: Reply<CloudflareResponse>,
    second_lookup: Reply<CloudflareListResponse>,
    second_write: Reply<CloudflareResponse>,
)
    requires
        reconciliation(config, host, ip, lookup, write).outcome.is_ok(),
        found_record(second_lookup) matches Ok(Some(record)) && record.content == ip && Some(
            record.id,
        ) == reconciliation(config, host, ip, lookup, write).outcome->Ok_0.record_id,
    ensures
        ({
            let first = reconciliation(config, host, ip, lookup, write);
            let second = reconciliation(config, host, ip, second_lookup, second_write);
            &&& count_writes(first.calls) == if already_current(lookup, ip) {
                0nat
            } else {
                1nat
            }
            &&& count_writes(second.calls) == 0
            &&& first.outcome.is_ok() && first.outcome->Ok_0.success
            &&& second.outcome.is_ok() && second.outcome->Ok_0.success
            &&& first.outcome->Ok_0.record_id == second.outcome->Ok_0.record_id
        }),
{
    law_at_most_one_write(config, host, ip, lookup, write);
    law_at_most_one_write(config, host, ip, second_lookup, second_write);
}

} // verus!
