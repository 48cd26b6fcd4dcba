//! What every DNS backend gives back: the result of a reconciliation, or the
//! reason why it failed.

use vstd::prelude::*;
use vstd::string::*;

pub mod cloudflare;
pub mod dispatch;

verus! {

/// The outcome of a reconciliation that went through.
#[derive(Debug)]
pub struct DnsUpdateResult {
    pub success: bool,
    pub message: String,
    pub record_id: Option<String>,
}

/// A `DnsUpdateResult` as plain values.
pub ghost struct UpdateView {
    pub success: bool,
    pub message: Seq<char>,
    pub record_id: Option<Seq<char>>,
}

impl View for DnsUpdateResult {
    type V = UpdateView;

    open spec fn view(&self) -> UpdateView {
        UpdateView {
            success: self.success,
            message: self.message@,
            record_id: match self.record_id {
                Some(id) => Some(id@),
                None => None,
            },
        }
    }
}

/// Why a reconciliation failed.
#[derive(Debug)]
pub enum ReconciliationError {
    /// No engine is registered for the provider's type.
    UnsupportedProvider { provider_type: String },
    /// A call did not reach the backend, or its reply could not be read.
    TransportError { cause: String },
    /// The backend answered and refused; `message` holds its own codes and
    /// messages.
    ProviderApiError { message: String },
}

/// A `ReconciliationError` as plain values.
pub ghost enum Failure {
    UnsupportedProvider { provider_type: Seq<char> },
    TransportError { cause: Seq<char> },
    ProviderApiError { message: Seq<char> },
}

impl View for ReconciliationError {
    type V = Failure;

    open spec fn view(&self) -> Failure {
        match self {
            ReconciliationError::UnsupportedProvider { provider_type } => {
                Failure::UnsupportedProvider { provider_type: provider_type@ }
            },
            ReconciliationError::TransportError { cause } => Failure::TransportError {
                cause: cause@,
            },
            ReconciliationError::ProviderApiError { message } => Failure::ProviderApiError {
                message: message@,
            },
        }
    }
}

/// The text that describes a failure to a reader.
pub open spec fn failure_text(failure: Failure) -> Seq<char> {
    match failure {
        Failure::UnsupportedProvider { provider_type } => "Unsupported provider type: "@
            + provider_type,
        Failure::TransportError { cause } => cause,
        Failure::ProviderApiError { message } => message,
    }
}

impl ReconciliationError {
    /// The text that describes this failure to a reader.
    pub fn describe(&self) -> (text: String)
        ensures
            text@ == failure_text(self@),
    {
        match self {
            ReconciliationError::UnsupportedProvider { provider_type } => {
                let mut text = String::from_str("Unsupported provider type: ");
                text.append(provider_type.as_str());
                text
            },
            ReconciliationError::TransportError { cause } => cause.clone(),
            ReconciliationError::ProviderApiError { message } => message.clone(),
        }
    }
}

/// The outcome of a whole reconciliation as plain values.
pub open spec fn outcome_view(outcome: Result<DnsUpdateResult, ReconciliationError>) -> Result<
    UpdateView,
    Failure,
> {
    match outcome {
        Ok(result) => Ok(result@),
        Err(error) => Err(error@),
    }
}

} // verus!
