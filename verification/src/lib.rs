//! Retrieve AWS secrets and interact with Secrets Manager and SSM Parameter
//! Store.
//!
//! Every operation is one exchange with the provider: it sends one request
//! and makes its result of the one answer. This crate holds the two ends of
//! such an exchange and leaves the wire to the caller. An operation is a
//! method on the identifier, a `&str`, through [`SSMParamExt`] and
//! [`SecretsExt`]; it takes the transport as a function from the request to
//! the provider's answer, calls it once, and returns the value or a typed
//! [`Error`] that carries the identifier and the provider's own error.
//! Nothing is retried, cached or kept between calls.
//!
//! A caller that sends by other means, such as an async client, builds the
//! request with [`ParameterRequest::new`](params::ParameterRequest::new),
//! [`SecretRequest::new`](secretsmanager::SecretRequest::new) or
//! [`TagRequest::new`](secretsmanager::TagRequest::new) and hands the way it
//! ended to [`read_parameter`](params::read_parameter),
//! [`read_secret`](secretsmanager::read_secret) or
//! [`tagged`](secretsmanager::tagged).

use vstd::prelude::*;

pub mod errors;
pub mod json;
pub mod params;
pub mod sdk;
pub mod secretsmanager;
pub mod text;
pub mod types;

pub use errors::Error;
pub use params::SSMParamExt;
pub use secretsmanager::SecretsExt;
pub use types::Result;

use errors::{text_view, ErrorView};
use params::{carries_value, parameter_value, ParameterOutcome};
use secretsmanager::{
    carries_payload, decoded_value, secret_payload, tag_result, SecretOutcome, TagOutcome,
};

verus! {

/// Reads that are under way at the same time do not touch each other.
///
/// Take a read of a parameter and a read of a secret, each with the outcome
/// of its own request, and run them twice: once the parameter's request ends
/// first, once the secret's. Whatever the two reads return, both times the
/// parameter read returns the same, the value of its own answer or its own
/// failure under its own name, and so does the secret read; neither ever
/// returns the other's kind of failure.
pub proof fn lemma_reads_do_not_interfere(
    parameter: Seq<char>,
    parameter_outcome: ParameterOutcome,
    secret: Seq<char>,
    secret_outcome: SecretOutcome,
    parameter_first: (std::result::Result<String, Error>, std::result::Result<String, Error>),
    secret_first: (std::result::Result<String, Error>, std::result::Result<String, Error>),
)
    requires
        carries_value(parameter_outcome),
        carries_payload(secret_outcome),
        text_view(parameter_first.0) == parameter_value(parameter, parameter_outcome),
        text_view(parameter_first.1) == secret_payload(secret, secret_outcome),
        text_view(secret_first.0) == parameter_value(parameter, parameter_outcome),
        text_view(secret_first.1) == secret_payload(secret, secret_outcome),
    ensures
        text_view(parameter_first.0) == text_view(secret_first.0),
        text_view(parameter_first.1) == text_view(secret_first.1),
        match parameter_outcome {
            Ok(response) => parameter_first.0 matches Ok(text) && response.value() == Some(text@),
            Err(source) => parameter_first.0 matches Err(e) && e@ == (ErrorView::ReadParam {
                param_name: parameter,
                source,
            }),
        },
        match secret_outcome {
            Ok(response) => parameter_first.1 matches Ok(text) && response.payload() == Some(
                text@,
            ),
            Err(source) => parameter_first.1 matches Err(e) && e@ == (ErrorView::ReadSecret {
                secret_name: secret,
                source,
            }),
        },
        parameter_first.0 matches Err(e) ==> !(e is ReadSecret),
        parameter_first.1 matches Err(e) ==> !(e is ReadParam),
{
}

/// No operation ends in [`Error::Unknown`]: whatever the provider or the
/// parser answered, the failure that an operation makes of it names the
/// operation.
pub proof fn lemma_unknown_is_never_returned<T>(
    name: Seq<char>,
    parameter_outcome: ParameterOutcome,
    secret_outcome: SecretOutcome,
    parsed: std::result::Result<T, serde_json::Error>,
    tag_outcome: TagOutcome,
)
    ensures
        parameter_value(name, parameter_outcome) matches Err(e) ==> e is ReadParam,
        secret_payload(name, secret_outcome) matches Err(e) ==> e is ReadSecret,
        decoded_value(parsed) matches Err(e) ==> e is DeserializeError,
        tag_result(tag_outcome) matches Err(e) ==> e is SetTag,
{
}

} // verus!
