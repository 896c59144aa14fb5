//! Reading and tagging secrets in Secrets Manager.
//!
//! As with parameters, each operation is one exchange with the provider. This
//! module says which request an operation sends and what it makes of the
//! answer; the caller hands in the transport as a function from the request
//! to the provider's answer.

use aws_sdk_secretsmanager::error::SdkError as SMError;
use aws_sdk_secretsmanager::operation::get_secret_value::GetSecretValueError;
use aws_sdk_secretsmanager::operation::tag_resource::{TagResourceError, TagResourceOutput};
use serde::de::DeserializeOwned;
use vstd::prelude::*;

use crate::errors::{text_view, Error, ErrorView};
use crate::json::from_json_str;

verus! {

/// A `secretsmanager:GetSecretValue` request.
#[derive(Clone, Debug, PartialEq, Eq)]
pub struct SecretRequest {
    /// Name or ARN of the secret to retrieve.
    pub secret_id: String,
}

impl View for SecretRequest {
    type V = Seq<char>;

    /// A request is the identifier that it asks for.
    open spec fn view(&self) -> Seq<char> {
        self.secret_id@
    }
}

impl SecretRequest {
    /// The request for the secret `secret_id`.
    pub fn new(secret_id: &str) -> (request: SecretRequest)
        ensures
            request@ == secret_id@,
    {
        SecretRequest { secret_id: secret_id.to_owned() }
    }
}

/// What this crate reads of the provider's answer to a
/// `secretsmanager:GetSecretValue` request.
#[derive(Clone, Debug, PartialEq, Eq)]
pub struct SecretResponse {
    /// The secret in its string form, where the provider sent it so. A
    /// secret that is stored in binary form has none.
    pub secret_string: Option<String>,
}

impl SecretResponse {
    /// The secret string that the response carries, if any.
    pub open spec fn payload(&self) -> Option<Seq<char>> {
        match self.secret_string {
            Some(text) => Some(text@),
            None => None,
        }
    }

    /// Whether the response carries a secret string.
    pub fn has_payload(&self) -> (b: bool)
        ensures
            b == self.payload() is Some,
    {
        self.secret_string.is_some()
    }
}

/// How a `secretsmanager:GetSecretValue` request ended: with the provider's
/// answer or with the SDK's error.
pub type SecretOutcome = Result<SecretResponse, SMError<GetSecretValueError>>;

/// Whether `outcome`, if it is an answer, carries a secret string. A read
/// takes no other answer.
pub open spec fn carries_payload(outcome: SecretOutcome) -> bool {
    outcome matches Ok(response) ==> response.payload() is Some
}

/// The secret string that a read of the secret `name` has to decode when its
/// request ended in `outcome`, or the SDK's error together with the name that
/// was asked for.
pub open spec fn secret_payload(name: Seq<char>, outcome: SecretOutcome) -> Result<
    Seq<char>,
    ErrorView,
>
    recommends
        carries_payload(outcome),
{
    match outcome {
        Ok(response) => Ok(response.payload()->0),
        Err(source) => Err(ErrorView::ReadSecret { secret_name: name, source }),
    }
}

/// Takes the secret string of the secret `name` from the way its request
/// ended.
///
/// An answer without a secret string is not a case this function handles:
/// the caller tests [`SecretResponse::has_payload`] first.
pub fn read_secret(name: &str, outcome: SecretOutcome) -> (r: Result<String, Error>)
    requires
        carries_payload(outcome),
    ensures
        text_view(r) == secret_payload(name@, outcome),
{
    match outcome {
        Ok(response) => Ok(response.secret_string.unwrap()),
        Err(source) => Err(Error::ReadSecret { secret_name: name.to_owned(), source }),
    }
}

/// What the caller gets for a secret string that the parser has been
/// through: the value that the parser built, or the parser's error as
/// [`Error::DeserializeError`].
pub open spec fn decoded_value<T>(parsed: Result<T, serde_json::Error>) -> Result<T, Error> {
    match parsed {
        Ok(value) => Ok(value),
        Err(source) => Err(Error::DeserializeError(source)),
    }
}

/// Turns the parser's outcome into the caller's.
pub fn decoded<T>(parsed: Result<T, serde_json::Error>) -> (r: Result<T, Error>)
    ensures
        r == decoded_value(parsed),
{
    match parsed {
        Ok(value) => Ok(value),
        Err(source) => Err(Error::DeserializeError(source)),
    }
}

/// `parsed` is an outcome of handing the text `payload` to the JSON parser
/// for a `T`.
///
/// This is a relation and not a function: what the parser answers rests on
/// `T`'s own way of reading JSON, of which nothing is assumed.
pub closed spec fn parses<T: DeserializeOwned>(
    payload: Seq<char>,
    parsed: Result<T, serde_json::Error>,
) -> bool {
    exists|text: &str| text@ == payload && call_ensures(from_json_str::<T>, (text,), parsed)
}

/// `r` is what decoding the secret string `payload` into a `T` yields: the
/// parser was handed `payload`, and `r` is made of its outcome.
pub open spec fn decodes<T: DeserializeOwned>(payload: Seq<char>, r: Result<T, Error>) -> bool {
    exists|parsed: Result<T, serde_json::Error>| #[trigger]
        parses(payload, parsed) && r == decoded_value(parsed)
}

/// Parses a secret string as JSON into a `T`. Whether that succeeds is the
/// parser's and `T`'s to say; where it fails, the failure is an
/// [`Error::DeserializeError`] with the parser's error.
pub fn decode<T: DeserializeOwned>(payload: &str) -> (r: Result<T, Error>)
    ensures
        decodes(payload@, r),
{
    let parse = from_json_str::<T>;
    let parsed = parse(payload);
    assert(parses(payload@, parsed));
    decoded(parsed)
}

/// A key/value label on a secret.
#[derive(Clone, Debug, PartialEq, Eq)]
pub struct Tag {
    pub key: String,
    pub value: String,
}

/// A `secretsmanager:TagResource` request that sets one tag.
#[derive(Clone, Debug, PartialEq, Eq)]
pub struct TagRequest {
    /// Name or ARN of the secret to tag.
    pub secret_id: String,
    /// The tag to set. It replaces a tag of the same key and leaves the
    /// secret's other tags as they are.
    pub tag: Tag,
}

/// A [`TagRequest`] with its parts as text.
pub struct TagRequestView {
    pub secret_id: Seq<char>,
    pub key: Seq<char>,
    pub value: Seq<char>,
}

impl View for TagRequest {
    type V = TagRequestView;

    open spec fn view(&self) -> TagRequestView {
        TagRequestView { secret_id: self.secret_id@, key: self.tag.key@, value: self.tag.value@ }
    }
}

impl TagRequest {
    /// The request that sets the tag `key` to `value` on the secret
    /// `secret_id`.
    pub fn new(secret_id: &str, key: &str, value: &str) -> (request: TagRequest)
        ensures
            request@ == (TagRequestView { secret_id: secret_id@, key: key@, value: value@ }),
    {
        TagRequest {
            secret_id: secret_id.to_owned(),
            tag: Tag { key: key.to_owned(), value: value.to_owned() },
        }
    }
}

/// How a `secretsmanager:TagResource` request ended: with the provider's
/// acknowledgment or with the SDK's error.
pub type TagOutcome = Result<TagResourceOutput, SMError<TagResourceError>>;

/// What a tag update yields when its request ended in `outcome`: the
/// provider's acknowledgment as it came, or the SDK's error as
/// [`Error::SetTag`].
pub open spec fn tag_result(outcome: TagOutcome) -> Result<TagResourceOutput, Error> {
    match outcome {
        Ok(acknowledgment) => Ok(acknowledgment),
        Err(source) => Err(Error::SetTag(source)),
    }
}

/// Makes the result of a tag update from the way its request ended.
pub fn tagged(outcome: TagOutcome) -> (r: Result<TagResourceOutput, Error>)
    ensures
        r == tag_result(outcome),
{
    match outcome {
        Ok(acknowledgment) => Ok(acknowledgment),
        Err(source) => Err(Error::SetTag(source)),
    }
}

/// `send` can be handed the request for the secret `name`, and every answer
/// that it gives to it carries a secret string.
pub open spec fn can_read_secret<F: FnOnce(SecretRequest) -> SecretOutcome>(
    send: F,
    name: Seq<char>,
) -> bool {
    &&& forall|request: SecretRequest| request@ == name ==> send.requires((request,))
    &&& forall|request: SecretRequest, outcome: SecretOutcome|
        request@ == name && #[trigger] send.ensures((request,), outcome) ==> carries_payload(
            outcome,
        )
}

/// `payload` is what a read of the secret `name` has to decode after it went
/// through `send`: `send` was handed the request for `name`, and `payload` is
/// made of what it gave back.
pub open spec fn reads_secret<F: FnOnce(SecretRequest) -> SecretOutcome>(
    send: F,
    name: Seq<char>,
    payload: Result<Seq<char>, ErrorView>,
) -> bool {
    exists|request: SecretRequest, outcome: SecretOutcome|
        request@ == name && #[trigger] send.ensures((request,), outcome) && payload
            == secret_payload(name, outcome)
}

/// `send` can be handed the request that sets the tag `key` to `value` on
/// the secret `name`.
pub open spec fn can_tag<F: FnOnce(TagRequest) -> TagOutcome>(
    send: F,
    name: Seq<char>,
    key: Seq<char>,
    value: Seq<char>,
) -> bool {
    forall|request: TagRequest|
        request@ == (TagRequestView { secret_id: name, key, value }) ==> send.requires((request,))
}

/// `r` is what a tag update yields through `send`: `send` was handed the
/// request that sets the tag `key` to `value` on the secret `name`, and `r`
/// is made of what it gave back.
pub open spec fn tags<F: FnOnce(TagRequest) -> TagOutcome>(
    send: F,
    name: Seq<char>,
    key: Seq<char>,
    value: Seq<char>,
    r: Result<TagResourceOutput, Error>,
) -> bool {
    exists|request: TagRequest, outcome: TagOutcome|
        request@ == (TagRequestView { secret_id: name, key, value }) && #[trigger] send.ensures(
            (request,),
            outcome,
        ) && r == tag_result(outcome)
}

/// Trait for `str` types, enables interaction with Secrets Manager.
///
/// The text that a value views as is the name of the secret. Each method
/// takes the transport `send`, hands it one request and makes its result of
/// the one answer. `send` has to accept that request ([`can_read_secret`],
/// [`can_tag`]).
pub trait SecretsExt: View<V = Seq<char>> + Sized {
    /// Retrieves a secret from Secrets Manager and de-serializes its secret
    /// string, a JSON document, into a `T`.
    ///
    /// A failed request ends in [`Error::ReadSecret`] with the name and the
    /// SDK's error. Once the secret string has come it goes to the parser,
    /// and the result is the parser's: the value that it built, or an
    /// [`Error::DeserializeError`] with its error. An answer without a secret
    /// string, as a secret in binary form gives, is not a case this method
    /// handles.
    fn get_secret<T: DeserializeOwned, F: FnOnce(SecretRequest) -> SecretOutcome>(
        self,
        send: F,
    ) -> (r: Result<T, Error>)
        requires
            can_read_secret(send, self@),
        ensures
            exists|payload: Result<Seq<char>, ErrorView>| #[trigger]
                reads_secret(send, self@, payload) && match payload {
                    Ok(text) => decodes(text, r),
                    Err(failure) => r matches Err(e) && e@ == failure,
                },
    ;

    /// Sets or updates the value of one tag on a secret that lives in
    /// Secrets Manager, and returns the provider's acknowledgment.
    fn set_tag<F: FnOnce(TagRequest) -> TagOutcome>(self, send: F, key: &str, value: &str) -> (r:
        Result<TagResourceOutput, Error>)
        requires
            can_tag(send, self@, key@, value@),
        ensures
            tags(send, self@, key@, value@, r),
    ;
}

impl SecretsExt for &str {
    fn get_secret<T: DeserializeOwned, F: FnOnce(SecretRequest) -> SecretOutcome>(
        self,
        send: F,
    ) -> (r: Result<T, Error>) {
        let request = SecretRequest::new(self);
        let outcome = send(request);
        let read = read_secret(self, outcome);
        assert(reads_secret(send, self@, text_view(read)));
        match read {
            Ok(secret_str) => decode(secret_str.as_str()),
            Err(e) => Err(e),
        }
    }

    fn set_tag<F: FnOnce(TagRequest) -> TagOutcome>(self, send: F, key: &str, value: &str) -> (r:
        Result<TagResourceOutput, Error>) {
        let request = TagRequest::new(self, key, value);
        let outcome = send(request);
        tagged(outcome)
    }
}

} // verus!
