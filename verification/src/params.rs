//! Reading parameters from SSM Parameter Store.
//!
//! A read is one exchange with the provider: one `ssm:GetParameter` request
//! goes out and one answer comes back. This module says which request a read
//! sends and what it makes of the answer; sending is the caller's, who hands
//! in the transport as a function from the request to the provider's answer.

use aws_sdk_ssm::error::SdkError as ParamsError;
use aws_sdk_ssm::operation::get_parameter::GetParameterError;
use vstd::prelude::*;

use crate::errors::{list_view, text_view, Error, ErrorView};
use crate::text::{split, split_on};

verus! {

/// An `ssm:GetParameter` request.
#[derive(Clone, Debug, PartialEq, Eq)]
pub struct ParameterRequest {
    /// Name of the parameter to retrieve.
    pub name: String,
    /// Whether the provider is to decrypt the value before it returns it.
    pub with_decryption: bool,
}

/// A [`ParameterRequest`] with its name as text.
pub struct ParameterRequestView {
    pub name: Seq<char>,
    pub with_decryption: bool,
}

impl View for ParameterRequest {
    type V = ParameterRequestView;

    open spec fn view(&self) -> ParameterRequestView {
        ParameterRequestView { name: self.name@, with_decryption: self.with_decryption }
    }
}

impl ParameterRequest {
    /// The request for the parameter `name`, decrypted by the provider if
    /// `with_decryption` is set.
    pub fn new(name: &str, with_decryption: bool) -> (request: ParameterRequest)
        ensures
            request@ == (ParameterRequestView { name: name@, with_decryption }),
    {
        ParameterRequest { name: name.to_owned(), with_decryption }
    }
}

/// What this crate reads of a parameter that the provider returned.
#[derive(Clone, Debug, PartialEq, Eq)]
pub struct Parameter {
    /// The parameter's value, where the provider sent one.
    pub value: Option<String>,
}

/// What this crate reads of the provider's answer to an `ssm:GetParameter`
/// request.
#[derive(Clone, Debug, PartialEq, Eq)]
pub struct ParameterResponse {
    /// The parameter, where the provider sent one.
    pub parameter: Option<Parameter>,
}

impl ParameterResponse {
    /// The value that the response carries: that of its parameter, if it has
    /// a parameter and the parameter has a value.
    pub open spec fn value(&self) -> Option<Seq<char>> {
        match self.parameter {
            Some(parameter) => match parameter.value {
                Some(value) => Some(value@),
                None => None,
            },
            None => None,
        }
    }

    /// Whether the response carries a value.
    pub fn has_value(&self) -> (b: bool)
        ensures
            b == self.value() is Some,
    {
        match &self.parameter {
            Some(parameter) => parameter.value.is_some(),
            None => false,
        }
    }
}

/// How an `ssm:GetParameter` request ended: with the provider's answer or
/// with the SDK's error.
pub type ParameterOutcome = Result<ParameterResponse, ParamsError<GetParameterError>>;

/// Whether `outcome`, if it is an answer, carries a value. A read takes no
/// other answer.
pub open spec fn carries_value(outcome: ParameterOutcome) -> bool {
    outcome matches Ok(response) ==> response.value() is Some
}

/// What a read of the parameter `name` yields when its request ended in
/// `outcome`: the value that the answer carries, or the SDK's error together
/// with the name that was asked for.
pub open spec fn parameter_value(name: Seq<char>, outcome: ParameterOutcome) -> Result<
    Seq<char>,
    ErrorView,
>
    recommends
        carries_value(outcome),
{
    match outcome {
        Ok(response) => Ok(response.value()->0),
        Err(source) => Err(ErrorView::ReadParam { param_name: name, source }),
    }
}

/// The comma-separated items of a value that was read, in order and as they
/// stand; a failed read stays the failure it was.
pub open spec fn listed(value: Result<Seq<char>, ErrorView>) -> Result<Seq<Seq<char>>, ErrorView> {
    match value {
        Ok(text) => Ok(split_on(text, ',')),
        Err(e) => Err(e),
    }
}

/// `send` can be handed the request for `name` with the flag
/// `with_decryption`, and every answer that it gives to it carries a value.
pub open spec fn can_read<F: FnOnce(ParameterRequest) -> ParameterOutcome>(
    send: F,
    name: Seq<char>,
    with_decryption: bool,
) -> bool {
    &&& forall|request: ParameterRequest|
        request@ == (ParameterRequestView { name, with_decryption }) ==> send.requires((request,))
    &&& forall|request: ParameterRequest, outcome: ParameterOutcome|
        request@ == (ParameterRequestView { name, with_decryption }) && #[trigger] send.ensures(
            (request,),
            outcome,
        ) ==> carries_value(outcome)
}

/// `value` is what a read of `name` yields through `send`: `send` was handed
/// the request for `name` with the flag `with_decryption`, and `value` is
/// made of what it gave back.
pub open spec fn reads<F: FnOnce(ParameterRequest) -> ParameterOutcome>(
    send: F,
    name: Seq<char>,
    with_decryption: bool,
    value: Result<Seq<char>, ErrorView>,
) -> bool {
    exists|request: ParameterRequest, outcome: ParameterOutcome|
        request@ == (ParameterRequestView { name, with_decryption }) && #[trigger] send.ensures(
            (request,),
            outcome,
        ) && value == parameter_value(name, outcome)
}

/// Makes the result of a read of `name` from the way its request ended.
///
/// An answer without a parameter value is not a case this function handles:
/// the caller tests [`ParameterResponse::has_value`] first.
pub fn read_parameter(name: &str, outcome: ParameterOutcome) -> (r: Result<String, Error>)
    requires
        carries_value(outcome),
    ensures
        text_view(r) == parameter_value(name@, outcome),
{
    match outcome {
        Ok(response) => {
            let parameter = response.parameter.unwrap();
            Ok(parameter.value.unwrap())
        },
        Err(source) => Err(Error::ReadParam { param_name: name.to_owned(), source }),
    }
}

/// Retrieves a parameter from SSM Parameter Store: sends one request for
/// `param_name` with the flag `with_decryption` and returns the value that
/// comes back.
fn get_string_with_decryption<F: FnOnce(ParameterRequest) -> ParameterOutcome>(
    send: F,
    param_name: &str,
    with_decryption: bool,
) -> (r: Result<String, Error>)
    requires
        can_read(send, param_name@, with_decryption),
    ensures
        reads(send, param_name@, with_decryption, text_view(r)),
{
    let request = ParameterRequest::new(param_name, with_decryption);
    let outcome = send(request);
    read_parameter(param_name, outcome)
}

/// Trait for `str` types, enables interaction with SSM Parameter Store.
///
/// The text that a value views as is the name of the parameter. Each method
/// takes the transport `send`, hands it one request and makes its result of
/// the one answer: the value, or [`Error::ReadParam`] with the name and the
/// SDK's error. `send` has to accept that request and to answer it with a
/// parameter value or with an error ([`can_read`]).
pub trait SSMParamExt: View<V = Seq<char>> + Sized {
    /// Retrieves a parameter (with data type `String`) from SSM Parameter
    /// Store, without decryption.
    fn get_string<F: FnOnce(ParameterRequest) -> ParameterOutcome>(self, send: F) -> (r: Result<
        String,
        Error,
    >)
        requires
            can_read(send, self@, false),
        ensures
            reads(send, self@, false, text_view(r)),
    ;

    /// Retrieves a parameter (with data type `SecureString`) from SSM
    /// Parameter Store, decrypted by the provider.
    fn get_secure_string<F: FnOnce(ParameterRequest) -> ParameterOutcome>(self, send: F) -> (r:
        Result<String, Error>)
        requires
            can_read(send, self@, true),
        ensures
            reads(send, self@, true, text_view(r)),
    ;

    /// Retrieves a parameter (with data type `StringList`) from SSM Parameter
    /// Store, without decryption, and splits its value on every comma.
    fn get_string_list<F: FnOnce(ParameterRequest) -> ParameterOutcome>(self, send: F) -> (r:
        Result<Vec<String>, Error>)
        requires
            can_read(send, self@, false),
        ensures
            exists|value: Result<Seq<char>, ErrorView>| #[trigger]
                reads(send, self@, false, value) && list_view(r) == listed(value),
    ;
}

impl SSMParamExt for &str {
    fn get_string<F: FnOnce(ParameterRequest) -> ParameterOutcome>(self, send: F) -> (r: Result<
        String,
        Error,
    >) {
        get_string_with_decryption(send, self, false)
    }

    fn get_secure_string<F: FnOnce(ParameterRequest) -> ParameterOutcome>(self, send: F) -> (r:
        Result<String, Error>) {
        get_string_with_decryption(send, self, true)
    }

    fn get_string_list<F: FnOnce(ParameterRequest) -> ParameterOutcome>(self, send: F) -> (r:
        Result<Vec<String>, Error>) {
        let value = get_string_with_decryption(send, self, false);
        match value {
            Ok(text) => Ok(split(text.as_str(), ',')),
            Err(e) => Err(e),
        }
    }
}

} // verus!
