//! The provider SDK's types that pass through this crate unread.
//!
//! A failed request hands back the SDK's own error value and a tag update
//! hands back the SDK's own acknowledgment. The crate stores and returns them
//! as they are and never looks inside, so each is declared opaque.

use vstd::prelude::*;

verus! {

/// `aws_smithy_runtime_api::client::result::SdkError`, the failure of one
/// request; the SDK crates re-export it as `error::SdkError`.
#[verifier::external_type_specification]
#[verifier::external_body]
#[verifier::reject_recursive_types(E)]
#[verifier::reject_recursive_types(R)]
pub struct ExSdkError<E, R>(aws_smithy_runtime_api::client::result::SdkError<E, R>);

/// `aws_smithy_runtime_api::http::Response`, the raw reply that an
/// `SdkError` may carry.
#[verifier::external_type_specification]
#[verifier::external_body]
#[verifier::reject_recursive_types(B)]
pub struct ExResponse<B>(aws_smithy_runtime_api::http::Response<B>);

/// `aws_smithy_types::body::SdkBody`, the body of such a raw reply.
#[verifier::external_type_specification]
#[verifier::external_body]
pub struct ExSdkBody(aws_smithy_types::body::SdkBody);

/// The service errors of `ssm:GetParameter`.
#[verifier::external_type_specification]
#[verifier::external_body]
pub struct ExGetParameterError(aws_sdk_ssm::operation::get_parameter::GetParameterError);

/// The service errors of `secretsmanager:GetSecretValue`.
#[verifier::external_type_specification]
#[verifier::external_body]
pub struct ExGetSecretValueError(
    aws_sdk_secretsmanager::operation::get_secret_value::GetSecretValueError,
);

/// The service errors of `secretsmanager:TagResource`.
#[verifier::external_type_specification]
#[verifier::external_body]
pub struct ExTagResourceError(aws_sdk_secretsmanager::operation::tag_resource::TagResourceError);

/// The acknowledgment of `secretsmanager:TagResource`.
#[verifier::external_type_specification]
#[verifier::external_body]
pub struct ExTagResourceOutput(aws_sdk_secretsmanager::operation::tag_resource::TagResourceOutput);

} // verus!
