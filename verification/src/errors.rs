//! The errors that an operation of this crate can end in.

use aws_sdk_secretsmanager::error::SdkError as SMError;
use aws_sdk_secretsmanager::operation::get_secret_value::GetSecretValueError;
use aws_sdk_secretsmanager::operation::tag_resource::TagResourceError;
use aws_sdk_ssm::error::SdkError as ParamsError;
use aws_sdk_ssm::operation::get_parameter::GetParameterError;
use vstd::prelude::*;

use crate::text::{debug_quoted, debug_text};

verus! {

/// Library-specific errors.
///
/// Every failure is handed to the caller as it occurred: the operation that
/// failed, the identifier it was about where there is one, and the
/// provider's or the parser's own error as the cause.
#[derive(Debug)]
#[non_exhaustive]
pub enum Error {
    /// The `secretsmanager:TagResource` operation failed.
    SetTag(SMError<TagResourceError>),
    /// The secret string is not JSON, or not of the shape asked for.
    DeserializeError(serde_json::Error),
    /// The `ssm:GetParameter` operation failed.
    ReadParam {
        /// Name of the parameter that was asked for.
        param_name: String,
        /// The provider's error.
        source: ParamsError<GetParameterError>,
    },
    /// The `secretsmanager:GetSecretValue` operation failed.
    ReadSecret {
        /// Name of the secret that was asked for.
        secret_name: String,
        /// The provider's error.
        source: SMError<GetSecretValueError>,
    },
    /// Unknown library error; no operation of this crate returns it.
    Unknown,
}

/// An [`Error`] with its identifier as text.
pub enum ErrorView {
    SetTag(SMError<TagResourceError>),
    DeserializeError(serde_json::Error),
    ReadParam { param_name: Seq<char>, source: ParamsError<GetParameterError> },
    ReadSecret { secret_name: Seq<char>, source: SMError<GetSecretValueError> },
    Unknown,
}

impl View for Error {
    type V = ErrorView;

    open spec fn view(&self) -> ErrorView {
        match *self {
            Error::SetTag(source) => ErrorView::SetTag(source),
            Error::DeserializeError(source) => ErrorView::DeserializeError(source),
            Error::ReadParam { param_name, source } => ErrorView::ReadParam {
                param_name: param_name@,
                source,
            },
            Error::ReadSecret { secret_name, source } => ErrorView::ReadSecret {
                secret_name: secret_name@,
                source,
            },
            Error::Unknown => ErrorView::Unknown,
        }
    }
}

/// A text or an error, as its view.
pub open spec fn text_view(r: Result<String, Error>) -> Result<Seq<char>, ErrorView> {
    match r {
        Ok(text) => Ok(text@),
        Err(e) => Err(e@),
    }
}

/// A list of texts or an error, as its view.
pub open spec fn list_view(r: Result<Vec<String>, Error>) -> Result<Seq<Seq<char>>, ErrorView> {
    match r {
        Ok(list) => Ok(list.deep_view()),
        Err(e) => Err(e@),
    }
}

/// The message that stands for an error: what failed and, for a read, the
/// identifier in the quoted form that `{:?}` gives it.
pub open spec fn message_text(e: ErrorView) -> Seq<char> {
    match e {
        ErrorView::SetTag(_) => "couldn't set tag"@,
        ErrorView::DeserializeError(_) => "couldn't deserialize secret string"@,
        ErrorView::ReadParam { param_name, .. } => "["@ + debug_text(param_name)
            + "] couldn't read param"@,
        ErrorView::ReadSecret { secret_name, .. } => "["@ + debug_text(secret_name)
            + "] couldn't read secret"@,
        ErrorView::Unknown => "unknown error"@,
    }
}

impl Error {
    /// The human-readable message of this error.
    pub fn message(&self) -> (text: String)
        ensures
            text@ == message_text(self@),
    {
        match self {
            Error::SetTag(_) => "couldn't set tag".to_owned(),
            Error::DeserializeError(_) => "couldn't deserialize secret string".to_owned(),
            Error::ReadParam { param_name, .. } => {
                let mut text = "[".to_owned();
                text.append(debug_quoted(param_name.as_str()).as_str());
                text.append("] couldn't read param");
                text
            },
            Error::ReadSecret { secret_name, .. } => {
                let mut text = "[".to_owned();
                text.append(debug_quoted(secret_name.as_str()).as_str());
                text.append("] couldn't read secret");
                text
            },
            Error::Unknown => "unknown error".to_owned(),
        }
    }
}

impl From<SMError<TagResourceError>> for Error {
    /// A failed tag update becomes [`Error::SetTag`].
    fn from(source: SMError<TagResourceError>) -> (e: Error) {
        Error::SetTag(source)
    }
}

impl vstd::std_specs::convert::FromSpecImpl<SMError<TagResourceError>> for Error {
    open spec fn obeys_from_spec() -> bool {
        true
    }

    open spec fn from_spec(source: SMError<TagResourceError>) -> Error {
        Error::SetTag(source)
    }
}

impl From<serde_json::Error> for Error {
    /// A failed parse becomes [`Error::DeserializeError`].
    fn from(source: serde_json::Error) -> (e: Error) {
        Error::DeserializeError(source)
    }
}

impl vstd::std_specs::convert::FromSpecImpl<serde_json::Error> for Error {
    open spec fn obeys_from_spec() -> bool {
        true
    }

    open spec fn from_spec(source: serde_json::Error) -> Error {
        Error::DeserializeError(source)
    }
}

} // verus!
