use aws_sdk_ssm::error::SdkError;
use aws_sdk_ssm::operation::get_parameter::GetParameterError;
use aws_sdk_ssm::types::error::{InternalServerError, ParameterNotFound};
use aws_secrets::params::{
    read_parameter, Parameter, ParameterOutcome, ParameterRequest, ParameterResponse,
};
use aws_secrets::{Error, SSMParamExt};
use aws_smithy_runtime_api::http::{Response, StatusCode};
use aws_smithy_types::body::SdkBody;

fn answer(value: &str) -> ParameterOutcome {
    Ok(ParameterResponse { parameter: Some(Parameter { value: Some(value.to_string()) }) })
}

fn echo(request: ParameterRequest) -> ParameterOutcome {
    answer(&request.name)
}

fn raw(status: u16) -> Response {
    Response::new(StatusCode::try_from(status).unwrap(), SdkBody::empty())
}

fn not_found() -> ParameterOutcome {
    let service = ParameterNotFound::builder().message("no such parameter").build();
    Err(SdkError::service_error(GetParameterError::ParameterNotFound(service), raw(400)))
}

#[test]
fn request_holds_name_and_flag() {
    let request = ParameterRequest::new("/my/param", true);
    assert_eq!(
        request,
        ParameterRequest { name: "/my/param".to_string(), with_decryption: true }
    );
    let request = ParameterRequest::new("", false);
    assert_eq!(request, ParameterRequest { name: String::new(), with_decryption: false });
}

#[test]
fn response_knows_whether_it_has_a_value() {
    assert!(ParameterResponse { parameter: Some(Parameter { value: Some(String::new()) }) }
        .has_value());
    assert!(!ParameterResponse { parameter: Some(Parameter { value: None }) }.has_value());
    assert!(!ParameterResponse { parameter: None }.has_value());
}

#[test]
fn get_string_does_not_request_decryption() {
    let mut seen = Vec::new();
    let value = "/my/param".get_string(|request: ParameterRequest| {
        seen.push(request);
        answer("plain")
    });
    assert_eq!(value.unwrap(), "plain");
    assert_eq!(
        seen,
        vec![ParameterRequest { name: "/my/param".to_string(), with_decryption: false }]
    );
}

#[test]
fn get_secure_string_requests_decryption() {
    let mut seen = Vec::new();
    let value = "/my/secure/param".get_secure_string(|request: ParameterRequest| {
        seen.push(request);
        answer("decrypted")
    });
    assert_eq!(value.unwrap(), "decrypted");
    assert_eq!(
        seen,
        vec![ParameterRequest { name: "/my/secure/param".to_string(), with_decryption: true }]
    );
}

#[test]
fn get_string_list_does_not_request_decryption() {
    let mut seen = Vec::new();
    let list = "/my/list".get_string_list(|request: ParameterRequest| {
        seen.push(request);
        answer("x,y")
    });
    assert_eq!(list.unwrap(), vec!["x", "y"]);
    assert_eq!(
        seen,
        vec![ParameterRequest { name: "/my/list".to_string(), with_decryption: false }]
    );
}

#[test]
fn get_string_list_splits_on_commas() {
    let list = "/list".get_string_list(|_| answer("a,b,c")).unwrap();
    assert_eq!(list, vec!["a", "b", "c"]);
    let list = "a,b,c".get_string_list(echo).unwrap();
    assert_eq!(list, vec!["a", "b", "c"]);
}

#[test]
fn get_string_list_of_one_item() {
    let list = "/list".get_string_list(|_| answer("solo")).unwrap();
    assert_eq!(list, vec!["solo"]);
    let list = "solo".get_string_list(echo).unwrap();
    assert_eq!(list, vec!["solo"]);
}

#[test]
fn get_string_list_of_empty_value() {
    let list = "/list".get_string_list(|_| answer("")).unwrap();
    assert_eq!(list, vec![""]);
    let list = "".get_string_list(echo).unwrap();
    assert_eq!(list, vec![""]);
}

#[test]
fn get_string_list_neither_trims_nor_dedups() {
    let list = "/list".get_string_list(|_| answer(" a, a,,b ,")).unwrap();
    assert_eq!(list, vec![" a", " a", "", "b ", ""]);
}

#[test]
fn get_string_returns_value_as_it_came() {
    let value = "/p".get_string(|_| answer(" a,b \n")).unwrap();
    assert_eq!(value, " a,b \n");
    let value = "/p".get_string(|_| answer("")).unwrap();
    assert_eq!(value, "");
}

#[test]
fn get_string_failure_carries_the_name() {
    let failure = "/missing".get_string(|_| not_found()).unwrap_err();
    match failure {
        Error::ReadParam { param_name, source } => {
            assert_eq!(param_name, "/missing");
            let service = source.into_service_error();
            assert!(service.is_parameter_not_found());
        }
        other => panic!("unexpected error: {:?}", other),
    }
}

#[test]
fn get_secure_string_failure_carries_the_name() {
    let failure = "/secure".get_secure_string(|_| not_found()).unwrap_err();
    assert!(matches!(failure, Error::ReadParam { ref param_name, .. } if param_name == "/secure"));
}

#[test]
fn get_string_list_failure_carries_the_name() {
    let failure = "/list".get_string_list(|_| not_found()).unwrap_err();
    assert!(matches!(failure, Error::ReadParam { ref param_name, .. } if param_name == "/list"));
}

#[test]
fn failure_keeps_the_cause_it_was_given() {
    let service = InternalServerError::builder().message("boom").build();
    let cause = SdkError::service_error(GetParameterError::InternalServerError(service), raw(500));
    let failure = "/p".get_string(|_| Err(cause)).unwrap_err();
    match failure {
        Error::ReadParam { source, .. } => {
            assert_eq!(source.raw_response().unwrap().status().as_u16(), 500);
            match source.into_service_error() {
                GetParameterError::InternalServerError(inner) => {
                    assert_eq!(inner.message(), Some("boom"))
                }
                other => panic!("unexpected cause: {:?}", other),
            }
        }
        other => panic!("unexpected error: {:?}", other),
    }
}

#[test]
fn failure_without_a_service_error_is_a_read_failure_too() {
    let failure = "/p".get_string(|_| Err(SdkError::timeout_error("too slow"))).unwrap_err();
    match failure {
        Error::ReadParam { param_name, source } => {
            assert_eq!(param_name, "/p");
            assert!(matches!(source, SdkError::TimeoutError(_)));
        }
        other => panic!("unexpected error: {:?}", other),
    }
}

#[test]
fn read_parameter_takes_the_value_of_the_answer() {
    assert_eq!(read_parameter("/p", answer("v")).unwrap(), "v");
}

#[test]
fn read_parameter_wraps_the_failure() {
    let failure = read_parameter("/missing", not_found()).unwrap_err();
    assert!(
        matches!(failure, Error::ReadParam { ref param_name, .. } if param_name == "/missing")
    );
}

#[test]
fn transport_is_called_once() {
    let mut calls = 0;
    let _ = "/p".get_string(|_| {
        calls += 1;
        answer("v")
    });
    assert_eq!(calls, 1);
    let mut calls = 0;
    let _ = "/p".get_string_list(|_| {
        calls += 1;
        not_found()
    });
    assert_eq!(calls, 1);
}
