use regexp_extract::request::ArgField;
use regexp_extract::request::ArgShape;
use regexp_extract::request::BindError;
use regexp_extract::request::CallArg;
use regexp_extract::request::RegexpExtractRequest;

#[test]
fn fresh_request_is_not_usable() {
    let request = RegexpExtractRequest::new();
    assert!(!request.is_usable());
}

#[test]
fn request_usable_once_all_three_fields_bound() {
    let mut request = RegexpExtractRequest::new();
    request.set(ArgField::Input, CallArg::Batch(vec![])).unwrap();
    assert!(!request.is_usable());
    request
        .set(ArgField::Regex, CallArg::TextScalar(Some("a".to_string())))
        .unwrap();
    assert!(!request.is_usable());
    request.set(ArgField::Group, CallArg::IntScalar(Some(0))).unwrap();
    assert!(request.is_usable());
}

#[test]
fn input_rejects_scalar_arguments() {
    let mut request = RegexpExtractRequest::new();
    let err = request
        .set(ArgField::Input, CallArg::TextScalar(Some("a".to_string())))
        .unwrap_err();
    assert_eq!(err, BindError { field: ArgField::Input, got: ArgShape::TextScalar });
    let err = request.set(ArgField::Input, CallArg::IntScalar(Some(1))).unwrap_err();
    assert_eq!(err, BindError { field: ArgField::Input, got: ArgShape::IntScalar });
    assert!(!request.is_usable());
}

#[test]
fn regex_rejects_null_and_mismatched_arguments() {
    let mut request = RegexpExtractRequest::new();
    let err = request.set(ArgField::Regex, CallArg::TextScalar(None)).unwrap_err();
    assert_eq!(err, BindError { field: ArgField::Regex, got: ArgShape::NullTextScalar });
    let err = request.set(ArgField::Regex, CallArg::IntScalar(Some(3))).unwrap_err();
    assert_eq!(err, BindError { field: ArgField::Regex, got: ArgShape::IntScalar });
    let err = request.set(ArgField::Regex, CallArg::Batch(vec![])).unwrap_err();
    assert_eq!(err, BindError { field: ArgField::Regex, got: ArgShape::Batch });
}

#[test]
fn group_rejects_null_and_mismatched_arguments() {
    let mut request = RegexpExtractRequest::new();
    let err = request.set(ArgField::Group, CallArg::IntScalar(None)).unwrap_err();
    assert_eq!(err, BindError { field: ArgField::Group, got: ArgShape::NullIntScalar });
    let err = request
        .set(ArgField::Group, CallArg::TextScalar(Some("2".to_string())))
        .unwrap_err();
    assert_eq!(err, BindError { field: ArgField::Group, got: ArgShape::TextScalar });
}

#[test]
fn failed_binding_leaves_request_unchanged() {
    let mut request = RegexpExtractRequest::new();
    request
        .set(ArgField::Regex, CallArg::TextScalar(Some(r"(\d+)".to_string())))
        .unwrap();
    request.set(ArgField::Regex, CallArg::TextScalar(None)).unwrap_err();
    assert_eq!(request.regex.as_deref(), Some(r"(\d+)"));
}

#[test]
fn incomplete_request_fulfills_to_single_empty_row() {
    let request = RegexpExtractRequest::new();
    assert_eq!(request.fulfill(), vec!["".to_string()]);

    let mut partial = RegexpExtractRequest::new();
    partial
        .set(
            ArgField::Input,
            CallArg::Batch(vec![Some("a1".to_string()), Some("b2".to_string())]),
        )
        .unwrap();
    partial
        .set(ArgField::Regex, CallArg::TextScalar(Some(r"([a-z]+)(\d+)".to_string())))
        .unwrap();
    // group never bound: the fallback batch ignores the input's length
    assert_eq!(partial.fulfill(), vec!["".to_string()]);
}
