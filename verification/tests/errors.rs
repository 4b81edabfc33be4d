use httpkit::error::HttpError;

#[test]
fn each_variant_exposes_its_message() {
    let transport = HttpError::Transport("connection reset".to_string());
    assert_eq!(transport.message(), "connection reset");
    let deserialization = HttpError::Deserialization("expected a number".to_string());
    assert_eq!(deserialization.message(), "expected a number");
    let custom = HttpError::Custom("no base URL".to_string());
    assert_eq!(custom.message(), "no base URL");
}

#[test]
fn variants_are_distinguishable() {
    let error = HttpError::Transport("x".to_string());
    assert!(matches!(error, HttpError::Transport(_)));
    assert!(!matches!(HttpError::Custom("x".to_string()), HttpError::Transport(_)));
}
