use httpkit::http_status_code::HttpStatusCode;

#[test]
fn standard_codes_map_to_named_variants() {
    assert!(matches!(HttpStatusCode::from_u16(100), HttpStatusCode::Continue));
    assert!(matches!(HttpStatusCode::from_u16(200), HttpStatusCode::Okay));
    assert!(matches!(HttpStatusCode::from_u16(201), HttpStatusCode::Created));
    assert!(matches!(HttpStatusCode::from_u16(304), HttpStatusCode::NotModified));
    assert!(matches!(HttpStatusCode::from_u16(404), HttpStatusCode::NotFound));
    assert!(matches!(HttpStatusCode::from_u16(418), HttpStatusCode::ImATeapot));
    assert!(matches!(HttpStatusCode::from_u16(503), HttpStatusCode::ServiceUnavailable));
}

#[test]
fn non_standard_codes_map_to_custom() {
    assert!(matches!(HttpStatusCode::from_u16(999), HttpStatusCode::Custom(999)));
    assert!(matches!(HttpStatusCode::from_u16(0), HttpStatusCode::Custom(0)));
    assert!(matches!(HttpStatusCode::from_u16(299), HttpStatusCode::Custom(299)));
    assert!(matches!(HttpStatusCode::from_u16(306), HttpStatusCode::Custom(306)));
}

#[test]
fn conversion_round_trips_standard_and_custom() {
    assert_eq!(HttpStatusCode::from_u16(418).as_u16(), 418);
    assert_eq!(HttpStatusCode::from_u16(999).as_u16(), 999);
    for code in 0..=1023u16 {
        assert_eq!(HttpStatusCode::from_u16(code).as_u16(), code);
    }
}

#[test]
fn classification_follows_the_numeric_value() {
    assert!(HttpStatusCode::from_u16(204).is_success());
    assert!(!HttpStatusCode::from_u16(304).is_success());
    assert!(HttpStatusCode::from_u16(404).is_client_error());
    assert!(HttpStatusCode::from_u16(500).is_server_error());
    assert!(HttpStatusCode::from_u16(404).is_error());
    assert!(HttpStatusCode::from_u16(500).is_error());
    assert!(!HttpStatusCode::from_u16(200).is_error());
    assert!(HttpStatusCode::from_u16(307).is_redirection());
    assert!(HttpStatusCode::from_u16(101).is_informational());
}

#[test]
fn escape_variant_classifies_like_its_number() {
    let wrapped = HttpStatusCode::Custom(201);
    assert!(wrapped.is_success());
    assert!(!wrapped.is_error());
    assert!(HttpStatusCode::Custom(499).is_client_error());
    assert!(HttpStatusCode::Custom(599).is_server_error());
}
