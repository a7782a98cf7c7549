use hyper_client::status::{StatusClass, StatusCode};

#[test]
fn class_boundaries() {
    assert_eq!(StatusCode::from_code(100).class(), StatusClass::Informational);
    assert_eq!(StatusCode::from_code(199).class(), StatusClass::Informational);
    assert_eq!(StatusCode::from_code(200).class(), StatusClass::Success);
    assert_eq!(StatusCode::from_code(299).class(), StatusClass::Success);
    assert_eq!(StatusCode::from_code(300).class(), StatusClass::Redirection);
    assert_eq!(StatusCode::from_code(399).class(), StatusClass::Redirection);
    assert_eq!(StatusCode::from_code(400).class(), StatusClass::ClientError);
    assert_eq!(StatusCode::from_code(499).class(), StatusClass::ClientError);
    assert_eq!(StatusCode::from_code(500).class(), StatusClass::ServerError);
    assert_eq!(StatusCode::from_code(599).class(), StatusClass::ServerError);
}

#[test]
fn default_code_is_x00_of_same_class() {
    for code in 100u16..600 {
        let class = StatusCode::from_code(code).class();
        let d = class.default_code();
        assert!([100, 200, 300, 400, 500].contains(&d.to_u16()));
        assert_eq!(d.class(), class);
    }
    assert_eq!(StatusCode::from_code(123).class().default_code(), StatusCode::from_code(100));
    assert_eq!(StatusCode::from_code(432).class().default_code(), StatusCode::from_code(400));
    assert_eq!(StatusClass::ClientError.default_code().to_u16(), 400);
}

#[test]
fn validating_constructors_refuse_out_of_range() {
    assert!(StatusCode::from_i64(99).is_none());
    assert!(StatusCode::from_i64(600).is_none());
    assert!(StatusCode::from_i64(-1).is_none());
    assert!(StatusCode::from_u64(0).is_none());
    assert!(StatusCode::from_u64(600).is_none());
    assert!(StatusCode::from_u64(u64::MAX).is_none());
    assert_eq!(StatusCode::from_i64(100).unwrap().to_u16(), 100);
    assert_eq!(StatusCode::from_i64(599).unwrap().to_u16(), 599);
    assert_eq!(StatusCode::from_u64(404).unwrap().to_u16(), 404);
}

#[test]
fn canonical_reasons() {
    assert_eq!(StatusCode::from_code(418).canonical_reason(), Some("I'm a teapot"));
    assert_eq!(StatusCode::from_code(200).canonical_reason(), Some("OK"));
    assert_eq!(StatusCode::from_code(414).canonical_reason(), Some("Request-URI Too Long"));
    assert_eq!(StatusCode::from_code(511).canonical_reason(), Some("Network Authentication Required"));
    assert_eq!(StatusCode::from_code(123).canonical_reason(), None);
    assert_eq!(StatusCode::from_code(427).canonical_reason(), None);
    assert_eq!(StatusCode::from_code(599).canonical_reason(), None);
}

#[test]
fn numeric_conversions() {
    let c = StatusCode::from_code(302);
    assert_eq!(c.to_i64(), Some(302));
    assert_eq!(c.to_u64(), Some(302));
    assert_eq!(StatusClass::Redirection.to_i64(), Some(300));
    assert_eq!(StatusClass::ServerError.to_u64(), Some(500));
    assert!(c.is_redirection());
    assert!(!StatusCode::from_code(200).is_redirection());
}

#[test]
fn ordering_and_equality_by_value() {
    assert!(StatusCode::from_code(200) < StatusCode::from_code(404));
    assert!(StatusCode::from_code(503) > StatusCode::from_code(502));
    assert_eq!(StatusCode::from_code(301), StatusCode::from_code(301));
    assert_ne!(StatusCode::from_code(301), StatusCode::from_code(302));
}

#[test]
fn renders_code_and_reason() {
    assert_eq!(StatusCode::from_code(418).to_string(), "418 I'm a teapot");
    assert_eq!(StatusCode::from_code(123).to_string(), "123 <unknown status code>");
    assert_eq!(StatusCode::from_code(200).to_string(), "200 OK");
}

#[test]
fn partial_cmp_by_code() {
    let a = StatusCode::from_code(301);
    let b = StatusCode::from_code(404);
    assert_eq!(a.partial_cmp(&b), Some(std::cmp::Ordering::Less));
    assert_eq!(b.partial_cmp(&a), Some(std::cmp::Ordering::Greater));
    assert_eq!(a.partial_cmp(&StatusCode::from_code(301)), Some(std::cmp::Ordering::Equal));
    assert_eq!(a.cmp(&b), std::cmp::Ordering::Less);
}
