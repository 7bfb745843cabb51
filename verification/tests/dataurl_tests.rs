use a_icon::dataurl::parse_data_url;

#[test]
fn decodes_a_base64_data_url() {
    let (mime, bytes) = parse_data_url("data:image/png;base64,AAEC").unwrap();
    assert_eq!(mime, "image/png");
    assert_eq!(bytes, vec![0u8, 1, 2]);
}

#[test]
fn keeps_only_the_mime_segment_of_the_header() {
    let (mime, bytes) = parse_data_url("data:image/svg+xml;charset=utf-8;base64,/w==").unwrap();
    assert_eq!(mime, "image/svg+xml");
    assert_eq!(bytes, vec![0xFFu8]);
}

#[test]
fn rejects_malformed_data_urls() {
    // missing data: prefix
    assert!(matches!(
        parse_data_url("image/png;base64,AAEC"),
        Err(a_icon::error::ApiError::BadRequest(_))
    ));
    // missing comma separator
    assert!(parse_data_url("data:image/png;base64").is_err());
    // missing base64 marker
    assert!(parse_data_url("data:image/png,AAEC").is_err());
    // malformed base64 payload
    assert!(parse_data_url("data:image/png;base64,@@@@").is_err());
}
