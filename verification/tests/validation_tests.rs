use a_icon::validation::{
    validate_domain, validate_file_size, validate_image_type, validate_metadata,
};

#[test]
fn test_validate_domain() {
    assert!(validate_domain("example.com").is_ok());
    assert!(validate_domain("sub.example.com").is_ok());
    assert!(validate_domain("a-b.example.com").is_ok());

    assert!(matches!(
        validate_domain("example"),
        Err(a_icon::error::ApiError::ValidationError(_))
    ));
    assert!(validate_domain("example.").is_err());
    assert!(validate_domain(".example.com").is_err());
    assert!(validate_domain("example..com").is_err());
}

#[test]
fn test_validate_metadata() {
    assert!(validate_metadata("short").is_ok());
    assert!(validate_metadata(&"a".repeat(256)).is_ok());
    assert!(validate_metadata(&"a".repeat(257)).is_err());
}

#[test]
fn test_validate_file_size() {
    assert!(validate_file_size(1024).is_ok());
    assert!(validate_file_size(512 * 1024).is_ok());
    assert!(validate_file_size(512 * 1024 + 1).is_err());
}

#[test]
fn oversize_error_names_the_offending_size() {
    let err = validate_file_size(524289).unwrap_err();
    assert_eq!(
        err.message(),
        "File size (524289 bytes) exceeds the maximum allowed size of 0.5 MB"
    );
}

#[test]
fn domain_edge_cases() {
    // one label of 63 characters is the longest allowed
    let long_label = "a".repeat(63);
    assert!(validate_domain(&format!("{}.com", long_label)).is_ok());
    let too_long_label = "a".repeat(64);
    assert!(validate_domain(&format!("{}.com", too_long_label)).is_err());
    // the whole name may not exceed 256 characters
    let mut long_name = String::new();
    for _ in 0..42 {
        long_name.push_str("abcde.");
    }
    long_name.push_str("toolong");
    assert!(long_name.len() > 256);
    assert!(validate_domain(&long_name).is_err());
    // hyphens may not start or end a label
    assert!(validate_domain("-ab.com").is_err());
    assert!(validate_domain("ab-.com").is_err());
    assert!(validate_domain("a_b.com").is_err());
    assert!(validate_domain("".trim()).is_err());
}

#[test]
fn image_type_detection() {
    let png = vec![0x89, 0x50, 0x4E, 0x47, 0x0D, 0x0A, 0x1A, 0x0A];
    assert_eq!(validate_image_type(&png).unwrap(), "image/png");
    let jpeg = vec![0xFF, 0xD8, 0xFF, 0xE0];
    assert_eq!(validate_image_type(&jpeg).unwrap(), "image/jpeg");
    let gif = vec![0x47, 0x49, 0x46, 0x38];
    assert_eq!(validate_image_type(&gif).unwrap(), "image/gif");
    let svg = b"  \n\t<svg xmlns=\"http://www.w3.org/2000/svg\"></svg>".to_vec();
    assert_eq!(validate_image_type(&svg).unwrap(), "image/svg+xml");
    let xml = b"<?xml version=\"1.0\"?><svg/>".to_vec();
    assert_eq!(validate_image_type(&xml).unwrap(), "image/svg+xml");
    let ico = vec![0x00, 0x00, 0x01, 0x00];
    assert_eq!(validate_image_type(&ico).unwrap(), "image/x-icon");

    let small = validate_image_type(&[0x89, 0x50, 0x4E]).unwrap_err();
    assert_eq!(small.message(), "File is too small to be a valid image");
    let other = validate_image_type(b"plain text, not an image").unwrap_err();
    assert_eq!(other.message(), "Only image files are allowed (PNG, JPEG, GIF, SVG)");
    assert!(validate_image_type(&[]).is_err());
}
