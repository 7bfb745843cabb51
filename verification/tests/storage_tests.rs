use a_icon::storage::{detect_mime_type, mime_type_for_key, mime_type_from_extension};

#[test]
fn test_detect_mime_type() {
    // PNG
    let png = vec![0x89, 0x50, 0x4E, 0x47, 0x0D, 0x0A, 0x1A, 0x0A];
    assert_eq!(detect_mime_type(&png), "image/png");

    // JPEG
    let jpeg = vec![0xFF, 0xD8, 0xFF, 0xE0];
    assert_eq!(detect_mime_type(&jpeg), "image/jpeg");

    // GIF
    let gif = vec![0x47, 0x49, 0x46, 0x38];
    assert_eq!(detect_mime_type(&gif), "image/gif");

    // ICO
    let ico = vec![0x00, 0x00, 0x01, 0x00];
    assert_eq!(detect_mime_type(&ico), "image/x-icon");
}

#[test]
fn test_mime_type_from_extension() {
    assert_eq!(mime_type_from_extension("png"), "image/png");
    assert_eq!(mime_type_from_extension("PNG"), "image/png");
    assert_eq!(mime_type_from_extension("jpg"), "image/jpeg");
    assert_eq!(mime_type_from_extension("svg"), "image/svg+xml");
    assert_eq!(mime_type_from_extension("ico"), "image/x-icon");
    assert_eq!(mime_type_from_extension("unknown"), "application/octet-stream");
}

#[test]
fn detect_falls_back_on_short_buffers() {
    // a 3-byte buffer yields the generic fallback type
    assert_eq!(detect_mime_type(&[0x89, 0x50, 0x4E]), "application/octet-stream");
    assert_eq!(detect_mime_type(&[]), "application/octet-stream");
    assert_eq!(detect_mime_type(b"text"), "application/octet-stream");
}

#[test]
fn detect_svg_documents() {
    assert_eq!(detect_mime_type(b"<svg width=\"1\"/>"), "image/svg+xml");
    assert_eq!(detect_mime_type(b"   <?xml version=\"1.0\"?>"), "image/svg+xml");
}

#[test]
fn mime_for_storage_keys() {
    assert_eq!(mime_type_for_key("assets/icons/x.png"), "image/png");
    assert_eq!(mime_type_for_key("assets/icons/x.SVG"), "image/svg+xml");
    assert_eq!(mime_type_for_key("a.b.c.jpeg"), "image/jpeg");
    // without a dot, the whole key is taken as the extension
    assert_eq!(mime_type_for_key("noextension"), "application/octet-stream");
    assert_eq!(mime_type_for_key("dir/file."), "application/octet-stream");
}
