use a_icon::multipart::{extract_boundary, parse_multipart};

fn sample_body(boundary: &str) -> Vec<u8> {
    let mut body = Vec::new();
    body.extend_from_slice(format!("--{}\r\n", boundary).as_bytes());
    body.extend_from_slice(b"Content-Disposition: form-data; name=\"title\"\r\n");
    body.extend_from_slice(b"\r\nMy Icon\r\n");
    body.extend_from_slice(format!("--{}\r\n", boundary).as_bytes());
    body.extend_from_slice(b"Content-Disposition: form-data; name=\"metadata\"\r\n");
    body.extend_from_slice(b"\r\n  \r\n");
    body.extend_from_slice(format!("--{}\r\n", boundary).as_bytes());
    body.extend_from_slice(
        b"Content-Disposition: form-data; name=\"file\"; filename=\"a.png\"\r\n",
    );
    body.extend_from_slice(b"Content-Type: image/png\r\n");
    body.extend_from_slice(b"\r\n\x89PNG-bytes\r\n");
    body.extend_from_slice(format!("--{}--\r\n", boundary).as_bytes());
    body
}

#[test]
fn round_trip_recovers_fields_and_file() {
    let body = sample_body("BOUNDTOKEN");
    let data = parse_multipart(&body, "BOUNDTOKEN").unwrap();

    assert_eq!(data.parts.len(), 3);
    assert_eq!(data.get_field("title").unwrap(), "My Icon");

    let file = data.get_file("file").unwrap();
    assert_eq!(file.name, "file");
    assert_eq!(file.filename.as_deref(), Some("a.png"));
    assert_eq!(file.content_type.as_deref(), Some("image/png"));
    assert_eq!(file.content, b"\x89PNG-bytes".to_vec());
}

#[test]
fn part_without_name_attribute_is_dropped() {
    let mut body = Vec::new();
    body.extend_from_slice(b"--B\r\nContent-Disposition: form-data; name=\"kept\"\r\n\r\nv\r\n");
    body.extend_from_slice(b"--B\r\nContent-Disposition: form-data\r\n\r\norphan\r\n");
    body.extend_from_slice(b"--B--\r\n");
    let data = parse_multipart(&body, "B").unwrap();
    assert_eq!(data.parts.len(), 1);
    assert_eq!(data.parts[0].name, "kept");
    assert_eq!(data.get_field("kept").unwrap(), "v");
    assert!(data.get_field("orphan").is_none());
}

#[test]
fn part_without_blank_line_is_dropped() {
    let mut body = Vec::new();
    body.extend_from_slice(b"--B\r\nContent-Disposition: form-data; name=\"x\"");
    // truncated: no blank line before the terminal boundary
    let data = parse_multipart(&body, "B").unwrap();
    assert_eq!(data.parts.len(), 0);
}

#[test]
fn lf_only_bodies_decode_too() {
    let body = b"--B\nContent-Disposition: form-data; name=\"f\"\n\nvalue\n--B--\n".to_vec();
    let data = parse_multipart(&body, "B").unwrap();
    assert_eq!(data.get_field("f").unwrap(), "value");
}

#[test]
fn get_file_skips_plain_fields() {
    // a field and a file share the name; get_file must pick the file part
    let mut body = Vec::new();
    body.extend_from_slice(b"--B\r\nContent-Disposition: form-data; name=\"f\"\r\n\r\nplain\r\n");
    body.extend_from_slice(
        b"--B\r\nContent-Disposition: form-data; name=\"f\"; filename=\"x\"\r\n\r\nfile\r\n",
    );
    body.extend_from_slice(b"--B--\r\n");
    let data = parse_multipart(&body, "B").unwrap();
    let file = data.get_file("f").unwrap();
    assert_eq!(file.filename.as_deref(), Some("x"));
    assert_eq!(file.content, b"file".to_vec());
    // while get_field returns the first part of the name
    assert_eq!(data.get_field("f").unwrap(), "plain");
}

#[test]
fn boundary_extraction() {
    assert_eq!(
        extract_boundary("multipart/form-data; boundary=XYZ").unwrap(),
        "XYZ"
    );
    assert_eq!(
        extract_boundary("multipart/form-data; boundary=\"quoted token\"").unwrap(),
        "quoted token"
    );
    assert!(extract_boundary("multipart/form-data").is_err());
    assert!(extract_boundary("text/plain; charset=utf-8").is_err());
}
