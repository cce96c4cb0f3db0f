use content_backend::media::Upload;
use content_backend::multipart::{field_override, field_value, field_values, read_upload, take_uploads, Part};

fn text(name: &str, value: &str) -> Part {
    Part { name: name.to_string(), filename: None, data: value.as_bytes().to_vec() }
}

fn file(name: &str, filename: Option<&str>, data: Vec<u8>) -> Part {
    Part { name: name.to_string(), filename: filename.map(str::to_string), data }
}

#[test]
fn field_value_takes_the_last_part_of_the_name() {
    let parts = vec![text("name", "first"), text("other", "x"), text("name", " second "), text("z", "")];
    assert_eq!(field_value(&parts, "name"), " second ");
    assert_eq!(field_value(&parts, "other"), "x");
    assert_eq!(field_value(&parts, "missing"), "");
    assert_eq!(field_value(&Vec::new(), "name"), "");
}

#[test]
fn field_value_decodes_lossily() {
    let parts = vec![file("name", None, vec![b'a', 0xff, b'b']), text("description", "héllo")];
    assert_eq!(field_value(&parts, "name"), "a\u{fffd}b");
    assert_eq!(field_value(&parts, "description"), "héllo");
}

#[test]
fn field_values_are_trimmed_and_never_empty() {
    let parts = vec![
        text("deleteImg", " a.png "),
        text("name", "n"),
        text("deleteImg", "   "),
        text("deleteImg", ""),
        text("deleteImg", "b.jpg\n"),
    ];
    assert_eq!(field_values(&parts, "deleteImg"), vec!["a.png".to_string(), "b.jpg".to_string()]);
    assert_eq!(field_values(&parts, "nothing"), Vec::<String>::new());
}

#[test]
fn field_override_keeps_the_stored_value_without_a_part() {
    let parts = vec![text("firstname", "  Ann "), text("lastname", ""), text("firstname", "Bea")];
    assert_eq!(field_override(&parts, "firstname", "Old".to_string()), "Bea");
    assert_eq!(field_override(&parts, "lastname", "Old".to_string()), "");
    assert_eq!(field_override(&parts, "email", "old@x.io".to_string()), "old@x.io");
}

#[test]
fn read_upload_names_a_nameless_file() {
    let upload = read_upload(file("postImgs", None, vec![1, 2, 3])).unwrap();
    assert_eq!(upload, Upload { bytes: vec![1, 2, 3], filename: "unknown.jpg".to_string() });
}

#[test]
fn read_upload_checks_type_before_size() {
    let big = vec![0u8; 3 * 1024 * 1024 + 1];
    assert_eq!(
        read_upload(file("postImgs", Some("a.gif"), big.clone())),
        Err("Image type must be jpeg, jpg,webp or png ".to_string())
    );
    assert_eq!(
        read_upload(file("postImgs", Some("a.png"), big)),
        Err("File size should be less than 3MB".to_string())
    );
    let fits = vec![0u8; 3 * 1024 * 1024];
    assert_eq!(read_upload(file("postImgs", Some("a.png"), fits.clone())).unwrap().bytes, fits);
}

#[test]
fn take_uploads_keeps_order_and_other_fields_out() {
    let parts = vec![
        file("postImgs", Some("a.png"), vec![1]),
        text("name", "n"),
        file("profile", Some("p.jpg"), vec![9]),
        file("postImgs", Some("b.JPG"), vec![2, 2]),
    ];
    assert_eq!(
        take_uploads(parts.clone(), "postImgs"),
        Ok(vec![
            Upload { bytes: vec![1], filename: "a.png".to_string() },
            Upload { bytes: vec![2, 2], filename: "b.JPG".to_string() },
        ])
    );
    assert_eq!(take_uploads(parts, "none"), Ok(Vec::new()));
}

#[test]
fn take_uploads_reports_the_first_refusal() {
    let big = vec![0u8; 3 * 1024 * 1024 + 1];
    let parts = vec![
        file("postImgs", Some("a.png"), vec![1]),
        file("postImgs", Some("b.png"), big),
        file("postImgs", Some("c.txt"), vec![3]),
    ];
    assert_eq!(take_uploads(parts, "postImgs"), Err("File size should be less than 3MB".to_string()));
    let parts = vec![
        file("postImgs", Some("c.txt"), vec![3]),
        file("postImgs", Some("b.png"), vec![0u8; 3 * 1024 * 1024 + 1]),
    ];
    assert_eq!(take_uploads(parts, "postImgs"), Err("Image type must be jpeg, jpg,webp or png ".to_string()));
}

#[test]
fn field_entry_tells_a_blank_field_from_a_missing_one() {
    let parts = vec![text("password", " first "), text("email", ""), text("password", "\tsecond\n")];
    assert_eq!(content_backend::multipart::field_entry(&parts, "password"), Some("second".to_string()));
    assert_eq!(content_backend::multipart::field_entry(&parts, "email"), Some(String::new()));
    assert_eq!(content_backend::multipart::field_entry(&parts, "ph"), None);
}
