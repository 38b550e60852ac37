use backend_actix_web::form::{parse_report_request, FormError, FormPart};

fn part(name: Option<&str>, filename: Option<&str>, data: &[u8]) -> FormPart {
    FormPart {
        name: name.map(|n| n.to_string()),
        filename: filename.map(|f| f.to_string()),
        data: data.to_vec(),
    }
}

#[test]
fn parts_fill_the_request() {
    let parts = vec![
        part(Some("report_type"), None, b"Appeal"),
        part(Some("denial_text"), None, b"Lacked documentation"),
        part(Some("files[]"), Some("note.txt"), b"Subjective: pain"),
        part(Some("other"), None, b"ignored"),
        part(None, None, b"nameless"),
        part(Some("files[]"), None, b"second"),
    ];
    let req = parse_report_request(&parts).unwrap();
    assert_eq!(req.report_type, "Appeal");
    assert_eq!(req.denial_text, "Lacked documentation");
    assert_eq!(
        req.files,
        vec![
            ("note.txt".to_string(), b"Subjective: pain".to_vec()),
            ("file.txt".to_string(), b"second".to_vec()),
        ]
    );
}

#[test]
fn absent_fields_are_empty() {
    let req = parse_report_request(&vec![]).unwrap();
    assert_eq!(req.report_type, "");
    assert_eq!(req.denial_text, "");
    assert!(req.files.is_empty());
}

#[test]
fn later_field_wins() {
    let parts = vec![
        part(Some("report_type"), None, b"First"),
        part(Some("report_type"), None, b"Second"),
    ];
    assert_eq!(parse_report_request(&parts).unwrap().report_type, "Second");
}

#[test]
fn malformed_text_field_is_rejected() {
    let parts = vec![
        part(Some("report_type"), None, b"fine"),
        part(Some("denial_text"), None, &[0xC3, 0x28]),
        part(Some("report_type"), None, &[0xFF]),
    ];
    let err = parse_report_request(&parts).unwrap_err();
    assert_eq!(err, FormError::MalformedField("denial_text".to_string()));
    assert_eq!(err.message(), "Invalid UTF-8 in field `denial_text`");
}

#[test]
fn malformed_file_content_is_kept() {
    let parts = vec![part(Some("files[]"), Some("x.bin"), &[0xFF, 0xFE])];
    let req = parse_report_request(&parts).unwrap();
    assert_eq!(req.files, vec![("x.bin".to_string(), vec![0xFF, 0xFE])]);
}
