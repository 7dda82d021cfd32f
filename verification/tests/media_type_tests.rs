use s3_facade::media_type::{content_type_or_generic, infer_content_type};

#[test]
fn text_file_is_text_plain() {
    assert_eq!(infer_content_type("report.txt"), "text/plain");
}

#[test]
fn binary_file_is_octet_stream() {
    assert_eq!(infer_content_type("archive.bin"), "application/octet-stream");
}

#[test]
fn unknown_extension_is_octet_stream() {
    assert_eq!(infer_content_type("data.no-such-extension"), "application/octet-stream");
}

#[test]
fn missing_extension_is_octet_stream() {
    assert_eq!(infer_content_type("Makefile"), "application/octet-stream");
    assert_eq!(infer_content_type(""), "application/octet-stream");
    assert_eq!(infer_content_type(".txt"), "application/octet-stream");
    assert_eq!(infer_content_type("notes."), "application/octet-stream");
}

#[test]
fn extension_is_read_from_the_file_name_only() {
    assert_eq!(infer_content_type("src/main.rs"), "text/x-rust");
    assert_eq!(infer_content_type("dir.txt/picture.png"), "image/png");
    assert_eq!(infer_content_type("dir.txt/picture"), "application/octet-stream");
    assert_eq!(infer_content_type("backup.tar.json"), "application/json");
}

#[test]
fn extension_is_matched_without_regard_to_case() {
    assert_eq!(infer_content_type("PHOTO.JPG"), "image/jpeg");
    assert_eq!(infer_content_type("photo.jpg"), "image/jpeg");
    assert_eq!(infer_content_type("Page.Html"), "text/html");
}

#[test]
fn media_type_comes_out_in_lower_case() {
    assert_eq!(
        infer_content_type("budget.xlsm"),
        "application/vnd.ms-excel.sheet.macroenabled.12"
    );
}

#[test]
fn a_guess_is_kept() {
    assert_eq!(content_type_or_generic(Some("image/png".to_string())), "image/png");
    assert_eq!(content_type_or_generic(Some(String::new())), "");
}

#[test]
fn no_guess_falls_back_to_octet_stream() {
    assert_eq!(content_type_or_generic(None), "application/octet-stream");
}
