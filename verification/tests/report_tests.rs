use s3_facade::error::{Operation, StoreError};
use s3_facade::report::{format_listing, upload_notice};

#[test]
fn listing_shows_one_key_per_line() {
    let keys = vec!["a.txt".to_string(), "b/c.png".to_string(), "d".to_string()];
    assert_eq!(format_listing(&keys), "List:\na.txt\nb/c.png\nd");
}

#[test]
fn listing_of_one_key_has_no_separator() {
    assert_eq!(format_listing(&vec!["only".to_string()]), "List:\nonly");
}

#[test]
fn listing_of_nothing_is_the_heading() {
    assert_eq!(format_listing(&Vec::new()), "List:\n");
}

#[test]
fn listing_keeps_empty_keys() {
    let keys = vec![String::new(), String::new()];
    assert_eq!(format_listing(&keys), "List:\n\n");
}

#[test]
fn listing_matches_a_plain_join() {
    let keys = vec!["x".to_string(), "y".to_string(), "z".to_string()];
    assert_eq!(format_listing(&keys), format!("List:\n{}", keys.join("\n")));
}

#[test]
fn notice_names_the_uploaded_file() {
    assert_eq!(upload_notice("src/main.rs"), "Uploaded file src/main.rs");
    assert_eq!(upload_notice(""), "Uploaded file ");
}

#[test]
fn operations_have_protocol_names() {
    assert_eq!(Operation::ListObjects.name(), "ListObjectsV2");
    assert_eq!(Operation::PutObject.name(), "PutObject");
}

#[test]
fn store_error_message_names_operation_bucket_and_key() {
    let listing = StoreError::listing("photos", "connection reset".to_string());
    assert_eq!(listing.message(), "ListObjectsV2 failed for bucket photos: connection reset");
    let storing = StoreError::storing("photos", "a/b.txt", "status 500".to_string());
    assert_eq!(storing.message(), "PutObject failed for bucket photos, key a/b.txt: status 500");
    assert_eq!(storing.operation, Operation::PutObject);
    assert_eq!(storing.key, Some("a/b.txt".to_string()));
}
