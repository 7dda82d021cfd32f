use s3_facade::error::{Operation, StoreError};
use s3_facade::listing::{list_keys, list_request, ListPage, ListedObject};
use s3_facade::upload::{confirm_upload, upload_file, PutRequest, UploadError};

#[test]
fn missing_file_is_not_found() {
    let plan = upload_file("photos", "no/such/file.txt", false);
    assert_eq!(plan, Err(UploadError::NotFound { path: "no/such/file.txt".to_string() }));
}

#[test]
fn missing_file_gives_no_request_whatever_its_name() {
    assert!(upload_file("photos", "report.txt", false).is_err());
    assert!(upload_file("", "", false).is_err());
    assert!(upload_file("photos", "archive.bin", false).is_err());
}

#[test]
fn existing_text_file_is_stored_as_text_plain() {
    let plan = upload_file("photos", "report.txt", true);
    assert_eq!(
        plan,
        Ok(PutRequest {
            bucket: "photos".to_string(),
            key: "report.txt".to_string(),
            source_path: "report.txt".to_string(),
            content_type: "text/plain".to_string(),
        })
    );
}

#[test]
fn existing_binary_file_is_stored_as_octet_stream() {
    let request = upload_file("photos", "archive.bin", true).unwrap();
    assert_eq!(request.content_type, "application/octet-stream");
    let request = upload_file("photos", "archive.unknown-kind", true).unwrap();
    assert_eq!(request.content_type, "application/octet-stream");
    let request = upload_file("photos", "archive", true).unwrap();
    assert_eq!(request.content_type, "application/octet-stream");
}

#[test]
fn key_is_the_path_with_its_separators() {
    let request = upload_file("rate-n-date-profile-images", "src/main.rs", true).unwrap();
    assert_eq!(request.key, "src/main.rs");
    assert_eq!(request.source_path, "src/main.rs");
    assert_eq!(request.bucket, "rate-n-date-profile-images");
    assert_eq!(request.content_type, "text/x-rust");
    let request = upload_file("b", "./a/../b/c.png", true).unwrap();
    assert_eq!(request.key, "./a/../b/c.png");
}

#[test]
fn accepted_object_ends_the_upload_well() {
    let request = upload_file("photos", "report.txt", true).unwrap();
    assert_eq!(confirm_upload(&request, Ok(())), Ok(()));
}

#[test]
fn rejected_object_is_a_store_error() {
    let request = upload_file("photos", "report.txt", true).unwrap();
    let result = confirm_upload(&request, Err("status 403".to_string()));
    assert_eq!(
        result,
        Err(UploadError::Store(StoreError {
            operation: Operation::PutObject,
            bucket: "photos".to_string(),
            key: Some("report.txt".to_string()),
            reason: "status 403".to_string(),
        }))
    );
}

#[test]
fn second_upload_asks_for_the_same_object() {
    let first = upload_file("photos", "report.txt", true).unwrap();
    let second = upload_file("photos", "report.txt", true).unwrap();
    assert_eq!(first, second);
    assert_eq!(confirm_upload(&first, Ok(())), Ok(()));
    assert_eq!(confirm_upload(&second, Ok(())), Ok(()));
    let page = ListPage { contents: Some(vec![ListedObject { key: Some(second.key.clone()) }]) };
    let keys = list_keys(&list_request("photos"), Ok(page)).unwrap();
    assert_eq!(keys.iter().filter(|key| **key == first.key).count(), 1);
    assert_eq!(keys, vec!["report.txt"]);
}

#[test]
fn upload_errors_have_messages() {
    let missing = UploadError::NotFound { path: "src/main.rs".to_string() };
    assert_eq!(missing.message(), "no file at src/main.rs");
    let request = upload_file("photos", "report.txt", true).unwrap();
    let refused = confirm_upload(&request, Err("timed out".to_string())).unwrap_err();
    assert_eq!(
        refused.message(),
        "PutObject failed for bucket photos, key report.txt: timed out"
    );
}
