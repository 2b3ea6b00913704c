//! The error taxonomy: every kind maps to exactly one outcome class,
//! and every operation-level failure reports the status and message
//! the taxonomy owes it.

use object_gateway::errors::{
    classify, map_error, status_code, ErrorKind, FetchImageError, GetObjectError,
    ListObjectsError, OutcomeClass, PutObjectError, S3Error, StorageError,
};

#[test]
fn kinds_classify_to_their_outcome_class() {
    assert_eq!(classify(ErrorKind::InvalidInput), OutcomeClass::ClientError);
    assert_eq!(classify(ErrorKind::BuildUrl), OutcomeClass::ClientError);
    assert_eq!(classify(ErrorKind::CredentialError), OutcomeClass::ServerError);
    assert_eq!(classify(ErrorKind::TransportError), OutcomeClass::ServerError);
    assert_eq!(classify(ErrorKind::RemoteStorageError), OutcomeClass::ServerError);
    assert_eq!(classify(ErrorKind::LocalIOError), OutcomeClass::ServerError);
}

#[test]
fn outcome_classes_have_fixed_status_codes() {
    assert_eq!(status_code(OutcomeClass::ClientError), 400);
    assert_eq!(status_code(OutcomeClass::ServerError), 500);
}

#[test]
fn mapper_pairs_class_with_diagnostic() {
    let e = StorageError::new(ErrorKind::TransportError, String::from("connection refused"));
    let (class, message) = map_error(&e);
    assert_eq!(class, OutcomeClass::ServerError);
    assert_eq!(message, "connection refused");
}

#[test]
fn credential_failure_reports_as_server_error() {
    let e = StorageError::new(ErrorKind::CredentialError, String::from("role not assumable"));
    let resp = e.to_err_resp();
    assert_eq!(resp.status, 500);
    assert_eq!(resp.body.message, "role not assumable");
}

#[test]
fn s3_error_keeps_its_text() {
    let e = S3Error::new(String::from("AccessDenied: no"));
    assert_eq!(e.detail(), "AccessDenied: no");
}

#[test]
fn add_message_prefixes_context() {
    let e = S3Error::new(String::from("slow down"));
    let e = e.add_message(String::from("Throttled"));
    assert_eq!(e.detail(), "Throttled: slow down");
}

#[test]
fn from_remote_uses_code_and_message() {
    let e = S3Error::from_remote(
        Some(String::from("AccessDenied")),
        Some(String::from("Access Denied")),
    );
    assert_eq!(e.detail(), "AccessDenied: Access Denied");
}

#[test]
fn from_remote_substitutes_missing_code() {
    let e = S3Error::from_remote(None, Some(String::from("no body")));
    assert_eq!(e.detail(), "unknown code: no body");
}

#[test]
fn from_remote_substitutes_missing_message() {
    let e = S3Error::from_remote(Some(String::from("Throttled")), None);
    assert_eq!(e.detail(), "Throttled: missing reason");
}

#[test]
fn from_remote_substitutes_both_sentinels() {
    let e = S3Error::from_remote(None, None);
    assert_eq!(e.detail(), "unknown code: missing reason");
}

#[test]
fn put_error_reports_inner_detail() {
    let e = PutObjectError::Put(S3Error::new(String::from("NoSuchBucket: gone")));
    let resp = e.to_err_resp();
    assert_eq!(resp.status, 500);
    assert_eq!(resp.body.message, "NoSuchBucket: gone");
}

#[test]
fn get_error_variants_report_status_and_message() {
    let get = GetObjectError::Get(S3Error::new(String::from("NoSuchKey: gone")));
    let resp = get.to_err_resp();
    assert_eq!(resp.status, 500);
    assert_eq!(resp.body.message, "NoSuchKey: gone");

    let read = GetObjectError::Read(S3Error::new(String::from("cut off")));
    let resp = read.to_err_resp();
    assert_eq!(resp.status, 500);
    assert_eq!(resp.body.message, "cut off");

    let create = GetObjectError::CreateFile(String::from("permission denied"));
    let resp = create.to_err_resp();
    assert_eq!(resp.status, 500);
    assert_eq!(resp.body.message, "create file");

    let write = GetObjectError::WriteFile(String::from("disk full"));
    let resp = write.to_err_resp();
    assert_eq!(resp.status, 500);
    assert_eq!(resp.body.message, "write file");
}

#[test]
fn list_error_reports_inner_detail() {
    let e = ListObjectsError::List(S3Error::new(String::from("AccessDenied: no")));
    let resp = e.to_err_resp();
    assert_eq!(resp.status, 500);
    assert_eq!(resp.body.message, "AccessDenied: no");
}

#[test]
fn fetch_error_variants_report_status_and_message() {
    let cases: Vec<(FetchImageError, u16, &str)> = vec![
        (FetchImageError::InvalidInput(String::from("bad")), 400, "invalid input"),
        (FetchImageError::BuildUrl(String::from("bad url")), 400, "build url"),
        (FetchImageError::Request(String::from("unreachable")), 500, "request"),
        (FetchImageError::ReadBody(String::from("dropped")), 500, "read body"),
        (FetchImageError::CreateFile(String::from("denied")), 500, "create file"),
        (FetchImageError::Write(String::from("disk full")), 500, "write buffer"),
    ];
    for (e, status, message) in cases {
        let resp = e.to_err_resp();
        assert_eq!(resp.status, status);
        assert_eq!(resp.body.message, message);
    }
}
