//! The storage pipeline: credentials, the bucket model, the facade,
//! and the transfer engine's byte accounting.

use object_gateway::bucket::{Bucket, ObjectSeed};
use object_gateway::config::{aws_default_region, AppConfig};
use object_gateway::credentials::{acquire, SessionGrant};
use object_gateway::errors::{ErrorKind, GetObjectError};
use object_gateway::facade;
use object_gateway::transfer::{
    download, pump_chunks, upload, ByteSink, ByteSource, DownloadProgress, Params,
};

fn test_credentials() -> object_gateway::credentials::Credentials {
    acquire(
        String::from("ap-northeast-1"),
        String::from("arn:aws:iam::123456789012:role/transfer"),
        String::from("transfer-session"),
        SessionGrant::Granted,
    )
    .unwrap()
}

fn test_bucket() -> Bucket {
    Bucket::new(String::from("ap-northeast-1"))
}

#[test]
fn app_config_holds_its_settings() {
    let c = AppConfig::new(
        String::from("127.0.0.1"),
        String::from("8080"),
        String::from("payloads"),
    );
    assert_eq!(c.http_host, "127.0.0.1");
    assert_eq!(c.http_port, "8080");
    assert_eq!(c.aws_s3_bucket_name, "payloads");
}

#[test]
fn default_region_is_fixed() {
    assert_eq!(aws_default_region(), "ap-northeast-1");
}

#[test]
fn granted_session_yields_scoped_credentials() {
    let creds = test_credentials();
    assert_eq!(creds.region, "ap-northeast-1");
    assert_eq!(creds.role_arn, "arn:aws:iam::123456789012:role/transfer");
    assert_eq!(creds.session_name, "transfer-session");
}

#[test]
fn denied_session_yields_credential_server_error() {
    let r = acquire(
        String::from("ap-northeast-1"),
        String::from("arn:aws:iam::123456789012:role/transfer"),
        String::from("transfer-session"),
        SessionGrant::Denied(String::from("AccessDenied: not authorized to assume role")),
    );
    let e = r.unwrap_err();
    assert!(matches!(e.kind, ErrorKind::CredentialError));
    assert_eq!(e.detail, "AccessDenied: not authorized to assume role");
    let resp = e.to_err_resp();
    assert_eq!(resp.status, 500);
}

#[test]
fn upload_then_download_round_trips_ten_bytes() {
    let creds = test_credentials();
    let mut bucket = test_bucket();
    let payload: Vec<u8> = vec![1, 2, 3, 4, 5, 6, 7, 8, 9, 10];
    let seed = ObjectSeed::new(String::from("cat"));
    let source = ByteSource::from_bytes(payload.clone());

    upload(&creds, &mut bucket, &seed, &source).unwrap();

    let mut sink = ByteSink::new();
    let result = download(&creds, &bucket, &seed, &mut sink).unwrap();
    assert_eq!(result.bytes_transferred, 10);
    assert_eq!(sink.data(), &payload);
}

#[test]
fn get_returns_exactly_what_put_stored() {
    let creds = test_credentials();
    let mut bucket = test_bucket();
    let payload: Vec<u8> = vec![42, 0, 17];
    let source = ByteSource::from_bytes(payload.clone());
    facade::put(&creds, &mut bucket, String::from("cat"), &source).unwrap();

    let src = facade::get(&creds, &bucket, &String::from("cat")).unwrap();
    assert_eq!(src.to_bytes(), payload);
}

#[test]
fn put_overwrites_in_place() {
    let creds = test_credentials();
    let mut bucket = test_bucket();
    let first = ByteSource::from_bytes(vec![1, 1, 1]);
    let second = ByteSource::from_bytes(vec![2, 2]);
    facade::put(&creds, &mut bucket, String::from("a"), &first).unwrap();
    facade::put(&creds, &mut bucket, String::from("b"), &first).unwrap();
    facade::put(&creds, &mut bucket, String::from("a"), &second).unwrap();

    let got = facade::get(&creds, &bucket, &String::from("a")).unwrap();
    assert_eq!(got.to_bytes(), vec![2, 2]);

    let keys = facade::list(&creds, &bucket).unwrap();
    assert_eq!(keys.keys(), &vec![String::from("a"), String::from("b")]);
}

#[test]
fn list_on_empty_bucket_is_ok_and_empty() {
    let creds = test_credentials();
    let bucket = test_bucket();
    let keys = facade::list(&creds, &bucket).unwrap();
    assert_eq!(keys.len(), 0);
    assert!(keys.keys().is_empty());
}

#[test]
fn list_returns_all_keys_in_provider_order() {
    let creds = test_credentials();
    let mut bucket = test_bucket();
    for key in ["a", "b", "c"] {
        let source = ByteSource::from_bytes(vec![0]);
        facade::put(&creds, &mut bucket, String::from(key), &source).unwrap();
    }
    let keys = facade::list(&creds, &bucket).unwrap();
    assert_eq!(
        keys.keys(),
        &vec![String::from("a"), String::from("b"), String::from("c")]
    );
}

#[test]
fn download_of_missing_key_reports_remote_refusal() {
    let creds = test_credentials();
    let bucket = test_bucket();
    let seed = ObjectSeed::new(String::from("nowhere"));
    let mut sink = ByteSink::new();
    let e = download(&creds, &bucket, &seed, &mut sink).unwrap_err();
    match e {
        GetObjectError::Get(s3) => {
            assert_eq!(s3.detail(), "NoSuchKey: The specified key does not exist.")
        }
        _ => panic!("expected a remote get failure"),
    }
    assert!(sink.data().is_empty());
}

#[test]
fn byte_count_equals_sum_of_chunks_written() {
    let chunks: Vec<Vec<u8>> = vec![vec![1, 2, 3], vec![4, 5, 6, 7], vec![], vec![8]];
    let source = ByteSource::from_chunks(chunks);
    let mut sink = ByteSink::new();
    let n = pump_chunks(&source, &mut sink).unwrap();
    assert_eq!(n, 8);
    assert_eq!(sink.data(), &vec![1, 2, 3, 4, 5, 6, 7, 8]);
    assert_eq!(sink.data().len(), n);
}

#[test]
fn chunk_read_failure_aborts_and_leaves_partial_file() {
    let chunks: Vec<Vec<u8>> = vec![vec![9, 9], vec![7]];
    let source = ByteSource::failing(chunks, String::from("connection reset"));
    let mut sink = ByteSink::new();
    let e = pump_chunks(&source, &mut sink).unwrap_err();
    match e {
        GetObjectError::Read(s3) => assert_eq!(
            s3.detail(),
            "Failed to write from S3 download to local file: connection reset"
        ),
        _ => panic!("expected a terminal read failure"),
    }
    assert_eq!(sink.data(), &vec![9, 9, 7]);
}

#[test]
fn download_progress_counts_exactly() {
    let mut progress = DownloadProgress::new();
    assert!(progress.record_chunk(3));
    assert!(progress.record_chunk(4));
    assert!(progress.record_chunk(0));
    let result = progress.finish();
    assert_eq!(result.bytes_transferred, 7);
}

#[test]
fn download_progress_refuses_unrepresentable_totals() {
    let mut progress = DownloadProgress::new();
    assert!(progress.record_chunk(usize::MAX));
    assert!(!progress.record_chunk(1));
    assert_eq!(progress.finish().bytes_transferred, usize::MAX);
}

#[test]
fn seed_derives_deterministic_file_names() {
    let seed = ObjectSeed::new(String::from("cat"));
    assert_eq!(seed.key(), "cat");
    assert_eq!(seed.source_file_name(), "cat.png");
    assert_eq!(seed.dest_file_name(), "cat-dest.png");
}

#[test]
fn distinct_keys_derive_distinct_names() {
    let a = ObjectSeed::new(String::from("a"));
    let b = ObjectSeed::new(String::from("b"));
    assert_ne!(a.source_file_name(), b.source_file_name());
    assert_ne!(a.dest_file_name(), b.dest_file_name());
    assert_ne!(a.source_file_name(), a.dest_file_name());
}

#[test]
fn params_carry_their_key_into_a_seed() {
    let params = Params { key: String::from("cat") };
    let seed = params.to_seed();
    assert_eq!(seed.key(), "cat");
}

#[test]
fn listing_substitutes_empty_for_missing_keys() {
    let raw: Vec<Option<String>> = vec![
        Some(String::from("a")),
        None,
        Some(String::from("c")),
    ];
    let keys = facade::keys_from_listing(&raw);
    assert_eq!(keys, vec![String::from("a"), String::new(), String::from("c")]);
}
