//! The content fetcher: URL derivation, outcome classification, and
//! local persistence.

use object_gateway::errors::FetchImageError;
use object_gateway::fetcher::{
    classify_response, normalize_url, save_as_file, u16_to_dec, FetchOutcome, Image,
};
use object_gateway::transfer::ByteSink;

#[test]
fn decimal_rendering_is_exact() {
    assert_eq!(u16_to_dec(0), "0");
    assert_eq!(u16_to_dec(7), "7");
    assert_eq!(u16_to_dec(10), "10");
    assert_eq!(u16_to_dec(100), "100");
    assert_eq!(u16_to_dec(65535), "65535");
}

#[test]
fn descriptor_maps_to_its_templated_url() {
    let image = Image { x: 100, y: 100, key: String::from("cat") };
    let url = image.to_url().unwrap();
    assert_eq!(url, "https://picsum.photos/100/100");
}

#[test]
fn descriptor_validation_passes() {
    let image = Image { x: 1, y: 1, key: String::from("k") };
    assert!(image.validate().is_ok());
}

#[test]
fn url_parser_normalizes_rather_than_echoes() {
    let normalized = normalize_url("HTTPS://PICSUM.PHOTOS/1/2").unwrap();
    assert_eq!(normalized, "https://picsum.photos/1/2");
}

#[test]
fn url_parser_rejects_relative_text() {
    assert!(normalize_url("not a url").is_none());
}

#[test]
fn descriptor_file_name_is_key_with_suffix() {
    let image = Image { x: 3, y: 4, key: String::from("cat") };
    assert_eq!(image.to_file_name(), "cat.png");
}

#[test]
fn delivered_body_passes_through() {
    let bytes = classify_response(FetchOutcome::Delivered(vec![5, 6, 7])).unwrap();
    assert_eq!(bytes, vec![5, 6, 7]);
}

#[test]
fn unreachable_host_is_a_transport_server_error_and_writes_nothing() {
    let sink = ByteSink::new();
    let outcome = FetchOutcome::ConnectFailed(String::from("dns error: unreachable host"));
    let e = classify_response(outcome).unwrap_err();
    assert!(matches!(e, FetchImageError::Request(_)));
    let resp = e.to_err_resp();
    assert_eq!(resp.status, 500);
    assert_eq!(resp.body.message, "request");
    assert!(sink.data().is_empty());
}

#[test]
fn dropped_body_is_a_read_error() {
    let outcome = FetchOutcome::BodyFailed(String::from("connection reset mid-body"));
    let e = classify_response(outcome).unwrap_err();
    assert!(matches!(e, FetchImageError::ReadBody(_)));
    assert_eq!(e.to_err_resp().status, 500);
}

#[test]
fn fetched_bytes_are_saved_under_the_derived_name() {
    let image = Image { x: 8, y: 8, key: String::from("cat") };
    let bytes: Vec<u8> = vec![1, 2, 3];
    let mut sink = ByteSink::new();
    let name = save_as_file(&image, &bytes, &mut sink).unwrap();
    assert_eq!(name, "cat.png");
    assert_eq!(sink.data(), &bytes);
}
