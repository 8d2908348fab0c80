use manga_dl::codec::{decode_snapshot, encode_payload, payload_of};
use manga_dl::extraction::{extract_outcome, select_strategy, ExtractionMethod, Observation};
use manga_dl::outcome::{destination_path, FailureReason, Outcome};

#[test]
fn decode_png_snapshot() {
    let b = decode_snapshot("data:image/png;base64,aGVsbG8=").ok().unwrap();
    assert_eq!(b, b"hello".to_vec());
}

#[test]
fn decode_jpeg_snapshot_after_trimming() {
    let b = decode_snapshot("  data:image/jpeg;base64,AAEC\n").ok().unwrap();
    assert_eq!(b, vec![0u8, 1, 2]);
}

#[test]
fn decode_rejects_unknown_prefix() {
    assert!(matches!(
        decode_snapshot("data:image/gif;base64,aGVsbG8="),
        Err(FailureReason::InvalidEncoding)
    ));
    assert!(payload_of("data:image/webp;base64,AAAA").is_none());
}

#[test]
fn decode_rejects_bad_base64() {
    assert!(matches!(
        decode_snapshot("data:image/png;base64,@@@@"),
        Err(FailureReason::InvalidEncoding)
    ));
    // non-zero trailing bits are not canonical
    assert!(matches!(
        decode_snapshot("data:image/png;base64,aGVsbG9="),
        Err(FailureReason::InvalidEncoding)
    ));
}

#[test]
fn decoded_bytes_encode_back_to_payload() {
    for url in [
        "data:image/png;base64,aGVsbG8=",
        "data:image/jpeg;base64,/9j/4AAQSkZJRg==",
        "data:image/png;base64,",
    ] {
        let bytes = decode_snapshot(url).ok().unwrap();
        assert_eq!(encode_payload(&bytes), payload_of(url).unwrap());
    }
}

#[test]
fn encode_payload_of_bytes() {
    assert_eq!(encode_payload(b"hello"), "aGVsbG8=");
}

#[test]
fn destination_is_numbered_from_one() {
    assert_eq!(destination_path("./download/t", 0), "./download/t/1.jpg");
    assert_eq!(destination_path("d", 9), "d/10.jpg");
}

#[test]
fn snapshot_extraction_is_repeatable() {
    let a = extract_outcome("d", 4, Observation::Snapshot("data:image/png;base64,aGVsbG8=".to_string()));
    let b = extract_outcome("d", 4, Observation::Snapshot("data:image/png;base64,aGVsbG8=".to_string()));
    match (a, b) {
        (Outcome::Success(x), Outcome::Success(y)) => {
            assert_eq!(x.bytes, y.bytes);
            assert_eq!(x.bytes, b"hello".to_vec());
            assert_eq!(x.path, "d/5.jpg");
            assert_eq!(y.path, "d/5.jpg");
        }
        _ => panic!("expected two successes"),
    }
}

#[test]
fn source_extraction_queues_a_fetch() {
    match extract_outcome("d", 1, Observation::Source("  https://cdn/x/2.jpg ".to_string())) {
        Outcome::Pending(p) => {
            assert_eq!(p.url, "https://cdn/x/2.jpg");
            assert_eq!(p.path, "d/2.jpg");
        }
        _ => panic!("expected a pending fetch"),
    }
}

#[test]
fn blank_source_is_element_not_found() {
    assert!(matches!(
        extract_outcome("d", 0, Observation::Source("   ".to_string())),
        Outcome::Failed(FailureReason::ElementNotFound)
    ));
}

#[test]
fn missing_and_timed_out_observations() {
    assert!(matches!(
        extract_outcome("d", 0, Observation::Missing),
        Outcome::Failed(FailureReason::ElementNotFound)
    ));
    assert!(matches!(
        extract_outcome("d", 0, Observation::TimedOut),
        Outcome::Failed(FailureReason::RenderTimeout)
    ));
    assert!(matches!(
        extract_outcome("d", 0, Observation::Snapshot("garbage".to_string())),
        Outcome::Failed(FailureReason::InvalidEncoding)
    ));
}

#[test]
fn screenshot_bytes_are_kept() {
    match extract_outcome("d", 2, Observation::Screenshot(vec![9, 8, 7])) {
        Outcome::Success(a) => {
            assert_eq!(a.bytes, vec![9, 8, 7]);
            assert_eq!(a.path, "d/3.jpg");
        }
        _ => panic!("expected success"),
    }
}

#[test]
fn strategy_prefers_sources_when_probe_finds_one() {
    assert_eq!(
        select_strategy(&vec![None, Some(String::new()), Some("u".to_string())]),
        ExtractionMethod::SourceUrl
    );
    assert_eq!(select_strategy(&vec![None, Some(String::new())]), ExtractionMethod::Bitmap);
    assert_eq!(select_strategy(&vec![]), ExtractionMethod::Bitmap);
    assert_eq!(ExtractionMethod::Bitmap.fallback(), ExtractionMethod::SourceUrl);
}
