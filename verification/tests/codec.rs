use dynerror::bytes_base64;
use dynerror::decimal::push_decimal;
use dynerror::duration_positive_seconds::{self, OutOfRange, MAX_SECONDS};
use dynerror::upload::Part;

#[test]
fn base64_decodes_valid_text() {
    assert_eq!(bytes_base64::deserialize("aGVsbG8gd29ybGQ=").unwrap(), b"hello world".to_vec());
    assert_eq!(bytes_base64::deserialize("").unwrap(), Vec::<u8>::new());
    assert_eq!(bytes_base64::deserialize("+uwgVQA=").unwrap(), vec![0xFA, 0xEC, 0x20, 0x55, 0]);
}

#[test]
fn base64_rejects_invalid_text_with_the_prefixed_message() {
    let message = bytes_base64::deserialize("not base64!").unwrap_err();
    assert!(message.starts_with("invalid base64: "));
    assert!(message.len() > "invalid base64: ".len());
    let unpadded = bytes_base64::deserialize("aGVsbG8").unwrap_err();
    assert!(unpadded.starts_with("invalid base64: "));
}

#[test]
fn base64_message_is_the_prefix_and_the_detail() {
    assert_eq!(bytes_base64::invalid_base64("Invalid padding"), "invalid base64: Invalid padding");
    assert_eq!(bytes_base64::invalid_base64(""), "invalid base64: ");
}

#[test]
fn base64_encodes_with_padding() {
    assert_eq!(bytes_base64::serialize(&b"hello world".to_vec()), "aGVsbG8gd29ybGQ=");
    assert_eq!(bytes_base64::serialize(&vec![0xFF, 0xEC, 0x20, 0x55, 0]), "/+wgVQA=");
    assert_eq!(bytes_base64::serialize(&Vec::new()), "");
}

#[test]
fn base64_round_trip() {
    let bytes: Vec<u8> = (0u8..=255).collect();
    let text = bytes_base64::serialize(&bytes);
    assert_eq!(bytes_base64::deserialize(&text).unwrap(), bytes);
}

#[test]
fn seconds_within_the_bounds_are_kept() {
    assert_eq!(duration_positive_seconds::deserialize(0).unwrap().seconds(), 0);
    assert_eq!(duration_positive_seconds::deserialize(3600).unwrap().seconds(), 3600);
    let largest = duration_positive_seconds::deserialize(MAX_SECONDS).unwrap();
    assert_eq!(largest.seconds(), 9_223_372_036_854_775);
    assert_eq!(duration_positive_seconds::serialize(&largest), 9_223_372_036_854_775);
}

#[test]
fn seconds_beyond_the_bounds_are_refused() {
    assert_eq!(
        duration_positive_seconds::deserialize(MAX_SECONDS + 1),
        Err(OutOfRange { found: 9_223_372_036_854_776 })
    );
    let refused = duration_positive_seconds::deserialize(u64::MAX).unwrap_err();
    assert_eq!(refused.found, u64::MAX);
    assert_eq!(refused.expected(), "a value between 0 and 9223372036854775");
}

#[test]
fn seconds_bound_is_what_the_duration_type_accepts() {
    let largest = duration_positive_seconds::deserialize(MAX_SECONDS).unwrap();
    assert!(chrono::TimeDelta::try_seconds(largest.seconds()).is_some());
    assert!(chrono::TimeDelta::try_seconds(largest.seconds() + 1).is_none());
    assert_eq!(MAX_SECONDS, (i64::MAX / 1000) as u64);
}

fn decimal(n: u32) -> String {
    let mut text = String::from("n=");
    push_decimal(&mut text, n);
    text
}

#[test]
fn decimal_text_of_numbers() {
    assert_eq!(decimal(0), "n=0");
    assert_eq!(decimal(7), "n=7");
    assert_eq!(decimal(10), "n=10");
    assert_eq!(decimal(100), "n=100");
    assert_eq!(decimal(1234567890), "n=1234567890");
    assert_eq!(decimal(u32::MAX), "n=4294967295");
}

#[test]
fn upload_parts_come_in_order() {
    assert_eq!(Part::Metadata.name(), "metadata");
    assert_eq!(Part::Data.name(), "data");
    assert_eq!(Part::Metadata.following(), Some(Part::Data));
    assert_eq!(Part::Data.following(), None);
}

#[test]
fn upload_part_admits_only_its_own_name() {
    assert!(Part::Metadata.admits(Some("metadata")));
    assert!(Part::Data.admits(Some("data")));
    assert!(!Part::Metadata.admits(Some("data")));
    assert!(!Part::Data.admits(Some("metadata")));
    assert!(!Part::Metadata.admits(Some("Metadata")));
    assert!(!Part::Metadata.admits(Some("")));
    assert!(!Part::Metadata.admits(None));
    assert!(!Part::Data.admits(None));
}
