use chrono::{DateTime, Days, Utc};
use document_collection::ident::{format_id, parse_id};
use document_collection::timestamp::{resolve_window, resolve_window_now, Timestamp};
use uuid::Uuid;

fn midnight(seconds: i64, nanos: u32) -> i64 {
    DateTime::<Utc>::from_timestamp(seconds, nanos)
        .unwrap()
        .date_naive()
        .and_hms_opt(0, 0, 0)
        .unwrap()
        .and_utc()
        .timestamp()
}

fn next_midnight(seconds: i64, nanos: u32) -> i64 {
    (DateTime::<Utc>::from_timestamp(seconds, nanos)
        .unwrap()
        .date_naive()
        .and_hms_opt(0, 0, 0)
        .unwrap()
        + Days::new(1))
    .and_utc()
    .timestamp()
}

const INSTANTS: [i64; 14] = [
    0,
    1,
    -1,
    86_399,
    86_400,
    -86_400,
    -86_401,
    951_782_400,
    951_868_799,
    1_705_314_600,
    1_709_251_199,
    4_102_444_800,
    -2_208_988_800,
    253_402_300_799,
];

#[test]
fn day_alignment_agrees_with_the_calendar() {
    for seconds in INSTANTS {
        for nanos in [0u32, 1, 999_999_999] {
            let t = Timestamp { seconds, nanos: nanos as i32 };
            assert_eq!(t.start_of_day(), midnight(seconds, nanos) as i128);
            assert_eq!(t.start_of_next_day(), next_midnight(seconds, nanos) as i128);
        }
    }
}

#[test]
fn resolved_window_agrees_with_the_calendar() {
    for start in INSTANTS {
        for end in INSTANTS {
            let window = resolve_window(
                Some(Timestamp { seconds: start, nanos: 0 }),
                Some(Timestamp { seconds: end, nanos: 0 }),
                Timestamp { seconds: 0, nanos: 0 },
            );
            assert_eq!(window.start, midnight(start, 0) as i128);
            assert_eq!(window.end, next_midnight(end, 0) as i128);
        }
    }
}

#[test]
fn window_without_end_closes_after_the_clock_s_day() {
    let before = next_midnight(Utc::now().timestamp(), 0) as i128;
    let window = resolve_window_now(None, None);
    let after = next_midnight(Utc::now().timestamp(), 0) as i128;
    assert_eq!(window.start, 0);
    assert!(before <= window.end && window.end <= after);
}

#[test]
fn identities_are_read_as_the_uuid_crate_reads_them() {
    let texts = [
        "550e8400-e29b-41d4-a716-446655440000",
        "550E8400-E29B-41D4-A716-446655440000",
        "550e8400e29b41d4a716446655440000",
        "{550e8400-e29b-41d4-a716-446655440000}",
        "urn:uuid:550e8400-e29b-41d4-a716-446655440000",
        "URN:UUID:550e8400-e29b-41d4-a716-446655440000",
        "",
        " ",
        "550e8400-e29b-41d4-a716-44665544000",
        "550e8400-e29b-41d4-a716-4466554400000",
        "550e8400-e29b-41d4-a716_446655440000",
        "zzzzzzzz-zzzz-zzzz-zzzz-zzzzzzzzzzzz",
        "00000000-0000-0000-0000-000000000000",
    ];
    for text in texts {
        assert_eq!(parse_id(text), Uuid::parse_str(text).ok().map(|id| id.as_u128()));
    }
    assert_eq!(parse_id(texts[0]), Some(0x550e8400_e29b_41d4_a716_446655440000));
    assert_eq!(parse_id(texts[6]), None);
}

#[test]
fn identities_are_written_as_the_uuid_crate_writes_them() {
    for value in [0u128, 1, 0x550e8400_e29b_41d4_a716_446655440000, u128::MAX, 1 << 64] {
        assert_eq!(format_id(value), Uuid::from_u128(value).to_string());
        assert_eq!(format_id(value), Uuid::from_u128(value).hyphenated().to_string());
    }
}
