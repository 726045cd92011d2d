use codex_processor::clock::{now_unix_timestamp_ms, unix_timestamp_ms};
use codex_processor::error::{internal_error, invalid_request, JSONRPCErrorError};
use codex_processor::output::{describe_write_failure, write_failure_text};
use codex_processor::stamp::ApprovalStamp;
use codex_processor::text::{concatenate, copy_all, decimal_text, join};
use std::time::{SystemTime, UNIX_EPOCH};

fn test_clock() -> i64 {
    SystemTime::now()
        .duration_since(UNIX_EPOCH)
        .map(|span| span.as_millis() as i64)
        .unwrap_or_default()
}

#[test]
fn timestamp_lies_between_readings_of_the_clock() {
    let before = test_clock();
    let now = now_unix_timestamp_ms();
    let after = test_clock();
    assert!(before <= now && now <= after);
    assert!(now > 1_600_000_000_000);
}

#[test]
fn timestamp_of_a_clock_before_the_epoch_is_zero() {
    assert_eq!(unix_timestamp_ms(None), 0);
}

#[test]
fn timestamp_wraps_around() {
    assert_eq!(unix_timestamp_ms(Some(0)), 0);
    assert_eq!(unix_timestamp_ms(Some(1_700_000_000_123)), 1_700_000_000_123);
    assert_eq!(unix_timestamp_ms(Some(i64::MAX as u128)), i64::MAX);
    assert_eq!(unix_timestamp_ms(Some(i64::MAX as u128 + 1)), i64::MIN);
    assert_eq!(unix_timestamp_ms(Some(u64::MAX as u128)), -1);
    assert_eq!(unix_timestamp_ms(Some(u64::MAX as u128 + 3)), 2);
}

#[test]
fn item_id_spells_the_uuid_out() {
    let stamp = ApprovalStamp {
        uuid: 0x00112233_4455_6677_8899_aabbccddeeff,
        started_at_ms: 0,
    };
    assert_eq!(
        stamp.item_id(),
        "codex-apply-patch-00112233-4455-6677-8899-aabbccddeeff"
    );
    let nil = ApprovalStamp {
        uuid: 0,
        started_at_ms: 0,
    };
    assert_eq!(
        nil.item_id(),
        "codex-apply-patch-00000000-0000-0000-0000-000000000000"
    );
}

#[test]
fn item_ids_of_different_uuids_differ() {
    let id = |uuid: u128| {
        ApprovalStamp {
            uuid,
            started_at_ms: 0,
        }
        .item_id()
    };
    for shift in 0..128 {
        assert_ne!(id(0), id(1 << shift));
    }
}

#[test]
fn fresh_stamps_are_random_and_current() {
    let before = test_clock();
    let stamp = ApprovalStamp::fresh();
    let other = ApprovalStamp::fresh();
    assert_ne!(stamp.uuid, other.uuid);
    assert_eq!((stamp.uuid >> 76) & 0xf, 4);
    assert_eq!((stamp.uuid >> 62) & 0x3, 2);
    assert!(before <= stamp.started_at_ms && stamp.started_at_ms <= test_clock());
    let id = stamp.item_id();
    assert_eq!(id.len(), 54);
    assert_eq!(&id[32..33], "4");
}

#[test]
fn write_failure_names_the_error_stream_if_there_is_any() {
    assert_eq!(write_failure_text("e", ""), "failed to apply patch: e");
    assert_eq!(write_failure_text("e", "x y"), "failed to apply patch: e: x y");
    assert_eq!(write_failure_text("", ""), "failed to apply patch: ");
}

#[test]
fn error_stream_is_read_and_trimmed() {
    assert_eq!(
        describe_write_failure("e", b"\r\n\xc2\xa0caf\xc3\xa9 au lait \n"),
        "failed to apply patch: e: caf\u{e9} au lait"
    );
    assert_eq!(
        describe_write_failure("e", b"\x80"),
        "failed to apply patch: e: \u{fffd}"
    );
    assert_eq!(
        describe_write_failure("e", b"\t \n"),
        "failed to apply patch: e"
    );
}

#[test]
fn every_white_space_character_is_trimmed() {
    let white = "\u{9}\u{a}\u{b}\u{c}\u{d}\u{20}\u{85}\u{a0}\u{1680}\u{2000}\u{2001}\u{2002}\u{2003}\u{2004}\u{2005}\u{2006}\u{2007}\u{2008}\u{2009}\u{200a}\u{2028}\u{2029}\u{202f}\u{205f}\u{3000}";
    for code in 0..=0x10_ffff_u32 {
        if let Some(character) = char::from_u32(code) {
            let stderr = character.to_string();
            let message = describe_write_failure("e", stderr.as_bytes());
            if white.contains(character) {
                assert_eq!(message, "failed to apply patch: e");
            } else {
                assert_eq!(message, format!("failed to apply patch: e: {character}"));
            }
        }
    }
    assert_eq!(
        describe_write_failure("e", white.as_bytes()),
        "failed to apply patch: e"
    );
}

#[test]
fn errors_carry_their_codes() {
    assert_eq!(
        invalid_request("a".to_string()),
        JSONRPCErrorError {
            code: -32600,
            message: "a".to_string(),
            data: None,
        }
    );
    assert_eq!(
        internal_error("b".to_string()),
        JSONRPCErrorError {
            code: -32603,
            message: "b".to_string(),
            data: None,
        }
    );
}

#[test]
fn numbers_are_written_in_decimal() {
    for value in [0, 7, 10, 127, 1000, -1, -90, i32::MAX, i32::MIN] {
        assert_eq!(decimal_text(value), format!("{value}"));
    }
}

#[test]
fn strings_are_joined_with_the_separator_between() {
    let parts = vec!["a".to_string(), String::new(), "c".to_string()];
    assert_eq!(join(&parts, ", "), "a, , c");
    assert_eq!(join(&vec![], ", "), "");
    assert_eq!(join(&vec!["x".to_string()], ", "), "x");
    assert_eq!(concatenate("a", "b"), "ab");
    assert_eq!(copy_all(&parts), parts);
}
