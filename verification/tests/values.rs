use codex_usage::config::{is_under, join};
use codex_usage::encoding::{push_i64, push_optional_text, push_text, push_u64, to_hex};
use codex_usage::identifiers::{
    latest_context_order_ms, optional_uuid_string, parse_timestamp_ms, uuid7_is_not_earlier,
    uuid7_timestamp, uuid7_timestamp_ms, valid_uuid_string,
};
use codex_usage::ingestion::usage_processor::{event_id, synthetic_turn_key, UsageEvent};
use codex_usage::json::{JsonNumber, JsonValue};
use codex_usage::metadata::fields::{
    agent_path_words, project_name_from_path, subagent_title_from_agent_path,
};
use codex_usage::order::{
    compare_optional_i64, compare_optional_texts, compare_texts, insert_text, sort_codes, sort_ids,
    Rank,
};
use codex_usage::paths::{normalize_absolute_path, normalize_agent_path};
use codex_usage::platform::{starts_at_root, Platform};
use codex_usage::shared::{unknown_name, DomainError};
use codex_usage::text::{
    contains_control, contains_text, decimal, is_blank, trimmed, unsigned_decimal,
};
use codex_usage::token_usage::{EventKind, NormalizedTokenUsage};
use codex_usage::usage::{CodexRolloutParser, CompleteUsageLine, LifecycleKind, UsageRawRecord};

fn framed(bytes: &mut Vec<u8>, text: &str) {
    bytes.extend_from_slice(&(text.len() as u64).to_be_bytes());
    bytes.extend_from_slice(text.as_bytes());
}

#[test]
fn texts_are_framed_by_their_byte_length() {
    let mut out: Vec<u8> = Vec::new();
    push_text(&mut out, "\u{e9}x");
    push_optional_text(&mut out, &None);
    push_optional_text(&mut out, &Some("y".to_owned()));
    push_u64(&mut out, 0x0102_0304_0506_0708);
    push_i64(&mut out, -2);
    let mut expected: Vec<u8> = Vec::new();
    framed(&mut expected, "\u{e9}x");
    expected.push(0);
    expected.push(1);
    framed(&mut expected, "y");
    expected.extend_from_slice(&[1, 2, 3, 4, 5, 6, 7, 8]);
    expected.extend_from_slice(&(-2i64).to_be_bytes());
    assert_eq!(out, expected);
    assert_eq!(to_hex(&[0x00, 0x9f, 0xfa]), "009ffa");
}

#[test]
fn a_turn_without_an_id_is_named_by_its_place() {
    let mut bytes: Vec<u8> = Vec::new();
    framed(&mut bytes, "synthetic-turn-v1");
    framed(&mut bytes, "thread");
    bytes.extend_from_slice(&77u64.to_be_bytes());
    bytes.push(1);
    bytes.extend_from_slice(&5i64.to_be_bytes());
    assert_eq!(
        synthetic_turn_key("thread", 77, Some(5)),
        blake3::hash(&bytes).to_hex().to_string()
    );
    assert_ne!(
        synthetic_turn_key("thread", 77, Some(5)),
        synthetic_turn_key("thread", 77, None)
    );
}

#[test]
fn an_event_is_named_by_its_facts() {
    let total = NormalizedTokenUsage::new(10, 4, None, 3, 1, 13).unwrap();
    let event = UsageEvent {
        event_id: String::new(),
        kind: EventKind::Recovered,
        occurred_at_ms: 9,
        thread_id: "t".to_owned(),
        root_session_id: "r".to_owned(),
        turn_key: None,
        model: "m".to_owned(),
        reasoning_effort: Some("high".to_owned()),
        usage: total,
        previous_total: None,
        current_total: total,
    };
    let mut vector: Vec<u8> = Vec::new();
    for count in [10i64, 4] {
        vector.extend_from_slice(&count.to_be_bytes());
    }
    vector.push(0);
    for count in [3i64, 1, 13] {
        vector.extend_from_slice(&count.to_be_bytes());
    }
    let mut counted: Vec<u8> = 5i64.to_be_bytes().to_vec();
    counted.extend_from_slice(&vector);
    let mut bytes: Vec<u8> = Vec::new();
    framed(&mut bytes, "usage-event-v2");
    framed(&mut bytes, "t");
    bytes.push(0);
    bytes.push(1);
    bytes.extend_from_slice(&9i64.to_be_bytes());
    bytes.push(0);
    bytes.extend_from_slice(blake3::hash(&counted).as_bytes());
    bytes.extend_from_slice(&vector);
    framed(&mut bytes, "m");
    bytes.push(1);
    framed(&mut bytes, "high");
    assert_eq!(event_id(&event), blake3::hash(&bytes).to_hex().to_string());
    let mut elsewhere = event.clone();
    elsewhere.root_session_id = "other".to_owned();
    assert_eq!(event_id(&elsewhere), event_id(&event));
}

#[test]
fn uuids_are_spelled_one_way() {
    let spelled = "0198AAAA-1111-7111-8111-111111111111";
    assert_eq!(
        valid_uuid_string(spelled).as_deref(),
        Some("0198aaaa-1111-7111-8111-111111111111")
    );
    assert_eq!(
        valid_uuid_string("0198aaaa11117111811111111111111F").as_deref(),
        Some("0198aaaa-1111-7111-8111-11111111111f")
    );
    assert_eq!(valid_uuid_string("no"), None);
    assert_eq!(optional_uuid_string(None), None);
    assert_eq!(uuid7_timestamp(spelled), Some(0x0198_aaaa_1111));
    assert_eq!(uuid7_timestamp("0198aaaa-1111-4111-8111-111111111111"), None);
    assert!(uuid7_is_not_earlier(
        "0198aaaa-1112-7111-8111-111111111111",
        spelled
    ));
    assert!(!uuid7_is_not_earlier(
        "0198aaaa-1110-7111-8111-111111111111",
        spelled
    ));
    assert_eq!(
        latest_context_order_ms(&Some(spelled.to_owned()), Some(3)),
        Some(0x0198_aaaa_1111)
    );
    assert_eq!(latest_context_order_ms(&Some("turn".to_owned()), Some(3)), Some(3));
    assert_eq!(latest_context_order_ms(&None, None), None);
}

#[test]
fn times_are_texts_or_milliseconds() {
    let text = |value: &str| JsonValue::Text(value.to_owned());
    assert_eq!(parse_timestamp_ms(&text("1970-01-01T00:00:01.500Z")), Some(1_500));
    assert_eq!(parse_timestamp_ms(&text("1970-01-01T01:00:00+01:00")), Some(0));
    assert_eq!(parse_timestamp_ms(&text("yesterday")), None);
    let number = |signed: Option<i64>| {
        JsonValue::Number(JsonNumber { signed, unsigned: None })
    };
    assert_eq!(parse_timestamp_ms(&number(Some(7))), Some(7));
    assert_eq!(parse_timestamp_ms(&number(Some(-7))), None);
    assert_eq!(parse_timestamp_ms(&number(None)), None);
    assert_eq!(parse_timestamp_ms(&JsonValue::Null), None);
}

#[test]
fn paths_are_normalized_by_their_components() {
    assert_eq!(normalize_absolute_path(Platform::here(), "/a/./b//c/../d").as_deref(), Some("/a/b/d"));
    assert_eq!(normalize_absolute_path(Platform::here(), "/").as_deref(), Some("/"));
    assert_eq!(normalize_absolute_path(Platform::here(), "/.."), None);
    assert_eq!(normalize_absolute_path(Platform::here(), "a"), None);
    let agent = normalize_agent_path(Platform::here(), " /root/x/../y ").unwrap();
    assert_eq!(agent, "/root/y");
    assert_eq!(normalize_agent_path(Platform::here(), &agent).as_deref(), Some("/root/y"));
    let absolute = normalize_absolute_path(Platform::here(), "//a/.//b").unwrap();
    assert_eq!(normalize_absolute_path(Platform::here(), &absolute), Some(absolute));
}

#[test]
fn titles_and_names_come_from_the_last_component() {
    assert_eq!(
        subagent_title_from_agent_path(Platform::here(), "/root/\u{e9}tude_one").as_deref(),
        Some("\u{c9}tude one")
    );
    assert_eq!(subagent_title_from_agent_path(Platform::here(), "/root"), None);
    assert_eq!(project_name_from_path(Platform::here(), "/a/b").as_deref(), Some("b"));
}

#[test]
fn absent_values_come_before_present_ones() {
    assert_eq!(compare_optional_i64(None, Some(-5)), Rank::Before);
    assert_eq!(compare_optional_i64(Some(2), Some(1)), Rank::After);
    assert_eq!(
        compare_optional_texts(&Some("a".to_owned()), &Some("a".to_owned())),
        Rank::Same
    );
    assert_eq!(compare_texts("a", "ab"), Rank::Before);
    assert_eq!(compare_texts("b", "ab"), Rank::After);
    assert_eq!(compare_texts("z", "\u{e9}"), Rank::Before);
    assert_eq!(sort_ids(&vec![3, 1, 2, 1]), vec![1, 2, 3]);
    assert_eq!(sort_codes(&vec!["B", "A", "B"]), vec!["A", "B", "B"]);
    let mut texts = vec!["a".to_owned(), "c".to_owned()];
    insert_text(&mut texts, &"b".to_owned());
    insert_text(&mut texts, &"b".to_owned());
    assert_eq!(texts, vec!["a".to_owned(), "b".to_owned(), "c".to_owned()]);
}

#[test]
fn texts_are_read_as_std_reads_them() {
    assert_eq!(trimmed("\u{3000} a b\t\n"), "a b");
    assert!(is_blank(" \u{a0}"));
    assert!(!is_blank("."));
    assert!(contains_control("a\u{85}"));
    assert!(!contains_control("a b"));
    assert!(contains_text("abcab", "cab"));
    assert!(contains_text("a", ""));
    assert!(!contains_text("ab", "abc"));
    assert_eq!(unsigned_decimal(0), "0");
    assert_eq!(unsigned_decimal(u64::MAX), u64::MAX.to_string());
    assert_eq!(decimal(i64::MIN), i64::MIN.to_string());
    assert_eq!(decimal(-40), "-40");
    for c in ['\u{0}', '\t', ' ', 'a', '\u{7f}', '\u{85}', '\u{9f}', '\u{a0}', '\u{1680}', '\u{200b}',
        '\u{2028}', '\u{3000}', '\u{feff}']
    {
        assert_eq!(codex_usage::text::whitespace(c), c.is_whitespace());
        assert_eq!(codex_usage::text::control(c), c.is_control());
    }
}

#[test]
fn an_unknown_name_is_quoted() {
    assert_eq!(
        unknown_name("status", "a\"b"),
        DomainError::InvalidValue {
            field: "status",
            reason: "unknown value \"a\\\"b\"".to_owned()
        }
    );
}

fn read(line: &str) -> UsageRawRecord {
    let bytes = format!("{line}\n").into_bytes();
    CodexRolloutParser.parse_line(&CompleteUsageLine::new(0, bytes).unwrap())
}

#[test]
fn usage_lines_are_read_by_their_type() {
    assert_eq!(read("{"), UsageRawRecord::Malformed);
    match read(r#"{"timestamp":5,"type":"event_msg","payload":{"type":"turn_aborted","turn_id":"x"}}"#) {
        UsageRawRecord::Lifecycle(record) => {
            assert_eq!(record.kind, LifecycleKind::Aborted);
            assert_eq!(record.turn_id.as_deref(), Some("x"));
            assert_eq!(record.occurred_at_ms, Some(5));
        }
        other => panic!("{other:?}"),
    }
    match read(
        r#"{"type":"event_msg","payload":{"type":"token_count","info":{"total_token_usage":{"input_tokens":10,"cached_input_tokens":0,"output_tokens":2,"reasoning_output_tokens":0,"total_tokens":12}}}}"#,
    ) {
        UsageRawRecord::TokenCount(record) => assert!(record.info.is_some()),
        other => panic!("{other:?}"),
    }
}

#[test]
fn the_time_stands_in_the_first_bytes_of_a_uuid() {
    let mut bytes = [0u8; 16];
    bytes[4] = 1;
    bytes[5] = 2;
    bytes[6] = 0x70;
    assert_eq!(uuid7_timestamp_ms(&bytes), Some(258));
    bytes[6] = 0x40;
    assert_eq!(uuid7_timestamp_ms(&bytes), None);
}

#[test]
fn an_agent_path_ends_in_words() {
    assert_eq!(agent_path_words(Platform::here(), "/root/a/fix__the_bug").as_deref(), Some("fix the bug"));
    assert_eq!(agent_path_words(Platform::here(), "no path"), None);
}

#[test]
fn paths_are_those_of_the_machine() {
    let platform = Platform::here();
    assert_eq!(platform.is_windows(), std::path::is_separator('\\'));
    if platform.is_windows() {
        assert!(starts_at_root(platform, r"C:\work"));
        assert!(!starts_at_root(platform, r"C:work"));
        assert!(!starts_at_root(platform, "/work"));
        assert_eq!(
            normalize_absolute_path(platform, r"C:\a\.\b/c\..\d").as_deref(),
            Some(r"C:\a\b\d")
        );
        assert_eq!(normalize_absolute_path(platform, r"C:\.."), None);
        assert_eq!(project_name_from_path(platform, r"C:\a\b").as_deref(), Some("b"));
        assert_eq!(normalize_agent_path(platform, r"/root/a\.."), None);
        assert_eq!(join(platform, r"C:\a", "b"), r"C:\a\b");
        assert!(is_under(platform, r"C:\a\b", r"c:\a"));
    } else {
        assert!(starts_at_root(platform, "/work"));
        assert!(!starts_at_root(platform, r"C:\work"));
        assert_eq!(normalize_absolute_path(platform, r"C:\a"), None);
        assert_eq!(project_name_from_path(platform, r"/a\b").as_deref(), Some(r"a\b"));
        assert_eq!(normalize_agent_path(platform, r"/root/a\..").as_deref(), Some(r"/root/a\.."));
        assert!(!is_under(platform, r"C:\a\b", r"C:\a"));
    }
}
