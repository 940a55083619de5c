use randpaper::monitors::{active_names, DiscoveryError};
use randpaper::payload::{json_payload, parse_monitors, parse_status};

fn names_of(raw: &[u8]) -> Vec<String> {
    active_names(&parse_status(raw).unwrap())
}

#[test]
fn garbage_prefix_is_discarded() {
    let raw = br#"garbage before [{"name":"DP-1","active":true}]"#;
    assert_eq!(names_of(raw), vec!["DP-1".to_string()]);
}

#[test]
fn no_active_flags_parse_to_empty_list() {
    let raw = br#"[{"name":"DP-1","active":false},{"name":"DP-2","active":false}]"#;
    assert_eq!(names_of(raw), Vec::<String>::new());
}

#[test]
fn empty_array_is_valid_and_empty() {
    assert_eq!(names_of(b" [ ] "), Vec::<String>::new());
    let entries = parse_status(b"[]").unwrap();
    assert_eq!(entries.len(), 0);
}

#[test]
fn missing_active_flag_counts_as_active() {
    let raw = br#"[{"name":"eDP-1","width":1920},{"name":"DP-1"}]"#;
    assert_eq!(names_of(raw), vec!["eDP-1".to_string(), "DP-1".to_string()]);
}

#[test]
fn unknown_keys_and_nested_values_are_skipped() {
    let raw = br#"[{"id":3,"name":"DP-1","modes":[{"w":1920,"h":1080}],"geo":{"x":0,"y":-1.5e2},"desc":"Dell \"U\" 27","active":true,"vrr":null,"scale":1.25}]"#;
    assert_eq!(names_of(raw), vec!["DP-1".to_string()]);
}

#[test]
fn name_escapes_are_decoded() {
    let raw = br#"[{"name":"DP-1\t","active":true}]"#;
    assert_eq!(names_of(raw), vec!["DP-1\t".to_string()]);
    let raw = br#"[{"name":"DP-1"}]"#;
    assert_eq!(names_of(raw), vec!["DP-1".to_string()]);
    let raw = br#"[{"name":"a\\b\"c\/d"}]"#;
    assert_eq!(names_of(raw), vec!["a\\b\"c/d".to_string()]);
    let raw = br#"[{"name":"\u0044P-1"}]"#;
    assert_eq!(names_of(raw), vec!["DP-1".to_string()]);
}

#[test]
fn json_payload_cuts_at_first_bracket() {
    let raw = b"log: ok\n[1, 2]";
    assert_eq!(json_payload(raw), &b"[1, 2]"[..]);
    assert_eq!(json_payload(b"{\"a\":1}"), &b"{\"a\":1}"[..]);
    assert_eq!(json_payload(b"no payload here"), &b"no payload here"[..]);
}

#[test]
fn json_payload_prefers_bracket_over_earlier_brace() {
    assert_eq!(json_payload(b"{x} then ["), &b"["[..]);
}

#[test]
fn malformed_payloads_are_rejected() {
    let cases: Vec<&[u8]> = vec![
        b"",
        b"   ",
        b"[",
        b"[{]",
        br#"[{"name":"DP-1""#,
        br#"[{"name":}]"#,
        br#"[{"name":5}]"#,
        br#"[{"active":true}]"#,
        br#"[{"name":"a","name":"b"}]"#,
        br#"[{"name":"a","active":true,"active":false}]"#,
        br#"[{"name":"a","active":1}]"#,
        br#"[{"name":"a"} extra"#,
        br#"[{"name":"a"}] trailing"#,
        br#"[{"num":01,"name":"a"}]"#,
        br#"[{"name":"\x"}]"#,
        b"[{\"name\":\"\xc3\xa9\"}]",
        b"[{\"name\":\"a\x01b\"}]",
        b"[{\"name\":\"caf\xc3\xa9\"}]",
        b"42",
        b"true",
    ];
    for raw in cases {
        let got = parse_status(raw);
        match got {
            Err(DiscoveryError::MalformedPayload) => {}
            other => panic!("expected malformed payload for {:?}, got {:?}", raw, other),
        }
    }
}

#[test]
fn whitespace_everywhere_is_tolerated() {
    let raw = b" [ { \"name\" : \"DP-1\" , \"active\" : true } , { \"name\" : \"DP-2\" , \"active\" : false } ] ";
    assert_eq!(names_of(raw), vec!["DP-1".to_string()]);
}

#[test]
fn parse_monitors_reports_flags() {
    let raw = br#"[{"name":"A","active":true},{"name":"B","active":false},{"name":"C"}]"#;
    let entries = parse_monitors(raw).unwrap();
    assert_eq!(entries.len(), 3);
    assert_eq!(entries[0].name, "A");
    assert!(entries[0].active);
    assert_eq!(entries[1].name, "B");
    assert!(!entries[1].active);
    assert_eq!(entries[2].name, "C");
    assert!(entries[2].active);
}
