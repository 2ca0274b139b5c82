use safe_gui_core::networks::{current_network_name, parse_networks, NetworkPrinter};

#[test]
fn one_record_parses() {
    let s = r#"[{"current":true,"name":"main","genesis_key":"G1","network_info":"1.2.3.4:1234"}]"#;
    let v = parse_networks(s).unwrap();
    assert_eq!(v.len(), 1);
    assert!(v[0].current);
    assert_eq!(v[0].name, "main");
    assert_eq!(v[0].genesis_key, "G1");
    assert_eq!(v[0].network_info, "1.2.3.4:1234");
}

#[test]
fn list_preserves_input_order() {
    let s = r#"[
        {"current":false,"name":"alpha","genesis_key":"A","network_info":"a:1"},
        {"current":true,"name":"beta","genesis_key":"B","network_info":"b:2"},
        {"current":false,"name":"gamma","genesis_key":"C","network_info":"c:3"}
    ]"#;
    let v = parse_networks(s).unwrap();
    let names: Vec<&str> = v.iter().map(|r| r.name.as_str()).collect();
    assert_eq!(names, vec!["alpha", "beta", "gamma"]);
    assert!(!v[0].current);
    assert!(v[1].current);
}

#[test]
fn members_in_any_order() {
    let s = r#"[{"network_info":"x:9","genesis_key":"K","current":false,"name":"n"}]"#;
    let v = parse_networks(s).unwrap();
    assert_eq!(v[0].name, "n");
    assert_eq!(v[0].network_info, "x:9");
    assert!(!v[0].current);
}

#[test]
fn unknown_members_are_skipped() {
    let s = r#"[{"current":true,"extra":{"deep":[1,2,{"a":null}]},"name":"m","count":-12.5e3,
        "genesis_key":"G","flag":false,"network_info":"i","note":"text"}]"#;
    let v = parse_networks(s).unwrap();
    assert_eq!(v[0].name, "m");
    assert_eq!(v[0].genesis_key, "G");
}

#[test]
fn empty_listing_parses() {
    let v = parse_networks("  [ ]  ").unwrap();
    assert!(v.is_empty());
}

#[test]
fn string_escapes_are_decoded() {
    let s = r#"[{"current":false,"name":"a\"b\\c\/d\n\t\b\f\rA","genesis_key":"\u00e9A","network_info":"\uD83D\uDE00"}]"#;
    let v = parse_networks(s).unwrap();
    assert_eq!(v[0].name, "a\"b\\c/d\n\t\u{8}\u{c}\rA");
    assert_eq!(v[0].genesis_key, "\u{e9}A");
    assert_eq!(v[0].network_info, "\u{1F600}");
}

#[test]
fn raw_unicode_text_is_kept() {
    let s = r#"[{"current":false,"name":"café 😀","genesis_key":"G","network_info":"i"}]"#;
    let v = parse_networks(s).unwrap();
    assert_eq!(v[0].name, "café 😀");
}

#[test]
fn missing_member_is_refused() {
    let s = r#"[{"current":true,"name":"m","genesis_key":"G"}]"#;
    assert!(parse_networks(s).is_err());
}

#[test]
fn repeated_member_is_refused() {
    let s = r#"[{"current":true,"name":"m","name":"n","genesis_key":"G","network_info":"i"}]"#;
    assert!(parse_networks(s).is_err());
}

#[test]
fn wrong_member_type_is_refused() {
    let s = r#"[{"current":"yes","name":"m","genesis_key":"G","network_info":"i"}]"#;
    assert!(parse_networks(s).is_err());
}

#[test]
fn trailing_content_is_refused() {
    let s = r#"[{"current":true,"name":"m","genesis_key":"G","network_info":"i"}] tail"#;
    assert!(parse_networks(s).is_err());
}

#[test]
fn not_an_array_is_refused() {
    assert!(parse_networks(r#"{"current":true}"#).is_err());
    assert!(parse_networks("").is_err());
    assert!(parse_networks("   ").is_err());
    assert!(parse_networks("null").is_err());
}

#[test]
fn trailing_comma_is_refused() {
    let s = r#"[{"current":true,"name":"m","genesis_key":"G","network_info":"i"},]"#;
    assert!(parse_networks(s).is_err());
}

#[test]
fn bad_escapes_are_refused() {
    let base = |name: &str| {
        format!(
            r#"[{{"current":true,"name":"{}","genesis_key":"G","network_info":"i"}}]"#,
            name
        )
    };
    assert!(parse_networks(&base(r"\x")).is_err());
    assert!(parse_networks(&base(r"\u12")).is_err());
    assert!(parse_networks(&base(r"\uD800")).is_err());
    assert!(parse_networks(&base(r"\uDC00")).is_err());
    assert!(parse_networks(&base(r"\uD800A")).is_err());
}

#[test]
fn raw_control_character_is_refused() {
    let s = "[{\"current\":true,\"name\":\"a\u{0001}b\",\"genesis_key\":\"G\",\"network_info\":\"i\"}]";
    assert!(parse_networks(s).is_err());
}

#[test]
fn agrees_with_reference_json_reader() {
    let s = r#"[
        {"current":true,"name":"main","genesis_key":"G1","network_info":"1.2.3.4:1234"},
        {"current":false,"name":"side","genesis_key":"G2","network_info":"5.6.7.8:9"}
    ]"#;
    let ours = parse_networks(s).unwrap();
    let reference: serde_json::Value = serde_json::from_str(s).unwrap();
    let arr = reference.as_array().unwrap();
    assert_eq!(ours.len(), arr.len());
    for (mine, theirs) in ours.iter().zip(arr.iter()) {
        assert_eq!(mine.current, theirs["current"].as_bool().unwrap());
        assert_eq!(mine.name, theirs["name"].as_str().unwrap());
        assert_eq!(mine.genesis_key, theirs["genesis_key"].as_str().unwrap());
        assert_eq!(mine.network_info, theirs["network_info"].as_str().unwrap());
    }
}

fn rec(current: bool, name: &str) -> NetworkPrinter {
    NetworkPrinter {
        current,
        name: name.to_string(),
        genesis_key: "G".to_string(),
        network_info: "i".to_string(),
    }
}

#[test]
fn current_name_of_empty_listing_is_none() {
    assert_eq!(current_network_name(&Vec::new()), None);
}

#[test]
fn current_name_when_none_marked() {
    let v = vec![rec(false, "a"), rec(false, "b")];
    assert_eq!(current_network_name(&v), None);
}

#[test]
fn last_marked_network_wins() {
    let v = vec![rec(true, "a"), rec(false, "b"), rec(true, "c")];
    assert_eq!(current_network_name(&v), Some("c".to_string()));
}
