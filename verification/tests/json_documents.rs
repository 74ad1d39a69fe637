use clash_android_ffi::controller::{DelayHistory, Metadata, Proxy};
use clash_android_ffi::json::Json;
use clash_android_ffi::text::same_text;

fn object(members: Vec<(&str, Json)>) -> Json {
    Json::Object(members.into_iter().map(|(k, v)| (k.to_string(), v)).collect())
}

fn text(s: &str) -> Json {
    Json::Text(s.to_string())
}

#[test]
fn member_finds_the_first_of_a_name() {
    let doc = object(vec![("a", Json::Number(Some(1))), ("b", Json::Null), ("a", Json::Bool(true))]);
    assert_eq!(doc.member("a"), Some(&Json::Number(Some(1))));
    assert_eq!(doc.member("b"), Some(&Json::Null));
    assert_eq!(doc.member("c"), None);
    assert_eq!(doc.member(""), None);
    assert_eq!(Json::Array(vec![]).member("a"), None);
    assert_eq!(Json::Null.member("a"), None);
}

#[test]
fn member_names_are_compared_exactly() {
    let doc = object(vec![("name", text("x")), ("\u{540d}\u{5b57}", text("y"))]);
    assert_eq!(doc.text_at("name"), Some("x".to_string()));
    assert_eq!(doc.text_at("Name"), None);
    assert_eq!(doc.text_at("nam"), None);
    assert_eq!(doc.text_at("name "), None);
    assert_eq!(doc.text_at("\u{540d}\u{5b57}"), Some("y".to_string()));
    assert_eq!(doc.text_at("\u{540d}"), None);
}

#[test]
fn same_text_compares_texts() {
    assert!(same_text("", ""));
    assert!(same_text("abc", "abc"));
    assert!(!same_text("abc", "abd"));
    assert!(!same_text("abc", "ab"));
    assert!(!same_text("", "a"));
    assert!(same_text("\u{e9}", "\u{e9}"));
    assert!(!same_text("\u{e9}", "e\u{301}"));
}

#[test]
fn scalars_are_read_by_kind() {
    assert_eq!(text("x").text(), Some("x".to_string()));
    assert_eq!(Json::Null.text(), None);
    assert_eq!(Json::Number(Some(5)).text(), None);
    assert_eq!(Json::Number(Some(5)).integer(), Some(5));
    assert_eq!(Json::Number(None).integer(), None);
    assert_eq!(text("5").integer(), None);
    assert_eq!(Json::Bool(true).integer(), None);
}

#[test]
fn integers_are_held_to_their_range() {
    let doc = object(vec![
        ("small", Json::Number(Some(-2147483649))),
        ("min", Json::Number(Some(-2147483648))),
        ("max", Json::Number(Some(2147483647))),
        ("big", Json::Number(Some(2147483648))),
        ("port", Json::Number(Some(65535))),
        ("over", Json::Number(Some(65536))),
        ("neg", Json::Number(Some(-1))),
        ("zero", Json::Number(Some(0))),
    ]);
    assert_eq!(doc.i32_at("small"), None);
    assert_eq!(doc.i32_at("min"), Some(i32::MIN));
    assert_eq!(doc.i32_at("max"), Some(i32::MAX));
    assert_eq!(doc.i32_at("big"), None);
    assert_eq!(doc.i32_at("missing"), None);
    assert_eq!(doc.u16_at("port"), Some(65535));
    assert_eq!(doc.u16_at("over"), None);
    assert_eq!(doc.u16_at("neg"), None);
    assert_eq!(doc.u16_at("zero"), Some(0));
    assert_eq!(doc.integer_at("big"), Some(2147483648));
}

#[test]
fn optional_text_tells_absent_from_wrong() {
    let doc = object(vec![("a", text("x")), ("b", Json::Null), ("c", Json::Number(Some(1)))]);
    assert_eq!(doc.optional_text_at("a"), Some(Some("x".to_string())));
    assert_eq!(doc.optional_text_at("b"), Some(None));
    assert_eq!(doc.optional_text_at("missing"), Some(None));
    assert_eq!(doc.optional_text_at("c"), None);
}

#[test]
fn text_lists_are_all_or_nothing() {
    assert_eq!(Json::Array(vec![]).text_list(), Some(vec![]));
    assert_eq!(
        Json::Array(vec![text("a"), text("b")]).text_list(),
        Some(vec!["a".to_string(), "b".to_string()])
    );
    assert_eq!(Json::Array(vec![text("a"), Json::Null]).text_list(), None);
    assert_eq!(text("a").text_list(), None);
    let doc = object(vec![("l", Json::Array(vec![text("a")])), ("n", Json::Null)]);
    assert_eq!(doc.text_list_at("l"), Some(vec!["a".to_string()]));
    assert_eq!(doc.text_list_at("missing"), None);
    assert_eq!(doc.text_list_or_empty_at("missing"), Some(vec![]));
    assert_eq!(doc.text_list_or_empty_at("n"), None);
    assert_eq!(doc.text_list_or_empty_at("l"), Some(vec!["a".to_string()]));
}

#[test]
fn a_proxy_is_read_from_its_document() {
    let doc = object(vec![
        ("name", text("P")),
        ("type", text("Selector")),
        ("all", Json::Array(vec![text("A")])),
        ("now", text("A")),
        (
            "history",
            Json::Array(vec![object(vec![("time", text("t")), ("delay", Json::Number(Some(3)))])]),
        ),
    ]);
    assert_eq!(
        Proxy::from_json(&doc),
        Some(Proxy {
            name: "P".to_string(),
            proxy_type: "Selector".to_string(),
            all: vec!["A".to_string()],
            now: Some("A".to_string()),
            history: vec![DelayHistory { time: "t".to_string(), delay: 3 }],
        })
    );
    assert_eq!(Proxy::from_json(&Json::Null), None);
    assert_eq!(Proxy::from_json(&Json::Array(vec![])), None);
}

#[test]
fn a_proxy_table_keeps_the_members_order() {
    let proxy = |name: &str| object(vec![("name", text(name)), ("type", text("T"))]);
    let doc = object(vec![("proxies", object(vec![("b", proxy("b")), ("a", proxy("a"))]))]);
    let table = Proxy::table_from_json(&doc).unwrap();
    assert_eq!(table.len(), 2);
    assert_eq!(table.entries[0].0, "b");
    assert_eq!(table.entries[0].1.name, "b");
    assert_eq!(table.entries[1].0, "a");
}

#[test]
fn a_proxy_table_holds_each_name_once() {
    let proxy = |name: &str| object(vec![("name", text(name)), ("type", text("T"))]);
    let doc = object(vec![(
        "proxies",
        object(vec![("a", proxy("first")), ("b", proxy("b")), ("a", proxy("second"))]),
    )]);
    let table = Proxy::table_from_json(&doc).unwrap();
    assert_eq!(table.len(), 2);
    assert_eq!(table.entries[0].0, "a");
    assert_eq!(table.get("a").unwrap().name, "second");
    assert_eq!(table.get("b").unwrap().name, "b");
    assert_eq!(table.get("c"), None);
    let spoiled = object(vec![(
        "proxies",
        object(vec![("a", proxy("first")), ("b", Json::Null), ("a", proxy("second"))]),
    )]);
    assert_eq!(Proxy::table_from_json(&spoiled), None);
}

#[test]
fn metadata_needs_every_member() {
    let full = vec![
        ("network", text("udp")),
        ("type", text("Tun")),
        ("sourceIP", text("10.0.0.2")),
        ("destinationIP", text("8.8.8.8")),
        ("destinationPort", Json::Number(Some(53))),
        ("host", text("")),
    ];
    assert_eq!(
        Metadata::from_json(&object(full.iter().map(|(k, v)| (*k, copy(v))).collect())),
        Some(Metadata {
            network: "udp".to_string(),
            metadata_type: "Tun".to_string(),
            source_ip: "10.0.0.2".to_string(),
            destination_ip: "8.8.8.8".to_string(),
            destination_port: 53,
            host: "".to_string(),
        })
    );
    for skip in 0..full.len() {
        let members = full
            .iter()
            .enumerate()
            .filter(|(i, _)| *i != skip)
            .map(|(_, (k, v))| (*k, copy(v)))
            .collect();
        assert_eq!(Metadata::from_json(&object(members)), None);
    }
}

fn copy(json: &Json) -> Json {
    match json {
        Json::Null => Json::Null,
        Json::Bool(b) => Json::Bool(*b),
        Json::Number(n) => Json::Number(*n),
        Json::Text(s) => Json::Text(s.clone()),
        Json::Array(items) => Json::Array(items.iter().map(copy).collect()),
        Json::Object(members) => {
            Json::Object(members.iter().map(|(k, v)| (k.clone(), copy(v))).collect())
        }
    }
}
