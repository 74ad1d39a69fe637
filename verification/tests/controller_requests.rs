use clash_android_ffi::controller::{write_object, ClashController, ConfigPatch, HttpError};
use clash_android_ffi::transport::{Method, Request};

fn client() -> std::sync::Arc<ClashController> {
    ClashController::new("/data/clash/clash.sock".to_string())
}

fn body_text(request: &Request) -> String {
    String::from_utf8(request.body.clone().expect("a body")).expect("utf-8")
}

fn object_of(pairs: &[(&str, &str)]) -> Vec<u8> {
    let mut map = serde_json::Map::new();
    for (k, v) in pairs {
        map.insert(k.to_string(), serde_json::Value::String(v.to_string()));
    }
    serde_json::to_vec(&serde_json::Value::Object(map)).unwrap()
}

#[test]
fn new_keeps_the_socket_path() {
    assert_eq!(client().socket_path(), "/data/clash/clash.sock");
}

#[test]
fn get_proxies_is_a_plain_get() {
    let request = client().get_proxies();
    assert_eq!(
        request,
        Request {
            socket_path: "/data/clash/clash.sock".to_string(),
            method: Method::Get,
            path: "/proxies".to_string(),
            content_type: "application/json".to_string(),
            body: None,
        }
    );
}

#[test]
fn plain_gets_name_their_endpoints() {
    let c = client();
    assert_eq!(c.get_memory().path, "/memory");
    assert_eq!(c.get_memory().method, Method::Get);
    assert_eq!(c.get_memory().body, None);
    assert_eq!(c.get_connections().path, "/connections");
    assert_eq!(c.get_connections().method, Method::Get);
    assert_eq!(c.get_configs().path, "/configs");
    assert_eq!(c.get_configs().method, Method::Get);
    assert_eq!(c.get_configs().content_type, "application/json");
}

#[test]
fn method_tokens() {
    assert_eq!(Method::Get.as_str(), "GET");
    assert_eq!(Method::Put.as_str(), "PUT");
    assert_eq!(Method::Patch.as_str(), "PATCH");
}

#[test]
fn select_proxy_puts_the_name_in_the_body() {
    let request = client().select_proxy("GLOBAL".to_string(), "Proxy1".to_string()).unwrap();
    assert_eq!(request.method, Method::Put);
    assert_eq!(request.path, "/proxies/GLOBAL");
    assert_eq!(request.content_type, "application/json");
    assert_eq!(body_text(&request), "{\"name\":\"Proxy1\"}");
}

#[test]
fn select_proxy_encodes_reserved_characters() {
    let request = client().select_proxy("a b/c?d&e".to_string(), "x".to_string()).unwrap();
    assert_eq!(request.path, "/proxies/a%20b%2Fc%3Fd%26e");
}

#[test]
fn select_proxy_path_decodes_back_to_the_group() {
    let groups = [
        "plain",
        "with space",
        "a/b",
        "q?x=1&y=2",
        "percent%20sign",
        "\u{8282}\u{70b9}\u{9009}\u{62e9}",
        "emoji \u{1f680} group",
        "~-._",
        "",
        "#frag;semi:colon@at",
    ];
    for group in groups {
        let request = client().select_proxy(group.to_string(), "p".to_string()).unwrap();
        let encoded = request.path.strip_prefix("/proxies/").expect("the prefix");
        assert!(!encoded.contains('/'));
        assert!(!encoded.contains('?'));
        assert!(!encoded.contains('&'));
        assert!(encoded.is_ascii());
        assert_eq!(urlencoding::decode(encoded).unwrap(), group);
    }
}

#[test]
fn select_proxy_body_reads_back_as_the_proxy_name() {
    let names = ["Proxy1", "quote\"d", "back\\slash", "line\nbreak", "\u{9999}\u{6e2f} 01", "a/b?c&d"];
    for name in names {
        let request = client().select_proxy("g".to_string(), name.to_string()).unwrap();
        let body = request.body.clone().unwrap();
        assert_eq!(body, object_of(&[("name", name)]));
        let value: serde_json::Value = serde_json::from_slice(&body).unwrap();
        assert_eq!(value.get("name").and_then(|v| v.as_str()), Some(name));
    }
}

#[test]
fn select_proxy_escapes_what_json_escapes() {
    let name: String = (0u8..0x80).map(|b| b as char).collect();
    let request = client().select_proxy("g".to_string(), name.clone()).unwrap();
    let body = body_text(&request);
    assert!(body.starts_with("{\"name\":\"\\u0000\\u0001"));
    assert!(body.contains("\\b\\t\\n\\u000b\\f\\r\\u000e"));
    assert!(body.contains("\\u001f !\\\"#"));
    assert!(body.contains("[\\\\]"));
    assert!(body.ends_with("~\u{7f}\"}"));
    let value: serde_json::Value = serde_json::from_slice(&request.body.unwrap()).unwrap();
    assert_eq!(value.get("name").and_then(|v| v.as_str()), Some(name.as_str()));
}

#[test]
fn write_object_frames_what_it_is_given() {
    assert_eq!(write_object(&vec![]), b"{}".to_vec());
    assert_eq!(
        write_object(&vec![(b"\"k\"".to_vec(), b"\"v\"".to_vec())]),
        b"{\"k\":\"v\"}".to_vec()
    );
    assert_eq!(
        write_object(&vec![
            (b"\"a\"".to_vec(), b"\"1\"".to_vec()),
            (b"\"b\"".to_vec(), b"\"2\"".to_vec()),
            (b"\"c\"".to_vec(), b"3".to_vec()),
        ]),
        b"{\"a\":\"1\",\"b\":\"2\",\"c\":3}".to_vec()
    );
}

#[test]
fn get_proxy_delay_uses_the_defaults() {
    let request = client().get_proxy_delay("Proxy1".to_string(), None, None);
    assert_eq!(request.method, Method::Get);
    assert_eq!(request.body, None);
    assert_eq!(
        request.path,
        "/proxies/Proxy1/delay?url=http%3A%2F%2Fwww.gstatic.com%2Fgenerate_204&timeout=5000"
    );
}

#[test]
fn get_proxy_delay_takes_explicit_values() {
    let request = client().get_proxy_delay(
        "my proxy".to_string(),
        Some("https://example.com/?a=1&b=2".to_string()),
        Some(1234),
    );
    assert_eq!(
        request.path,
        "/proxies/my%20proxy/delay?url=https%3A%2F%2Fexample.com%2F%3Fa%3D1%26b%3D2&timeout=1234"
    );
    let query = request.path.split_once("?url=").unwrap().1;
    let (url, timeout) = query.split_once("&timeout=").unwrap();
    assert_eq!(urlencoding::decode(url).unwrap(), "https://example.com/?a=1&b=2");
    assert_eq!(timeout, "1234");
}

#[test]
fn get_proxy_delay_overrides_are_independent() {
    let only_url = client().get_proxy_delay("p".to_string(), Some("http://x/".to_string()), None);
    assert_eq!(only_url.path, "/proxies/p/delay?url=http%3A%2F%2Fx%2F&timeout=5000");
    let only_timeout = client().get_proxy_delay("p".to_string(), None, Some(250));
    assert_eq!(
        only_timeout.path,
        "/proxies/p/delay?url=http%3A%2F%2Fwww.gstatic.com%2Fgenerate_204&timeout=250"
    );
}

#[test]
fn get_proxy_delay_writes_any_timeout_in_decimal() {
    let c = client();
    for timeout in [0, 7, 10, 99, 100, 65535, i32::MAX, -1, -10, i32::MIN] {
        let request = c.get_proxy_delay("p".to_string(), Some("u".to_string()), Some(timeout));
        assert_eq!(request.path, format!("/proxies/p/delay?url=u&timeout={}", timeout));
    }
}

#[test]
fn update_config_forwards_the_patch() {
    let mut patch = ConfigPatch::new();
    patch.set("mode".to_string(), "rule".to_string());
    let request = client().update_config(&patch).unwrap();
    assert_eq!(request.method, Method::Patch);
    assert_eq!(request.path, "/configs");
    assert_eq!(request.content_type, "application/json");
    assert_eq!(body_text(&request), "{\"mode\":\"rule\"}");
}

#[test]
fn update_config_with_an_empty_patch() {
    let request = client().update_config(&ConfigPatch::new()).unwrap();
    assert_eq!(body_text(&request), "{}");
}

#[test]
fn update_config_keeps_the_entries_in_order() {
    let mut patch = ConfigPatch::new();
    patch.set("allow-lan".to_string(), "true".to_string());
    patch.set("mode".to_string(), "global".to_string());
    patch.set("log-level".to_string(), "de\"bug".to_string());
    let request = client().update_config(&patch).unwrap();
    let body = request.body.clone().unwrap();
    assert_eq!(
        body_text(&request),
        "{\"allow-lan\":\"true\",\"mode\":\"global\",\"log-level\":\"de\\\"bug\"}"
    );
    let value: serde_json::Value = serde_json::from_slice(&body).unwrap();
    let object = value.as_object().unwrap();
    assert_eq!(object.len(), 3);
    assert_eq!(object.get("mode").and_then(|v| v.as_str()), Some("global"));
    assert_eq!(object.get("log-level").and_then(|v| v.as_str()), Some("de\"bug"));
}

#[test]
fn config_patch_set_replaces_an_earlier_value() {
    let mut patch = ConfigPatch::new();
    patch.set("mode".to_string(), "rule".to_string());
    patch.set("ipv6".to_string(), "false".to_string());
    patch.set("mode".to_string(), "direct".to_string());
    assert_eq!(
        patch.entries,
        vec![
            ("mode".to_string(), "direct".to_string()),
            ("ipv6".to_string(), "false".to_string()),
        ]
    );
    assert_eq!(patch.len(), 2);
    assert_eq!(patch.get("mode"), Some(&"direct".to_string()));
    assert_eq!(patch.get("ipv6"), Some(&"false".to_string()));
    assert_eq!(patch.get("Mode"), None);
    assert_eq!(ConfigPatch::new().get("mode"), None);
}

#[test]
fn http_error_messages() {
    assert_eq!(HttpError::RequestFailed("refused".to_string()).message(), "Request failed: refused");
    assert_eq!(HttpError::StatusError(404).message(), "HTTP status error: 404");
    assert_eq!(HttpError::StatusError(-5).message(), "HTTP status error: -5");
    assert_eq!(HttpError::StatusError(0).message(), "HTTP status error: 0");
    assert_eq!(HttpError::ParseError("eof".to_string()).message(), "Failed to parse response: eof");
    assert_eq!(HttpError::ClientError("x".to_string()).message(), "Client error: x");
    assert_eq!(HttpError::NotSupported("y".to_string()).message(), "Not supported: y");
}
