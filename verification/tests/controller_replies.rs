use clash_android_ffi::controller::{
    body_of, document_of, unexpected_document, Answer, ClashController, ConfigResponse,
    Connection, ConnectionsResponse, DelayHistory, DelayResponse, HttpError, MemoryResponse,
    Metadata, Proxy,
};
use clash_android_ffi::json::Json;
use clash_android_ffi::table::Table;
use clash_android_ffi::transport::{is_success, Reply};

fn client() -> std::sync::Arc<ClashController> {
    ClashController::new("/tmp/clash.sock".to_string())
}

fn ok(body: &str) -> Reply {
    Reply::Answered { status: 200, body: Ok(body.as_bytes().to_vec()) }
}

#[test]
fn status_success_is_200_to_299() {
    assert!(!is_success(0));
    assert!(!is_success(199));
    assert!(is_success(200));
    assert!(is_success(204));
    assert!(is_success(299));
    assert!(!is_success(300));
    assert!(!is_success(404));
    assert!(!is_success(u16::MAX));
}

#[test]
fn request_no_response_goes_by_the_status_alone() {
    let c = client();
    assert_eq!(c.request_no_response(Reply::Answered { status: 204, body: Ok(vec![]) }), Ok(()));
    assert_eq!(
        c.request_no_response(Reply::Answered { status: 200, body: Err("cut".to_string()) }),
        Ok(())
    );
    assert_eq!(
        c.request_no_response(Reply::Answered { status: 200, body: Ok(b"not json".to_vec()) }),
        Ok(())
    );
    assert_eq!(
        c.request_no_response(Reply::Answered { status: 404, body: Ok(vec![]) }),
        Err(HttpError::StatusError(404))
    );
    assert_eq!(
        c.request_no_response(Reply::Answered { status: 500, body: Err("cut".to_string()) }),
        Err(HttpError::StatusError(500))
    );
    assert_eq!(
        c.request_no_response(Reply::Failed("connection refused".to_string())),
        Err(HttpError::RequestFailed("connection refused".to_string()))
    );
}

#[test]
fn body_of_tells_the_failures_apart() {
    assert_eq!(body_of(ok("{}")), Ok(b"{}".to_vec()));
    assert_eq!(
        body_of(Reply::Failed("no such file".to_string())),
        Err(HttpError::RequestFailed("no such file".to_string()))
    );
    assert_eq!(
        body_of(Reply::Answered { status: 199, body: Ok(vec![1]) }),
        Err(HttpError::StatusError(199))
    );
    assert_eq!(
        body_of(Reply::Answered { status: 300, body: Ok(vec![1]) }),
        Err(HttpError::StatusError(300))
    );
    assert_eq!(
        body_of(Reply::Answered { status: 65535, body: Ok(vec![1]) }),
        Err(HttpError::StatusError(65535))
    );
    assert_eq!(
        body_of(Reply::Answered { status: 200, body: Err("reset by peer".to_string()) }),
        Err(HttpError::RequestFailed("reset by peer".to_string()))
    );
    assert_eq!(
        body_of(Reply::Answered { status: 503, body: Err("reset by peer".to_string()) }),
        Err(HttpError::StatusError(503))
    );
}

#[test]
fn document_of_appends_the_payload_to_the_readers_message() {
    assert_eq!(
        document_of(Ok(Json::Null), "null".to_string()),
        Ok(Answer { document: Json::Null, payload: "null".to_string() })
    );
    assert_eq!(
        document_of(Err("expected value at line 1 column 1".to_string()), "oops".to_string()),
        Err(HttpError::ParseError("expected value at line 1 column 1oops".to_string()))
    );
}

#[test]
fn unexpected_document_carries_the_payload() {
    assert_eq!(
        unexpected_document("[1,2]"),
        HttpError::ParseError("unexpected document: [1,2]".to_string())
    );
}

#[test]
fn request_reads_the_document() {
    let answer = client().request(ok("{\"a\":[1,true,null,\"x\",2.5]}")).unwrap();
    assert_eq!(answer.payload, "{\"a\":[1,true,null,\"x\",2.5]}");
    assert_eq!(
        answer.document,
        Json::Object(vec![(
            "a".to_string(),
            Json::Array(vec![
                Json::Number(Some(1)),
                Json::Bool(true),
                Json::Null,
                Json::Text("x".to_string()),
                Json::Number(None),
            ])
        )])
    );
}

#[test]
fn request_reports_bytes_that_are_no_json() {
    let payload = "<html>busy</html>";
    let expected = serde_json::from_slice::<serde_json::Value>(payload.as_bytes())
        .unwrap_err()
        .to_string();
    assert_eq!(
        client().request(ok(payload)),
        Err(HttpError::ParseError(format!("{}{}", expected, payload)))
    );
}

#[test]
fn request_shows_bytes_that_are_no_utf8() {
    let reply = Reply::Answered { status: 200, body: Ok(vec![0x7b, 0xff, 0x7d]) };
    match client().request(reply) {
        Err(HttpError::ParseError(message)) => {
            assert!(message.ends_with("{\u{fffd}}"));
        }
        other => panic!("unexpected: {:?}", other),
    }
}

#[test]
fn request_passes_transport_failures_on() {
    let c = client();
    assert_eq!(
        c.request(Reply::Failed("refused".to_string())),
        Err(HttpError::RequestFailed("refused".to_string()))
    );
    assert_eq!(
        c.request(Reply::Answered { status: 401, body: Ok(b"{}".to_vec()) }),
        Err(HttpError::StatusError(401))
    );
    assert_eq!(
        c.request(Reply::Answered { status: 200, body: Err("eof".to_string()) }),
        Err(HttpError::RequestFailed("eof".to_string()))
    );
}

#[test]
fn list_proxies_returns_the_inner_mapping() {
    let body = "{\"proxies\":{\"Proxy1\":{\"name\":\"Proxy1\",\"type\":\"Selector\",\"all\":[\"A\",\"B\"],\"now\":\"A\",\"history\":[]}}}";
    let proxies = client().read_proxies(ok(body)).unwrap();
    assert_eq!(proxies.len(), 1);
    assert_eq!(proxies.entries[0].0, "Proxy1");
    assert_eq!(proxies.get("Proxy1").unwrap().now, Some("A".to_string()));
    assert_eq!(proxies.get("Proxy2"), None);
    assert_eq!(
        proxies.entries[0].1,
        Proxy {
            name: "Proxy1".to_string(),
            proxy_type: "Selector".to_string(),
            all: vec!["A".to_string(), "B".to_string()],
            now: Some("A".to_string()),
            history: vec![],
        }
    );
}

#[test]
fn list_proxies_fills_in_what_is_missing() {
    let body = "{\"proxies\":{\"DIRECT\":{\"name\":\"DIRECT\",\"type\":\"Direct\",\"udp\":true},\"Auto\":{\"type\":\"URLTest\",\"name\":\"Auto\",\"now\":null,\"all\":[],\"history\":[{\"time\":\"2024-01-01T00:00:00Z\",\"delay\":120,\"meanDelay\":90}]}}}";
    let mut proxies = client().read_proxies(ok(body)).unwrap().entries;
    proxies.sort_by(|a, b| a.0.cmp(&b.0));
    assert_eq!(
        proxies,
        vec![
            (
                "Auto".to_string(),
                Proxy {
                    name: "Auto".to_string(),
                    proxy_type: "URLTest".to_string(),
                    all: vec![],
                    now: None,
                    history: vec![DelayHistory {
                        time: "2024-01-01T00:00:00Z".to_string(),
                        delay: 120
                    }],
                }
            ),
            (
                "DIRECT".to_string(),
                Proxy {
                    name: "DIRECT".to_string(),
                    proxy_type: "Direct".to_string(),
                    all: vec![],
                    now: None,
                    history: vec![],
                }
            ),
        ]
    );
}

#[test]
fn list_proxies_with_no_proxies() {
    assert_eq!(client().read_proxies(ok("{\"proxies\":{}}")), Ok(Table::new()));
}

#[test]
fn list_proxies_rejects_other_shapes() {
    let c = client();
    for body in [
        "{}",
        "[]",
        "null",
        "{\"proxies\":[]}",
        "{\"proxies\":null}",
        "{\"proxies\":{\"P\":{\"name\":\"P\"}}}",
        "{\"proxies\":{\"P\":{\"type\":\"T\"}}}",
        "{\"proxies\":{\"P\":{\"name\":1,\"type\":\"T\"}}}",
        "{\"proxies\":{\"P\":{\"name\":\"P\",\"type\":\"T\",\"all\":null}}}",
        "{\"proxies\":{\"P\":{\"name\":\"P\",\"type\":\"T\",\"all\":[1]}}}",
        "{\"proxies\":{\"P\":{\"name\":\"P\",\"type\":\"T\",\"now\":5}}}",
        "{\"proxies\":{\"P\":{\"name\":\"P\",\"type\":\"T\",\"history\":{}}}}",
        "{\"proxies\":{\"P\":{\"name\":\"P\",\"type\":\"T\",\"history\":[{\"time\":\"t\"}]}}}",
        "{\"proxies\":{\"P\":{\"name\":\"P\",\"type\":\"T\",\"history\":[{\"time\":\"t\",\"delay\":2147483648}]}}}",
        "{\"proxies\":{\"A\":{\"name\":\"A\",\"type\":\"T\"},\"B\":7}}",
    ] {
        assert_eq!(
            c.read_proxies(ok(body)),
            Err(HttpError::ParseError(format!("unexpected document: {}", body))),
            "{}",
            body
        );
    }
}

#[test]
fn test_delay_returns_the_delay() {
    let c = client();
    assert_eq!(c.read_proxy_delay(ok("{\"delay\":87}")), Ok(DelayResponse { delay: 87 }));
    assert_eq!(
        c.read_proxy_delay(ok("{\"delay\":-2147483648,\"meanDelay\":1}")),
        Ok(DelayResponse { delay: i32::MIN })
    );
    assert_eq!(
        c.read_proxy_delay(ok("{\"delay\":2147483647}")),
        Ok(DelayResponse { delay: i32::MAX })
    );
    for body in ["{\"delay\":2147483648}", "{\"delay\":1.5}", "{\"delay\":\"1\"}", "{}", "87"] {
        assert_eq!(
            c.read_proxy_delay(ok(body)),
            Err(HttpError::ParseError(format!("unexpected document: {}", body)))
        );
    }
    assert_eq!(
        c.read_proxy_delay(Reply::Answered { status: 504, body: Ok(b"{\"message\":\"timeout\"}".to_vec()) }),
        Err(HttpError::StatusError(504))
    );
}

#[test]
fn read_memory_returns_both_numbers() {
    let c = client();
    assert_eq!(
        c.read_memory(ok("{\"inuse\":123456,\"oslimit\":0}")),
        Ok(MemoryResponse { inuse: 123456, oslimit: 0 })
    );
    assert_eq!(
        c.read_memory(ok("{\"inuse\":9223372036854775807,\"oslimit\":-9223372036854775808}")),
        Ok(MemoryResponse { inuse: i64::MAX, oslimit: i64::MIN })
    );
    for body in ["{\"inuse\":1}", "{\"oslimit\":1}", "{\"inuse\":9223372036854775808,\"oslimit\":1}"] {
        assert_eq!(
            c.read_memory(ok(body)),
            Err(HttpError::ParseError(format!("unexpected document: {}", body)))
        );
    }
}

fn connection_json() -> &'static str {
    "{\"id\":\"c1\",\"metadata\":{\"network\":\"tcp\",\"type\":\"HTTP\",\"sourceIP\":\"10.0.0.2\",\"destinationIP\":\"1.2.3.4\",\"destinationPort\":443,\"host\":\"example.com\"},\"upload\":10,\"download\":20,\"start\":\"2024-01-01T00:00:00Z\",\"chains\":[\"Proxy1\",\"GLOBAL\"],\"rule\":\"MATCH\"}"
}

#[test]
fn list_connections_returns_totals_and_connections() {
    let body = format!(
        "{{\"downloadTotal\":100,\"uploadTotal\":50,\"connections\":[{}]}}",
        connection_json()
    );
    assert_eq!(
        client().read_connections(ok(&body)),
        Ok(ConnectionsResponse {
            download_total: 100,
            upload_total: 50,
            connections: vec![Connection {
                id: "c1".to_string(),
                metadata: Metadata {
                    network: "tcp".to_string(),
                    metadata_type: "HTTP".to_string(),
                    source_ip: "10.0.0.2".to_string(),
                    destination_ip: "1.2.3.4".to_string(),
                    destination_port: 443,
                    host: "example.com".to_string(),
                },
                upload: 10,
                download: 20,
                start: "2024-01-01T00:00:00Z".to_string(),
                chains: vec!["Proxy1".to_string(), "GLOBAL".to_string()],
                rule: "MATCH".to_string(),
            }],
        })
    );
}

#[test]
fn list_connections_rejects_other_shapes() {
    let c = client();
    assert_eq!(
        c.read_connections(ok("{\"downloadTotal\":0,\"uploadTotal\":0,\"connections\":[]}")),
        Ok(ConnectionsResponse { download_total: 0, upload_total: 0, connections: vec![] })
    );
    let bad_port = connection_json().replace("443", "65536");
    let no_chains = connection_json().replace("\"chains\":[\"Proxy1\",\"GLOBAL\"],", "");
    for body in [
        "{\"downloadTotal\":0,\"uploadTotal\":0}".to_string(),
        "{\"downloadTotal\":0,\"uploadTotal\":0,\"connections\":null}".to_string(),
        "{\"downloadTotal\":0,\"connections\":[]}".to_string(),
        format!("{{\"downloadTotal\":0,\"uploadTotal\":0,\"connections\":[{}]}}", bad_port),
        format!("{{\"downloadTotal\":0,\"uploadTotal\":0,\"connections\":[{}]}}", no_chains),
        format!("{{\"downloadTotal\":0,\"uploadTotal\":0,\"connections\":[{},3]}}", connection_json()),
    ] {
        assert_eq!(
            c.read_connections(ok(&body)),
            Err(HttpError::ParseError(format!("unexpected document: {}", body)))
        );
    }
}

#[test]
fn read_config_returns_the_snapshot() {
    let c = client();
    assert_eq!(
        c.read_configs(ok("{\"external-controller\":\"127.0.0.1:9090\",\"secret\":\"s\",\"mode\":\"rule\",\"port\":7890}")),
        Ok(ConfigResponse {
            external_controller: Some("127.0.0.1:9090".to_string()),
            secret: Some("s".to_string()),
            mode: Some("rule".to_string()),
        })
    );
    assert_eq!(
        c.read_configs(ok("{\"secret\":null}")),
        Ok(ConfigResponse { external_controller: None, secret: None, mode: None })
    );
    assert_eq!(
        c.read_configs(ok("{}")),
        Ok(ConfigResponse { external_controller: None, secret: None, mode: None })
    );
    for body in ["{\"mode\":1}", "[]", "null", "\"rule\""] {
        assert_eq!(
            c.read_configs(ok(body)),
            Err(HttpError::ParseError(format!("unexpected document: {}", body)))
        );
    }
}
