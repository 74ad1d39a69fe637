use clash_android_ffi::error::FfiError;
use clash_android_ffi::util::{
    after_status, download_config, download_failed, download_saved, plan_download,
    status_report, DownloadFailure, DownloadPlan, DownloadResult,
};

fn plan() -> DownloadPlan {
    download_config(
        "https://example.com/config.yaml".to_string(),
        "/data/clash/config.yaml".to_string(),
        None,
        None,
    )
    .unwrap()
}

#[test]
fn the_plan_fills_in_the_default_user_agent() {
    assert_eq!(
        plan(),
        DownloadPlan {
            url: "https://example.com/config.yaml".to_string(),
            output_path: "/data/clash/config.yaml".to_string(),
            user_agent: "clash-android/1.0".to_string(),
            accept: "*/*".to_string(),
            proxy_url: None,
        }
    );
}

#[test]
fn the_plan_keeps_what_the_host_names() {
    let plan = download_config(
        "http://example.com/a?b=c".to_string(),
        "out".to_string(),
        Some("agent/2".to_string()),
        Some("http://127.0.0.1:7890".to_string()),
    )
    .unwrap();
    assert_eq!(plan.user_agent, "agent/2");
    assert_eq!(plan.proxy_url, Some("http://127.0.0.1:7890".to_string()));
    assert_eq!(plan.url, "http://example.com/a?b=c");
    assert_eq!(plan.accept, "*/*");
}

#[test]
fn a_bad_url_is_refused_with_the_parsers_message() {
    for url in ["", "http://exa mple.com/", "http://[::1", "a b"] {
        let expected = url.parse::<hyper::Uri>().unwrap_err().to_string();
        assert_eq!(
            download_config(url.to_string(), "out".to_string(), None, None),
            Err(FfiError::Common(format!("Invalid URL: {}", expected)))
        );
    }
}

#[test]
fn a_bad_proxy_url_is_refused_after_the_url() {
    let expected = "".parse::<hyper::Uri>().unwrap_err().to_string();
    assert_eq!(
        download_config(
            "http://example.com/".to_string(),
            "out".to_string(),
            None,
            Some("".to_string())
        ),
        Err(FfiError::Common(format!("Invalid proxy URL: {}", expected)))
    );
    let bad = "http://exa mple.com/".parse::<hyper::Uri>().unwrap_err().to_string();
    assert_eq!(
        download_config(
            "http://exa mple.com/".to_string(),
            "out".to_string(),
            None,
            Some("".to_string())
        ),
        Err(FfiError::Common(format!("Invalid URL: {}", bad)))
    );
}

#[test]
fn plan_download_goes_by_the_verdicts_it_is_given() {
    assert_eq!(
        plan_download(
            "u".to_string(),
            "o".to_string(),
            None,
            None,
            None,
            Some("ignored without a proxy".to_string())
        ),
        Ok(DownloadPlan {
            url: "u".to_string(),
            output_path: "o".to_string(),
            user_agent: "clash-android/1.0".to_string(),
            accept: "*/*".to_string(),
            proxy_url: None,
        })
    );
    assert_eq!(
        plan_download(
            "u".to_string(),
            "o".to_string(),
            None,
            Some("p".to_string()),
            None,
            Some("bad".to_string())
        ),
        Err(FfiError::Common("Invalid proxy URL: bad".to_string()))
    );
    assert_eq!(
        plan_download(
            "u".to_string(),
            "o".to_string(),
            None,
            Some("p".to_string()),
            Some("worse".to_string()),
            Some("bad".to_string())
        ),
        Err(FfiError::Common("Invalid URL: worse".to_string()))
    );
}

#[test]
fn a_success_has_its_body_saved() {
    assert_eq!(after_status(200), None);
    assert_eq!(after_status(204), None);
    assert_eq!(after_status(299), None);
}

#[test]
fn a_refusal_is_reported_with_code_and_reason() {
    assert_eq!(
        after_status(404),
        Some(DownloadResult {
            success: false,
            file_size: 0,
            error_message: Some("HTTP 404 - Not Found".to_string()),
        })
    );
    assert_eq!(
        after_status(500).unwrap().error_message,
        Some("HTTP 500 - Internal Server Error".to_string())
    );
    assert_eq!(
        after_status(301).unwrap().error_message,
        Some("HTTP 301 - Moved Permanently".to_string())
    );
    assert_eq!(after_status(199).unwrap().error_message, Some("HTTP 199 - Unknown".to_string()));
    assert_eq!(after_status(599).unwrap().error_message, Some("HTTP 599 - Unknown".to_string()));
    assert_eq!(after_status(0).unwrap().error_message, Some("HTTP 0 - Unknown".to_string()));
    assert_eq!(
        after_status(65535).unwrap().error_message,
        Some("HTTP 65535 - Unknown".to_string())
    );
}

#[test]
fn status_report_goes_by_the_phrase_it_is_given() {
    assert_eq!(status_report(200, Some("OK".to_string())), None);
    assert_eq!(
        status_report(418, Some("I'm a teapot".to_string())),
        Some(DownloadResult {
            success: false,
            file_size: 0,
            error_message: Some("HTTP 418 - I'm a teapot".to_string()),
        })
    );
    assert_eq!(
        status_report(300, None).unwrap().error_message,
        Some("HTTP 300 - Unknown".to_string())
    );
}

#[test]
fn a_saved_download_reports_its_size() {
    assert_eq!(
        download_saved(1234),
        DownloadResult { success: true, file_size: 1234, error_message: None }
    );
    assert_eq!(download_saved(0).file_size, 0);
    assert_eq!(download_saved(u64::MAX).file_size, u64::MAX);
}

#[test]
fn failures_name_their_stage() {
    let plan = plan();
    let message = |failure| download_failed(&plan, failure).message();
    assert_eq!(
        message(DownloadFailure::ProxyConnector("tls".to_string())),
        "Failed to create proxy connector: tls"
    );
    assert_eq!(
        message(DownloadFailure::BuildRequest("bad header".to_string())),
        "Failed to build request: bad header"
    );
    assert_eq!(message(DownloadFailure::Send("timed out".to_string())), "timed out");
    assert_eq!(
        message(DownloadFailure::ReadBody("reset".to_string())),
        "Failed to read response body: reset"
    );
    assert_eq!(
        message(DownloadFailure::CreateFile),
        "Failed to create file: /data/clash/config.yaml"
    );
    assert_eq!(
        message(DownloadFailure::WriteFile),
        "Failed to write to file: /data/clash/config.yaml"
    );
    assert_eq!(
        download_failed(&plan, DownloadFailure::WriteFile),
        FfiError::Common("Failed to write to file: /data/clash/config.yaml".to_string())
    );
}

#[test]
fn ffi_error_shows_its_message() {
    assert_eq!(FfiError::Common("a".to_string()).message(), "a");
    assert_eq!(FfiError::Configuration("b".to_string()).message(), "b");
}
