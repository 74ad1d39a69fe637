//! Fetching a remote file to disk: what to ask for, and what to report.

use vstd::prelude::*;
use vstd::string::*;

use crate::error::{FfiError, FfiErrorView};
use crate::text::{decimal, push_decimal};
use crate::transport::{is_success, status_is_success};

verus! {

/// What a download reported to the host.
#[derive(Debug, Clone, PartialEq, Eq)]
pub struct DownloadResult {
    pub success: bool,
    pub file_size: u64,
    pub error_message: Option<String>,
}

/// The mathematical value of a [`DownloadResult`].
pub struct DownloadResultView {
    pub success: bool,
    pub file_size: u64,
    pub error_message: Option<Seq<char>>,
}

impl DeepView for DownloadResult {
    type V = DownloadResultView;

    open spec fn deep_view(&self) -> DownloadResultView {
        self@
    }
}

impl View for DownloadResult {
    type V = DownloadResultView;

    open spec fn view(&self) -> DownloadResultView {
        DownloadResultView {
            success: self.success,
            file_size: self.file_size,
            error_message: self.error_message.deep_view(),
        }
    }
}

/// One `GET` to perform and the file to save its body to.
#[derive(Debug, Clone, PartialEq, Eq)]
pub struct DownloadPlan {
    pub url: String,
    pub output_path: String,
    pub user_agent: String,
    pub accept: String,
    pub proxy_url: Option<String>,
}

/// The mathematical value of a [`DownloadPlan`].
pub struct DownloadPlanView {
    pub url: Seq<char>,
    pub output_path: Seq<char>,
    pub user_agent: Seq<char>,
    pub accept: Seq<char>,
    pub proxy_url: Option<Seq<char>>,
}

impl View for DownloadPlan {
    type V = DownloadPlanView;

    open spec fn view(&self) -> DownloadPlanView {
        DownloadPlanView {
            url: self.url@,
            output_path: self.output_path@,
            user_agent: self.user_agent@,
            accept: self.accept@,
            proxy_url: self.proxy_url.deep_view(),
        }
    }
}

/// What `hyper::Uri`'s parser says against `text`: `None` where it accepts
/// the text, else the message of its error.
pub uninterp spec fn uri_parse_error(text: Seq<char>) -> Option<Seq<char>>;

/// The reason phrase that `hyper::StatusCode` has on record for `code`, if any.
pub uninterp spec fn reason_phrase(code: u16) -> Option<Seq<char>>;

/// Runs `hyper::Uri`'s `FromStr` on `text` and keeps only the error's
/// message. The result is a function of the text alone.
#[verifier::external_body]
fn uri_error(text: &str) -> (error: Option<String>)
    ensures
        error.deep_view() == uri_parse_error(text@),
{
    match text.parse::<hyper::Uri>() {
        Ok(_) => None,
        Err(e) => Some(e.to_string()),
    }
}

/// Looks `code` up with `hyper::StatusCode::from_u16` and
/// `StatusCode::canonical_reason`: the phrase of a registered code, `None`
/// for any other number.
#[verifier::external_body]
fn canonical_reason(code: u16) -> (phrase: Option<String>)
    ensures
        phrase.deep_view() == reason_phrase(code),
{
    match hyper::StatusCode::from_u16(code) {
        Ok(status) => status.canonical_reason().map(|phrase| phrase.to_string()),
        Err(_) => None,
    }
}

/// The user agent sent where the host names none.
pub open spec fn default_user_agent() -> Seq<char> {
    "clash-android/1.0"@
}

/// The plan of a download, given what the address parser said of the URL and
/// of the proxy's URL (`proxy_error` is read only where a proxy is named).
pub open spec fn download_plan(
    url: Seq<char>,
    output_path: Seq<char>,
    user_agent: Option<Seq<char>>,
    proxy_url: Option<Seq<char>>,
    url_error: Option<Seq<char>>,
    proxy_error: Option<Seq<char>>,
) -> Result<DownloadPlanView, FfiErrorView> {
    if let Some(e) = url_error {
        Err(FfiErrorView::Common("Invalid URL: "@ + e))
    } else if proxy_url is Some && proxy_error is Some {
        Err(FfiErrorView::Common("Invalid proxy URL: "@ + proxy_error->0))
    } else {
        Ok(
            DownloadPlanView {
                url,
                output_path,
                user_agent: match user_agent {
                    Some(agent) => agent,
                    None => default_user_agent(),
                },
                accept: "*/*"@,
                proxy_url,
            },
        )
    }
}

/// The view of a plan or of the failure to make one.
pub open spec fn plan_view(r: Result<DownloadPlan, FfiError>) -> Result<
    DownloadPlanView,
    FfiErrorView,
> {
    match r {
        Ok(plan) => Ok(plan@),
        Err(e) => Err(e@),
    }
}

/// Makes the plan of a download from the request and from the address
/// parser's verdicts on the two URLs.
pub fn plan_download(
    url: String,
    output_path: String,
    user_agent: Option<String>,
    proxy_url: Option<String>,
    url_error: Option<String>,
    proxy_error: Option<String>,
) -> (r: Result<DownloadPlan, FfiError>)
    ensures
        plan_view(r) == download_plan(
            url@,
            output_path@,
            user_agent.deep_view(),
            proxy_url.deep_view(),
            url_error.deep_view(),
            proxy_error.deep_view(),
        ),
{
    if let Some(e) = url_error {
        let mut message = String::from_str("Invalid URL: ");
        message.append(e.as_str());
        return Err(FfiError::Common(message));
    }
    if proxy_url.is_some() {
        if let Some(e) = proxy_error {
            let mut message = String::from_str("Invalid proxy URL: ");
            message.append(e.as_str());
            return Err(FfiError::Common(message));
        }
    }
    let agent = match user_agent {
        Some(agent) => agent,
        None => String::from_str("clash-android/1.0"),
    };
    Ok(
        DownloadPlan {
            url,
            output_path,
            user_agent: agent,
            accept: String::from_str("*/*"),
            proxy_url,
        },
    )
}

/// Plans the download of `url` into `output_path`: checks both addresses,
/// fills in the default user agent, and fixes the headers to send.
pub fn download_config(
    url: String,
    output_path: String,
    user_agent: Option<String>,
    proxy_url: Option<String>,
) -> (r: Result<DownloadPlan, FfiError>)
    ensures
        plan_view(r) == download_plan(
            url@,
            output_path@,
            user_agent.deep_view(),
            proxy_url.deep_view(),
            uri_parse_error(url@),
            match proxy_url.deep_view() {
                Some(proxy) => uri_parse_error(proxy),
                None => None,
            },
        ),
{
    let url_error = uri_error(url.as_str());
    let proxy_error = match &proxy_url {
        Some(proxy) => uri_error(proxy.as_str()),
        None => None,
    };
    plan_download(url, output_path, user_agent, proxy_url, url_error, proxy_error)
}

/// How a download can fail once it is planned.
#[derive(Debug, Clone, PartialEq, Eq)]
pub enum DownloadFailure {
    /// The connector through the proxy could not be made.
    ProxyConnector(String),
    /// The request could not be built.
    BuildRequest(String),
    /// The request could not be sent, or no answer came.
    Send(String),
    /// The body broke off.
    ReadBody(String),
    /// The output file could not be created.
    CreateFile,
    /// The output file could not be written.
    WriteFile,
}

/// The mathematical value of a [`DownloadFailure`].
pub enum DownloadFailureView {
    ProxyConnector(Seq<char>),
    BuildRequest(Seq<char>),
    Send(Seq<char>),
    ReadBody(Seq<char>),
    CreateFile,
    WriteFile,
}

impl View for DownloadFailure {
    type V = DownloadFailureView;

    open spec fn view(&self) -> DownloadFailureView {
        match self {
            DownloadFailure::ProxyConnector(e) => DownloadFailureView::ProxyConnector(e@),
            DownloadFailure::BuildRequest(e) => DownloadFailureView::BuildRequest(e@),
            DownloadFailure::Send(e) => DownloadFailureView::Send(e@),
            DownloadFailure::ReadBody(e) => DownloadFailureView::ReadBody(e@),
            DownloadFailure::CreateFile => DownloadFailureView::CreateFile,
            DownloadFailure::WriteFile => DownloadFailureView::WriteFile,
        }
    }
}

/// The message reported for a failed download into `output_path`.
pub open spec fn failure_message(output_path: Seq<char>, failure: DownloadFailureView) -> Seq<
    char,
> {
    match failure {
        DownloadFailureView::ProxyConnector(e) => "Failed to create proxy connector: "@ + e,
        DownloadFailureView::BuildRequest(e) => "Failed to build request: "@ + e,
        DownloadFailureView::Send(e) => e,
        DownloadFailureView::ReadBody(e) => "Failed to read response body: "@ + e,
        DownloadFailureView::CreateFile => "Failed to create file: "@ + output_path,
        DownloadFailureView::WriteFile => "Failed to write to file: "@ + output_path,
    }
}

/// The error reported to the host for a download that failed.
pub fn download_failed(plan: &DownloadPlan, failure: DownloadFailure) -> (error: FfiError)
    ensures
        error@ == FfiErrorView::Common(failure_message(plan@.output_path, failure@)),
{
    let message = match failure {
        DownloadFailure::ProxyConnector(e) => {
            let mut m = String::from_str("Failed to create proxy connector: ");
            m.append(e.as_str());
            m
        },
        DownloadFailure::BuildRequest(e) => {
            let mut m = String::from_str("Failed to build request: ");
            m.append(e.as_str());
            m
        },
        DownloadFailure::Send(e) => e,
        DownloadFailure::ReadBody(e) => {
            let mut m = String::from_str("Failed to read response body: ");
            m.append(e.as_str());
            m
        },
        DownloadFailure::CreateFile => {
            let mut m = String::from_str("Failed to create file: ");
            m.append(plan.output_path.as_str());
            m
        },
        DownloadFailure::WriteFile => {
            let mut m = String::from_str("Failed to write to file: ");
            m.append(plan.output_path.as_str());
            m
        },
    };
    FfiError::Common(message)
}

/// The line reported for a status that is no success: the code, and its
/// reason phrase or `Unknown`.
pub open spec fn status_message(code: u16, phrase: Option<Seq<char>>) -> Seq<char> {
    "HTTP "@ + decimal(code as nat) + " - "@ + match phrase {
        Some(p) => p,
        None => "Unknown"@,
    }
}

/// What follows the answer's status, given the phrase on record for it:
/// `None` where the body is to be saved, else the result to report.
pub open spec fn status_outcome(code: u16, phrase: Option<Seq<char>>) -> Option<
    DownloadResultView,
> {
    if status_is_success(code) {
        None
    } else {
        Some(
            DownloadResultView {
                success: false,
                file_size: 0,
                error_message: Some(status_message(code, phrase)),
            },
        )
    }
}

/// Decides what follows an answer with status `code`, whose reason phrase,
/// if it has one, is `phrase`.
pub fn status_report(code: u16, phrase: Option<String>) -> (r: Option<DownloadResult>)
    ensures
        r.deep_view() == status_outcome(code, phrase.deep_view()),
{
    if is_success(code) {
        return None;
    }
    let mut message = String::from_str("HTTP ");
    push_decimal(&mut message, code as u64);
    message.append(" - ");
    match phrase {
        Some(p) => message.append(p.as_str()),
        None => message.append("Unknown"),
    }
    Some(DownloadResult { success: false, file_size: 0, error_message: Some(message) })
}

/// Decides what follows an answer with status `code`: a success has its body
/// saved (`None`); any other status ends the download with a result that
/// carries the code and its reason phrase.
pub fn after_status(code: u16) -> (r: Option<DownloadResult>)
    ensures
        r.deep_view() == status_outcome(code, reason_phrase(code)),
{
    let phrase = canonical_reason(code);
    status_report(code, phrase)
}

/// The result of a download whose body of `file_size` bytes was saved.
pub fn download_saved(file_size: u64) -> (r: DownloadResult)
    ensures
        r@ == (DownloadResultView { success: true, file_size, error_message: None }),
{
    DownloadResult { success: true, file_size, error_message: None }
}

} // verus!
