//! The typed client of the engine's control socket: what each operation
//! sends, and what each reply means.

use std::sync::Arc;
use vstd::prelude::*;
use vstd::string::*;

use crate::json::{
    json_document, literal_round_trip, literal_text, parse, string_literal, string_literal_of, Json,
    JsonView,
};
pub use crate::records::{
    ConfigResponse, Connection, ConnectionsResponse, DelayHistory, DelayResponse, MemoryResponse,
    Metadata, Proxy,
};
use crate::records::{config_of, connections_of, delay_of, memory_of, proxies_of};
use crate::text::{lossy, lossy_text, push_all, push_signed_decimal, signed_decimal};
use crate::transport::{
    is_success, json_media_type, status_is_success, Method, Reply, ReplyView, Request,
    RequestView,
};
use crate::table::Table;
use crate::url::{component_round_trip, decode_component, encode, encode_component};

verus! {

/// Why an operation on the control socket failed.
#[derive(Debug, PartialEq, Eq)]
pub enum HttpError {
    /// The request could not be sent, or its answer could not be received.
    RequestFailed(String),
    /// The engine answered with a status that reports no success.
    StatusError(i32),
    /// The answer's body is not the document that was expected; the message
    /// ends with the body.
    ParseError(String),
    /// The request's body could not be written.
    ClientError(String),
    /// The operation is not available.
    NotSupported(String),
}

/// The mathematical value of an [`HttpError`].
pub enum HttpErrorView {
    RequestFailed(Seq<char>),
    StatusError(i32),
    ParseError(Seq<char>),
    ClientError(Seq<char>),
    NotSupported(Seq<char>),
}

impl View for HttpError {
    type V = HttpErrorView;

    open spec fn view(&self) -> HttpErrorView {
        match self {
            HttpError::RequestFailed(m) => HttpErrorView::RequestFailed(m@),
            HttpError::StatusError(code) => HttpErrorView::StatusError(*code),
            HttpError::ParseError(m) => HttpErrorView::ParseError(m@),
            HttpError::ClientError(m) => HttpErrorView::ClientError(m@),
            HttpError::NotSupported(m) => HttpErrorView::NotSupported(m@),
        }
    }
}

impl HttpErrorView {
    /// The text shown for the failure.
    pub open spec fn message(self) -> Seq<char> {
        match self {
            HttpErrorView::RequestFailed(m) => "Request failed: "@ + m,
            HttpErrorView::StatusError(code) => "HTTP status error: "@ + signed_decimal(
                code as int,
            ),
            HttpErrorView::ParseError(m) => "Failed to parse response: "@ + m,
            HttpErrorView::ClientError(m) => "Client error: "@ + m,
            HttpErrorView::NotSupported(m) => "Not supported: "@ + m,
        }
    }
}

impl HttpError {
    /// The text shown for the failure.
    pub fn message(&self) -> (text: String)
        ensures
            text@ == self@.message(),
    {
        match self {
            HttpError::RequestFailed(m) => {
                let mut text = String::from_str("Request failed: ");
                text.append(m.as_str());
                text
            },
            HttpError::StatusError(code) => {
                let mut text = String::from_str("HTTP status error: ");
                push_signed_decimal(&mut text, *code);
                text
            },
            HttpError::ParseError(m) => {
                let mut text = String::from_str("Failed to parse response: ");
                text.append(m.as_str());
                text
            },
            HttpError::ClientError(m) => {
                let mut text = String::from_str("Client error: ");
                text.append(m.as_str());
                text
            },
            HttpError::NotSupported(m) => {
                let mut text = String::from_str("Not supported: ");
                text.append(m.as_str());
                text
            },
        }
    }
}

/// The view of an operation's result: of the value, or of the failure.
pub open spec fn outcome_view<T: DeepView>(r: Result<T, HttpError>) -> Result<T::V, HttpErrorView> {
    match r {
        Ok(value) => Ok(value.deep_view()),
        Err(e) => Err(e@),
    }
}

/// The members of a JSON object, written one after the other with commas
/// between them; each member is given as the literal of its name and the
/// text of its value.
pub open spec fn frame_members(members: Seq<(Seq<u8>, Seq<u8>)>) -> Seq<u8>
    decreases members.len(),
{
    if members.len() == 0 {
        Seq::empty()
    } else {
        frame_members(members.drop_last()) + (if members.len() > 1 {
            seq![0x2cu8]
        } else {
            Seq::empty()
        }) + members.last().0 + seq![0x3au8] + members.last().1
    }
}

/// The JSON object of the given members, without white space.
pub open spec fn frame_object(members: Seq<(Seq<u8>, Seq<u8>)>) -> Seq<u8> {
    seq![0x7bu8] + frame_members(members) + seq![0x7du8]
}

/// The view of a list of written members.
pub open spec fn members_view(members: Seq<(Vec<u8>, Vec<u8>)>) -> Seq<(Seq<u8>, Seq<u8>)> {
    Seq::new(members.len(), |i: int| (members[i].0@, members[i].1@))
}

/// Writes the JSON object of the given members.
pub fn write_object(members: &Vec<(Vec<u8>, Vec<u8>)>) -> (bytes: Vec<u8>)
    ensures
        bytes@ == frame_object(members_view(members@)),
{
    let ghost all = members_view(members@);
    let mut out: Vec<u8> = Vec::new();
    out.push(0x7b);
    let mut i: usize = 0;
    while i < members.len()
        invariant
            i <= members.len(),
            all == members_view(members@),
            out@ == seq![0x7bu8] + frame_members(all.subrange(0, i as int)),
        decreases members.len() - i,
    {
        let ghost before = all.subrange(0, i as int);
        let ghost after = all.subrange(0, i + 1);
        assert(after.drop_last() =~= before);
        assert(after.last() == (members@[i as int].0@, members@[i as int].1@));
        if i > 0 {
            out.push(0x2c);
        }
        push_all(&mut out, members[i].0.as_slice());
        out.push(0x3a);
        push_all(&mut out, members[i].1.as_slice());
        i = i + 1;
        assert(out@ =~= seq![0x7bu8] + frame_members(after));
    }
    assert(all.subrange(0, i as int) =~= all);
    out.push(0x7d);
    out
}

/// A partial update of the engine's configuration: values by key, each key
/// once.
pub type ConfigPatch = Table<String>;

/// The client of one engine's control socket.
#[derive(Debug, Clone, PartialEq, Eq)]
pub struct ClashController {
    socket_path: String,
}

/// A request of the client at `socket`, with the fixed JSON media type.
pub open spec fn request_to(
    socket: Seq<char>,
    method: Method,
    path: Seq<char>,
    body: Option<Seq<u8>>,
) -> RequestView {
    RequestView { socket_path: socket, method, path, content_type: json_media_type(), body }
}

/// The path that selects a proxy for the group `group`.
pub open spec fn select_proxy_path(group: Seq<char>) -> Seq<char> {
    "/proxies/"@ + encode_component(group)
}

/// The probe URL used where the caller names none.
pub open spec fn default_test_url() -> Seq<char> {
    "http://www.gstatic.com/generate_204"@
}

/// The probe's time limit in milliseconds where the caller names none.
pub open spec fn default_timeout() -> i32 {
    5000
}

/// The path that probes the delay of `name` against `url` within `timeout`
/// milliseconds.
pub open spec fn delay_path(name: Seq<char>, url: Seq<char>, timeout: i32) -> Seq<char> {
    "/proxies/"@ + encode_component(name) + "/delay?url="@ + encode_component(url)
        + "&timeout="@ + signed_decimal(timeout as int)
}

/// The body that selects the proxy `proxy`: the object `{"name": proxy}`.
pub open spec fn select_proxy_body(proxy: Seq<char>) -> Seq<u8> {
    frame_object(seq![(string_literal_of("name"@), string_literal_of(proxy))])
}

/// The members of a patch as JSON: the literals of each key and its value,
/// in the entries' order.
pub open spec fn patch_members(entries: Seq<(Seq<char>, Seq<char>)>) -> Seq<(Seq<u8>, Seq<u8>)> {
    Seq::new(
        entries.len(),
        |i: int| (string_literal_of(entries[i].0), string_literal_of(entries[i].1)),
    )
}

impl ClashController {
    /// The path of the control socket.
    pub closed spec fn socket(&self) -> Seq<char> {
        self.socket_path@
    }

    /// A client of the control socket at `socket_path`.
    pub fn new(socket_path: String) -> (controller: Arc<ClashController>)
        ensures
            controller.socket() == socket_path@,
    {
        Arc::new(ClashController { socket_path })
    }

    /// The path of the control socket.
    pub fn socket_path(&self) -> (path: &str)
        ensures
            path@ == self.socket(),
    {
        self.socket_path.as_str()
    }

    /// A request of this client.
    fn to(&self, method: Method, path: String, body: Option<Vec<u8>>) -> (request: Request)
        ensures
            request@ == request_to(
                self.socket(),
                method,
                path@,
                match body {
                    Some(bytes) => Some(bytes@),
                    None => None,
                },
            ),
    {
        Request {
            socket_path: self.socket_path.clone(),
            method,
            path,
            content_type: String::from_str("application/json"),
            body,
        }
    }

    /// The request that lists the proxies: `GET /proxies`.
    pub fn get_proxies(&self) -> (request: Request)
        ensures
            request@ == request_to(self.socket(), Method::Get, "/proxies"@, None),
    {
        self.to(Method::Get, String::from_str("/proxies"), None)
    }

    /// The request that selects `proxy_name` for the group `group_name`:
    /// `PUT /proxies/{group}` with the group's name percent-encoded and the
    /// body `{"name": proxy}`.
    pub fn select_proxy(&self, group_name: String, proxy_name: String) -> (r: Result<
        Request,
        HttpError,
    >)
        ensures
            r is Ok,
            r->Ok_0@ == request_to(
                self.socket(),
                Method::Put,
                select_proxy_path(group_name@),
                Some(select_proxy_body(proxy_name@)),
            ),
    {
        let name_literal = match string_literal("name") {
            Ok(bytes) => bytes,
            Err(e) => {
                return Err(HttpError::ClientError(e));
            },
        };
        let proxy_literal = match string_literal(proxy_name.as_str()) {
            Ok(bytes) => bytes,
            Err(e) => {
                return Err(HttpError::ClientError(e));
            },
        };
        let mut path = String::from_str("/proxies/");
        let group = encode(group_name.as_str());
        path.append(group.as_str());
        let mut members: Vec<(Vec<u8>, Vec<u8>)> = Vec::new();
        members.push((name_literal, proxy_literal));
        assert(members_view(members@) =~= seq![
            (string_literal_of("name"@), string_literal_of(proxy_name@)),
        ]);
        let body = write_object(&members);
        Ok(self.to(Method::Put, path, Some(body)))
    }

    /// The request that probes the delay of the proxy `name`:
    /// `GET /proxies/{name}/delay?url={url}&timeout={timeout}`, with name and
    /// URL percent-encoded. A missing URL or time limit is the default one.
    pub fn get_proxy_delay(&self, name: String, url: Option<String>, timeout: Option<i32>) -> (request:
        Request)
        ensures
            request@ == request_to(
                self.socket(),
                Method::Get,
                delay_path(
                    name@,
                    match url {
                        Some(u) => u@,
                        None => default_test_url(),
                    },
                    match timeout {
                        Some(t) => t,
                        None => default_timeout(),
                    },
                ),
                None,
            ),
    {
        let test_url = match url {
            Some(u) => u,
            None => String::from_str("http://www.gstatic.com/generate_204"),
        };
        let timeout_ms: i32 = match timeout {
            Some(t) => t,
            None => 5000,
        };
        let mut path = String::from_str("/proxies/");
        let encoded_name = encode(name.as_str());
        path.append(encoded_name.as_str());
        path.append("/delay?url=");
        let encoded_url = encode(test_url.as_str());
        path.append(encoded_url.as_str());
        path.append("&timeout=");
        push_signed_decimal(&mut path, timeout_ms);
        self.to(Method::Get, path, None)
    }

    /// The request that reads the memory use: `GET /memory`.
    pub fn get_memory(&self) -> (request: Request)
        ensures
            request@ == request_to(self.socket(), Method::Get, "/memory"@, None),
    {
        self.to(Method::Get, String::from_str("/memory"), None)
    }

    /// The request that lists the connections: `GET /connections`.
    pub fn get_connections(&self) -> (request: Request)
        ensures
            request@ == request_to(self.socket(), Method::Get, "/connections"@, None),
    {
        self.to(Method::Get, String::from_str("/connections"), None)
    }

    /// The request that reads the configuration: `GET /configs`.
    pub fn get_configs(&self) -> (request: Request)
        ensures
            request@ == request_to(self.socket(), Method::Get, "/configs"@, None),
    {
        self.to(Method::Get, String::from_str("/configs"), None)
    }

    /// The request that forwards a patch of the configuration:
    /// `PATCH /configs` with the patch as a JSON object, its entries in
    /// their order.
    pub fn update_config(&self, config: &ConfigPatch) -> (r: Result<Request, HttpError>)
        ensures
            r is Ok,
            r->Ok_0@ == request_to(
                self.socket(),
                Method::Patch,
                "/configs"@,
                Some(frame_object(patch_members(config@))),
            ),
    {
        let ghost entries = config@;
        let mut members: Vec<(Vec<u8>, Vec<u8>)> = Vec::new();
        let mut i: usize = 0;
        while i < config.entries.len()
            invariant
                i <= config.entries.len(),
                entries == config@,
                entries.len() == config.entries.len(),
                members.len() == i,
                forall|k: int|
                    0 <= k < i ==> (#[trigger] members@[k]).0@ == string_literal_of(entries[k].0)
                        && members@[k].1@ == string_literal_of(entries[k].1),
            decreases config.entries.len() - i,
        {
            assert(entries[i as int] == (config.entries@[i as int].0@, config.entries@[i as int].1@));
            let key = match string_literal(config.entries[i].0.as_str()) {
                Ok(bytes) => bytes,
                Err(e) => {
                    return Err(HttpError::ClientError(e));
                },
            };
            let value = match string_literal(config.entries[i].1.as_str()) {
                Ok(bytes) => bytes,
                Err(e) => {
                    return Err(HttpError::ClientError(e));
                },
            };
            members.push((key, value));
            i = i + 1;
        }
        assert(members_view(members@) =~= patch_members(entries));
        let body = write_object(&members);
        Ok(self.to(Method::Patch, String::from_str("/configs"), Some(body)))
    }
}

/// What a reply says of the request's success, its body left aside.
pub open spec fn reply_status(reply: ReplyView) -> Result<(), HttpErrorView> {
    match reply {
        ReplyView::Failed(message) => Err(HttpErrorView::RequestFailed(message)),
        ReplyView::Answered { status, body } => if status_is_success(status) {
            Ok(())
        } else {
            Err(HttpErrorView::StatusError(status as i32))
        },
    }
}

/// The body of a reply that reports success, or the failure that the reply
/// stands for: no answer, a status that reports no success, a broken body.
pub open spec fn reply_body(reply: ReplyView) -> Result<Seq<u8>, HttpErrorView> {
    match reply {
        ReplyView::Failed(message) => Err(HttpErrorView::RequestFailed(message)),
        ReplyView::Answered { status, body } => if status_is_success(status) {
            match body {
                Ok(bytes) => Ok(bytes),
                Err(message) => Err(HttpErrorView::RequestFailed(message)),
            }
        } else {
            Err(HttpErrorView::StatusError(status as i32))
        },
    }
}

/// The failure reported for a body that is a JSON document of another shape
/// than the one asked for; `payload` is the body as text.
pub open spec fn shape_failure(payload: Seq<char>) -> HttpErrorView {
    HttpErrorView::ParseError("unexpected document: "@ + payload)
}

/// The document of a body, given what the JSON reader made of it and the
/// body as text: a reader's failure is reported with its message followed
/// by the body.
pub open spec fn body_document(
    parsed: Result<JsonView, Seq<char>>,
    payload: Seq<char>,
) -> Result<AnswerView, HttpErrorView> {
    match parsed {
        Ok(document) => Ok(AnswerView { document, payload }),
        Err(message) => Err(HttpErrorView::ParseError(message + payload)),
    }
}

/// The document that a reply carries, or the failure that it stands for.
pub open spec fn reply_document(reply: ReplyView) -> Result<AnswerView, HttpErrorView> {
    match reply_body(reply) {
        Ok(bytes) => body_document(json_document(bytes), lossy_text(bytes)),
        Err(e) => Err(e),
    }
}

/// The record that `read` finds in an answer's document, or the failure to
/// find one.
pub open spec fn record_of<V>(
    answer: Result<AnswerView, HttpErrorView>,
    read: spec_fn(JsonView) -> Option<V>,
) -> Result<V, HttpErrorView> {
    match answer {
        Ok(a) => match read(a.document) {
            Some(record) => Ok(record),
            None => Err(shape_failure(a.payload)),
        },
        Err(e) => Err(e),
    }
}

/// The document of an answer, with the answer's body as text.
#[derive(Debug, PartialEq, Eq)]
pub struct Answer {
    pub document: Json,
    pub payload: String,
}

/// The mathematical value of an [`Answer`].
pub struct AnswerView {
    pub document: JsonView,
    pub payload: Seq<char>,
}

impl View for Answer {
    type V = AnswerView;

    open spec fn view(&self) -> AnswerView {
        AnswerView { document: self.document@, payload: self.payload@ }
    }
}

impl DeepView for Answer {
    type V = AnswerView;

    open spec fn deep_view(&self) -> AnswerView {
        self@
    }
}

/// The view of a reply's body or of the failure to get one.
pub open spec fn body_view(r: Result<Vec<u8>, HttpError>) -> Result<Seq<u8>, HttpErrorView> {
    match r {
        Ok(bytes) => Ok(bytes@),
        Err(e) => Err(e@),
    }
}

/// The body of a reply that reports success, or the failure that the reply
/// stands for.
pub fn body_of(reply: Reply) -> (r: Result<Vec<u8>, HttpError>)
    ensures
        body_view(r) == reply_body(reply@),
{
    match reply {
        Reply::Failed(message) => Err(HttpError::RequestFailed(message)),
        Reply::Answered { status, body } => {
            if !is_success(status) {
                return Err(HttpError::StatusError(status as i32));
            }
            match body {
                Ok(bytes) => Ok(bytes),
                Err(message) => Err(HttpError::RequestFailed(message)),
            }
        },
    }
}

/// The document of a body, from what the JSON reader made of the body and
/// from the body as text.
pub fn document_of(parsed: Result<Json, String>, payload: String) -> (r: Result<
    Answer,
    HttpError,
>)
    ensures
        outcome_view(r) == body_document(crate::json::parsed_view(parsed), payload@),
{
    match parsed {
        Ok(document) => Ok(Answer { document, payload }),
        Err(message) => {
            let mut text = message;
            text.append(payload.as_str());
            Err(HttpError::ParseError(text))
        },
    }
}

/// The failure reported for a document of another shape than the one asked
/// for.
pub fn unexpected_document(payload: &str) -> (e: HttpError)
    ensures
        e@ == shape_failure(payload@),
{
    let mut text = String::from_str("unexpected document: ");
    text.append(payload);
    HttpError::ParseError(text)
}

impl ClashController {
    /// Reads the reply to a request whose answer carries nothing to read:
    /// the request succeeded where the answer's status reports success.
    pub fn request_no_response(&self, reply: Reply) -> (r: Result<(), HttpError>)
        ensures
            match r {
                Ok(()) => reply_status(reply@) == Ok::<(), HttpErrorView>(()),
                Err(e) => reply_status(reply@) == Err::<(), HttpErrorView>(e@),
            },
    {
        match reply {
            Reply::Failed(message) => Err(HttpError::RequestFailed(message)),
            Reply::Answered { status, body } => {
                if !is_success(status) {
                    return Err(HttpError::StatusError(status as i32));
                }
                Ok(())
            },
        }
    }

    /// Reads the reply to a request whose answer carries a JSON document:
    /// the document, or the failure that the reply stands for.
    pub fn request(&self, reply: Reply) -> (r: Result<Answer, HttpError>)
        ensures
            outcome_view(r) == reply_document(reply@),
    {
        let bytes = match body_of(reply) {
            Ok(bytes) => bytes,
            Err(e) => {
                return Err(e);
            },
        };
        let parsed = parse(bytes.as_slice());
        let payload = lossy(bytes.as_slice());
        document_of(parsed, payload)
    }

    /// Reads the reply to [`ClashController::get_proxies`]: the proxies by
    /// name.
    pub fn read_proxies(&self, reply: Reply) -> (r: Result<Table<Proxy>, HttpError>)
        ensures
            outcome_view(r) == record_of(reply_document(reply@), |j: JsonView| proxies_of(j)),
            r matches Ok(table) ==> table.wf(),
    {
        match self.request(reply) {
            Ok(answer) => match Proxy::table_from_json(&answer.document) {
                Some(table) => Ok(table),
                None => Err(unexpected_document(answer.payload.as_str())),
            },
            Err(e) => Err(e),
        }
    }

    /// Reads the reply to [`ClashController::get_proxy_delay`].
    pub fn read_proxy_delay(&self, reply: Reply) -> (r: Result<DelayResponse, HttpError>)
        ensures
            outcome_view(r) == record_of(reply_document(reply@), |j: JsonView| delay_of(j)),
    {
        match self.request(reply) {
            Ok(answer) => match DelayResponse::from_json(&answer.document) {
                Some(delay) => Ok(delay),
                None => Err(unexpected_document(answer.payload.as_str())),
            },
            Err(e) => Err(e),
        }
    }

    /// Reads the reply to [`ClashController::get_memory`].
    pub fn read_memory(&self, reply: Reply) -> (r: Result<MemoryResponse, HttpError>)
        ensures
            outcome_view(r) == record_of(reply_document(reply@), |j: JsonView| memory_of(j)),
    {
        match self.request(reply) {
            Ok(answer) => match MemoryResponse::from_json(&answer.document) {
                Some(memory) => Ok(memory),
                None => Err(unexpected_document(answer.payload.as_str())),
            },
            Err(e) => Err(e),
        }
    }

    /// Reads the reply to [`ClashController::get_connections`].
    pub fn read_connections(&self, reply: Reply) -> (r: Result<ConnectionsResponse, HttpError>)
        ensures
            outcome_view(r) == record_of(
                reply_document(reply@),
                |j: JsonView| connections_of(j),
            ),
    {
        match self.request(reply) {
            Ok(answer) => match ConnectionsResponse::from_json(&answer.document) {
                Some(connections) => Ok(connections),
                None => Err(unexpected_document(answer.payload.as_str())),
            },
            Err(e) => Err(e),
        }
    }

    /// Reads the reply to [`ClashController::get_configs`].
    pub fn read_configs(&self, reply: Reply) -> (r: Result<ConfigResponse, HttpError>)
        ensures
            outcome_view(r) == record_of(reply_document(reply@), |j: JsonView| config_of(j)),
    {
        match self.request(reply) {
            Ok(answer) => match ConfigResponse::from_json(&answer.document) {
                Some(config) => Ok(config),
                None => Err(unexpected_document(answer.payload.as_str())),
            },
            Err(e) => Err(e),
        }
    }
}

/// The path that selects a proxy for a group begins with `/proxies/`, and
/// what follows decodes, as a URL component, to the group's name as it was
/// given, whatever characters the name holds.
pub proof fn select_proxy_path_names_group(group: Seq<char>)
    ensures
        select_proxy_path(group).subrange(0, "/proxies/"@.len() as int) == "/proxies/"@,
        decode_component(select_proxy_path(group).skip("/proxies/"@.len() as int)) == Some(
            group,
        ),
{
    let prefix = "/proxies/"@;
    let path = select_proxy_path(group);
    component_round_trip(group);
    assert(path.subrange(0, prefix.len() as int) =~= prefix);
    assert(path.skip(prefix.len() as int) =~= encode_component(group));
}

/// The body that selects a proxy is the object whose one member is called
/// `name`, and the literal of that member's value stands for the proxy's
/// name as it was given, whatever characters the name holds.
pub proof fn select_proxy_body_names_proxy(proxy: Seq<char>)
    ensures
        select_proxy_body(proxy) == seq![0x7bu8] + string_literal_of("name"@) + seq![0x3au8]
            + string_literal_of(proxy) + seq![0x7du8],
        literal_text(string_literal_of("name"@)) == Some("name"@),
        literal_text(string_literal_of(proxy)) == Some(proxy),
{
    literal_round_trip("name"@);
    literal_round_trip(proxy);
    let members = seq![(string_literal_of("name"@), string_literal_of(proxy))];
    assert(members.drop_last() =~= Seq::<(Seq<u8>, Seq<u8>)>::empty());
    assert(frame_members(members.drop_last()) =~= Seq::<u8>::empty());
    assert(frame_members(members) =~= string_literal_of("name"@) + seq![0x3au8]
        + string_literal_of(proxy));
    assert(select_proxy_body(proxy) =~= seq![0x7bu8] + string_literal_of("name"@) + seq![0x3au8]
        + string_literal_of(proxy) + seq![0x7du8]);
}

/// The path of a delay probe is made of the fixed parts of the endpoint and
/// of three parts that name the proxy, the probe's URL and its time limit:
/// the first two decode, as URL components, to the name and the URL as they
/// were given, and the third is the time limit in decimal.
pub proof fn delay_path_names_its_parts(name: Seq<char>, url: Seq<char>, timeout: i32)
    ensures
        exists|a: Seq<char>, b: Seq<char>|
            {
                &&& #[trigger] decode_component(a) == Some(name)
                &&& #[trigger] decode_component(b) == Some(url)
                &&& delay_path(name, url, timeout) == "/proxies/"@ + a + "/delay?url="@ + b
                    + "&timeout="@ + signed_decimal(timeout as int)
            },
{
    component_round_trip(name);
    component_round_trip(url);
    let a = encode_component(name);
    let b = encode_component(url);
    assert(decode_component(a) == Some(name) && decode_component(b) == Some(url)
        && delay_path(name, url, timeout) == "/proxies/"@ + a + "/delay?url="@ + b
        + "&timeout="@ + signed_decimal(timeout as int));
}

} // verus!
