//! Snapshots of the engine's state, as its control socket reports them, and
//! the reading of each from a JSON document.
//!
//! A record is read from a JSON object. Members that the record does not name
//! are passed over; a member of the wrong kind, or a required member that is
//! missing, makes the whole document unreadable.

use vstd::prelude::*;

use crate::json::{Json, JsonView};
use crate::table::{set_entry, Table};

verus! {

/// One measurement of a proxy's delay.
#[derive(Debug, Clone, PartialEq, Eq)]
pub struct DelayHistory {
    pub time: String,
    pub delay: i32,
}

/// The mathematical value of a [`DelayHistory`].
pub struct DelayHistoryView {
    pub time: Seq<char>,
    pub delay: i32,
}

impl View for DelayHistory {
    type V = DelayHistoryView;

    open spec fn view(&self) -> DelayHistoryView {
        DelayHistoryView { time: self.time@, delay: self.delay }
    }
}

impl DeepView for DelayHistory {
    type V = DelayHistoryView;

    open spec fn deep_view(&self) -> DelayHistoryView {
        self@
    }
}

/// A proxy or a group of proxies.
#[derive(Debug, Clone, PartialEq, Eq)]
pub struct Proxy {
    pub name: String,
    pub proxy_type: String,
    pub all: Vec<String>,
    pub now: Option<String>,
    pub history: Vec<DelayHistory>,
}

/// The mathematical value of a [`Proxy`].
pub struct ProxyView {
    pub name: Seq<char>,
    pub proxy_type: Seq<char>,
    pub all: Seq<Seq<char>>,
    pub now: Option<Seq<char>>,
    pub history: Seq<DelayHistoryView>,
}

impl View for Proxy {
    type V = ProxyView;

    open spec fn view(&self) -> ProxyView {
        ProxyView {
            name: self.name@,
            proxy_type: self.proxy_type@,
            all: self.all.deep_view(),
            now: self.now.deep_view(),
            history: self.history.deep_view(),
        }
    }
}

impl DeepView for Proxy {
    type V = ProxyView;

    open spec fn deep_view(&self) -> ProxyView {
        self@
    }
}

/// The delay measured by one probe.
#[derive(Debug, Clone, Copy, PartialEq, Eq)]
pub struct DelayResponse {
    pub delay: i32,
}

impl DeepView for DelayResponse {
    type V = DelayResponse;

    open spec fn deep_view(&self) -> DelayResponse {
        *self
    }
}

/// The engine's memory use.
#[derive(Debug, Clone, Copy, PartialEq, Eq)]
pub struct MemoryResponse {
    pub inuse: i64,
    pub oslimit: i64,
}

impl DeepView for MemoryResponse {
    type V = MemoryResponse;

    open spec fn deep_view(&self) -> MemoryResponse {
        *self
    }
}

/// Where a connection comes from and where it goes.
#[derive(Debug, Clone, PartialEq, Eq)]
pub struct Metadata {
    pub network: String,
    pub metadata_type: String,
    pub source_ip: String,
    pub destination_ip: String,
    pub destination_port: u16,
    pub host: String,
}

/// The mathematical value of a [`Metadata`].
pub struct MetadataView {
    pub network: Seq<char>,
    pub metadata_type: Seq<char>,
    pub source_ip: Seq<char>,
    pub destination_ip: Seq<char>,
    pub destination_port: u16,
    pub host: Seq<char>,
}

impl View for Metadata {
    type V = MetadataView;

    open spec fn view(&self) -> MetadataView {
        MetadataView {
            network: self.network@,
            metadata_type: self.metadata_type@,
            source_ip: self.source_ip@,
            destination_ip: self.destination_ip@,
            destination_port: self.destination_port,
            host: self.host@,
        }
    }
}

impl DeepView for Metadata {
    type V = MetadataView;

    open spec fn deep_view(&self) -> MetadataView {
        self@
    }
}

/// One connection that the engine carries.
#[derive(Debug, Clone, PartialEq, Eq)]
pub struct Connection {
    pub id: String,
    pub metadata: Metadata,
    pub upload: i64,
    pub download: i64,
    pub start: String,
    pub chains: Vec<String>,
    pub rule: String,
}

/// The mathematical value of a [`Connection`].
pub struct ConnectionView {
    pub id: Seq<char>,
    pub metadata: MetadataView,
    pub upload: i64,
    pub download: i64,
    pub start: Seq<char>,
    pub chains: Seq<Seq<char>>,
    pub rule: Seq<char>,
}

impl View for Connection {
    type V = ConnectionView;

    open spec fn view(&self) -> ConnectionView {
        ConnectionView {
            id: self.id@,
            metadata: self.metadata@,
            upload: self.upload,
            download: self.download,
            start: self.start@,
            chains: self.chains.deep_view(),
            rule: self.rule@,
        }
    }
}

impl DeepView for Connection {
    type V = ConnectionView;

    open spec fn deep_view(&self) -> ConnectionView {
        self@
    }
}

/// The connections that the engine carries, with its traffic totals.
#[derive(Debug, Clone, PartialEq, Eq)]
pub struct ConnectionsResponse {
    pub download_total: i64,
    pub upload_total: i64,
    pub connections: Vec<Connection>,
}

/// The mathematical value of a [`ConnectionsResponse`].
pub struct ConnectionsResponseView {
    pub download_total: i64,
    pub upload_total: i64,
    pub connections: Seq<ConnectionView>,
}

impl View for ConnectionsResponse {
    type V = ConnectionsResponseView;

    open spec fn view(&self) -> ConnectionsResponseView {
        ConnectionsResponseView {
            download_total: self.download_total,
            upload_total: self.upload_total,
            connections: self.connections.deep_view(),
        }
    }
}

impl DeepView for ConnectionsResponse {
    type V = ConnectionsResponseView;

    open spec fn deep_view(&self) -> ConnectionsResponseView {
        self@
    }
}

/// The part of the engine's configuration that the bridge reads back.
#[derive(Debug, Clone, PartialEq, Eq)]
pub struct ConfigResponse {
    pub external_controller: Option<String>,
    pub secret: Option<String>,
    pub mode: Option<String>,
}

/// The mathematical value of a [`ConfigResponse`].
pub struct ConfigResponseView {
    pub external_controller: Option<Seq<char>>,
    pub secret: Option<Seq<char>>,
    pub mode: Option<Seq<char>>,
}

impl View for ConfigResponse {
    type V = ConfigResponseView;

    open spec fn view(&self) -> ConfigResponseView {
        ConfigResponseView {
            external_controller: self.external_controller.deep_view(),
            secret: self.secret.deep_view(),
            mode: self.mode.deep_view(),
        }
    }
}

impl DeepView for ConfigResponse {
    type V = ConfigResponseView;

    open spec fn deep_view(&self) -> ConfigResponseView {
        self@
    }
}

/// The measurement that a document holds: `time`, a string, and `delay`, an
/// integer that fits an `i32`.
pub open spec fn delay_history_of(j: JsonView) -> Option<DelayHistoryView> {
    match (j.text_at("time"@), j.i32_at("delay"@)) {
        (Some(time), Some(delay)) => Some(DelayHistoryView { time, delay }),
        _ => None,
    }
}

/// The measurements that a list of documents holds, if each holds one.
pub open spec fn delay_histories_of(items: Seq<JsonView>) -> Option<Seq<DelayHistoryView>> {
    if forall|i: int| 0 <= i < items.len() ==> delay_history_of(#[trigger] items[i]) is Some {
        Some(Seq::new(items.len(), |i: int| delay_history_of(items[i])->0))
    } else {
        None
    }
}

/// The member `name` as a list of measurements; a missing member is the
/// empty list.
pub open spec fn history_at(j: JsonView, name: Seq<char>) -> Option<Seq<DelayHistoryView>> {
    match j.member(name) {
        None => Some(Seq::empty()),
        Some(JsonView::Array(items)) => delay_histories_of(items),
        Some(_) => None,
    }
}

/// The proxy that a document holds: `name` and `type`, strings; `all`, a
/// list of strings, empty where missing; `now`, a string, absent where
/// missing or `null`; `history`, a list of measurements, empty where missing.
pub open spec fn proxy_of(j: JsonView) -> Option<ProxyView> {
    match (
        j.text_at("name"@),
        j.text_at("type"@),
        j.text_list_or_empty_at("all"@),
        j.optional_text_at("now"@),
        history_at(j, "history"@),
    ) {
        (Some(name), Some(proxy_type), Some(all), Some(now), Some(history)) => Some(
            ProxyView { name, proxy_type, all, now, history },
        ),
        _ => None,
    }
}

/// The proxies that the members of an object hold, by the members' names:
/// each member must hold a proxy, and a name that occurs again puts its
/// proxy in place of the earlier one.
pub open spec fn named_proxies_of(members: Seq<(Seq<char>, JsonView)>) -> Option<
    Seq<(Seq<char>, ProxyView)>,
>
    decreases members.len(),
{
    if members.len() == 0 {
        Some(Seq::empty())
    } else {
        match (named_proxies_of(members.drop_last()), proxy_of(members.last().1)) {
            (Some(before), Some(proxy)) => Some(set_entry(before, members.last().0, proxy)),
            _ => None,
        }
    }
}

/// Members that hold no table of proxies up to the `n`-th hold none as a
/// whole.
proof fn unreadable_member_spoils_table(members: Seq<(Seq<char>, JsonView)>, n: int)
    requires
        0 <= n <= members.len(),
        named_proxies_of(members.subrange(0, n)) is None,
    ensures
        named_proxies_of(members) is None,
    decreases members.len() - n,
{
    if n < members.len() {
        let next = members.subrange(0, n + 1);
        assert(next.drop_last() =~= members.subrange(0, n));
        unreadable_member_spoils_table(members, n + 1);
    } else {
        assert(members.subrange(0, n) =~= members);
    }
}

/// The proxies by name that a document holds under `proxies`.
pub open spec fn proxies_of(j: JsonView) -> Option<Seq<(Seq<char>, ProxyView)>> {
    match j.member("proxies"@) {
        Some(JsonView::Object(members)) => named_proxies_of(members),
        _ => None,
    }
}

/// The delay that a document holds: `delay`, an integer that fits an `i32`.
pub open spec fn delay_of(j: JsonView) -> Option<DelayResponse> {
    match j.i32_at("delay"@) {
        Some(delay) => Some(DelayResponse { delay }),
        None => None,
    }
}

/// The memory use that a document holds: `inuse` and `oslimit`, integers.
pub open spec fn memory_of(j: JsonView) -> Option<MemoryResponse> {
    match (j.integer_at("inuse"@), j.integer_at("oslimit"@)) {
        (Some(inuse), Some(oslimit)) => Some(MemoryResponse { inuse, oslimit }),
        _ => None,
    }
}

/// The endpoints that a document holds: five strings and `destinationPort`,
/// an integer that fits a `u16`.
pub open spec fn metadata_of(j: JsonView) -> Option<MetadataView> {
    match (
        j.text_at("network"@),
        j.text_at("type"@),
        j.text_at("sourceIP"@),
        j.text_at("destinationIP"@),
        j.u16_at("destinationPort"@),
        j.text_at("host"@),
    ) {
        (
            Some(network),
            Some(metadata_type),
            Some(source_ip),
            Some(destination_ip),
            Some(destination_port),
            Some(host),
        ) => Some(
            MetadataView {
                network,
                metadata_type,
                source_ip,
                destination_ip,
                destination_port,
                host,
            },
        ),
        _ => None,
    }
}

/// The endpoints that a document holds under `name`.
pub open spec fn metadata_at(j: JsonView, name: Seq<char>) -> Option<MetadataView> {
    match j.member(name) {
        Some(m) => metadata_of(m),
        None => None,
    }
}

/// The connection that a document holds; every member is required.
pub open spec fn connection_of(j: JsonView) -> Option<ConnectionView> {
    match (
        j.text_at("id"@),
        metadata_at(j, "metadata"@),
        j.integer_at("upload"@),
        j.integer_at("download"@),
        j.text_at("start"@),
        j.text_list_at("chains"@),
        j.text_at("rule"@),
    ) {
        (
            Some(id),
            Some(metadata),
            Some(upload),
            Some(download),
            Some(start),
            Some(chains),
            Some(rule),
        ) => Some(ConnectionView { id, metadata, upload, download, start, chains, rule }),
        _ => None,
    }
}

/// The connections that a list of documents holds, if each holds one.
pub open spec fn connection_list_of(items: Seq<JsonView>) -> Option<Seq<ConnectionView>> {
    if forall|i: int| 0 <= i < items.len() ==> connection_of(#[trigger] items[i]) is Some {
        Some(Seq::new(items.len(), |i: int| connection_of(items[i])->0))
    } else {
        None
    }
}

/// The member `name` as a list of connections, which must be there.
pub open spec fn connection_list_at(j: JsonView, name: Seq<char>) -> Option<Seq<ConnectionView>> {
    match j.member(name) {
        Some(JsonView::Array(items)) => connection_list_of(items),
        _ => None,
    }
}

/// The connections and totals that a document holds; every member is
/// required.
pub open spec fn connections_of(j: JsonView) -> Option<ConnectionsResponseView> {
    match (
        j.integer_at("downloadTotal"@),
        j.integer_at("uploadTotal"@),
        connection_list_at(j, "connections"@),
    ) {
        (Some(download_total), Some(upload_total), Some(connections)) => Some(
            ConnectionsResponseView { download_total, upload_total, connections },
        ),
        _ => None,
    }
}

/// The configuration that a document holds: three strings, each absent where
/// missing or `null`. The document must be an object.
pub open spec fn config_of(j: JsonView) -> Option<ConfigResponseView> {
    match (
        j.optional_text_at("external-controller"@),
        j.optional_text_at("secret"@),
        j.optional_text_at("mode"@),
    ) {
        (Some(external_controller), Some(secret), Some(mode)) => if j is Object {
            Some(ConfigResponseView { external_controller, secret, mode })
        } else {
            None
        },
        _ => None,
    }
}

impl DelayHistory {
    /// Reads a measurement from a document.
    pub fn from_json(json: &Json) -> (r: Option<DelayHistory>)
        ensures
            r.deep_view() == delay_history_of(json@),
    {
        let time = json.text_at("time");
        let delay = json.i32_at("delay");
        match (time, delay) {
            (Some(time), Some(delay)) => Some(DelayHistory { time, delay }),
            _ => None,
        }
    }

    /// Reads the member `name` of a document as a list of measurements; a
    /// missing member is the empty list.
    pub fn list_at(json: &Json, name: &str) -> (r: Option<Vec<DelayHistory>>)
        ensures
            r.deep_view() == history_at(json@, name@),
    {
        match json.member(name) {
            None => {
                let out: Vec<DelayHistory> = Vec::new();
                assert(out.deep_view() =~= Seq::<DelayHistoryView>::empty());
                Some(out)
            },
            Some(list) => match list {
                Json::Array(items) => {
                    proof {
                        list.view_of_array();
                    }
                    let ghost docs = list@->Array_0;
                    let mut out: Vec<DelayHistory> = Vec::new();
                    let mut i: usize = 0;
                    while i < items.len()
                        invariant
                            i <= items.len(),
                            docs.len() == items.len(),
                            history_at(json@, name@) == delay_histories_of(docs),
                            forall|k: int| 0 <= k < items.len() ==> (#[trigger] docs[k]) == items@[k]@,
                            out.len() == i,
                            forall|k: int|
                                0 <= k < i ==> delay_history_of(#[trigger] docs[k]) == Some(
                                    out@[k]@,
                                ),
                        decreases items.len() - i,
                    {
                        match DelayHistory::from_json(&items[i]) {
                            Some(h) => {
                                out.push(h);
                            },
                            None => {
                                assert(delay_history_of(docs[i as int]) is None);
                                return None;
                            },
                        }
                        i = i + 1;
                    }
                    assert(out.deep_view() =~= delay_histories_of(docs)->0);
                    Some(out)
                },
                _ => None,
            },
        }
    }
}

impl Proxy {
    /// Reads a proxy from a document.
    pub fn from_json(json: &Json) -> (r: Option<Proxy>)
        ensures
            r.deep_view() == proxy_of(json@),
    {
        let name = json.text_at("name");
        let proxy_type = json.text_at("type");
        let all = json.text_list_or_empty_at("all");
        let now = json.optional_text_at("now");
        let history = DelayHistory::list_at(json, "history");
        match (name, proxy_type, all, now, history) {
            (Some(name), Some(proxy_type), Some(all), Some(now), Some(history)) => Some(
                Proxy { name, proxy_type, all, now, history },
            ),
            _ => None,
        }
    }

    /// Reads the proxies by name from the document of a proxy listing: one
    /// entry for each name among the members of its `proxies` object.
    pub fn table_from_json(json: &Json) -> (r: Option<Table<Proxy>>)
        ensures
            r.deep_view() == proxies_of(json@),
            r matches Some(table) ==> table.wf(),
    {
        match json.member("proxies") {
            Some(listing) => match listing {
                Json::Object(members) => {
                    proof {
                        listing.view_of_object();
                    }
                    let ghost docs = listing@->Object_0;
                    let mut out: Table<Proxy> = Table::new();
                    let mut i: usize = 0;
                    assert(docs.subrange(0, 0) =~= Seq::<(Seq<char>, JsonView)>::empty());
                    while i < members.len()
                        invariant
                            i <= members.len(),
                            docs.len() == members.len(),
                            proxies_of(json@) == named_proxies_of(docs),
                            forall|k: int|
                                0 <= k < members.len() ==> (#[trigger] docs[k]) == (
                                    members@[k].0@,
                                    members@[k].1@,
                                ),
                            out.wf(),
                            named_proxies_of(docs.subrange(0, i as int)) == Some(out@),
                        decreases members.len() - i,
                    {
                        let ghost upto = docs.subrange(0, i + 1);
                        assert(upto.drop_last() =~= docs.subrange(0, i as int));
                        assert(upto.last() == docs[i as int]);
                        match Proxy::from_json(&members[i].1) {
                            Some(proxy) => {
                                out.set(members[i].0.clone(), proxy);
                            },
                            None => {
                                proof {
                                    assert(named_proxies_of(upto) is None);
                                    unreadable_member_spoils_table(docs, i + 1);
                                }
                                return None;
                            },
                        }
                        i = i + 1;
                    }
                    assert(docs.subrange(0, i as int) =~= docs);
                    Some(out)
                },
                _ => None,
            },
            None => None,
        }
    }
}

impl DelayResponse {
    /// Reads a probe's delay from a document.
    pub fn from_json(json: &Json) -> (r: Option<DelayResponse>)
        ensures
            r == delay_of(json@),
    {
        match json.i32_at("delay") {
            Some(delay) => Some(DelayResponse { delay }),
            None => None,
        }
    }
}

impl MemoryResponse {
    /// Reads the memory use from a document.
    pub fn from_json(json: &Json) -> (r: Option<MemoryResponse>)
        ensures
            r == memory_of(json@),
    {
        let inuse = json.integer_at("inuse");
        let oslimit = json.integer_at("oslimit");
        match (inuse, oslimit) {
            (Some(inuse), Some(oslimit)) => Some(MemoryResponse { inuse, oslimit }),
            _ => None,
        }
    }
}

impl Metadata {
    /// Reads a connection's endpoints from a document.
    pub fn from_json(json: &Json) -> (r: Option<Metadata>)
        ensures
            r.deep_view() == metadata_of(json@),
    {
        let network = json.text_at("network");
        let metadata_type = json.text_at("type");
        let source_ip = json.text_at("sourceIP");
        let destination_ip = json.text_at("destinationIP");
        let destination_port = json.u16_at("destinationPort");
        let host = json.text_at("host");
        match (network, metadata_type, source_ip, destination_ip, destination_port, host) {
            (
                Some(network),
                Some(metadata_type),
                Some(source_ip),
                Some(destination_ip),
                Some(destination_port),
                Some(host),
            ) => Some(
                Metadata {
                    network,
                    metadata_type,
                    source_ip,
                    destination_ip,
                    destination_port,
                    host,
                },
            ),
            _ => None,
        }
    }

    /// Reads the member `name` of a document as a connection's endpoints.
    pub fn at(json: &Json, name: &str) -> (r: Option<Metadata>)
        ensures
            r.deep_view() == metadata_at(json@, name@),
    {
        match json.member(name) {
            Some(m) => Metadata::from_json(m),
            None => None,
        }
    }
}

impl Connection {
    /// Reads a connection from a document.
    pub fn from_json(json: &Json) -> (r: Option<Connection>)
        ensures
            r.deep_view() == connection_of(json@),
    {
        let id = json.text_at("id");
        let metadata = Metadata::at(json, "metadata");
        let upload = json.integer_at("upload");
        let download = json.integer_at("download");
        let start = json.text_at("start");
        let chains = json.text_list_at("chains");
        let rule = json.text_at("rule");
        match (id, metadata, upload, download, start, chains, rule) {
            (
                Some(id),
                Some(metadata),
                Some(upload),
                Some(download),
                Some(start),
                Some(chains),
                Some(rule),
            ) => Some(Connection { id, metadata, upload, download, start, chains, rule }),
            _ => None,
        }
    }

    /// Reads the member `name` of a document as a list of connections.
    pub fn list_at(json: &Json, name: &str) -> (r: Option<Vec<Connection>>)
        ensures
            r.deep_view() == connection_list_at(json@, name@),
    {
        match json.member(name) {
            Some(list) => match list {
                Json::Array(items) => {
                    proof {
                        list.view_of_array();
                    }
                    let ghost docs = list@->Array_0;
                    let mut out: Vec<Connection> = Vec::new();
                    let mut i: usize = 0;
                    while i < items.len()
                        invariant
                            i <= items.len(),
                            docs.len() == items.len(),
                            connection_list_at(json@, name@) == connection_list_of(docs),
                            forall|k: int| 0 <= k < items.len() ==> (#[trigger] docs[k]) == items@[k]@,
                            out.len() == i,
                            forall|k: int|
                                0 <= k < i ==> connection_of(#[trigger] docs[k]) == Some(
                                    out@[k]@,
                                ),
                        decreases items.len() - i,
                    {
                        match Connection::from_json(&items[i]) {
                            Some(c) => {
                                out.push(c);
                            },
                            None => {
                                assert(connection_of(docs[i as int]) is None);
                                return None;
                            },
                        }
                        i = i + 1;
                    }
                    assert(out.deep_view() =~= connection_list_of(docs)->0);
                    Some(out)
                },
                _ => None,
            },
            None => None,
        }
    }
}

impl ConnectionsResponse {
    /// Reads the connections and totals from a document.
    pub fn from_json(json: &Json) -> (r: Option<ConnectionsResponse>)
        ensures
            r.deep_view() == connections_of(json@),
    {
        let download_total = json.integer_at("downloadTotal");
        let upload_total = json.integer_at("uploadTotal");
        let connections = Connection::list_at(json, "connections");
        match (download_total, upload_total, connections) {
            (Some(download_total), Some(upload_total), Some(connections)) => Some(
                ConnectionsResponse { download_total, upload_total, connections },
            ),
            _ => None,
        }
    }
}

impl ConfigResponse {
    /// Reads the configuration from a document.
    pub fn from_json(json: &Json) -> (r: Option<ConfigResponse>)
        ensures
            r.deep_view() == config_of(json@),
    {
        let is_object = match json {
            Json::Object(_) => true,
            _ => false,
        };
        let external_controller = json.optional_text_at("external-controller");
        let secret = json.optional_text_at("secret");
        let mode = json.optional_text_at("mode");
        match (external_controller, secret, mode) {
            (Some(external_controller), Some(secret), Some(mode)) => if is_object {
                Some(ConfigResponse { external_controller, secret, mode })
            } else {
                None
            },
            _ => None,
        }
    }
}

} // verus!
