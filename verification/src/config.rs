//! Derivation of the engine's configuration from the configuration that was
//! read from a file and from the host's override.

use vstd::prelude::*;
use vstd::string::*;

use crate::cidr::{cidr_of, parse_cidr, Ipv4Net};
use crate::error::{FfiError, FfiErrorView};
use crate::text::{push_signed_decimal, signed_decimal};

verus! {

/// What the host overrides of a profile when it starts the engine.
#[derive(Debug, Clone, PartialEq, Eq)]
pub struct ProfileOverride {
    /// The file descriptor of the tunnel device.
    pub tun_fd: i32,
    /// Kept as given; the derivation does not read it.
    pub allow_lan: bool,
    pub mixed_port: u16,
    pub http_port: Option<u16>,
    pub socks_port: Option<u16>,
    /// Whether names resolve to synthetic addresses.
    pub fake_ip: bool,
    /// The range of the synthetic addresses, in CIDR notation.
    pub fake_ip_range: String,
    pub ipv6: bool,
}

/// The mathematical value of a [`ProfileOverride`].
pub struct ProfileOverrideView {
    pub tun_fd: i32,
    pub allow_lan: bool,
    pub mixed_port: u16,
    pub http_port: Option<u16>,
    pub socks_port: Option<u16>,
    pub fake_ip: bool,
    pub fake_ip_range: Seq<char>,
    pub ipv6: bool,
}

impl View for ProfileOverride {
    type V = ProfileOverrideView;

    open spec fn view(&self) -> ProfileOverrideView {
        ProfileOverrideView {
            tun_fd: self.tun_fd,
            allow_lan: self.allow_lan,
            mixed_port: self.mixed_port,
            http_port: self.http_port,
            socks_port: self.socks_port,
            fake_ip: self.fake_ip,
            fake_ip_range: self.fake_ip_range@,
            ipv6: self.ipv6,
        }
    }
}

/// How a name server is spoken to.
#[derive(Debug, Clone, Copy, PartialEq, Eq, Structural)]
pub enum DnsTransport {
    Udp,
    Tcp,
    Tls,
    Https,
}

/// A name server: its transport and its address with port.
#[derive(Debug, Clone, PartialEq, Eq)]
pub struct NameServer {
    pub transport: DnsTransport,
    pub address: String,
}

/// The mathematical value of a [`NameServer`].
pub struct NameServerView {
    pub transport: DnsTransport,
    pub address: Seq<char>,
}

impl View for NameServer {
    type V = NameServerView;

    open spec fn view(&self) -> NameServerView {
        NameServerView { transport: self.transport, address: self.address@ }
    }
}

impl DeepView for NameServer {
    type V = NameServerView;

    open spec fn deep_view(&self) -> NameServerView {
        self@
    }
}

/// An IPv4 address with a port.
#[derive(Debug, Clone, Copy, PartialEq, Eq, Structural)]
pub struct Endpoint {
    pub a: u8,
    pub b: u8,
    pub c: u8,
    pub d: u8,
    pub port: u16,
}

/// The ports on which the engine listens for traffic to forward.
#[derive(Debug, Clone, Copy, PartialEq, Eq, Structural)]
pub struct Inbound {
    pub port: Option<u16>,
    pub socks_port: Option<u16>,
    pub mixed_port: Option<u16>,
}

/// What the derivation reads of the configuration that came from a file.
#[derive(Debug, Clone, PartialEq, Eq)]
pub struct BaseConfig {
    pub inbound: Inbound,
    pub nameserver: Vec<NameServer>,
    pub fallback: Vec<NameServer>,
    /// Where the file asks the resolver to listen; the derivation overrides
    /// it.
    pub dns_listen: Option<Endpoint>,
}

/// The mathematical value of a [`BaseConfig`].
pub struct BaseConfigView {
    pub inbound: Inbound,
    pub nameserver: Seq<NameServerView>,
    pub fallback: Seq<NameServerView>,
    pub dns_listen: Option<Endpoint>,
}

impl View for BaseConfig {
    type V = BaseConfigView;

    open spec fn view(&self) -> BaseConfigView {
        BaseConfigView {
            inbound: self.inbound,
            nameserver: self.nameserver.deep_view(),
            fallback: self.fallback.deep_view(),
            dns_listen: self.dns_listen,
        }
    }
}

/// The tunnel device that the engine reads packets from.
#[derive(Debug, Clone, PartialEq, Eq)]
pub struct TunConfig {
    pub enable: bool,
    pub device_id: String,
    /// Whether the engine installs routes itself.
    pub route_all: bool,
    pub gateway: Ipv4Net,
    pub gateway_v6: Option<String>,
    pub dns_hijack: bool,
}

/// The mathematical value of a [`TunConfig`].
pub struct TunConfigView {
    pub enable: bool,
    pub device_id: Seq<char>,
    pub route_all: bool,
    pub gateway: Ipv4Net,
    pub gateway_v6: Option<Seq<char>>,
    pub dns_hijack: bool,
}

impl View for TunConfig {
    type V = TunConfigView;

    open spec fn view(&self) -> TunConfigView {
        TunConfigView {
            enable: self.enable,
            device_id: self.device_id@,
            route_all: self.route_all,
            gateway: self.gateway,
            gateway_v6: self.gateway_v6.deep_view(),
            dns_hijack: self.dns_hijack,
        }
    }
}

/// Whether resolved names are mapped to synthetic addresses.
#[derive(Debug, Clone, Copy, PartialEq, Eq, Structural)]
pub enum EnhancedMode {
    Normal,
    FakeIp,
}

/// The resolver's settings.
#[derive(Debug, Clone, PartialEq, Eq)]
pub struct DnsConfig {
    pub enable: bool,
    pub ipv6: bool,
    pub listen: Endpoint,
    pub nameserver: Vec<NameServer>,
    pub fallback: Vec<NameServer>,
    pub enhanced_mode: EnhancedMode,
    pub fake_ip_range: Option<Ipv4Net>,
}

/// The mathematical value of a [`DnsConfig`].
pub struct DnsConfigView {
    pub enable: bool,
    pub ipv6: bool,
    pub listen: Endpoint,
    pub nameserver: Seq<NameServerView>,
    pub fallback: Seq<NameServerView>,
    pub enhanced_mode: EnhancedMode,
    pub fake_ip_range: Option<Ipv4Net>,
}

impl View for DnsConfig {
    type V = DnsConfigView;

    open spec fn view(&self) -> DnsConfigView {
        DnsConfigView {
            enable: self.enable,
            ipv6: self.ipv6,
            listen: self.listen,
            nameserver: self.nameserver.deep_view(),
            fallback: self.fallback.deep_view(),
            enhanced_mode: self.enhanced_mode,
            fake_ip_range: self.fake_ip_range,
        }
    }
}

/// The configuration that the engine is started with.
#[derive(Debug, Clone, PartialEq, Eq)]
pub struct ResolvedConfig {
    pub tun: TunConfig,
    pub inbound: Inbound,
    pub dns: DnsConfig,
    pub controller_socket: String,
    pub ipv6: bool,
}

/// The mathematical value of a [`ResolvedConfig`].
pub struct ResolvedConfigView {
    pub tun: TunConfigView,
    pub inbound: Inbound,
    pub dns: DnsConfigView,
    pub controller_socket: Seq<char>,
    pub ipv6: bool,
}

impl View for ResolvedConfig {
    type V = ResolvedConfigView;

    open spec fn view(&self) -> ResolvedConfigView {
        ResolvedConfigView {
            tun: self.tun@,
            inbound: self.inbound,
            dns: self.dns@,
            controller_socket: self.controller_socket@,
            ipv6: self.ipv6,
        }
    }
}

impl DeepView for ResolvedConfig {
    type V = ResolvedConfigView;

    open spec fn deep_view(&self) -> ResolvedConfigView {
        self@
    }
}

/// The gateway of the tunnel: `10.0.0.1/30`.
pub open spec fn tun_gateway() -> Ipv4Net {
    Ipv4Net { a: 10, b: 0, c: 0, d: 1, prefix_len: 30 }
}

/// Where the resolver listens: `127.0.0.1`, port 53.
pub open spec fn dns_listen() -> Endpoint {
    Endpoint { a: 127, b: 0, c: 0, d: 1, port: 53 }
}

/// The name servers used where the file names none: two public resolvers
/// over TLS.
pub open spec fn default_nameservers() -> Seq<NameServerView> {
    seq![
        NameServerView { transport: DnsTransport::Tls, address: "223.5.5.5:853"@ },
        NameServerView { transport: DnsTransport::Tls, address: "1.1.1.1:853"@ },
    ]
}

/// The fallback name servers used where the file names none: two public
/// resolvers over plain UDP.
pub open spec fn default_fallback() -> Seq<NameServerView> {
    seq![
        NameServerView { transport: DnsTransport::Udp, address: "114.114.114.114:53"@ },
        NameServerView { transport: DnsTransport::Udp, address: "8.8.8.8:53"@ },
    ]
}

/// The tunnel device for the descriptor `fd`: routes are left to the host,
/// the gateway is fixed, and there is none for IPv6.
pub open spec fn tun_for(fd: i32) -> TunConfigView {
    TunConfigView {
        enable: true,
        device_id: "fd://"@ + signed_decimal(fd as int),
        route_all: false,
        gateway: tun_gateway(),
        gateway_v6: None,
        dns_hijack: true,
    }
}

/// A port of the file where it names one, else the host's.
pub open spec fn port_or(base: Option<u16>, over: Option<u16>) -> Option<u16> {
    match base {
        Some(port) => Some(port),
        None => over,
    }
}

/// The ports of the file, each filled from the host's override where the
/// file names none.
pub open spec fn merged_inbound(base: Inbound, over: ProfileOverrideView) -> Inbound {
    Inbound {
        port: port_or(base.port, over.http_port),
        socks_port: port_or(base.socks_port, over.socks_port),
        mixed_port: port_or(base.mixed_port, Some(over.mixed_port)),
    }
}

/// A list of name servers as the file gives it, or `defaults` where the
/// file's list is empty.
pub open spec fn servers_or(listed: Seq<NameServerView>, defaults: Seq<NameServerView>) -> Seq<
    NameServerView,
> {
    if listed.len() > 0 {
        listed
    } else {
        defaults
    }
}

/// The path of the control socket in the working directory.
pub open spec fn controller_socket_in(work_dir: Seq<char>) -> Seq<char> {
    work_dir + "/clash.sock"@
}

/// The configuration derived from `base` and `over`, with `range` for the
/// synthetic addresses (`None` where names resolve normally).
pub open spec fn derived(
    base: BaseConfigView,
    work_dir: Seq<char>,
    over: ProfileOverrideView,
    range: Option<Ipv4Net>,
) -> ResolvedConfigView {
    ResolvedConfigView {
        tun: tun_for(over.tun_fd),
        inbound: merged_inbound(base.inbound, over),
        dns: DnsConfigView {
            enable: true,
            ipv6: over.ipv6,
            listen: dns_listen(),
            nameserver: servers_or(base.nameserver, default_nameservers()),
            fallback: servers_or(base.fallback, default_fallback()),
            enhanced_mode: if over.fake_ip {
                EnhancedMode::FakeIp
            } else {
                EnhancedMode::Normal
            },
            fake_ip_range: range,
        },
        controller_socket: controller_socket_in(work_dir),
        ipv6: over.ipv6,
    }
}

/// The failure reported for a range that is no network in CIDR notation.
pub open spec fn bad_range(range: Seq<char>) -> FfiErrorView {
    FfiErrorView::Configuration("invalid fake-ip range: "@ + range)
}

/// The derivation: the one configuration that `base` and `over` give, or
/// the failure where synthetic addresses are asked for and their range is
/// no network in CIDR notation.
pub open spec fn derivation(
    base: BaseConfigView,
    work_dir: Seq<char>,
    over: ProfileOverrideView,
) -> Result<ResolvedConfigView, FfiErrorView> {
    if over.fake_ip {
        match cidr_of(over.fake_ip_range) {
            Some(net) => Ok(derived(base, work_dir, over, Some(net))),
            None => Err(bad_range(over.fake_ip_range)),
        }
    } else {
        Ok(derived(base, work_dir, over, None))
    }
}

/// The view of a derivation's result.
pub open spec fn derivation_view(r: Result<ResolvedConfig, FfiError>) -> Result<
    ResolvedConfigView,
    FfiErrorView,
> {
    match r {
        Ok(config) => Ok(config@),
        Err(e) => Err(e@),
    }
}

/// One name server.
fn server(transport: DnsTransport, address: &str) -> (s: NameServer)
    ensures
        s@ == (NameServerView { transport, address: address@ }),
{
    NameServer { transport, address: String::from_str(address) }
}

/// The name servers used where the file names none.
pub fn default_nameserver_list() -> (list: Vec<NameServer>)
    ensures
        list.deep_view() == default_nameservers(),
{
    let mut list: Vec<NameServer> = Vec::new();
    list.push(server(DnsTransport::Tls, "223.5.5.5:853"));
    list.push(server(DnsTransport::Tls, "1.1.1.1:853"));
    assert(list.deep_view() =~= default_nameservers());
    list
}

/// The fallback name servers used where the file names none.
pub fn default_fallback_list() -> (list: Vec<NameServer>)
    ensures
        list.deep_view() == default_fallback(),
{
    let mut list: Vec<NameServer> = Vec::new();
    list.push(server(DnsTransport::Udp, "114.114.114.114:53"));
    list.push(server(DnsTransport::Udp, "8.8.8.8:53"));
    assert(list.deep_view() =~= default_fallback());
    list
}

/// A port of the file where it names one, else the host's.
fn choose_port(base: Option<u16>, over: Option<u16>) -> (port: Option<u16>)
    ensures
        port == port_or(base, over),
{
    match base {
        Some(port) => Some(port),
        None => over,
    }
}

/// Derives the engine's configuration from what the file gave and what the
/// host overrides. The tunnel device, the resolver's listening address and
/// mode, and the control socket's path come from the override and the
/// working directory alone; ports and name servers of the file are kept
/// where the file has them.
pub fn derive_config(base: BaseConfig, work_dir: &str, over: &ProfileOverride) -> (r: Result<
    ResolvedConfig,
    FfiError,
>)
    ensures
        derivation_view(r) == derivation(base@, work_dir@, over@),
{
    let range = if over.fake_ip {
        match parse_cidr(over.fake_ip_range.as_str()) {
            Some(net) => Some(net),
            None => {
                let mut message = String::from_str("invalid fake-ip range: ");
                message.append(over.fake_ip_range.as_str());
                return Err(FfiError::Configuration(message));
            },
        }
    } else {
        None
    };
    let mut device_id = String::from_str("fd://");
    push_signed_decimal(&mut device_id, over.tun_fd);
    let tun = TunConfig {
        enable: true,
        device_id,
        route_all: false,
        gateway: Ipv4Net { a: 10, b: 0, c: 0, d: 1, prefix_len: 30 },
        gateway_v6: None,
        dns_hijack: true,
    };
    let inbound = Inbound {
        port: choose_port(base.inbound.port, over.http_port),
        socks_port: choose_port(base.inbound.socks_port, over.socks_port),
        mixed_port: choose_port(base.inbound.mixed_port, Some(over.mixed_port)),
    };
    let nameserver = if base.nameserver.len() > 0 {
        base.nameserver
    } else {
        default_nameserver_list()
    };
    let fallback = if base.fallback.len() > 0 {
        base.fallback
    } else {
        default_fallback_list()
    };
    let dns = DnsConfig {
        enable: true,
        ipv6: over.ipv6,
        listen: Endpoint { a: 127, b: 0, c: 0, d: 1, port: 53 },
        nameserver,
        fallback,
        enhanced_mode: if over.fake_ip {
            EnhancedMode::FakeIp
        } else {
            EnhancedMode::Normal
        },
        fake_ip_range: range,
    };
    let mut controller_socket = String::from_str(work_dir);
    controller_socket.append("/clash.sock");
    Ok(ResolvedConfig { tun, inbound, dns, controller_socket, ipv6: over.ipv6 })
}

/// The ports that the host is told after a start.
#[derive(Debug, Clone, Copy, PartialEq, Eq, Structural)]
pub struct PortInfo {
    /// The mixed port in effect: the file's, or the host's where the file
    /// names none.
    pub mixed_port: u16,
    pub http_port: Option<u16>,
    pub socks_port: Option<u16>,
}

/// What starting the engine takes: the configuration to hand to it, the
/// directory to run it in, and the ports to report to the host.
#[derive(Debug, Clone, PartialEq, Eq)]
pub struct EngineStart {
    pub config: ResolvedConfig,
    pub work_dir: String,
    pub ports: PortInfo,
}

/// The mathematical value of an [`EngineStart`].
pub struct EngineStartView {
    pub config: ResolvedConfigView,
    pub work_dir: Seq<char>,
    pub ports: PortInfo,
}

impl View for EngineStart {
    type V = EngineStartView;

    open spec fn view(&self) -> EngineStartView {
        EngineStartView { config: self.config@, work_dir: self.work_dir@, ports: self.ports }
    }
}

/// The ports reported for a file's ports and an override.
pub open spec fn ports_for(base: Inbound, over: ProfileOverrideView) -> PortInfo {
    PortInfo {
        mixed_port: match base.mixed_port {
            Some(port) => port,
            None => over.mixed_port,
        },
        http_port: port_or(base.port, over.http_port),
        socks_port: port_or(base.socks_port, over.socks_port),
    }
}

/// The start that `base` and `over` give in `work_dir`, or the failure of
/// the derivation.
pub open spec fn start_for(
    base: BaseConfigView,
    work_dir: Seq<char>,
    over: ProfileOverrideView,
) -> Result<EngineStartView, FfiErrorView> {
    match derivation(base, work_dir, over) {
        Ok(config) => Ok(
            EngineStartView { config, work_dir, ports: ports_for(base.inbound, over) },
        ),
        Err(e) => Err(e),
    }
}

/// The view of a start or of the failure to prepare one.
pub open spec fn start_view(r: Result<EngineStart, FfiError>) -> Result<
    EngineStartView,
    FfiErrorView,
> {
    match r {
        Ok(start) => Ok(start@),
        Err(e) => Err(e@),
    }
}

/// Prepares the start of the engine in `work_dir`: derives its
/// configuration and the ports to report. A failure of the derivation is
/// returned before anything is started.
pub fn init_main(base: BaseConfig, work_dir: String, over: ProfileOverride) -> (r: Result<
    EngineStart,
    FfiError,
>)
    ensures
        start_view(r) == start_for(base@, work_dir@, over@),
{
    let mixed_port: u16 = match base.inbound.mixed_port {
        Some(port) => port,
        None => over.mixed_port,
    };
    let ports = PortInfo {
        mixed_port,
        http_port: choose_port(base.inbound.port, over.http_port),
        socks_port: choose_port(base.inbound.socks_port, over.socks_port),
    };
    match derive_config(base, work_dir.as_str(), &over) {
        Ok(config) => Ok(EngineStart { config, work_dir, ports }),
        Err(e) => Err(e),
    }
}

/// What a derived configuration gives when it is read as a file's
/// configuration again.
pub open spec fn as_base(config: ResolvedConfigView) -> BaseConfigView {
    BaseConfigView {
        inbound: config.inbound,
        nameserver: config.dns.nameserver,
        fallback: config.dns.fallback,
        dns_listen: Some(config.dns.listen),
    }
}

/// Two derivations from the same file configuration and override give the
/// same result, field for field.
pub proof fn derive_is_deterministic(
    base: BaseConfig,
    work_dir: Seq<char>,
    over: ProfileOverride,
    first: Result<ResolvedConfig, FfiError>,
    second: Result<ResolvedConfig, FfiError>,
)
    requires
        derivation_view(first) == derivation(base@, work_dir, over@),
        derivation_view(second) == derivation(base@, work_dir, over@),
    ensures
        derivation_view(first) == derivation_view(second),
{
}

/// Deriving again from a derived configuration, with the same override,
/// changes nothing.
pub proof fn derivation_is_idempotent(
    base: BaseConfigView,
    work_dir: Seq<char>,
    over: ProfileOverrideView,
)
    requires
        derivation(base, work_dir, over) is Ok,
    ensures
        derivation(as_base(derivation(base, work_dir, over)->Ok_0), work_dir, over) == derivation(
            base,
            work_dir,
            over,
        ),
{
    assert(default_nameservers().len() == 2);
    assert(default_fallback().len() == 2);
}

/// Name servers that the file lists are left as they are; an empty list is
/// replaced by the defaults of its tier: servers over TLS for the primary
/// list, servers over plain UDP for the fallback list.
pub proof fn name_servers_kept_or_defaulted(
    base: BaseConfigView,
    work_dir: Seq<char>,
    over: ProfileOverrideView,
)
    requires
        derivation(base, work_dir, over) is Ok,
    ensures
        ({
            let dns = derivation(base, work_dir, over)->Ok_0.dns;
            &&& base.nameserver.len() > 0 ==> dns.nameserver == base.nameserver
            &&& base.nameserver.len() == 0 ==> dns.nameserver == default_nameservers()
            &&& base.fallback.len() > 0 ==> dns.fallback == base.fallback
            &&& base.fallback.len() == 0 ==> dns.fallback == default_fallback()
        }),
        forall|i: int|
            0 <= i < default_nameservers().len() ==> (#[trigger] default_nameservers()[i]).transport
                == DnsTransport::Tls,
        forall|i: int|
            0 <= i < default_fallback().len() ==> (#[trigger] default_fallback()[i]).transport
                == DnsTransport::Udp,
{
}

/// Where synthetic addresses are asked for and their range is no network in
/// CIDR notation, the derivation fails with a configuration error and gives
/// no configuration; in every other case it gives one.
pub proof fn derivation_fails_on_bad_range_only(
    base: BaseConfigView,
    work_dir: Seq<char>,
    over: ProfileOverrideView,
)
    ensures
        over.fake_ip && !crate::cidr::is_cidr(over.fake_ip_range) ==> derivation(
            base,
            work_dir,
            over,
        ) == Err::<ResolvedConfigView, FfiErrorView>(bad_range(over.fake_ip_range)),
        !(over.fake_ip && !crate::cidr::is_cidr(over.fake_ip_range)) ==> derivation(
            base,
            work_dir,
            over,
        ) is Ok,
{
}

} // verus!
