//! Connections to Docker daemons, SSH hosts and Proxmox VE APIs: how each
//! endpoint is chosen and described, how SSH host keys are judged, and the
//! registry that gates every use on the connection's health.
use std::sync::Arc;
use vstd::prelude::*;
use crate::config::{Config, DockerHost, ProxmoxHost};
use crate::health::{ConnectionHealth, ConnectionStatus, HealthRegistry};
use crate::text::{decimal, owned, push_str, starts_with_seq, str_starts_with, u64_to_decimal};

verus! {

broadcast use vstd::seq_lib::group_seq_properties;

/// Where the host-key hint tells the operator to append the key.
pub const KNOWN_HOSTS_HINT_PATH: &'static str = "~/.ssh/known_hosts";

/// The command that records a host's key, with the port only when it is not 22.
pub open spec fn keyscan_hint(host: Seq<char>, port: u16) -> Seq<char> {
    if port == 22 {
        "ssh-keyscan -H "@ + host + " >> "@ + KNOWN_HOSTS_HINT_PATH@
    } else {
        "ssh-keyscan -H -p "@ + decimal(port as nat) + " "@ + host + " >> "@ + KNOWN_HOSTS_HINT_PATH@
    }
}

/// The `ssh-keyscan` command that adds the key of `host:port` to known_hosts.
pub fn ssh_keyscan_hint(host: &str, port: u16) -> (s: String)
    ensures
        s@ == keyscan_hint(host@, port),
{
    if port == 22 {
        let mut s = owned("ssh-keyscan -H ");
        push_str(&mut s, host);
        push_str(&mut s, " >> ");
        push_str(&mut s, KNOWN_HOSTS_HINT_PATH);
        s
    } else {
        let mut s = owned("ssh-keyscan -H -p ");
        let p = u64_to_decimal(port as u64);
        push_str(&mut s, p.as_str());
        push_str(&mut s, " ");
        push_str(&mut s, host);
        push_str(&mut s, " >> ");
        push_str(&mut s, KNOWN_HOSTS_HINT_PATH);
        s
    }
}

/// A server's public key as the SSH library holds it.
#[verifier::external_type_specification]
#[verifier::external_body]
pub struct ExPublicKey(russh::keys::key::PublicKey);

/// What the known_hosts file says of a server key.
#[derive(Debug)]
pub enum HostKeyCheck {
    /// The key is recorded for this host.
    Known,
    /// No key is recorded for this host.
    Unknown,
    /// A different key of the same kind is recorded, at this line.
    Changed { line: usize },
    /// The file could not be used; the reason.
    Failed(String),
}

/// Looks the server key of `host:port` up in the user's known_hosts file
/// (`russh::keys::check_known_hosts`). What comes back depends on that
/// file, so nothing is promised of it.
#[verifier::external_body]
fn known_hosts_check(host: &str, port: u16, key: &russh::keys::key::PublicKey) -> (r: HostKeyCheck) {
    match russh::keys::check_known_hosts(host, port, key) {
        Ok(true) => HostKeyCheck::Known,
        Ok(false) => HostKeyCheck::Unknown,
        Err(russh::keys::Error::KeyChanged { line }) => HostKeyCheck::Changed { line },
        Err(error) => HostKeyCheck::Failed(error.to_string()),
    }
}

/// The verdict on a server key: accepted when known, refused with a reason
/// (and for an unknown key, the command that records it) otherwise.
pub open spec fn host_key_verdict(host: Seq<char>, port: u16, check: HostKeyCheck) -> Result<
    bool,
    Seq<char>,
> {
    let at = host + ":"@ + decimal(port as nat);
    match check {
        HostKeyCheck::Known => Ok(true),
        HostKeyCheck::Unknown => Err(
            "SSH host key for "@ + at + " not found in known_hosts. Run: "@ + keyscan_hint(host, port),
        ),
        HostKeyCheck::Changed { line } => Err(
            "SSH HOST KEY CHANGED for "@ + at + " (known_hosts line "@ + decimal(line as nat)
                + "). Possible MITM attack. Remove the old key and re-verify manually."@,
        ),
        HostKeyCheck::Failed(reason) => Err(
            "SSH host key verification failed for "@ + at + ": "@ + reason@,
        ),
    }
}

/// Identifies the SSH server a session is opened to.
#[derive(Debug)]
pub struct SshClientHandler {
    pub host: String,
    pub port: u16,
}

impl SshClientHandler {
    /// A handler for `host:port`.
    pub fn new(host: String, port: u16) -> (h: Self)
        ensures
            h.host == host,
            h.port == port,
    {
        SshClientHandler { host, port }
    }

    /// Judges what known_hosts says of the server key.
    pub fn judge_host_key(&self, check: HostKeyCheck) -> (r: Result<bool, String>)
        ensures
            match host_key_verdict(self.host@, self.port, check) {
                Ok(b) => r == Ok::<bool, String>(b),
                Err(m) => r matches Err(e) && e@ == m,
            },
    {
        let mut at = owned(self.host.as_str());
        push_str(&mut at, ":");
        let p = u64_to_decimal(self.port as u64);
        push_str(&mut at, p.as_str());
        match check {
            HostKeyCheck::Known => Ok(true),
            HostKeyCheck::Unknown => {
                let mut m = owned("SSH host key for ");
                push_str(&mut m, at.as_str());
                push_str(&mut m, " not found in known_hosts. Run: ");
                let hint = ssh_keyscan_hint(self.host.as_str(), self.port);
                push_str(&mut m, hint.as_str());
                Err(m)
            },
            HostKeyCheck::Changed { line } => {
                let mut m = owned("SSH HOST KEY CHANGED for ");
                push_str(&mut m, at.as_str());
                push_str(&mut m, " (known_hosts line ");
                let l = u64_to_decimal(line as u64);
                push_str(&mut m, l.as_str());
                push_str(
                    &mut m,
                    "). Possible MITM attack. Remove the old key and re-verify manually.",
                );
                Err(m)
            },
            HostKeyCheck::Failed(reason) => {
                let mut m = owned("SSH host key verification failed for ");
                push_str(&mut m, at.as_str());
                push_str(&mut m, ": ");
                push_str(&mut m, reason.as_str());
                Err(m)
            },
        }
    }

    /// Checks the server key against the user's known_hosts file: accepted
    /// only when recorded for this host, refused with a reason otherwise.
    /// What the file says depends on the disk; the reply is the verdict on
    /// whatever it said.
    pub fn check_server_key(&self, key: &russh::keys::key::PublicKey) -> (r: Result<bool, String>)
        ensures
            r is Ok ==> r == Ok::<bool, String>(true),
            exists|c: HostKeyCheck|
                match #[trigger] host_key_verdict(self.host@, self.port, c) {
                    Ok(b) => r == Ok::<bool, String>(b),
                    Err(m) => r matches Err(e) && e@ == m,
                },
    {
        let check = known_hosts_check(self.host.as_str(), self.port, key);
        self.judge_host_key(check)
    }
}

/// How a Docker client reaches its daemon.
#[derive(Debug, Clone)]
pub enum DockerTransport {
    UnixSocket { path: String },
    Tcp { host: String, tls: bool },
    NamedPipe { path: String },
}

/// A one-line description of a transport.
pub open spec fn transport_text(t: DockerTransport) -> Seq<char> {
    match t {
        DockerTransport::UnixSocket { path } => "unix socket "@ + path@,
        DockerTransport::Tcp { host, tls } => if tls {
            "tcp "@ + host@ + " (tls configured)"@
        } else {
            "tcp "@ + host@
        },
        DockerTransport::NamedPipe { path } => "named pipe "@ + path@,
    }
}

/// Describes a transport for logs and diagnostics.
pub fn describe_transport(t: &DockerTransport) -> (s: String)
    ensures
        s@ == transport_text(*t),
{
    match t {
        DockerTransport::UnixSocket { path } => {
            let mut s = owned("unix socket ");
            push_str(&mut s, path.as_str());
            s
        },
        DockerTransport::Tcp { host, tls } => {
            let mut s = owned("tcp ");
            push_str(&mut s, host.as_str());
            if *tls {
                push_str(&mut s, " (tls configured)");
            }
            s
        },
        DockerTransport::NamedPipe { path } => {
            let mut s = owned("named pipe ");
            push_str(&mut s, path.as_str());
            s
        },
    }
}

/// `s` with every leading repetition of the nonempty `p` removed, as
/// `str::trim_start_matches` does.
pub open spec fn strip_all(s: Seq<char>, p: Seq<char>) -> Seq<char>
    decreases s.len(),
{
    if p.len() > 0 && starts_with_seq(s, p) {
        strip_all(s.skip(p.len() as int), p)
    } else {
        s
    }
}

fn strip_all_exec(s: &str, p: &str) -> (r: String)
    requires
        p@.len() > 0,
    ensures
        r@ == strip_all(s@, p@),
    decreases s@.len(),
{
    if str_starts_with(s, p) {
        let c = crate::text::chars_of(s);
        let pc = crate::text::chars_of(p);
        let rest = crate::text::string_of_range(c.as_slice(), pc.len(), c.len());
        assert(rest@ =~= s@.skip(p@.len() as int));
        strip_all_exec(rest.as_str(), p)
    } else {
        owned(s)
    }
}

/// The kinds of Docker endpoint.
#[derive(Debug, PartialEq, Eq, Structural, Clone, Copy)]
pub enum EndpointKind {
    Unix,
    TcpTls,
    TcpPlain,
}

/// The endpoint chosen for a Docker host: its kind and the socket path or
/// address, or the refusal.
pub open spec fn docker_plan(host: DockerHost) -> Result<(EndpointKind, Seq<char>), Seq<char>> {
    let h = host.host@;
    if starts_with_seq(h, "unix://"@) {
        Ok((EndpointKind::Unix, strip_all(h, "unix://"@)))
    } else if starts_with_seq(h, "tcp://"@) {
        if tls_complete(host) {
            Ok((EndpointKind::TcpTls, h))
        } else {
            Ok((EndpointKind::TcpPlain, h))
        }
    } else if starts_with_seq(h, "npipe://"@) {
        Err(named_pipe_message(h))
    } else {
        Err(invalid_docker_message(h))
    }
}

/// Where and how to connect to a Docker daemon.
#[derive(Debug, Clone)]
pub enum DockerEndpoint {
    /// A Unix socket at this path.
    Unix { socket_path: String },
    /// TCP with client certificate, key and CA.
    TcpTls { addr: String, key: String, cert: String, ca: String },
    /// Plain TCP.
    TcpPlain { addr: String },
}

/// Whether all three TLS files are configured.
pub open spec fn tls_complete(h: DockerHost) -> bool {
    h.key_path is Some && h.cert_path is Some && h.ca_path is Some
}

/// The refusal of an `npipe://` endpoint, which needs Windows.
pub open spec fn named_pipe_message(host: Seq<char>) -> Seq<char> {
    "Named pipe connections (npipe://) are only supported on Windows. Got: '"@ + host + "'"@
}

/// The refusal of a connection string with no known scheme.
pub open spec fn invalid_docker_message(host: Seq<char>) -> Seq<char> {
    "Invalid Docker connection string '"@ + host + "'. Expected unix://, tcp://, or npipe://"@
}

/// Chooses the endpoint of a Docker host from its connection string:
/// `unix://` gives a socket, `tcp://` gives TLS when key, certificate and
/// CA are all configured (plain TCP otherwise), `npipe://` is refused on
/// this platform and anything else is invalid.
pub fn docker_endpoint(host: &DockerHost) -> (r: Result<DockerEndpoint, String>)
    ensures
        match docker_plan(*host) {
            Ok(v) => r matches Ok(e) && endpoint_view(e) == v,
            Err(m) => r matches Err(e) && e@ == m,
        },
        starts_with_seq(host.host@, "unix://"@) ==> (r matches Ok(DockerEndpoint::Unix { socket_path })
            && socket_path@ == strip_all(host.host@, "unix://"@)),
        !starts_with_seq(host.host@, "unix://"@) && starts_with_seq(host.host@, "tcp://"@)
            && tls_complete(*host) ==> (r matches Ok(DockerEndpoint::TcpTls { addr, key, cert, ca })
            && addr@ == host.host@ && key@ == host.key_path->0@ && cert@ == host.cert_path->0@ && ca@
            == host.ca_path->0@),
        !starts_with_seq(host.host@, "unix://"@) && starts_with_seq(host.host@, "tcp://"@)
            && !tls_complete(*host) ==> (r matches Ok(DockerEndpoint::TcpPlain { addr }) && addr@
            == host.host@),
        !starts_with_seq(host.host@, "unix://"@) && !starts_with_seq(host.host@, "tcp://"@)
            && starts_with_seq(host.host@, "npipe://"@) ==> (r matches Err(m) && m@
            == named_pipe_message(host.host@)),
        !starts_with_seq(host.host@, "unix://"@) && !starts_with_seq(host.host@, "tcp://"@)
            && !starts_with_seq(host.host@, "npipe://"@) ==> (r matches Err(m) && m@
            == invalid_docker_message(host.host@)),
{
    proof {
        reveal_strlit("unix://");
    }
    let h = host.host.as_str();
    if str_starts_with(h, "unix://") {
        return Ok(DockerEndpoint::Unix { socket_path: strip_all_exec(h, "unix://") });
    }
    if str_starts_with(h, "tcp://") {
        match (&host.key_path, &host.cert_path, &host.ca_path) {
            (Some(key), Some(cert), Some(ca)) => {
                return Ok(
                    DockerEndpoint::TcpTls {
                        addr: owned(h),
                        key: owned(key.as_str()),
                        cert: owned(cert.as_str()),
                        ca: owned(ca.as_str()),
                    },
                );
            },
            _ => {
                return Ok(DockerEndpoint::TcpPlain { addr: owned(h) });
            },
        }
    }
    if str_starts_with(h, "npipe://") {
        let mut m = owned("Named pipe connections (npipe://) are only supported on Windows. Got: '");
        push_str(&mut m, h);
        push_str(&mut m, "'");
        return Err(m);
    }
    let mut m = owned("Invalid Docker connection string '");
    push_str(&mut m, h);
    push_str(&mut m, "'. Expected unix://, tcp://, or npipe://");
    Err(m)
}

/// The Docker API client.
#[verifier::external_type_specification]
#[verifier::external_body]
pub struct ExDocker(bollard::Docker);

/// Seconds a Docker request may take.
pub const DOCKER_TIMEOUT_SECS: u64 = 120;

/// A Docker API client with the endpoint and timeout it was made for.
struct DockerConnection {
    client: bollard::Docker,
    endpoint: DockerEndpoint,
    timeout_secs: u64,
}

/// `bollard::Docker::connect_with_unix` at the default API version: a client
/// for the socket at `path`, kept with the endpoint and timeout it was given,
/// or the error's text. Whether it fails depends on the disk (the socket file
/// must exist), so no clause states which outcome comes.
#[verifier::external_body]
fn connect_unix(path: &str, timeout_secs: u64) -> (r: Result<DockerConnection, String>)
    ensures
        r matches Ok(c) ==> (c.timeout_secs == timeout_secs && (c.endpoint matches DockerEndpoint::Unix {
            socket_path,
        } && socket_path@ == path@)),
{
    let endpoint = DockerEndpoint::Unix { socket_path: path.to_string() };
    bollard::Docker::connect_with_unix(path, timeout_secs, bollard::API_DEFAULT_VERSION)
        .map(|client| DockerConnection { client, endpoint, timeout_secs })
        .map_err(|error| error.to_string())
}

/// `bollard::Docker::connect_with_ssl` at the default API version: a TLS
/// client for `addr` with the given key, certificate and CA files, kept with
/// the endpoint and timeout it was given, or the error's text. Whether it
/// fails depends on those files, so no clause states which outcome comes.
#[verifier::external_body]
fn connect_tls(addr: &str, key: &str, cert: &str, ca: &str, timeout_secs: u64) -> (r: Result<DockerConnection, String>)
    ensures
        r matches Ok(c) ==> (c.timeout_secs == timeout_secs && (c.endpoint matches DockerEndpoint::TcpTls {
            addr: a,
            key: k,
            cert: ce,
            ca: cc,
        } && a@ == addr@ && k@ == key@ && ce@ == cert@ && cc@ == ca@)),
{
    let endpoint = DockerEndpoint::TcpTls { addr: addr.to_string(), key: key.to_string(), cert: cert.to_string(), ca: ca.to_string() };
    let (k, c, a) = (std::path::Path::new(key), std::path::Path::new(cert), std::path::Path::new(ca));
    bollard::Docker::connect_with_ssl(addr, k, c, a, timeout_secs, bollard::API_DEFAULT_VERSION)
        .map(|client| DockerConnection { client, endpoint, timeout_secs })
        .map_err(|error| error.to_string())
}

/// `bollard::Docker::connect_with_http` at the default API version: a plain
/// HTTP client for `addr`, kept with the endpoint and timeout it was given,
/// or the error's text; no clause states which outcome comes.
#[verifier::external_body]
fn connect_http(addr: &str, timeout_secs: u64) -> (r: Result<DockerConnection, String>)
    ensures
        r matches Ok(c) ==> (c.timeout_secs == timeout_secs && (c.endpoint matches DockerEndpoint::TcpPlain {
            addr: a,
        } && a@ == addr@)),
{
    let endpoint = DockerEndpoint::TcpPlain { addr: addr.to_string() };
    bollard::Docker::connect_with_http(addr, timeout_secs, bollard::API_DEFAULT_VERSION)
        .map(|client| DockerConnection { client, endpoint, timeout_secs })
        .map_err(|error| error.to_string())
}

/// The key, certificate and CA files of a TLS endpoint.
pub open spec fn endpoint_files(e: DockerEndpoint) -> Option<(Seq<char>, Seq<char>, Seq<char>)> {
    match e {
        DockerEndpoint::TcpTls { key, cert, ca, .. } => Some((key@, cert@, ca@)),
        _ => None,
    }
}

/// The key, certificate and CA files configured for a Docker host, when all
/// three are.
pub open spec fn host_files(h: DockerHost) -> Option<(Seq<char>, Seq<char>, Seq<char>)> {
    if tls_complete(h) {
        Some((h.key_path->0@, h.cert_path->0@, h.ca_path->0@))
    } else {
        None
    }
}

/// The warning for a `tcp://` host that names a certificate or key but not
/// all three TLS files, so that plain HTTP is used.
pub open spec fn partial_tls_warning(h: DockerHost) -> Option<Seq<char>> {
    if !starts_with_seq(h.host@, "unix://"@) && starts_with_seq(h.host@, "tcp://"@) && !tls_complete(h) && (
    h.cert_path is Some || h.key_path is Some) {
        Some(
            "Docker host '"@ + h.host@
                + "' has partial TLS config (cert_path/key_path set but ca_path missing). Falling back to unencrypted HTTP. Set all three (cert_path, key_path, ca_path) for TLS."@,
        )
    } else {
        None
    }
}

/// The warning to log when a Docker host falls back to plain HTTP because
/// its TLS files are incomplete.
pub fn docker_tls_warning(host: &DockerHost) -> (r: Option<String>)
    ensures
        match partial_tls_warning(*host) {
            Some(m) => r matches Some(w) && w@ == m,
            None => r is None,
        },
{
    let h = host.host.as_str();
    if str_starts_with(h, "unix://") || !str_starts_with(h, "tcp://") {
        return None;
    }
    if host.key_path.is_some() && host.cert_path.is_some() && host.ca_path.is_some() {
        return None;
    }
    if host.cert_path.is_none() && host.key_path.is_none() {
        return None;
    }
    let mut m = owned("Docker host '");
    push_str(&mut m, h);
    push_str(
        &mut m,
        "' has partial TLS config (cert_path/key_path set but ca_path missing). Falling back to unencrypted HTTP. Set all three (cert_path, key_path, ca_path) for TLS.",
    );
    Some(m)
}

/// The kind and the socket path or address of an endpoint.
pub open spec fn endpoint_view(e: DockerEndpoint) -> (EndpointKind, Seq<char>) {
    match e {
        DockerEndpoint::Unix { socket_path } => (EndpointKind::Unix, socket_path@),
        DockerEndpoint::TcpTls { addr, .. } => (EndpointKind::TcpTls, addr@),
        DockerEndpoint::TcpPlain { addr } => (EndpointKind::TcpPlain, addr@),
    }
}

/// The transport that an endpoint of this kind and address gives.
pub open spec fn endpoint_transport(kind: EndpointKind, addr: Seq<char>, t: DockerTransport) -> bool {
    match kind {
        EndpointKind::Unix => t matches DockerTransport::UnixSocket { path } && path@ == addr,
        EndpointKind::TcpTls => t matches DockerTransport::Tcp { host, tls } && host@ == addr && tls,
        EndpointKind::TcpPlain => t matches DockerTransport::Tcp { host, tls } && host@ == addr && !tls,
    }
}

/// The message for a client that could not be built, given the library's reason.
pub open spec fn docker_connect_message(kind: EndpointKind, addr: Seq<char>, reason: Seq<char>) -> Seq<
    char,
> {
    match kind {
        EndpointKind::Unix => "Failed to connect to Docker socket "@ + addr + ": "@ + reason,
        EndpointKind::TcpTls => "Failed to connect to Docker TLS endpoint "@ + addr + ": "@ + reason,
        EndpointKind::TcpPlain => "Failed to connect to Docker TCP endpoint "@ + addr + ": "@ + reason,
    }
}

/// A Docker client with the transport it uses.
#[derive(Debug, Clone)]
pub struct DockerClient {
    client: Arc<bollard::Docker>,
    endpoint: DockerEndpoint,
    timeout_secs: u64,
    transport: DockerTransport,
}

impl DockerClient {
    /// The transport of this client.
    pub closed spec fn transport_view(&self) -> DockerTransport {
        self.transport
    }

    /// The endpoint the client was made for.
    pub closed spec fn endpoint_view(&self) -> DockerEndpoint {
        self.endpoint
    }

    /// The request timeout the client was made with, in seconds.
    pub closed spec fn timeout_view(&self) -> u64 {
        self.timeout_secs
    }

    /// Builds a client for a configured Docker host. Errors come from
    /// `docker_endpoint`, or name the endpoint and the library's reason.
    pub fn new(host: &DockerHost) -> (r: Result<Self, String>)
        ensures
            match docker_plan(*host) {
                Err(m) => r matches Err(e) && e@ == m,
                Ok((kind, addr)) => match r {
                    Ok(c) => {
                        &&& endpoint_transport(kind, addr, c.transport_view())
                        &&& endpoint_view(c.endpoint_view()) == (kind, addr)
                        &&& endpoint_files(c.endpoint_view()) == if kind == EndpointKind::TcpTls {
                            host_files(*host)
                        } else {
                            None
                        }
                        &&& c.timeout_view() == DOCKER_TIMEOUT_SECS
                    },
                    Err(e) => exists|reason: Seq<char>| e@ == docker_connect_message(kind, addr, reason),
                },
            },
    {
        let ep = docker_endpoint(host);
        let ep = match ep {
            Err(m) => {
                return Err(m);
            },
            Ok(ep) => ep,
        };
        let connected = match &ep {
            DockerEndpoint::Unix { socket_path } => connect_unix(
                socket_path.as_str(),
                DOCKER_TIMEOUT_SECS,
            ),
            DockerEndpoint::TcpTls { addr, key, cert, ca } => connect_tls(
                addr.as_str(),
                key.as_str(),
                cert.as_str(),
                ca.as_str(),
                DOCKER_TIMEOUT_SECS,
            ),
            DockerEndpoint::TcpPlain { addr } => connect_http(addr.as_str(), DOCKER_TIMEOUT_SECS),
        };
        match connected {
            Err(reason) => {
                let mut m = match &ep {
                    DockerEndpoint::Unix { socket_path } => {
                        let mut m = owned("Failed to connect to Docker socket ");
                        push_str(&mut m, socket_path.as_str());
                        m
                    },
                    DockerEndpoint::TcpTls { addr, .. } => {
                        let mut m = owned("Failed to connect to Docker TLS endpoint ");
                        push_str(&mut m, addr.as_str());
                        m
                    },
                    DockerEndpoint::TcpPlain { addr } => {
                        let mut m = owned("Failed to connect to Docker TCP endpoint ");
                        push_str(&mut m, addr.as_str());
                        m
                    },
                };
                push_str(&mut m, ": ");
                push_str(&mut m, reason.as_str());
                assert(m@ == docker_connect_message(endpoint_view(ep).0, endpoint_view(ep).1, reason@));
                Err(m)
            },
            Ok(conn) => {
                let DockerConnection { client, endpoint, timeout_secs } = conn;
                let transport = match &endpoint {
                    DockerEndpoint::Unix { socket_path } => DockerTransport::UnixSocket {
                        path: owned(socket_path.as_str()),
                    },
                    DockerEndpoint::TcpTls { addr, .. } => DockerTransport::Tcp { host: owned(addr.as_str()), tls: true },
                    DockerEndpoint::TcpPlain { addr } => DockerTransport::Tcp { host: owned(addr.as_str()), tls: false },
                };
                Ok(DockerClient { client: Arc::new(client), endpoint, timeout_secs, transport })
            },
        }
    }

    /// The underlying API client.
    pub fn as_bollard(&self) -> &bollard::Docker {
        &*self.client
    }

    /// The endpoint the client was made for.
    pub fn endpoint(&self) -> (e: &DockerEndpoint)
        ensures
            *e == self.endpoint_view(),
    {
        &self.endpoint
    }

    /// The request timeout the client was made with, in seconds.
    pub fn timeout_secs(&self) -> (t: u64)
        ensures
            t == self.timeout_view(),
    {
        self.timeout_secs
    }

    /// The transport of this client.
    pub fn transport(&self) -> (t: &DockerTransport)
        ensures
            *t == self.transport_view(),
    {
        &self.transport
    }

    /// A one-line description of how this client connects.
    pub fn transport_summary(&self) -> (s: String)
        ensures
            s@ == transport_text(self.transport_view()),
    {
        describe_transport(&self.transport)
    }
}

/// The HTTP client of the Proxmox API.
#[verifier::external_type_specification]
#[verifier::external_body]
pub struct ExHttpClient(reqwest::Client);

/// Seconds a Proxmox API request may take.
pub const PROXMOX_TIMEOUT_SECS: u64 = 30;

/// An HTTP client with the settings it was built with.
#[derive(Debug, Clone)]
pub struct HttpClient {
    client: Arc<reqwest::Client>,
    accepts_invalid_certs: bool,
    timeout_secs: u64,
}

impl HttpClient {
    /// Whether certificates that do not verify are accepted.
    pub closed spec fn accepts_invalid_certs_view(&self) -> bool {
        self.accepts_invalid_certs
    }

    /// The request timeout in seconds.
    pub closed spec fn timeout_view(&self) -> u64 {
        self.timeout_secs
    }
}

/// `reqwest::Client::builder()` with `danger_accept_invalid_certs` and
/// `timeout` set from the arguments, then `build()`; the client is kept with
/// the two settings it was given. Building can fail (with the error's text)
/// when the TLS backend cannot be set up, which no clause states.
#[verifier::external_body]
fn build_http_client(accept_invalid_certs: bool, timeout_secs: u64) -> (r: Result<HttpClient, String>)
    ensures
        r matches Ok(c) ==> c.accepts_invalid_certs_view() == accept_invalid_certs && c.timeout_view()
            == timeout_secs,
{
    reqwest::Client::builder().danger_accept_invalid_certs(accept_invalid_certs).timeout(
        std::time::Duration::from_secs(timeout_secs),
    ).build().map(|client| HttpClient { client: Arc::new(client), accepts_invalid_certs: accept_invalid_certs, timeout_secs }).map_err(
        |error| error.to_string(),
    )
}

/// `s` without trailing `c` characters, as `str::trim_end_matches(c)` does.
pub open spec fn trim_end_char(s: Seq<char>, c: char) -> Seq<char>
    decreases s.len(),
{
    if s.len() > 0 && s.last() == c {
        trim_end_char(s.drop_last(), c)
    } else {
        s
    }
}

fn trim_end_char_exec(s: &str, c: char) -> (r: String)
    ensures
        r@ == trim_end_char(s@, c),
{
    let v = crate::text::chars_of(s);
    let mut j: usize = v.len();
    assert(v@.subrange(0, j as int) =~= v@);
    while j > 0 && v[j - 1] == c
        invariant
            j <= v@.len(),
            trim_end_char(s@, c) == trim_end_char(v@.subrange(0, j as int), c),
            v@ == s@,
        decreases j,
    {
        assert(v@.subrange(0, j as int).drop_last() =~= v@.subrange(0, j - 1));
        j = j - 1;
    }
    crate::text::string_of_range(v.as_slice(), 0, j)
}

/// The `Authorization` header value of an API token.
pub open spec fn token_header(token_id: Seq<char>, token_secret: Seq<char>) -> Seq<char> {
    "PVEAPIToken="@ + token_id + "="@ + token_secret
}

/// A client of one Proxmox VE API.
#[derive(Debug, Clone)]
pub struct ProxmoxClient {
    client: HttpClient,
    base_url: String,
    auth_header: String,
    node: Option<String>,
}

/// The error for a listing that names no node.
pub open spec fn no_node_message() -> Seq<char> {
    "Could not auto-detect Proxmox node name. Set 'node' in config."@
}

impl ProxmoxClient {
    /// The API base URL, without trailing slashes.
    pub closed spec fn base_url_view(&self) -> Seq<char> {
        self.base_url@
    }

    /// The `Authorization` header value.
    pub closed spec fn auth_header_view(&self) -> Seq<char> {
        self.auth_header@
    }

    /// Whether the HTTP client accepts certificates that do not verify.
    pub closed spec fn accepts_invalid_certs_view(&self) -> bool {
        self.client.accepts_invalid_certs_view()
    }

    /// The request timeout of the HTTP client, in seconds.
    pub closed spec fn timeout_view(&self) -> u64 {
        self.client.timeout_view()
    }

    /// The configured node, if any.
    pub closed spec fn node_view(&self) -> Option<Seq<char>> {
        match self.node {
            Some(n) => Some(n@),
            None => None,
        }
    }

    /// A client for a configured host: certificates are checked unless
    /// `verify_tls` is off, requests time out after thirty seconds, the URL
    /// loses its trailing slashes and the token becomes the header.
    pub fn new(host: &ProxmoxHost) -> (r: Result<Self, String>)
        ensures
            r matches Ok(c) ==> {
                &&& c.accepts_invalid_certs_view() == !host.verify_tls
                &&& c.timeout_view() == PROXMOX_TIMEOUT_SECS
                &&& c.base_url_view() == trim_end_char(host.url@, '/')
                &&& c.auth_header_view() == token_header(host.token_id@, host.token_secret@)
                &&& c.node_view() == match host.node {
                    Some(n) => Some(n@),
                    None => None,
                }
            },
            r matches Err(e) ==> exists|reason: Seq<char>|
                e@ == "Failed to build Proxmox HTTP client: "@ + reason,
    {
        let client = match build_http_client(!host.verify_tls, PROXMOX_TIMEOUT_SECS) {
            Ok(c) => c,
            Err(reason) => {
                let mut m = owned("Failed to build Proxmox HTTP client: ");
                push_str(&mut m, reason.as_str());
                return Err(m);
            },
        };
        let base_url = trim_end_char_exec(host.url.as_str(), '/');
        let mut auth_header = owned("PVEAPIToken=");
        push_str(&mut auth_header, host.token_id.as_str());
        push_str(&mut auth_header, "=");
        push_str(&mut auth_header, host.token_secret.as_str());
        let node = match &host.node {
            Some(n) => Some(owned(n.as_str())),
            None => None,
        };
        Ok(ProxmoxClient { client, base_url, auth_header, node })
    }

    /// The HTTP client.
    pub fn http(&self) -> &reqwest::Client {
        &*self.client.client
    }

    /// Whether the HTTP client accepts certificates that do not verify.
    pub fn accepts_invalid_certs(&self) -> (b: bool)
        ensures
            b == self.accepts_invalid_certs_view(),
    {
        self.client.accepts_invalid_certs
    }

    /// The request timeout of the HTTP client, in seconds.
    pub fn timeout_secs(&self) -> (t: u64)
        ensures
            t == self.timeout_view(),
    {
        self.client.timeout_secs
    }

    /// The `Authorization` header value.
    pub fn auth_header(&self) -> (h: &str)
        ensures
            h@ == self.auth_header_view(),
    {
        self.auth_header.as_str()
    }

    /// The full URL of an API path such as `/nodes`.
    pub fn api_url(&self, path: &str) -> (u: String)
        ensures
            u@ == self.base_url_view() + "/api2/json"@ + path@,
    {
        let mut u = owned(self.base_url.as_str());
        push_str(&mut u, "/api2/json");
        push_str(&mut u, path);
        u
    }

    /// The node to act on when no lookup is needed: the override, else the
    /// configured node; `None` means the first node of the cluster listing
    /// is to be used (see `node_from_listing`).
    pub fn resolve_node(&self, override_node: Option<&str>) -> (r: Option<String>)
        ensures
            match override_node {
                Some(o) => r matches Some(n) && n@ == o@,
                None => match self.node_view() {
                    Some(c) => r matches Some(n) && n@ == c,
                    None => r is None,
                },
            },
    {
        match override_node {
            Some(o) => Some(owned(o)),
            None => match &self.node {
                Some(n) => Some(owned(n.as_str())),
                None => None,
            },
        }
    }

    /// A one-line description: the URL and the node (`auto` when unset).
    pub fn connection_summary(&self) -> (s: String)
        ensures
            s@ == self.base_url_view() + " (node: "@ + match self.node_view() {
                Some(n) => n,
                None => "auto"@,
            } + ")"@,
    {
        let mut s = owned(self.base_url.as_str());
        push_str(&mut s, " (node: ");
        match &self.node {
            Some(n) => push_str(&mut s, n.as_str()),
            None => push_str(&mut s, "auto"),
        }
        push_str(&mut s, ")");
        s
    }
}

/// The node named by the first entry of the cluster's node listing.
pub fn node_from_listing(first_node: Option<&str>) -> (r: Result<String, String>)
    ensures
        match first_node {
            Some(n) => r matches Ok(x) && x@ == n@,
            None => r matches Err(e) && e@ == no_node_message(),
        },
{
    match first_node {
        Some(n) => Ok(owned(n)),
        None => Err(owned("Could not auto-detect Proxmox node name. Set 'node' in config.")),
    }
}

/// The API path of a task's status.
pub fn task_status_path(node: &str, upid: &str) -> (p: String)
    ensures
        p@ == "/nodes/"@ + node@ + "/tasks/"@ + upid@ + "/status"@,
{
    let mut p = owned("/nodes/");
    push_str(&mut p, node);
    push_str(&mut p, "/tasks/");
    push_str(&mut p, upid);
    push_str(&mut p, "/status");
    p
}

/// What to do after one poll of a Proxmox task.
#[derive(Debug)]
pub enum TaskPoll {
    /// The task ended; the outcome for the caller.
    Done(Result<String, String>),
    /// Poll again after the poll interval.
    Wait,
}

/// The outcome of a poll: a stopped task succeeded when its exit status is
/// `OK` and failed otherwise; a running task past its time limit timed out.
pub open spec fn task_outcome(
    status: Option<Seq<char>>,
    exit_status: Option<Seq<char>>,
    upid: Seq<char>,
    elapsed_nanos: u128,
    max_wait_secs: u64,
) -> Option<Result<Seq<char>, Seq<char>>> {
    let exit = match exit_status {
        Some(e) => e,
        None => "unknown"@,
    };
    if status == Some("stopped"@) {
        if exit == "OK"@ {
            Some(Ok("Task completed successfully (UPID: "@ + upid + ")"@))
        } else {
            Some(
                Err(
                    "Proxmox task failed with exit status '"@ + exit + "' (UPID: "@ + upid + ")"@,
                ),
            )
        }
    } else if elapsed_nanos > max_wait_secs * 1_000_000_000 {
        Some(
            Err(
                "Proxmox task timed out after "@ + decimal(max_wait_secs as nat) + "s (UPID: "@
                    + upid + "). Task may still be running."@,
            ),
        )
    } else {
        None
    }
}

/// Waiting on a task is bounded, whatever the task reports: for any status
/// other than `stopped` (running, unknown, missing) the decision does not
/// depend on the status; it waits while the time limit has not passed and
/// ends with the timed-out error once more than `max_wait_secs` seconds have
/// gone by. A stopped task always ends the wait, successfully exactly when
/// its exit status is `OK`.
pub proof fn law_task_wait_is_bounded(
    status: Option<Seq<char>>,
    other_status: Option<Seq<char>>,
    exit_status: Option<Seq<char>>,
    upid: Seq<char>,
    elapsed_nanos: u128,
    max_wait_secs: u64,
)
    ensures
        status != Some("stopped"@) && other_status != Some("stopped"@) ==> task_outcome(
            status,
            exit_status,
            upid,
            elapsed_nanos,
            max_wait_secs,
        ) == task_outcome(other_status, exit_status, upid, elapsed_nanos, max_wait_secs),
        status != Some("stopped"@) && elapsed_nanos > max_wait_secs * 1_000_000_000 ==> task_outcome(
            status,
            exit_status,
            upid,
            elapsed_nanos,
            max_wait_secs,
        ) == Some(
            Err::<Seq<char>, Seq<char>>(
                "Proxmox task timed out after "@ + decimal(max_wait_secs as nat) + "s (UPID: "@ + upid
                    + "). Task may still be running."@,
            ),
        ),
        status != Some("stopped"@) && elapsed_nanos <= max_wait_secs * 1_000_000_000 ==> task_outcome(
            status,
            exit_status,
            upid,
            elapsed_nanos,
            max_wait_secs,
        ) is None,
        status == Some("stopped"@) ==> task_outcome(status, exit_status, upid, elapsed_nanos, max_wait_secs) is Some,
        status == Some("stopped"@) ==> (task_outcome(status, exit_status, upid, elapsed_nanos, max_wait_secs)
            matches Some(Ok(_)) <==> exit_status == Some("OK"@)),
{
    reveal_strlit("unknown");
    reveal_strlit("OK");
    assert("unknown"@.len() == 7);
    assert("OK"@.len() == 2);
    if status == Some("stopped"@) {
        match exit_status {
            Some(e) => {},
            None => {
                assert("unknown"@ != "OK"@);
            },
        }
    }
}

/// Seconds between two polls of a Proxmox task.
pub const TASK_POLL_INTERVAL_SECS: u64 = 2;

/// Decides after one poll of task `upid`: `status` and `exit_status` are the
/// fields of the status reply, `elapsed_nanos` the time since waiting began.
pub fn task_poll(
    status: Option<&str>,
    exit_status: Option<&str>,
    upid: &str,
    elapsed_nanos: u128,
    max_wait_secs: u64,
) -> (r: TaskPoll)
    ensures
        match task_outcome(
            match status {
                Some(s) => Some(s@),
                None => None,
            },
            match exit_status {
                Some(e) => Some(e@),
                None => None,
            },
            upid@,
            elapsed_nanos,
            max_wait_secs,
        ) {
            None => r is Wait,
            Some(Ok(m)) => r matches TaskPoll::Done(Ok(x)) && x@ == m,
            Some(Err(m)) => r matches TaskPoll::Done(Err(x)) && x@ == m,
        },
{
    let stopped = match status {
        Some(s) => crate::text::str_eq(s, "stopped"),
        None => false,
    };
    if stopped {
        let exit = match exit_status {
            Some(e) => e,
            None => "unknown",
        };
        if crate::text::str_eq(exit, "OK") {
            let mut m = owned("Task completed successfully (UPID: ");
            push_str(&mut m, upid);
            push_str(&mut m, ")");
            return TaskPoll::Done(Ok(m));
        }
        let mut m = owned("Proxmox task failed with exit status '");
        push_str(&mut m, exit);
        push_str(&mut m, "' (UPID: ");
        push_str(&mut m, upid);
        push_str(&mut m, ")");
        return TaskPoll::Done(Err(m));
    }
    if elapsed_nanos > (max_wait_secs as u128) * 1_000_000_000 {
        let mut m = owned("Proxmox task timed out after ");
        let n = u64_to_decimal(max_wait_secs);
        push_str(&mut m, n.as_str());
        push_str(&mut m, "s (UPID: ");
        push_str(&mut m, upid);
        push_str(&mut m, "). Task may still be running.");
        return TaskPoll::Done(Err(m));
    }
    TaskPoll::Wait
}

/// One pooled SSH session: its handle, when it was opened and last used
/// (milliseconds), and how many channels are open on it.
#[derive(Debug)]
pub struct PooledSession<H> {
    pub handle: H,
    pub created_at: u64,
    pub last_used: u64,
    pub active_channels: usize,
}

/// Milliseconds from `then` to `now`, zero when `now` is earlier.
pub open spec fn since(now: int, then: int) -> int {
    if now >= then {
        now - then
    } else {
        0
    }
}

/// A session young enough to be used.
pub open spec fn within_lifetime(created_at: u64, now: u64, max_lifetime_secs: u64) -> bool {
    since(now as int, created_at as int) <= max_lifetime_secs * 1000
}

/// A session that is reused: below channel capacity and within its lifetime.
pub open spec fn eligible<H>(s: PooledSession<H>, now: u64, max_channels: usize, max_lifetime_secs: u64) -> bool {
    s.active_channels < max_channels && within_lifetime(s.created_at, now, max_lifetime_secs)
}

/// The session that gets the next channel: the eligible one with the
/// fewest open channels, the first of them on a tie.
pub open spec fn best_session<H>(
    s: Seq<PooledSession<H>>,
    now: u64,
    max_channels: usize,
    max_lifetime_secs: u64,
) -> Option<int>
    decreases s.len(),
{
    if s.len() == 0 {
        None
    } else {
        let b = best_session(s.drop_last(), now, max_channels, max_lifetime_secs);
        let i = s.len() - 1;
        if eligible(s[i], now, max_channels, max_lifetime_secs) && (b is None || s[i].active_channels
            < s[b->0].active_channels) {
            Some(i)
        } else {
            b
        }
    }
}

/// What `acquire` decided.
#[derive(Debug)]
pub enum Acquire {
    /// A channel was taken on the session at this position.
    Existing(usize),
    /// No session can take a channel but a new one may be opened.
    CreateNew,
    /// Every session is full and the pool is at its session limit.
    Wait,
}

/// The sessions of one SSH host and their limits. Channels are multiplexed
/// over sessions; a session is used for a limited time.
#[derive(Debug)]
pub struct SessionPool<H> {
    pub sessions: Vec<PooledSession<H>>,
    pub max_sessions: usize,
    pub max_channels_per_session: usize,
    pub max_lifetime_secs: u64,
    pub max_idle_time_secs: u64,
}

/// The session with one more channel, used at `now`.
pub open spec fn taken<H>(s: PooledSession<H>, now: u64) -> PooledSession<H> {
    PooledSession { active_channels: (s.active_channels + 1) as usize, last_used: now, ..s }
}

/// The session with one channel fewer (never below zero), used at `now`.
pub open spec fn returned<H>(s: PooledSession<H>, now: u64) -> PooledSession<H> {
    PooledSession {
        active_channels: if s.active_channels == 0 {
            0
        } else {
            (s.active_channels - 1) as usize
        },
        last_used: now,
        ..s
    }
}

/// A session that cleanup keeps: busy, or within both its lifetime and its
/// idle time.
pub open spec fn kept<H>(s: PooledSession<H>, now: u64, max_lifetime_secs: u64, max_idle_secs: u64) -> bool {
    s.active_channels > 0 || (within_lifetime(s.created_at, now, max_lifetime_secs) && since(
        now as int,
        s.last_used as int,
    ) <= max_idle_secs * 1000)
}

/// The total of open channels.
pub open spec fn channel_total<H>(s: Seq<PooledSession<H>>) -> nat
    decreases s.len(),
{
    if s.len() == 0 {
        0
    } else {
        channel_total(s.drop_last()) + s.last().active_channels as nat
    }
}

impl<H> SessionPool<H> {
    /// The sessions, oldest first.
    pub open spec fn view(&self) -> Seq<PooledSession<H>> {
        self.sessions@
    }

    /// An empty pool with the given limits.
    pub fn new(
        max_sessions: usize,
        max_channels_per_session: usize,
        max_lifetime_secs: u64,
        max_idle_time_secs: u64,
    ) -> (p: Self)
        ensures
            p@.len() == 0,
            p.max_sessions == max_sessions,
            p.max_channels_per_session == max_channels_per_session,
            p.max_lifetime_secs == max_lifetime_secs,
            p.max_idle_time_secs == max_idle_time_secs,
    {
        SessionPool {
            sessions: Vec::new(),
            max_sessions,
            max_channels_per_session,
            max_lifetime_secs,
            max_idle_time_secs,
        }
    }

    /// The session at position `i`.
    pub fn session(&self, i: usize) -> (s: &PooledSession<H>)
        requires
            i < self@.len(),
        ensures
            *s == self@[i as int],
    {
        &self.sessions[i]
    }

    fn fits(&self, s: &PooledSession<H>, now: u64) -> (b: bool)
        ensures
            b == within_lifetime(s.created_at, now, self.max_lifetime_secs),
    {
        let age = if now >= s.created_at {
            now - s.created_at
        } else {
            0
        };
        (age as u128) <= (self.max_lifetime_secs as u128) * 1000
    }

    /// Takes a channel at `now` on the eligible session with the fewest
    /// channels; when there is none, says whether a session may be opened.
    #[verifier::rlimit(40)]
    pub fn acquire(&mut self, now: u64) -> (r: Acquire)
        ensures
            final(self).max_sessions == old(self).max_sessions,
            final(self).max_channels_per_session == old(self).max_channels_per_session,
            final(self).max_lifetime_secs == old(self).max_lifetime_secs,
            final(self).max_idle_time_secs == old(self).max_idle_time_secs,
            match best_session(old(self)@, now, old(self).max_channels_per_session, old(self).max_lifetime_secs) {
                Some(i) => r == Acquire::Existing(i as usize) && final(self)@ == old(self)@.update(
                    i,
                    taken(old(self)@[i], now),
                ),
                None => final(self)@ == old(self)@ && (if old(self)@.len() < old(self).max_sessions {
                    r is CreateNew
                } else {
                    r is Wait
                }),
            },
    {
        let ghost s0 = self.sessions@;
        let mut best: Option<usize> = None;
        let mut i: usize = 0;
        assert(s0.take(0).len() == 0);
        while i < self.sessions.len()
            invariant
                i <= s0.len(),
                s0 == self.sessions@,
                match best {
                    None => best_session(
                        s0.take(i as int),
                        now,
                        self.max_channels_per_session,
                        self.max_lifetime_secs,
                    ) is None,
                    Some(b) => best_session(
                        s0.take(i as int),
                        now,
                        self.max_channels_per_session,
                        self.max_lifetime_secs,
                    ) == Some(b as int) && b < i,
                },
            decreases s0.len() - i,
        {
            let s = &self.sessions[i];
            assert(s0.take(i + 1).drop_last() =~= s0.take(i as int));
            if s.active_channels < self.max_channels_per_session && self.fits(s, now) {
                match best {
                    None => {
                        best = Some(i);
                    },
                    Some(b) => {
                        if s.active_channels < self.sessions[b].active_channels {
                            best = Some(i);
                        }
                    },
                }
            }
            i = i + 1;
        }
        assert(s0.take(i as int) =~= s0);
        proof {
            law_acquire_respects_capacity(s0, now, self.max_channels_per_session, self.max_lifetime_secs);
        }
        match best {
            Some(b) => {
                let mut sessions: Vec<PooledSession<H>> = Vec::new();
                std::mem::swap(&mut sessions, &mut self.sessions);
                let mut s = sessions.remove(b);
                s.active_channels = s.active_channels + 1;
                s.last_used = now;
                sessions.insert(b, s);
                assert(sessions@ =~= s0.update(b as int, taken(s0[b as int], now)));
                self.sessions = sessions;
                Acquire::Existing(b)
            },
            None => {
                if self.sessions.len() < self.max_sessions {
                    Acquire::CreateNew
                } else {
                    Acquire::Wait
                }
            },
        }
    }

    /// Adds a session opened at `created_at` with its first channel taken;
    /// returns its position.
    pub fn add_session(&mut self, handle: H, created_at: u64) -> (i: usize)
        requires
            old(self)@.len() < usize::MAX,
        ensures
            i == old(self)@.len(),
            final(self)@ == old(self)@.push(
                PooledSession { handle, created_at, last_used: created_at, active_channels: 1 },
            ),
            final(self).max_sessions == old(self).max_sessions,
            final(self).max_channels_per_session == old(self).max_channels_per_session,
            final(self).max_lifetime_secs == old(self).max_lifetime_secs,
            final(self).max_idle_time_secs == old(self).max_idle_time_secs,
    {
        let i = self.sessions.len();
        self.sessions.push(
            PooledSession { handle, created_at, last_used: created_at, active_channels: 1 },
        );
        i
    }

    /// Gives a channel back to the session at `index` at `now`. A broken
    /// session with no channel left is dropped. An index past the end is
    /// ignored.
    pub fn release(&mut self, index: usize, broken: bool, now: u64)
        ensures
            final(self).max_sessions == old(self).max_sessions,
            final(self).max_channels_per_session == old(self).max_channels_per_session,
            final(self).max_lifetime_secs == old(self).max_lifetime_secs,
            final(self).max_idle_time_secs == old(self).max_idle_time_secs,
            index >= old(self)@.len() ==> final(self)@ == old(self)@,
            index < old(self)@.len() ==> {
                let r = returned(old(self)@[index as int], now);
                if broken && r.active_channels == 0 {
                    final(self)@ == old(self)@.remove(index as int)
                } else {
                    final(self)@ == old(self)@.update(index as int, r)
                }
            },
    {
        if index >= self.sessions.len() {
            return;
        }
        let ghost s0 = self.sessions@;
        let mut sessions: Vec<PooledSession<H>> = Vec::new();
        std::mem::swap(&mut sessions, &mut self.sessions);
        let mut s = sessions.remove(index);
        s.active_channels = if s.active_channels == 0 {
            0
        } else {
            s.active_channels - 1
        };
        s.last_used = now;
        if !(broken && s.active_channels == 0) {
            sessions.insert(index, s);
            assert(sessions@ =~= s0.update(index as int, returned(s0[index as int], now)));
        }
        self.sessions = sessions;
    }

    fn keeps(&self, s: &PooledSession<H>, now: u64) -> (b: bool)
        ensures
            b == kept(*s, now, self.max_lifetime_secs, self.max_idle_time_secs),
    {
        if s.active_channels > 0 {
            return true;
        }
        let idle = if now >= s.last_used {
            now - s.last_used
        } else {
            0
        };
        self.fits(s, now) && (idle as u128) <= (self.max_idle_time_secs as u128) * 1000
    }

    /// Drops the idle sessions that are past their lifetime or idle time at
    /// `now`; sessions with open channels always stay. Returns how many
    /// were dropped.
    pub fn cleanup_stale_sessions(&mut self, now: u64) -> (removed: usize)
        ensures
            final(self)@ == old(self)@.filter(
                |s: PooledSession<H>| kept(s, now, old(self).max_lifetime_secs, old(self).max_idle_time_secs),
            ),
            removed == old(self)@.len() - final(self)@.len(),
            final(self).max_sessions == old(self).max_sessions,
            final(self).max_channels_per_session == old(self).max_channels_per_session,
            final(self).max_lifetime_secs == old(self).max_lifetime_secs,
            final(self).max_idle_time_secs == old(self).max_idle_time_secs,
    {
        let ghost s0 = self.sessions@;
        let ghost pred = |s: PooledSession<H>| kept(s, now, self.max_lifetime_secs, self.max_idle_time_secs);
        let mut sessions: Vec<PooledSession<H>> = Vec::new();
        std::mem::swap(&mut sessions, &mut self.sessions);
        let before = sessions.len();
        let mut out: Vec<PooledSession<H>> = Vec::new();
        let mut k: usize = 0;
        assert(s0.take(0).filter(pred) =~= Seq::<PooledSession<H>>::empty());
        while sessions.len() > 0
            invariant
                s0.len() == before,
                k + sessions@.len() == s0.len(),
                sessions@ == s0.skip(k as int),
                out@ == s0.take(k as int).filter(pred),
                out@.len() <= k,
                pred == (|s: PooledSession<H>| kept(s, now, self.max_lifetime_secs, self.max_idle_time_secs)),
            decreases sessions@.len(),
        {
            let s = sessions.remove(0);
            assert(s0.skip(k as int)[0] == s0[k as int]);
            assert(sessions@ =~= s0.skip(k + 1));
            assert(s0.take(k + 1).drop_last() =~= s0.take(k as int));
            assert(s0.take(k + 1).last() == s0[k as int]);
            let keep = self.keeps(&s, now);
            proof {
                assert(s0.take(k + 1) =~= s0.take(k as int).push(s0[k as int]));
                s0.take(k as int).lemma_filter_push(s0[k as int], pred);
            }
            if keep {
                out.push(s);
            }
            k = k + 1;
        }
        assert(s0.take(k as int) =~= s0);
        let removed = before - out.len();
        self.sessions = out;
        removed
    }

    /// Whether some session is still within its lifetime at `now`.
    pub fn has_live_session(&self, now: u64) -> (b: bool)
        ensures
            b == exists|i: int|
                0 <= i < self@.len() && within_lifetime(
                    (#[trigger] self@[i]).created_at,
                    now,
                    self.max_lifetime_secs,
                ),
    {
        let mut i: usize = 0;
        while i < self.sessions.len()
            invariant
                i <= self.sessions@.len(),
                forall|j: int|
                    0 <= j < i ==> !within_lifetime(
                        (#[trigger] self.sessions@[j]).created_at,
                        now,
                        self.max_lifetime_secs,
                    ),
            decreases self.sessions@.len() - i,
        {
            if self.fits(&self.sessions[i], now) {
                assert(within_lifetime(self@[i as int].created_at, now, self.max_lifetime_secs));
                return true;
            }
            i = i + 1;
        }
        false
    }

    /// Drops every session.
    pub fn close_all(&mut self)
        ensures
            final(self)@.len() == 0,
            final(self).max_sessions == old(self).max_sessions,
            final(self).max_channels_per_session == old(self).max_channels_per_session,
            final(self).max_lifetime_secs == old(self).max_lifetime_secs,
            final(self).max_idle_time_secs == old(self).max_idle_time_secs,
    {
        self.sessions = Vec::new();
    }

    /// The number of sessions.
    pub fn session_count(&self) -> (n: usize)
        ensures
            n == self@.len(),
    {
        self.sessions.len()
    }

    /// The number of open channels over all sessions (capped at `usize::MAX`).
    pub fn active_channel_count(&self) -> (n: usize)
        ensures
            n == if channel_total(self@) > usize::MAX {
                usize::MAX as nat
            } else {
                channel_total(self@)
            },
    {
        let mut total: usize = 0;
        let mut i: usize = 0;
        assert(self@.take(0) =~= Seq::<PooledSession<H>>::empty());
        while i < self.sessions.len()
            invariant
                i <= self@.len(),
                self@ == self.sessions@,
                total == if channel_total(self@.take(i as int)) > usize::MAX {
                    usize::MAX as nat
                } else {
                    channel_total(self@.take(i as int))
                },
            decreases self@.len() - i,
        {
            assert(self@.take(i + 1).drop_last() =~= self@.take(i as int));
            total = total.saturating_add(self.sessions[i].active_channels);
            i = i + 1;
        }
        assert(self@.take(i as int) =~= self@);
        total
    }
}

/// Taking a channel and giving it back (on a session that is not broken)
/// leaves every session's channel count as it was.
pub proof fn law_release_undoes_acquire<H>(s: Seq<PooledSession<H>>, i: int, t1: u64, t2: u64)
    requires
        0 <= i < s.len(),
        s[i].active_channels < usize::MAX,
    ensures
        ({
            let after = s.update(i, taken(s[i], t1));
            let back = after.update(i, returned(after[i], t2));
            &&& back.len() == s.len()
            &&& forall|j: int| 0 <= j < s.len() ==> #[trigger] back[j].active_channels == s[j].active_channels
            &&& forall|j: int| 0 <= j < s.len() && j != i ==> #[trigger] back[j] == s[j]
        }),
{
}

/// A channel is only ever taken on a session below its channel limit and
/// within its lifetime, and on one with the fewest open channels among
/// those (load balancing).
pub proof fn law_acquire_respects_capacity<H>(
    s: Seq<PooledSession<H>>,
    now: u64,
    max_channels: usize,
    max_lifetime_secs: u64,
)
    ensures
        best_session(s, now, max_channels, max_lifetime_secs) matches Some(i) ==> {
            &&& 0 <= i < s.len()
            &&& s[i].active_channels < max_channels
            &&& within_lifetime(s[i].created_at, now, max_lifetime_secs)
            &&& forall|j: int|
                0 <= j < s.len() && eligible(#[trigger] s[j], now, max_channels, max_lifetime_secs)
                    ==> s[i].active_channels <= s[j].active_channels
        },
        best_session(s, now, max_channels, max_lifetime_secs) is None ==> forall|j: int|
            0 <= j < s.len() ==> !eligible(#[trigger] s[j], now, max_channels, max_lifetime_secs),
    decreases s.len(),
{
    if s.len() > 0 {
        let t = s.drop_last();
        let last = s.len() - 1;
        law_acquire_respects_capacity(t, now, max_channels, max_lifetime_secs);
        assert forall|j: int| 0 <= j < t.len() implies #[trigger] t[j] == s[j] by {}
        let b = best_session(t, now, max_channels, max_lifetime_secs);
        if eligible(s[last], now, max_channels, max_lifetime_secs) && (b is None
            || s[last].active_channels < s[b->0].active_channels) {
            assert forall|j: int|
                0 <= j < s.len() && eligible(
                    #[trigger] s[j],
                    now,
                    max_channels,
                    max_lifetime_secs,
                ) implies s[last].active_channels <= s[j].active_channels by {
                if j < last {
                    assert(t[j] == s[j]);
                    assert(eligible(t[j], now, max_channels, max_lifetime_secs));
                }
            }
        } else {
            match b {
                Some(bi) => {
                    assert forall|j: int|
                        0 <= j < s.len() && eligible(
                            #[trigger] s[j],
                            now,
                            max_channels,
                            max_lifetime_secs,
                        ) implies s[bi].active_channels <= s[j].active_channels by {
                        if j < last {
                            assert(t[j] == s[j]);
                            assert(eligible(t[j], now, max_channels, max_lifetime_secs));
                        }
                    }
                    assert(t[bi] == s[bi]);
                },
                None => {
                    assert forall|j: int| 0 <= j < s.len() implies !eligible(
                        #[trigger] s[j],
                        now,
                        max_channels,
                        max_lifetime_secs,
                    ) by {
                        if j < last {
                            assert(t[j] == s[j]);
                            assert(!eligible(t[j], now, max_channels, max_lifetime_secs));
                        }
                    }
                },
            }
        }
    }
}

/// The position of the first entry named `name`.
pub open spec fn named_index<T>(s: Seq<(String, T)>, name: Seq<char>) -> Option<int> {
    if exists|i: int| 0 <= i < s.len() && (#[trigger] s[i]).0@ == name {
        Some(
            choose|i: int|
                0 <= i < s.len() && (#[trigger] s[i]).0@ == name && forall|j: int|
                    0 <= j < i ==> (#[trigger] s[j]).0@ != name,
        )
    } else {
        None
    }
}

/// The position of the first entry named `name`.
pub fn find_named<T>(v: &Vec<(String, T)>, name: &str) -> (r: Option<usize>)
    ensures
        match named_index(v@, name@) {
            Some(i) => r == Some(i as usize),
            None => r is None,
        },
        r matches Some(i) ==> i < v@.len() && v@[i as int].0@ == name@ && named_index(v@, name@)
            == Some(i as int),
{
    let mut i: usize = 0;
    while i < v.len()
        invariant
            i <= v@.len(),
            forall|k: int| 0 <= k < i ==> (#[trigger] v@[k]).0@ != name@,
        decreases v@.len() - i,
    {
        if crate::text::str_eq(v[i].0.as_str(), name) {
            proof {
                let c = choose|c: int|
                    0 <= c < v@.len() && (#[trigger] v@[c]).0@ == name@ && forall|j: int|
                        0 <= j < c ==> (#[trigger] v@[j]).0@ != name@;
                assert(v@[i as int].0@ == name@);
                if c < i {
                    assert(v@[c].0@ != name@);
                } else if c > i {
                    assert(v@[i as int].0@ != name@);
                }
            }
            return Some(i);
        }
        i = i + 1;
    }
    None
}

/// The health key of a connection: its kind, a colon and its name.
pub open spec fn health_key(kind: Seq<char>, name: Seq<char>) -> Seq<char> {
    kind + ":"@ + name
}

fn make_key(kind: &str, name: &str) -> (k: String)
    ensures
        k@ == health_key(kind@, name@),
{
    let mut k = owned(kind);
    push_str(&mut k, ":");
    push_str(&mut k, name);
    k
}

/// Whether `k` is the health key of one of the first `nd` Docker hosts, the
/// first `ns` SSH hosts or the first `np` Proxmox hosts of `config`.
pub open spec fn listed_key(config: Config, nd: int, ns: int, np: int, k: Seq<char>) -> bool {
    ||| exists|j: int| 0 <= j < nd && k == health_key("docker"@, #[trigger] config.docker.hosts@[j].0@)
    ||| exists|j: int| 0 <= j < ns && k == health_key("ssh"@, #[trigger] config.ssh.hosts@[j].0@)
    ||| exists|j: int| 0 <= j < np && k == health_key("proxmox"@, #[trigger] config.proxmox.hosts@[j].0@)
}

/// Whether `k` is the health key of a configured host.
pub open spec fn configured_key(config: Config, k: Seq<char>) -> bool {
    listed_key(
        config,
        config.docker.hosts@.len() as int,
        config.ssh.hosts@.len() as int,
        config.proxmox.hosts@.len() as int,
        k,
    )
}

/// What one health check of a connection led to.
#[derive(Debug)]
pub enum CheckReport {
    /// The check passed; whether the connection had not been connected.
    Healthy { recovered: bool },
    /// The check failed; the number of consecutive failures.
    Unhealthy { failures: u32 },
}

/// The clients of every configured host and the health of each connection.
#[derive(Debug)]
pub struct ConnectionManager {
    config: Config,
    docker_clients: Vec<(String, DockerClient)>,
    proxmox_clients: Vec<(String, ProxmoxClient)>,
    health: HealthRegistry,
}

impl ConnectionManager {
    /// The configuration.
    pub closed spec fn config_view(&self) -> Config {
        self.config
    }

    /// The health records.
    pub closed spec fn health_view(&self) -> HealthRegistry {
        self.health
    }

    /// The Docker clients by name.
    pub closed spec fn docker_view(&self) -> Seq<(String, DockerClient)> {
        self.docker_clients@
    }

    /// The Proxmox clients by name.
    pub closed spec fn proxmox_view(&self) -> Seq<(String, ProxmoxClient)> {
        self.proxmox_clients@
    }

    /// A manager for `config` with no client yet and every configured host
    /// registered as `Connecting`: Docker hosts, then SSH hosts, then
    /// Proxmox hosts.
    pub fn new(config: Config) -> (m: Self)
        ensures
            m.config_view() == config,
            m.docker_view().len() == 0,
            m.proxmox_view().len() == 0,
            forall|i: int|
                0 <= i < config.docker.hosts@.len() ==> #[trigger] m.health_view().has(
                    health_key("docker"@, config.docker.hosts@[i].0@),
                ),
            forall|i: int|
                0 <= i < config.ssh.hosts@.len() ==> #[trigger] m.health_view().has(
                    health_key("ssh"@, config.ssh.hosts@[i].0@),
                ),
            forall|i: int|
                0 <= i < config.proxmox.hosts@.len() ==> #[trigger] m.health_view().has(
                    health_key("proxmox"@, config.proxmox.hosts@[i].0@),
                ),
            forall|k: Seq<char>|
                m.health_view().has(k) ==> m.health_view().get(k).status == ConnectionStatus::Connecting,
            forall|k: Seq<char>| #[trigger] m.health_view().has(k) ==> configured_key(config, k),
    {
        let mut health = HealthRegistry::new();
        let mut i: usize = 0;
        while i < config.docker.hosts.len()
            invariant
                i <= config.docker.hosts@.len(),
                forall|j: int|
                    0 <= j < i ==> #[trigger] health.has(health_key("docker"@, config.docker.hosts@[j].0@)),
                forall|k: Seq<char>| health.has(k) ==> health.get(k).status == ConnectionStatus::Connecting,
                forall|k: Seq<char>| #[trigger] health.has(k) ==> listed_key(config, i as int, 0, 0, k),
            decreases config.docker.hosts@.len() - i,
        {
            let key = make_key("docker", config.docker.hosts[i].0.as_str());
            health.register(key.as_str());
            i = i + 1;
        }
        let mut i: usize = 0;
        while i < config.ssh.hosts.len()
            invariant
                i <= config.ssh.hosts@.len(),
                forall|j: int|
                    0 <= j < config.docker.hosts@.len() ==> #[trigger] health.has(
                        health_key("docker"@, config.docker.hosts@[j].0@),
                    ),
                forall|j: int| 0 <= j < i ==> #[trigger] health.has(health_key("ssh"@, config.ssh.hosts@[j].0@)),
                forall|k: Seq<char>| health.has(k) ==> health.get(k).status == ConnectionStatus::Connecting,
                forall|k: Seq<char>|
                    #[trigger] health.has(k) ==> listed_key(config, config.docker.hosts@.len() as int, i as int, 0, k),
            decreases config.ssh.hosts@.len() - i,
        {
            let key = make_key("ssh", config.ssh.hosts[i].0.as_str());
            health.register(key.as_str());
            i = i + 1;
        }
        let mut i: usize = 0;
        while i < config.proxmox.hosts.len()
            invariant
                i <= config.proxmox.hosts@.len(),
                forall|j: int|
                    0 <= j < config.docker.hosts@.len() ==> #[trigger] health.has(
                        health_key("docker"@, config.docker.hosts@[j].0@),
                    ),
                forall|j: int|
                    0 <= j < config.ssh.hosts@.len() ==> #[trigger] health.has(
                        health_key("ssh"@, config.ssh.hosts@[j].0@),
                    ),
                forall|j: int|
                    0 <= j < i ==> #[trigger] health.has(
                        health_key("proxmox"@, config.proxmox.hosts@[j].0@),
                    ),
                forall|k: Seq<char>| health.has(k) ==> health.get(k).status == ConnectionStatus::Connecting,
                forall|k: Seq<char>|
                    #[trigger] health.has(k) ==> listed_key(
                        config,
                        config.docker.hosts@.len() as int,
                        config.ssh.hosts@.len() as int,
                        i as int,
                        k,
                    ),
            decreases config.proxmox.hosts@.len() - i,
        {
            let key = make_key("proxmox", config.proxmox.hosts[i].0.as_str());
            health.register(key.as_str());
            i = i + 1;
        }
        ConnectionManager {
            config,
            docker_clients: Vec::new(),
            proxmox_clients: Vec::new(),
            health,
        }
    }

    /// The configuration.
    pub fn config(&self) -> (c: &Config)
        ensures
            *c == self.config_view(),
    {
        &self.config
    }

    /// The health records.
    pub fn health(&self) -> (h: &HealthRegistry)
        ensures
            *h == self.health_view(),
    {
        &self.health
    }

    /// Every Docker client by host name, whatever its connection's health
    /// (the health monitor probes them all).
    pub fn docker_clients(&self) -> (v: &Vec<(String, DockerClient)>)
        ensures
            v@ == self.docker_view(),
    {
        &self.docker_clients
    }

    /// Every Proxmox client by host name, whatever its connection's health.
    pub fn proxmox_clients(&self) -> (v: &Vec<(String, ProxmoxClient)>)
        ensures
            v@ == self.proxmox_view(),
    {
        &self.proxmox_clients
    }

    /// Stores the Docker client of host `name`.
    pub fn add_docker_client(&mut self, name: String, client: DockerClient)
        ensures
            final(self).docker_view() == old(self).docker_view().push((name, client)),
            final(self).proxmox_view() == old(self).proxmox_view(),
            final(self).health_view() == old(self).health_view(),
            final(self).config_view() == old(self).config_view(),
    {
        self.docker_clients.push((name, client));
    }

    /// Stores the Proxmox client of host `name`.
    pub fn add_proxmox_client(&mut self, name: String, client: ProxmoxClient)
        ensures
            final(self).proxmox_view() == old(self).proxmox_view().push((name, client)),
            final(self).docker_view() == old(self).docker_view(),
            final(self).health_view() == old(self).health_view(),
            final(self).config_view() == old(self).config_view(),
    {
        self.proxmox_clients.push((name, client));
    }

    /// The Docker client of host `name`, refused while its connection is
    /// `Disconnected` (as of `now`), or when no client exists.
    pub fn get_docker(&self, name: &str, now: u64) -> (r: Result<&DockerClient, String>)
        ensures
            ({
                let key = health_key("docker"@, name@);
                let h = self.health_view();
                if h.has(key) && h.get(key).status == ConnectionStatus::Disconnected {
                    r matches Err(e) && e@ == crate::health::unavailable_message(
                        h.get(key),
                        name@,
                        now as int,
                    )
                } else {
                    match named_index(self.docker_view(), name@) {
                        Some(i) => r == Ok::<&DockerClient, String>(&self.docker_view()[i].1),
                        None => r matches Err(e) && e@ == "Docker host '"@ + name@ + "' not configured"@,
                    }
                }
            }),
    {
        let key = make_key("docker", name);
        match self.health.check_available(key.as_str(), name, now) {
            Err(e) => Err(e),
            Ok(()) => match find_named(&self.docker_clients, name) {
                Some(i) => Ok(&self.docker_clients[i].1),
                None => {
                    let mut e = owned("Docker host '");
                    push_str(&mut e, name);
                    push_str(&mut e, "' not configured");
                    Err(e)
                },
            },
        }
    }

    /// The Proxmox client of host `name`, refused while its connection is
    /// `Disconnected` (as of `now`), or when no client exists.
    pub fn get_proxmox(&self, name: &str, now: u64) -> (r: Result<&ProxmoxClient, String>)
        ensures
            ({
                let key = health_key("proxmox"@, name@);
                let h = self.health_view();
                if h.has(key) && h.get(key).status == ConnectionStatus::Disconnected {
                    r matches Err(e) && e@ == crate::health::unavailable_message(
                        h.get(key),
                        name@,
                        now as int,
                    )
                } else {
                    match named_index(self.proxmox_view(), name@) {
                        Some(i) => r == Ok::<&ProxmoxClient, String>(&self.proxmox_view()[i].1),
                        None => r matches Err(e) && e@ == "Proxmox host '"@ + name@ + "' not configured"@,
                    }
                }
            }),
    {
        let key = make_key("proxmox", name);
        match self.health.check_available(key.as_str(), name, now) {
            Err(e) => Err(e),
            Ok(()) => match find_named(&self.proxmox_clients, name) {
                Some(i) => Ok(&self.proxmox_clients[i].1),
                None => {
                    let mut e = owned("Proxmox host '");
                    push_str(&mut e, name);
                    push_str(&mut e, "' not configured");
                    Err(e)
                },
            },
        }
    }

    /// Whether the health monitor skips the check of `key` this cycle.
    pub fn should_skip_health_check(&mut self, key: &str) -> (skip: bool)
        ensures
            old(self).health_view().has(key@) ==> {
                let h = old(self).health_view().get(key@);
                let (s, n) = crate::health::skip_step(h.skip_cycles, h.cycles_skipped);
                &&& skip == s
                &&& final(self).health_view().has(key@)
                &&& final(self).health_view().get(key@) == (crate::health::ConnectionHealth {
                    cycles_skipped: n,
                    ..h
                })
            },
            !old(self).health_view().has(key@) ==> !skip,
            forall|k: Seq<char>|
                k != key@ ==> final(self).health_view().has(k) == old(self).health_view().has(k),
            forall|k: Seq<char>|
                k != key@ && old(self).health_view().has(k) ==> final(self).health_view().get(k)
                    == old(self).health_view().get(k),
            final(self).docker_view() == old(self).docker_view(),
            final(self).proxmox_view() == old(self).proxmox_view(),
            final(self).config_view() == old(self).config_view(),
    {
        self.health.should_skip_health_check(key)
    }

    /// Records the outcome of a check of `key` at `now`: a pass marks the
    /// connection healthy, a failure counts against it (see
    /// `HealthRegistry::mark_healthy` and `mark_unhealthy`).
    pub fn record_check(&mut self, key: &str, outcome: Result<(), String>, now: u64) -> (r: CheckReport)
        ensures
            outcome is Ok ==> (r matches CheckReport::Healthy { recovered } && (old(self).health_view().has(key@) ==> {
                &&& recovered == (old(self).health_view().get(key@).status != ConnectionStatus::Connected)
                &&& final(self).health_view().has(key@)
                &&& final(self).health_view().get(key@) == (ConnectionHealth {
                    status: ConnectionStatus::Connected,
                    last_success: Some(now),
                    last_error: None,
                    consecutive_failures: 0,
                    skip_cycles: 0,
                    cycles_skipped: 0,
                })
            })),
            outcome matches Err(error) ==> (r matches CheckReport::Unhealthy { failures } && (old(
                self,
            ).health_view().has(key@) ==> {
                let f = old(self).health_view().get(key@).consecutive_failures;
                let nf = if f == u32::MAX {
                    f
                } else {
                    (f + 1) as u32
                };
                &&& failures == nf
                &&& final(self).health_view().has(key@)
                &&& final(self).health_view().get(key@) == (ConnectionHealth {
                    status: crate::health::status_after_failures(nf),
                    last_success: old(self).health_view().get(key@).last_success,
                    last_error: Some(error),
                    consecutive_failures: nf,
                    skip_cycles: crate::health::backoff(nf),
                    cycles_skipped: 0,
                })
            })),
            !old(self).health_view().has(key@) ==> final(self).health_view().view() == old(
                self,
            ).health_view().view() && match r {
                CheckReport::Healthy { recovered } => !recovered,
                CheckReport::Unhealthy { failures } => failures == 0,
            },
            forall|k: Seq<char>|
                k != key@ ==> final(self).health_view().has(k) == old(self).health_view().has(k),
            forall|k: Seq<char>|
                k != key@ && old(self).health_view().has(k) ==> final(self).health_view().get(k)
                    == old(self).health_view().get(k),
            final(self).docker_view() == old(self).docker_view(),
            final(self).proxmox_view() == old(self).proxmox_view(),
            final(self).config_view() == old(self).config_view(),
    {
        match outcome {
            Ok(()) => CheckReport::Healthy { recovered: self.health.mark_healthy(key, now) },
            Err(error) => CheckReport::Unhealthy { failures: self.health.mark_unhealthy(key, error) },
        }
    }

    /// The message for a host that cannot be used, as of `now`.
    pub fn disconnected_error_message(&self, key: &str, display_name: &str, now: u64) -> (m: String)
        ensures
            self.health_view().has(key@) ==> m@ == crate::health::unavailable_message(
                self.health_view().get(key@),
                display_name@,
                now as int,
            ),
            !self.health_view().has(key@) ==> m@ == crate::health::not_configured_message(
                display_name@,
            ),
    {
        self.health.disconnected_error_message(key, display_name, now)
    }

    /// The health gauge of `key`: 1 when connected, 0 otherwise.
    pub fn health_gauge(&self, key: &str) -> (g: i64)
        ensures
            g == (if self.health_view().has(key@) && self.health_view().get(key@).status
                == ConnectionStatus::Connected {
                1i64
            } else {
                0i64
            }),
    {
        if self.health.is_connected(key) {
            1
        } else {
            0
        }
    }
}

} // verus!
