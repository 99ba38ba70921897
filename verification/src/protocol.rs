//! The control messages that the two peers exchange, and the records they
//! carry.

use vstd::prelude::*;
use vstd::slice::slice_to_vec;
use vstd::string::StrSliceExecFns;
use vstd::string::StringExecFns;
use crate::text::parse_port;
use crate::text::port_number;
use crate::text::split_on;
use crate::text::str_eq;

verus! {

/// The text of an optional string.
pub open spec fn text_of(o: Option<String>) -> Option<Seq<char>> {
    match o {
        Some(s) => Some(s@),
        None => None,
    }
}

/// Copies an optional string.
pub fn clone_text(o: &Option<String>) -> (r: Option<String>)
    ensures
        text_of(r) == text_of(*o),
{
    match o {
        Some(s) => Some(s.clone()),
        None => None,
    }
}

/// Copies a run of bytes.
pub fn clone_bytes(v: &Vec<u8>) -> (r: Vec<u8>)
    ensures
        r@ == v@,
{
    slice_to_vec(v.as_slice())
}

/// The transport that a tunnel forwards.
#[derive(Debug, Copy, PartialEq, Eq, Structural)]
pub enum TunnelType {
    Tcp,
    Udp,
}

impl Clone for TunnelType {
    fn clone(&self) -> (r: Self)
        ensures
            r == *self,
    {
        *self
    }
}

/// Who a client is.  The server assigns `id`; the rest is the client's own
/// account of itself.
#[derive(Debug, PartialEq, Eq)]
pub struct ClientInfo {
    pub id: String,
    pub name: String,
    pub version: String,
    pub os: String,
    pub arch: String,
    pub hostname: String,
    pub local_ip: String,
}

/// A `ClientInfo` as plain text.
pub struct ClientInfoView {
    pub id: Seq<char>,
    pub name: Seq<char>,
    pub version: Seq<char>,
    pub os: Seq<char>,
    pub arch: Seq<char>,
    pub hostname: Seq<char>,
    pub local_ip: Seq<char>,
}

impl View for ClientInfo {
    type V = ClientInfoView;

    open spec fn view(&self) -> ClientInfoView {
        ClientInfoView {
            id: self.id@,
            name: self.name@,
            version: self.version@,
            os: self.os@,
            arch: self.arch@,
            hostname: self.hostname@,
            local_ip: self.local_ip@,
        }
    }
}

impl Clone for ClientInfo {
    fn clone(&self) -> (r: Self)
        ensures
            r@ == self@,
    {
        ClientInfo {
            id: self.id.clone(),
            name: self.name.clone(),
            version: self.version.clone(),
            os: self.os.clone(),
            arch: self.arch.clone(),
            hostname: self.hostname.clone(),
            local_ip: self.local_ip.clone(),
        }
    }
}

/// What a client asks for: a local service to expose, and optionally the
/// public port and the name it would like.
#[derive(Debug, PartialEq, Eq)]
pub struct TunnelConfig {
    pub tunnel_type: TunnelType,
    pub local_addr: String,
    pub local_port: u16,
    pub remote_port: Option<u16>,
    pub name: Option<String>,
}

/// A `TunnelConfig` as plain values.
pub struct TunnelConfigView {
    pub tunnel_type: TunnelType,
    pub local_addr: Seq<char>,
    pub local_port: u16,
    pub remote_port: Option<u16>,
    pub name: Option<Seq<char>>,
}

impl View for TunnelConfig {
    type V = TunnelConfigView;

    open spec fn view(&self) -> TunnelConfigView {
        TunnelConfigView {
            tunnel_type: self.tunnel_type,
            local_addr: self.local_addr@,
            local_port: self.local_port,
            remote_port: self.remote_port,
            name: text_of(self.name),
        }
    }
}

impl Clone for TunnelConfig {
    fn clone(&self) -> (r: Self)
        ensures
            r@ == self@,
    {
        TunnelConfig {
            tunnel_type: self.tunnel_type,
            local_addr: self.local_addr.clone(),
            local_port: self.local_port,
            remote_port: self.remote_port,
            name: clone_text(&self.name),
        }
    }
}

/// The server's record of a live tunnel.
#[derive(Debug, PartialEq, Eq)]
pub struct TunnelInfo {
    pub id: String,
    pub client_id: String,
    pub tunnel_type: TunnelType,
    pub name: String,
    pub local_addr: String,
    pub local_port: u16,
    pub server_port: u16,
    pub state: String,
    pub bytes_sent: u64,
    pub bytes_recv: u64,
    pub created_at: String,
    pub last_active_at: String,
}

/// A `TunnelInfo` as plain values.
pub struct TunnelInfoView {
    pub id: Seq<char>,
    pub client_id: Seq<char>,
    pub tunnel_type: TunnelType,
    pub name: Seq<char>,
    pub local_addr: Seq<char>,
    pub local_port: u16,
    pub server_port: u16,
    pub state: Seq<char>,
    pub bytes_sent: u64,
    pub bytes_recv: u64,
    pub created_at: Seq<char>,
    pub last_active_at: Seq<char>,
}

impl View for TunnelInfo {
    type V = TunnelInfoView;

    open spec fn view(&self) -> TunnelInfoView {
        TunnelInfoView {
            id: self.id@,
            client_id: self.client_id@,
            tunnel_type: self.tunnel_type,
            name: self.name@,
            local_addr: self.local_addr@,
            local_port: self.local_port,
            server_port: self.server_port,
            state: self.state@,
            bytes_sent: self.bytes_sent,
            bytes_recv: self.bytes_recv,
            created_at: self.created_at@,
            last_active_at: self.last_active_at@,
        }
    }
}

impl Clone for TunnelInfo {
    fn clone(&self) -> (r: Self)
        ensures
            r@ == self@,
    {
        TunnelInfo {
            id: self.id.clone(),
            client_id: self.client_id.clone(),
            tunnel_type: self.tunnel_type,
            name: self.name.clone(),
            local_addr: self.local_addr.clone(),
            local_port: self.local_port,
            server_port: self.server_port,
            state: self.state.clone(),
            bytes_sent: self.bytes_sent,
            bytes_recv: self.bytes_recv,
            created_at: self.created_at.clone(),
            last_active_at: self.last_active_at.clone(),
        }
    }
}

/// The plain values of a run of tunnel requests.
pub open spec fn configs_view(v: Seq<TunnelConfig>) -> Seq<TunnelConfigView> {
    v.map_values(|c: TunnelConfig| c@)
}

/// The plain values of a run of tunnel records.
pub open spec fn infos_view(v: Seq<TunnelInfo>) -> Seq<TunnelInfoView> {
    v.map_values(|t: TunnelInfo| t@)
}

/// The plain values of an optional tunnel record.
pub open spec fn info_of(o: Option<TunnelInfo>) -> Option<TunnelInfoView> {
    match o {
        Some(t) => Some(t@),
        None => None,
    }
}

/// Copies a run of tunnel requests.
pub fn clone_configs(v: &Vec<TunnelConfig>) -> (r: Vec<TunnelConfig>)
    ensures
        configs_view(r@) == configs_view(v@),
{
    let mut r: Vec<TunnelConfig> = Vec::new();
    let mut i: usize = 0;
    while i < v.len()
        invariant
            i <= v.len(),
            r.len() == i,
            forall|j: int| 0 <= j < i ==> (#[trigger] r@[j])@ == v@[j]@,
        decreases v.len() - i,
    {
        r.push(v[i].clone());
        i += 1;
    }
    assert(configs_view(r@) =~= configs_view(v@));
    r
}

/// Copies a run of tunnel records.
pub fn clone_infos(v: &Vec<TunnelInfo>) -> (r: Vec<TunnelInfo>)
    ensures
        infos_view(r@) == infos_view(v@),
{
    let mut r: Vec<TunnelInfo> = Vec::new();
    let mut i: usize = 0;
    while i < v.len()
        invariant
            i <= v.len(),
            r.len() == i,
            forall|j: int| 0 <= j < i ==> (#[trigger] r@[j])@ == v@[j]@,
        decreases v.len() - i,
    {
        r.push(v[i].clone());
        i += 1;
    }
    assert(infos_view(r@) =~= infos_view(v@));
    r
}

/// One control message.  On the wire it is a JSON object whose `type` field
/// names the variant in snake case; `Data` also travels as a binary frame.
#[allow(inconsistent_fields)]
#[derive(Debug, PartialEq, Eq)]
pub enum WsMessage {
    Register { client: ClientInfo, tunnels: Vec<TunnelConfig> },
    RegisterResponse {
        success: bool,
        client_id: String,
        tunnels: Vec<TunnelInfo>,
        message: Option<String>,
    },
    NewConnection { tunnel_id: String, conn_id: String },
    ConnectionReady { tunnel_id: String, conn_id: String },
    Data { conn_id: String, data: Vec<u8> },
    CloseConnection { conn_id: String },
    Ping { timestamp: i64 },
    Pong { timestamp: i64 },
    Error { code: i32, message: String },
    AddTunnel { request_id: String, tunnel: TunnelConfig },
    AddTunnelResponse {
        request_id: String,
        success: bool,
        tunnel: Option<TunnelInfo>,
        message: Option<String>,
    },
}

/// A `WsMessage` as plain values.
#[allow(inconsistent_fields)]
pub enum WsMessageView {
    Register { client: ClientInfoView, tunnels: Seq<TunnelConfigView> },
    RegisterResponse {
        success: bool,
        client_id: Seq<char>,
        tunnels: Seq<TunnelInfoView>,
        message: Option<Seq<char>>,
    },
    NewConnection { tunnel_id: Seq<char>, conn_id: Seq<char> },
    ConnectionReady { tunnel_id: Seq<char>, conn_id: Seq<char> },
    Data { conn_id: Seq<char>, data: Seq<u8> },
    CloseConnection { conn_id: Seq<char> },
    Ping { timestamp: i64 },
    Pong { timestamp: i64 },
    Error { code: i32, message: Seq<char> },
    AddTunnel { request_id: Seq<char>, tunnel: TunnelConfigView },
    AddTunnelResponse {
        request_id: Seq<char>,
        success: bool,
        tunnel: Option<TunnelInfoView>,
        message: Option<Seq<char>>,
    },
}

impl View for WsMessage {
    type V = WsMessageView;

    open spec fn view(&self) -> WsMessageView {
        match *self {
            WsMessage::Register { client, tunnels } => WsMessageView::Register {
                client: client@,
                tunnels: configs_view(tunnels@),
            },
            WsMessage::RegisterResponse {
                success,
                client_id,
                tunnels,
                message,
            } => WsMessageView::RegisterResponse {
                success,
                client_id: client_id@,
                tunnels: infos_view(tunnels@),
                message: text_of(message),
            },
            WsMessage::NewConnection { tunnel_id, conn_id } => WsMessageView::NewConnection {
                tunnel_id: tunnel_id@,
                conn_id: conn_id@,
            },
            WsMessage::ConnectionReady { tunnel_id, conn_id } => WsMessageView::ConnectionReady {
                tunnel_id: tunnel_id@,
                conn_id: conn_id@,
            },
            WsMessage::Data { conn_id, data } => WsMessageView::Data {
                conn_id: conn_id@,
                data: data@,
            },
            WsMessage::CloseConnection { conn_id } => WsMessageView::CloseConnection {
                conn_id: conn_id@,
            },
            WsMessage::Ping { timestamp } => WsMessageView::Ping { timestamp },
            WsMessage::Pong { timestamp } => WsMessageView::Pong { timestamp },
            WsMessage::Error { code, message } => WsMessageView::Error {
                code,
                message: message@,
            },
            WsMessage::AddTunnel { request_id, tunnel } => WsMessageView::AddTunnel {
                request_id: request_id@,
                tunnel: tunnel@,
            },
            WsMessage::AddTunnelResponse {
                request_id,
                success,
                tunnel,
                message,
            } => WsMessageView::AddTunnelResponse {
                request_id: request_id@,
                success,
                tunnel: info_of(tunnel),
                message: text_of(message),
            },
        }
    }
}

impl Clone for WsMessage {
    fn clone(&self) -> (r: Self)
        ensures
            r@ == self@,
    {
        match self {
            WsMessage::Register { client, tunnels } => WsMessage::Register {
                client: client.clone(),
                tunnels: clone_configs(tunnels),
            },
            WsMessage::RegisterResponse {
                success,
                client_id,
                tunnels,
                message,
            } => WsMessage::RegisterResponse {
                success: *success,
                client_id: client_id.clone(),
                tunnels: clone_infos(tunnels),
                message: clone_text(message),
            },
            WsMessage::NewConnection { tunnel_id, conn_id } => WsMessage::NewConnection {
                tunnel_id: tunnel_id.clone(),
                conn_id: conn_id.clone(),
            },
            WsMessage::ConnectionReady { tunnel_id, conn_id } => WsMessage::ConnectionReady {
                tunnel_id: tunnel_id.clone(),
                conn_id: conn_id.clone(),
            },
            WsMessage::Data { conn_id, data } => WsMessage::Data {
                conn_id: conn_id.clone(),
                data: clone_bytes(data),
            },
            WsMessage::CloseConnection { conn_id } => WsMessage::CloseConnection {
                conn_id: conn_id.clone(),
            },
            WsMessage::Ping { timestamp } => WsMessage::Ping { timestamp: *timestamp },
            WsMessage::Pong { timestamp } => WsMessage::Pong { timestamp: *timestamp },
            WsMessage::Error { code, message } => WsMessage::Error {
                code: *code,
                message: message.clone(),
            },
            WsMessage::AddTunnel { request_id, tunnel } => WsMessage::AddTunnel {
                request_id: request_id.clone(),
                tunnel: tunnel.clone(),
            },
            WsMessage::AddTunnelResponse {
                request_id,
                success,
                tunnel,
                message,
            } => WsMessage::AddTunnelResponse {
                request_id: request_id.clone(),
                success: *success,
                tunnel: match tunnel {
                    Some(t) => Some(t.clone()),
                    None => None,
                },
                message: clone_text(message),
            },
        }
    }
}

/// The tunnel type that a word names.
pub open spec fn tunnel_type_named(word: Seq<char>) -> Option<TunnelType> {
    if word == "tcp"@ {
        Some(TunnelType::Tcp)
    } else if word == "udp"@ {
        Some(TunnelType::Udp)
    } else {
        None
    }
}

/// The request that the text `s` spells, if it spells one.
///
/// The text is split at every colon.  Three pieces are a type, a local port
/// and a remote port, the local address being the loopback address; four
/// pieces carry the local address in second place.  The type is `tcp` or
/// `udp`, each port a port number.  No other text spells a request.
pub open spec fn config_spelled(s: Seq<char>) -> Option<TunnelConfigView> {
    let pieces = split_on(s, ':');
    if pieces.len() == 3 {
        match (tunnel_type_named(pieces[0]), port_number(pieces[1]), port_number(pieces[2])) {
            (Some(t), Some(lp), Some(rp)) => Some(
                TunnelConfigView {
                    tunnel_type: t,
                    local_addr: "127.0.0.1"@,
                    local_port: lp,
                    remote_port: Some(rp),
                    name: None,
                },
            ),
            _ => None,
        }
    } else if pieces.len() == 4 {
        match (tunnel_type_named(pieces[0]), port_number(pieces[2]), port_number(pieces[3])) {
            (Some(t), Some(lp), Some(rp)) => Some(
                TunnelConfigView {
                    tunnel_type: t,
                    local_addr: pieces[1],
                    local_port: lp,
                    remote_port: Some(rp),
                    name: None,
                },
            ),
            _ => None,
        }
    } else {
        None
    }
}

/// Reads the name of a tunnel type.
fn parse_tunnel_type(word: &str) -> (t: Option<TunnelType>)
    ensures
        t == tunnel_type_named(word@),
{
    if str_eq(word, "tcp") {
        Some(TunnelType::Tcp)
    } else if str_eq(word, "udp") {
        Some(TunnelType::Udp)
    } else {
        None
    }
}

/// Splits `s` at every colon.
fn split_colons<'a>(s: &'a str) -> (pieces: Vec<&'a str>)
    ensures
        pieces.len() == split_on(s@, ':').len(),
        forall|j: int| 0 <= j < pieces.len() ==> (#[trigger] pieces@[j])@ == split_on(s@, ':')[j],
{
    let n = s.unicode_len();
    let mut pieces: Vec<&'a str> = Vec::new();
    let mut start: usize = 0;
    let mut i: usize = 0;
    let ghost mut done: Seq<Seq<char>> = Seq::empty();
    assert(s@.subrange(0, 0) =~= Seq::<char>::empty());
    assert(split_on(s@.subrange(0, 0), ':') =~= done.push(s@.subrange(0, 0)));
    while i < n
        invariant
            start <= i <= n,
            n == s@.len(),
            pieces.len() == done.len(),
            forall|j: int| 0 <= j < pieces.len() ==> (#[trigger] pieces@[j])@ == done[j],
            split_on(s@.subrange(0, i as int), ':') == done.push(
                s@.subrange(start as int, i as int),
            ),
        decreases n - i,
    {
        let c = s.get_char(i);
        let ghost seen = s@.subrange(0, i as int);
        let ghost next = s@.subrange(0, i + 1);
        assert(next.drop_last() =~= seen);
        assert(next.last() == c);
        if c == ':' {
            let piece = s.substring_char(start, i);
            pieces.push(piece);
            proof {
                done = done.push(s@.subrange(start as int, i as int));
                assert(s@.subrange(i + 1, i + 1) =~= Seq::<char>::empty());
            }
            start = i + 1;
        } else {
            assert(s@.subrange(start as int, i + 1) =~= s@.subrange(start as int, i as int).push(
                c,
            ));
            assert(split_on(next, ':') =~= done.push(s@.subrange(start as int, i + 1)));
        }
        i += 1;
    }
    assert(s@.subrange(0, n as int) =~= s@);
    let piece = s.substring_char(start, n);
    pieces.push(piece);
    pieces
}

impl TunnelConfig {
    /// Reads a request from its command-line form, `type:local_port:remote_port`
    /// or `type:local_addr:local_port:remote_port`.
    pub fn parse(s: &str) -> (r: Option<Self>)
        ensures
            match r {
                Some(c) => config_spelled(s@) == Some(c@),
                None => config_spelled(s@) is None,
            },
    {
        let pieces = split_colons(s);
        if pieces.len() == 3 {
            let t = parse_tunnel_type(pieces[0]);
            let lp = parse_port(pieces[1]);
            let rp = parse_port(pieces[2]);
            match (t, lp, rp) {
                (Some(t), Some(lp), Some(rp)) => Some(
                    TunnelConfig {
                        tunnel_type: t,
                        local_addr: String::from_str("127.0.0.1"),
                        local_port: lp,
                        remote_port: Some(rp),
                        name: None,
                    },
                ),
                _ => None,
            }
        } else if pieces.len() == 4 {
            let t = parse_tunnel_type(pieces[0]);
            let lp = parse_port(pieces[2]);
            let rp = parse_port(pieces[3]);
            match (t, lp, rp) {
                (Some(t), Some(lp), Some(rp)) => Some(
                    TunnelConfig {
                        tunnel_type: t,
                        local_addr: String::from_str(pieces[1]),
                        local_port: lp,
                        remote_port: Some(rp),
                        name: None,
                    },
                ),
                _ => None,
            }
        } else {
            None
        }
    }
}

} // verus!
