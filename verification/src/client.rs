//! The client's side of a control session: which tunnels it has been
//! given, which connections it serves, and what it does on each frame from
//! the server.

use vstd::prelude::*;
use vstd::string::StrSliceExecFns;
use vstd::string::StringExecFns;
use crate::frame::decode_data_frame;
use crate::frame::frame_parts;
use crate::laws::lemma_without_id;
use crate::manager::without;
use crate::protocol::clone_configs;
use crate::protocol::config_spelled;
use crate::protocol::configs_view;
use crate::protocol::infos_view;
use crate::protocol::text_of;
use crate::protocol::ClientInfo;
use crate::protocol::ClientInfoView;
use crate::protocol::TunnelConfig;
use crate::protocol::TunnelConfigView;
use crate::protocol::TunnelInfo;
use crate::protocol::TunnelInfoView;
use crate::protocol::WsMessage;
use crate::protocol::WsMessageView;
use crate::registry::Id;
use crate::sources::now_unix_seconds;
use crate::text::str_eq;
use crate::text::texts;

verus! {

/// How long the client waits after a session has ended before it connects
/// again, in seconds.
pub const RECONNECT_DELAY_SECS: u64 = 5;

/// How often the client sends a ping while a session is up, in seconds.
pub const HEARTBEAT_INTERVAL_SECS: u64 = 30;

/// Whether `s` ends with `suffix`.
pub open spec fn ends_with(s: Seq<char>, suffix: Seq<char>) -> bool {
    s.len() >= suffix.len() && s.subrange(s.len() - suffix.len(), s.len() as int) == suffix
}

/// `s` without the slashes at its end.
pub open spec fn without_trailing_slashes(s: Seq<char>) -> Seq<char>
    decreases s.len(),
{
    if s.len() > 0 && s.last() == '/' {
        without_trailing_slashes(s.drop_last())
    } else {
        s
    }
}

/// The address of the control endpoint of the server `server`: `server`
/// itself where it ends with `/tunnel`, and otherwise `server` without the
/// slashes at its end, followed by `/tunnel`.
pub open spec fn endpoint_of(server: Seq<char>) -> Seq<char> {
    if ends_with(server, "/tunnel"@) {
        server
    } else {
        without_trailing_slashes(server) + "/tunnel"@
    }
}

/// The address of the control endpoint of the server `server`.
pub fn tunnel_url(server: &str) -> (url: String)
    ensures
        url@ == endpoint_of(server@),
{
    let n = server.unicode_len();
    proof {
        reveal_strlit("/tunnel");
    }
    if n >= 7 && str_eq(server.substring_char(n - 7, n), "/tunnel") {
        return server.to_owned();
    }
    let mut end: usize = n;
    assert(server@.subrange(0, n as int) =~= server@);
    while end > 0 && server.get_char(end - 1) == '/'
        invariant
            end <= n,
            n == server@.len(),
            without_trailing_slashes(server@) == without_trailing_slashes(
                server@.subrange(0, end as int),
            ),
        decreases end,
    {
        assert(server@.subrange(0, end as int).drop_last() =~= server@.subrange(0, end - 1));
        end -= 1;
    }
    String::from_str(server.substring_char(0, end)).concat("/tunnel")
}

/// One address of one network interface of the machine.
#[derive(Debug, PartialEq, Eq)]
pub struct Interface {
    pub name: String,
    pub address: String,
    pub is_loopback: bool,
    pub is_ipv4: bool,
}

/// The address the client reports among those of `interfaces`, from
/// `from` on: the first IPv4 address that is not a loopback address.
pub open spec fn first_routable(interfaces: Seq<Interface>, from: int) -> Option<Seq<char>>
    decreases interfaces.len() - from,
{
    if from < 0 || from >= interfaces.len() {
        None
    } else if !interfaces[from].is_loopback && interfaces[from].is_ipv4 {
        Some(interfaces[from].address@)
    } else {
        first_routable(interfaces, from + 1)
    }
}

/// The address the client reports as its own: the first IPv4 address of
/// `interfaces` that is not a loopback address, and the loopback address
/// where there is none.
pub fn get_local_ip(interfaces: &Vec<Interface>) -> (ip: String)
    ensures
        ip@ == match first_routable(interfaces@, 0) {
            Some(address) => address,
            None => "127.0.0.1"@,
        },
{
    let mut i: usize = 0;
    while i < interfaces.len()
        invariant
            i <= interfaces.len(),
            first_routable(interfaces@, 0) == first_routable(interfaces@, i as int),
        decreases interfaces.len() - i,
    {
        if !interfaces[i].is_loopback && interfaces[i].is_ipv4 {
            return interfaces[i].address.clone();
        }
        i += 1;
    }
    String::from_str("127.0.0.1")
}

/// What the client knows of its own machine.
#[derive(Debug, PartialEq, Eq)]
pub struct HostFacts {
    pub version: String,
    pub os: String,
    pub arch: String,
    pub hostname: String,
    pub local_ip: String,
}

/// The requests that a run of texts spells, in their order; a text that
/// spells none is passed over.
pub open spec fn configs_spelled(texts: Seq<Seq<char>>) -> Seq<TunnelConfigView>
    decreases texts.len(),
{
    if texts.len() == 0 {
        Seq::empty()
    } else {
        let before = configs_spelled(texts.drop_last());
        match config_spelled(texts.last()) {
            Some(c) => before.push(c),
            None => before,
        }
    }
}

/// The tunnels that a run of records makes known, by id; of two records
/// with one id the later counts.
pub open spec fn known_tunnels(records: Seq<TunnelInfoView>) -> Map<Id, TunnelInfoView>
    decreases records.len(),
{
    if records.len() == 0 {
        Map::empty()
    } else {
        known_tunnels(records.drop_last()).insert(records.last().id, records.last())
    }
}

/// The record the client keeps of a tunnel that the server has opened for
/// it on an admin's request.
pub open spec fn pushed_tunnel(request_id: Id, config: TunnelConfigView) -> TunnelInfoView {
    TunnelInfoView {
        id: request_id,
        client_id: Seq::empty(),
        tunnel_type: config.tunnel_type,
        name: match config.name {
            Some(n) => n,
            None => Seq::empty(),
        },
        local_addr: config.local_addr,
        local_port: config.local_port,
        server_port: match config.remote_port {
            Some(p) => p,
            None => 0,
        },
        state: "active"@,
        bytes_sent: 0,
        bytes_recv: 0,
        created_at: Seq::empty(),
        last_active_at: Seq::empty(),
    }
}

/// What the session task has to do after a frame from the server.
#[derive(Debug, PartialEq, Eq)]
pub enum ClientAction {
    /// Nothing: the frame is dropped or needs no answer.
    Nothing,
    /// Dial the local service of the tunnel for the connection `conn_id`.
    Dial { tunnel_id: String, conn_id: String, local_addr: String, local_port: u16 },
    /// Write `payload` to the local socket of the connection `conn_id`.
    Deliver { conn_id: String, payload: Vec<u8> },
    /// The connection `conn_id` is forgotten: stop its pumps.
    Closed { conn_id: String },
    /// The server refused the registration: end the session.
    Abort { message: Option<String> },
}

/// A `ClientAction` as plain values.
pub enum ClientActionView {
    Nothing,
    Dial { tunnel_id: Id, conn_id: Id, local_addr: Seq<char>, local_port: u16 },
    Deliver { conn_id: Id, payload: Seq<u8> },
    Closed { conn_id: Id },
    Abort { message: Option<Seq<char>> },
}

impl View for ClientAction {
    type V = ClientActionView;

    open spec fn view(&self) -> ClientActionView {
        match *self {
            ClientAction::Nothing => ClientActionView::Nothing,
            ClientAction::Dial {
                tunnel_id,
                conn_id,
                local_addr,
                local_port,
            } => ClientActionView::Dial {
                tunnel_id: tunnel_id@,
                conn_id: conn_id@,
                local_addr: local_addr@,
                local_port,
            },
            ClientAction::Deliver { conn_id, payload } => ClientActionView::Deliver {
                conn_id: conn_id@,
                payload: payload@,
            },
            ClientAction::Closed { conn_id } => ClientActionView::Closed { conn_id: conn_id@ },
            ClientAction::Abort { message } => ClientActionView::Abort { message: text_of(message) },
        }
    }
}

/// The client as plain values.
#[verifier::ext_equal]
pub struct TunnelClientView {
    pub server_url: Seq<char>,
    pub client_info: ClientInfoView,
    pub tunnel_configs: Seq<TunnelConfigView>,
    pub tunnels: Map<Id, TunnelInfoView>,
    pub connections: Set<Id>,
}

impl TunnelClientView {
    /// The client once it knows the tunnel `info`.
    pub open spec fn with_tunnel(self, info: TunnelInfoView) -> Self {
        TunnelClientView { tunnels: self.tunnels.insert(info.id, info), ..self }
    }

    /// The client once it knows the tunnels `infos`, taken in in order.
    pub open spec fn with_tunnels(self, infos: Seq<TunnelInfoView>) -> Self
        decreases infos.len(),
    {
        if infos.len() == 0 {
            self
        } else {
            self.with_tunnels(infos.drop_last()).with_tunnel(infos.last())
        }
    }

    /// The client after the message `msg` from the server.
    pub open spec fn after(self, msg: WsMessageView) -> Self {
        match msg {
            WsMessageView::RegisterResponse { success, client_id, tunnels, message } => if success {
                self.with_tunnels(tunnels)
            } else {
                self
            },
            WsMessageView::CloseConnection { conn_id } => TunnelClientView {
                connections: self.connections.remove(conn_id),
                ..self
            },
            WsMessageView::AddTunnel { request_id, tunnel } => self.with_tunnel(
                pushed_tunnel(request_id, tunnel),
            ),
            WsMessageView::AddTunnelResponse { request_id, success, tunnel, message } => if success
                && tunnel is Some {
                self.with_tunnel(tunnel->0)
            } else {
                self
            },
            _ => self,
        }
    }

    /// What the client does on the message `msg` from the server.
    ///
    /// A refused registration ends the session.  A new connection on a
    /// known tunnel is dialled, one on an unknown tunnel is passed over.
    /// Data for a connection the client serves is delivered, data for any
    /// other is dropped.  The close of a connection the client serves
    /// stops its pumps.  Everything else is only taken note of.
    pub open spec fn reaction(self, msg: WsMessageView) -> ClientActionView {
        match msg {
            WsMessageView::RegisterResponse { success, client_id, tunnels, message } => if success {
                ClientActionView::Nothing
            } else {
                ClientActionView::Abort { message }
            },
            WsMessageView::NewConnection { tunnel_id, conn_id } => if self.tunnels.dom().contains(
                tunnel_id,
            ) {
                ClientActionView::Dial {
                    tunnel_id,
                    conn_id,
                    local_addr: self.tunnels[tunnel_id].local_addr,
                    local_port: self.tunnels[tunnel_id].local_port,
                }
            } else {
                ClientActionView::Nothing
            },
            WsMessageView::Data { conn_id, data } => if self.connections.contains(conn_id) {
                ClientActionView::Deliver { conn_id, payload: data }
            } else {
                ClientActionView::Nothing
            },
            WsMessageView::CloseConnection { conn_id } => if self.connections.contains(conn_id) {
                ClientActionView::Closed { conn_id }
            } else {
                ClientActionView::Nothing
            },
            _ => ClientActionView::Nothing,
        }
    }

    /// What the client does on a binary frame: what it does on the `Data`
    /// message that the frame stands for, and nothing where it stands for
    /// none.
    pub open spec fn binary_reaction(self, frame: Seq<u8>) -> ClientActionView {
        match frame_parts(frame) {
            Some((conn_id, data)) => self.reaction(WsMessageView::Data { conn_id, data }),
            None => ClientActionView::Nothing,
        }
    }
}

/// A lookup in `known_tunnels` is decided by the last record with the id.
proof fn lemma_known_tunnels_lookup(records: Seq<TunnelInfoView>, id: Id, j: int)
    requires
        0 <= j <= records.len(),
        forall|k: int| j <= k < records.len() ==> records[k].id != id,
    ensures
        known_tunnels(records).dom().contains(id) == known_tunnels(
            records.subrange(0, j),
        ).dom().contains(id),
        known_tunnels(records).dom().contains(id) ==> known_tunnels(records)[id] == known_tunnels(
            records.subrange(0, j),
        )[id],
    decreases records.len(),
{
    if j == records.len() {
        assert(records.subrange(0, j) =~= records);
    } else {
        let front = records.drop_last();
        lemma_known_tunnels_lookup(front, id, j);
        assert(front.subrange(0, j) =~= records.subrange(0, j));
    }
}

/// Whether `id` is among `ids`.
fn holds_id(ids: &Vec<String>, id: &str) -> (found: bool)
    ensures
        found == texts(ids@).contains(id@),
{
    let mut i: usize = 0;
    while i < ids.len()
        invariant
            i <= ids.len(),
            forall|j: int| 0 <= j < i ==> texts(ids@)[j] != id@,
        decreases ids.len() - i,
    {
        if str_eq(ids[i].as_str(), id) {
            assert(texts(ids@)[i as int] == id@);
            return true;
        }
        i += 1;
    }
    false
}

/// The client of a tunnel server.
pub struct TunnelClient {
    server_url: String,
    client_info: ClientInfo,
    tunnel_configs: Vec<TunnelConfig>,
    tunnels: Vec<TunnelInfo>,
    connections: Vec<String>,
}

impl View for TunnelClient {
    type V = TunnelClientView;

    closed spec fn view(&self) -> TunnelClientView {
        TunnelClientView {
            server_url: self.server_url@,
            client_info: self.client_info@,
            tunnel_configs: configs_view(self.tunnel_configs@),
            tunnels: known_tunnels(infos_view(self.tunnels@)),
            connections: texts(self.connections@).to_set(),
        }
    }
}

impl TunnelClient {
    /// A client for the server at `server` that calls itself `name` and
    /// asks for the tunnels that `tunnel_strs` spell.  A text that spells
    /// no tunnel is passed over.
    pub fn new(
        server: &str,
        name: &str,
        tunnel_strs: &Vec<String>,
        _token: Option<String>,
        host: HostFacts,
    ) -> (client: Self)
        ensures
            client@ == (TunnelClientView {
                server_url: server@,
                client_info: ClientInfoView {
                    id: Seq::empty(),
                    name: name@,
                    version: host.version@,
                    os: host.os@,
                    arch: host.arch@,
                    hostname: host.hostname@,
                    local_ip: host.local_ip@,
                },
                tunnel_configs: configs_spelled(texts(tunnel_strs@)),
                tunnels: Map::empty(),
                connections: Set::empty(),
            }),
    {
        let mut configs: Vec<TunnelConfig> = Vec::new();
        let mut i: usize = 0;
        assert(texts(tunnel_strs@).subrange(0, 0) =~= Seq::<Seq<char>>::empty());
        assert(configs_view(configs@) =~= Seq::<TunnelConfigView>::empty());
        while i < tunnel_strs.len()
            invariant
                i <= tunnel_strs.len(),
                configs_view(configs@) == configs_spelled(texts(tunnel_strs@).subrange(0, i as int)),
            decreases tunnel_strs.len() - i,
        {
            let ghost seen = texts(tunnel_strs@).subrange(0, i as int);
            let ghost next = texts(tunnel_strs@).subrange(0, i + 1);
            let ghost so_far = configs_view(configs@);
            assert(next.drop_last() =~= seen);
            assert(next.last() == tunnel_strs@[i as int]@);
            match TunnelConfig::parse(tunnel_strs[i].as_str()) {
                Some(config) => {
                    configs.push(config);
                    assert(configs_view(configs@) =~= so_far.push(config@));
                },
                None => {},
            }
            i += 1;
        }
        assert(texts(tunnel_strs@).subrange(0, tunnel_strs.len() as int) =~= texts(tunnel_strs@));
        let client = TunnelClient {
            server_url: server.to_owned(),
            client_info: ClientInfo {
                id: String::new(),
                name: name.to_owned(),
                version: host.version,
                os: host.os,
                arch: host.arch,
                hostname: host.hostname,
                local_ip: host.local_ip,
            },
            tunnel_configs: configs,
            tunnels: Vec::new(),
            connections: Vec::new(),
        };
        assert(infos_view(client.tunnels@) =~= Seq::<TunnelInfoView>::empty());
        assert(texts(client.connections@).to_set() =~= Set::<Id>::empty());
        client
    }

    /// The address of the server.
    pub fn server_url(&self) -> (url: String)
        ensures
            url@ == self@.server_url,
    {
        self.server_url.clone()
    }

    /// The message that opens a session: who the client is and which
    /// tunnels it asks for.
    pub fn register_message(&self) -> (msg: WsMessage)
        ensures
            msg@ == (WsMessageView::Register {
                client: self@.client_info,
                tunnels: self@.tunnel_configs,
            }),
    {
        WsMessage::Register {
            client: self.client_info.clone(),
            tunnels: clone_configs(&self.tunnel_configs),
        }
    }

    /// The record of the tunnel `tunnel_id`, if the client knows it.
    pub fn tunnel(&self, tunnel_id: &str) -> (found: Option<TunnelInfo>)
        ensures
            match found {
                Some(t) => self@.tunnels.dom().contains(tunnel_id@) && t@
                    == self@.tunnels[tunnel_id@],
                None => !self@.tunnels.dom().contains(tunnel_id@),
            },
    {
        let ghost records = infos_view(self.tunnels@);
        let mut j: usize = self.tunnels.len();
        while j > 0
            invariant
                j <= self.tunnels.len(),
                records == infos_view(self.tunnels@),
                forall|k: int| j <= k < records.len() ==> records[k].id != tunnel_id@,
            decreases j,
        {
            if str_eq(self.tunnels[j - 1].id.as_str(), tunnel_id) {
                proof {
                    lemma_known_tunnels_lookup(records, tunnel_id@, j as int);
                    let upto = records.subrange(0, j as int);
                    assert(upto.last() == records[j - 1]);
                    assert(known_tunnels(upto) == known_tunnels(upto.drop_last()).insert(
                        upto.last().id,
                        upto.last(),
                    ));
                }
                return Some(self.tunnels[j - 1].clone());
            }
            j -= 1;
        }
        proof {
            lemma_known_tunnels_lookup(records, tunnel_id@, 0);
            assert(records.subrange(0, 0) =~= Seq::<TunnelInfoView>::empty());
        }
        None
    }

    /// Whether the client serves the connection `conn_id`.
    pub fn has_connection(&self, conn_id: &str) -> (known: bool)
        ensures
            known == self@.connections.contains(conn_id@),
    {
        holds_id(&self.connections, conn_id)
    }

    fn learn_tunnel(&mut self, info: TunnelInfo)
        ensures
            final(self)@ == old(self)@.with_tunnel(info@),
    {
        let ghost before = infos_view(self.tunnels@);
        self.tunnels.push(info);
        proof {
            let now = infos_view(self.tunnels@);
            assert(now =~= before.push(info@));
            assert(now.drop_last() =~= before);
            assert(self@.tunnels =~= old(self)@.tunnels.insert(info@.id, info@));
        }
    }

    fn forget_connection(&mut self, conn_id: &str)
        ensures
            final(self)@ == (TunnelClientView {
                connections: old(self)@.connections.remove(conn_id@),
                ..old(self)@
            }),
    {
        let kept = without(&self.connections, conn_id);
        proof {
            lemma_without_id(texts(self.connections@), conn_id@);
            assert(texts(kept@).to_set() =~= texts(self.connections@).to_set().remove(conn_id@));
        }
        self.connections = kept;
    }

    /// Takes in one control message from the server.
    pub fn handle_message(&mut self, msg: WsMessage) -> (action: ClientAction)
        ensures
            final(self)@ == old(self)@.after(msg@),
            action@ == old(self)@.reaction(msg@),
    {
        match msg {
            WsMessage::RegisterResponse { success, client_id, tunnels, message } => {
                if success {
                    let mut i: usize = 0;
                    assert(infos_view(tunnels@).subrange(0, 0) =~= Seq::<TunnelInfoView>::empty());
                    while i < tunnels.len()
                        invariant
                            i <= tunnels.len(),
                            self@ == old(self)@.with_tunnels(
                                infos_view(tunnels@).subrange(0, i as int),
                            ),
                        decreases tunnels.len() - i,
                    {
                        let ghost next = infos_view(tunnels@).subrange(0, i + 1);
                        assert(next.drop_last() =~= infos_view(tunnels@).subrange(0, i as int));
                        assert(next.last() == tunnels@[i as int]@);
                        self.learn_tunnel(tunnels[i].clone());
                        i += 1;
                    }
                    assert(infos_view(tunnels@).subrange(0, tunnels.len() as int) =~= infos_view(
                        tunnels@,
                    ));
                    ClientAction::Nothing
                } else {
                    ClientAction::Abort { message }
                }
            },
            WsMessage::NewConnection { tunnel_id, conn_id } => self.handle_new_connection(
                tunnel_id,
                conn_id,
            ),
            WsMessage::Data { conn_id, data } => self.handle_data(conn_id, data),
            WsMessage::CloseConnection { conn_id } => self.handle_close(conn_id),
            WsMessage::AddTunnel { request_id, tunnel } => {
                let info = TunnelInfo {
                    id: request_id,
                    client_id: String::new(),
                    tunnel_type: tunnel.tunnel_type,
                    name: match tunnel.name {
                        Some(n) => n,
                        None => String::new(),
                    },
                    local_addr: tunnel.local_addr,
                    local_port: tunnel.local_port,
                    server_port: match tunnel.remote_port {
                        Some(p) => p,
                        None => 0,
                    },
                    state: String::from_str("active"),
                    bytes_sent: 0,
                    bytes_recv: 0,
                    created_at: String::new(),
                    last_active_at: String::new(),
                };
                self.learn_tunnel(info);
                ClientAction::Nothing
            },
            WsMessage::AddTunnelResponse { request_id, success, tunnel, message } => {
                if success {
                    match tunnel {
                        Some(info) => {
                            self.learn_tunnel(info);
                        },
                        None => {},
                    }
                }
                ClientAction::Nothing
            },
            _ => ClientAction::Nothing,
        }
    }

    /// Takes in one binary frame from the server.
    pub fn handle_binary(&self, frame: &[u8]) -> (action: ClientAction)
        ensures
            action@ == self@.binary_reaction(frame@),
    {
        match decode_data_frame(frame) {
            None => ClientAction::Nothing,
            Some((conn_id, payload)) => self.handle_data(conn_id, payload),
        }
    }

    /// What to do about a connection that the server has accepted on the
    /// tunnel `tunnel_id`: dial the tunnel's local service, or nothing
    /// where the client does not know the tunnel.
    pub fn handle_new_connection(&self, tunnel_id: String, conn_id: String) -> (action:
        ClientAction)
        ensures
            action@ == self@.reaction(
                WsMessageView::NewConnection { tunnel_id: tunnel_id@, conn_id: conn_id@ },
            ),
    {
        match self.tunnel(tunnel_id.as_str()) {
            None => ClientAction::Nothing,
            Some(tunnel) => ClientAction::Dial {
                tunnel_id,
                conn_id,
                local_addr: tunnel.local_addr,
                local_port: tunnel.local_port,
            },
        }
    }

    /// What to do with a payload for the connection `conn_id`: deliver it
    /// where the client serves that connection, drop it otherwise.
    pub fn handle_data(&self, conn_id: String, data: Vec<u8>) -> (action: ClientAction)
        ensures
            action@ == self@.reaction(WsMessageView::Data { conn_id: conn_id@, data: data@ }),
    {
        if self.has_connection(conn_id.as_str()) {
            ClientAction::Deliver { conn_id, payload: data }
        } else {
            ClientAction::Nothing
        }
    }

    /// Forgets the connection `conn_id` on the server's word.
    pub fn handle_close(&mut self, conn_id: String) -> (action: ClientAction)
        ensures
            final(self)@ == old(self)@.after(WsMessageView::CloseConnection { conn_id: conn_id@ }),
            action@ == old(self)@.reaction(WsMessageView::CloseConnection { conn_id: conn_id@ }),
    {
        let known = self.has_connection(conn_id.as_str());
        self.forget_connection(conn_id.as_str());
        if known {
            ClientAction::Closed { conn_id }
        } else {
            ClientAction::Nothing
        }
    }

    /// The local service of the connection `conn_id` has answered the
    /// dial: the client serves the connection from now on, and tells the
    /// server that it is ready.
    pub fn connection_opened(&mut self, tunnel_id: &str, conn_id: &str) -> (notice: WsMessage)
        ensures
            final(self)@ == (TunnelClientView {
                connections: old(self)@.connections.insert(conn_id@),
                ..old(self)@
            }),
            notice@ == (WsMessageView::ConnectionReady {
                tunnel_id: tunnel_id@,
                conn_id: conn_id@,
            }),
    {
        if !self.has_connection(conn_id) {
            let ghost before = texts(self.connections@);
            self.connections.push(conn_id.to_owned());
            proof {
                let now = texts(self.connections@);
                assert(now =~= before.push(conn_id@));
                assert forall|x: Id| now.to_set().contains(x) <==> before.to_set().insert(
                    conn_id@,
                ).contains(x) by {
                    if now.contains(x) {
                        let i = choose|i: int| 0 <= i < now.len() && now[i] == x;
                        if i < before.len() {
                            assert(before[i] == x);
                            assert(before.contains(x));
                        }
                    }
                    if before.contains(x) {
                        let i = choose|i: int| 0 <= i < before.len() && before[i] == x;
                        assert(now[i] == x);
                    }
                    if x == conn_id@ {
                        assert(now[before.len() as int] == x);
                    }
                }
                assert(now.to_set() =~= before.to_set().insert(conn_id@));
            }
        } else {
            assert(texts(self.connections@).to_set() =~= texts(self.connections@).to_set().insert(
                conn_id@,
            ));
        }
        WsMessage::ConnectionReady { tunnel_id: tunnel_id.to_owned(), conn_id: conn_id.to_owned() }
    }

    /// The local service of the connection `conn_id` could not be reached:
    /// the message that tells the server to close the connection.
    pub fn dial_failed(conn_id: &str) -> (notice: WsMessage)
        ensures
            notice@ == (WsMessageView::CloseConnection { conn_id: conn_id@ }),
    {
        WsMessage::CloseConnection { conn_id: conn_id.to_owned() }
    }

    /// One of the pumps of the connection `conn_id` has stopped: the
    /// client forgets the connection and tells the server so.
    pub fn connection_finished(&mut self, conn_id: &str) -> (notice: WsMessage)
        ensures
            final(self)@ == (TunnelClientView {
                connections: old(self)@.connections.remove(conn_id@),
                ..old(self)@
            }),
            notice@ == (WsMessageView::CloseConnection { conn_id: conn_id@ }),
    {
        self.forget_connection(conn_id);
        WsMessage::CloseConnection { conn_id: conn_id.to_owned() }
    }

    /// The message for the bytes `chunk` that the read pump of the
    /// connection `conn_id` has taken from its local socket.
    pub fn forward_local(conn_id: &str, chunk: Vec<u8>) -> (msg: WsMessage)
        ensures
            msg@ == (WsMessageView::Data { conn_id: conn_id@, data: chunk@ }),
    {
        WsMessage::Data { conn_id: conn_id.to_owned(), data: chunk }
    }

    /// The session has ended.  No connection outlives it: the client
    /// forgets them all and returns their ids, for their pumps to be
    /// stopped.  The tunnels it asked for stay as they are, to be asked
    /// for again after `RECONNECT_DELAY_SECS`.
    pub fn session_ended(&mut self) -> (stopped: Vec<String>)
        ensures
            final(self)@ == (TunnelClientView { connections: Set::empty(), ..old(self)@ }),
            texts(stopped@).to_set() == old(self)@.connections,
    {
        let mut stopped: Vec<String> = Vec::new();
        std::mem::swap(&mut self.connections, &mut stopped);
        assert(texts(self.connections@).to_set() =~= Set::<Id>::empty());
        stopped
    }
}

/// The ping that carries `timestamp`.
pub fn ping(timestamp: i64) -> (msg: WsMessage)
    ensures
        msg@ == (WsMessageView::Ping { timestamp }),
{
    WsMessage::Ping { timestamp }
}

/// The ping that carries the present time in seconds since the Unix epoch.
pub fn heartbeat() -> (msg: WsMessage)
    ensures
        msg@ is Ping,
{
    ping(now_unix_seconds())
}

} // verus!
