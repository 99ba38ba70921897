//! What the server does with each frame of a control session, and what its
//! admin surface answers.

use vstd::prelude::*;
use vstd::string::StringExecFns;
use vstd::utf8::is_ascii_chars;
use crate::frame::data_frame;
use crate::frame::decode_data_frame;
use crate::frame::frame_parts;
use crate::frame::law_frame_round_trip;
use crate::laws::lemma_without_absent_clients;
use crate::manager::ServerState;
use crate::manager::Teardown;
use crate::protocol::configs_view;
use crate::protocol::infos_view;
use crate::protocol::text_of;
use crate::protocol::ClientInfo;
use crate::protocol::ClientInfoView;
use crate::protocol::TunnelConfig;
use crate::protocol::TunnelConfigView;
use crate::protocol::TunnelInfo;
use crate::protocol::TunnelInfoView;
use crate::protocol::TunnelType;
use crate::protocol::WsMessage;
use crate::protocol::WsMessageView;
use crate::registry::ClientStateView;
use crate::registry::Id;
use crate::registry::ManagerError;
use crate::registry::Registry;
use crate::table::entry_keys;
use crate::text::str_eq;
use crate::text::texts;

verus! {

/// What the session task has to do after a frame from its client.
#[derive(Debug, PartialEq, Eq)]
pub enum ServerAction {
    /// Nothing: the frame is dropped or needs no answer.
    Nothing,
    /// Send this message to the client.
    Reply(WsMessage),
    /// The client is registered under `client_id`.  Stop what `teardown`
    /// lists, open a tunnel for each request of `tunnels`, and report.
    Registered { client_id: String, tunnels: Vec<TunnelConfig>, teardown: Teardown },
    /// Write `payload` to the external socket of the connection `conn_id`.
    Deliver { conn_id: String, payload: Vec<u8> },
    /// The connection `conn_id` is forgotten: stop its pumps.
    Closed { conn_id: String },
}

/// A `ServerAction` as plain values.  Of `Registered` it keeps the id and
/// the requests; what is to be stopped is stated apart.
pub enum ServerActionView {
    Nothing,
    Reply(WsMessageView),
    Registered { client_id: Id, tunnels: Seq<TunnelConfigView> },
    Deliver { conn_id: Id, payload: Seq<u8> },
    Closed { conn_id: Id },
}

impl View for ServerAction {
    type V = ServerActionView;

    open spec fn view(&self) -> ServerActionView {
        match *self {
            ServerAction::Nothing => ServerActionView::Nothing,
            ServerAction::Reply(m) => ServerActionView::Reply(m@),
            ServerAction::Registered { client_id, tunnels, teardown } => ServerActionView::Registered {
                client_id: client_id@,
                tunnels: configs_view(tunnels@),
            },
            ServerAction::Deliver { conn_id, payload } => ServerActionView::Deliver {
                conn_id: conn_id@,
                payload: payload@,
            },
            ServerAction::Closed { conn_id } => ServerActionView::Closed { conn_id: conn_id@ },
        }
    }
}

/// The registry after the server has taken in the message `msg`.
pub open spec fn registry_after(r: Registry, msg: WsMessageView) -> Registry {
    match msg {
        WsMessageView::Register { client, tunnels } => r.with_client(client),
        WsMessageView::CloseConnection { conn_id } => r.without_connection(conn_id),
        _ => r,
    }
}

/// What the server does on the message `msg`.
///
/// A registration is carried out.  A ping is answered by a pong with the
/// same timestamp.  Data for a tracked connection is delivered, data for
/// any other is dropped.  The close of a tracked connection stops its
/// pumps.  Everything else is ignored.
pub open spec fn reaction(r: Registry, msg: WsMessageView) -> ServerActionView {
    match msg {
        WsMessageView::Register { client, tunnels } => ServerActionView::Registered {
            client_id: r.assigned_id(client),
            tunnels,
        },
        WsMessageView::Ping { timestamp } => ServerActionView::Reply(
            WsMessageView::Pong { timestamp },
        ),
        WsMessageView::Data { conn_id, data } => if r.connections.dom().contains(conn_id) {
            ServerActionView::Deliver { conn_id, payload: data }
        } else {
            ServerActionView::Nothing
        },
        WsMessageView::CloseConnection { conn_id } => if r.connections.dom().contains(conn_id) {
            ServerActionView::Closed { conn_id }
        } else {
            ServerActionView::Nothing
        },
        _ => ServerActionView::Nothing,
    }
}

/// What the server does on a binary frame: what it does on the `Data`
/// message that the frame stands for, and nothing where it stands for none.
pub open spec fn binary_reaction(r: Registry, frame: Seq<u8>) -> ServerActionView {
    match frame_parts(frame) {
        Some((conn_id, data)) => reaction(r, WsMessageView::Data { conn_id, data }),
        None => ServerActionView::Nothing,
    }
}

/// Takes in one control message of a session.
pub fn handle_message(state: &mut ServerState, msg: WsMessage) -> (action: ServerAction)
    requires
        old(state)@.wf(),
    ensures
        final(state)@.wf(),
        final(state)@ == registry_after(old(state)@, msg@),
        action@ == reaction(old(state)@, msg@),
        action matches ServerAction::Registered { teardown, .. } ==> teardown.accounts_for(
            old(state)@,
            final(state)@,
        ),
{
    match msg {
        WsMessage::Register { client, tunnels } => {
            let done = state.register_client(client);
            ServerAction::Registered {
                client_id: done.client_id,
                tunnels,
                teardown: done.teardown,
            }
        },
        WsMessage::Ping { timestamp } => ServerAction::Reply(WsMessage::Pong { timestamp }),
        WsMessage::Data { conn_id, data } => {
            if state.has_connection(conn_id.as_str()) {
                ServerAction::Deliver { conn_id, payload: data }
            } else {
                ServerAction::Nothing
            }
        },
        WsMessage::CloseConnection { conn_id } => {
            if state.close_connection(conn_id.as_str()) {
                ServerAction::Closed { conn_id }
            } else {
                ServerAction::Nothing
            }
        },
        _ => ServerAction::Nothing,
    }
}

/// Takes in one binary frame of a session.
pub fn handle_binary(state: &ServerState, frame: &[u8]) -> (action: ServerAction)
    ensures
        action@ == binary_reaction(state@, frame@),
{
    match decode_data_frame(frame) {
        None => ServerAction::Nothing,
        Some((conn_id, payload)) => {
            if state.has_connection(conn_id.as_str()) {
                ServerAction::Deliver { conn_id, payload }
            } else {
                ServerAction::Nothing
            }
        },
    }
}

/// Ends a control session: the client that registered in it, if any, is
/// removed with all that hangs on it.
pub fn end_session(state: &mut ServerState, client_id: Option<String>) -> (r: Option<Teardown>)
    requires
        old(state)@.wf(),
    ensures
        final(state)@.wf(),
        final(state)@ == match client_id {
            Some(id) => old(state)@.without_client(id@),
            None => old(state)@,
        },
        match r {
            Some(td) => client_id is Some && td.accounts_for(old(state)@, final(state)@),
            None => client_id is None,
        },
{
    match client_id {
        Some(id) => Some(state.remove_client(id.as_str())),
        None => None,
    }
}

/// A payload that arrives for a tracked connection is delivered to that
/// connection byte for byte, whether it comes as a `Data` message or as
/// the binary frame built for it.
pub proof fn law_payload_is_delivered_unchanged(r: Registry, conn_id: Id, payload: Seq<u8>)
    requires
        r.connections.dom().contains(conn_id),
    ensures
        reaction(r, WsMessageView::Data { conn_id, data: payload }) == (ServerActionView::Deliver {
            conn_id,
            payload,
        }),
        conn_id.len() == 36 && is_ascii_chars(conn_id) && payload.len() >= 1 ==> binary_reaction(
            r,
            data_frame(conn_id, payload),
        ) == (ServerActionView::Deliver { conn_id, payload }),
{
    if conn_id.len() == 36 && is_ascii_chars(conn_id) && payload.len() >= 1 {
        law_frame_round_trip(conn_id, payload);
    }
}

/// The answer to a registration that went through.
pub fn registration_reply(client_id: String, tunnels: Vec<TunnelInfo>) -> (msg: WsMessage)
    ensures
        msg@ == (WsMessageView::RegisterResponse {
            success: true,
            client_id: client_id@,
            tunnels: infos_view(tunnels@),
            message: None,
        }),
{
    WsMessage::RegisterResponse { success: true, client_id, tunnels, message: None }
}

/// The answer to a registration that failed, with the reason.
pub fn registration_failure(reason: String) -> (msg: WsMessage)
    ensures
        msg@ == (WsMessageView::RegisterResponse {
            success: false,
            client_id: Seq::empty(),
            tunnels: Seq::empty(),
            message: Some(reason@),
        }),
{
    let msg = WsMessage::RegisterResponse {
        success: false,
        client_id: String::new(),
        tunnels: Vec::new(),
        message: Some(reason),
    };
    assert(infos_view(Seq::<TunnelInfo>::empty()) =~= Seq::empty());
    msg
}

/// The message for the bytes `chunk` that the read pump of the connection
/// `conn_id` has taken from its external socket; the tunnel's counter of
/// bytes sent grows by their number.
pub fn forward_external(state: &mut ServerState, tunnel_id: &str, conn_id: &str, chunk: Vec<u8>) -> (msg:
    WsMessage)
    requires
        old(state)@.wf(),
    ensures
        final(state)@.wf(),
        final(state)@ == old(state)@.with_traffic(tunnel_id@, chunk@.len(), 0),
        msg@ == (WsMessageView::Data { conn_id: conn_id@, data: chunk@ }),
{
    state.record_sent(tunnel_id, chunk.len());
    WsMessage::Data { conn_id: conn_id.to_owned(), data: chunk }
}

/// How many bytes a pump reads at a time.
pub const READ_BUFFER_SIZE: usize = 8192;

/// The figures of `GET /status`.
#[derive(Debug, Clone, Copy, PartialEq, Eq)]
pub struct StatusSummary {
    pub clients: usize,
    pub tunnels: usize,
    pub connections: usize,
}

/// Counts what the registry holds.
pub fn get_status(state: &ServerState) -> (status: StatusSummary)
    ensures
        status.clients == state@.clients.dom().len(),
        status.tunnels == state@.tunnels.dom().len(),
        status.connections == state@.connections.dom().len(),
{
    StatusSummary {
        clients: state.client_count(),
        tunnels: state.tunnel_count(),
        connections: state.connection_count(),
    }
}

/// One line of `GET /api/clients`.
#[derive(Debug, PartialEq, Eq)]
pub struct ClientRow {
    pub info: ClientInfo,
    pub tunnels: usize,
}

/// A `ClientRow` as plain values.
pub struct ClientRowView {
    pub info: ClientInfoView,
    pub tunnels: nat,
}

impl View for ClientRow {
    type V = ClientRowView;

    open spec fn view(&self) -> ClientRowView {
        ClientRowView { info: self.info@, tunnels: self.tunnels as nat }
    }
}

/// The line that describes a client.
pub open spec fn client_row(client: ClientStateView) -> ClientRowView {
    ClientRowView { info: client.info, tunnels: client.tunnel_ids.len() }
}

/// One line of `GET /api/tunnels`: the tunnel's record with its counters
/// as they stand, and the name of its client.
#[derive(Debug, PartialEq, Eq)]
pub struct TunnelRow {
    pub info: TunnelInfo,
    pub client_name: String,
}

/// A `TunnelRow` as plain values.
pub struct TunnelRowView {
    pub info: TunnelInfoView,
    pub client_name: Seq<char>,
}

impl View for TunnelRow {
    type V = TunnelRowView;

    open spec fn view(&self) -> TunnelRowView {
        TunnelRowView { info: self.info@, client_name: self.client_name@ }
    }
}

/// The line that describes the tunnel stored under `t`.
pub open spec fn tunnel_row(r: Registry, t: Id) -> TunnelRowView {
    let tunnel = r.tunnels[t];
    let owner = tunnel.info.client_id;
    TunnelRowView {
        info: TunnelInfoView {
            bytes_sent: tunnel.bytes_sent,
            bytes_recv: tunnel.bytes_recv,
            ..tunnel.info
        },
        client_name: if r.clients.dom().contains(owner) {
            r.clients[owner].info.name
        } else {
            Seq::empty()
        },
    }
}

/// The ids of a run of client lines.
pub open spec fn client_row_ids(rows: Seq<ClientRow>) -> Seq<Id> {
    Seq::new(rows.len(), |i: int| rows[i]@.info.id)
}

/// The ids of a run of tunnel lines.
pub open spec fn tunnel_row_ids(rows: Seq<TunnelRow>) -> Seq<Id> {
    Seq::new(rows.len(), |i: int| rows[i]@.info.id)
}

/// `GET /api/clients`: one line for each registered client.
pub fn list_clients(state: &ServerState) -> (rows: Vec<ClientRow>)
    requires
        state@.wf(),
    ensures
        client_row_ids(rows@).no_duplicates(),
        client_row_ids(rows@).to_set() == state@.clients.dom(),
        forall|i: int|
            0 <= i < rows.len() ==> (#[trigger] rows[i])@ == client_row(
                state@.clients[rows[i]@.info.id],
            ),
{
    let entries = state.clients();
    let ghost keys = entry_keys(entries@);
    let mut rows: Vec<ClientRow> = Vec::new();
    let mut i: usize = 0;
    while i < entries.len()
        invariant
            i <= entries.len(),
            rows.len() == i,
            state@.wf(),
            keys == entry_keys(entries@),
            keys.to_set() == state@.clients.dom(),
            forall|j: int|
                0 <= j < entries.len() ==> (#[trigger] entries[j]).1@
                    == state@.clients[entries[j].0@],
            forall|j: int|
                0 <= j < i ==> (#[trigger] rows[j])@ == client_row(state@.clients[keys[j]])
                    && rows[j]@.info.id == keys[j],
        decreases entries.len() - i,
    {
        let ghost key = keys[i as int];
        assert(key == entries[i as int].0@);
        assert(keys.contains(key));
        assert(keys.to_set().contains(key));
        assert(state@.client_ok(key));
        let client = &entries[i].1;
        assert(texts(client.tunnel_ids@).len() == client.tunnel_ids@.len());
        rows.push(ClientRow { info: client.info.clone(), tunnels: client.tunnel_ids.len() });
        i += 1;
    }
    assert(client_row_ids(rows@) =~= keys);
    rows
}

/// `GET /api/tunnels`: one line for each live tunnel.
pub fn list_tunnels(state: &ServerState) -> (rows: Vec<TunnelRow>)
    requires
        state@.wf(),
    ensures
        tunnel_row_ids(rows@).no_duplicates(),
        tunnel_row_ids(rows@).to_set() == state@.tunnels.dom(),
        forall|i: int|
            0 <= i < rows.len() ==> (#[trigger] rows[i])@ == tunnel_row(
                state@,
                rows[i]@.info.id,
            ),
{
    let entries = state.tunnels();
    let ghost keys = entry_keys(entries@);
    let mut rows: Vec<TunnelRow> = Vec::new();
    let mut i: usize = 0;
    while i < entries.len()
        invariant
            i <= entries.len(),
            rows.len() == i,
            state@.wf(),
            keys == entry_keys(entries@),
            keys.to_set() == state@.tunnels.dom(),
            forall|j: int|
                0 <= j < entries.len() ==> (#[trigger] entries[j]).1@
                    == state@.tunnels[entries[j].0@],
            forall|j: int|
                0 <= j < i ==> (#[trigger] rows[j])@ == tunnel_row(state@, keys[j])
                    && rows[j]@.info.id == keys[j],
        decreases entries.len() - i,
    {
        let ghost key = keys[i as int];
        assert(key == entries[i as int].0@);
        assert(keys.contains(key));
        assert(keys.to_set().contains(key));
        assert(state@.tunnel_ok(key));
        let tunnel = &entries[i].1;
        let client_name = match state.client(tunnel.info.client_id.as_str()) {
            Some(owner) => owner.info.name,
            None => String::new(),
        };
        let mut info = tunnel.info.clone();
        info.bytes_sent = tunnel.bytes_sent;
        info.bytes_recv = tunnel.bytes_recv;
        rows.push(TunnelRow { info, client_name });
        i += 1;
    }
    assert(tunnel_row_ids(rows@) =~= keys);
    rows
}

/// The answer of an admin call: the HTTP status, and the code and message
/// of the body.
#[derive(Debug, PartialEq, Eq)]
pub struct ApiReply {
    pub status: u16,
    pub code: i32,
    pub message: String,
}

/// An `ApiReply` as plain values.
pub struct ApiReplyView {
    pub status: u16,
    pub code: i32,
    pub message: Seq<char>,
}

impl View for ApiReply {
    type V = ApiReplyView;

    open spec fn view(&self) -> ApiReplyView {
        ApiReplyView { status: self.status, code: self.code, message: self.message@ }
    }
}

/// The answer to a call that went through.
pub open spec fn reply_success() -> ApiReplyView {
    ApiReplyView { status: 200, code: 0, message: "success"@ }
}

/// The answer to a call that names something the registry does not hold.
pub open spec fn reply_not_found(message: Seq<char>) -> ApiReplyView {
    ApiReplyView { status: 404, code: 404, message }
}

/// The answer to a call that could not be carried out.
pub open spec fn reply_bad_request(message: Seq<char>) -> ApiReplyView {
    ApiReplyView { status: 400, code: 400, message }
}

/// The words for a refusal of the registry; `subject` is the id or port
/// the request named.
pub open spec fn refusal_text(e: ManagerError, subject: Seq<char>) -> Seq<char> {
    match e {
        ManagerError::TunnelNotFound => "隧道 "@ + subject + " 不存在"@,
        ManagerError::ClientNotFound => "客户端不存在"@,
        ManagerError::PortUnavailable => "端口 "@ + subject + " 不可用"@,
        ManagerError::TunnelIdTaken => "隧道 "@ + subject + " 已存在"@,
        ManagerError::NoAvailablePort => "没有可用端口"@,
    }
}

/// Puts a refusal of the registry into words.
pub fn refusal_message(e: ManagerError, subject: &str) -> (text: String)
    ensures
        text@ == refusal_text(e, subject@),
{
    match e {
        ManagerError::TunnelNotFound => String::from_str("隧道 ").concat(subject).concat(
            " 不存在",
        ),
        ManagerError::ClientNotFound => String::from_str("客户端不存在"),
        ManagerError::PortUnavailable => String::from_str("端口 ").concat(subject).concat(
            " 不可用",
        ),
        ManagerError::TunnelIdTaken => String::from_str("隧道 ").concat(subject).concat(
            " 已存在",
        ),
        ManagerError::NoAvailablePort => String::from_str("没有可用端口"),
    }
}

impl ApiReply {
    /// The answer to a call that went through.
    pub fn success() -> (reply: ApiReply)
        ensures
            reply@ == reply_success(),
    {
        ApiReply { status: 200, code: 0, message: String::from_str("success") }
    }

    /// The answer to a call that names something the registry does not
    /// hold.
    pub fn not_found(message: String) -> (reply: ApiReply)
        ensures
            reply@ == reply_not_found(message@),
    {
        ApiReply { status: 404, code: 404, message }
    }

    /// The answer to a call that could not be carried out.
    pub fn bad_request(message: String) -> (reply: ApiReply)
        ensures
            reply@ == reply_bad_request(message@),
    {
        ApiReply { status: 400, code: 400, message }
    }
}

/// `DELETE /api/tunnels/:id`: closes the tunnel, or answers that there is
/// none.
pub fn close_tunnel(state: &mut ServerState, tunnel_id: &str) -> (r: (ApiReply, Option<Teardown>))
    requires
        old(state)@.wf(),
    ensures
        final(state)@.wf(),
        final(state)@ == old(state)@.without_tunnel(tunnel_id@),
        match r.1 {
            Some(td) => old(state)@.tunnels.dom().contains(tunnel_id@) && r.0@ == reply_success()
                && td.accounts_for(old(state)@, final(state)@),
            None => !old(state)@.tunnels.dom().contains(tunnel_id@) && r.0@ == reply_not_found(
                refusal_text(ManagerError::TunnelNotFound, tunnel_id@),
            ),
        },
{
    match state.close_tunnel(tunnel_id) {
        Ok(td) => (ApiReply::success(), Some(td)),
        Err(e) => (ApiReply::not_found(refusal_message(e, tunnel_id)), None),
    }
}

/// `DELETE /api/clients/:id`: removes the client with all that hangs on
/// it, or answers that there is none.
pub fn disconnect_client(state: &mut ServerState, client_id: &str) -> (r: (
    ApiReply,
    Option<Teardown>,
))
    requires
        old(state)@.wf(),
    ensures
        final(state)@.wf(),
        final(state)@ == old(state)@.without_client(client_id@),
        match r.1 {
            Some(td) => old(state)@.clients.dom().contains(client_id@) && r.0@ == reply_success()
                && td.accounts_for(old(state)@, final(state)@),
            None => !old(state)@.clients.dom().contains(client_id@) && r.0@ == reply_not_found(
                refusal_text(ManagerError::ClientNotFound, client_id@),
            ),
        },
{
    if state.has_client(client_id) {
        let td = state.remove_client(client_id);
        (ApiReply::success(), Some(td))
    } else {
        proof {
            lemma_without_absent_clients(state@, set![client_id@]);
        }
        (ApiReply::not_found(refusal_message(ManagerError::ClientNotFound, client_id)), None)
    }
}

/// The body of `POST /api/clients/:id/tunnels`.
#[derive(Debug, PartialEq, Eq)]
pub struct AddTunnelRequest {
    /// `tcp` or `udp`; `tcp` where it is left out.
    pub tunnel_type: Option<String>,
    /// The address of the service on the client's side; the loopback
    /// address where it is left out.
    pub local_addr: Option<String>,
    /// The port of the service on the client's side.
    pub local_port: u16,
    /// The public port asked for, if any.
    pub server_port: Option<u16>,
    /// The tunnel's name, if it is to have one.
    pub name: Option<String>,
}

/// An `AddTunnelRequest` as plain values.
pub struct AddTunnelRequestView {
    pub tunnel_type: Option<Seq<char>>,
    pub local_addr: Option<Seq<char>>,
    pub local_port: u16,
    pub server_port: Option<u16>,
    pub name: Option<Seq<char>>,
}

impl View for AddTunnelRequest {
    type V = AddTunnelRequestView;

    open spec fn view(&self) -> AddTunnelRequestView {
        AddTunnelRequestView {
            tunnel_type: text_of(self.tunnel_type),
            local_addr: text_of(self.local_addr),
            local_port: self.local_port,
            server_port: self.server_port,
            name: text_of(self.name),
        }
    }
}

/// The tunnel request that the body of an admin call asks for.  Only the
/// word `udp` selects UDP.
pub open spec fn requested_config(body: AddTunnelRequestView) -> TunnelConfigView {
    TunnelConfigView {
        tunnel_type: if body.tunnel_type == Some("udp"@) {
            TunnelType::Udp
        } else {
            TunnelType::Tcp
        },
        local_addr: match body.local_addr {
            Some(a) => a,
            None => "127.0.0.1"@,
        },
        local_port: body.local_port,
        remote_port: body.server_port,
        name: body.name,
    }
}

impl AddTunnelRequest {
    /// The tunnel request that this body asks for.
    pub fn into_config(self) -> (config: TunnelConfig)
        ensures
            config@ == requested_config(self@),
    {
        let tunnel_type = match &self.tunnel_type {
            Some(word) => if str_eq(word.as_str(), "udp") {
                TunnelType::Udp
            } else {
                TunnelType::Tcp
            },
            None => TunnelType::Tcp,
        };
        let local_addr = match self.local_addr {
            Some(a) => a,
            None => String::from_str("127.0.0.1"),
        };
        TunnelConfig {
            tunnel_type,
            local_addr,
            local_port: self.local_port,
            remote_port: self.server_port,
            name: self.name,
        }
    }
}

/// `POST /api/clients/:id/tunnels`, before any port is bound: the request
/// to open a tunnel for, or the answer that the client is not connected.
pub fn add_client_tunnel(state: &ServerState, client_id: &str, body: AddTunnelRequest) -> (r: Result<
    TunnelConfig,
    ApiReply,
>)
    ensures
        match r {
            Ok(config) => state@.clients.dom().contains(client_id@) && config@ == requested_config(
                body@,
            ),
            Err(reply) => !state@.clients.dom().contains(client_id@) && reply@ == reply_not_found(
                "客户端不在线"@,
            ),
        },
{
    if state.has_client(client_id) {
        Ok(body.into_config())
    } else {
        Err(ApiReply::not_found(String::from_str("客户端不在线")))
    }
}

/// The message that tells a client of a tunnel the server has opened for
/// it on an admin's request.
pub fn tunnel_notice(info: &TunnelInfo) -> (msg: WsMessage)
    ensures
        msg@ == (WsMessageView::AddTunnel {
            request_id: info@.id,
            tunnel: TunnelConfigView {
                tunnel_type: info@.tunnel_type,
                local_addr: info@.local_addr,
                local_port: info@.local_port,
                remote_port: Some(info@.server_port),
                name: Some(info@.name),
            },
        }),
{
    WsMessage::AddTunnel {
        request_id: info.id.clone(),
        tunnel: TunnelConfig {
            tunnel_type: info.tunnel_type,
            local_addr: info.local_addr.clone(),
            local_port: info.local_port,
            remote_port: Some(info.server_port),
            name: Some(info.name.clone()),
        },
    }
}

} // verus!
