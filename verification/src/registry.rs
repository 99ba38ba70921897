//! The server's registry as a mathematical object: three maps keyed by id,
//! the port range and the client counter, with the rules that tie them
//! together and the steps that change them.

use vstd::prelude::*;
use crate::protocol::ClientInfoView;
use crate::protocol::TunnelConfigView;
use crate::protocol::TunnelInfoView;
use crate::text::decimal;

verus! {

/// The text of an id.
pub type Id = Seq<char>;

/// A registered client: who it is and which tunnels it owns.
pub struct ClientStateView {
    pub info: ClientInfoView,
    pub tunnel_ids: Seq<Id>,
}

/// A live tunnel: its record and its two traffic counters.
pub struct TunnelStateView {
    pub info: TunnelInfoView,
    pub bytes_sent: u64,
    pub bytes_recv: u64,
}

/// A tracked external connection: the tunnel it came in on and that
/// tunnel's client.
pub struct ConnectionStateView {
    pub tunnel_id: Id,
    pub client_id: Id,
}

/// The whole registry.
#[verifier::ext_equal]
pub struct Registry {
    pub clients: Map<Id, ClientStateView>,
    pub tunnels: Map<Id, TunnelStateView>,
    pub connections: Map<Id, ConnectionStateView>,
    pub port_start: u16,
    pub port_end: u16,
    pub auth_token: Option<Seq<char>>,
    pub next_client_id: u64,
}

/// Why the registry refused a request.
#[derive(Debug, Clone, Copy, PartialEq, Eq, Structural)]
pub enum ManagerError {
    /// No tunnel has the given id.
    TunnelNotFound,
    /// No client is registered under the given id.
    ClientNotFound,
    /// The port lies outside the range or another tunnel holds it.
    PortUnavailable,
    /// A tunnel with the given id exists already.
    TunnelIdTaken,
    /// No port of the range could be had.
    NoAvailablePort,
}

/// Where the search for a tunnel's port stands: the port that the client
/// asked for, while it has not been offered, and the port at which the scan
/// of the range goes on, while the range is not exhausted.
#[derive(Debug, Clone, Copy, PartialEq, Eq)]
pub struct PortSearch {
    pub hint: Option<u16>,
    pub scan_from: Option<u16>,
}

/// Whether a connection belongs to the tunnel `id` (`by_tunnel`) or to the
/// client `id` (otherwise).
pub open spec fn concerns(conn: ConnectionStateView, id: Id, by_tunnel: bool) -> bool {
    if by_tunnel {
        conn.tunnel_id == id
    } else {
        conn.client_id == id
    }
}

/// The connections of `m` that do not concern `id`.
pub open spec fn unconcerned(m: Map<Id, ConnectionStateView>, id: Id, by_tunnel: bool) -> Map<
    Id,
    ConnectionStateView,
> {
    Map::new(|k: Id| m.dom().contains(k) && !concerns(m[k], id, by_tunnel), |k: Id| m[k])
}

/// `ids` without every occurrence of `t`, the rest in their order.
pub open spec fn without_id(ids: Seq<Id>, t: Id) -> Seq<Id>
    decreases ids.len(),
{
    if ids.len() == 0 {
        ids
    } else if ids.last() == t {
        without_id(ids.drop_last(), t)
    } else {
        without_id(ids.drop_last(), t).push(ids.last())
    }
}

/// The successor of a counter that starts over after its largest value.
pub open spec fn counter_after(n: u64) -> u64 {
    if n == u64::MAX {
        0
    } else {
        (n + 1) as u64
    }
}

/// A traffic counter after `n` more bytes; it starts over when it is full.
pub open spec fn counter_plus(count: u64, n: nat) -> u64 {
    ((count + n) % 0x1_0000_0000_0000_0000) as u64
}

/// The name a tunnel gets when its request carries none.
pub open spec fn default_tunnel_name(port: u16) -> Seq<char> {
    "tunnel-"@ + decimal(port as nat)
}

/// The record of a tunnel made for `client` from `config` on `port`.
pub open spec fn tunnel_record(
    client: Id,
    config: TunnelConfigView,
    port: u16,
    tunnel_id: Id,
    now: Seq<char>,
) -> TunnelInfoView {
    TunnelInfoView {
        id: tunnel_id,
        client_id: client,
        tunnel_type: config.tunnel_type,
        name: match config.name {
            Some(n) => n,
            None => default_tunnel_name(port),
        },
        local_addr: config.local_addr,
        local_port: config.local_port,
        server_port: port,
        state: "active"@,
        bytes_sent: 0,
        bytes_recv: 0,
        created_at: now,
        last_active_at: now,
    }
}

impl Registry {
    /// The registry of a server that has just started.
    pub open spec fn empty(port_start: u16, port_end: u16, auth_token: Option<Seq<char>>) -> Registry {
        Registry {
            clients: Map::empty(),
            tunnels: Map::empty(),
            connections: Map::empty(),
            port_start,
            port_end,
            auth_token,
            next_client_id: 1,
        }
    }

    /// Whether some live tunnel holds `port`.
    pub open spec fn port_used(self, port: u16) -> bool {
        exists|t: Id| #[trigger]
            self.tunnels.dom().contains(t) && self.tunnels[t].info.server_port == port
    }

    /// Whether `port` lies in the range that the server may allocate.
    pub open spec fn port_in_range(self, port: u16) -> bool {
        self.port_start <= port <= self.port_end
    }

    /// Whether `port` may be given to a new tunnel.
    pub open spec fn port_free(self, port: u16) -> bool {
        self.port_in_range(port) && !self.port_used(port)
    }

    /// The lowest free port that is at least `from`, if there is one.
    pub open spec fn first_free_port(self, from: int) -> Option<u16>
        decreases self.port_end + 1 - from,
    {
        if from < 0 || from > self.port_end {
            None
        } else if self.port_free(from as u16) {
            Some(from as u16)
        } else {
            self.first_free_port(from + 1)
        }
    }

    /// The next port to try for a tunnel, and where the search stands after
    /// it.  The port the client asked for is offered first, if it is free.
    /// After that the range is scanned upwards from its start, and each
    /// free port is offered in turn.  `None` ends the search.
    pub open spec fn port_step(self, search: PortSearch) -> (Option<u16>, PortSearch) {
        let done = PortSearch { hint: None, scan_from: None };
        if search.hint is Some && self.port_free(search.hint->0) {
            (search.hint, PortSearch { hint: None, scan_from: search.scan_from })
        } else {
            match search.scan_from {
                None => (None, done),
                Some(from) => match self.first_free_port(from as int) {
                    None => (None, done),
                    Some(p) => (
                        Some(p),
                        PortSearch {
                            hint: None,
                            scan_from: if p < u16::MAX {
                                Some((p + 1) as u16)
                            } else {
                                None
                            },
                        },
                    ),
                },
            }
        }
    }

    /// What must hold of the client stored under `c`.
    pub open spec fn client_ok(self, c: Id) -> bool {
        let client = self.clients[c];
        &&& client.info.id == c
        &&& client.tunnel_ids.no_duplicates()
        &&& forall|i: int|
            0 <= i < client.tunnel_ids.len() ==> {
                &&& self.tunnels.dom().contains(#[trigger] client.tunnel_ids[i])
                &&& self.tunnels[client.tunnel_ids[i]].info.client_id == c
            }
    }

    /// What must hold of the tunnel stored under `t`.
    pub open spec fn tunnel_ok(self, t: Id) -> bool {
        let info = self.tunnels[t].info;
        &&& info.id == t
        &&& self.port_in_range(info.server_port)
        &&& self.clients.dom().contains(info.client_id)
        &&& self.clients[info.client_id].tunnel_ids.contains(t)
    }

    /// What must hold of the connection stored under `k`.
    pub open spec fn connection_ok(self, k: Id) -> bool {
        let conn = self.connections[k];
        &&& self.tunnels.dom().contains(conn.tunnel_id)
        &&& self.tunnels[conn.tunnel_id].info.client_id == conn.client_id
    }

    /// The registry is well formed: every client lists exactly its own live
    /// tunnels, every tunnel belongs to a registered client and holds a
    /// port of the range that no other tunnel holds, and every connection
    /// came in on a live tunnel.
    pub open spec fn wf(self) -> bool {
        &&& forall|c: Id| #[trigger] self.clients.dom().contains(c) ==> self.client_ok(c)
        &&& forall|t: Id| #[trigger] self.tunnels.dom().contains(t) ==> self.tunnel_ok(t)
        &&& forall|k: Id| #[trigger] self.connections.dom().contains(k) ==> self.connection_ok(k)
        &&& forall|t1: Id, t2: Id|
            #[trigger] self.tunnels.dom().contains(t1) && #[trigger] self.tunnels.dom().contains(
                t2,
            ) && t1 != t2 ==> self.tunnels[t1].info.server_port
                != self.tunnels[t2].info.server_port
    }

    /// The registry without the clients in `gone`, their tunnels and the
    /// connections of those clients.
    pub open spec fn without_clients(self, gone: Set<Id>) -> Registry {
        Registry {
            clients: self.clients.remove_keys(gone),
            tunnels: Map::new(
                |t: Id|
                    self.tunnels.dom().contains(t) && !gone.contains(
                        self.tunnels[t].info.client_id,
                    ),
                |t: Id| self.tunnels[t],
            ),
            connections: Map::new(
                |k: Id|
                    self.connections.dom().contains(k) && !gone.contains(
                        self.connections[k].client_id,
                    ),
                |k: Id| self.connections[k],
            ),
            ..self
        }
    }

    /// The registry after the client `c` has gone.
    pub open spec fn without_client(self, c: Id) -> Registry {
        self.without_clients(set![c])
    }

    /// The registry after the tunnel `t` has been closed: the tunnel is
    /// gone, its owner no longer lists it, and no connection of it is left.
    /// Closing a tunnel that is not there changes nothing.
    pub open spec fn without_tunnel(self, t: Id) -> Registry {
        if !self.tunnels.dom().contains(t) {
            self
        } else {
            let owner = self.tunnels[t].info.client_id;
            Registry {
                clients: if self.clients.dom().contains(owner) {
                    self.clients.insert(
                        owner,
                        ClientStateView {
                            tunnel_ids: without_id(self.clients[owner].tunnel_ids, t),
                            ..self.clients[owner]
                        },
                    )
                } else {
                    self.clients
                },
                tunnels: self.tunnels.remove(t),
                connections: Map::new(
                    |k: Id|
                        self.connections.dom().contains(k) && self.connections[k].tunnel_id != t,
                    |k: Id| self.connections[k],
                ),
                ..self
            }
        }
    }

    /// Whether a registration draws its id from the counter: it does when
    /// the client has a name or brings no id of its own.
    pub open spec fn draws_id(info: ClientInfoView) -> bool {
        info.name.len() > 0 || info.id.len() == 0
    }

    /// The id under which a registration of `info` is stored.
    pub open spec fn assigned_id(self, info: ClientInfoView) -> Id {
        if Self::draws_id(info) {
            decimal(self.next_client_id as nat)
        } else {
            info.id
        }
    }

    /// The clients that carry the name `name`.
    pub open spec fn named(self, name: Seq<char>) -> Set<Id> {
        Set::new(|c: Id| self.clients.dom().contains(c) && self.clients[c].info.name == name)
    }

    /// The clients that a registration of `info` displaces: those of the
    /// same name, where it has one, and whoever holds the id it is given.
    pub open spec fn displaced_by(self, info: ClientInfoView) -> Set<Id> {
        let same_name = if info.name.len() > 0 {
            self.named(info.name)
        } else {
            Set::empty()
        };
        same_name.insert(self.assigned_id(info))
    }

    /// The registry after `info` has registered.
    pub open spec fn with_client(self, info: ClientInfoView) -> Registry {
        let id = self.assigned_id(info);
        let cleared = self.without_clients(self.displaced_by(info));
        Registry {
            clients: cleared.clients.insert(
                id,
                ClientStateView { info: ClientInfoView { id, ..info }, tunnel_ids: Seq::empty() },
            ),
            next_client_id: if Self::draws_id(info) {
                counter_after(self.next_client_id)
            } else {
                self.next_client_id
            },
            ..cleared
        }
    }

    /// Whether a tunnel with the id `tunnel_id` on `port` may be added for
    /// `client`.
    pub open spec fn admits_tunnel(self, client: Id, tunnel_id: Id, port: u16) -> bool {
        &&& self.clients.dom().contains(client)
        &&& !self.tunnels.dom().contains(tunnel_id)
        &&& self.port_free(port)
    }

    /// Why a tunnel with the id `tunnel_id` on `port` is refused to
    /// `client`, if it is.
    pub open spec fn tunnel_refusal(self, client: Id, tunnel_id: Id, port: u16) -> Option<
        ManagerError,
    > {
        if !self.clients.dom().contains(client) {
            Some(ManagerError::ClientNotFound)
        } else if !self.port_free(port) {
            Some(ManagerError::PortUnavailable)
        } else if self.tunnels.dom().contains(tunnel_id) {
            Some(ManagerError::TunnelIdTaken)
        } else {
            None
        }
    }

    /// The registry after the tunnel `info` has been added to its client.
    pub open spec fn with_tunnel(self, info: TunnelInfoView) -> Registry {
        let owner = self.clients[info.client_id];
        Registry {
            clients: self.clients.insert(
                info.client_id,
                ClientStateView { tunnel_ids: owner.tunnel_ids.push(info.id), ..owner },
            ),
            tunnels: self.tunnels.insert(
                info.id,
                TunnelStateView { info, bytes_sent: 0, bytes_recv: 0 },
            ),
            ..self
        }
    }

    /// The registry after a connection `k` has come in on the tunnel `t`.
    pub open spec fn with_connection(self, k: Id, t: Id) -> Registry {
        Registry {
            connections: self.connections.insert(
                k,
                ConnectionStateView { tunnel_id: t, client_id: self.tunnels[t].info.client_id },
            ),
            ..self
        }
    }

    /// The registry after the connection `k` has ended.
    pub open spec fn without_connection(self, k: Id) -> Registry {
        Registry { connections: self.connections.remove(k), ..self }
    }

    /// The registry after the pumps of the tunnel `t` have moved `sent`
    /// bytes towards the client and `recv` bytes towards the outside.
    pub open spec fn with_traffic(self, t: Id, sent: nat, recv: nat) -> Registry {
        if self.tunnels.dom().contains(t) {
            let tunnel = self.tunnels[t];
            Registry {
                tunnels: self.tunnels.insert(
                    t,
                    TunnelStateView {
                        bytes_sent: counter_plus(tunnel.bytes_sent, sent),
                        bytes_recv: counter_plus(tunnel.bytes_recv, recv),
                        ..tunnel
                    },
                ),
                ..self
            }
        } else {
            self
        }
    }
}

} // verus!
