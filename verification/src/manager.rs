//! The server's registry: which clients are connected, which tunnels are
//! open for them and which external connections run through those tunnels.

use vstd::prelude::*;
use vstd::string::StringExecFns;
use vstd::utf8::is_ascii_chars;
use dashmap::DashMap;
use crate::laws::law_closed_tunnel_leaves_no_trace;
use crate::laws::law_connection_enters_on_live_tunnel;
use crate::laws::law_offered_port_is_free;
use crate::laws::law_removed_client_leaves_no_trace;
use crate::laws::lemma_first_free_port;
use crate::laws::lemma_first_free_port_below_range;
use crate::laws::lemma_with_client_wf;
use crate::laws::lemma_with_connection_wf;
use crate::laws::lemma_with_traffic_wf;
use crate::laws::lemma_with_tunnel_wf;
use crate::laws::lemma_without_absent_clients;
use crate::laws::lemma_without_clients_twice;
use crate::laws::lemma_without_clients_wf;
use crate::laws::lemma_without_connection_wf;
use crate::laws::lemma_without_tunnel_wf;
use crate::protocol::ClientInfo;
use crate::protocol::TunnelConfig;
use crate::protocol::TunnelInfo;
use crate::protocol::WsMessage;
use crate::protocol::WsMessageView;
use crate::protocol::clone_text;
use crate::protocol::text_of;
use crate::registry::ClientStateView;
use crate::registry::ConnectionStateView;
use crate::registry::Id;
use crate::registry::ManagerError;
use crate::registry::PortSearch;
use crate::registry::Registry;
use crate::registry::TunnelStateView;
use crate::registry::concerns;
use crate::registry::counter_plus;
use crate::registry::tunnel_record;
use crate::registry::unconcerned;
use crate::registry::without_id;
use crate::sources::fresh_id;
use crate::sources::now_rfc3339;
use crate::table::client_entries;
use crate::table::clients_get;
use crate::table::clients_insert;
use crate::table::clients_len;
use crate::table::clients_new;
use crate::table::clients_remove;
use crate::table::clients_snapshot;
use crate::table::connection_entries;
use crate::table::connections_get;
use crate::table::connections_insert;
use crate::table::connections_len;
use crate::table::connections_new;
use crate::table::connections_remove;
use crate::table::connections_snapshot;
use crate::table::entry_keys;
use crate::table::tunnel_entries;
use crate::table::tunnels_get;
use crate::table::tunnels_insert;
use crate::table::tunnels_len;
use crate::table::tunnels_new;
use crate::table::tunnels_remove;
use crate::table::tunnels_snapshot;
use crate::text::clone_texts;
use crate::text::decimal_string;
use crate::text::str_eq;
use crate::text::texts;

verus! {

/// A registered client: who it is and which tunnels it owns.
#[derive(Debug, PartialEq, Eq)]
pub struct ClientState {
    pub info: ClientInfo,
    pub tunnel_ids: Vec<String>,
}

impl View for ClientState {
    type V = ClientStateView;

    open spec fn view(&self) -> ClientStateView {
        ClientStateView { info: self.info@, tunnel_ids: texts(self.tunnel_ids@) }
    }
}

impl Clone for ClientState {
    fn clone(&self) -> (r: Self)
        ensures
            r@ == self@,
    {
        ClientState { info: self.info.clone(), tunnel_ids: clone_texts(&self.tunnel_ids) }
    }
}

/// A live tunnel: its record, and the bytes its pumps have moved towards
/// the client (`bytes_sent`) and towards the outside (`bytes_recv`).
#[derive(Debug, PartialEq, Eq)]
pub struct TunnelState {
    pub info: TunnelInfo,
    pub bytes_sent: u64,
    pub bytes_recv: u64,
}

impl View for TunnelState {
    type V = TunnelStateView;

    open spec fn view(&self) -> TunnelStateView {
        TunnelStateView {
            info: self.info@,
            bytes_sent: self.bytes_sent,
            bytes_recv: self.bytes_recv,
        }
    }
}

impl Clone for TunnelState {
    fn clone(&self) -> (r: Self)
        ensures
            r@ == self@,
    {
        TunnelState {
            info: self.info.clone(),
            bytes_sent: self.bytes_sent,
            bytes_recv: self.bytes_recv,
        }
    }
}

/// A tracked external connection: the tunnel it came in on and that
/// tunnel's client.
#[derive(Debug, PartialEq, Eq)]
pub struct ConnectionState {
    pub tunnel_id: String,
    pub client_id: String,
}

impl View for ConnectionState {
    type V = ConnectionStateView;

    open spec fn view(&self) -> ConnectionStateView {
        ConnectionStateView { tunnel_id: self.tunnel_id@, client_id: self.client_id@ }
    }
}

impl Clone for ConnectionState {
    fn clone(&self) -> (r: Self)
        ensures
            r@ == self@,
    {
        ConnectionState { tunnel_id: self.tunnel_id.clone(), client_id: self.client_id.clone() }
    }
}

/// What a removal took out of the registry, for the program around it to
/// stop: the listeners of these tunnels and the pumps of these connections.
#[derive(Debug, PartialEq, Eq)]
pub struct Teardown {
    pub tunnels: Vec<String>,
    pub connections: Vec<String>,
}

/// Whether `names` lists, each once, what `before` holds and `after` does
/// not.
pub open spec fn lists_removed(names: Seq<Id>, before: Set<Id>, after: Set<Id>) -> bool {
    &&& names.no_duplicates()
    &&& forall|x: Id| #[trigger] names.contains(x) <==> before.contains(x) && !after.contains(x)
}

impl Teardown {
    /// Whether this lists, each once, the tunnels and the connections that
    /// `before` holds and `after` does not.
    pub open spec fn accounts_for(&self, before: Registry, after: Registry) -> bool {
        &&& lists_removed(texts(self.tunnels@), before.tunnels.dom(), after.tunnels.dom())
        &&& lists_removed(
            texts(self.connections@),
            before.connections.dom(),
            after.connections.dom(),
        )
    }

    /// Adds what a later removal took out.
    fn absorb(&mut self, later: Teardown)
        ensures
            texts(final(self).tunnels@) == texts(old(self).tunnels@) + texts(later.tunnels@),
            texts(final(self).connections@) == texts(old(self).connections@) + texts(
                later.connections@,
            ),
    {
        let ghost more_tunnels = later.tunnels@;
        let ghost more_connections = later.connections@;
        let mut rest = later;
        self.tunnels.append(&mut rest.tunnels);
        self.connections.append(&mut rest.connections);
        assert(texts(self.tunnels@) =~= texts(old(self).tunnels@) + texts(more_tunnels));
        assert(texts(self.connections@) =~= texts(old(self).connections@) + texts(
            more_connections,
        ));
    }
}

/// What two removals in a row took out is what the first took out
/// followed by what the second took out.
proof fn lemma_lists_removed_chain(
    first: Seq<Id>,
    second: Seq<Id>,
    a: Set<Id>,
    b: Set<Id>,
    c: Set<Id>,
)
    requires
        lists_removed(first, a, b),
        lists_removed(second, b, c),
        b.subset_of(a),
        c.subset_of(b),
    ensures
        lists_removed(first + second, a, c),
{
    let all = first + second;
    assert forall|x: Id| #[trigger] all.contains(x) <==> a.contains(x) && !c.contains(x) by {
        if all.contains(x) {
            let i = choose|i: int| 0 <= i < all.len() && all[i] == x;
            if i < first.len() {
                assert(first[i] == x);
                assert(first.contains(x));
            } else {
                assert(second[i - first.len()] == x);
                assert(second.contains(x));
            }
        }
        if a.contains(x) && !c.contains(x) {
            if b.contains(x) {
                assert(second.contains(x));
                let i = choose|i: int| 0 <= i < second.len() && second[i] == x;
                assert(all[first.len() + i] == x);
            } else {
                assert(first.contains(x));
                let i = choose|i: int| 0 <= i < first.len() && first[i] == x;
                assert(all[i] == x);
            }
        }
    }
    assert forall|i: int, j: int| 0 <= i < all.len() && 0 <= j < all.len() && i != j implies all[i]
        != all[j] by {
        if i < first.len() {
            assert(first.contains(first[i]));
        } else {
            assert(second.contains(second[i - first.len()]));
        }
        if j < first.len() {
            assert(first.contains(first[j]));
        } else {
            assert(second.contains(second[j - first.len()]));
        }
    }
}

/// What a registration did: the id the client was given, and what the
/// clients it displaced leave behind to be stopped.
#[derive(Debug, PartialEq, Eq)]
pub struct Registration {
    pub client_id: String,
    pub teardown: Teardown,
}

/// The registry of a running server.
pub struct ServerState {
    clients: DashMap<String, ClientState>,
    tunnels: DashMap<String, TunnelState>,
    connections: DashMap<String, ConnectionState>,
    port_start: u16,
    port_end: u16,
    auth_token: Option<String>,
    next_client_id: u64,
}

impl View for ServerState {
    type V = Registry;

    closed spec fn view(&self) -> Registry {
        Registry {
            clients: client_entries(self.clients),
            tunnels: tunnel_entries(self.tunnels),
            connections: connection_entries(self.connections),
            port_start: self.port_start,
            port_end: self.port_end,
            auth_token: text_of(self.auth_token),
            next_client_id: self.next_client_id,
        }
    }
}

/// A traffic counter after `n` more bytes.
fn count_bytes(count: u64, n: usize) -> (sum: u64)
    ensures
        sum == counter_plus(count, n as nat),
{
    let more: u64 = n as u64;
    let room: u64 = u64::MAX - count;
    if more <= room {
        count + more
    } else {
        more - room - 1
    }
}

/// Whether `port` occurs in `ports`.
fn holds_port(ports: &Vec<u16>, port: u16) -> (found: bool)
    ensures
        found == ports@.contains(port),
{
    let mut i: usize = 0;
    while i < ports.len()
        invariant
            i <= ports.len(),
            forall|j: int| 0 <= j < i ==> ports@[j] != port,
        decreases ports.len() - i,
    {
        if ports[i] == port {
            return true;
        }
        i += 1;
    }
    false
}

/// The ids of `ids` other than `t`, in their order.
pub(crate) fn without(ids: &Vec<String>, t: &str) -> (kept: Vec<String>)
    ensures
        texts(kept@) == without_id(texts(ids@), t@),
{
    let mut kept: Vec<String> = Vec::new();
    let mut i: usize = 0;
    assert(texts(ids@).subrange(0, 0) =~= Seq::<Id>::empty());
    assert(texts(kept@) =~= Seq::<Id>::empty());
    while i < ids.len()
        invariant
            i <= ids.len(),
            texts(kept@) == without_id(texts(ids@).subrange(0, i as int), t@),
        decreases ids.len() - i,
    {
        let ghost seen = texts(ids@).subrange(0, i as int);
        let ghost next = texts(ids@).subrange(0, i + 1);
        let ghost names = texts(kept@);
        assert(next.drop_last() =~= seen);
        assert(next.last() == ids@[i as int]@);
        if !str_eq(ids[i].as_str(), t) {
            kept.push(ids[i].clone());
            assert(texts(kept@) =~= names.push(ids@[i as int]@));
        }
        i += 1;
    }
    assert(texts(ids@).subrange(0, ids.len() as int) =~= texts(ids@));
    kept
}

/// Takes out of `conns` every connection that concerns `id`, and returns
/// the ids of those connections.
fn drop_connections(conns: &mut DashMap<String, ConnectionState>, id: &str, by_tunnel: bool) -> (dropped:
    Vec<String>)
    ensures
        connection_entries(*final(conns)) == unconcerned(
            connection_entries(*old(conns)),
            id@,
            by_tunnel,
        ),
        texts(dropped@).no_duplicates(),
        forall|k: Id| #[trigger]
            texts(dropped@).contains(k) <==> connection_entries(*old(conns)).dom().contains(k)
                && concerns(connection_entries(*old(conns))[k], id@, by_tunnel),
{
    let entries = connections_snapshot(conns);
    let ghost before = connection_entries(*conns);
    let ghost keys = entry_keys(entries@);
    let ghost mut gone: Set<Id> = Set::empty();
    let mut dropped: Vec<String> = Vec::new();
    let mut i: usize = 0;
    assert(connection_entries(*conns) =~= before.remove_keys(gone));
    while i < entries.len()
        invariant
            i <= entries.len(),
            keys == entry_keys(entries@),
            keys.no_duplicates(),
            keys.to_set() == before.dom(),
            forall|j: int| 0 <= j < entries.len() ==> (#[trigger] entries[j]).1@ == before[entries[j].0@],
            connection_entries(*conns) == before.remove_keys(gone),
            forall|k: Id| gone.contains(k) <==> #[trigger] texts(dropped@).contains(k),
            forall|k: Id|
                gone.contains(k) ==> concerns(before[k], id@, by_tunnel) && exists|j: int|
                    0 <= j < i && #[trigger] keys[j] == k,
            forall|j: int|
                0 <= j < i && concerns(before[#[trigger] keys[j]], id@, by_tunnel)
                    ==> gone.contains(keys[j]),
            texts(dropped@).no_duplicates(),
        decreases entries.len() - i,
    {
        let ghost key = keys[i as int];
        assert(key == entries[i as int].0@);
        let conn = &entries[i].1;
        let hit = if by_tunnel {
            str_eq(conn.tunnel_id.as_str(), id)
        } else {
            str_eq(conn.client_id.as_str(), id)
        };
        assert(hit == concerns(before[key], id@, by_tunnel));
        if hit {
            let ghost names = texts(dropped@);
            assert(!gone.contains(key)) by {
                if gone.contains(key) {
                    let j = choose|j: int| 0 <= j < i && #[trigger] keys[j] == key;
                    assert(keys[j] == keys[i as int]);
                }
            }
            let _ = connections_remove(conns, entries[i].0.as_str());
            dropped.push(entries[i].0.clone());
            proof {
                assert(texts(dropped@) =~= names.push(key));
                assert(connection_entries(*conns) =~= before.remove_keys(gone.insert(key)));
                assert forall|k: Id| gone.insert(key).contains(k) <==> #[trigger] texts(
                    dropped@,
                ).contains(k) by {
                    if gone.insert(key).contains(k) {
                        if k == key {
                            assert(names.push(key)[names.len() as int] == key);
                        } else {
                            assert(names.contains(k));
                            let d = choose|d: int| 0 <= d < names.len() && names[d] == k;
                            assert(names.push(key)[d] == k);
                        }
                    }
                    if texts(dropped@).contains(k) {
                        let d = choose|d: int|
                            0 <= d < names.push(key).len() && names.push(key)[d] == k;
                        if d < names.len() {
                            assert(names[d] == k);
                            assert(names.contains(k));
                        }
                    }
                }
                assert forall|a: int, b: int|
                    0 <= a < names.len() + 1 && 0 <= b < names.len() + 1 && a != b implies names.push(
                    key,
                )[a] != names.push(key)[b] by {
                    if a < names.len() {
                        assert(names.contains(names[a]));
                    }
                    if b < names.len() {
                        assert(names.contains(names[b]));
                    }
                }
                gone = gone.insert(key);
            }
        }
        i += 1;
    }
    proof {
        let kept = unconcerned(before, id@, by_tunnel);
        assert forall|k: Id| before.dom().contains(k) implies (gone.contains(k) <==> concerns(
            before[k],
            id@,
            by_tunnel,
        )) by {
            assert(keys.to_set().contains(k));
            assert(keys.contains(k));
            let j = choose|j: int| 0 <= j < keys.len() && keys[j] == k;
            assert(keys[j] == k);
        }
        assert forall|k: Id| gone.contains(k) implies before.dom().contains(k) by {
            let j = choose|j: int| 0 <= j < i && #[trigger] keys[j] == k;
            assert(keys.contains(keys[j]));
            assert(keys.to_set().contains(k));
        }
        assert(connection_entries(*conns) =~= kept);
    }
    dropped
}

impl ServerState {
    /// A registry without clients, for a server that may allocate the
    /// ports from `port_start` to `port_end`.
    pub fn new(port_start: u16, port_end: u16, auth_token: Option<String>) -> (state: Self)
        ensures
            state@ == Registry::empty(port_start, port_end, text_of(auth_token)),
            state@.wf(),
    {
        let state = ServerState {
            clients: clients_new(),
            tunnels: tunnels_new(),
            connections: connections_new(),
            port_start,
            port_end,
            auth_token,
            next_client_id: 1,
        };
        assert(state@.clients =~= Map::empty());
        assert(state@.tunnels =~= Map::empty());
        assert(state@.connections =~= Map::empty());
        state
    }

    /// The lowest port that the server may allocate.
    pub fn port_start(&self) -> (port: u16)
        ensures
            port == self@.port_start,
    {
        self.port_start
    }

    /// The highest port that the server may allocate.
    pub fn port_end(&self) -> (port: u16)
        ensures
            port == self@.port_end,
    {
        self.port_end
    }

    /// The shared token the server was started with, if any.
    pub fn auth_token(&self) -> (token: Option<String>)
        ensures
            text_of(token) == self@.auth_token,
    {
        clone_text(&self.auth_token)
    }

    /// The number of registered clients.
    pub fn client_count(&self) -> (count: usize)
        ensures
            count == self@.clients.dom().len(),
    {
        clients_len(&self.clients)
    }

    /// The number of live tunnels.
    pub fn tunnel_count(&self) -> (count: usize)
        ensures
            count == self@.tunnels.dom().len(),
    {
        tunnels_len(&self.tunnels)
    }

    /// The number of tracked connections.
    pub fn connection_count(&self) -> (count: usize)
        ensures
            count == self@.connections.dom().len(),
    {
        connections_len(&self.connections)
    }

    /// A copy of every registered client with its id, each once, in no
    /// particular order.
    pub fn clients(&self) -> (entries: Vec<(String, ClientState)>)
        ensures
            entry_keys(entries@).no_duplicates(),
            entry_keys(entries@).to_set() == self@.clients.dom(),
            forall|i: int|
                0 <= i < entries.len() ==> (#[trigger] entries[i]).1@
                    == self@.clients[entries[i].0@],
    {
        clients_snapshot(&self.clients)
    }

    /// A copy of every live tunnel with its id, each once, in no
    /// particular order.
    pub fn tunnels(&self) -> (entries: Vec<(String, TunnelState)>)
        ensures
            entry_keys(entries@).no_duplicates(),
            entry_keys(entries@).to_set() == self@.tunnels.dom(),
            forall|i: int|
                0 <= i < entries.len() ==> (#[trigger] entries[i]).1@
                    == self@.tunnels[entries[i].0@],
    {
        tunnels_snapshot(&self.tunnels)
    }

    /// A copy of every tracked connection with its id, each once, in no
    /// particular order.
    pub fn connections(&self) -> (entries: Vec<(String, ConnectionState)>)
        ensures
            entry_keys(entries@).no_duplicates(),
            entry_keys(entries@).to_set() == self@.connections.dom(),
            forall|i: int|
                0 <= i < entries.len() ==> (#[trigger] entries[i]).1@
                    == self@.connections[entries[i].0@],
    {
        connections_snapshot(&self.connections)
    }

    /// A copy of the client registered under `client_id`, if there is one.
    pub fn client(&self, client_id: &str) -> (found: Option<ClientState>)
        ensures
            match found {
                Some(c) => self@.clients.dom().contains(client_id@) && c@
                    == self@.clients[client_id@],
                None => !self@.clients.dom().contains(client_id@),
            },
    {
        clients_get(&self.clients, client_id)
    }

    /// A copy of the tunnel stored under `tunnel_id`, if there is one.
    pub fn tunnel(&self, tunnel_id: &str) -> (found: Option<TunnelState>)
        ensures
            match found {
                Some(t) => self@.tunnels.dom().contains(tunnel_id@) && t@
                    == self@.tunnels[tunnel_id@],
                None => !self@.tunnels.dom().contains(tunnel_id@),
            },
    {
        tunnels_get(&self.tunnels, tunnel_id)
    }

    /// A copy of the connection tracked under `conn_id`, if there is one.
    pub fn connection(&self, conn_id: &str) -> (found: Option<ConnectionState>)
        ensures
            match found {
                Some(c) => self@.connections.dom().contains(conn_id@) && c@
                    == self@.connections[conn_id@],
                None => !self@.connections.dom().contains(conn_id@),
            },
    {
        connections_get(&self.connections, conn_id)
    }

    /// Whether a client is registered under `client_id`.
    pub fn has_client(&self, client_id: &str) -> (known: bool)
        ensures
            known == self@.clients.dom().contains(client_id@),
    {
        clients_get(&self.clients, client_id).is_some()
    }

    /// Whether a connection is tracked under `conn_id`.
    pub fn has_connection(&self, conn_id: &str) -> (known: bool)
        ensures
            known == self@.connections.dom().contains(conn_id@),
    {
        connections_get(&self.connections, conn_id).is_some()
    }
}

impl ServerState {
    /// Registers a client.
    ///
    /// A client with a name displaces every registered client of that name
    /// and is given the next number of the counter as its id.  A client
    /// without a name keeps the id it brings, or is given the next number
    /// if it brings none.  Whoever is registered under the id that results
    /// is displaced too.  The client starts without tunnels.
    pub fn register_client(&mut self, client: ClientInfo) -> (r: Registration)
        requires
            old(self)@.wf(),
        ensures
            final(self)@.wf(),
            final(self)@ == old(self)@.with_client(client@),
            r.client_id@ == old(self)@.assigned_id(client@),
            r.teardown.accounts_for(old(self)@, final(self)@),
    {
        let ghost before = self@;
        let ghost name = client@.name;
        let ghost mut evicted: Set<Id> = Set::empty();
        let mut td = Teardown { tunnels: Vec::new(), connections: Vec::new() };
        let named = !client.name.as_str().is_empty();
        proof {
            lemma_without_absent_clients(before, evicted);
            assert(texts(td.tunnels@) =~= Seq::<Id>::empty());
            assert(texts(td.connections@) =~= Seq::<Id>::empty());
        }
        if named {
            let entries = clients_snapshot(&self.clients);
            let ghost keys = entry_keys(entries@);
            let mut i: usize = 0;
            while i < entries.len()
                invariant
                    i <= entries.len(),
                    before.wf(),
                    self@.wf(),
                    name == client@.name,
                    keys == entry_keys(entries@),
                    keys.to_set() == before.clients.dom(),
                    forall|j: int|
                        0 <= j < entries.len() ==> (#[trigger] entries[j]).1@
                            == before.clients[entries[j].0@],
                    self@ == before.without_clients(evicted),
                    forall|k: Id| evicted.contains(k) ==> before.named(name).contains(k),
                    forall|j: int|
                        0 <= j < i && before.clients[#[trigger] keys[j]].info.name == name
                            ==> evicted.contains(keys[j]),
                    td.accounts_for(before, self@),
                decreases entries.len() - i,
            {
                let ghost key = keys[i as int];
                assert(key == entries[i as int].0@);
                assert(keys.contains(key));
                assert(keys.to_set().contains(key));
                if str_eq(entries[i].1.info.name.as_str(), client.name.as_str()) {
                    let ghost prev = self@;
                    let ghost first_t = texts(td.tunnels@);
                    let ghost first_c = texts(td.connections@);
                    let more = self.remove_client(entries[i].0.as_str());
                    proof {
                        lemma_without_clients_twice(before, evicted, set![key]);
                        lemma_lists_removed_chain(
                            first_t,
                            texts(more.tunnels@),
                            before.tunnels.dom(),
                            prev.tunnels.dom(),
                            self@.tunnels.dom(),
                        );
                        lemma_lists_removed_chain(
                            first_c,
                            texts(more.connections@),
                            before.connections.dom(),
                            prev.connections.dom(),
                            self@.connections.dom(),
                        );
                        evicted = evicted.union(set![key]);
                    }
                    td.absorb(more);
                }
                i += 1;
            }
            proof {
                assert forall|k: Id| before.named(name).contains(k) implies evicted.contains(k) by {
                    assert(keys.to_set().contains(k));
                    assert(keys.contains(k));
                    let j = choose|j: int| 0 <= j < keys.len() && keys[j] == k;
                    assert(keys[j] == k);
                }
                assert(evicted =~= before.named(name));
            }
        }
        let draws = named || client.id.as_str().is_empty();
        let id = if draws {
            decimal_string(self.next_client_id)
        } else {
            client.id.clone()
        };
        assert(id@ == before.assigned_id(client@));
        let ghost prev = self@;
        let ghost first_t = texts(td.tunnels@);
        let ghost first_c = texts(td.connections@);
        let more = self.remove_client(id.as_str());
        proof {
            lemma_without_clients_twice(before, evicted, set![id@]);
            lemma_lists_removed_chain(
                first_t,
                texts(more.tunnels@),
                before.tunnels.dom(),
                prev.tunnels.dom(),
                self@.tunnels.dom(),
            );
            lemma_lists_removed_chain(
                first_c,
                texts(more.connections@),
                before.connections.dom(),
                prev.connections.dom(),
                self@.connections.dom(),
            );
            assert(evicted.union(set![id@]) =~= before.displaced_by(client@));
            lemma_with_client_wf(before, client@);
        }
        td.absorb(more);
        let stored = ClientInfo {
            id: id.clone(),
            name: client.name,
            version: client.version,
            os: client.os,
            arch: client.arch,
            hostname: client.hostname,
            local_ip: client.local_ip,
        };
        let record = ClientState { info: stored, tunnel_ids: Vec::new() };
        assert(record@.tunnel_ids =~= Seq::<Id>::empty());
        clients_insert(&mut self.clients, id.clone(), record);
        if draws {
            self.next_client_id = if self.next_client_id == u64::MAX {
                0
            } else {
                self.next_client_id + 1
            };
        }
        assert(self@ =~= before.with_client(client@));
        Registration { client_id: id, teardown: td }
    }

    /// Removes the client `client_id` with all that hangs on it: its
    /// tunnels, and every connection that belongs to it.  Removing a client
    /// that is not registered changes nothing.
    pub fn remove_client(&mut self, client_id: &str) -> (td: Teardown)
        requires
            old(self)@.wf(),
        ensures
            final(self)@.wf(),
            final(self)@ == old(self)@.without_client(client_id@),
            !final(self)@.clients.dom().contains(client_id@),
            forall|t: Id| #[trigger]
                final(self)@.tunnels.dom().contains(t) ==> final(self)@.tunnels[t].info.client_id
                    != client_id@,
            forall|k: Id| #[trigger]
                final(self)@.connections.dom().contains(k) ==> final(self)@.connections[k].client_id != client_id@,
            td.accounts_for(old(self)@, final(self)@),
            texts(td.tunnels@) == (if old(self)@.clients.dom().contains(client_id@) {
                old(self)@.clients[client_id@].tunnel_ids
            } else {
                Seq::empty()
            }),
    {
        let ghost before = self@;
        let ghost c = client_id@;
        proof {
            law_removed_client_leaves_no_trace(before, c);
        }
        proof {
            lemma_without_clients_wf(before, set![c]);
        }
        match clients_remove(&mut self.clients, client_id) {
            None => {
                proof {
                    lemma_without_absent_clients(before, set![c]);
                }
                let td = Teardown { tunnels: Vec::new(), connections: Vec::new() };
                assert(texts(td.tunnels@) =~= Seq::<Id>::empty());
                assert(texts(td.connections@) =~= Seq::<Id>::empty());
                td
            },
            Some(client) => {
                let ghost ids = texts(client.tunnel_ids@);
                let ghost mut gone: Set<Id> = Set::empty();
                assert(before.client_ok(c));
                assert(tunnel_entries(self.tunnels) =~= before.tunnels.remove_keys(gone));
                let mut i: usize = 0;
                while i < client.tunnel_ids.len()
                    invariant
                        i <= client.tunnel_ids.len(),
                        ids == texts(client.tunnel_ids@),
                        self@ == (Registry {
                            clients: before.clients.remove(c),
                            tunnels: before.tunnels.remove_keys(gone),
                            ..before
                        }),
                        forall|j: int| 0 <= j < i ==> gone.contains(#[trigger] ids[j]),
                        forall|t: Id| gone.contains(t) ==> ids.contains(t),
                    decreases client.tunnel_ids.len() - i,
                {
                    let _ = tunnels_remove(&mut self.tunnels, client.tunnel_ids[i].as_str());
                    proof {
                        let t = ids[i as int];
                        assert(t == client.tunnel_ids@[i as int]@);
                        assert(tunnel_entries(self.tunnels) =~= before.tunnels.remove_keys(
                            gone.insert(t),
                        ));
                        assert(ids.contains(t));
                        gone = gone.insert(t);
                    }
                    i += 1;
                }
                let dropped = drop_connections(&mut self.connections, client_id, false);
                proof {
                    let after = before.without_client(c);
                    assert forall|t: Id| before.tunnels.dom().contains(t) implies (gone.contains(
                        t,
                    ) <==> before.tunnels[t].info.client_id == c) by {
                        assert(before.tunnel_ok(t));
                        if gone.contains(t) {
                            assert(ids.contains(t));
                            let j = choose|j: int| 0 <= j < ids.len() && ids[j] == t;
                            assert(before.tunnels[ids[j]].info.client_id == c);
                        }
                        if before.tunnels[t].info.client_id == c {
                            assert(ids.contains(t));
                            let j = choose|j: int| 0 <= j < ids.len() && ids[j] == t;
                            assert(gone.contains(ids[j]));
                        }
                    }
                    assert(self@.clients =~= after.clients);
                    assert(self@.tunnels =~= after.tunnels);
                    assert(self@.connections =~= after.connections);
                    assert(self@ =~= after);
                    assert forall|t: Id| #[trigger]
                        ids.contains(t) <==> before.tunnels.dom().contains(t)
                            && !after.tunnels.dom().contains(t) by {
                        if ids.contains(t) {
                            let j = choose|j: int| 0 <= j < ids.len() && ids[j] == t;
                            assert(before.tunnels.dom().contains(ids[j]));
                        }
                        if before.tunnels.dom().contains(t) && !after.tunnels.dom().contains(t) {
                            assert(before.tunnel_ok(t));
                        }
                    }
                }
                Teardown { tunnels: client.tunnel_ids, connections: dropped }
            },
        }
    }
}

impl ServerState {
    /// The ports that live tunnels hold.
    fn used_ports(&self) -> (ports: Vec<u16>)
        ensures
            forall|p: u16| ports@.contains(p) <==> self@.port_used(p),
    {
        let entries = tunnels_snapshot(&self.tunnels);
        let ghost keys = entry_keys(entries@);
        let mut ports: Vec<u16> = Vec::new();
        let mut i: usize = 0;
        while i < entries.len()
            invariant
                i <= entries.len(),
                ports.len() == i,
                forall|j: int| 0 <= j < i ==> ports@[j] == (#[trigger] entries[j]).1@.info.server_port,
            decreases entries.len() - i,
        {
            ports.push(entries[i].1.info.server_port);
            i += 1;
        }
        assert forall|p: u16| ports@.contains(p) <==> self@.port_used(p) by {
            if ports@.contains(p) {
                let j = choose|j: int| 0 <= j < ports.len() && ports@[j] == p;
                assert(keys[j] == entries[j].0@);
                assert(keys.contains(keys[j]));
                assert(keys.to_set().contains(keys[j]));
                assert(self@.tunnels.dom().contains(entries[j].0@));
            }
            if self@.port_used(p) {
                let t = choose|t: Id| #[trigger]
                    self@.tunnels.dom().contains(t) && self@.tunnels[t].info.server_port == p;
                assert(keys.to_set().contains(t));
                assert(keys.contains(t));
                let j = choose|j: int| 0 <= j < keys.len() && keys[j] == t;
                assert(entries[j].0@ == t);
                assert(ports@[j] == p);
            }
        }
        ports
    }

    /// Whether some live tunnel holds `port`.
    pub fn is_port_used(&self, port: u16) -> (used: bool)
        ensures
            used == self@.port_used(port),
    {
        let ports = self.used_ports();
        holds_port(&ports, port)
    }

    /// The lowest port of the range, not below `from`, that no live tunnel
    /// holds.
    pub fn find_available_port(&self, from: u16) -> (port: Option<u16>)
        ensures
            port == self@.first_free_port(from as int),
            match port {
                Some(p) => from <= p && self@.port_free(p) && forall|q: u16|
                    from <= q < p ==> !self@.port_free(q),
                None => forall|q: u16| from <= q ==> !self@.port_free(q),
            },
    {
        proof {
            lemma_first_free_port(self@, from as int);
        }
        let ports = self.used_ports();
        let mut p: u16 = if from < self.port_start {
            self.port_start
        } else {
            from
        };
        proof {
            if from < self.port_start {
                lemma_first_free_port_below_range(self@, from as int);
            }
        }
        while p <= self.port_end
            invariant
                self@.first_free_port(from as int) == self@.first_free_port(p as int),
                self@.port_start <= p,
                forall|q: u16| ports@.contains(q) <==> self@.port_used(q),
            decreases self.port_end - p,
        {
            proof {
                lemma_first_free_port(self@, from as int);
            }
            if !holds_port(&ports, p) {
                return Some(p);
            }
            if p == self.port_end {
                assert(self@.first_free_port(p + 1) is None);
                return None;
            }
            p += 1;
        }
        None
    }

    /// Where the search for a tunnel's port starts, given the port the
    /// client asked for.
    pub fn port_search(&self, remote_port: Option<u16>) -> (search: PortSearch)
        ensures
            search == (PortSearch { hint: remote_port, scan_from: Some(self@.port_start) }),
    {
        PortSearch { hint: remote_port, scan_from: Some(self.port_start) }
    }

    /// The next port to try to bind.  The caller binds the port it is
    /// given; if that fails it asks again.  When no port is left the search
    /// ends with `NoAvailablePort`.
    pub fn next_port(&self, search: &mut PortSearch) -> (port: Result<u16, ManagerError>)
        ensures
            *final(search) == self@.port_step(*old(search)).1,
            match port {
                Ok(p) => self@.port_step(*old(search)).0 == Some(p) && self@.port_free(p),
                Err(e) => e == ManagerError::NoAvailablePort && self@.port_step(*old(search)).0
                    is None,
            },
    {
        proof {
            law_offered_port_is_free(self@, *search);
        }
        let hint = search.hint;
        search.hint = None;
        if let Some(h) = hint {
            if self.port_start <= h && h <= self.port_end && !self.is_port_used(h) {
                return Ok(h);
            }
        }
        match search.scan_from {
            None => Err(ManagerError::NoAvailablePort),
            Some(from) => match self.find_available_port(from) {
                None => {
                    search.scan_from = None;
                    Err(ManagerError::NoAvailablePort)
                },
                Some(p) => {
                    search.scan_from = if p < u16::MAX {
                        Some(p + 1)
                    } else {
                        None
                    };
                    Ok(p)
                },
            },
        }
    }

    /// Adds a tunnel for `client_id` on `server_port`, a port that the
    /// caller has bound, under the id `tunnel_id` and with `now` as its
    /// time of creation.  The tunnel is refused where the client is not
    /// registered, where the port is not free, and where the id is taken.
    pub fn create_tunnel(
        &mut self,
        client_id: &str,
        config: TunnelConfig,
        server_port: u16,
        tunnel_id: String,
        now: String,
    ) -> (r: Result<TunnelInfo, ManagerError>)
        requires
            old(self)@.wf(),
        ensures
            final(self)@.wf(),
            match r {
                Ok(info) => {
                    &&& old(self)@.tunnel_refusal(client_id@, tunnel_id@, server_port) is None
                    &&& info@ == tunnel_record(
                        client_id@,
                        config@,
                        server_port,
                        tunnel_id@,
                        now@,
                    )
                    &&& final(self)@ == old(self)@.with_tunnel(info@)
                },
                Err(e) => {
                    &&& old(self)@.tunnel_refusal(client_id@, tunnel_id@, server_port) == Some(e)
                    &&& final(self)@ == old(self)@
                },
            },
    {
        let ghost before = self@;
        let client = match clients_get(&self.clients, client_id) {
            None => {
                return Err(ManagerError::ClientNotFound);
            },
            Some(client) => client,
        };
        if server_port < self.port_start || server_port > self.port_end || self.is_port_used(
            server_port,
        ) {
            return Err(ManagerError::PortUnavailable);
        }
        if tunnels_get(&self.tunnels, tunnel_id.as_str()).is_some() {
            return Err(ManagerError::TunnelIdTaken);
        }
        let name = match config.name {
            Some(n) => n,
            None => String::from_str("tunnel-").concat(decimal_string(server_port as u64).as_str()),
        };
        let info = TunnelInfo {
            id: tunnel_id.clone(),
            client_id: client_id.to_owned(),
            tunnel_type: config.tunnel_type,
            name,
            local_addr: config.local_addr,
            local_port: config.local_port,
            server_port,
            state: String::from_str("active"),
            bytes_sent: 0,
            bytes_recv: 0,
            created_at: now.clone(),
            last_active_at: now,
        };
        assert(info@ == tunnel_record(client_id@, config@, server_port, tunnel_id@, now@));
        proof {
            lemma_with_tunnel_wf(before, info@);
        }
        let mut ids = client.tunnel_ids;
        let ghost listed = texts(ids@);
        ids.push(tunnel_id.clone());
        assert(texts(ids@) =~= listed.push(tunnel_id@));
        tunnels_insert(
            &mut self.tunnels,
            tunnel_id,
            TunnelState { info: info.clone(), bytes_sent: 0, bytes_recv: 0 },
        );
        clients_insert(
            &mut self.clients,
            client_id.to_owned(),
            ClientState { info: client.info, tunnel_ids: ids },
        );
        assert(self@ =~= before.with_tunnel(info@));
        Ok(info)
    }

    /// Adds a tunnel for `client_id` on `server_port`, a port that the
    /// caller has bound.  The tunnel gets a fresh id and the present time.
    pub fn add_tunnel_to_client(&mut self, client_id: &str, config: TunnelConfig, server_port: u16) -> (r:
        Result<TunnelInfo, ManagerError>)
        requires
            old(self)@.wf(),
        ensures
            final(self)@.wf(),
            match r {
                Ok(info) => {
                    &&& old(self)@.clients.dom().contains(client_id@)
                    &&& old(self)@.port_free(server_port)
                    &&& !old(self)@.tunnels.dom().contains(info@.id)
                    &&& info@.id.len() == 36
                    &&& is_ascii_chars(info@.id)
                    &&& info@ == tunnel_record(
                        client_id@,
                        config@,
                        server_port,
                        info@.id,
                        info@.created_at,
                    )
                    &&& final(self)@ == old(self)@.with_tunnel(info@)
                },
                Err(e) => {
                    &&& final(self)@ == old(self)@
                    &&& e == ManagerError::ClientNotFound <==> !old(self)@.clients.dom().contains(
                        client_id@,
                    )
                    &&& e == ManagerError::PortUnavailable <==> old(self)@.clients.dom().contains(
                        client_id@,
                    ) && !old(self)@.port_free(server_port)
                    &&& e == ManagerError::ClientNotFound || e == ManagerError::PortUnavailable
                        || e == ManagerError::TunnelIdTaken
                },
            },
    {
        let tunnel_id = fresh_id();
        let now = now_rfc3339();
        self.create_tunnel(client_id, config, server_port, tunnel_id, now)
    }

    /// Closes the tunnel `tunnel_id`: takes it out of the registry and of
    /// its owner's list, and forgets every connection that runs through it.
    pub fn close_tunnel(&mut self, tunnel_id: &str) -> (r: Result<Teardown, ManagerError>)
        requires
            old(self)@.wf(),
        ensures
            final(self)@.wf(),
            final(self)@ == old(self)@.without_tunnel(tunnel_id@),
            !final(self)@.tunnels.dom().contains(tunnel_id@),
            forall|c: Id| #[trigger]
                final(self)@.clients.dom().contains(c) ==> !final(self)@.clients[c].tunnel_ids.contains(tunnel_id@),
            forall|k: Id| #[trigger]
                final(self)@.connections.dom().contains(k) ==> final(self)@.connections[k].tunnel_id != tunnel_id@,
            match r {
                Ok(td) => old(self)@.tunnels.dom().contains(tunnel_id@) && td.accounts_for(
                    old(self)@,
                    final(self)@,
                ),
                Err(e) => e == ManagerError::TunnelNotFound && !old(self)@.tunnels.dom().contains(
                    tunnel_id@,
                ),
            },
    {
        let ghost before = self@;
        let ghost t = tunnel_id@;
        proof {
            lemma_without_tunnel_wf(before, t);
            law_closed_tunnel_leaves_no_trace(before, t);
        }
        match tunnels_remove(&mut self.tunnels, tunnel_id) {
            None => Err(ManagerError::TunnelNotFound),
            Some(tunnel) => {
                assert(before.tunnel_ok(t));
                match clients_get(&self.clients, tunnel.info.client_id.as_str()) {
                    None => {},
                    Some(client) => {
                        let kept = without(&client.tunnel_ids, tunnel_id);
                        clients_insert(
                            &mut self.clients,
                            tunnel.info.client_id,
                            ClientState { info: client.info, tunnel_ids: kept },
                        );
                    },
                }
                let dropped = drop_connections(&mut self.connections, tunnel_id, true);
                let mut closed: Vec<String> = Vec::new();
                closed.push(tunnel_id.to_owned());
                proof {
                    let after = before.without_tunnel(t);
                    assert(self@.clients =~= after.clients);
                    assert(self@.tunnels =~= after.tunnels);
                    assert(self@.connections =~= after.connections);
                    assert(self@ =~= after);
                    assert(texts(closed@) =~= seq![t]);
                    assert forall|x: Id| #[trigger]
                        texts(closed@).contains(x) <==> before.tunnels.dom().contains(x)
                            && !after.tunnels.dom().contains(x) by {
                        if x == t {
                            assert(seq![t][0] == t);
                        }
                    }
                }
                Ok(Teardown { tunnels: closed, connections: dropped })
            },
        }
    }
}

impl ServerState {
    /// Enters a connection that the listener of the tunnel `tunnel_id` has
    /// accepted, under a fresh id, and returns the message that tells the
    /// tunnel's client of it.  Where the tunnel is no longer live nothing
    /// is entered.
    pub fn accept_connection(&mut self, tunnel_id: &str) -> (notice: Option<WsMessage>)
        requires
            old(self)@.wf(),
        ensures
            final(self)@.wf(),
            match notice {
                Some(m) => {
                    &&& old(self)@.tunnels.dom().contains(tunnel_id@)
                    &&& m@ matches WsMessageView::NewConnection { tunnel_id: t, conn_id: k }
                    &&& t == tunnel_id@
                    &&& k.len() == 36
                    &&& is_ascii_chars(k)
                    &&& final(self)@ == old(self)@.with_connection(k, tunnel_id@)
                },
                None => !old(self)@.tunnels.dom().contains(tunnel_id@) && final(self)@ == old(
                    self,
                )@,
            },
    {
        let conn_id = fresh_id();
        self.open_connection(tunnel_id, conn_id)
    }

    /// Enters a connection that came in on the tunnel `tunnel_id`, and
    /// returns the message that tells the tunnel's client of it.  Where the
    /// tunnel is no longer live nothing is entered.
    pub fn open_connection(&mut self, tunnel_id: &str, conn_id: String) -> (notice: Option<
        WsMessage,
    >)
        requires
            old(self)@.wf(),
        ensures
            final(self)@.wf(),
            final(self)@ == (if old(self)@.tunnels.dom().contains(tunnel_id@) {
                old(self)@.with_connection(conn_id@, tunnel_id@)
            } else {
                old(self)@
            }),
            match notice {
                Some(m) => old(self)@.tunnels.dom().contains(tunnel_id@) && m@ == (
                    WsMessageView::NewConnection { tunnel_id: tunnel_id@, conn_id: conn_id@ }),
                None => !old(self)@.tunnels.dom().contains(tunnel_id@),
            },
            notice is Some ==> {
                &&& final(self)@.connections.dom().contains(conn_id@)
                &&& final(self)@.tunnels.dom().contains(
                    final(self)@.connections[conn_id@].tunnel_id,
                )
                &&& final(self)@.clients.dom().contains(
                    final(self)@.connections[conn_id@].client_id,
                )
            },
    {
        proof {
            if self@.tunnels.dom().contains(tunnel_id@) {
                law_connection_enters_on_live_tunnel(self@, conn_id@, tunnel_id@);
            }
        }
        match tunnels_get(&self.tunnels, tunnel_id) {
            None => None,
            Some(tunnel) => {
                proof {
                    lemma_with_connection_wf(self@, conn_id@, tunnel_id@);
                }
                let notice = WsMessage::NewConnection {
                    tunnel_id: tunnel.info.id.clone(),
                    conn_id: conn_id.clone(),
                };
                let record = ConnectionState {
                    tunnel_id: tunnel.info.id,
                    client_id: tunnel.info.client_id,
                };
                assert(old(self)@.tunnel_ok(tunnel_id@));
                connections_insert(&mut self.connections, conn_id, record);
                assert(self@ =~= old(self)@.with_connection(conn_id@, tunnel_id@));
                Some(notice)
            },
        }
    }

    /// Forgets the connection `conn_id`, as the dispatcher does when the
    /// client says it is closed.  Returns whether it was tracked.
    pub fn close_connection(&mut self, conn_id: &str) -> (was_known: bool)
        requires
            old(self)@.wf(),
        ensures
            final(self)@.wf(),
            final(self)@ == old(self)@.without_connection(conn_id@),
            was_known == old(self)@.connections.dom().contains(conn_id@),
    {
        proof {
            lemma_without_connection_wf(self@, conn_id@);
        }
        let gone = connections_remove(&mut self.connections, conn_id);
        assert(self@ =~= old(self)@.without_connection(conn_id@));
        gone.is_some()
    }

    /// Forgets the connection `conn_id` when one of its pumps has stopped,
    /// and returns the message that tells the client so.
    pub fn finish_connection(&mut self, conn_id: &str) -> (notice: WsMessage)
        requires
            old(self)@.wf(),
        ensures
            final(self)@.wf(),
            final(self)@ == old(self)@.without_connection(conn_id@),
            notice@ == (WsMessageView::CloseConnection { conn_id: conn_id@ }),
    {
        let _ = self.close_connection(conn_id);
        WsMessage::CloseConnection { conn_id: conn_id.to_owned() }
    }

    /// Counts `n` bytes that the read pump of the tunnel `tunnel_id` has
    /// taken from an external socket and passed on to the client.
    pub fn record_sent(&mut self, tunnel_id: &str, n: usize)
        requires
            old(self)@.wf(),
        ensures
            final(self)@.wf(),
            final(self)@ == old(self)@.with_traffic(tunnel_id@, n as nat, 0),
    {
        self.record_traffic(tunnel_id, n, 0);
    }

    /// Counts `n` bytes that the write pump of the tunnel `tunnel_id` has
    /// received from the client for an external socket.
    pub fn record_received(&mut self, tunnel_id: &str, n: usize)
        requires
            old(self)@.wf(),
        ensures
            final(self)@.wf(),
            final(self)@ == old(self)@.with_traffic(tunnel_id@, 0, n as nat),
    {
        self.record_traffic(tunnel_id, 0, n);
    }

    fn record_traffic(&mut self, tunnel_id: &str, sent: usize, recv: usize)
        requires
            old(self)@.wf(),
        ensures
            final(self)@.wf(),
            final(self)@ == old(self)@.with_traffic(tunnel_id@, sent as nat, recv as nat),
    {
        proof {
            lemma_with_traffic_wf(self@, tunnel_id@, sent as nat, recv as nat);
        }
        match tunnels_get(&self.tunnels, tunnel_id) {
            None => {},
            Some(tunnel) => {
                let updated = TunnelState {
                    bytes_sent: count_bytes(tunnel.bytes_sent, sent),
                    bytes_recv: count_bytes(tunnel.bytes_recv, recv),
                    info: tunnel.info,
                };
                tunnels_insert(&mut self.tunnels, tunnel_id.to_owned(), updated);
                assert(self@ =~= old(self)@.with_traffic(tunnel_id@, sent as nat, recv as nat));
            },
        }
    }
}

} // verus!
