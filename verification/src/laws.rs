//! What the steps of the registry preserve and guarantee.

use vstd::prelude::*;
use crate::protocol::ClientInfoView;
use crate::protocol::TunnelInfoView;
use crate::registry::without_id;
use crate::text::law_decimal_is_injective;
use crate::registry::Id;
use crate::registry::PortSearch;
use crate::registry::Registry;

verus! {

/// `without_id` keeps exactly the ids other than `t`, and introduces no
/// duplicate.
pub proof fn lemma_without_id(ids: Seq<Id>, t: Id)
    ensures
        forall|x: Id| #[trigger] without_id(ids, t).contains(x) <==> ids.contains(x) && x != t,
        ids.no_duplicates() ==> without_id(ids, t).no_duplicates(),
        !ids.contains(t) ==> without_id(ids, t) == ids,
    decreases ids.len(),
{
    if ids.len() == 0 {
    } else {
        let front = ids.drop_last();
        let kept = without_id(front, t);
        lemma_without_id(front, t);
        assert(ids =~= front.push(ids.last()));
        assert forall|x: Id| #[trigger] without_id(ids, t).contains(x) <==> ids.contains(x) && x
            != t by {
            if ids.contains(x) && x != t {
                let i = choose|i: int| 0 <= i < ids.len() && ids[i] == x;
                if i < front.len() {
                    assert(front[i] == x);
                    assert(front.contains(x));
                    assert(kept.contains(x));
                    let j = choose|j: int| 0 <= j < kept.len() && kept[j] == x;
                    assert(without_id(ids, t)[j] == x);
                } else {
                    assert(ids.last() == x);
                    assert(without_id(ids, t) == kept.push(x));
                    assert(kept.push(x)[kept.len() as int] == x);
                }
            }
            if without_id(ids, t).contains(x) {
                let j = choose|j: int| 0 <= j < without_id(ids, t).len() && without_id(ids, t)[j]
                    == x;
                if j < kept.len() {
                    assert(kept[j] == x);
                    assert(kept.contains(x));
                    let i = choose|i: int| 0 <= i < front.len() && front[i] == x;
                    assert(ids[i] == x);
                } else {
                    assert(ids[ids.len() - 1] == x);
                }
            }
        }
        if ids.no_duplicates() {
            assert(front.no_duplicates());
            if ids.last() != t {
                assert(!front.contains(ids.last())) by {
                    if front.contains(ids.last()) {
                        let i = choose|i: int| 0 <= i < front.len() && front[i] == ids.last();
                        assert(ids[i] == ids[ids.len() - 1]);
                    }
                }
                assert(!kept.contains(ids.last()));
                assert forall|i: int, j: int|
                    0 <= i < kept.len() + 1 && 0 <= j < kept.len() + 1 && i != j implies kept.push(
                    ids.last(),
                )[i] != kept.push(ids.last())[j] by {
                    if i < kept.len() {
                        assert(kept.contains(kept[i]));
                    }
                    if j < kept.len() {
                        assert(kept.contains(kept[j]));
                    }
                }
            }
        }
        if !ids.contains(t) {
            assert(!front.contains(t)) by {
                if front.contains(t) {
                    let i = choose|i: int| 0 <= i < front.len() && front[i] == t;
                    assert(ids[i] == t);
                }
            }
            assert(ids[ids.len() - 1] != t);
        }
    }
}

/// Removing clients keeps the registry well formed.
pub proof fn lemma_without_clients_wf(r: Registry, gone: Set<Id>)
    requires
        r.wf(),
    ensures
        r.without_clients(gone).wf(),
{
    let after = r.without_clients(gone);
    assert forall|c: Id| #[trigger] after.clients.dom().contains(c) implies after.client_ok(c) by {
        assert(r.clients.dom().contains(c));
        assert(r.client_ok(c));
        let ids = r.clients[c].tunnel_ids;
        assert forall|i: int| 0 <= i < ids.len() implies after.tunnels.dom().contains(
            #[trigger] ids[i],
        ) && after.tunnels[ids[i]].info.client_id == c by {
            assert(r.tunnels.dom().contains(ids[i]));
        }
    }
    assert forall|t: Id| #[trigger] after.tunnels.dom().contains(t) implies after.tunnel_ok(t) by {
        assert(r.tunnels.dom().contains(t));
        assert(r.tunnel_ok(t));
    }
    assert forall|k: Id| #[trigger] after.connections.dom().contains(k) implies after.connection_ok(
        k,
    ) by {
        assert(r.connections.dom().contains(k));
        assert(r.connection_ok(k));
        assert(r.tunnels.dom().contains(r.connections[k].tunnel_id));
    }
    assert forall|t1: Id, t2: Id|
        #[trigger] after.tunnels.dom().contains(t1) && #[trigger] after.tunnels.dom().contains(t2)
            && t1 != t2 implies after.tunnels[t1].info.server_port
        != after.tunnels[t2].info.server_port by {
        assert(r.tunnels.dom().contains(t1));
        assert(r.tunnels.dom().contains(t2));
    }
}

/// Removing clients in two rounds is removing them all at once.
pub proof fn lemma_without_clients_twice(r: Registry, first: Set<Id>, second: Set<Id>)
    ensures
        r.without_clients(first).without_clients(second) == r.without_clients(first.union(second)),
{
    let a = r.without_clients(first).without_clients(second);
    let b = r.without_clients(first.union(second));
    assert(a.clients =~= b.clients);
    assert(a.tunnels =~= b.tunnels);
    assert(a.connections =~= b.connections);
    assert(a =~= b);
}

/// Removing clients that are not registered changes nothing.
pub proof fn lemma_without_absent_clients(r: Registry, gone: Set<Id>)
    requires
        r.wf(),
        forall|c: Id| gone.contains(c) ==> !r.clients.dom().contains(c),
    ensures
        r.without_clients(gone) == r,
{
    let after = r.without_clients(gone);
    assert(after.clients =~= r.clients);
    assert forall|t: Id| r.tunnels.dom().contains(t) implies #[trigger] after.tunnels.dom().contains(
        t,
    ) by {
        assert(r.tunnel_ok(t));
    }
    assert(after.tunnels =~= r.tunnels);
    assert forall|k: Id|
        r.connections.dom().contains(k) implies #[trigger] after.connections.dom().contains(k) by {
        assert(r.connection_ok(k));
        assert(r.tunnel_ok(r.connections[k].tunnel_id));
    }
    assert(after.connections =~= r.connections);
    assert(after =~= r);
}

/// A registration keeps the registry well formed.
pub proof fn lemma_with_client_wf(r: Registry, info: ClientInfoView)
    requires
        r.wf(),
    ensures
        r.with_client(info).wf(),
{
    let id = r.assigned_id(info);
    let cleared = r.without_clients(r.displaced_by(info));
    lemma_without_clients_wf(r, r.displaced_by(info));
    let after = r.with_client(info);
    assert(!cleared.clients.dom().contains(id));
    assert forall|c: Id| #[trigger] after.clients.dom().contains(c) implies after.client_ok(c) by {
        if c != id {
            assert(cleared.clients.dom().contains(c));
            assert(cleared.client_ok(c));
        }
    }
    assert forall|t: Id| #[trigger] after.tunnels.dom().contains(t) implies after.tunnel_ok(t) by {
        assert(cleared.tunnels.dom().contains(t));
        assert(cleared.tunnel_ok(t));
    }
    assert forall|k: Id| #[trigger] after.connections.dom().contains(k) implies after.connection_ok(
        k,
    ) by {
        assert(cleared.connections.dom().contains(k));
        assert(cleared.connection_ok(k));
    }
}

/// Adding a tunnel that the registry admits keeps it well formed.
pub proof fn lemma_with_tunnel_wf(r: Registry, info: TunnelInfoView)
    requires
        r.wf(),
        r.admits_tunnel(info.client_id, info.id, info.server_port),
    ensures
        r.with_tunnel(info).wf(),
{
    let after = r.with_tunnel(info);
    let owner = info.client_id;
    assert forall|c: Id| #[trigger] after.clients.dom().contains(c) implies after.client_ok(c) by {
        assert(r.clients.dom().contains(c));
        assert(r.client_ok(c));
        let before = r.clients[c].tunnel_ids;
        let ids = after.clients[c].tunnel_ids;
        assert forall|i: int| 0 <= i < before.len() implies #[trigger] before[i] != info.id by {
            assert(r.tunnels.dom().contains(before[i]));
        }
        if c == owner {
            assert(ids == before.push(info.id));
            assert forall|i: int| 0 <= i < ids.len() implies after.tunnels.dom().contains(
                #[trigger] ids[i],
            ) && after.tunnels[ids[i]].info.client_id == c by {
                if i < before.len() {
                    assert(ids[i] == before[i]);
                    assert(r.tunnels.dom().contains(before[i]));
                }
            }
            assert forall|i: int, j: int|
                0 <= i < ids.len() && 0 <= j < ids.len() && i != j implies ids[i] != ids[j] by {
                if i < before.len() {
                    assert(ids[i] == before[i]);
                }
                if j < before.len() {
                    assert(ids[j] == before[j]);
                }
            }
        } else {
            assert(ids == before);
            assert forall|i: int| 0 <= i < ids.len() implies after.tunnels.dom().contains(
                #[trigger] ids[i],
            ) && after.tunnels[ids[i]].info.client_id == c by {
                assert(r.tunnels.dom().contains(before[i]));
            }
        }
    }
    assert forall|t: Id| #[trigger] after.tunnels.dom().contains(t) implies after.tunnel_ok(t) by {
        if t == info.id {
            let ids = after.clients[owner].tunnel_ids;
            assert(ids[ids.len() - 1] == t);
        } else {
            assert(r.tunnels.dom().contains(t));
            assert(r.tunnel_ok(t));
            let holder = r.tunnels[t].info.client_id;
            let before = r.clients[holder].tunnel_ids;
            let i = choose|i: int| 0 <= i < before.len() && before[i] == t;
            if holder == owner {
                assert(before.push(info.id)[i] == t);
            }
        }
    }
    assert forall|k: Id| #[trigger] after.connections.dom().contains(k) implies after.connection_ok(
        k,
    ) by {
        assert(r.connection_ok(k));
    }
    assert forall|t1: Id, t2: Id|
        #[trigger] after.tunnels.dom().contains(t1) && #[trigger] after.tunnels.dom().contains(t2)
            && t1 != t2 implies after.tunnels[t1].info.server_port
        != after.tunnels[t2].info.server_port by {
        if t1 != info.id {
            assert(r.tunnels.dom().contains(t1));
        }
        if t2 != info.id {
            assert(r.tunnels.dom().contains(t2));
        }
    }
}

/// Closing a tunnel keeps the registry well formed.
pub proof fn lemma_without_tunnel_wf(r: Registry, t: Id)
    requires
        r.wf(),
    ensures
        r.without_tunnel(t).wf(),
{
    if r.tunnels.dom().contains(t) {
        let after = r.without_tunnel(t);
        let owner = r.tunnels[t].info.client_id;
        assert(r.tunnel_ok(t));
        lemma_without_id(r.clients[owner].tunnel_ids, t);
        assert forall|c: Id| #[trigger] after.clients.dom().contains(c) implies after.client_ok(
            c,
        ) by {
            assert(r.clients.dom().contains(c));
            assert(r.client_ok(c));
            let before = r.clients[c].tunnel_ids;
            let ids = after.clients[c].tunnel_ids;
            assert forall|i: int| 0 <= i < ids.len() implies after.tunnels.dom().contains(
                #[trigger] ids[i],
            ) && after.tunnels[ids[i]].info.client_id == c by {
                if c == owner {
                    assert(ids.contains(ids[i]));
                    assert(before.contains(ids[i]));
                    let j = choose|j: int| 0 <= j < before.len() && before[j] == ids[i];
                    assert(r.tunnels.dom().contains(before[j]));
                } else {
                    assert(r.tunnels.dom().contains(before[i]));
                }
            }
        }
        assert forall|x: Id| #[trigger] after.tunnels.dom().contains(x) implies after.tunnel_ok(
            x,
        ) by {
            assert(r.tunnels.dom().contains(x));
            assert(r.tunnel_ok(x));
        }
        assert forall|k: Id| #[trigger] after.connections.dom().contains(k) implies after.connection_ok(
        k) by {
            assert(r.connections.dom().contains(k));
            assert(r.connection_ok(k));
        }
        assert forall|t1: Id, t2: Id|
            #[trigger] after.tunnels.dom().contains(t1) && #[trigger] after.tunnels.dom().contains(
                t2,
            ) && t1 != t2 implies after.tunnels[t1].info.server_port
            != after.tunnels[t2].info.server_port by {
            assert(r.tunnels.dom().contains(t1));
            assert(r.tunnels.dom().contains(t2));
        }
    }
}

/// A connection that comes in on a live tunnel keeps the registry well
/// formed.
pub proof fn lemma_with_connection_wf(r: Registry, k: Id, t: Id)
    requires
        r.wf(),
        r.tunnels.dom().contains(t),
    ensures
        r.with_connection(k, t).wf(),
{
    let after = r.with_connection(k, t);
    assert forall|c: Id| #[trigger] after.clients.dom().contains(c) implies after.client_ok(c) by {
        assert(r.client_ok(c));
    }
    assert forall|x: Id| #[trigger] after.tunnels.dom().contains(x) implies after.tunnel_ok(x) by {
        assert(r.tunnel_ok(x));
    }
    assert forall|x: Id| #[trigger] after.connections.dom().contains(x) implies after.connection_ok(
        x,
    ) by {
        if x != k {
            assert(r.connection_ok(x));
        }
    }
}

/// The end of a connection keeps the registry well formed.
pub proof fn lemma_without_connection_wf(r: Registry, k: Id)
    requires
        r.wf(),
    ensures
        r.without_connection(k).wf(),
{
    let after = r.without_connection(k);
    assert forall|c: Id| #[trigger] after.clients.dom().contains(c) implies after.client_ok(c) by {
        assert(r.client_ok(c));
    }
    assert forall|x: Id| #[trigger] after.tunnels.dom().contains(x) implies after.tunnel_ok(x) by {
        assert(r.tunnel_ok(x));
    }
    assert forall|x: Id| #[trigger] after.connections.dom().contains(x) implies after.connection_ok(
        x,
    ) by {
        assert(r.connection_ok(x));
    }
}

/// Counting traffic keeps the registry well formed.
pub proof fn lemma_with_traffic_wf(r: Registry, t: Id, sent: nat, recv: nat)
    requires
        r.wf(),
    ensures
        r.with_traffic(t, sent, recv).wf(),
{
    let after = r.with_traffic(t, sent, recv);
    assert forall|c: Id| #[trigger] after.clients.dom().contains(c) implies after.client_ok(c) by {
        assert(r.client_ok(c));
        let ids = r.clients[c].tunnel_ids;
        assert forall|i: int| 0 <= i < ids.len() implies after.tunnels.dom().contains(
            #[trigger] ids[i],
        ) && after.tunnels[ids[i]].info.client_id == c by {
            assert(r.tunnels.dom().contains(ids[i]));
        }
    }
    assert forall|x: Id| #[trigger] after.tunnels.dom().contains(x) implies after.tunnel_ok(x) by {
        assert(r.tunnels.dom().contains(x));
        assert(r.tunnel_ok(x));
    }
    assert forall|x: Id| #[trigger] after.connections.dom().contains(x) implies after.connection_ok(
        x,
    ) by {
        assert(r.connection_ok(x));
        assert(r.tunnels.dom().contains(r.connections[x].tunnel_id));
    }
    assert forall|t1: Id, t2: Id|
        #[trigger] after.tunnels.dom().contains(t1) && #[trigger] after.tunnels.dom().contains(t2)
            && t1 != t2 implies after.tunnels[t1].info.server_port
        != after.tunnels[t2].info.server_port by {
        assert(r.tunnels.dom().contains(t1));
        assert(r.tunnels.dom().contains(t2));
    }
}

/// The first free port from `from` on is free, is not below `from`, and no
/// port between the two is free.  Where there is none, no port from `from`
/// on is free.
pub proof fn lemma_first_free_port(r: Registry, from: int)
    requires
        0 <= from,
    ensures
        match r.first_free_port(from) {
            Some(p) => from <= p && r.port_free(p) && forall|q: u16|
                from <= q < p ==> !r.port_free(q),
            None => forall|q: u16| from <= q ==> !r.port_free(q),
        },
    decreases r.port_end + 1 - from,
{
    if from <= r.port_end && !r.port_free(from as u16) {
        lemma_first_free_port(r, from + 1);
    }
}

/// Below the range no port is free, so a scan from there finds what a scan
/// from the start of the range finds.
pub proof fn lemma_first_free_port_below_range(r: Registry, from: int)
    requires
        0 <= from <= r.port_start,
    ensures
        r.first_free_port(from) == r.first_free_port(r.port_start as int),
    decreases r.port_start - from,
{
    if from < r.port_start {
        lemma_first_free_port_below_range(r, from + 1);
    }
}

/// Every port that the search offers lies in the range and is held by no
/// live tunnel.
pub proof fn law_offered_port_is_free(r: Registry, search: PortSearch)
    ensures
        r.port_step(search).0 matches Some(p) ==> r.port_free(p),
{
    if let Some(from) = search.scan_from {
        lemma_first_free_port(r, from as int);
    }
}

/// At the moment a connection is entered, its tunnel is live and its
/// client is registered.
pub proof fn law_connection_enters_on_live_tunnel(r: Registry, k: Id, t: Id)
    requires
        r.wf(),
        r.tunnels.dom().contains(t),
    ensures
        ({
            let after = r.with_connection(k, t);
            &&& after.connections.dom().contains(k)
            &&& after.tunnels.dom().contains(after.connections[k].tunnel_id)
            &&& after.clients.dom().contains(after.connections[k].client_id)
        }),
{
    assert(r.tunnel_ok(t));
}

/// In a well-formed registry every connection's tunnel is live and every
/// connection's client is registered.
pub proof fn law_connections_rest_on_live_state(r: Registry, k: Id)
    requires
        r.wf(),
        r.connections.dom().contains(k),
    ensures
        r.tunnels.dom().contains(r.connections[k].tunnel_id),
        r.clients.dom().contains(r.connections[k].client_id),
{
    assert(r.connection_ok(k));
    assert(r.tunnel_ok(r.connections[k].tunnel_id));
}

/// Once a tunnel is closed it is not in the tunnels map, no client lists
/// it, and no connection belongs to it.
pub proof fn law_closed_tunnel_leaves_no_trace(r: Registry, t: Id)
    requires
        r.wf(),
    ensures
        ({
            let after = r.without_tunnel(t);
            &&& !after.tunnels.dom().contains(t)
            &&& forall|c: Id| #[trigger]
                after.clients.dom().contains(c) ==> !after.clients[c].tunnel_ids.contains(t)
            &&& forall|k: Id| #[trigger]
                after.connections.dom().contains(k) ==> after.connections[k].tunnel_id != t
        }),
{
    let after = r.without_tunnel(t);
    lemma_without_tunnel_wf(r, t);
    assert forall|c: Id| #[trigger] after.clients.dom().contains(c) implies !after.clients[c].tunnel_ids.contains(
    t) by {
        assert(after.client_ok(c));
        let ids = after.clients[c].tunnel_ids;
        if ids.contains(t) {
            let i = choose|i: int| 0 <= i < ids.len() && ids[i] == t;
            assert(after.tunnels.dom().contains(ids[i]));
        }
    }
    assert forall|k: Id| #[trigger] after.connections.dom().contains(k) implies after.connections[k].tunnel_id
        != t by {
        assert(after.connection_ok(k));
    }
}

/// Once a client is removed it is not in the clients map, no tunnel
/// belongs to it, and no connection belongs to it.
pub proof fn law_removed_client_leaves_no_trace(r: Registry, c: Id)
    ensures
        ({
            let after = r.without_client(c);
            &&& !after.clients.dom().contains(c)
            &&& forall|t: Id| #[trigger]
                after.tunnels.dom().contains(t) ==> after.tunnels[t].info.client_id != c
            &&& forall|k: Id| #[trigger]
                after.connections.dom().contains(k) ==> after.connections[k].client_id != c
        }),
{
}

/// After a client with a name has registered, it is the only client of
/// that name, and it is registered under the id it was given.
pub proof fn law_registered_name_is_unique(r: Registry, info: ClientInfoView)
    requires
        r.wf(),
        info.name.len() > 0,
    ensures
        ({
            let after = r.with_client(info);
            let id = r.assigned_id(info);
            &&& after.clients.dom().contains(id)
            &&& after.clients[id].info.name == info.name
            &&& after.clients[id].tunnel_ids.len() == 0
            &&& forall|c: Id| #[trigger]
                after.clients.dom().contains(c) && after.clients[c].info.name == info.name ==> c
                    == id
        }),
{
}

/// Two registrations in a row that both draw their id from the counter are
/// given different ids, as long as the counter has not reached its end.
pub proof fn law_drawn_ids_differ(r: Registry, first: ClientInfoView, second: ClientInfoView)
    requires
        Registry::draws_id(first),
        Registry::draws_id(second),
        r.next_client_id < u64::MAX,
    ensures
        r.with_client(first).assigned_id(second) != r.assigned_id(first),
{
    law_decimal_is_injective(r.next_client_id as nat, (r.next_client_id + 1) as nat);
}

/// A registration leaves alone every client that it does not displace,
/// with its tunnels and their connections.
pub proof fn law_registration_spares_the_rest(r: Registry, info: ClientInfoView, c: Id)
    requires
        r.wf(),
        r.clients.dom().contains(c),
        !r.displaced_by(info).contains(c),
    ensures
        ({
            let after = r.with_client(info);
            &&& after.clients.dom().contains(c)
            &&& after.clients[c] == r.clients[c]
            &&& forall|t: Id| #[trigger]
                r.tunnels.dom().contains(t) && r.tunnels[t].info.client_id == c
                    ==> after.tunnels.dom().contains(t) && after.tunnels[t] == r.tunnels[t]
            &&& forall|k: Id| #[trigger]
                r.connections.dom().contains(k) && r.connections[k].client_id == c
                    ==> after.connections.dom().contains(k) && after.connections[k]
                    == r.connections[k]
        }),
{
}

/// In a well-formed registry every tunnel's port lies in the range, and no
/// two tunnels hold the same port.
pub proof fn law_ports_in_range_and_distinct(r: Registry, t1: Id, t2: Id)
    requires
        r.wf(),
        r.tunnels.dom().contains(t1),
        r.tunnels.dom().contains(t2),
    ensures
        r.port_start <= r.tunnels[t1].info.server_port <= r.port_end,
        t1 != t2 ==> r.tunnels[t1].info.server_port != r.tunnels[t2].info.server_port,
{
    assert(r.tunnel_ok(t1));
}

} // verus!
