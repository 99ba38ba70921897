//! The three concurrent maps of the registry.
//!
//! Each is a `DashMap` keyed by the text of an id.  What a map holds is
//! named here, and each operation the registry uses is stated over that
//! name.  Every operation that changes a map takes it by `&mut`: the
//! registry is the only writer.

use vstd::prelude::*;
use dashmap::DashMap;
use crate::manager::ClientState;
use crate::manager::ConnectionState;
use crate::manager::TunnelState;
use crate::registry::ClientStateView;
use crate::registry::ConnectionStateView;
use crate::registry::Id;
use crate::registry::TunnelStateView;

verus! {

#[verifier::external_type_specification]
#[verifier::external_body]
#[verifier::reject_recursive_types(K)]
#[verifier::reject_recursive_types(V)]
#[verifier::reject_recursive_types(S)]
pub struct ExDashMap<K, V, S>(DashMap<K, V, S>);

/// The keys of a run of entries, in their order.
pub open spec fn entry_keys<V>(entries: Seq<(String, V)>) -> Seq<Id> {
    Seq::new(entries.len(), |i: int| entries[i].0@)
}

/// What the clients map holds.
pub uninterp spec fn client_entries(m: DashMap<String, ClientState>) -> Map<Id, ClientStateView>;

/// What the tunnels map holds.
pub uninterp spec fn tunnel_entries(m: DashMap<String, TunnelState>) -> Map<Id, TunnelStateView>;

/// What the connections map holds.
pub uninterp spec fn connection_entries(m: DashMap<String, ConnectionState>) -> Map<
    Id,
    ConnectionStateView,
>;

/// `DashMap::new`: a map that holds nothing.
#[verifier::external_body]
pub(crate) fn clients_new() -> (m: DashMap<String, ClientState>)
    ensures
        client_entries(m).dom() == Set::<Id>::empty(),
{
    DashMap::new()
}

/// `DashMap::insert`: the map holds `value` under `key` and is otherwise
/// as before.
#[verifier::external_body]
pub(crate) fn clients_insert(m: &mut DashMap<String, ClientState>, key: String, value: ClientState)
    ensures
        client_entries(*final(m)) == client_entries(*old(m)).insert(key@, value@),
{
    m.insert(key, value);
}

/// `DashMap::remove`: the entry under `key` leaves the map and is handed
/// back, if there was one.
#[verifier::external_body]
pub(crate) fn clients_remove(m: &mut DashMap<String, ClientState>, key: &str) -> (gone: Option<
    ClientState,
>)
    ensures
        client_entries(*final(m)) == client_entries(*old(m)).remove(key@),
        gone is Some <==> client_entries(*old(m)).dom().contains(key@),
        gone matches Some(v) ==> v@ == client_entries(*old(m))[key@],
{
    m.remove(key).map(|entry| entry.1)
}

/// `DashMap::get`: a copy of the value under `key`, if there is one.
#[verifier::external_body]
pub(crate) fn clients_get(m: &DashMap<String, ClientState>, key: &str) -> (found: Option<
    ClientState,
>)
    ensures
        found is Some <==> client_entries(*m).dom().contains(key@),
        found matches Some(v) ==> v@ == client_entries(*m)[key@],
{
    m.get(key).map(|entry| entry.value().clone())
}

/// `DashMap::iter`: a copy of every entry, each key once, in no promised
/// order.
#[verifier::external_body]
pub(crate) fn clients_snapshot(m: &DashMap<String, ClientState>) -> (entries: Vec<
    (String, ClientState),
>)
    ensures
        entry_keys(entries@).no_duplicates(),
        entry_keys(entries@).to_set() == client_entries(*m).dom(),
        forall|i: int|
            0 <= i < entries.len() ==> (#[trigger] entries[i]).1@ == client_entries(
                *m,
            )[entries[i].0@],
{
    m.iter().map(|entry| (entry.key().clone(), entry.value().clone())).collect()
}

/// `DashMap::len`: the number of entries.
#[verifier::external_body]
pub(crate) fn clients_len(m: &DashMap<String, ClientState>) -> (count: usize)
    ensures
        count == client_entries(*m).dom().len(),
{
    m.len()
}

/// `DashMap::new`: a map that holds nothing.
#[verifier::external_body]
pub(crate) fn tunnels_new() -> (m: DashMap<String, TunnelState>)
    ensures
        tunnel_entries(m).dom() == Set::<Id>::empty(),
{
    DashMap::new()
}

/// `DashMap::insert`: the map holds `value` under `key` and is otherwise
/// as before.
#[verifier::external_body]
pub(crate) fn tunnels_insert(m: &mut DashMap<String, TunnelState>, key: String, value: TunnelState)
    ensures
        tunnel_entries(*final(m)) == tunnel_entries(*old(m)).insert(key@, value@),
{
    m.insert(key, value);
}

/// `DashMap::remove`: the entry under `key` leaves the map and is handed
/// back, if there was one.
#[verifier::external_body]
pub(crate) fn tunnels_remove(m: &mut DashMap<String, TunnelState>, key: &str) -> (gone: Option<
    TunnelState,
>)
    ensures
        tunnel_entries(*final(m)) == tunnel_entries(*old(m)).remove(key@),
        gone is Some <==> tunnel_entries(*old(m)).dom().contains(key@),
        gone matches Some(v) ==> v@ == tunnel_entries(*old(m))[key@],
{
    m.remove(key).map(|entry| entry.1)
}

/// `DashMap::get`: a copy of the value under `key`, if there is one.
#[verifier::external_body]
pub(crate) fn tunnels_get(m: &DashMap<String, TunnelState>, key: &str) -> (found: Option<
    TunnelState,
>)
    ensures
        found is Some <==> tunnel_entries(*m).dom().contains(key@),
        found matches Some(v) ==> v@ == tunnel_entries(*m)[key@],
{
    m.get(key).map(|entry| entry.value().clone())
}

/// `DashMap::iter`: a copy of every entry, each key once, in no promised
/// order.
#[verifier::external_body]
pub(crate) fn tunnels_snapshot(m: &DashMap<String, TunnelState>) -> (entries: Vec<
    (String, TunnelState),
>)
    ensures
        entry_keys(entries@).no_duplicates(),
        entry_keys(entries@).to_set() == tunnel_entries(*m).dom(),
        forall|i: int|
            0 <= i < entries.len() ==> (#[trigger] entries[i]).1@ == tunnel_entries(
                *m,
            )[entries[i].0@],
{
    m.iter().map(|entry| (entry.key().clone(), entry.value().clone())).collect()
}

/// `DashMap::len`: the number of entries.
#[verifier::external_body]
pub(crate) fn tunnels_len(m: &DashMap<String, TunnelState>) -> (count: usize)
    ensures
        count == tunnel_entries(*m).dom().len(),
{
    m.len()
}

/// `DashMap::new`: a map that holds nothing.
#[verifier::external_body]
pub(crate) fn connections_new() -> (m: DashMap<String, ConnectionState>)
    ensures
        connection_entries(m).dom() == Set::<Id>::empty(),
{
    DashMap::new()
}

/// `DashMap::insert`: the map holds `value` under `key` and is otherwise
/// as before.
#[verifier::external_body]
pub(crate) fn connections_insert(
    m: &mut DashMap<String, ConnectionState>,
    key: String,
    value: ConnectionState,
)
    ensures
        connection_entries(*final(m)) == connection_entries(*old(m)).insert(key@, value@),
{
    m.insert(key, value);
}

/// `DashMap::remove`: the entry under `key` leaves the map and is handed
/// back, if there was one.
#[verifier::external_body]
pub(crate) fn connections_remove(m: &mut DashMap<String, ConnectionState>, key: &str) -> (gone:
    Option<ConnectionState>)
    ensures
        connection_entries(*final(m)) == connection_entries(*old(m)).remove(key@),
        gone is Some <==> connection_entries(*old(m)).dom().contains(key@),
        gone matches Some(v) ==> v@ == connection_entries(*old(m))[key@],
{
    m.remove(key).map(|entry| entry.1)
}

/// `DashMap::get`: a copy of the value under `key`, if there is one.
#[verifier::external_body]
pub(crate) fn connections_get(m: &DashMap<String, ConnectionState>, key: &str) -> (found: Option<
    ConnectionState,
>)
    ensures
        found is Some <==> connection_entries(*m).dom().contains(key@),
        found matches Some(v) ==> v@ == connection_entries(*m)[key@],
{
    m.get(key).map(|entry| entry.value().clone())
}

/// `DashMap::iter`: a copy of every entry, each key once, in no promised
/// order.
#[verifier::external_body]
pub(crate) fn connections_snapshot(m: &DashMap<String, ConnectionState>) -> (entries: Vec<
    (String, ConnectionState),
>)
    ensures
        entry_keys(entries@).no_duplicates(),
        entry_keys(entries@).to_set() == connection_entries(*m).dom(),
        forall|i: int|
            0 <= i < entries.len() ==> (#[trigger] entries[i]).1@ == connection_entries(
                *m,
            )[entries[i].0@],
{
    m.iter().map(|entry| (entry.key().clone(), entry.value().clone())).collect()
}

/// `DashMap::len`: the number of entries.
#[verifier::external_body]
pub(crate) fn connections_len(m: &DashMap<String, ConnectionState>) -> (count: usize)
    ensures
        count == connection_entries(*m).dom().len(),
{
    m.len()
}

} // verus!
