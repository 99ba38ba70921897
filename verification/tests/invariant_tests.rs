use std::collections::BTreeMap;
use std::collections::BTreeSet;

use cec_tunnel::manager::ServerState;
use cec_tunnel::protocol::ClientInfo;
use cec_tunnel::protocol::TunnelConfig;
use cec_tunnel::protocol::TunnelType;
use cec_tunnel::registry::ManagerError;

struct Dice(u64);

impl Dice {
    fn roll(&mut self, sides: u64) -> u64 {
        self.0 = self.0.wrapping_mul(6364136223846793005).wrapping_add(1442695040888963407);
        (self.0 >> 33) % sides
    }
}

#[derive(Default)]
struct Model {
    clients: BTreeMap<String, (String, Vec<String>)>,
    tunnels: BTreeMap<String, (String, u16)>,
    connections: BTreeMap<String, (String, String)>,
    next: u64,
}

impl Model {
    fn remove_client(&mut self, id: &str) {
        if self.clients.remove(id).is_some() {
            self.tunnels.retain(|_, t| t.0 != id);
            self.connections.retain(|_, c| c.1 != id);
        }
    }

    fn close_tunnel(&mut self, id: &str) -> bool {
        match self.tunnels.remove(id) {
            None => false,
            Some((owner, _)) => {
                if let Some(client) = self.clients.get_mut(&owner) {
                    client.1.retain(|t| t != id);
                }
                self.connections.retain(|_, c| c.0 != id);
                true
            }
        }
    }

    fn register(&mut self, id: &str, name: &str) -> String {
        if !name.is_empty() {
            let same: Vec<String> = self
                .clients
                .iter()
                .filter(|(_, c)| c.0 == name)
                .map(|(k, _)| k.clone())
                .collect();
            for k in same {
                self.remove_client(&k);
            }
        }
        let assigned = if !name.is_empty() || id.is_empty() {
            let n = self.next;
            self.next += 1;
            n.to_string()
        } else {
            id.to_string()
        };
        self.remove_client(&assigned);
        self.clients.insert(assigned.clone(), (name.to_string(), Vec::new()));
        assigned
    }

    fn port_used(&self, port: u16) -> bool {
        self.tunnels.values().any(|t| t.1 == port)
    }

    fn first_free(&self, start: u16, end: u16) -> Option<u16> {
        (start..=end).find(|p| !self.port_used(*p))
    }
}

fn client(id: &str, name: &str) -> ClientInfo {
    ClientInfo {
        id: id.to_string(),
        name: name.to_string(),
        version: "v".to_string(),
        os: "o".to_string(),
        arch: "a".to_string(),
        hostname: "h".to_string(),
        local_ip: "i".to_string(),
    }
}

fn request(remote_port: Option<u16>) -> TunnelConfig {
    TunnelConfig {
        tunnel_type: TunnelType::Tcp,
        local_addr: "127.0.0.1".to_string(),
        local_port: 80,
        remote_port,
        name: None,
    }
}

fn agree(state: &ServerState, model: &Model, start: u16, end: u16) {
    let clients: BTreeMap<String, (String, Vec<String>)> = state
        .clients()
        .into_iter()
        .map(|(k, c)| {
            assert_eq!(c.info.id, k);
            (k, (c.info.name, c.tunnel_ids))
        })
        .collect();
    let tunnels: BTreeMap<String, (String, u16)> = state
        .tunnels()
        .into_iter()
        .map(|(k, t)| {
            assert_eq!(t.info.id, k);
            (k, (t.info.client_id, t.info.server_port))
        })
        .collect();
    let connections: BTreeMap<String, (String, String)> = state
        .connections()
        .into_iter()
        .map(|(k, c)| (k, (c.tunnel_id, c.client_id)))
        .collect();
    assert_eq!(clients, model.clients);
    assert_eq!(tunnels, model.tunnels);
    assert_eq!(connections, model.connections);
    assert_eq!(state.client_count(), model.clients.len());
    assert_eq!(state.tunnel_count(), model.tunnels.len());
    assert_eq!(state.connection_count(), model.connections.len());

    let mut ports = BTreeSet::new();
    for (id, (owner, port)) in &tunnels {
        assert!(start <= *port && *port <= end);
        assert!(ports.insert(*port));
        assert!(clients[owner].1.contains(id));
    }
    for (id, (_, listed)) in &clients {
        let distinct: BTreeSet<&String> = listed.iter().collect();
        assert_eq!(distinct.len(), listed.len());
        for t in listed {
            assert_eq!(&tunnels[t].0, id);
        }
    }
    for (tunnel_id, client_id) in connections.values() {
        assert_eq!(&tunnels[tunnel_id].0, client_id);
        assert!(clients.contains_key(client_id));
    }
}

fn pick(keys: Vec<String>, dice: &mut Dice) -> String {
    if keys.is_empty() || dice.roll(8) == 0 {
        format!("missing-{}", dice.roll(3))
    } else {
        let at = dice.roll(keys.len() as u64) as usize;
        keys[at].clone()
    }
}

fn run(seed: u64, steps: usize, start: u16, end: u16) {
    let mut dice = Dice(seed);
    let mut state = ServerState::new(start, end, None);
    let mut model = Model { next: 1, ..Model::default() };
    let names = ["", "dev", "ops", "lab"];
    let ids = ["", "1", "2", "node", "7"];
    let mut conn_seq = 0u64;
    for _ in 0..steps {
        match dice.roll(8) {
            0 | 1 => {
                let name = names[dice.roll(4) as usize];
                let id = ids[dice.roll(5) as usize];
                let done = state.register_client(client(id, name));
                assert_eq!(done.client_id, model.register(id, name));
            }
            2 | 3 => {
                let who = pick(model.clients.keys().cloned().collect(), &mut dice);
                let hint = match dice.roll(3) {
                    0 => None,
                    1 => Some(start + dice.roll((end - start + 1) as u64) as u16),
                    _ => Some(dice.roll(65536) as u16),
                };
                let mut search = state.port_search(hint);
                let offered = state.next_port(&mut search);
                let expected = match hint {
                    Some(h) if start <= h && h <= end && !model.port_used(h) => Some(h),
                    _ => model.first_free(start, end),
                };
                assert_eq!(offered.clone().ok(), expected);
                match offered {
                    Err(e) => assert_eq!(e, ManagerError::NoAvailablePort),
                    Ok(port) => match state.add_tunnel_to_client(&who, request(hint), port) {
                        Ok(info) => {
                            assert_eq!(info.server_port, port);
                            assert_eq!(info.client_id, who);
                            model.tunnels.insert(info.id.clone(), (who.clone(), port));
                            model.clients.get_mut(&who).unwrap().1.push(info.id);
                        }
                        Err(e) => {
                            assert_eq!(e, ManagerError::ClientNotFound);
                            assert!(!model.clients.contains_key(&who));
                        }
                    },
                }
            }
            4 => {
                let tunnel = pick(model.tunnels.keys().cloned().collect(), &mut dice);
                conn_seq += 1;
                let conn = format!("conn-{}", conn_seq % 40);
                let notice = state.open_connection(&tunnel, conn.clone());
                match model.tunnels.get(&tunnel) {
                    Some((owner, _)) => {
                        assert!(notice.is_some());
                        model.connections.insert(conn, (tunnel.clone(), owner.clone()));
                    }
                    None => assert!(notice.is_none()),
                }
            }
            5 => {
                let conn = pick(model.connections.keys().cloned().collect(), &mut dice);
                assert_eq!(state.close_connection(&conn), model.connections.remove(&conn).is_some());
            }
            6 => {
                let tunnel = pick(model.tunnels.keys().cloned().collect(), &mut dice);
                let before: BTreeSet<String> = model.connections.keys().cloned().collect();
                let closed = state.close_tunnel(&tunnel);
                assert_eq!(closed.is_ok(), model.close_tunnel(&tunnel));
                if let Ok(td) = closed {
                    assert_eq!(td.tunnels, vec![tunnel]);
                    let gone: BTreeSet<String> = td.connections.into_iter().collect();
                    let left: BTreeSet<String> = model.connections.keys().cloned().collect();
                    assert_eq!(gone, before.difference(&left).cloned().collect());
                }
            }
            _ => {
                let who = pick(model.clients.keys().cloned().collect(), &mut dice);
                let tunnels_before: BTreeSet<String> = model.tunnels.keys().cloned().collect();
                let td = state.remove_client(&who);
                model.remove_client(&who);
                let left: BTreeSet<String> = model.tunnels.keys().cloned().collect();
                let gone: BTreeSet<String> = td.tunnels.into_iter().collect();
                assert_eq!(gone, tunnels_before.difference(&left).cloned().collect());
            }
        }
        agree(&state, &model, start, end);
    }
}

#[test]
fn registry_follows_its_rules_in_a_roomy_range() {
    run(1, 1500, 10000, 10050);
}

#[test]
fn registry_follows_its_rules_in_a_tight_range() {
    run(7, 1500, 20000, 20003);
}

#[test]
fn registry_follows_its_rules_at_the_top_of_the_ports() {
    run(42, 800, 65533, 65535);
}
