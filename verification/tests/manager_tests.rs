use cec_tunnel::manager::ServerState;
use cec_tunnel::manager::Teardown;
use cec_tunnel::protocol::ClientInfo;
use cec_tunnel::protocol::TunnelConfig;
use cec_tunnel::protocol::TunnelType;
use cec_tunnel::protocol::WsMessage;
use cec_tunnel::registry::ManagerError;
use cec_tunnel::registry::PortSearch;

fn client(id: &str, name: &str) -> ClientInfo {
    ClientInfo {
        id: id.to_string(),
        name: name.to_string(),
        version: "0.1.0".to_string(),
        os: "linux".to_string(),
        arch: "x86_64".to_string(),
        hostname: "host".to_string(),
        local_ip: "192.168.0.2".to_string(),
    }
}

fn request(local_port: u16, remote_port: Option<u16>, name: Option<&str>) -> TunnelConfig {
    TunnelConfig {
        tunnel_type: TunnelType::Tcp,
        local_addr: "127.0.0.1".to_string(),
        local_port,
        remote_port,
        name: name.map(|n| n.to_string()),
    }
}

fn sorted(mut v: Vec<String>) -> Vec<String> {
    v.sort();
    v
}

fn conn_id_of(notice: Option<WsMessage>) -> String {
    match notice {
        Some(WsMessage::NewConnection { conn_id, .. }) => conn_id,
        other => panic!("no new connection: {:?}", other),
    }
}

fn open_tunnel(state: &mut ServerState, client_id: &str, remote_port: Option<u16>) -> (String, u16) {
    let mut search = state.port_search(remote_port);
    let port = state.next_port(&mut search).unwrap();
    let info = state
        .add_tunnel_to_client(client_id, request(22, remote_port, None), port)
        .unwrap();
    (info.id, info.server_port)
}

#[test]
fn new_registry_is_empty() {
    let state = ServerState::new(10000, 20000, Some("secret".to_string()));
    assert_eq!(state.client_count(), 0);
    assert_eq!(state.tunnel_count(), 0);
    assert_eq!(state.connection_count(), 0);
    assert_eq!(state.port_start(), 10000);
    assert_eq!(state.port_end(), 20000);
    assert_eq!(state.auth_token(), Some("secret".to_string()));
    assert!(state.clients().is_empty());
    assert!(state.tunnels().is_empty());
}

#[test]
fn named_clients_get_numbers_in_turn() {
    let mut state = ServerState::new(10000, 20000, None);
    let a = state.register_client(client("", "alpha"));
    let b = state.register_client(client("ignored", "beta"));
    assert_eq!(a.client_id, "1");
    assert_eq!(b.client_id, "2");
    assert_eq!(state.client_count(), 2);
    assert_eq!(state.client("1").unwrap().info, client("1", "alpha"));
    assert_eq!(state.client("2").unwrap().info, client("2", "beta"));
    assert!(state.client("1").unwrap().tunnel_ids.is_empty());
    assert_eq!(a.teardown, Teardown { tunnels: vec![], connections: vec![] });
}

#[test]
fn nameless_client_keeps_its_own_id() {
    let mut state = ServerState::new(10000, 20000, None);
    let a = state.register_client(client("node-7", ""));
    assert_eq!(a.client_id, "node-7");
    assert!(state.has_client("node-7"));
    let b = state.register_client(client("", "named"));
    assert_eq!(b.client_id, "1");
}

#[test]
fn client_without_name_or_id_gets_a_number() {
    let mut state = ServerState::new(10000, 20000, None);
    let a = state.register_client(client("", ""));
    let b = state.register_client(client("", ""));
    assert_eq!(a.client_id, "1");
    assert_eq!(b.client_id, "2");
    assert_eq!(state.client_count(), 2);
}

#[test]
fn numbers_go_past_nine() {
    let mut state = ServerState::new(10000, 20000, None);
    let mut last = String::new();
    for i in 0..12 {
        last = state.register_client(client("", &format!("c{}", i))).client_id;
    }
    assert_eq!(last, "12");
    assert!(state.has_client("10"));
}

#[test]
fn reusing_an_id_displaces_its_holder() {
    let mut state = ServerState::new(10000, 20000, None);
    state.register_client(client("node", ""));
    let (tunnel, port) = open_tunnel(&mut state, "node", Some(10005));
    assert_eq!(port, 10005);
    let again = state.register_client(client("node", ""));
    assert_eq!(again.client_id, "node");
    assert_eq!(again.teardown.tunnels, vec![tunnel.clone()]);
    assert_eq!(state.client_count(), 1);
    assert_eq!(state.tunnel_count(), 0);
    assert!(!state.is_port_used(10005));
    assert!(state.client("node").unwrap().tunnel_ids.is_empty());
}

#[test]
fn same_name_eviction() {
    let mut state = ServerState::new(10000, 20000, None);
    let a = state.register_client(client("", "dev"));
    let (t1, port) = open_tunnel(&mut state, &a.client_id, Some(10022));
    assert_eq!(port, 10022);
    let k1 = conn_id_of(state.accept_connection(&t1));
    let other = state.register_client(client("", "ops"));
    let (t_other, _) = open_tunnel(&mut state, &other.client_id, None);

    let b = state.register_client(client("", "dev"));
    let n: u64 = a.client_id.parse().unwrap();
    assert_eq!(b.client_id, (n + 2).to_string());
    assert_eq!(b.teardown, Teardown { tunnels: vec![t1.clone()], connections: vec![k1.clone()] });
    assert!(!state.has_client(&a.client_id));
    assert!(!state.is_port_used(10022));
    assert!(state.tunnel(&t1).is_none());
    assert!(!state.has_connection(&k1));
    let mut search = state.port_search(Some(10022));
    assert_eq!(state.next_port(&mut search), Ok(10022));
    let names: Vec<String> =
        sorted(state.clients().into_iter().map(|entry| entry.1.info.name).collect());
    assert_eq!(names, vec!["dev".to_string(), "ops".to_string()]);
    assert!(state.tunnel(&t_other).is_some());
    assert_eq!(state.client_count(), 2);
}

#[test]
fn same_name_eviction_gives_the_next_number() {
    let mut state = ServerState::new(10000, 20000, None);
    let a = state.register_client(client("", "dev"));
    let b = state.register_client(client("", "dev"));
    assert_eq!(a.client_id, "1");
    assert_eq!(b.client_id, "2");
    assert_eq!(state.client_count(), 1);
    assert!(state.has_client("2"));
}

#[test]
fn requested_port_is_offered_first() {
    let state = ServerState::new(10000, 20000, None);
    let mut search = state.port_search(Some(10022));
    assert_eq!(search, PortSearch { hint: Some(10022), scan_from: Some(10000) });
    assert_eq!(state.next_port(&mut search), Ok(10022));
    assert_eq!(search, PortSearch { hint: None, scan_from: Some(10000) });
    assert_eq!(state.next_port(&mut search), Ok(10000));
    assert_eq!(search, PortSearch { hint: None, scan_from: Some(10001) });
    assert_eq!(state.next_port(&mut search), Ok(10001));
}

#[test]
fn request_outside_the_range_falls_back_to_the_scan() {
    let state = ServerState::new(10000, 10010, None);
    let mut search = state.port_search(Some(10022));
    assert_eq!(state.next_port(&mut search), Ok(10000));
    let mut low = state.port_search(Some(80));
    assert_eq!(state.next_port(&mut low), Ok(10000));
    let mut none = state.port_search(None);
    assert_eq!(state.next_port(&mut none), Ok(10000));
}

#[test]
fn port_fallback() {
    let mut state = ServerState::new(10022, 10030, None);
    let a = state.register_client(client("", "first"));
    let b = state.register_client(client("", "second"));
    let (_, first) = open_tunnel(&mut state, &a.client_id, Some(10022));
    let (id, second) = open_tunnel(&mut state, &b.client_id, Some(10022));
    assert_eq!(first, 10022);
    assert_eq!(second, 10023);
    assert_eq!(state.tunnel(&id).unwrap().info.server_port, 10023);
}

#[test]
fn scan_skips_ports_in_use_and_ends() {
    let mut state = ServerState::new(10000, 10003, None);
    let a = state.register_client(client("", "a"));
    state.add_tunnel_to_client(&a.client_id, request(1, None, None), 10000).unwrap();
    state.add_tunnel_to_client(&a.client_id, request(2, None, None), 10002).unwrap();
    assert_eq!(state.find_available_port(0), Some(10001));
    assert_eq!(state.find_available_port(10001), Some(10001));
    assert_eq!(state.find_available_port(10002), Some(10003));
    assert_eq!(state.find_available_port(10004), None);
    let mut search = state.port_search(Some(10002));
    assert_eq!(state.next_port(&mut search), Ok(10001));
    assert_eq!(state.next_port(&mut search), Ok(10003));
    assert_eq!(state.next_port(&mut search), Err(ManagerError::NoAvailablePort));
    assert_eq!(search, PortSearch { hint: None, scan_from: None });
    assert_eq!(state.next_port(&mut search), Err(ManagerError::NoAvailablePort));
}

#[test]
fn full_range_has_no_available_port() {
    let mut state = ServerState::new(65534, 65535, None);
    let a = state.register_client(client("", "a"));
    assert_eq!(state.find_available_port(0), Some(65534));
    state.add_tunnel_to_client(&a.client_id, request(1, None, None), 65534).unwrap();
    let mut search = state.port_search(None);
    assert_eq!(state.next_port(&mut search), Ok(65535));
    assert_eq!(search.scan_from, None);
    state.add_tunnel_to_client(&a.client_id, request(1, None, None), 65535).unwrap();
    assert_eq!(state.find_available_port(0), None);
    let mut again = state.port_search(Some(65535));
    assert_eq!(state.next_port(&mut again), Err(ManagerError::NoAvailablePort));
}

#[test]
fn empty_range_offers_nothing() {
    let state = ServerState::new(200, 100, None);
    assert_eq!(state.find_available_port(0), None);
    let mut search = state.port_search(Some(150));
    assert_eq!(state.next_port(&mut search), Err(ManagerError::NoAvailablePort));
}

#[test]
fn allocated_ports_stay_in_range_and_apart() {
    let mut state = ServerState::new(10000, 10004, None);
    let a = state.register_client(client("", "a"));
    let mut ports = Vec::new();
    for hint in [Some(10002), Some(10002), Some(9), None, Some(10004), Some(10000)] {
        let mut search = state.port_search(hint);
        match state.next_port(&mut search) {
            Ok(p) => {
                assert!((10000..=10004).contains(&p));
                assert!(!ports.contains(&p));
                assert!(!state.is_port_used(p));
                state.add_tunnel_to_client(&a.client_id, request(1, hint, None), p).unwrap();
                assert!(state.is_port_used(p));
                ports.push(p);
            }
            Err(e) => {
                assert_eq!(e, ManagerError::NoAvailablePort);
                assert_eq!(ports.len(), 5);
            }
        }
    }
    assert_eq!(ports, vec![10002, 10000, 10001, 10003, 10004]);
}

#[test]
fn tunnel_record_is_filled_in() {
    let mut state = ServerState::new(10000, 20000, None);
    let a = state.register_client(client("", "dev"));
    let info = state
        .create_tunnel(
            &a.client_id,
            TunnelConfig {
                tunnel_type: TunnelType::Udp,
                local_addr: "10.1.1.1".to_string(),
                local_port: 53,
                remote_port: Some(10053),
                name: None,
            },
            10053,
            "tunnel-a".to_string(),
            "2026-01-02T03:04:05+00:00".to_string(),
        )
        .unwrap();
    assert_eq!(info.id, "tunnel-a");
    assert_eq!(info.client_id, "1");
    assert_eq!(info.tunnel_type, TunnelType::Udp);
    assert_eq!(info.name, "tunnel-10053");
    assert_eq!(info.local_addr, "10.1.1.1");
    assert_eq!(info.local_port, 53);
    assert_eq!(info.server_port, 10053);
    assert_eq!(info.state, "active");
    assert_eq!(info.bytes_sent, 0);
    assert_eq!(info.bytes_recv, 0);
    assert_eq!(info.created_at, "2026-01-02T03:04:05+00:00");
    assert_eq!(info.last_active_at, "2026-01-02T03:04:05+00:00");
    assert_eq!(state.tunnel("tunnel-a").unwrap().info, info);
    assert_eq!(state.client("1").unwrap().tunnel_ids, vec!["tunnel-a".to_string()]);
}

#[test]
fn tunnel_keeps_the_name_it_asks_for() {
    let mut state = ServerState::new(10000, 20000, None);
    let a = state.register_client(client("", "dev"));
    let info = state
        .add_tunnel_to_client(&a.client_id, request(22, None, Some("ssh")), 10000)
        .unwrap();
    assert_eq!(info.name, "ssh");
    let other = state.add_tunnel_to_client(&a.client_id, request(22, None, None), 65000);
    assert_eq!(other, Err(ManagerError::PortUnavailable));
    let unnamed = state.add_tunnel_to_client(&a.client_id, request(22, None, None), 20000).unwrap();
    assert_eq!(unnamed.name, "tunnel-20000");
}

#[test]
fn fresh_tunnel_has_a_uuid_and_a_time() {
    let mut state = ServerState::new(10000, 20000, None);
    let a = state.register_client(client("", "dev"));
    let one = state.add_tunnel_to_client(&a.client_id, request(22, None, None), 10000).unwrap();
    let two = state.add_tunnel_to_client(&a.client_id, request(22, None, None), 10001).unwrap();
    for info in [&one, &two] {
        assert_eq!(info.id.len(), 36);
        assert!(info.id.is_ascii());
        assert_eq!(info.id.matches('-').count(), 4);
        assert_eq!(&info.id[14..15], "4");
        assert_eq!(info.created_at, info.last_active_at);
        assert!(info.created_at.len() >= 20);
        assert_eq!(&info.created_at[4..5], "-");
        assert!(info.created_at.contains('T'));
    }
    assert_ne!(one.id, two.id);
    assert_eq!(state.client(&a.client_id).unwrap().tunnel_ids, vec![one.id, two.id]);
}

#[test]
fn tunnel_is_refused_with_its_reason() {
    let mut state = ServerState::new(10000, 10010, None);
    let a = state.register_client(client("", "dev"));
    let make = |state: &mut ServerState, who: &str, port: u16, id: &str| {
        state.create_tunnel(who, request(1, None, None), port, id.to_string(), "now".to_string())
    };
    assert_eq!(make(&mut state, "nobody", 10000, "t"), Err(ManagerError::ClientNotFound));
    assert_eq!(make(&mut state, "nobody", 9, "t"), Err(ManagerError::ClientNotFound));
    assert_eq!(make(&mut state, &a.client_id, 9999, "t"), Err(ManagerError::PortUnavailable));
    assert_eq!(make(&mut state, &a.client_id, 10011, "t"), Err(ManagerError::PortUnavailable));
    assert!(make(&mut state, &a.client_id, 10000, "t").is_ok());
    assert_eq!(make(&mut state, &a.client_id, 10000, "u"), Err(ManagerError::PortUnavailable));
    assert_eq!(make(&mut state, &a.client_id, 10000, "t"), Err(ManagerError::PortUnavailable));
    assert_eq!(make(&mut state, &a.client_id, 10001, "t"), Err(ManagerError::TunnelIdTaken));
    assert!(make(&mut state, &a.client_id, 10010, "u").is_ok());
    assert_eq!(state.tunnel_count(), 2);
    assert_eq!(
        state.client(&a.client_id).unwrap().tunnel_ids,
        vec!["t".to_string(), "u".to_string()]
    );
}

#[test]
fn connection_enters_on_a_live_tunnel_only() {
    let mut state = ServerState::new(10000, 20000, None);
    let a = state.register_client(client("", "dev"));
    let (tunnel, _) = open_tunnel(&mut state, &a.client_id, None);
    assert_eq!(state.open_connection("missing", "c0".to_string()), None);
    assert_eq!(state.connection_count(), 0);
    assert_eq!(
        state.open_connection(&tunnel, "c1".to_string()),
        Some(WsMessage::NewConnection { tunnel_id: tunnel.clone(), conn_id: "c1".to_string() })
    );
    let record = state.connection("c1").unwrap();
    assert_eq!(record.tunnel_id, tunnel);
    assert_eq!(record.client_id, a.client_id);
    assert!(state.tunnel(&record.tunnel_id).is_some());
    assert!(state.client(&record.client_id).is_some());
    assert!(state.has_connection("c1"));
    assert!(!state.has_connection("c0"));
}

#[test]
fn accepted_connection_gets_a_uuid() {
    let mut state = ServerState::new(10000, 20000, None);
    let a = state.register_client(client("", "dev"));
    let (tunnel, _) = open_tunnel(&mut state, &a.client_id, None);
    let one = conn_id_of(state.accept_connection(&tunnel));
    let two = conn_id_of(state.accept_connection(&tunnel));
    assert_eq!(one.len(), 36);
    assert!(one.is_ascii());
    assert_ne!(one, two);
    assert_eq!(state.connection_count(), 2);
    assert_eq!(state.accept_connection("missing"), None);
    assert_eq!(state.connection_count(), 2);
}

#[test]
fn closing_a_connection_is_idempotent() {
    let mut state = ServerState::new(10000, 20000, None);
    let a = state.register_client(client("", "dev"));
    let (tunnel, _) = open_tunnel(&mut state, &a.client_id, None);
    state.open_connection(&tunnel, "c1".to_string());
    assert!(state.close_connection("c1"));
    assert!(!state.close_connection("c1"));
    assert!(!state.has_connection("c1"));
    assert_eq!(
        state.finish_connection("c1"),
        WsMessage::CloseConnection { conn_id: "c1".to_string() }
    );
    state.open_connection(&tunnel, "c2".to_string());
    assert_eq!(
        state.finish_connection("c2"),
        WsMessage::CloseConnection { conn_id: "c2".to_string() }
    );
    assert_eq!(state.connection_count(), 0);
}

#[test]
fn closed_tunnel_leaves_no_trace() {
    let mut state = ServerState::new(10000, 20000, None);
    let a = state.register_client(client("", "dev"));
    let (t1, port1) = open_tunnel(&mut state, &a.client_id, None);
    let (t2, _) = open_tunnel(&mut state, &a.client_id, None);
    state.open_connection(&t1, "c1".to_string());
    state.open_connection(&t2, "c2".to_string());
    state.open_connection(&t1, "c3".to_string());
    let td = state.close_tunnel(&t1).unwrap();
    assert_eq!(td.tunnels, vec![t1.clone()]);
    assert_eq!(sorted(td.connections), vec!["c1".to_string(), "c3".to_string()]);
    assert!(state.tunnel(&t1).is_none());
    assert!(!state.is_port_used(port1));
    for entry in state.clients() {
        assert!(!entry.1.tunnel_ids.contains(&t1));
    }
    assert_eq!(state.client(&a.client_id).unwrap().tunnel_ids, vec![t2.clone()]);
    assert!(!state.has_connection("c1"));
    assert!(!state.has_connection("c3"));
    assert_eq!(state.connection("c2").unwrap().tunnel_id, t2);
    assert_eq!(state.close_tunnel(&t1), Err(ManagerError::TunnelNotFound));
    assert_eq!(state.tunnel_count(), 1);
}

#[test]
fn removed_client_leaves_no_trace() {
    let mut state = ServerState::new(10000, 20000, None);
    let a = state.register_client(client("", "a"));
    let b = state.register_client(client("", "b"));
    let (ta, _) = open_tunnel(&mut state, &a.client_id, None);
    let (tb, _) = open_tunnel(&mut state, &b.client_id, None);
    state.open_connection(&ta, "ca".to_string());
    state.open_connection(&tb, "cb".to_string());
    let td = state.remove_client(&a.client_id);
    assert_eq!(td, Teardown { tunnels: vec![ta.clone()], connections: vec!["ca".to_string()] });
    assert!(!state.has_client(&a.client_id));
    for entry in state.tunnels() {
        assert_ne!(entry.1.info.client_id, a.client_id);
    }
    assert!(!state.has_connection("ca"));
    assert_eq!(state.connection("cb").unwrap().client_id, b.client_id);
    assert!(state.tunnel(&tb).is_some());
    let again = state.remove_client(&a.client_id);
    assert_eq!(again, Teardown { tunnels: vec![], connections: vec![] });
    assert_eq!(state.client_count(), 1);
}

#[test]
fn cascade_on_disconnect() {
    let mut state = ServerState::new(10000, 20000, None);
    let a = state.register_client(client("", "dev"));
    let (t1, port1) = open_tunnel(&mut state, &a.client_id, Some(10022));
    let (t2, port2) = open_tunnel(&mut state, &a.client_id, Some(10023));
    let k1 = conn_id_of(state.accept_connection(&t1));
    let k2 = conn_id_of(state.accept_connection(&t1));
    let k3 = conn_id_of(state.accept_connection(&t2));
    assert_eq!((state.client_count(), state.tunnel_count(), state.connection_count()), (1, 2, 3));
    let td = state.remove_client(&a.client_id);
    assert_eq!(td.tunnels, vec![t1.clone(), t2.clone()]);
    assert_eq!(sorted(td.connections), sorted(vec![k1.clone(), k2.clone(), k3.clone()]));
    assert_eq!((state.client_count(), state.tunnel_count(), state.connection_count()), (0, 0, 0));
    assert!(state.tunnel(&t1).is_none() && state.tunnel(&t2).is_none());
    assert!(!state.is_port_used(port1) && !state.is_port_used(port2));
    assert_eq!(state.accept_connection(&t1), None);
    assert_eq!(state.accept_connection(&t2), None);
}

#[test]
fn traffic_is_counted_per_tunnel() {
    let mut state = ServerState::new(10000, 20000, None);
    let a = state.register_client(client("", "dev"));
    let (t1, _) = open_tunnel(&mut state, &a.client_id, None);
    let (t2, _) = open_tunnel(&mut state, &a.client_id, None);
    state.record_sent(&t1, 5);
    state.record_sent(&t1, 8192);
    state.record_received(&t1, 3);
    state.record_received(&t2, 1);
    state.record_sent("missing", 99);
    let one = state.tunnel(&t1).unwrap();
    assert_eq!((one.bytes_sent, one.bytes_recv), (8197, 3));
    let two = state.tunnel(&t2).unwrap();
    assert_eq!((two.bytes_sent, two.bytes_recv), (0, 1));
    assert_eq!(one.info.bytes_sent, 0);
    assert_eq!(state.tunnel_count(), 2);
}

#[test]
fn single_tunnel_registration() {
    let mut state = ServerState::new(10000, 10010, None);
    let done = state.register_client(client("", "fake"));
    let config = TunnelConfig::parse("tcp:127.0.0.1:7000:10022").unwrap();
    let mut search = state.port_search(config.remote_port);
    let port = state.next_port(&mut search).unwrap();
    assert_eq!(port, 10000);
    let info = state.add_tunnel_to_client(&done.client_id, config, port).unwrap();
    assert_eq!((info.local_addr.as_str(), info.local_port, info.server_port), ("127.0.0.1", 7000, 10000));
    let conn = conn_id_of(state.accept_connection(&info.id));
    let td = state.remove_client(&done.client_id);
    assert_eq!(td, Teardown { tunnels: vec![info.id], connections: vec![conn] });
    assert!(!state.is_port_used(10000));
}

#[test]
fn traffic_counters_start_over_when_full() {
    let mut state = ServerState::new(10000, 20000, None);
    let a = state.register_client(client("", "dev"));
    let (t1, _) = open_tunnel(&mut state, &a.client_id, None);
    state.record_sent(&t1, usize::MAX);
    state.record_sent(&t1, usize::MAX);
    state.record_received(&t1, usize::MAX);
    state.record_received(&t1, 3);
    let tunnel = state.tunnel(&t1).unwrap();
    let full = usize::MAX as u128;
    assert_eq!(tunnel.bytes_sent as u128, (full + full) % (1u128 << 64));
    assert_eq!(tunnel.bytes_recv as u128, (full + 3) % (1u128 << 64));
}
