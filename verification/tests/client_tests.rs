use cec_tunnel::client::get_local_ip;
use cec_tunnel::client::heartbeat;
use cec_tunnel::client::ping;
use cec_tunnel::client::ClientAction;
use cec_tunnel::client::HostFacts;
use cec_tunnel::client::Interface;
use cec_tunnel::client::TunnelClient;
use cec_tunnel::client::HEARTBEAT_INTERVAL_SECS;
use cec_tunnel::client::RECONNECT_DELAY_SECS;
use cec_tunnel::frame::encode_data_frame;
use cec_tunnel::protocol::ClientInfo;
use cec_tunnel::protocol::TunnelConfig;
use cec_tunnel::protocol::TunnelInfo;
use cec_tunnel::protocol::TunnelType;
use cec_tunnel::protocol::WsMessage;

const ID: &str = "123e4567-e89b-42d3-a456-426614174000";

fn host() -> HostFacts {
    HostFacts {
        version: "0.1.0".to_string(),
        os: "linux".to_string(),
        arch: "x86_64".to_string(),
        hostname: "box".to_string(),
        local_ip: "192.168.0.2".to_string(),
    }
}

fn new_client(tunnels: &[&str]) -> TunnelClient {
    let strs: Vec<String> = tunnels.iter().map(|t| t.to_string()).collect();
    TunnelClient::new("ws://server:9998/tunnel", "office", &strs, None, host())
}

fn info(id: &str, addr: &str, local_port: u16, server_port: u16) -> TunnelInfo {
    TunnelInfo {
        id: id.to_string(),
        client_id: "1".to_string(),
        tunnel_type: TunnelType::Tcp,
        name: format!("tunnel-{}", server_port),
        local_addr: addr.to_string(),
        local_port,
        server_port,
        state: "active".to_string(),
        bytes_sent: 0,
        bytes_recv: 0,
        created_at: "t".to_string(),
        last_active_at: "t".to_string(),
    }
}

fn registered(tunnels: Vec<TunnelInfo>) -> TunnelClient {
    let mut client = new_client(&[]);
    let action = client.handle_message(WsMessage::RegisterResponse {
        success: true,
        client_id: "1".to_string(),
        tunnels,
        message: None,
    });
    assert_eq!(action, ClientAction::Nothing);
    client
}

fn iface(address: &str, is_loopback: bool, is_ipv4: bool) -> Interface {
    Interface { name: "if".to_string(), address: address.to_string(), is_loopback, is_ipv4 }
}

#[test]
fn timing_constants() {
    assert_eq!(RECONNECT_DELAY_SECS, 5);
    assert_eq!(HEARTBEAT_INTERVAL_SECS, 30);
}

#[test]
fn local_ip_is_the_first_routable_ipv4() {
    assert_eq!(get_local_ip(&vec![]), "127.0.0.1");
    assert_eq!(
        get_local_ip(&vec![iface("127.0.0.1", true, true), iface("::1", true, false)]),
        "127.0.0.1"
    );
    assert_eq!(
        get_local_ip(&vec![
            iface("127.0.0.1", true, true),
            iface("fe80::1", false, false),
            iface("10.0.0.5", false, true),
            iface("192.168.1.9", false, true),
        ]),
        "10.0.0.5"
    );
    assert_eq!(get_local_ip(&vec![iface("fe80::1", false, false)]), "127.0.0.1");
}

#[test]
fn new_client_reads_its_tunnels() {
    let client = new_client(&["tcp:22:10022", "bogus", "udp:10.0.0.1:53:10053", "tcp:1:99999"]);
    assert_eq!(client.server_url(), "ws://server:9998/tunnel");
    assert_eq!(
        client.register_message(),
        WsMessage::Register {
            client: ClientInfo {
                id: String::new(),
                name: "office".to_string(),
                version: "0.1.0".to_string(),
                os: "linux".to_string(),
                arch: "x86_64".to_string(),
                hostname: "box".to_string(),
                local_ip: "192.168.0.2".to_string(),
            },
            tunnels: vec![
                TunnelConfig::parse("tcp:22:10022").unwrap(),
                TunnelConfig::parse("udp:10.0.0.1:53:10053").unwrap(),
            ],
        }
    );
    assert!(client.tunnel("x").is_none());
    assert!(!client.has_connection(ID));
}

#[test]
fn client_without_tunnels_registers_none() {
    match new_client(&[]).register_message() {
        WsMessage::Register { tunnels, .. } => assert!(tunnels.is_empty()),
        other => panic!("{:?}", other),
    }
}

#[test]
fn registration_makes_tunnels_known() {
    let client = registered(vec![info("t1", "127.0.0.1", 22, 10022), info("t2", "10.0.0.1", 80, 10080)]);
    assert_eq!(client.tunnel("t1"), Some(info("t1", "127.0.0.1", 22, 10022)));
    assert_eq!(client.tunnel("t2"), Some(info("t2", "10.0.0.1", 80, 10080)));
    assert_eq!(client.tunnel("t3"), None);
}

#[test]
fn later_record_of_a_tunnel_counts() {
    let mut client = registered(vec![info("t1", "127.0.0.1", 22, 10022), info("t1", "127.0.0.1", 23, 10023)]);
    assert_eq!(client.tunnel("t1"), Some(info("t1", "127.0.0.1", 23, 10023)));
    client.handle_message(WsMessage::RegisterResponse {
        success: true,
        client_id: "2".to_string(),
        tunnels: vec![info("t1", "127.0.0.1", 24, 10024)],
        message: None,
    });
    assert_eq!(client.tunnel("t1"), Some(info("t1", "127.0.0.1", 24, 10024)));
}

#[test]
fn refused_registration_ends_the_session() {
    let mut client = new_client(&["tcp:22:10022"]);
    let action = client.handle_message(WsMessage::RegisterResponse {
        success: false,
        client_id: String::new(),
        tunnels: vec![info("t1", "127.0.0.1", 22, 10022)],
        message: Some("denied".to_string()),
    });
    assert_eq!(action, ClientAction::Abort { message: Some("denied".to_string()) });
    assert_eq!(client.tunnel("t1"), None);
}

#[test]
fn new_connection_on_a_known_tunnel_is_dialled() {
    let mut client = registered(vec![info("t1", "10.0.0.7", 8080, 10022)]);
    assert_eq!(
        client.handle_message(WsMessage::NewConnection {
            tunnel_id: "t1".to_string(),
            conn_id: ID.to_string(),
        }),
        ClientAction::Dial {
            tunnel_id: "t1".to_string(),
            conn_id: ID.to_string(),
            local_addr: "10.0.0.7".to_string(),
            local_port: 8080,
        }
    );
    assert!(!client.has_connection(ID));
    assert_eq!(
        client.handle_new_connection("nope".to_string(), ID.to_string()),
        ClientAction::Nothing
    );
}

#[test]
fn dial_outcomes() {
    let mut client = registered(vec![info("t1", "127.0.0.1", 22, 10022)]);
    assert_eq!(
        TunnelClient::dial_failed(ID),
        WsMessage::CloseConnection { conn_id: ID.to_string() }
    );
    assert_eq!(
        client.connection_opened("t1", ID),
        WsMessage::ConnectionReady { tunnel_id: "t1".to_string(), conn_id: ID.to_string() }
    );
    assert!(client.has_connection(ID));
    client.connection_opened("t1", ID);
    assert_eq!(
        client.connection_finished(ID),
        WsMessage::CloseConnection { conn_id: ID.to_string() }
    );
    assert!(!client.has_connection(ID));
}

#[test]
fn data_is_delivered_to_served_connections_only() {
    let mut client = registered(vec![info("t1", "127.0.0.1", 22, 10022)]);
    let data = WsMessage::Data { conn_id: ID.to_string(), data: vec![1, 2, 3] };
    assert_eq!(client.handle_message(data.clone()), ClientAction::Nothing);
    assert_eq!(client.handle_binary(&encode_data_frame(ID, &[1, 2, 3])), ClientAction::Nothing);
    client.connection_opened("t1", ID);
    let deliver = ClientAction::Deliver { conn_id: ID.to_string(), payload: vec![1, 2, 3] };
    assert_eq!(client.handle_message(data), deliver);
    assert_eq!(client.handle_binary(&encode_data_frame(ID, &[1, 2, 3])), deliver);
    assert_eq!(client.handle_data(ID.to_string(), vec![]), ClientAction::Deliver {
        conn_id: ID.to_string(),
        payload: vec![],
    });
    assert_eq!(client.handle_binary(ID.as_bytes()), ClientAction::Nothing);
    assert_eq!(client.handle_binary(&[0xff; 40]), ClientAction::Nothing);
}

#[test]
fn close_from_the_server_stops_the_pumps_once() {
    let mut client = registered(vec![info("t1", "127.0.0.1", 22, 10022)]);
    client.connection_opened("t1", ID);
    client.connection_opened("t1", "other");
    assert_eq!(
        client.handle_message(WsMessage::CloseConnection { conn_id: ID.to_string() }),
        ClientAction::Closed { conn_id: ID.to_string() }
    );
    assert!(!client.has_connection(ID));
    assert!(client.has_connection("other"));
    assert_eq!(client.handle_close(ID.to_string()), ClientAction::Nothing);
}

#[test]
fn pushed_tunnel_is_recorded() {
    let mut client = new_client(&[]);
    let action = client.handle_message(WsMessage::AddTunnel {
        request_id: "t9".to_string(),
        tunnel: TunnelConfig {
            tunnel_type: TunnelType::Udp,
            local_addr: "10.0.0.3".to_string(),
            local_port: 5000,
            remote_port: Some(15000),
            name: Some("game".to_string()),
        },
    });
    assert_eq!(action, ClientAction::Nothing);
    assert_eq!(
        client.tunnel("t9"),
        Some(TunnelInfo {
            id: "t9".to_string(),
            client_id: String::new(),
            tunnel_type: TunnelType::Udp,
            name: "game".to_string(),
            local_addr: "10.0.0.3".to_string(),
            local_port: 5000,
            server_port: 15000,
            state: "active".to_string(),
            bytes_sent: 0,
            bytes_recv: 0,
            created_at: String::new(),
            last_active_at: String::new(),
        })
    );
    client.handle_message(WsMessage::AddTunnel {
        request_id: "t10".to_string(),
        tunnel: TunnelConfig {
            tunnel_type: TunnelType::Tcp,
            local_addr: "h".to_string(),
            local_port: 1,
            remote_port: None,
            name: None,
        },
    });
    let bare = client.tunnel("t10").unwrap();
    assert_eq!((bare.name.as_str(), bare.server_port), ("", 0));
}

#[test]
fn add_tunnel_response_is_recorded_on_success() {
    let mut client = new_client(&[]);
    let answer = |success: bool, tunnel: Option<TunnelInfo>| WsMessage::AddTunnelResponse {
        request_id: "r".to_string(),
        success,
        tunnel,
        message: None,
    };
    assert_eq!(client.handle_message(answer(false, Some(info("t1", "a", 1, 2)))), ClientAction::Nothing);
    assert_eq!(client.tunnel("t1"), None);
    assert_eq!(client.handle_message(answer(true, None)), ClientAction::Nothing);
    assert_eq!(client.handle_message(answer(true, Some(info("t1", "a", 1, 2)))), ClientAction::Nothing);
    assert_eq!(client.tunnel("t1"), Some(info("t1", "a", 1, 2)));
}

#[test]
fn other_messages_need_no_action() {
    let mut client = registered(vec![info("t1", "127.0.0.1", 22, 10022)]);
    for msg in [
        WsMessage::Pong { timestamp: 5 },
        WsMessage::Ping { timestamp: 5 },
        WsMessage::Error { code: 500, message: "boom".to_string() },
        WsMessage::ConnectionReady { tunnel_id: "t1".to_string(), conn_id: ID.to_string() },
    ] {
        assert_eq!(client.handle_message(msg), ClientAction::Nothing);
    }
    assert!(client.tunnel("t1").is_some());
}

#[test]
fn local_bytes_become_data() {
    let msg = TunnelClient::forward_local(ID, b"hello".to_vec());
    assert_eq!(msg, WsMessage::Data { conn_id: ID.to_string(), data: b"hello".to_vec() });
    let frame = msg.binary_frame().unwrap();
    assert_eq!(&frame[..36], ID.as_bytes());
    assert_eq!(&frame[36..], b"hello");
}

#[test]
fn session_end_forgets_connections_and_keeps_tunnels() {
    let mut client = new_client(&["tcp:22:10022"]);
    client.handle_message(WsMessage::RegisterResponse {
        success: true,
        client_id: "1".to_string(),
        tunnels: vec![info("t1", "127.0.0.1", 22, 10022)],
        message: None,
    });
    client.connection_opened("t1", "a");
    client.connection_opened("t1", "b");
    let mut stopped = client.session_ended();
    stopped.sort();
    assert_eq!(stopped, vec!["a".to_string(), "b".to_string()]);
    assert!(!client.has_connection("a"));
    assert!(client.tunnel("t1").is_some());
    match client.register_message() {
        WsMessage::Register { tunnels, .. } => assert_eq!(tunnels.len(), 1),
        other => panic!("{:?}", other),
    }
    assert!(client.session_ended().is_empty());
}

#[test]
fn heartbeat_carries_the_time() {
    assert_eq!(ping(42), WsMessage::Ping { timestamp: 42 });
    match heartbeat() {
        WsMessage::Ping { timestamp } => assert!(timestamp > 1_600_000_000),
        other => panic!("{:?}", other),
    }
}
