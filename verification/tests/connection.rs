use gadu::config::SSLConfig;
use gadu::conn::{Conn, IoOutcome, NetAddr, StreamKind};
use gadu::endpoint::Endpoint;
use gadu::server::{CnEntry, HandshakeOutcome};

fn tcp_conn() -> Conn {
    Conn::new(
        StreamKind::UnsecuredTcpStream,
        NetAddr::NetSocketAddress("127.0.0.1:5000".to_string()),
    )
}

#[test]
fn new_connection_is_empty() {
    let c = tcp_conn();
    assert!(c.is_remote_connection());
    assert_eq!(*c.get_stream(), StreamKind::UnsecuredTcpStream);
    assert_eq!(c.get_address().to_string(), "127.0.0.1:5000");
    assert!(c.input.is_empty());
    assert!(c.output.is_empty());
    assert!(!c.close);
    assert!(!c.reg_write);
    assert_eq!(c.tags.len(), 0);
    assert!(c.server_ssl_config.is_none());
}

#[test]
fn connect_remembers_url() {
    let p = Conn::connect("tcp://127.0.0.1:9000").unwrap();
    assert_eq!(p.url(), "tcp://127.0.0.1:9000");
    assert_eq!(*p.endpoint(), Endpoint::Tcp { addr: "127.0.0.1:9000".to_string() });
    let c = p
        .established(Ok((
            StreamKind::UnsecuredTcpStream,
            NetAddr::NetSocketAddress("127.0.0.1:9000".to_string()),
        )))
        .unwrap();
    assert!(!c.is_remote_connection());
    assert_eq!(c.get_url(), "tcp://127.0.0.1:9000");
    let p = Conn::connect("tcp://127.0.0.1:9000").unwrap();
    assert_eq!(p.established(Err("refused".to_string())).err(), Some("refused".to_string()));
}

#[test]
fn connect_checks_url() {
    let p = Conn::connect("unix:/tmp/s").unwrap();
    assert_eq!(*p.endpoint(), Endpoint::Unix { path: "/tmp/s".to_string() });
    assert_eq!(
        Conn::connect("udp://1.2.3.4:5").err(),
        Some("Unsupported scheme. Valid schemes are unix and tcp".to_string())
    );
    assert_eq!(
        Conn::connect("tcp:/tmp/sock").err(),
        Some("Invalid Url.  It must have host defined. e.g. tcp://host:port".to_string())
    );
}

#[test]
fn try_connect_leaves_out_host_names() {
    assert!(Conn::try_connect("tcp://localhost:80").is_none());
    assert!(matches!(Conn::try_connect("tcp://127.0.0.1:80"), Some(Ok(_))));
    assert!(matches!(Conn::try_connect("tcp://127.0.0.1"), Some(Err(_))));
}

#[test]
fn partial_write_keeps_the_rest() {
    let mut c = tcp_conn();
    c.set_output_buffer(vec![1, 2, 3, 4, 5]);
    assert!(!c.write(IoOutcome::Done(2)));
    assert_eq!(c.output, vec![3, 4, 5]);
    assert!(!c.write(IoOutcome::Done(3)));
    assert!(c.output.is_empty());
}

#[test]
fn oversized_write_count_empties_output() {
    let mut c = tcp_conn();
    c.set_output_buffer(vec![1, 2]);
    assert!(!c.write(IoOutcome::Done(10)));
    assert!(c.output.is_empty());
}

#[test]
fn write_errors() {
    let mut c = tcp_conn();
    c.set_output_buffer(vec![9]);
    assert!(!c.write(IoOutcome::WouldBlock));
    assert_eq!(c.output, vec![9]);
    assert!(c.write(IoOutcome::ConnectionReset));
    assert!(c.close);
    let mut d = tcp_conn();
    assert!(d.write(IoOutcome::Failed));
    assert!(d.close);
}

#[test]
fn read_appends_bytes() {
    let mut c = tcp_conn();
    let packet = [7u8, 8, 9, 10];
    assert!(!c.read(&packet, IoOutcome::Done(3)));
    assert_eq!(c.input, vec![7, 8, 9]);
    assert!(!c.read(&packet, IoOutcome::Done(1)));
    assert_eq!(c.input, vec![7, 8, 9, 7]);
}

#[test]
fn read_of_nothing_closes() {
    let mut c = tcp_conn();
    let packet = [0u8; 4];
    assert!(c.read(&packet, IoOutcome::Done(0)));
    assert!(c.input.is_empty());
}

#[test]
fn read_errors() {
    let mut c = tcp_conn();
    let packet = [0u8; 4];
    assert!(!c.read(&packet, IoOutcome::WouldBlock));
    assert!(c.read(&packet, IoOutcome::ConnectionReset));
    let mut d = tcp_conn();
    assert!(d.read(&packet, IoOutcome::Failed));
}

#[test]
fn tags_are_set_and_replaced() {
    let mut c = tcp_conn();
    c.add_tag("user", "alice");
    c.add_tag("room", "1");
    c.add_tag("user", "bob");
    assert_eq!(c.tags.get("user"), Some("bob".to_string()));
    assert_eq!(c.tags.get("room"), Some("1".to_string()));
    assert_eq!(c.tags.get("none"), None);
    assert_eq!(c.tags.len(), 2);
}

#[test]
fn reconnect_resets_state() {
    let mut c = Conn::connect("tcp://127.0.0.1:9000")
        .unwrap()
        .established(Ok((StreamKind::UnsecuredTcpStream, NetAddr::NetSocketAddress("a".to_string()))))
        .unwrap();
    c.input = vec![1];
    c.output = vec![2];
    c.close = true;
    c.reg_write = true;
    c.add_tag("k", "v");
    let p = c.reconnect().unwrap();
    assert_eq!(*p.endpoint(), Endpoint::Tcp { addr: "127.0.0.1:9000".to_string() });
    assert_eq!(p.reestablish(&mut c, Err("down".to_string())), Err("down".to_string()));
    assert!(c.close);
    assert_eq!(c.input, vec![1]);
    let p = c.try_reconnect().unwrap().unwrap();
    assert_eq!(
        p.reestablish(&mut c, Ok((StreamKind::UdsStream, NetAddr::UdsSocketAddress("b".to_string())))),
        Ok(())
    );
    assert!(!c.close);
    assert!(!c.reg_write);
    assert!(c.input.is_empty());
    assert!(c.output.is_empty());
    assert_eq!(c.tags.len(), 0);
    assert_eq!(*c.get_stream(), StreamKind::UdsStream);
    assert_eq!(c.get_address().to_string(), "b");
    assert_eq!(c.get_url(), "tcp://127.0.0.1:9000");
}

#[test]
fn reconnect_refuses_a_bad_url() {
    let mut c = Conn::connect("unix:/tmp/x")
        .unwrap()
        .established(Ok((StreamKind::UdsStream, NetAddr::UdsSocketAddress("u".to_string()))))
        .unwrap();
    c.url = "tcp://127.0.0.1".to_string();
    assert_eq!(
        c.reconnect().err(),
        Some("Invalid Url.  It must have port defined. e.g. tcp://host:port".to_string())
    );
    c.url = "tcp://example.org:1".to_string();
    assert!(c.try_reconnect().is_none());
}

fn entries(cn: &str) -> Vec<CnEntry> {
    vec![CnEntry { short_name: Some("CN".to_string()), data: Some(cn.to_string()) }]
}

fn pending_conn(cfg: Option<SSLConfig>) -> Conn {
    let mut c = Conn::new(
        StreamKind::SslMidHandshakeStream,
        NetAddr::NetSocketAddress("127.0.0.1:1".to_string()),
    );
    c.server_ssl_config = cfg;
    c
}

#[test]
fn handshake_not_pending_changes_nothing() {
    let mut c = tcp_conn();
    assert!(!c.is_ssl_handshake_pending());
    assert_eq!(c.ssl_handshake(HandshakeOutcome::Failed("x".to_string())), Ok(()));
    assert_eq!(*c.get_stream(), StreamKind::Invalid);
}

#[test]
fn handshake_completes() {
    let mut c = pending_conn(None);
    assert!(c.is_ssl_handshake_pending());
    assert_eq!(c.ssl_handshake(HandshakeOutcome::Done(None)), Ok(()));
    assert_eq!(*c.get_stream(), StreamKind::SslTcpStream);
}

#[test]
fn handshake_would_block_stays_pending() {
    let mut c = pending_conn(None);
    assert_eq!(c.ssl_handshake(HandshakeOutcome::WouldBlock), Ok(()));
    assert!(c.is_ssl_handshake_pending());
}

#[test]
fn handshake_failure_is_an_error() {
    let mut c = pending_conn(None);
    assert_eq!(
        c.ssl_handshake(HandshakeOutcome::Failed("bad record".to_string())),
        Err("An SSL error occurred.bad record".to_string())
    );
    assert_eq!(*c.get_stream(), StreamKind::Invalid);
}

#[test]
fn handshake_checks_peer_against_settings() {
    let mut cfg = SSLConfig::default();
    cfg.enabled = true;
    cfg.valid_cns = Some(vec!["CN=alice".to_string()]);
    let mut ok = pending_conn(Some(cfg.clone()));
    assert_eq!(ok.ssl_handshake(HandshakeOutcome::Done(Some(entries("alice")))), Ok(()));
    assert_eq!(*ok.get_stream(), StreamKind::SslTcpStream);
    let mut bad = pending_conn(Some(cfg.clone()));
    assert_eq!(
        bad.ssl_handshake(HandshakeOutcome::Done(Some(entries("mallory")))),
        Err("An SSL error occurred.ERR Client SSL Authentication failed for CN: CN=mallory \r\n"
            .to_string())
    );
    assert_eq!(*bad.get_stream(), StreamKind::Invalid);
    let mut none = pending_conn(Some(cfg));
    assert_eq!(
        none.ssl_handshake(HandshakeOutcome::Done(None)),
        Err("An SSL error occurred.ERR No certificate was provided\r\n".to_string())
    );
}
