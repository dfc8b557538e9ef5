use gadu::config::{GaduConfig, SSLConfig};
use gadu::conn::{NetAddr, StreamKind};
use gadu::endpoint::Endpoint;
use gadu::server::{AcceptorStep, CnEntry, HandshakeOutcome, ListenPlan, NetListener, Server};

fn cn(short: Option<&str>, data: Option<&str>) -> CnEntry {
    CnEntry { short_name: short.map(|s| s.to_string()), data: data.map(|s| s.to_string()) }
}

#[test]
fn peer_without_certificate_is_refused() {
    let cfg = SSLConfig::default();
    assert_eq!(
        Server::validate_ssl_connection(&cfg, &None),
        Err("ERR No certificate was provided\r\n".to_string())
    );
    assert_eq!(
        Server::validate_ssl_connection(&cfg, &Some(vec![])),
        Err("ERR No certificate was provided\r\n".to_string())
    );
}

#[test]
fn any_name_passes_without_list() {
    let cfg = SSLConfig::default();
    assert_eq!(Server::validate_ssl_connection(&cfg, &Some(vec![cn(Some("CN"), Some("x"))])), Ok(()));
}

#[test]
fn names_are_checked_against_list() {
    let mut cfg = SSLConfig::default();
    cfg.valid_cns = Some(vec!["CN=a".to_string(), "CN=bCN=c".to_string()]);
    assert_eq!(Server::validate_ssl_connection(&cfg, &Some(vec![cn(Some("CN"), Some("a"))])), Ok(()));
    assert_eq!(
        Server::validate_ssl_connection(
            &cfg,
            &Some(vec![cn(Some("CN"), Some("b")), cn(Some("CN"), Some("c"))])
        ),
        Ok(())
    );
    assert_eq!(
        Server::validate_ssl_connection(&cfg, &Some(vec![cn(None, Some("a"))])),
        Err("ERR Client SSL Authentication failed for CN: =a \r\n".to_string())
    );
    assert_eq!(
        Server::validate_ssl_connection(&cfg, &Some(vec![cn(Some("CN"), None)])),
        Err("ERR Client SSL Authentication failed for CN: CN= \r\n".to_string())
    );
}

#[test]
fn acceptor_steps_for_defaults() {
    let g = GaduConfig::default();
    assert_eq!(
        Server::build_acceptor(&g),
        vec![
            AcceptorStep::SetDefaultVerifyPaths,
            AcceptorStep::SetModeAutoRetry,
            AcceptorStep::VerifyNone
        ]
    );
}

#[test]
fn acceptor_steps_for_full_settings() {
    let mut g = GaduConfig::default();
    g.ssl_config.verify = Some(true);
    g.ssl_config.verify_depth = Some(4);
    g.ssl_config.certificate_file = Some("cert.pem".to_string());
    g.ssl_config.private_key_file = Some("key.pem".to_string());
    g.ssl_config.ca_file = Some("ca.pem".to_string());
    assert_eq!(
        Server::build_acceptor(&g),
        vec![
            AcceptorStep::SetDefaultVerifyPaths,
            AcceptorStep::SetModeAutoRetry,
            AcceptorStep::VerifyPeerAcceptingAll,
            AcceptorStep::SetVerifyDepth(4),
            AcceptorStep::SetCertificateChainFile("cert.pem".to_string()),
            AcceptorStep::SetPrivateKeyFile("key.pem".to_string()),
            AcceptorStep::CheckPrivateKey,
            AcceptorStep::SetCaFile("ca.pem".to_string()),
        ]
    );
}

#[test]
fn zero_depth_and_no_verify_are_skipped() {
    let mut g = GaduConfig::default();
    g.ssl_config.verify = Some(false);
    g.ssl_config.verify_depth = Some(0);
    assert_eq!(Server::build_acceptor(&g).len(), 3);
}

#[test]
fn listen_plans() {
    let mut g = GaduConfig::default();
    assert_eq!(
        Server::listen_plan(&g),
        Ok(ListenPlan {
            endpoint: Endpoint::Tcp { addr: "127.0.0.1:10000".to_string() },
            listener: NetListener::UnsecuredTcpListener,
            build_acceptor: false,
        })
    );
    g.ssl_config.enabled = true;
    assert_eq!(Server::listen_plan(&g).unwrap().listener, NetListener::SslTcpListener);
    g.url = "unix:/tmp/srv.sock".to_string();
    assert_eq!(
        Server::listen_plan(&g),
        Ok(ListenPlan {
            endpoint: Endpoint::Unix { path: "/tmp/srv.sock".to_string() },
            listener: NetListener::UdsListener,
            build_acceptor: true,
        })
    );
    g.url = "ftp://h:1".to_string();
    assert_eq!(
        Server::listen_plan(&g),
        Err("Unsupported scheme. Valid schemes are unix and tcp".to_string())
    );
}

#[test]
fn accepted_connection_carries_tls_settings() {
    let mut g = GaduConfig::default();
    let (plain, plan) = Server::init(7, &g).unwrap();
    assert_eq!(plain.id, 7);
    assert_eq!(plain.server, NetListener::UnsecuredTcpListener);
    assert_eq!(plain.poll_timeout_ms, 250);
    assert!(!plan.build_acceptor);
    let c = plain.accept_connection(StreamKind::UnsecuredTcpStream, NetAddr::NetSocketAddress("p".to_string()));
    assert!(c.server_ssl_config.is_none());
    g.ssl_config.enabled = true;
    g.ssl_config.valid_cns = Some(vec!["CN=z".to_string()]);
    let (tls, plan) = Server::init(8, &g).unwrap();
    assert_eq!(tls.server, NetListener::SslTcpListener);
    assert!(plan.build_acceptor);
    let c = tls.accept_connection(StreamKind::SslTcpStream, NetAddr::NetSocketAddress("q".to_string()));
    assert_eq!(c.server_ssl_config, Some(g.ssl_config.clone()));
}

#[test]
fn accept_ssl_classifies_handshake() {
    let mut g = GaduConfig::default();
    g.ssl_config.enabled = true;
    let (s, _) = Server::init(1, &g).unwrap();
    let a = NetAddr::NetSocketAddress("r".to_string());
    assert_eq!(
        s.accept_ssl_connection(&HandshakeOutcome::Done(Some(vec![cn(Some("CN"), Some("x"))])), a.clone()),
        Ok((StreamKind::SslTcpStream, a.clone()))
    );
    assert_eq!(
        s.accept_ssl_connection(&HandshakeOutcome::WouldBlock, a.clone()),
        Ok((StreamKind::SslMidHandshakeStream, a.clone()))
    );
    assert_eq!(
        s.accept_ssl_connection(&HandshakeOutcome::Done(None), a.clone()),
        Err("An SSL error occurred.ERR No certificate was provided\r\n".to_string())
    );
    assert_eq!(
        s.accept_ssl_connection(&HandshakeOutcome::Failed("eof".to_string()), a),
        Err("An SSL error occurred.eof".to_string())
    );
}

#[test]
fn init_refuses_bad_urls() {
    let mut g = GaduConfig::default();
    g.url = "tcp://127.0.0.1".to_string();
    assert_eq!(
        Server::init(0, &g).err(),
        Some("Invalid Url.  It must have port defined. e.g. tcp://host:port".to_string())
    );
    g.url = "http://127.0.0.1:10000".to_string();
    assert_eq!(
        Server::init(1, &g).err(),
        Some("Unsupported scheme. Valid schemes are unix and tcp".to_string())
    );
    g.url = "unix:/tmp/u.sock".to_string();
    let (s, plan) = Server::init(2, &g).unwrap();
    assert_eq!(s.server, NetListener::UdsListener);
    assert_eq!(plan.endpoint, Endpoint::Unix { path: "/tmp/u.sock".to_string() });
}

#[test]
fn try_init_leaves_out_host_names() {
    let mut g = GaduConfig::default();
    g.url = "tcp://localhost:10000".to_string();
    assert!(Server::try_init(0, &g).is_none());
    g.url = "tcp://127.0.0.1:10000".to_string();
    assert!(matches!(Server::try_init(0, &g), Some(Ok(_))));
}
