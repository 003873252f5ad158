use warpgate_tunnel::tcp::{
    backend_tls, bind_address, TcpListenOptions, TcpProtocolServer, TlsConnectorFlags, TlsMode,
};

fn listen(address: &str, port: u16) -> Option<TcpListenOptions> {
    Some(TcpListenOptions { listen_address: address.to_string(), listen_port: port })
}

#[test]
fn one_listener_per_tcp_target() {
    let targets = vec![listen("0.0.0.0", 15432), None, listen("127.0.0.1", 6379), None];
    assert_eq!(
        TcpProtocolServer::bind_plan(&targets),
        vec![(0, "0.0.0.0:15432".to_string()), (2, "127.0.0.1:6379".to_string())]
    );
    assert!(TcpProtocolServer::bind_plan(&vec![None, None]).is_empty());
    assert_eq!(
        bind_address(&TcpListenOptions { listen_address: "::".to_string(), listen_port: 0 }),
        ":::0"
    );
}

#[test]
fn backend_tls_follows_the_target_settings() {
    assert_eq!(backend_tls(TlsMode::Disabled, true), None);
    assert_eq!(
        backend_tls(TlsMode::Required, true),
        Some(TlsConnectorFlags { accept_invalid_certs: false, accept_invalid_hostname: false })
    );
    assert_eq!(
        backend_tls(TlsMode::Preferred, false),
        Some(TlsConnectorFlags { accept_invalid_certs: true, accept_invalid_hostname: false })
    );
}
