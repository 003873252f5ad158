use warpgate_tunnel::kubernetes::{
    api_client_settings, bearer_authorization, classify_portforward_message, header_value, ApiHeader, data_channel_message, endpoints_url,
    find_kubernetes_target, impersonation_header, pem_bundle, portforward_url,
    portforward_url_string, select_service_backend, websocket_scheme, EndpointAddress,
    EndpointSubset, KubernetesHeaderError, KubernetesTargetError, PortForwardMessage,
    PortForwardUrlError, TargetRef, TunnelCandidate,
};

fn candidate(id: u128, name: &str, is_kubernetes: bool) -> TunnelCandidate {
    TunnelCandidate { id, name: name.to_string(), is_kubernetes }
}

#[test]
fn kubernetes_target_is_looked_up_by_id() {
    let targets = vec![candidate(1, "db", false), candidate(2, "cluster", true), candidate(1, "dup", true)];
    assert_eq!(find_kubernetes_target(&targets, 2), Ok(1));
    assert_eq!(
        find_kubernetes_target(&targets, 1),
        Err(KubernetesTargetError::NotKubernetes { name: "db".to_string(), id: 1 })
    );
    assert_eq!(find_kubernetes_target(&targets, 3), Err(KubernetesTargetError::NotFound(3)));
}

fn pod(name: &str, kind: Option<&str>) -> EndpointAddress {
    EndpointAddress {
        target_ref: Some(TargetRef { kind: kind.map(str::to_string), name: name.to_string() }),
    }
}

#[test]
fn single_port_service_uses_its_only_port() {
    let subsets = vec![EndpointSubset { addresses: vec![pod("web-1", Some("Pod"))], ports: vec![8080] }];
    let backend = select_service_backend(&subsets, 80).unwrap();
    assert_eq!(backend.pod_name, "web-1");
    assert_eq!(backend.pod_port, 8080);
}

#[test]
fn multi_port_service_needs_an_exact_port() {
    let subsets = vec![
        EndpointSubset { addresses: vec![pod("a", None)], ports: vec![80, 443] },
        EndpointSubset { addresses: vec![pod("b", None)], ports: vec![5432, 9187] },
    ];
    let backend = select_service_backend(&subsets, 5432).unwrap();
    assert_eq!((backend.pod_name.as_str(), backend.pod_port), ("b", 5432));
    assert!(select_service_backend(&subsets, 22).is_none());
}

#[test]
fn only_pod_addresses_are_used() {
    let subsets = vec![
        EndpointSubset { addresses: vec![EndpointAddress { target_ref: None }], ports: vec![80] },
        EndpointSubset {
            addresses: vec![pod("node", Some("Node")), pod("pod-2", None), pod("pod-3", Some("Pod"))],
            ports: vec![80],
        },
    ];
    let backend = select_service_backend(&subsets, 80).unwrap();
    assert_eq!(backend.pod_name, "pod-2");
    let none = vec![EndpointSubset { addresses: vec![], ports: vec![80] }];
    assert!(select_service_backend(&none, 80).is_none());
    assert!(select_service_backend(&vec![], 80).is_none());
}

#[test]
fn authorization_headers_are_validated() {
    let v = bearer_authorization("abc.def").unwrap();
    assert_eq!(v, b"Bearer abc.def".to_vec());
    assert_eq!(bearer_authorization("t\u{e9}").unwrap(), "Bearer t\u{e9}".as_bytes().to_vec());
    assert_eq!(bearer_authorization("bad\ntoken").unwrap_err(), KubernetesHeaderError::InvalidAuthorization);
    assert!(impersonation_header(false, None).unwrap().is_none());
    assert_eq!(impersonation_header(true, None).unwrap_err(), KubernetesHeaderError::NoUserToImpersonate);
    assert_eq!(
        impersonation_header(true, Some("alice")).unwrap().unwrap(),
        b"alice".to_vec()
    );
    assert_eq!(impersonation_header(false, Some("alice")).unwrap(), None);
    assert_eq!(
        impersonation_header(true, Some("al\u{7f}ice")).unwrap_err(),
        KubernetesHeaderError::InvalidImpersonatedUser
    );
}

#[test]
fn pem_bundle_ends_each_part_with_one_newline() {
    assert_eq!(pem_bundle("CERT\n\n", "KEY\n"), "CERT\nKEY\n");
    assert_eq!(pem_bundle("CERT", "KEY"), "CERT\nKEY\n");
    assert_eq!(pem_bundle("A\nB\n", ""), "A\nB\n\n");
}

#[test]
fn portforward_urls_use_websocket_schemes() {
    assert_eq!(
        portforward_url_string("https://k8s.example:6443", "default", "web-1", 8080),
        "https://k8s.example:6443/api/v1/namespaces/default/pods/web-1/portforward?ports=8080"
    );
    assert_eq!(websocket_scheme("https"), "wss");
    assert_eq!(websocket_scheme("http"), "ws");
    let url = portforward_url("https://k8s.example:6443", "default", "web-1", 8080).unwrap();
    assert_eq!(url.scheme, "wss");
    let url = url.url;
    assert_eq!(url.as_str(), "wss://k8s.example:6443/api/v1/namespaces/default/pods/web-1/portforward?ports=8080");
    let url = portforward_url("http://10.0.0.1", "ns", "p", 1).unwrap();
    assert_eq!(url.scheme, "ws");
    let url = url.url;
    assert_eq!(url.as_str(), "ws://10.0.0.1/api/v1/namespaces/ns/pods/p/portforward?ports=1");
    assert_eq!(portforward_url("not a url", "ns", "p", 1).unwrap_err(), PortForwardUrlError::Construct);
    assert_eq!(portforward_url("unix:/run/k8s", "ns", "p", 1).unwrap_err(), PortForwardUrlError::SetScheme);
}

#[test]
fn portforward_messages_are_demultiplexed() {
    assert_eq!(classify_portforward_message(&[0, 1, 2]), PortForwardMessage::Data);
    assert_eq!(classify_portforward_message(&[0]), PortForwardMessage::Ignore);
    assert_eq!(classify_portforward_message(&[1]), PortForwardMessage::Error);
    assert_eq!(classify_portforward_message(&[1, b'x']), PortForwardMessage::Error);
    assert_eq!(classify_portforward_message(&[2, 1]), PortForwardMessage::Ignore);
    assert_eq!(classify_portforward_message(&[]), PortForwardMessage::Ignore);
    let message = data_channel_message(b"hello");
    assert_eq!(message, b"\0hello".to_vec());
    assert_eq!(classify_portforward_message(&message), PortForwardMessage::Data);
}

#[test]
fn endpoints_url_names_the_service() {
    assert_eq!(
        endpoints_url("https://k8s.example", "prod", "postgres"),
        "https://k8s.example/api/v1/namespaces/prod/endpoints/postgres"
    );
}

#[test]
fn header_values_follow_the_http_byte_rule() {
    assert_eq!(header_value(b"a b\tc"), Some(b"a b\tc".to_vec()));
    assert_eq!(header_value(&[0x80, 0xff]), Some(vec![0x80, 0xff]));
    assert_eq!(header_value(b"a\x7f"), None);
    assert_eq!(header_value(b"\r"), None);
    assert_eq!(header_value(b""), Some(vec![]));
}

#[test]
fn api_client_settings_collect_both_headers() {
    let s = api_client_settings(false, Some(b"Bearer t".to_vec()), Some(b"alice".to_vec()));
    assert!(s.accept_invalid_certs);
    assert_eq!(
        s.default_headers,
        vec![(ApiHeader::Authorization, b"Bearer t".to_vec()), (ApiHeader::ImpersonateUser, b"alice".to_vec())]
    );
    let s = api_client_settings(true, None, None);
    assert!(!s.accept_invalid_certs);
    assert!(s.default_headers.is_empty());
    let s = api_client_settings(true, None, Some(b"bob".to_vec()));
    assert_eq!(s.default_headers, vec![(ApiHeader::ImpersonateUser, b"bob".to_vec())]);
}
