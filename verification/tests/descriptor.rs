use procmon::descriptor::{CommandDescriptor, RemoteEndpoint, TransportProtocol};
use procmon::error::ErrorKind;

fn endpoint(host: &str, protocol: TransportProtocol) -> RemoteEndpoint {
    RemoteEndpoint { host: host.to_string(), protocol }
}

#[test]
fn descriptor_without_remotes_is_refused() {
    let r = CommandDescriptor::new(
        "/usr/sbin/openvpn".to_string(),
        "/etc/openvpn/client.conf".to_string(),
        Vec::new(),
        true,
    );
    match r {
        Ok(_) => panic!("a descriptor without remote endpoints must be refused"),
        Err(e) => {
            assert!(matches!(e.kind, ErrorKind::InvalidDescriptor));
            assert_eq!(
                e.message.as_str(),
                "a command descriptor needs at least one remote endpoint"
            );
        }
    }
}

#[test]
fn descriptor_keeps_its_fields() {
    let remotes = vec![
        endpoint("alpha.example", TransportProtocol::Udp),
        endpoint("beta.example", TransportProtocol::Tcp),
    ];
    let d = CommandDescriptor::new(
        "/usr/sbin/openvpn".to_string(),
        "/etc/openvpn/client.conf".to_string(),
        remotes,
        true,
    )
    .unwrap();
    assert_eq!(d.executable_path().as_str(), "/usr/sbin/openvpn");
    assert_eq!(d.config_file_path().as_str(), "/etc/openvpn/client.conf");
    assert_eq!(d.remote_endpoints().len(), 2);
    assert_eq!(d.remote_endpoints()[0].host.as_str(), "alpha.example");
    assert!(matches!(
        d.remote_endpoints()[0].protocol,
        TransportProtocol::Udp
    ));
    assert_eq!(d.remote_endpoints()[1].host.as_str(), "beta.example");
    assert!(matches!(
        d.remote_endpoints()[1].protocol,
        TransportProtocol::Tcp
    ));
    assert!(d.forward_output());
}

#[test]
fn descriptor_without_forwarding() {
    let d = CommandDescriptor::new(
        "/usr/sbin/openvpn".to_string(),
        "/etc/openvpn/client.conf".to_string(),
        vec![endpoint("alpha.example", TransportProtocol::Udp)],
        false,
    )
    .unwrap();
    assert!(!d.forward_output());
}
