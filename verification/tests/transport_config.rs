use grpc_performance_rs::ipv6::{Ipv6Groups, SocketAddrV6};
use grpc_performance_rs::transport::{
    parse_vsock_address, SocketAddrV4, SocketAddress, TransportConfig, TransportError,
    TransportFactory, VsockTransport, VMADDR_CID_ANY,
};

fn v4(a: u8, b: u8, c: u8, d: u8, port: u16) -> SocketAddress {
    SocketAddress::V4(SocketAddrV4 { a, b, c, d, port })
}

fn v6(groups: [u16; 8], scope_id: u32, port: u16) -> SocketAddress {
    SocketAddress::V6(SocketAddrV6 {
        groups: Ipv6Groups {
            g0: groups[0],
            g1: groups[1],
            g2: groups[2],
            g3: groups[3],
            g4: groups[4],
            g5: groups[5],
            g6: groups[6],
            g7: groups[7],
        },
        scope_id,
        port,
    })
}

#[test]
fn test_transport_config_from_str() {
    let tcp_config = TransportConfig::from_str("127.0.0.1:50051").unwrap();
    assert!(tcp_config.is_tcp());
    assert_eq!(tcp_config.port(), 50051);

    let vsock_config = TransportConfig::from_str("vsock://2:50051").unwrap();
    assert!(vsock_config.is_vsock());
    assert_eq!(vsock_config.port(), 50051);
    if let TransportConfig::Vsock { cid, port } = vsock_config {
        assert_eq!(cid, 2);
        assert_eq!(port, 50051);
    }

    assert!(TransportConfig::from_str("invalid").is_err());
    assert!(TransportConfig::from_str("vsock://invalid:port").is_err());
    assert!(TransportConfig::from_str("vsock://2").is_err());
}

#[test]
fn test_transport_config_display() {
    let tcp_config = TransportConfig::Tcp(SocketAddress::from_str("127.0.0.1:50051").unwrap());
    assert_eq!(tcp_config.to_string(), "127.0.0.1:50051");

    let vsock_config = TransportConfig::Vsock { cid: 2, port: 50051 };
    assert_eq!(vsock_config.to_string(), "vsock://2:50051");
}

#[test]
fn test_tcp_transport_config_parsing() {
    let tcp_config = TransportConfig::from_str("127.0.0.1:50051").unwrap();
    assert!(tcp_config.is_tcp());
    assert_eq!(tcp_config.port(), 50051);
    assert_eq!(tcp_config.to_string(), "127.0.0.1:50051");
}

#[test]
fn test_vsock_transport_config_parsing() {
    let vsock_config = TransportConfig::from_str("vsock://2:50051").unwrap();
    assert!(vsock_config.is_vsock());
    assert_eq!(vsock_config.port(), 50051);
    assert_eq!(vsock_config.to_string(), "vsock://2:50051");
    if let TransportConfig::Vsock { cid, port } = vsock_config {
        assert_eq!(cid, 2);
        assert_eq!(port, 50051);
    } else {
        panic!("Expected VSOCK config");
    }
}

#[test]
fn test_invalid_transport_config_parsing() {
    assert!(TransportConfig::from_str("invalid").is_err());
    assert!(TransportConfig::from_str("vsock://invalid:port").is_err());
    assert!(TransportConfig::from_str("vsock://2").is_err());
    assert!(TransportConfig::from_str("vsock://2:invalid").is_err());
    assert!(TransportConfig::from_str("256.256.256.256:50051").is_err());
}

#[test]
fn test_transport_factory_names() {
    let tcp_config = TransportConfig::from_str("127.0.0.1:50051").unwrap();
    assert_eq!(TransportFactory::transport_name(&tcp_config), "TCP");
    let vsock_config = TransportConfig::from_str("vsock://2:50051").unwrap();
    assert_eq!(TransportFactory::transport_name(&vsock_config), "VSOCK");
}

#[test]
fn test_transport_config_properties() {
    let tcp_config = TransportConfig::from_str("192.168.1.100:8080").unwrap();
    assert!(tcp_config.is_tcp());
    assert!(!tcp_config.is_vsock());
    assert_eq!(tcp_config.port(), 8080);

    let vsock_config = TransportConfig::Vsock { cid: 3, port: 9090 };
    assert!(!vsock_config.is_tcp());
    assert!(vsock_config.is_vsock());
    assert_eq!(vsock_config.port(), 9090);
}

#[test]
fn socket_address_fields_are_read_exactly() {
    let addr = SocketAddress::from_str("10.0.255.1:65535").unwrap();
    assert_eq!(addr, v4(10, 0, 255, 1, 65535));
    assert_eq!(addr.port(), 65535);
    assert_eq!(SocketAddress::from_str("0.0.0.0:0").unwrap().to_string(), "0.0.0.0:0");
}

#[test]
fn socket_address_round_trips_through_text() {
    let all = [
        v4(0, 0, 0, 0, 0),
        v4(255, 255, 255, 255, 65535),
        v4(1, 20, 100, 9, 80),
        v4(192, 168, 1, 100, 8080),
    ];
    for addr in all {
        let text = addr.to_string();
        assert_eq!(SocketAddress::from_str(&text), Some(addr));
        let config = TransportConfig::Tcp(addr);
        assert_eq!(TransportConfig::from_str(&config.to_string()).unwrap(), config);
    }
}

#[test]
fn vsock_address_round_trips_through_text() {
    for (cid, port) in [(0u32, 0u32), (2, 50051), (u32::MAX, u32::MAX), (3, 10)] {
        let config = TransportConfig::Vsock { cid, port };
        assert_eq!(TransportConfig::from_str(&config.to_string()).unwrap(), config);
    }
}

#[test]
fn malformed_socket_addresses_are_rejected() {
    for text in [
        "",
        "127.0.0.1",
        "127.0.0.1:",
        "127.0.0.1:65536",
        "127.0.0.1:port",
        "127.0.0:80",
        "127.0.0.1.5:80",
        "256.0.0.1:80",
        "01.0.0.1:80",
        "1.2.3.4:80 ",
        " 1.2.3.4:80",
        "1.2.3.4:+80",
        "1..3.4:80",
        "localhost:80",
        "1234.1.1.1:80",
    ] {
        assert!(SocketAddress::from_str(text).is_none(), "{}", text);
        assert!(TransportConfig::from_str(text).is_err(), "{}", text);
    }
    assert_eq!(
        SocketAddress::from_str("1.2.3.4:00080"),
        Some(v4(1, 2, 3, 4, 80))
    );
}

#[test]
fn malformed_vsock_addresses_are_rejected() {
    for text in [
        "vsock://",
        "vsock://:",
        "vsock://2:",
        "vsock://:5",
        "vsock://2:3:4",
        "vsock://4294967296:1",
        "vsock://1:4294967296",
        "vsock://-1:1",
        "vsock://2: 1",
        "vsock://+:1",
    ] {
        assert!(TransportConfig::from_str(text).is_err(), "{}", text);
    }
    assert_eq!(
        TransportConfig::from_str("vsock://+2:007").unwrap(),
        TransportConfig::Vsock { cid: 2, port: 7 }
    );
    assert_eq!(
        TransportConfig::from_str("vsock://4294967295:4294967295").unwrap(),
        TransportConfig::Vsock { cid: u32::MAX, port: u32::MAX }
    );
}

#[test]
fn invalid_address_messages_name_the_broken_rule() {
    let shape = TransportConfig::from_str("vsock://2").unwrap_err();
    assert_eq!(
        shape.to_string(),
        "Invalid address format: VSOCK address must be in format 'vsock://cid:port', got: vsock://2"
    );
    let cid = TransportConfig::from_str("vsock://invalid:port").unwrap_err();
    assert_eq!(cid.to_string(), "Invalid address format: Invalid CID in VSOCK address: invalid");
    let port = TransportConfig::from_str("vsock://2:invalid").unwrap_err();
    assert_eq!(port.to_string(), "Invalid address format: Invalid port in VSOCK address: invalid");
    let tcp = TransportConfig::from_str("invalid").unwrap_err();
    assert_eq!(
        tcp.to_string(),
        "Invalid address format: Invalid TCP address 'invalid': invalid socket address syntax"
    );
    assert!(matches!(tcp, TransportError::InvalidAddress(_)));
}

#[test]
fn vsock_bind_maps_context_zero_to_any() {
    let any = TransportConfig::Vsock { cid: 0, port: 7 };
    assert_eq!(VsockTransport::bind_endpoint(&any).unwrap(), (VMADDR_CID_ANY, 7));
    assert_eq!(VsockTransport::connect_endpoint(&any).unwrap(), (0, 7));
    let two = TransportConfig::Vsock { cid: 2, port: 7 };
    assert_eq!(VsockTransport::bind_endpoint(&two).unwrap(), (2, 7));
    let tcp = TransportConfig::from_str("127.0.0.1:1").unwrap();
    assert_eq!(
        VsockTransport::bind_endpoint(&tcp).unwrap_err().to_string(),
        "Transport not supported: VSOCK transport does not support TCP addresses"
    );
}

#[test]
fn bind_and_connect_failures_carry_address_and_cause() {
    let tcp = TransportConfig::from_str("127.0.0.1:1").unwrap();
    assert_eq!(
        TransportFactory::connect_failed(&tcp, "refused").to_string(),
        "Connection failed: TCP connect to 127.0.0.1:1 failed: refused"
    );
    assert_eq!(
        TransportFactory::bind_failed(&tcp, "in use").to_string(),
        "Bind failed: TCP bind to 127.0.0.1:1 failed: in use"
    );
    let vsock = TransportConfig::Vsock { cid: 0, port: 9 };
    assert_eq!(
        TransportFactory::bind_failed(&vsock, "denied").to_string(),
        "Bind failed: VSOCK bind to 4294967295:9 failed: denied"
    );
    assert_eq!(
        TransportFactory::connect_failed(&vsock, "denied").to_string(),
        "Connection failed: VSOCK connect to 0:9 failed: denied"
    );
}

#[test]
fn bare_vsock_address_is_cid_and_port() {
    assert_eq!(parse_vsock_address("2:1234").unwrap(), (2, 1234));
    assert!(parse_vsock_address("2").is_err());
    assert!(parse_vsock_address("a:1").is_err());
    assert!(parse_vsock_address("1:b").is_err());
    assert_eq!(
        parse_vsock_address("1:2:3").unwrap_err().to_string(),
        "Network error: Invalid address: 1:2:3"
    );
}

#[test]
fn sixth_version_addresses_are_read_exactly() {
    let cases: Vec<(&str, SocketAddress)> = vec![
        ("[::1]:8080", v6([0, 0, 0, 0, 0, 0, 0, 1], 0, 8080)),
        ("[::]:0", v6([0; 8], 0, 0)),
        ("[2001:db8::1]:443", v6([0x2001, 0xdb8, 0, 0, 0, 0, 0, 1], 0, 443)),
        ("[2001:DB8::A]:1", v6([0x2001, 0xdb8, 0, 0, 0, 0, 0, 0xa], 0, 1)),
        ("[1:2:3:4:5:6:7:8]:65535", v6([1, 2, 3, 4, 5, 6, 7, 8], 0, 65535)),
        ("[1:2:3:4:5:6:7::]:9", v6([1, 2, 3, 4, 5, 6, 7, 0], 0, 9)),
        ("[::1:2:3:4:5:6:7]:9", v6([0, 1, 2, 3, 4, 5, 6, 7], 0, 9)),
        ("[1::8]:9", v6([1, 0, 0, 0, 0, 0, 0, 8], 0, 9)),
        ("[fe80::1%3]:80", v6([0xfe80, 0, 0, 0, 0, 0, 0, 1], 3, 80)),
        ("[fe80::1%4294967295]:80", v6([0xfe80, 0, 0, 0, 0, 0, 0, 1], u32::MAX, 80)),
        ("[::ffff:192.168.1.1]:80", v6([0, 0, 0, 0, 0, 0xffff, 0xc0a8, 0x0101], 0, 80)),
        ("[1:2:3:4:5:6:1.2.3.4]:9", v6([1, 2, 3, 4, 5, 6, 0x0102, 0x0304], 0, 9)),
        ("[::1.2.3.4]:5", v6([0, 0, 0, 0, 0, 0, 0x0102, 0x0304], 0, 5)),
        ("[0001:002:03:4::]:00007", v6([1, 2, 3, 4, 0, 0, 0, 0], 0, 7)),
    ];
    for (text, expected) in cases {
        assert_eq!(SocketAddress::from_str(text), Some(expected), "{}", text);
        assert_eq!(TransportConfig::from_str(text).unwrap(), TransportConfig::Tcp(expected));
    }
}

#[test]
fn sixth_version_addresses_have_a_canonical_text() {
    let cases: Vec<(SocketAddress, &str)> = vec![
        (v6([0, 0, 0, 0, 0, 0, 0, 1], 0, 8080), "[::1]:8080"),
        (v6([0; 8], 0, 0), "[::]:0"),
        (v6([0x2001, 0xdb8, 0, 0, 1, 0, 0, 1], 0, 80), "[2001:db8::1:0:0:1]:80"),
        (v6([1, 0, 0, 2, 0, 0, 0, 3], 0, 80), "[1:0:0:2::3]:80"),
        (v6([1, 0, 2, 3, 4, 5, 6, 7], 0, 1), "[1:0:2:3:4:5:6:7]:1"),
        (v6([1, 2, 3, 4, 5, 6, 7, 0], 0, 1), "[1:2:3:4:5:6:7:0]:1"),
        (v6([1, 2, 3, 4, 5, 6, 0, 0], 0, 1), "[1:2:3:4:5:6::]:1"),
        (v6([0, 0, 3, 4, 5, 6, 7, 8], 0, 1), "[::3:4:5:6:7:8]:1"),
        (v6([0xffff, 0xabcd, 0x10, 0x100, 0x1000, 9, 0xa, 0xf], 0, 1), "[ffff:abcd:10:100:1000:9:a:f]:1"),
        (v6([0, 0, 0, 0, 0, 0xffff, 0xc0a8, 0x0101], 0, 80), "[::ffff:192.168.1.1]:80"),
        (v6([0, 0, 0, 0, 0, 0xffff, 0, 0], 7, 80), "[::ffff:0.0.0.0%7]:80"),
        (v6([0, 0, 0, 0, 0, 0, 0x0102, 0x0304], 0, 5), "[::102:304]:5"),
        (v6([0xfe80, 0, 0, 0, 0, 0, 0, 1], 3, 80), "[fe80::1%3]:80"),
    ];
    for (addr, text) in cases {
        assert_eq!(addr.to_string(), text);
        assert_eq!(SocketAddress::from_str(text), Some(addr), "{}", text);
        let config = TransportConfig::Tcp(addr);
        assert_eq!(config.to_string(), text);
        assert_eq!(TransportConfig::from_str(text).unwrap(), config);
        assert!(config.is_tcp());
    }
}

#[test]
fn malformed_sixth_version_addresses_are_rejected() {
    for text in [
        "::1:80",
        "[::1]",
        "[::1]:",
        "[::1]:65536",
        "[::1]80",
        "[1:2:3:4:5:6:7:8:9]:1",
        "[1:2:3:4:5:6:7]:1",
        "[1::2::3]:1",
        "[12345::1]:1",
        "[::1%]:1",
        "[::1%4294967296]:1",
        "[::1%x]:1",
        "[::g]:1",
        "[1.2.3.4::]:1",
        "[:1]:1",
        "[1:]:1",
        "[1:2:3:4:5:6:7:8::]:1",
        "[::1:2:3:4:5:6:7:8]:1",
        "[1:2:3:4:5:6:7:1.2.3.4]:1",
        "[::256.1.1.1]:1",
        "[::1] :1",
        " [::1]:1",
        "[]:1",
        "[:::]:1",
    ] {
        assert!(SocketAddress::from_str(text).is_none(), "{}", text);
        assert!(TransportConfig::from_str(text).is_err(), "{}", text);
    }
}

#[test]
fn transport_errors_read_as_their_text() {
    assert_eq!(TransportError::Tcp("reset".to_string()).to_string(), "TCP transport error: reset");
    assert_eq!(
        TransportError::Vsock("no device".to_string()).to_string(),
        "VSOCK transport error: no device"
    );
    assert_eq!(
        TransportError::NotSupported("x".to_string()).to_string(),
        "Transport not supported: x"
    );
    assert_eq!(TransportError::BindFailed("y".to_string()).to_string(), "Bind failed: y");
}
