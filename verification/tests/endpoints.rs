use tcp_listen::endpoint::{IpAddress, SocketAddress};

#[test]
fn new_keeps_host_and_port() {
    let a = SocketAddress::new(IpAddress::V4(0x7f00_0001), 4000);
    assert_eq!(a.ip, IpAddress::V4(0x7f00_0001));
    assert_eq!(a.port, 4000);
    assert_eq!(a, SocketAddress { ip: IpAddress::V4(0x7f00_0001), port: 4000 });
}

#[test]
fn endpoints_differ_by_host_family_or_port() {
    let a = SocketAddress::new(IpAddress::V4(1), 80);
    assert_ne!(a, SocketAddress::new(IpAddress::V4(2), 80));
    assert_ne!(a, SocketAddress::new(IpAddress::V4(1), 81));
    assert_ne!(a, SocketAddress::new(IpAddress::V6(1), 80));
    assert_eq!(a, SocketAddress::new(IpAddress::V4(1), 80));
}

#[test]
fn port_zero_asks_for_an_ephemeral_port() {
    assert!(SocketAddress::new(IpAddress::V4(0x7f00_0001), 0).requests_ephemeral_port());
    assert!(SocketAddress::new(IpAddress::V6(1), 0).requests_ephemeral_port());
}

#[test]
fn any_other_port_asks_for_that_port() {
    assert!(!SocketAddress::new(IpAddress::V4(0x7f00_0001), 1).requests_ephemeral_port());
    assert!(!SocketAddress::new(IpAddress::V4(0x7f00_0001), 4000).requests_ephemeral_port());
    assert!(!SocketAddress::new(IpAddress::V6(1), 65535).requests_ephemeral_port());
}
