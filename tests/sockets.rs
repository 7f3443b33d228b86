use std::io;
use udp_prober::socket::{bind_address, Acquire, Error, Factory, Family, SocketAddress};

const V4: SocketAddress = SocketAddress::V4 { ip: 0x7f00_0001, port: 9999 };
const V6: SocketAddress = SocketAddress::V6 { ip: 1, port: 8125 };

#[test]
fn wildcard_endpoints() {
    assert_eq!(bind_address(Family::V4), SocketAddress::V4 { ip: 0, port: 0 });
    assert_eq!(bind_address(Family::V6), SocketAddress::V6 { ip: 0, port: 0 });
}

#[test]
fn address_families() {
    assert_eq!(V4.family(), Family::V4);
    assert_eq!(V6.family(), Family::V6);
}

#[test]
fn first_request_binds_then_reuses() {
    let mut factory = Factory::new();
    assert_eq!(
        factory.get(&V4),
        Acquire::Bind { family: Family::V4, local: SocketAddress::V4 { ip: 0, port: 0 } }
    );
    assert!(factory.bound(Family::V4, Ok(())).is_ok());
    for _ in 0..5 {
        assert_eq!(factory.get(&V4), Acquire::Reuse(Family::V4));
    }
}

#[test]
fn families_are_isolated() {
    let mut factory = Factory::new();
    assert!(factory.bound(Family::V4, Ok(())).is_ok());
    assert_eq!(
        factory.get(&V6),
        Acquire::Bind { family: Family::V6, local: SocketAddress::V6 { ip: 0, port: 0 } }
    );
    assert!(factory.bound(Family::V6, Ok(())).is_ok());
    assert_eq!(factory.get(&V4), Acquire::Reuse(Family::V4));
    assert_eq!(factory.get(&V6), Acquire::Reuse(Family::V6));
}

#[test]
fn failed_bind_does_not_poison_the_slot() {
    let mut factory = Factory::new();
    let r = factory.bound(Family::V6, Err(io::Error::new(io::ErrorKind::AddrNotAvailable, "no v6")));
    assert!(matches!(r, Err(Error::Bind { .. })));
    assert_eq!(
        factory.get(&V6),
        Acquire::Bind { family: Family::V6, local: SocketAddress::V6 { ip: 0, port: 0 } }
    );
    assert!(factory.bound(Family::V6, Ok(())).is_ok());
    assert_eq!(factory.get(&V6), Acquire::Reuse(Family::V6));
}
