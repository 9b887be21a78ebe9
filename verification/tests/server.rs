use yahps::addr::{AddrTarget, SockAddr};
use yahps::error::ErrorKind;
use yahps::server::{
    connection_targets, on_error, on_outgoing, on_reader_stopped, on_signal, on_worker_packet, ConnAction,
    LocalDataAction, Server,
};

fn a(port: u16) -> SockAddr {
    SockAddr::V4 { ip: 0x7f00_0001, port }
}

#[test]
fn targets() {
    assert!(AddrTarget::All.targets(&a(1)));
    assert!(AddrTarget::Only(a(1)).targets(&a(1)));
    assert!(!AddrTarget::Only(a(1)).targets(&a(2)));
    assert!(!AddrTarget::Without(a(1)).targets(&a(1)));
    assert!(AddrTarget::Without(a(1)).targets(&a(2)));
    let v6 = SockAddr::V6 { ip6: 1, port: 1, flowinfo: 0, scope_id: 0 };
    assert!(!AddrTarget::Only(a(1)).targets(&v6));
}

#[test]
fn signals() {
    assert!(matches!(on_signal::<u8>(a(1), Some(AddrTarget::Only(a(1)))), ConnAction::Stop));
    assert!(matches!(on_signal::<u8>(a(1), Some(AddrTarget::Only(a(2)))), ConnAction::Skip));
    assert!(matches!(on_signal::<u8>(a(1), Some(AddrTarget::Without(a(2)))), ConnAction::Stop));
    assert!(matches!(on_signal::<u8>(a(1), Some(AddrTarget::All)), ConnAction::Stop));
    assert!(matches!(on_signal::<u8>(a(1), None), ConnAction::LogWarn));
}

#[test]
fn errors() {
    assert!(matches!(on_error::<u8>(a(1), ErrorKind::Ignorable), ConnAction::LogDebug));
    assert!(matches!(on_error::<u8>(a(1), ErrorKind::WarnOnly), ConnAction::LogWarn));
    assert!(matches!(on_error::<u8>(a(1), ErrorKind::Fatal), ConnAction::Abort));
    match on_error::<u8>(a(1), ErrorKind::Disconnect) {
        ConnAction::Disconnect(t) => assert_eq!(t, AddrTarget::Only(a(1))),
        _ => panic!("expected a disconnect"),
    }
}

#[test]
fn outgoing() {
    assert!(matches!(on_outgoing(a(1), AddrTarget::Without(a(1)), 5u8), ConnAction::Skip));
    assert!(matches!(on_outgoing(a(1), AddrTarget::Only(a(1)), 5u8), ConnAction::Deliver(5)));
}

#[test]
fn server_config() {
    let s = Server::new("service").bind(a(5123)).bind(a(5124));
    let (binds, workers, service) = s.into_parts();
    assert_eq!(binds, vec![a(5123), a(5124)]);
    assert!(workers >= 1);
    assert_eq!(service, "service");
}

#[test]
fn only_and_without_split_the_connections() {
    let addrs = [a(1), a(2), SockAddr::V6 { ip6: 7, port: 1, flowinfo: 2, scope_id: 3 }];
    for x in addrs {
        for y in addrs {
            assert_ne!(AddrTarget::Only(x).targets(&y), AddrTarget::Without(x).targets(&y));
            assert_eq!(AddrTarget::Only(x).targets(&y), x == y);
            assert!(AddrTarget::All.targets(&y));
        }
    }
}

#[test]
fn worker_local_data_and_targets() {
    assert_eq!(on_worker_packet(a(1), true), LocalDataAction::Reuse(a(1)));
    assert_eq!(on_worker_packet(a(1), false), LocalDataAction::Create(a(1)));
    assert_eq!(on_reader_stopped(a(2)), LocalDataAction::Remove(a(2)));
    let t = connection_targets(a(3));
    assert_eq!(t.disconnect, AddrTarget::Only(a(3)));
    assert_eq!(t.send, AddrTarget::Only(a(3)));
}

#[test]
fn server_with_worker_count() {
    let (binds, workers, service) = Server::with_worker_count(7u8, 3).into_parts();
    assert!(binds.is_empty());
    assert_eq!(workers, 3);
    assert_eq!(service, 7);
}
