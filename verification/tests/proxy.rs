use yahps::addr::{AddrTarget, SockAddr};
use yahps::error::ErrorKind;
use yahps::proxy::{Decoder, Encoder, Handler, HandleStep, Proxy};
use yahps::reverse_proxy::{self, upstream_action, ReverseProxy, UpstreamAction, UpstreamEvent, UpstreamSlot};

#[test]
fn proxy_global_points_at_local_port() {
    let g = Proxy.init_global();
    assert_eq!(g.target(), SockAddr::V4 { ip: 0x7f00_0001, port: 5123 });
}

#[test]
fn proxy_handler_disconnects() {
    assert_eq!(Handler.handle(), HandleStep::Disconnect);
    assert_eq!(Decoder.error_kind(true), ErrorKind::WarnOnly);
    assert_eq!(Encoder.error_kind(), ErrorKind::WarnOnly);
}

#[test]
fn reverse_proxy_handler() {
    let target = SockAddr::V4 { ip: 0x0a00_0001, port: 80 };
    let p = ReverseProxy::new(target);
    let mut h = p.create_handler();
    assert_eq!(h.target(), target);
    let mut slot: UpstreamSlot<u32> = UpstreamSlot::default();
    assert_eq!(h.handle(&slot), HandleStep::Connect);
    assert_eq!(h.connected(&mut slot, None), HandleStep::Disconnect);
    assert!(!slot.is_open());
    assert_eq!(h.connected(&mut slot, Some(7)), HandleStep::Forward);
    assert_eq!(slot.get(), Some(&7));
    assert_eq!(h.handle(&slot), HandleStep::Forward);
    // The first connection opened is kept.
    assert_eq!(h.connected(&mut slot, Some(8)), HandleStep::Forward);
    assert_eq!(slot.get(), Some(&7));
    assert!(!slot.set(9));
}

#[test]
fn reverse_proxy_errors_and_pipes() {
    assert_eq!(reverse_proxy::Decoder.error_kind(true), ErrorKind::Disconnect);
    assert_eq!(reverse_proxy::Decoder.error_kind(false), ErrorKind::WarnOnly);
    assert_eq!(reverse_proxy::Encoder.error_kind(), ErrorKind::WarnOnly);
    let client = SockAddr::V4 { ip: 1, port: 2 };
    assert!(matches!(upstream_action::<u8>(client, UpstreamEvent::ConnectFailed), UpstreamAction::Disconnect(t) if t == AddrTarget::Only(client)));
    assert!(matches!(upstream_action(client, UpstreamEvent::FromClient(Some(5u8))), UpstreamAction::WriteToServer(5)));
    assert!(matches!(upstream_action::<u8>(client, UpstreamEvent::FromClient(None)), UpstreamAction::Disconnect(t) if t == AddrTarget::Only(client)));
    assert!(matches!(upstream_action(client, UpstreamEvent::FromServer(Some(6u8))), UpstreamAction::SendToClients(t, 6) if t == AddrTarget::Only(client)));
    assert!(matches!(upstream_action::<u8>(client, UpstreamEvent::FromServer(None)), UpstreamAction::Disconnect(t) if t == AddrTarget::Only(client)));
}
