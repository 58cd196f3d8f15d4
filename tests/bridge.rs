use pi485_bridge::bridge::{
    disconnected_from, echo_reply, forward_action, payload_from_chunk, select3_ready, select_ready,
    usb_step, BridgeFault, Disconnected, Either, Either3, EndpointError, LinkState, SinkAction,
    UsbAction, UsbEvent,
};
use pi485_bridge::channel::{PubSubChannel, WaitResult};

#[test]
fn relay_writes_published_bytes_unchanged() {
    let mut inbound = PubSubChannel::new(8, 1);
    let id = inbound.subscribe().unwrap();
    assert!(inbound.try_publish(vec![0x41, 0x42]).is_ok());
    let r = inbound.next_message(id).unwrap();
    match forward_action(r) {
        SinkAction::Write(bytes) => assert_eq!(bytes, vec![0x41, 0x42]),
        SinkAction::ReportLag(_) => panic!("unexpected lag"),
    }
}

#[test]
fn relay_reports_lag() {
    assert!(matches!(forward_action(WaitResult::Lagged(5)), SinkAction::ReportLag(5)));
}

#[test]
fn echo_returns_ping() {
    let mut buf = vec![0u8; 64];
    buf[..4].copy_from_slice(b"ping");
    assert_eq!(echo_reply(&buf, 4), b"ping".to_vec());
}

#[test]
fn chunks_become_payloads() {
    let mut buf = vec![0u8; 80];
    buf[0] = 9;
    buf[1] = 8;
    assert_eq!(payload_from_chunk(&buf, 2), Some(vec![9, 8]));
    assert_eq!(payload_from_chunk(&buf, 0), None);
    assert_eq!(payload_from_chunk(&buf, 65), None);
    assert_eq!(payload_from_chunk(&buf, 64).map(|p| p.len()), Some(64));
    assert_eq!(payload_from_chunk(&buf, 81), None);
}

#[test]
fn first_listed_source_wins() {
    assert_eq!(select_ready(true, true), Some(Either::First));
    assert_eq!(select_ready(false, true), Some(Either::Second));
    assert_eq!(select_ready(false, false), None);
    assert_eq!(select3_ready(false, true, true), Some(Either3::Second));
    assert_eq!(select3_ready(false, false, true), Some(Either3::Third));
    assert_eq!(select3_ready(true, true, true), Some(Either3::First));
    assert_eq!(select3_ready(false, false, false), None);
}

#[test]
fn endpoint_errors_are_classified() {
    assert_eq!(disconnected_from(EndpointError::Disabled), Ok(Disconnected {}));
    assert_eq!(disconnected_from(EndpointError::BufferOverflow), Err(BridgeFault::BufferOverflow));
}

#[test]
fn disconnected_bridge_never_reads() {
    let (s, a) = usb_step(LinkState::Disconnected, UsbEvent::PacketRead(vec![1]));
    assert_eq!(s, LinkState::Disconnected);
    assert!(matches!(a, UsbAction::WaitConnection));
    let (s, a) = usb_step(LinkState::Disconnected, UsbEvent::Done);
    assert_eq!(s, LinkState::Disconnected);
    assert!(matches!(a, UsbAction::WaitConnection));
    let (s, a) = usb_step(LinkState::Disconnected, UsbEvent::HostConnected);
    assert_eq!(s, LinkState::Connected);
    assert!(matches!(a, UsbAction::Poll));
}

#[test]
fn connected_bridge_moves_data_both_ways() {
    match usb_step(LinkState::Connected, UsbEvent::PacketRead(vec![1, 2, 3])) {
        (LinkState::Connected, UsbAction::Publish(p)) => assert_eq!(p, vec![1, 2, 3]),
        _ => panic!("expected a publish"),
    }
    match usb_step(LinkState::Connected, UsbEvent::Received(WaitResult::Message(vec![4]))) {
        (LinkState::Connected, UsbAction::WritePacket(p)) => assert_eq!(p, vec![4]),
        _ => panic!("expected a write"),
    }
    assert!(matches!(
        usb_step(LinkState::Connected, UsbEvent::Received(WaitResult::Lagged(2))),
        (LinkState::Connected, UsbAction::ReportLag(2))
    ));
    assert!(matches!(
        usb_step(LinkState::Connected, UsbEvent::PacketRead(vec![])),
        (LinkState::Connected, UsbAction::Poll)
    ));
    assert!(matches!(usb_step(LinkState::Connected, UsbEvent::Done), (LinkState::Connected, UsbAction::Poll)));
}

#[test]
fn endpoint_failure_ends_the_session() {
    assert!(matches!(
        usb_step(LinkState::Connected, UsbEvent::EndpointFailed(EndpointError::Disabled)),
        (LinkState::Disconnected, UsbAction::WaitConnection)
    ));
    assert!(matches!(
        usb_step(LinkState::Connected, UsbEvent::EndpointFailed(EndpointError::BufferOverflow)),
        (LinkState::Disconnected, UsbAction::Halt(BridgeFault::BufferOverflow))
    ));
}
