use autobox_link::box_protocol::{BaseBoxMsg, MsgType};
use autobox_link::errors::LinkError;
use autobox_link::link_session::{
    bootstrap_messages, classify_error, interpret_transfer, parse_header, ErrorClass,
    LinkSession, SessionAction, SessionEvent, SessionPhase, TransferOutcome,
};
use autobox_link::usb_setup::{
    find_device, select_endpoints, DeviceId, EndpointDesc, EndpointDirection, EndpointTransfer,
    ID_PRODUCT, ID_VENDOR,
};

fn ep(address: u8, direction: EndpointDirection, transfer: EndpointTransfer) -> EndpointDesc {
    EndpointDesc { address, direction, transfer }
}

#[test]
fn selects_in_for_reads_and_out_for_writes() {
    let eps = vec![
        ep(0x81, EndpointDirection::In, EndpointTransfer::Bulk),
        ep(0x01, EndpointDirection::Out, EndpointTransfer::Bulk),
    ];
    assert_eq!(select_endpoints(&eps), Ok((0x81, 0x01)));
}

#[test]
fn selection_ignores_descriptor_order() {
    // OUT enumerated first must not end up as the read endpoint.
    let eps = vec![
        ep(0x01, EndpointDirection::Out, EndpointTransfer::Bulk),
        ep(0x81, EndpointDirection::In, EndpointTransfer::Bulk),
    ];
    assert_eq!(select_endpoints(&eps), Ok((0x81, 0x01)));
}

#[test]
fn selection_skips_non_bulk_endpoints() {
    let eps = vec![
        ep(0x83, EndpointDirection::In, EndpointTransfer::Interrupt),
        ep(0x81, EndpointDirection::In, EndpointTransfer::Bulk),
        ep(0x02, EndpointDirection::Out, EndpointTransfer::Isochronous),
        ep(0x01, EndpointDirection::Out, EndpointTransfer::Bulk),
    ];
    assert_eq!(select_endpoints(&eps), Ok((0x81, 0x01)));
}

#[test]
fn selection_takes_first_of_each_direction() {
    let eps = vec![
        ep(0x81, EndpointDirection::In, EndpointTransfer::Bulk),
        ep(0x82, EndpointDirection::In, EndpointTransfer::Bulk),
        ep(0x01, EndpointDirection::Out, EndpointTransfer::Bulk),
        ep(0x02, EndpointDirection::Out, EndpointTransfer::Bulk),
    ];
    assert_eq!(select_endpoints(&eps), Ok((0x81, 0x01)));
}

#[test]
fn missing_direction_is_endpoint_not_found() {
    let only_out = vec![ep(0x01, EndpointDirection::Out, EndpointTransfer::Bulk)];
    assert_eq!(select_endpoints(&only_out), Err(LinkError::EndpointNotFound));
    let only_in = vec![ep(0x81, EndpointDirection::In, EndpointTransfer::Bulk)];
    assert_eq!(select_endpoints(&only_in), Err(LinkError::EndpointNotFound));
    let none: Vec<EndpointDesc> = Vec::new();
    assert_eq!(select_endpoints(&none), Err(LinkError::EndpointNotFound));
}

#[test]
fn finds_first_matching_device() {
    let devices = vec![
        DeviceId { vendor_id: 0x1d6b, product_id: 0x0002 },
        DeviceId { vendor_id: ID_VENDOR, product_id: 0x9999 },
        DeviceId { vendor_id: ID_VENDOR, product_id: ID_PRODUCT },
        DeviceId { vendor_id: ID_VENDOR, product_id: ID_PRODUCT },
    ];
    assert_eq!(find_device(&devices, ID_VENDOR, ID_PRODUCT), Some(2));
    assert_eq!(find_device(&devices, 0xdead, 0xbeef), None);
}

#[test]
fn steady_state_cycle_sends_one_heartbeat_and_reads_one_frame() {
    let mut s = LinkSession::new();
    assert_eq!(s.next_action(), SessionAction::TransmitHeartbeat);
    s.step(SessionEvent::HeartbeatSent);
    assert_eq!(s.heartbeats_sent, 1);
    assert_eq!(s.next_action(), SessionAction::ReceiveOneFrame);
    s.step(SessionEvent::FrameReceived);
    assert_eq!(s.frames_received, 1);
    assert_eq!(s.next_action(), SessionAction::ExchangeSignals);
    s.step(SessionEvent::SignalsRelayed);
    assert_eq!(s.next_action(), SessionAction::SleepOneSecond);
    s.step(SessionEvent::SleepFinished);
    assert_eq!(s.phase, SessionPhase::SendHeartbeat);
    assert_eq!(s.cycles_completed, 1);
    assert_eq!(s.heartbeats_sent, 1);
    assert_eq!(s.frames_received, 1);
}

#[test]
fn n_cycles_send_exactly_n_heartbeats() {
    let n: u64 = 100;
    let mut s = LinkSession::new();
    for _ in 0..n {
        s.step(SessionEvent::HeartbeatSent);
        s.step(SessionEvent::FrameReceived);
        s.step(SessionEvent::SignalsRelayed);
        s.step(SessionEvent::SleepFinished);
    }
    assert_eq!(s.heartbeats_sent, n);
    assert_eq!(s.frames_received, n);
    assert_eq!(s.cycles_completed, n);
    assert_eq!(s.phase, SessionPhase::SendHeartbeat);
}

#[test]
fn timeout_retries_the_same_step() {
    let mut s = LinkSession::new();
    s.step(SessionEvent::HeartbeatSent);
    s.step(SessionEvent::TransferTimedOut);
    s.step(SessionEvent::TransferTimedOut);
    assert_eq!(s.phase, SessionPhase::ReceiveFrame);
    assert_eq!(s.frames_received, 0);
    s.step(SessionEvent::FrameReceived);
    assert_eq!(s.frames_received, 1);
}

#[test]
fn fatal_transfer_error_loses_the_session() {
    let mut s = LinkSession::new();
    s.step(SessionEvent::TransferFailed);
    assert_eq!(s.phase, SessionPhase::Lost);
    assert_eq!(s.next_action(), SessionAction::Rediscover);
    // once lost, later events change nothing
    s.step(SessionEvent::HeartbeatSent);
    assert_eq!(s.phase, SessionPhase::Lost);
    assert_eq!(s.heartbeats_sent, 0);
}

#[test]
fn receive_timeout_surfaces_as_transfer_timeout() {
    // A 1-second receive deadline that passes with no byte read.
    assert_eq!(
        interpret_transfer(TransferOutcome::TimedOut, 16),
        Err(LinkError::TransferTimeout)
    );
    assert_eq!(classify_error(&LinkError::TransferTimeout), ErrorClass::Retryable);
}

#[test]
fn short_and_failed_transfers_are_fatal() {
    assert_eq!(
        interpret_transfer(TransferOutcome::Transferred(7), 16),
        Err(LinkError::TransferError)
    );
    assert_eq!(interpret_transfer(TransferOutcome::Failed, 16), Err(LinkError::TransferError));
    assert_eq!(interpret_transfer(TransferOutcome::Transferred(16), 16), Ok(16));
    assert_eq!(classify_error(&LinkError::TransferError), ErrorClass::Fatal);
    assert_eq!(classify_error(&LinkError::DeviceNotFound), ErrorClass::Fatal);
}

#[test]
fn parse_header_accepts_good_and_rejects_tampered() {
    let bytes = MsgType::Heartbeat(autobox_link::box_protocol::Heartbeat::new()).serialize();
    let h = parse_header(&bytes).expect("well-formed header");
    assert_eq!(h.msg_type, 170);
    assert_eq!(h.msg_len, 0);
    assert_eq!(h.msg_parity, !170u32);
    let mut bad = bytes.clone();
    bad[12] ^= 0xff;
    assert_eq!(parse_header(&bad), Err(LinkError::MalformedFrame));
    let mut bad_magic = bytes;
    bad_magic[3] = 0;
    assert_eq!(parse_header(&bad_magic), Err(LinkError::MalformedFrame));
}

#[test]
fn bootstrap_sends_heartbeat_then_open_then_probes() {
    let msgs = bootstrap_messages();
    assert_eq!(msgs.len(), 14);
    let codes: Vec<u32> = msgs.iter().map(|m| m.header().msg_type).collect();
    assert_eq!(codes, vec![170, 1, 2, 4, 5, 6, 7, 8, 10, 12, 20, 23, 153, 204]);
    match &msgs[1] {
        MsgType::OpenBox(b) => {
            assert_eq!((b.width, b.height, b.framerate), (1920, 720, 60));
        }
        _ => panic!("second bootstrap message must open the session"),
    }
    match &msgs[10] {
        MsgType::ManInfo(m) => assert_eq!((m.brand, m.model), (-1, -1)),
        _ => panic!("eleventh bootstrap message carries the sentinel device info"),
    }
    for m in &msgs {
        let h = m.header();
        assert_eq!(h.msg_parity, !h.msg_type);
    }
}
