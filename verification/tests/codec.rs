use autobox_link::box_protocol::{
    Audio, BaseBoxMsg, BoxMsgHeader, BtAddr, BtPin, ButtonCtl, DevPlug, DevUnplug, Heartbeat,
    ManInfo, MsgType, MultiTouch, OpenBox, SendFile, SwVer, Touch, Video, AUDIO, BTADDR, BTPIN,
    BUTTONCTL, DEVPLUG, DEVUNPLUG, HEARTBEAT, MANINFO, MULTITOUCH, OPENBOX, PROTOCOL_MAGIC,
    SENDFILE, SWVER, TOUCH, VIDEO,
};
use autobox_link::errors::LinkError;

fn round_trip(code: u32, msg: MsgType) -> MsgType {
    let bytes = msg.serialize();
    MsgType::deserialize(code, &bytes).expect("well-formed frame must decode")
}

fn assert_header(h: &BoxMsgHeader, msg_type: u32, msg_len: u32) {
    assert_eq!(h.magic, PROTOCOL_MAGIC);
    assert_eq!(h.msg_len, msg_len);
    assert_eq!(h.msg_type, msg_type);
    assert_eq!(h.msg_parity, !msg_type);
}

#[test]
fn header_parity_is_complement_of_type() {
    let h = BoxMsgHeader::new(1, 28);
    assert_eq!(h.msg_parity, (!1u32) & 0xffff_ffff);
    let h = BoxMsgHeader::new(HEARTBEAT, 0);
    assert_eq!(h.msg_parity, (!HEARTBEAT) & 0xffff_ffff);
    assert_eq!(h.magic, 0x55aa_55aa);
}

#[test]
fn open_box_scenario_encodes_and_decodes_exactly() {
    let msg = MsgType::OpenBox(OpenBox::new(1920, 720, 60));
    let bytes = msg.serialize();
    let expected: Vec<u8> = vec![
        0xaa, 0x55, 0xaa, 0x55, // magic 0x55aa55aa
        28, 0, 0, 0, // payload_length
        1, 0, 0, 0, // message_type
        0xfe, 0xff, 0xff, 0xff, // parity == !1
        0x80, 0x07, 0, 0, // width 1920
        0xd0, 0x02, 0, 0, // height 720
        60, 0, 0, 0, // framerate
        5, 0, 0, 0, // pixel format
        0, 0xc0, 0, 0, // max packet 49152
        2, 0, 0, 0, // protocol version
        2, 0, 0, 0, // phone mode
    ];
    assert_eq!(bytes, expected);
    match MsgType::deserialize(1, &bytes) {
        Ok(MsgType::OpenBox(b)) => {
            assert_header(&b.header, OPENBOX, 28);
            assert_eq!(b.width, 1920);
            assert_eq!(b.height, 720);
            assert_eq!(b.framerate, 60);
            assert_eq!(b.format, 5);
            assert_eq!(b.packet_max, 49152);
            assert_eq!(b.box_ver, 2);
            assert_eq!(b.phone_work_mode, 2);
        }
        other => panic!("expected OpenBox, got {:?}", other.map(|m| m.header())),
    }
}

#[test]
fn round_trip_header_only_variants() {
    let cases: Vec<(u32, MsgType)> = vec![
        (DEVPLUG, MsgType::DevPlug(DevPlug::new())),
        (DEVUNPLUG, MsgType::DevUnplug(DevUnplug::new())),
        (TOUCH, MsgType::Touch(Touch::new())),
        (AUDIO, MsgType::Audio(Audio::new())),
        (BUTTONCTL, MsgType::ButtonCtl(ButtonCtl::new())),
        (BTADDR, MsgType::BtAddr(BtAddr::new())),
        (BTPIN, MsgType::BtPin(BtPin::new())),
        (MULTITOUCH, MsgType::MultiTouch(MultiTouch::new())),
        (SENDFILE, MsgType::SendFile(SendFile::new())),
        (HEARTBEAT, MsgType::Heartbeat(Heartbeat::new())),
        (SWVER, MsgType::SwVer(SwVer::new())),
    ];
    for (code, msg) in cases {
        let bytes = msg.serialize();
        assert_eq!(bytes.len(), 16, "header-only frame is bare header");
        let back = round_trip(code, msg);
        assert_header(&back.header(), code, 0);
    }
}

#[test]
fn round_trip_video_reproduces_payload() {
    let payload: Vec<u8> = vec![9, 8, 7, 6, 5, 0, 255];
    let msg = MsgType::Video(Video::new(payload.clone()));
    let bytes = msg.serialize();
    assert_eq!(bytes.len(), 16 + payload.len());
    match round_trip(VIDEO, msg) {
        MsgType::Video(v) => {
            assert_header(&v.header, VIDEO, payload.len() as u32);
            assert_eq!(v.data, payload);
        }
        _ => panic!("expected Video"),
    }
}

#[test]
fn round_trip_video_empty_payload() {
    let msg = MsgType::Video(Video::new(Vec::new()));
    match round_trip(VIDEO, msg) {
        MsgType::Video(v) => {
            assert_header(&v.header, VIDEO, 0);
            assert!(v.data.is_empty());
        }
        _ => panic!("expected Video"),
    }
}

#[test]
fn round_trip_man_info_keeps_negative_sentinels() {
    let msg = MsgType::ManInfo(ManInfo::new(-1, -1));
    let bytes = msg.serialize();
    assert_eq!(&bytes[16..24], &[0xff; 8], "-1 is all one bits on the wire");
    match round_trip(MANINFO, msg) {
        MsgType::ManInfo(m) => {
            assert_header(&m.header, MANINFO, 8);
            assert_eq!(m.brand, -1);
            assert_eq!(m.model, -1);
        }
        _ => panic!("expected ManInfo"),
    }
    match round_trip(MANINFO, MsgType::ManInfo(ManInfo::new(77, -12345))) {
        MsgType::ManInfo(m) => {
            assert_eq!(m.brand, 77);
            assert_eq!(m.model, -12345);
        }
        _ => panic!("expected ManInfo"),
    }
}

#[test]
fn unknown_type_code_is_reported_not_heartbeat() {
    // 3 and 0 are absent from the registry; a bare well-formed frame of
    // either code must not come back as a valid message.
    let mut bytes = MsgType::Heartbeat(Heartbeat::new()).serialize();
    match MsgType::deserialize(3, &bytes) {
        Err(LinkError::UnknownMessageType) => {}
        other => panic!("expected UnknownMessageType, got {:?}", other.map(|m| m.header())),
    }
    bytes[8] = 3; // even with a matching header type code
    bytes[12] = !3u32 as u8;
    match MsgType::deserialize(3, &bytes) {
        Err(LinkError::UnknownMessageType) => {}
        other => panic!("expected UnknownMessageType, got {:?}", other.map(|m| m.header())),
    }
    match MsgType::deserialize(0, &bytes) {
        Err(LinkError::UnknownMessageType) => {}
        other => panic!("expected UnknownMessageType, got {:?}", other.map(|m| m.header())),
    }
}

#[test]
fn bad_parity_is_rejected() {
    let mut bytes = MsgType::Heartbeat(Heartbeat::new()).serialize();
    bytes[12] ^= 0x01; // break the parity word
    match MsgType::deserialize(HEARTBEAT, &bytes) {
        Err(LinkError::MalformedFrame) => {}
        other => panic!("expected MalformedFrame, got {:?}", other.map(|m| m.header())),
    }
}

#[test]
fn bad_magic_is_rejected() {
    let mut bytes = MsgType::Heartbeat(Heartbeat::new()).serialize();
    bytes[0] = 0;
    match MsgType::deserialize(HEARTBEAT, &bytes) {
        Err(LinkError::MalformedFrame) => {}
        other => panic!("expected MalformedFrame, got {:?}", other.map(|m| m.header())),
    }
}

#[test]
fn length_mismatch_is_rejected() {
    // Payload shorter than the header's length field.
    let mut bytes = MsgType::OpenBox(OpenBox::new(1, 2, 3)).serialize();
    bytes.truncate(40);
    match MsgType::deserialize(OPENBOX, &bytes) {
        Err(LinkError::MalformedFrame) => {}
        other => panic!("expected MalformedFrame, got {:?}", other.map(|m| m.header())),
    }
    // A header-only shape carrying stray payload bytes.
    let mut bytes = MsgType::Heartbeat(Heartbeat::new()).serialize();
    bytes.push(0);
    match MsgType::deserialize(HEARTBEAT, &bytes) {
        Err(LinkError::MalformedFrame) => {}
        other => panic!("expected MalformedFrame, got {:?}", other.map(|m| m.header())),
    }
}

#[test]
fn type_code_header_disagreement_is_rejected() {
    // A frame whose header says heartbeat, decoded as if it were a plug event.
    let bytes = MsgType::Heartbeat(Heartbeat::new()).serialize();
    match MsgType::deserialize(DEVPLUG, &bytes) {
        Err(LinkError::MalformedFrame) => {}
        other => panic!("expected MalformedFrame, got {:?}", other.map(|m| m.header())),
    }
}

#[test]
fn truncated_header_is_rejected() {
    let bytes: Vec<u8> = vec![0xaa, 0x55, 0xaa];
    match MsgType::deserialize(HEARTBEAT, &bytes) {
        Err(LinkError::MalformedFrame) => {}
        other => panic!("expected MalformedFrame, got {:?}", other.map(|m| m.header())),
    }
}
