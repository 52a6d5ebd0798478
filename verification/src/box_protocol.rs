//! Wire-frame codec for the AutoBox link.
//!
//! Every frame is a fixed 16-byte header followed by a variant-specific
//! payload; all integer fields are little-endian. The header carries a magic
//! sentinel, the payload length in bytes, a numeric message type code, and a
//! parity word equal to the bitwise complement of the type code. The header's
//! type code is the single wire-level source of truth for dispatch: the
//! in-memory union discriminant never reaches the wire.

use vstd::bytes::lemma_auto_spec_u32_to_from_le_bytes;
use vstd::bytes::spec_u32_from_le_bytes;
use vstd::bytes::spec_u32_to_le_bytes;
use vstd::bytes::u32_from_le_bytes;
use vstd::bytes::u32_to_le_bytes;
use vstd::prelude::*;
use vstd::slice::slice_subrange;
use vstd::slice::slice_to_vec;

use crate::errors::LinkError;

verus! {

/// Sentinel that opens every frame on the wire.
pub const PROTOCOL_MAGIC: u32 = 0x55aa55aa;

/// Stable wire identifier of each message shape.
pub const OPENBOX: u32 = 1;

pub const DEVPLUG: u32 = 2;

pub const DEVUNPLUG: u32 = 4;

pub const TOUCH: u32 = 5;

pub const VIDEO: u32 = 6;

pub const AUDIO: u32 = 7;

pub const BUTTONCTL: u32 = 8;

pub const BTADDR: u32 = 10;

pub const BTPIN: u32 = 12;

pub const MANINFO: u32 = 20;

pub const MULTITOUCH: u32 = 23;

pub const SENDFILE: u32 = 153;

pub const HEARTBEAT: u32 = 170;

pub const SWVER: u32 = 204;

/// The fixed 16-byte frame header.
#[derive(Clone, Copy, Debug, PartialEq, Eq, Structural)]
pub struct BoxMsgHeader {
    pub magic: u32,
    /// Byte length of the payload that follows the header.
    pub msg_len: u32,
    /// Numeric discriminator selecting the payload shape.
    pub msg_type: u32,
    /// Bitwise complement of `msg_type`.
    pub msg_parity: u32,
}

impl BoxMsgHeader {
    pub fn new(msg_type: u32, msg_len: u32) -> (h: Self)
        ensures
            h.magic == PROTOCOL_MAGIC,
            h.msg_len == msg_len,
            h.msg_type == msg_type,
            h.msg_parity == !msg_type,
    {
        Self { magic: PROTOCOL_MAGIC, msg_len, msg_type, msg_parity: !msg_type }
    }
}

pub struct OpenBox {
    pub header: BoxMsgHeader,
    pub width: u32,
    pub height: u32,
    pub framerate: u32,
    pub format: u32,
    pub packet_max: u32,
    pub box_ver: u32,
    pub phone_work_mode: u32,
}

pub struct DevPlug {
    pub header: BoxMsgHeader,
}

pub struct DevUnplug {
    pub header: BoxMsgHeader,
}

pub struct Touch {
    pub header: BoxMsgHeader,
}

pub struct Video {
    pub header: BoxMsgHeader,
    pub data: Vec<u8>,
}

pub struct Audio {
    pub header: BoxMsgHeader,
}

pub struct ButtonCtl {
    pub header: BoxMsgHeader,
}

pub struct BtAddr {
    pub header: BoxMsgHeader,
}

pub struct BtPin {
    pub header: BoxMsgHeader,
}

pub struct ManInfo {
    pub header: BoxMsgHeader,
    pub brand: i32,
    pub model: i32,
}

pub struct MultiTouch {
    pub header: BoxMsgHeader,
}

pub struct SendFile {
    pub header: BoxMsgHeader,
}

pub struct Heartbeat {
    pub header: BoxMsgHeader,
}

pub struct SwVer {
    pub header: BoxMsgHeader,
}

/// Closed tagged union over all message shapes. The discriminant is never
/// transmitted; the header's `msg_type` selects the variant on the wire.
pub enum MsgType {
    OpenBox(OpenBox),
    DevPlug(DevPlug),
    DevUnplug(DevUnplug),
    Touch(Touch),
    Video(Video),
    Audio(Audio),
    ButtonCtl(ButtonCtl),
    BtAddr(BtAddr),
    BtPin(BtPin),
    ManInfo(ManInfo),
    MultiTouch(MultiTouch),
    SendFile(SendFile),
    Heartbeat(Heartbeat),
    SwVer(SwVer),
}

/// Mathematical model of a message: the same shape as `MsgType`, with the
/// video payload as a byte sequence.
#[verifier::ext_equal]
pub enum MsgV {
    OpenBox {
        header: BoxMsgHeader,
        width: u32,
        height: u32,
        framerate: u32,
        format: u32,
        packet_max: u32,
        box_ver: u32,
        phone_work_mode: u32,
    },
    DevPlug { header: BoxMsgHeader },
    DevUnplug { header: BoxMsgHeader },
    Touch { header: BoxMsgHeader },
    Video { header: BoxMsgHeader, data: Seq<u8> },
    Audio { header: BoxMsgHeader },
    ButtonCtl { header: BoxMsgHeader },
    BtAddr { header: BoxMsgHeader },
    BtPin { header: BoxMsgHeader },
    ManInfo { header: BoxMsgHeader, brand: i32, model: i32 },
    MultiTouch { header: BoxMsgHeader },
    SendFile { header: BoxMsgHeader },
    Heartbeat { header: BoxMsgHeader },
    SwVer { header: BoxMsgHeader },
}

impl View for OpenBox {
    type V = MsgV;

    open spec fn view(&self) -> MsgV {
        MsgV::OpenBox {
            header: self.header,
            width: self.width,
            height: self.height,
            framerate: self.framerate,
            format: self.format,
            packet_max: self.packet_max,
            box_ver: self.box_ver,
            phone_work_mode: self.phone_work_mode,
        }
    }
}

impl View for DevPlug {
    type V = MsgV;

    open spec fn view(&self) -> MsgV {
        MsgV::DevPlug { header: self.header }
    }
}

impl View for DevUnplug {
    type V = MsgV;

    open spec fn view(&self) -> MsgV {
        MsgV::DevUnplug { header: self.header }
    }
}

impl View for Touch {
    type V = MsgV;

    open spec fn view(&self) -> MsgV {
        MsgV::Touch { header: self.header }
    }
}

impl View for Video {
    type V = MsgV;

    open spec fn view(&self) -> MsgV {
        MsgV::Video { header: self.header, data: self.data@ }
    }
}

impl View for Audio {
    type V = MsgV;

    open spec fn view(&self) -> MsgV {
        MsgV::Audio { header: self.header }
    }
}

impl View for ButtonCtl {
    type V = MsgV;

    open spec fn view(&self) -> MsgV {
        MsgV::ButtonCtl { header: self.header }
    }
}

impl View for BtAddr {
    type V = MsgV;

    open spec fn view(&self) -> MsgV {
        MsgV::BtAddr { header: self.header }
    }
}

impl View for BtPin {
    type V = MsgV;

    open spec fn view(&self) -> MsgV {
        MsgV::BtPin { header: self.header }
    }
}

impl View for ManInfo {
    type V = MsgV;

    open spec fn view(&self) -> MsgV {
        MsgV::ManInfo { header: self.header, brand: self.brand, model: self.model }
    }
}

impl View for MultiTouch {
    type V = MsgV;

    open spec fn view(&self) -> MsgV {
        MsgV::MultiTouch { header: self.header }
    }
}

impl View for SendFile {
    type V = MsgV;

    open spec fn view(&self) -> MsgV {
        MsgV::SendFile { header: self.header }
    }
}

impl View for Heartbeat {
    type V = MsgV;

    open spec fn view(&self) -> MsgV {
        MsgV::Heartbeat { header: self.header }
    }
}

impl View for SwVer {
    type V = MsgV;

    open spec fn view(&self) -> MsgV {
        MsgV::SwVer { header: self.header }
    }
}

impl View for MsgType {
    type V = MsgV;

    open spec fn view(&self) -> MsgV {
        match self {
            MsgType::OpenBox(m) => m@,
            MsgType::DevPlug(m) => m@,
            MsgType::DevUnplug(m) => m@,
            MsgType::Touch(m) => m@,
            MsgType::Video(m) => m@,
            MsgType::Audio(m) => m@,
            MsgType::ButtonCtl(m) => m@,
            MsgType::BtAddr(m) => m@,
            MsgType::BtPin(m) => m@,
            MsgType::ManInfo(m) => m@,
            MsgType::MultiTouch(m) => m@,
            MsgType::SendFile(m) => m@,
            MsgType::Heartbeat(m) => m@,
            MsgType::SwVer(m) => m@,
        }
    }
}

/// The header a message carries.
pub open spec fn spec_header_of(m: MsgV) -> BoxMsgHeader {
    match m {
        MsgV::OpenBox { header, .. } => header,
        MsgV::DevPlug { header } => header,
        MsgV::DevUnplug { header } => header,
        MsgV::Touch { header } => header,
        MsgV::Video { header, .. } => header,
        MsgV::Audio { header } => header,
        MsgV::ButtonCtl { header } => header,
        MsgV::BtAddr { header } => header,
        MsgV::BtPin { header } => header,
        MsgV::ManInfo { header, .. } => header,
        MsgV::MultiTouch { header } => header,
        MsgV::SendFile { header } => header,
        MsgV::Heartbeat { header } => header,
        MsgV::SwVer { header } => header,
    }
}

/// The registry: the wire type code that belongs to each variant.
pub open spec fn spec_type_code(m: MsgV) -> u32 {
    match m {
        MsgV::OpenBox { .. } => OPENBOX,
        MsgV::DevPlug { .. } => DEVPLUG,
        MsgV::DevUnplug { .. } => DEVUNPLUG,
        MsgV::Touch { .. } => TOUCH,
        MsgV::Video { .. } => VIDEO,
        MsgV::Audio { .. } => AUDIO,
        MsgV::ButtonCtl { .. } => BUTTONCTL,
        MsgV::BtAddr { .. } => BTADDR,
        MsgV::BtPin { .. } => BTPIN,
        MsgV::ManInfo { .. } => MANINFO,
        MsgV::MultiTouch { .. } => MULTITOUCH,
        MsgV::SendFile { .. } => SENDFILE,
        MsgV::Heartbeat { .. } => HEARTBEAT,
        MsgV::SwVer { .. } => SWVER,
    }
}

/// Whether a type code names a registered message shape.
pub open spec fn registered_type(code: u32) -> bool {
    ||| code == OPENBOX
    ||| code == DEVPLUG
    ||| code == DEVUNPLUG
    ||| code == TOUCH
    ||| code == VIDEO
    ||| code == AUDIO
    ||| code == BUTTONCTL
    ||| code == BTADDR
    ||| code == BTPIN
    ||| code == MANINFO
    ||| code == MULTITOUCH
    ||| code == SENDFILE
    ||| code == HEARTBEAT
    ||| code == SWVER
}

/// Little-endian image of a signed field: the two's-complement bits.
pub open spec fn spec_i32_to_le_bytes(x: i32) -> Seq<u8> {
    spec_u32_to_le_bytes(x as u32)
}

/// The 16 header bytes, fields in wire order, little-endian.
pub open spec fn spec_header_bytes(h: BoxMsgHeader) -> Seq<u8> {
    spec_u32_to_le_bytes(h.magic) + spec_u32_to_le_bytes(h.msg_len)
        + spec_u32_to_le_bytes(h.msg_type) + spec_u32_to_le_bytes(h.msg_parity)
}

/// The payload bytes of a message: its fields in declared order,
/// little-endian; header-only variants have an empty payload.
pub open spec fn spec_payload_bytes(m: MsgV) -> Seq<u8> {
    match m {
        MsgV::OpenBox {
            width,
            height,
            framerate,
            format,
            packet_max,
            box_ver,
            phone_work_mode,
            ..
        } => spec_u32_to_le_bytes(width) + spec_u32_to_le_bytes(height)
            + spec_u32_to_le_bytes(framerate) + spec_u32_to_le_bytes(format)
            + spec_u32_to_le_bytes(packet_max) + spec_u32_to_le_bytes(box_ver)
            + spec_u32_to_le_bytes(phone_work_mode),
        MsgV::Video { data, .. } => data,
        MsgV::ManInfo { brand, model, .. } => spec_i32_to_le_bytes(brand)
            + spec_i32_to_le_bytes(model),
        _ => Seq::<u8>::empty(),
    }
}

/// The full frame: header bytes then payload bytes.
pub open spec fn spec_frame_bytes(m: MsgV) -> Seq<u8> {
    spec_header_bytes(spec_header_of(m)) + spec_payload_bytes(m)
}

/// A well-formed header: correct magic, and parity the complement of the
/// type code.
pub open spec fn header_wf(h: BoxMsgHeader) -> bool {
    &&& h.magic == PROTOCOL_MAGIC
    &&& h.msg_parity == !h.msg_type
}

/// A well-formed message: its header is well-formed, its header's type code
/// matches its variant, and its header's length field equals its payload
/// length. Every constructor establishes this.
pub open spec fn msg_wf(m: MsgV) -> bool {
    &&& header_wf(spec_header_of(m))
    &&& spec_header_of(m).msg_type == spec_type_code(m)
    &&& spec_header_of(m).msg_len == spec_payload_bytes(m).len()
}

/// The header read back from the first 16 bytes of a frame.
pub open spec fn spec_header_from_bytes(s: Seq<u8>) -> BoxMsgHeader
    recommends
        s.len() >= 16,
{
    BoxMsgHeader {
        magic: spec_u32_from_le_bytes(s.subrange(0, 4)),
        msg_len: spec_u32_from_le_bytes(s.subrange(4, 8)),
        msg_type: spec_u32_from_le_bytes(s.subrange(8, 12)),
        msg_parity: spec_u32_from_le_bytes(s.subrange(12, 16)),
    }
}

/// Whether a payload of `n` bytes fits the shape that `code` names.
pub open spec fn payload_len_ok(code: u32, n: nat) -> bool {
    if code == OPENBOX {
        n == 28
    } else if code == VIDEO {
        true
    } else if code == MANINFO {
        n == 8
    } else {
        n == 0
    }
}

/// A whole frame acceptable as shape `code`: a registered code, intact magic
/// and parity, a header type code equal to `code`, and a header length field
/// that matches both the bytes present and the shape's declared layout.
pub open spec fn frame_ok(code: u32, s: Seq<u8>) -> bool {
    &&& registered_type(code)
    &&& s.len() >= 16
    &&& {
        let h = spec_header_from_bytes(s);
        &&& h.magic == PROTOCOL_MAGIC
        &&& h.msg_parity == !h.msg_type
        &&& h.msg_type == code
        &&& h.msg_len == s.len() - 16
        &&& payload_len_ok(code, (s.len() - 16) as nat)
    }
}

/// The message a well-shaped frame denotes.
pub open spec fn spec_decode_ok(code: u32, s: Seq<u8>) -> MsgV
    recommends
        frame_ok(code, s),
{
    let h = spec_header_from_bytes(s);
    if code == OPENBOX {
        MsgV::OpenBox {
            header: h,
            width: spec_u32_from_le_bytes(s.subrange(16, 20)),
            height: spec_u32_from_le_bytes(s.subrange(20, 24)),
            framerate: spec_u32_from_le_bytes(s.subrange(24, 28)),
            format: spec_u32_from_le_bytes(s.subrange(28, 32)),
            packet_max: spec_u32_from_le_bytes(s.subrange(32, 36)),
            box_ver: spec_u32_from_le_bytes(s.subrange(36, 40)),
            phone_work_mode: spec_u32_from_le_bytes(s.subrange(40, 44)),
        }
    } else if code == DEVPLUG {
        MsgV::DevPlug { header: h }
    } else if code == DEVUNPLUG {
        MsgV::DevUnplug { header: h }
    } else if code == TOUCH {
        MsgV::Touch { header: h }
    } else if code == VIDEO {
        MsgV::Video { header: h, data: s.skip(16) }
    } else if code == AUDIO {
        MsgV::Audio { header: h }
    } else if code == BUTTONCTL {
        MsgV::ButtonCtl { header: h }
    } else if code == BTADDR {
        MsgV::BtAddr { header: h }
    } else if code == BTPIN {
        MsgV::BtPin { header: h }
    } else if code == MANINFO {
        MsgV::ManInfo {
            header: h,
            brand: spec_u32_from_le_bytes(s.subrange(16, 20)) as i32,
            model: spec_u32_from_le_bytes(s.subrange(20, 24)) as i32,
        }
    } else if code == MULTITOUCH {
        MsgV::MultiTouch { header: h }
    } else if code == SENDFILE {
        MsgV::SendFile { header: h }
    } else if code == SWVER {
        MsgV::SwVer { header: h }
    } else {
        MsgV::Heartbeat { header: h }
    }
}

/// What decoding returns on every input: the denoted message, or the exact
/// error. An unregistered type code is reported as such, never reinterpreted
/// as some registered shape; a registered code with a bad frame is a
/// malformed frame.
pub open spec fn spec_decode(code: u32, s: Seq<u8>) -> Result<MsgV, LinkError> {
    if !registered_type(code) {
        Err(LinkError::UnknownMessageType)
    } else if !frame_ok(code, s) {
        Err(LinkError::MalformedFrame)
    } else {
        Ok(spec_decode_ok(code, s))
    }
}

/// Run-time image of the registry membership test.
pub fn is_registered(code: u32) -> (r: bool)
    ensures
        r == registered_type(code),
{
    code == OPENBOX || code == DEVPLUG || code == DEVUNPLUG || code == TOUCH || code == VIDEO
        || code == AUDIO || code == BUTTONCTL || code == BTADDR || code == BTPIN
        || code == MANINFO || code == MULTITOUCH || code == SENDFILE || code == HEARTBEAT
        || code == SWVER
}

/// Reads the little-endian word at byte offset `i`.
pub(crate) fn read_u32_at(data: &Vec<u8>, i: usize) -> (x: u32)
    requires
        i + 4 <= data@.len(),
    ensures
        x == spec_u32_from_le_bytes(data@.subrange(i as int, i as int + 4)),
{
    // the exec length pins `data@.len()` under `usize::MAX`, so `i + 4` fits
    let _n: usize = data.len();
    u32_from_le_bytes(slice_subrange(data.as_slice(), i, i + 4))
}

/// Decodes one whole frame as the shape `data_type` names.
fn deserialize_msg(data_type: u32, data: &Vec<u8>) -> (r: Result<MsgType, LinkError>)
    ensures
        (match r {
            Ok(m) => spec_decode(data_type, data@) == Ok::<MsgV, LinkError>(m@),
            Err(e) => spec_decode(data_type, data@) == Err::<MsgV, LinkError>(e),
        }),
{
    if !is_registered(data_type) {
        return Err(LinkError::UnknownMessageType);
    }
    if data.len() < 16 {
        return Err(LinkError::MalformedFrame);
    }
    let magic = read_u32_at(data, 0);
    let msg_len = read_u32_at(data, 4);
    let msg_type = read_u32_at(data, 8);
    let msg_parity = read_u32_at(data, 12);
    let h = BoxMsgHeader { magic, msg_len, msg_type, msg_parity };
    assert(h == spec_header_from_bytes(data@));
    let payload_len: usize = data.len() - 16;
    if magic != PROTOCOL_MAGIC || msg_parity != !msg_type || msg_type != data_type {
        return Err(LinkError::MalformedFrame);
    }
    if msg_len as usize != payload_len {
        return Err(LinkError::MalformedFrame);
    }
    let shape_ok: bool = if data_type == OPENBOX {
        payload_len == 28
    } else if data_type == VIDEO {
        true
    } else if data_type == MANINFO {
        payload_len == 8
    } else {
        payload_len == 0
    };
    if !shape_ok {
        return Err(LinkError::MalformedFrame);
    }
    assert(frame_ok(data_type, data@));
    let m: MsgType = if data_type == OPENBOX {
        MsgType::OpenBox(OpenBox {
            header: h,
            width: read_u32_at(data, 16),
            height: read_u32_at(data, 20),
            framerate: read_u32_at(data, 24),
            format: read_u32_at(data, 28),
            packet_max: read_u32_at(data, 32),
            box_ver: read_u32_at(data, 36),
            phone_work_mode: read_u32_at(data, 40),
        })
    } else if data_type == DEVPLUG {
        MsgType::DevPlug(DevPlug { header: h })
    } else if data_type == DEVUNPLUG {
        MsgType::DevUnplug(DevUnplug { header: h })
    } else if data_type == TOUCH {
        MsgType::Touch(Touch { header: h })
    } else if data_type == VIDEO {
        let payload = slice_to_vec(slice_subrange(data.as_slice(), 16, data.len()));
        MsgType::Video(Video { header: h, data: payload })
    } else if data_type == AUDIO {
        MsgType::Audio(Audio { header: h })
    } else if data_type == BUTTONCTL {
        MsgType::ButtonCtl(ButtonCtl { header: h })
    } else if data_type == BTADDR {
        MsgType::BtAddr(BtAddr { header: h })
    } else if data_type == BTPIN {
        MsgType::BtPin(BtPin { header: h })
    } else if data_type == MANINFO {
        let brand_bits = read_u32_at(data, 16);
        let model_bits = read_u32_at(data, 20);
        MsgType::ManInfo(ManInfo {
            header: h,
            brand: #[verifier::truncate] (brand_bits as i32),
            model: #[verifier::truncate] (model_bits as i32),
        })
    } else if data_type == MULTITOUCH {
        MsgType::MultiTouch(MultiTouch { header: h })
    } else if data_type == SENDFILE {
        MsgType::SendFile(SendFile { header: h })
    } else if data_type == SWVER {
        MsgType::SwVer(SwVer { header: h })
    } else {
        MsgType::Heartbeat(Heartbeat { header: h })
    };
    assert(m@ =~~= spec_decode_ok(data_type, data@));
    Ok(m)
}

/// Appends the little-endian image of `x` to `out`.
fn push_u32(out: &mut Vec<u8>, x: u32)
    ensures
        final(out)@ == old(out)@ + spec_u32_to_le_bytes(x),
{
    let mut b = u32_to_le_bytes(x);
    out.append(&mut b);
}

/// Appends the little-endian two's-complement image of `x` to `out`.
fn push_i32(out: &mut Vec<u8>, x: i32)
    ensures
        final(out)@ == old(out)@ + spec_i32_to_le_bytes(x),
{
    push_u32(out, #[verifier::truncate] (x as u32));
}

impl MsgType {
    /// The header carried by whichever variant this is.
    pub fn header(&self) -> (h: BoxMsgHeader)
        ensures
            h == spec_header_of(self@),
    {
        match self {
            MsgType::OpenBox(m) => m.header,
            MsgType::DevPlug(m) => m.header,
            MsgType::DevUnplug(m) => m.header,
            MsgType::Touch(m) => m.header,
            MsgType::Video(m) => m.header,
            MsgType::Audio(m) => m.header,
            MsgType::ButtonCtl(m) => m.header,
            MsgType::BtAddr(m) => m.header,
            MsgType::BtPin(m) => m.header,
            MsgType::ManInfo(m) => m.header,
            MsgType::MultiTouch(m) => m.header,
            MsgType::SendFile(m) => m.header,
            MsgType::Heartbeat(m) => m.header,
            MsgType::SwVer(m) => m.header,
        }
    }
}

/// The frame codec: every message serializes to its header bytes followed by
/// its payload bytes, and a frame decodes back through the type-code
/// registry, rejecting malformed headers and unknown codes.
pub trait BaseBoxMsg: Sized {
    /// The mathematical model this codec speaks of.
    spec fn model(&self) -> MsgV;

    /// Serialization is little endian; only header and payload fields reach
    /// the wire, never the union discriminant.
    fn serialize(&self) -> (r: Vec<u8>)
        ensures
            r@ == spec_frame_bytes(self.model()),
    ;

    /// Parses `data` (a whole frame, header included) as the shape that
    /// `data_type` names in the registry.
    fn deserialize(data_type: u32, data: &Vec<u8>) -> (r: Result<Self, LinkError>)
        ensures
            (match r {
                Ok(m) => spec_decode(data_type, data@) == Ok::<MsgV, LinkError>(m.model()),
                Err(e) => spec_decode(data_type, data@) == Err::<MsgV, LinkError>(e),
            }),
    ;
}

impl BaseBoxMsg for MsgType {
    open spec fn model(&self) -> MsgV {
        self@
    }

    fn serialize(&self) -> (r: Vec<u8>) {
        let h = self.header();
        let mut out: Vec<u8> = Vec::new();
        push_u32(&mut out, h.magic);
        push_u32(&mut out, h.msg_len);
        push_u32(&mut out, h.msg_type);
        push_u32(&mut out, h.msg_parity);
        assert(out@ =~= spec_header_bytes(h));
        match self {
            MsgType::OpenBox(m) => {
                push_u32(&mut out, m.width);
                push_u32(&mut out, m.height);
                push_u32(&mut out, m.framerate);
                push_u32(&mut out, m.format);
                push_u32(&mut out, m.packet_max);
                push_u32(&mut out, m.box_ver);
                push_u32(&mut out, m.phone_work_mode);
            },
            MsgType::Video(m) => {
                let mut d = slice_to_vec(m.data.as_slice());
                out.append(&mut d);
            },
            MsgType::ManInfo(m) => {
                push_i32(&mut out, m.brand);
                push_i32(&mut out, m.model);
            },
            _ => {},
        }
        assert(out@ =~= spec_frame_bytes(self@));
        out
    }

    fn deserialize(data_type: u32, data: &Vec<u8>) -> (r: Result<Self, LinkError>) {
        deserialize_msg(data_type, data)
    }
}

impl OpenBox {
    /// Session-opening request. Format, packet size, protocol version and
    /// phone mode take their fixed protocol values.
    pub fn new(width: u32, height: u32, framerate: u32) -> (m: Self)
        ensures
            m@ == (MsgV::OpenBox {
                header: (BoxMsgHeader {
                    magic: PROTOCOL_MAGIC,
                    msg_len: 28,
                    msg_type: OPENBOX,
                    msg_parity: !OPENBOX,
                }),
                width,
                height,
                framerate,
                format: 5,
                packet_max: 49152,
                box_ver: 2,
                phone_work_mode: 2,
            }),
            msg_wf(m@),
    {
        let m = Self {
            header: BoxMsgHeader::new(OPENBOX, 28),
            width,
            height,
            framerate,
            format: 0x5,
            packet_max: 49152,
            box_ver: 2,
            phone_work_mode: 2,
        };
        proof {
            lemma_auto_spec_u32_to_from_le_bytes();
        }
        m
    }
}

impl DevPlug {
    pub fn new() -> (m: Self)
        ensures
            m@ == (MsgV::DevPlug {
                header: (BoxMsgHeader {
                    magic: PROTOCOL_MAGIC,
                    msg_len: 0,
                    msg_type: DEVPLUG,
                    msg_parity: !DEVPLUG,
                }),
            }),
            msg_wf(m@),
    {
        Self { header: BoxMsgHeader::new(DEVPLUG, 0) }
    }
}

impl DevUnplug {
    pub fn new() -> (m: Self)
        ensures
            m@ == (MsgV::DevUnplug {
                header: (BoxMsgHeader {
                    magic: PROTOCOL_MAGIC,
                    msg_len: 0,
                    msg_type: DEVUNPLUG,
                    msg_parity: !DEVUNPLUG,
                }),
            }),
            msg_wf(m@),
    {
        Self { header: BoxMsgHeader::new(DEVUNPLUG, 0) }
    }
}

impl Touch {
    pub fn new() -> (m: Self)
        ensures
            m@ == (MsgV::Touch {
                header: (BoxMsgHeader {
                    magic: PROTOCOL_MAGIC,
                    msg_len: 0,
                    msg_type: TOUCH,
                    msg_parity: !TOUCH,
                }),
            }),
            msg_wf(m@),
    {
        Self { header: BoxMsgHeader::new(TOUCH, 0) }
    }
}

impl Video {
    /// A video frame carrying an opaque byte payload.
    pub fn new(data: Vec<u8>) -> (m: Self)
        requires
            data@.len() <= u32::MAX,
        ensures
            m@ == (MsgV::Video {
                header: (BoxMsgHeader {
                    magic: PROTOCOL_MAGIC,
                    msg_len: data@.len() as u32,
                    msg_type: VIDEO,
                    msg_parity: !VIDEO,
                }),
                data: data@,
            }),
            msg_wf(m@),
    {
        let len: u32 = data.len() as u32;
        Self { header: BoxMsgHeader::new(VIDEO, len), data }
    }
}

impl Audio {
    pub fn new() -> (m: Self)
        ensures
            m@ == (MsgV::Audio {
                header: (BoxMsgHeader {
                    magic: PROTOCOL_MAGIC,
                    msg_len: 0,
                    msg_type: AUDIO,
                    msg_parity: !AUDIO,
                }),
            }),
            msg_wf(m@),
    {
        Self { header: BoxMsgHeader::new(AUDIO, 0) }
    }
}

impl ButtonCtl {
    pub fn new() -> (m: Self)
        ensures
            m@ == (MsgV::ButtonCtl {
                header: (BoxMsgHeader {
                    magic: PROTOCOL_MAGIC,
                    msg_len: 0,
                    msg_type: BUTTONCTL,
                    msg_parity: !BUTTONCTL,
                }),
            }),
            msg_wf(m@),
    {
        Self { header: BoxMsgHeader::new(BUTTONCTL, 0) }
    }
}

impl BtAddr {
    pub fn new() -> (m: Self)
        ensures
            m@ == (MsgV::BtAddr {
                header: (BoxMsgHeader {
                    magic: PROTOCOL_MAGIC,
                    msg_len: 0,
                    msg_type: BTADDR,
                    msg_parity: !BTADDR,
                }),
            }),
            msg_wf(m@),
    {
        Self { header: BoxMsgHeader::new(BTADDR, 0) }
    }
}

impl BtPin {
    pub fn new() -> (m: Self)
        ensures
            m@ == (MsgV::BtPin {
                header: (BoxMsgHeader {
                    magic: PROTOCOL_MAGIC,
                    msg_len: 0,
                    msg_type: BTPIN,
                    msg_parity: !BTPIN,
                }),
            }),
            msg_wf(m@),
    {
        Self { header: BoxMsgHeader::new(BTPIN, 0) }
    }
}

impl ManInfo {
    /// Manufacturer identification; sentinel `-1` fields mean "unknown".
    pub fn new(brand: i32, model: i32) -> (m: Self)
        ensures
            m@ == (MsgV::ManInfo {
                header: (BoxMsgHeader {
                    magic: PROTOCOL_MAGIC,
                    msg_len: 8,
                    msg_type: MANINFO,
                    msg_parity: !MANINFO,
                }),
                brand,
                model,
            }),
            msg_wf(m@),
    {
        let m = Self { header: BoxMsgHeader::new(MANINFO, 8), brand, model };
        proof {
            lemma_auto_spec_u32_to_from_le_bytes();
        }
        m
    }
}

impl MultiTouch {
    pub fn new() -> (m: Self)
        ensures
            m@ == (MsgV::MultiTouch {
                header: (BoxMsgHeader {
                    magic: PROTOCOL_MAGIC,
                    msg_len: 0,
                    msg_type: MULTITOUCH,
                    msg_parity: !MULTITOUCH,
                }),
            }),
            msg_wf(m@),
    {
        Self { header: BoxMsgHeader::new(MULTITOUCH, 0) }
    }
}

impl SendFile {
    pub fn new() -> (m: Self)
        ensures
            m@ == (MsgV::SendFile {
                header: (BoxMsgHeader {
                    magic: PROTOCOL_MAGIC,
                    msg_len: 0,
                    msg_type: SENDFILE,
                    msg_parity: !SENDFILE,
                }),
            }),
            msg_wf(m@),
    {
        Self { header: BoxMsgHeader::new(SENDFILE, 0) }
    }
}

impl Heartbeat {
    /// The content-free keepalive sent once per steady-state cycle.
    pub fn new() -> (m: Self)
        ensures
            m@ == (MsgV::Heartbeat {
                header: (BoxMsgHeader {
                    magic: PROTOCOL_MAGIC,
                    msg_len: 0,
                    msg_type: HEARTBEAT,
                    msg_parity: !HEARTBEAT,
                }),
            }),
            msg_wf(m@),
    {
        Self { header: BoxMsgHeader::new(HEARTBEAT, 0) }
    }
}

impl SwVer {
    pub fn new() -> (m: Self)
        ensures
            m@ == (MsgV::SwVer {
                header: (BoxMsgHeader {
                    magic: PROTOCOL_MAGIC,
                    msg_len: 0,
                    msg_type: SWVER,
                    msg_parity: !SWVER,
                }),
            }),
            msg_wf(m@),
    {
        Self { header: BoxMsgHeader::new(SWVER, 0) }
    }
}

/// Two's-complement bits survive the signed/unsigned cast round trip.
proof fn lemma_i32_bits_round_trip(x: i32)
    ensures
        ((x as u32) as i32) == x,
{
    assert(((x as u32) as i32) == x) by (bit_vector);
}

/// Round trip: a well-formed message decodes, through its own type code,
/// back from exactly the bytes it serializes to, reproducing every field.
pub proof fn lemma_round_trip(m: MsgV)
    requires
        msg_wf(m),
    ensures
        spec_decode(spec_type_code(m), spec_frame_bytes(m)) == Ok::<MsgV, LinkError>(m),
{
    lemma_auto_spec_u32_to_from_le_bytes();
    let code = spec_type_code(m);
    let h = spec_header_of(m);
    let s = spec_frame_bytes(m);
    let p = spec_payload_bytes(m);
    assert(s.subrange(0, 4) =~= spec_u32_to_le_bytes(h.magic));
    assert(s.subrange(4, 8) =~= spec_u32_to_le_bytes(h.msg_len));
    assert(s.subrange(8, 12) =~= spec_u32_to_le_bytes(h.msg_type));
    assert(s.subrange(12, 16) =~= spec_u32_to_le_bytes(h.msg_parity));
    assert(spec_header_from_bytes(s) == h);
    assert(s.skip(16) =~= p);
    assert(frame_ok(code, s));
    match m {
        MsgV::OpenBox {
            width,
            height,
            framerate,
            format,
            packet_max,
            box_ver,
            phone_work_mode,
            ..
        } => {
            assert(s.subrange(16, 20) =~= spec_u32_to_le_bytes(width));
            assert(s.subrange(20, 24) =~= spec_u32_to_le_bytes(height));
            assert(s.subrange(24, 28) =~= spec_u32_to_le_bytes(framerate));
            assert(s.subrange(28, 32) =~= spec_u32_to_le_bytes(format));
            assert(s.subrange(32, 36) =~= spec_u32_to_le_bytes(packet_max));
            assert(s.subrange(36, 40) =~= spec_u32_to_le_bytes(box_ver));
            assert(s.subrange(40, 44) =~= spec_u32_to_le_bytes(phone_work_mode));
            assert(spec_decode_ok(code, s) =~~= m);
        },
        MsgV::DevPlug { .. } => {
            assert(spec_decode_ok(code, s) =~~= m);
        },
        MsgV::DevUnplug { .. } => {
            assert(spec_decode_ok(code, s) =~~= m);
        },
        MsgV::Touch { .. } => {
            assert(spec_decode_ok(code, s) =~~= m);
        },
        MsgV::Video { .. } => {
            assert(spec_decode_ok(code, s) =~~= m);
        },
        MsgV::Audio { .. } => {
            assert(spec_decode_ok(code, s) =~~= m);
        },
        MsgV::ButtonCtl { .. } => {
            assert(spec_decode_ok(code, s) =~~= m);
        },
        MsgV::BtAddr { .. } => {
            assert(spec_decode_ok(code, s) =~~= m);
        },
        MsgV::BtPin { .. } => {
            assert(spec_decode_ok(code, s) =~~= m);
        },
        MsgV::ManInfo { brand, model, .. } => {
            assert(s.subrange(16, 20) =~= spec_u32_to_le_bytes(brand as u32));
            assert(s.subrange(20, 24) =~= spec_u32_to_le_bytes(model as u32));
            lemma_i32_bits_round_trip(brand);
            lemma_i32_bits_round_trip(model);
            assert(spec_decode_ok(code, s) =~~= m);
        },
        MsgV::MultiTouch { .. } => {
            assert(spec_decode_ok(code, s) =~~= m);
        },
        MsgV::SendFile { .. } => {
            assert(spec_decode_ok(code, s) =~~= m);
        },
        MsgV::Heartbeat { .. } => {
            assert(spec_decode_ok(code, s) =~~= m);
        },
        MsgV::SwVer { .. } => {
            assert(spec_decode_ok(code, s) =~~= m);
        },
    }
}

/// A frame whose parity word is not the complement of its type code is
/// rejected, whatever shape is asked for.
pub proof fn lemma_bad_parity_rejected(code: u32, s: Seq<u8>)
    requires
        s.len() >= 16,
        spec_header_from_bytes(s).msg_parity != !spec_header_from_bytes(s).msg_type,
    ensures
        spec_decode(code, s) is Err,
{
}

/// A type code outside the registry is reported as unknown, never silently
/// reinterpreted as some registered shape such as a heartbeat.
pub proof fn lemma_unknown_type_rejected(code: u32, s: Seq<u8>)
    requires
        !registered_type(code),
    ensures
        spec_decode(code, s) == Err::<MsgV, LinkError>(LinkError::UnknownMessageType),
{
}

} // verus!
