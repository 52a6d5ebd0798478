//! Link-session logic: the bootstrap hand-off and the steady-state
//! send/receive/heartbeat cycle, as a state machine over plain events.
//!
//! The caller owns the claimed USB handle and performs every transfer; this
//! module decides, from the current phase and the outcome of the last
//! transfer, what to do next, and accounts for heartbeats sent, frames
//! received and cycles completed. Retryable transport errors repeat the
//! current step; fatal ones end the session so the device can be
//! rediscovered.

use vstd::prelude::*;

use crate::box_protocol::BoxMsgHeader;
use crate::box_protocol::Heartbeat;
use crate::box_protocol::MsgType;
use crate::box_protocol::OpenBox;
use crate::box_protocol::PROTOCOL_MAGIC;
use crate::box_protocol::Video;
use crate::box_protocol::ManInfo;
use crate::box_protocol::DevPlug;
use crate::box_protocol::DevUnplug;
use crate::box_protocol::Touch;
use crate::box_protocol::Audio;
use crate::box_protocol::ButtonCtl;
use crate::box_protocol::BtAddr;
use crate::box_protocol::BtPin;
use crate::box_protocol::MultiTouch;
use crate::box_protocol::SendFile;
use crate::box_protocol::SwVer;
use crate::box_protocol::MsgV;
use crate::box_protocol::msg_wf;
use crate::box_protocol::spec_header_from_bytes;
use crate::box_protocol::header_wf;
use crate::errors::LinkError;

verus! {

/// Where the steady-state cycle stands.
#[derive(Clone, Copy, Debug, PartialEq, Eq, Structural)]
pub enum SessionPhase {
    /// About to transmit the keepalive.
    SendHeartbeat,
    /// About to read one whole frame from the device.
    ReceiveFrame,
    /// About to drain the input channel and signal the media sink.
    RelaySignals,
    /// About to sleep out the rest of the cycle.
    Sleep,
    /// A fatal transport error ended the session.
    Lost,
}

/// What the caller reports back after performing the requested action.
#[derive(Clone, Copy, Debug, PartialEq, Eq, Structural)]
pub enum SessionEvent {
    /// The heartbeat frame was written in full.
    HeartbeatSent,
    /// One whole frame was read and decoded.
    FrameReceived,
    /// The transfer missed its deadline; retryable.
    TransferTimedOut,
    /// The transfer failed outright; fatal.
    TransferFailed,
    /// Channel signals were exchanged.
    SignalsRelayed,
    /// The cycle's sleep elapsed.
    SleepFinished,
}

/// What the session asks the caller to do next.
#[derive(Clone, Copy, Debug, PartialEq, Eq, Structural)]
pub enum SessionAction {
    /// Write one freshly built heartbeat frame to the OUT endpoint.
    TransmitHeartbeat,
    /// Read one header and its payload from the IN endpoint.
    ReceiveOneFrame,
    /// Drain the input channel, signal the media sink.
    ExchangeSignals,
    /// Sleep one second before the next cycle.
    SleepOneSecond,
    /// Tear the device session down and rediscover the device.
    Rediscover,
}

/// The steady-state session: its phase and its transfer accounting.
#[derive(Clone, Copy, Debug, PartialEq, Eq, Structural)]
pub struct LinkSession {
    pub phase: SessionPhase,
    pub heartbeats_sent: u64,
    pub frames_received: u64,
    pub cycles_completed: u64,
}

/// The action each phase calls for.
pub open spec fn spec_action(phase: SessionPhase) -> SessionAction {
    match phase {
        SessionPhase::SendHeartbeat => SessionAction::TransmitHeartbeat,
        SessionPhase::ReceiveFrame => SessionAction::ReceiveOneFrame,
        SessionPhase::RelaySignals => SessionAction::ExchangeSignals,
        SessionPhase::Sleep => SessionAction::SleepOneSecond,
        SessionPhase::Lost => SessionAction::Rediscover,
    }
}

/// The transition relation of the steady-state cycle. A timeout repeats the
/// current transfer; a fatal transfer error moves to `Lost`; an event that
/// does not answer the current phase changes nothing.
pub open spec fn spec_step(s: LinkSession, e: SessionEvent) -> LinkSession {
    match (s.phase, e) {
        (SessionPhase::SendHeartbeat, SessionEvent::HeartbeatSent) => LinkSession {
            phase: SessionPhase::ReceiveFrame,
            heartbeats_sent: (s.heartbeats_sent + 1) as u64,
            ..s
        },
        (SessionPhase::SendHeartbeat, SessionEvent::TransferTimedOut) => s,
        (SessionPhase::SendHeartbeat, SessionEvent::TransferFailed) => LinkSession {
            phase: SessionPhase::Lost,
            ..s
        },
        (SessionPhase::ReceiveFrame, SessionEvent::FrameReceived) => LinkSession {
            phase: SessionPhase::RelaySignals,
            frames_received: (s.frames_received + 1) as u64,
            ..s
        },
        (SessionPhase::ReceiveFrame, SessionEvent::TransferTimedOut) => s,
        (SessionPhase::ReceiveFrame, SessionEvent::TransferFailed) => LinkSession {
            phase: SessionPhase::Lost,
            ..s
        },
        (SessionPhase::RelaySignals, SessionEvent::SignalsRelayed) => LinkSession {
            phase: SessionPhase::Sleep,
            ..s
        },
        (SessionPhase::Sleep, SessionEvent::SleepFinished) => LinkSession {
            phase: SessionPhase::SendHeartbeat,
            cycles_completed: (s.cycles_completed + 1) as u64,
            ..s
        },
        _ => s,
    }
}

impl LinkSession {
    /// A fresh session, ready to send its first keepalive.
    pub fn new() -> (s: Self)
        ensures
            s.phase is SendHeartbeat,
            s.heartbeats_sent == 0,
            s.frames_received == 0,
            s.cycles_completed == 0,
    {
        LinkSession {
            phase: SessionPhase::SendHeartbeat,
            heartbeats_sent: 0,
            frames_received: 0,
            cycles_completed: 0,
        }
    }

    /// The action the caller should perform now.
    pub fn next_action(&self) -> (a: SessionAction)
        ensures
            a == spec_action(self.phase),
    {
        match self.phase {
            SessionPhase::SendHeartbeat => SessionAction::TransmitHeartbeat,
            SessionPhase::ReceiveFrame => SessionAction::ReceiveOneFrame,
            SessionPhase::RelaySignals => SessionAction::ExchangeSignals,
            SessionPhase::Sleep => SessionAction::SleepOneSecond,
            SessionPhase::Lost => SessionAction::Rediscover,
        }
    }

    /// Advances the session by one reported event.
    pub fn step(&mut self, e: SessionEvent)
        requires
            old(self).heartbeats_sent < u64::MAX,
            old(self).frames_received < u64::MAX,
            old(self).cycles_completed < u64::MAX,
        ensures
            *final(self) == spec_step(*old(self), e),
    {
        match (self.phase, e) {
            (SessionPhase::SendHeartbeat, SessionEvent::HeartbeatSent) => {
                self.phase = SessionPhase::ReceiveFrame;
                self.heartbeats_sent = self.heartbeats_sent + 1;
            },
            (SessionPhase::SendHeartbeat, SessionEvent::TransferTimedOut) => {},
            (SessionPhase::SendHeartbeat, SessionEvent::TransferFailed) => {
                self.phase = SessionPhase::Lost;
            },
            (SessionPhase::ReceiveFrame, SessionEvent::FrameReceived) => {
                self.phase = SessionPhase::RelaySignals;
                self.frames_received = self.frames_received + 1;
            },
            (SessionPhase::ReceiveFrame, SessionEvent::TransferTimedOut) => {},
            (SessionPhase::ReceiveFrame, SessionEvent::TransferFailed) => {
                self.phase = SessionPhase::Lost;
            },
            (SessionPhase::RelaySignals, SessionEvent::SignalsRelayed) => {
                self.phase = SessionPhase::Sleep;
            },
            (SessionPhase::Sleep, SessionEvent::SleepFinished) => {
                self.phase = SessionPhase::SendHeartbeat;
                self.cycles_completed = self.cycles_completed + 1;
            },
            _ => {},
        }
    }
}

/// One error-free cycle: send, receive, relay, sleep.
pub open spec fn run_cycle(s: LinkSession) -> LinkSession {
    spec_step(
        spec_step(
            spec_step(spec_step(s, SessionEvent::HeartbeatSent), SessionEvent::FrameReceived),
            SessionEvent::SignalsRelayed,
        ),
        SessionEvent::SleepFinished,
    )
}

/// `n` error-free cycles in a row.
pub open spec fn run_cycles(s: LinkSession, n: nat) -> LinkSession
    decreases n,
{
    if n == 0 {
        s
    } else {
        run_cycle(run_cycles(s, (n - 1) as nat))
    }
}

/// One error-free steady-state cycle sends exactly one heartbeat and reads
/// exactly one frame before sleeping, and returns to the sending phase.
pub proof fn lemma_cycle_counts(s: LinkSession)
    requires
        s.phase is SendHeartbeat,
        s.heartbeats_sent < u64::MAX,
        s.frames_received < u64::MAX,
        s.cycles_completed < u64::MAX,
    ensures
        run_cycle(s).phase is SendHeartbeat,
        run_cycle(s).heartbeats_sent == s.heartbeats_sent + 1,
        run_cycle(s).frames_received == s.frames_received + 1,
        run_cycle(s).cycles_completed == s.cycles_completed + 1,
{
}

/// Over `n` error-free cycles exactly `n` heartbeats are sent and exactly
/// `n` frames are read.
pub proof fn lemma_n_cycles(s: LinkSession, n: nat)
    requires
        s.phase is SendHeartbeat,
        s.heartbeats_sent + n <= u64::MAX,
        s.frames_received + n <= u64::MAX,
        s.cycles_completed + n <= u64::MAX,
    ensures
        run_cycles(s, n).phase is SendHeartbeat,
        run_cycles(s, n).heartbeats_sent == s.heartbeats_sent + n,
        run_cycles(s, n).frames_received == s.frames_received + n,
        run_cycles(s, n).cycles_completed == s.cycles_completed + n,
    decreases n,
{
    if n > 0 {
        lemma_n_cycles(s, (n - 1) as nat);
        lemma_cycle_counts(run_cycles(s, (n - 1) as nat));
    }
}

/// How an error is to be handled: a retryable one backs off and repeats the
/// current step; a fatal one tears the session down for rediscovery.
#[derive(Clone, Copy, Debug, PartialEq, Eq, Structural)]
pub enum ErrorClass {
    Retryable,
    Fatal,
}

/// Splits the error taxonomy into retryable and fatal kinds: only a
/// transfer timeout is worth retrying in place.
pub fn classify_error(e: &LinkError) -> (c: ErrorClass)
    ensures
        c is Retryable <==> e is TransferTimeout,
{
    match e {
        LinkError::TransferTimeout => ErrorClass::Retryable,
        _ => ErrorClass::Fatal,
    }
}

/// Outcome of one blocking bulk transfer, as the caller observed it.
#[derive(Clone, Copy, Debug, PartialEq, Eq, Structural)]
pub enum TransferOutcome {
    /// The transfer moved this many bytes before returning.
    Transferred(usize),
    /// The one-second deadline passed with the transfer incomplete.
    TimedOut,
    /// The transfer failed outright.
    Failed,
}

/// Turns a raw transfer outcome into the driver's error taxonomy: a timeout
/// surfaces as `TransferTimeout`, an outright failure or a short transfer
/// as `TransferError`, and only a transfer of exactly the expected length
/// passes.
pub fn interpret_transfer(outcome: TransferOutcome, expected: usize) -> (r: Result<
    usize,
    LinkError,
>)
    ensures
        (match r {
            Ok(n) => outcome == TransferOutcome::Transferred(n) && n == expected,
            Err(e) => match outcome {
                TransferOutcome::TimedOut => e == LinkError::TransferTimeout,
                TransferOutcome::Failed => e == LinkError::TransferError,
                TransferOutcome::Transferred(n) => n != expected && e == LinkError::TransferError,
            },
        }),
        r is Ok <==> outcome == TransferOutcome::Transferred(expected),
{
    match outcome {
        TransferOutcome::Transferred(n) => {
            if n == expected {
                Ok(n)
            } else {
                Err(LinkError::TransferError)
            }
        },
        TransferOutcome::TimedOut => Err(LinkError::TransferTimeout),
        TransferOutcome::Failed => Err(LinkError::TransferError),
    }
}

/// Validates the 16 header bytes read from the IN endpoint before the
/// payload is fetched: the magic sentinel must be intact and the parity
/// word must be the complement of the type code.
pub fn parse_header(buf: &Vec<u8>) -> (r: Result<BoxMsgHeader, LinkError>)
    requires
        buf@.len() == 16,
    ensures
        (match r {
            Ok(h) => h == spec_header_from_bytes(buf@) && header_wf(h),
            Err(e) => e == LinkError::MalformedFrame && !header_wf(spec_header_from_bytes(buf@)),
        }),
{
    let magic = crate::box_protocol::read_u32_at(buf, 0);
    let msg_len = crate::box_protocol::read_u32_at(buf, 4);
    let msg_type = crate::box_protocol::read_u32_at(buf, 8);
    let msg_parity = crate::box_protocol::read_u32_at(buf, 12);
    let h = BoxMsgHeader { magic, msg_len, msg_type, msg_parity };
    assert(h == spec_header_from_bytes(buf@));
    if magic != PROTOCOL_MAGIC || msg_parity != !msg_type {
        return Err(LinkError::MalformedFrame);
    }
    Ok(h)
}

/// The fixed bootstrap hand-off, in transmission order: a heartbeat, the
/// session-opening request for a 1920 by 720 surface at 60 frames per
/// second, then one default-built instance of every other message shape, a
/// probe whose necessity no acknowledgment step documents.
pub fn bootstrap_messages() -> (v: Vec<MsgType>)
    ensures
        v@.len() == 14,
        forall|i: int| 0 <= i < v@.len() ==> msg_wf(#[trigger] v@[i]@),
        v@[0]@ is Heartbeat,
        v@[1]@ matches MsgV::OpenBox { width, height, framerate, .. } && width == 1920 && height
            == 720 && framerate == 60,
        v@[2]@ is DevPlug,
        v@[3]@ is DevUnplug,
        v@[4]@ is Touch,
        v@[5]@ matches MsgV::Video { data, .. } && data.len() == 0,
        v@[6]@ is Audio,
        v@[7]@ is ButtonCtl,
        v@[8]@ is BtAddr,
        v@[9]@ is BtPin,
        v@[10]@ matches MsgV::ManInfo { brand, model, .. } && brand == -1 && model == -1,
        v@[11]@ is MultiTouch,
        v@[12]@ is SendFile,
        v@[13]@ is SwVer,
{
    let mut v: Vec<MsgType> = Vec::new();
    v.push(MsgType::Heartbeat(Heartbeat::new()));
    v.push(MsgType::OpenBox(OpenBox::new(1920, 720, 60)));
    v.push(MsgType::DevPlug(DevPlug::new()));
    v.push(MsgType::DevUnplug(DevUnplug::new()));
    v.push(MsgType::Touch(Touch::new()));
    let video_data: Vec<u8> = Vec::new();
    v.push(MsgType::Video(Video::new(video_data)));
    v.push(MsgType::Audio(Audio::new()));
    v.push(MsgType::ButtonCtl(ButtonCtl::new()));
    v.push(MsgType::BtAddr(BtAddr::new()));
    v.push(MsgType::BtPin(BtPin::new()));
    v.push(MsgType::ManInfo(ManInfo::new(-1, -1)));
    v.push(MsgType::MultiTouch(MultiTouch::new()));
    v.push(MsgType::SendFile(SendFile::new()));
    v.push(MsgType::SwVer(SwVer::new()));
    v
}

} // verus!
