//! The RTT command/response protocol: framing of requests, decoding of
//! responses, the response-wait decisions and the link's observable status.
//!
//! The RTT channels themselves belong to the caller. The manager decides what
//! to send and how to read what came back: the caller writes the frames it
//! builds to the down channel, polls the up channel, and reports each outcome.
//! One exchange must be resolved, or time out, before the next one starts:
//! responses carry no request identifier.
use vstd::prelude::*;
use crate::codec::{decode, decode_spec, encode_into, le4, lemma_codec_round_trip, TypedValue, VarType};

verus! {

/// Request command bytes.
pub const RTT_CMD_READ: u8 = 0x01;
pub const RTT_CMD_WRITE: u8 = 0x02;
pub const RTT_CMD_PING: u8 = 0xFF;

/// Response status byte of a request that succeeded.
pub const RTT_STATUS_OK: u8 = 0x00;

/// Index of the channel pair that carries the protocol (channel 0 is the
/// console); both directions need a channel beyond it.
pub const RTT_CHANNEL_MCULINK: usize = 1;

/// How long to wait for a response, and how long to sleep between polls.
pub const RESPONSE_TIMEOUT_MS: u64 = 100;
pub const POLL_INTERVAL_MS: u64 = 1;

/// The last thing that happened on the link.
#[derive(Debug, Clone, Copy, PartialEq, Eq, Structural)]
pub enum Activity {
    Initialized,
    PingSent,
    /// A response of this many bytes arrived.
    Received(u64),
}

/// Observable state of the RTT link; the counters only ever grow until the
/// link is cleaned up.
#[derive(Debug, Clone, Copy, PartialEq, Eq, Structural)]
pub struct RttStatus {
    pub enabled: bool,
    pub channels_found: usize,
    pub control_block_addr: Option<u64>,
    pub up_channel_available: bool,
    pub down_channel_available: bool,
    pub bytes_read: u64,
    pub bytes_written: u64,
    pub last_activity: Option<Activity>,
}

/// The status of a link that was never attached.
pub open spec fn idle_status() -> RttStatus {
    RttStatus {
        enabled: false,
        channels_found: 0,
        control_block_addr: None,
        up_channel_available: false,
        down_channel_available: false,
        bytes_read: 0,
        bytes_written: 0,
        last_activity: None,
    }
}

impl Default for RttStatus {
    fn default() -> (r: RttStatus)
        ensures
            r == idle_status(),
    {
        RttStatus {
            enabled: false,
            channels_found: 0,
            control_block_addr: None,
            up_channel_available: false,
            down_channel_available: false,
            bytes_read: 0,
            bytes_written: 0,
            last_activity: None,
        }
    }
}

/// Why an RTT operation failed.
#[derive(Debug, Clone, Copy, PartialEq, Eq, Structural)]
pub enum RttError {
    /// No control block is attached.
    NotInitialized,
    /// The control block could not be found or attached.
    AttachFailed,
    /// The protocol's up or down channel does not exist.
    ChannelsUnavailable,
    /// Writing a frame to the down channel failed.
    SendFailed,
    /// Reading the up channel failed.
    ReceiveFailed,
    /// No response arrived in time.
    ResponseTimeout,
    /// The response held no byte at all.
    EmptyResponse,
    /// The target answered with this non-OK status.
    RemoteError(u8),
    /// The response holds fewer value bytes than the type needs.
    TruncatedResponse,
    /// The type tag is not one of the supported types.
    UnsupportedType,
}

/// What attaching to the control block gave.
#[derive(Debug, Clone, Copy, PartialEq, Eq, Structural)]
pub enum AttachOutcome {
    Attached { up_channels: usize, down_channels: usize, control_block: u64 },
    Failed,
}

/// What one poll of the up channel gave.
#[derive(Debug, PartialEq, Eq)]
pub enum PollResult {
    Data(Vec<u8>),
    Failed,
}

/// What to do after a poll.
#[derive(Debug, PartialEq, Eq)]
pub enum WaitStep {
    /// Nothing yet: sleep `POLL_INTERVAL_MS` and poll again.
    PollAgain,
    /// The complete response.
    Received(Vec<u8>),
    Failed(RttError),
}

/// The request frame `[READ][address:4][type code]`.
pub open spec fn read_frame(address: u32, ty: VarType) -> Seq<u8> {
    seq![RTT_CMD_READ] + le4(address as int) + seq![ty.spec_code()]
}

/// The request frame `[WRITE][address:4][type code][value bytes]`.
pub open spec fn write_frame(address: u32, value: TypedValue) -> Seq<u8> {
    seq![RTT_CMD_WRITE] + le4(address as int) + seq![value.spec_type().spec_code()]
        + value.spec_bytes()
}

/// What a read response means for a `ty`.
pub open spec fn read_response_spec(r: Seq<u8>, ty: VarType) -> Result<TypedValue, RttError> {
    if r.len() == 0 {
        Err(RttError::EmptyResponse)
    } else if r[0] != RTT_STATUS_OK {
        Err(RttError::RemoteError(r[0]))
    } else if r.len() - 1 < ty.spec_width() {
        Err(RttError::TruncatedResponse)
    } else {
        Ok(decode_spec(ty, r.drop_first()))
    }
}

/// What a write response means.
pub open spec fn write_response_spec(r: Seq<u8>) -> Result<(), RttError> {
    if r.len() == 0 {
        Err(RttError::EmptyResponse)
    } else if r[0] != RTT_STATUS_OK {
        Err(RttError::RemoteError(r[0]))
    } else {
        Ok(())
    }
}

/// What an RTT link is, abstractly.
pub ghost struct RttModel {
    /// A control block with both protocol channels is attached.
    pub attached: bool,
    pub status: RttStatus,
}

/// The protocol side of one RTT link.
pub struct RttManager {
    attached: bool,
    status: RttStatus,
}

impl View for RttManager {
    type V = RttModel;

    closed spec fn view(&self) -> RttModel {
        RttModel { attached: self.attached, status: self.status }
    }
}

fn push_u32_le(out: &mut Vec<u8>, x: u32)
    ensures
        final(out)@ == old(out)@ + le4(x as int),
{
    out.push((x % 256) as u8);
    out.push((x / 256 % 256) as u8);
    out.push((x / 65536 % 256) as u8);
    out.push((x / 16777216 % 256) as u8);
    assert(final(out)@ =~= old(out)@ + le4(x as int));
}

impl RttManager {
    pub fn new() -> (r: RttManager)
        ensures
            !r@.attached,
            r@.status == idle_status(),
    {
        RttManager { attached: false, status: RttStatus::default() }
    }

    /// Takes the outcome of attaching to the control block. The link is
    /// attached when both the up and the down channel beyond
    /// `RTT_CHANNEL_MCULINK` exist; the caller then sends the ping frame of
    /// `send_ping`.
    pub fn initialize(&mut self, attach: AttachOutcome) -> (r: Result<(), RttError>)
        ensures
            attach is Failed ==> {
                &&& r == Err::<(), RttError>(RttError::AttachFailed)
                &&& !final(self)@.attached
                &&& final(self)@.status == (RttStatus { enabled: false, ..old(self)@.status })
            },
            attach matches AttachOutcome::Attached { up_channels, down_channels, control_block }
                ==> {
                &&& final(self)@.status == (RttStatus {
                    enabled: true,
                    channels_found: up_channels.saturating_add(down_channels),
                    control_block_addr: Some(control_block),
                    up_channel_available: up_channels > RTT_CHANNEL_MCULINK,
                    down_channel_available: down_channels > RTT_CHANNEL_MCULINK,
                    bytes_read: 0,
                    bytes_written: 0,
                    last_activity: Some(Activity::Initialized),
                })
                &&& final(self)@.attached == (up_channels > RTT_CHANNEL_MCULINK && down_channels
                    > RTT_CHANNEL_MCULINK)
                &&& r is Ok <==> final(self)@.attached
                &&& r is Err ==> r == Err::<(), RttError>(RttError::ChannelsUnavailable)
            },
    {
        match attach {
            AttachOutcome::Failed => {
                self.attached = false;
                self.status.enabled = false;
                Err(RttError::AttachFailed)
            },
            AttachOutcome::Attached { up_channels, down_channels, control_block } => {
                let up_ok = up_channels > RTT_CHANNEL_MCULINK;
                let down_ok = down_channels > RTT_CHANNEL_MCULINK;
                self.status =
                RttStatus {
                    enabled: true,
                    channels_found: up_channels.saturating_add(down_channels),
                    control_block_addr: Some(control_block),
                    up_channel_available: up_ok,
                    down_channel_available: down_ok,
                    bytes_read: 0,
                    bytes_written: 0,
                    last_activity: Some(Activity::Initialized),
                };
                self.attached = up_ok && down_ok;
                if self.attached {
                    Ok(())
                } else {
                    Err(RttError::ChannelsUnavailable)
                }
            },
        }
    }

    /// The ping frame to send on the down channel.
    pub fn send_ping(&self) -> (r: Result<Vec<u8>, RttError>)
        ensures
            !self@.attached ==> r == Err::<Vec<u8>, RttError>(RttError::NotInitialized),
            self@.attached ==> (r matches Ok(f) && f@ == seq![RTT_CMD_PING]),
    {
        if !self.attached {
            return Err(RttError::NotInitialized);
        }
        Ok(vec![RTT_CMD_PING])
    }

    /// The frame that asks the target for the `ty` at `address`.
    pub fn read_variable(&self, address: u32, ty: VarType) -> (r: Result<Vec<u8>, RttError>)
        ensures
            !self@.attached ==> r == Err::<Vec<u8>, RttError>(RttError::NotInitialized),
            self@.attached ==> (r matches Ok(f) && f@ == read_frame(address, ty)),
    {
        if !self.attached {
            return Err(RttError::NotInitialized);
        }
        let mut f: Vec<u8> = Vec::new();
        f.push(RTT_CMD_READ);
        push_u32_le(&mut f, address);
        f.push(ty.code());
        assert(f@ =~= read_frame(address, ty));
        Ok(f)
    }

    /// The frame that asks the target to store `value` at `address`.
    pub fn write_variable(&self, address: u32, value: TypedValue) -> (r: Result<Vec<u8>, RttError>)
        ensures
            !self@.attached ==> r == Err::<Vec<u8>, RttError>(RttError::NotInitialized),
            self@.attached ==> (r matches Ok(f) && f@ == write_frame(address, value)),
    {
        if !self.attached {
            return Err(RttError::NotInitialized);
        }
        let mut f: Vec<u8> = Vec::new();
        f.push(RTT_CMD_WRITE);
        push_u32_le(&mut f, address);
        f.push(value.var_type().code());
        encode_into(value, &mut f);
        assert(f@ =~= write_frame(address, value));
        Ok(f)
    }

    /// Records that `n` bytes of a frame went out; a ping also becomes the
    /// last activity.
    pub fn frame_sent(&mut self, n: usize, was_ping: bool)
        ensures
            final(self)@.attached == old(self)@.attached,
            final(self)@.status == (RttStatus {
                bytes_written: old(self)@.status.bytes_written.saturating_add(n as u64),
                last_activity: if was_ping {
                    Some(Activity::PingSent)
                } else {
                    old(self)@.status.last_activity
                },
                ..old(self)@.status
            }),
    {
        self.status.bytes_written = self.status.bytes_written.saturating_add(n as u64);
        if was_ping {
            self.status.last_activity = Some(Activity::PingSent);
        }
    }

    /// Decides what follows a poll of the up channel made `elapsed_ms` after
    /// the request went out. The first non-empty read is the whole response;
    /// an empty one means "not yet" until the timeout; a failed read ends the
    /// wait at once.
    pub fn on_poll(&mut self, elapsed_ms: u64, poll: PollResult) -> (r: WaitStep)
        ensures
            final(self)@.attached == old(self)@.attached,
            !old(self)@.attached ==> r == WaitStep::Failed(RttError::NotInitialized)
                && final(self)@.status == old(self)@.status,
            old(self)@.attached ==> match poll {
                PollResult::Failed => r == WaitStep::Failed(RttError::ReceiveFailed)
                    && final(self)@.status == old(self)@.status,
                PollResult::Data(d) => if d@.len() > 0 {
                    &&& r matches WaitStep::Received(v) && v@ == d@
                    &&& final(self)@.status == (RttStatus {
                        bytes_read: old(self)@.status.bytes_read.saturating_add(d@.len() as u64),
                        last_activity: Some(Activity::Received(d@.len() as u64)),
                        ..old(self)@.status
                    })
                } else {
                    &&& final(self)@.status == old(self)@.status
                    &&& elapsed_ms >= RESPONSE_TIMEOUT_MS ==> r == WaitStep::Failed(
                        RttError::ResponseTimeout,
                    )
                    &&& elapsed_ms < RESPONSE_TIMEOUT_MS ==> r == WaitStep::PollAgain
                },
            },
    {
        if !self.attached {
            return WaitStep::Failed(RttError::NotInitialized);
        }
        match poll {
            PollResult::Failed => WaitStep::Failed(RttError::ReceiveFailed),
            PollResult::Data(d) => {
                let n = d.len();
                if n > 0 {
                    self.status.bytes_read = self.status.bytes_read.saturating_add(n as u64);
                    self.status.last_activity = Some(Activity::Received(n as u64));
                    WaitStep::Received(d)
                } else if elapsed_ms >= RESPONSE_TIMEOUT_MS {
                    WaitStep::Failed(RttError::ResponseTimeout)
                } else {
                    WaitStep::PollAgain
                }
            },
        }
    }

    /// Decodes the response to a read of a `ty`: `[status][value bytes]`.
    pub fn parse_read_response(response: &[u8], ty: VarType) -> (r: Result<TypedValue, RttError>)
        ensures
            r == read_response_spec(response@, ty),
    {
        if response.len() == 0 {
            return Err(RttError::EmptyResponse);
        }
        let status = response[0];
        if status != RTT_STATUS_OK {
            return Err(RttError::RemoteError(status));
        }
        let mut data: Vec<u8> = Vec::new();
        let mut i: usize = 1;
        while i < response.len()
            invariant
                1 <= i <= response@.len(),
                data@ == response@.subrange(1, i as int),
            decreases response@.len() - i,
        {
            data.push(response[i]);
            i = i + 1;
            assert(data@ =~= response@.subrange(1, i as int));
        }
        assert(data@ =~= response@.drop_first());
        match decode(ty, data.as_slice()) {
            Some(v) => Ok(v),
            None => Err(RttError::TruncatedResponse),
        }
    }

    /// Decodes the response to a write: `[status]`.
    pub fn parse_write_response(response: &[u8]) -> (r: Result<(), RttError>)
        ensures
            r == write_response_spec(response@),
    {
        if response.len() == 0 {
            return Err(RttError::EmptyResponse);
        }
        let status = response[0];
        if status == RTT_STATUS_OK {
            Ok(())
        } else {
            Err(RttError::RemoteError(status))
        }
    }

    /// The wire code of the type tag `var_type`.
    pub fn var_type_to_code(var_type: &str) -> (r: Result<u8, RttError>)
        ensures
            r matches Ok(c) ==> exists|t: VarType| t.spec_name() == var_type@ && t.spec_code() == c,
            r is Err ==> r == Err::<u8, RttError>(RttError::UnsupportedType) && forall|t: VarType|
                t.spec_name() != var_type@,
    {
        match VarType::from_name(var_type) {
            Some(t) => Ok(t.code()),
            None => Err(RttError::UnsupportedType),
        }
    }

    pub fn get_status(&self) -> (r: &RttStatus)
        ensures
            *r == self@.status,
    {
        &self.status
    }

    /// Whether the link is attached with both protocol channels present.
    pub fn is_available(&self) -> (r: bool)
        ensures
            r == (self@.status.enabled && self@.status.up_channel_available
                && self@.status.down_channel_available),
    {
        self.status.enabled && self.status.up_channel_available && self.status.down_channel_available
    }

    /// Whether frames can be exchanged.
    pub fn is_attached(&self) -> (r: bool)
        ensures
            r == self@.attached,
    {
        self.attached
    }

    /// Forgets the link: back to the state of `new`.
    pub fn cleanup(&mut self)
        ensures
            !final(self)@.attached,
            final(self)@.status == idle_status(),
    {
        self.attached = false;
        self.status = RttStatus::default();
    }
}

/// A response with the OK status followed by the bytes of a value decodes,
/// as a read of that value's type, to that very value.
pub proof fn lemma_read_response_round_trip(v: TypedValue)
    ensures
        read_response_spec(seq![RTT_STATUS_OK] + v.spec_bytes(), v.spec_type()) == Ok::<
            TypedValue,
            RttError,
        >(v),
{
    lemma_codec_round_trip(v);
    assert((seq![RTT_STATUS_OK] + v.spec_bytes()).drop_first() =~= v.spec_bytes());
}

} // verus!
