//! The EtherDream protocol: frames on the wire, their codes, and the codec
//! between them and the library's values. All integers are little-endian.

use crate::error::EtherdreamError;
use crate::wire::i16_le_bytes;
use crate::wire::le16;
use crate::wire::le32;
use crate::wire::lemma_le16_round_trip;
use crate::wire::lemma_le32_round_trip;
use crate::wire::push_u16;
use crate::wire::read_u16_le;
use crate::wire::read_u32_le;
use crate::wire::u16_at;
use crate::wire::u32_at;
use crate::wire::u32_le_bytes;
use vstd::prelude::*;
use vstd::slice::slice_subrange;

verus! {

/// The highest value that can be specified for a single color channel.
pub const COLOR_MAX: u16 = 65535;
/// The lowest value that can be specified for a single color channel.
pub const COLOR_MIN: u16 = 0;
/// The highest x coordinate.
pub const X_MAX: i16 = 32767;
/// The lowest x coordinate.
pub const X_MIN: i16 = -32768;
/// The highest y coordinate.
pub const Y_MAX: i16 = 32767;
/// The lowest y coordinate.
pub const Y_MIN: i16 = -32768;

/// Byte designating the 'begin' command.
pub const COMMAND_BEGIN: u8 = 0x62;
/// Byte designating the 'data' command.
pub const COMMAND_DATA: u8 = 0x64;
/// Byte designating the 'ping' command.
pub const COMMAND_PING: u8 = 0x3F;
/// Byte designating the 'prepare' command.
pub const COMMAND_PREPARE: u8 = 0x70;

/// Ack byte.
pub const RESPONSE_ACK: u8 = 0x61;
/// Nack byte: buffer full.
pub const RESPONSE_BUFFER_FULL: u8 = 0x46;
/// Nack byte: invalid command.
pub const RESPONSE_INVALID_CMD: u8 = 0x49;
/// Nack byte: stop.
pub const RESPONSE_STOP: u8 = 0x21;

/// Length of a status block.
pub const STATUS_LEN: usize = 20;
/// Length of a response frame.
pub const RESPONSE_LEN: usize = 22;
/// Length of a MAC address.
pub const MAC_LEN: usize = 6;
/// Length of a broadcast datagram.
pub const BROADCAST_LEN: usize = 36;
/// Length of one point on the wire.
pub const POINT_LEN: usize = 18;

/// Ack or Nack responses.
#[derive(Clone, Copy, Debug, PartialEq, Eq, Structural)]
pub enum AckCode {
    Ack,
    NackBufferFull,
    NackInvalid,
    NackStop,
    NackUnknown { code: u8 },
}

/// EtherDream commands.
#[derive(Clone, Copy, Debug, PartialEq, Eq, Structural)]
pub enum CommandCode {
    Begin,
    Data,
    Ping,
    Prepare,
    CommandUnknown { code: u8 },
}

/// The acknowledgement that `byte` stands for.
pub open spec fn ack_of(byte: u8) -> AckCode {
    if byte == RESPONSE_ACK {
        AckCode::Ack
    } else if byte == RESPONSE_BUFFER_FULL {
        AckCode::NackBufferFull
    } else if byte == RESPONSE_INVALID_CMD {
        AckCode::NackInvalid
    } else if byte == RESPONSE_STOP {
        AckCode::NackStop
    } else {
        AckCode::NackUnknown { code: byte }
    }
}

/// The command that `byte` stands for.
pub open spec fn command_of(byte: u8) -> CommandCode {
    if byte == COMMAND_BEGIN {
        CommandCode::Begin
    } else if byte == COMMAND_DATA {
        CommandCode::Data
    } else if byte == COMMAND_PING {
        CommandCode::Ping
    } else if byte == COMMAND_PREPARE {
        CommandCode::Prepare
    } else {
        CommandCode::CommandUnknown { code: byte }
    }
}

impl AckCode {
    /// The acknowledgement that a response's first byte stands for.
    pub fn parse(byte: u8) -> (r: AckCode)
        ensures
            r == ack_of(byte),
    {
        match byte {
            RESPONSE_ACK => AckCode::Ack,
            RESPONSE_BUFFER_FULL => AckCode::NackBufferFull,
            RESPONSE_INVALID_CMD => AckCode::NackInvalid,
            RESPONSE_STOP => AckCode::NackStop,
            _ => AckCode::NackUnknown { code: byte },
        }
    }

    /// Whether or not the code is a successful ACK.
    pub fn is_ack(&self) -> (r: bool)
        ensures
            r == (*self == AckCode::Ack),
    {
        match *self {
            AckCode::Ack => true,
            _ => false,
        }
    }
}

impl CommandCode {
    /// The command that a response's echo byte stands for.
    pub fn parse(byte: u8) -> (r: CommandCode)
        ensures
            r == command_of(byte),
    {
        match byte {
            COMMAND_BEGIN => CommandCode::Begin,
            COMMAND_DATA => CommandCode::Data,
            COMMAND_PING => CommandCode::Ping,
            COMMAND_PREPARE => CommandCode::Prepare,
            _ => CommandCode::CommandUnknown { code: byte },
        }
    }
}

/// The state information that the DAC reports in every response and broadcast.
#[derive(Clone, Copy, Debug, PartialEq, Eq, Structural)]
pub struct DacStatus {
    /// Protocol version.
    pub protocol: u8,
    /// 0 Ready, 1 Warmup, 2 Cooldown, 3 Emergency stop.
    pub light_engine_state: u8,
    /// 0 Idle, 1 Prepared, 2 Playing.
    pub playback_state: u8,
    /// 0 Network streaming, 1 ILDA playback from SD card, 2 Internal generator.
    pub source: u8,
    /// Emergency-stop and temperature flags of the light engine.
    pub light_engine_flags: u16,
    /// Bit 0: shutter open; bit 1: last stream ended with underflow;
    /// bit 2: last stream ended with an emergency stop.
    pub playback_flags: u16,
    /// Flags of the data source.
    pub source_flags: u16,
    /// The number of points currently buffered.
    pub buffer_fullness: u16,
    /// The configured point rate, or zero when idle.
    pub point_rate: u32,
    /// The number of points emitted since playback started.
    pub point_count: u32,
}

/// The status block held by the first twenty bytes of `b`.
pub open spec fn status_of(b: Seq<u8>) -> DacStatus {
    DacStatus {
        protocol: b[0],
        light_engine_state: b[1],
        playback_state: b[2],
        source: b[3],
        light_engine_flags: u16_at(b, 4),
        playback_flags: u16_at(b, 6),
        source_flags: u16_at(b, 8),
        buffer_fullness: u16_at(b, 10),
        point_rate: u32_at(b, 12),
        point_count: u32_at(b, 16),
    }
}

/// The twenty bytes of a status block.
pub open spec fn status_bytes(s: DacStatus) -> Seq<u8> {
    seq![s.protocol, s.light_engine_state, s.playback_state, s.source]
        + le16(s.light_engine_flags) + le16(s.playback_flags) + le16(s.source_flags)
        + le16(s.buffer_fullness) + le32(s.point_rate) + le32(s.point_count)
}

/// The error for a frame of the wrong length.
fn bad_length(description: &str) -> (r: EtherdreamError)
    ensures
        r is BadResponseLength,
{
    EtherdreamError::BadResponseLength { description: description.to_owned() }
}

/// Reads the `u16` at `at` in `b`.
fn u16_from(b: &[u8], at: usize) -> (r: u16)
    requires
        at + 2 <= b@.len(),
    ensures
        r == u16_at(b@, at as int),
{
    let len = b.len();
    assert(at + 2 <= len);
    let s = slice_subrange(b, at, at + 2);
    read_u16_le(s)
}

/// Reads the `u32` at `at` in `b`.
fn u32_from(b: &[u8], at: usize) -> (r: u32)
    requires
        at + 4 <= b@.len(),
    ensures
        r == u32_at(b@, at as int),
{
    let len = b.len();
    assert(at + 4 <= len);
    let s = slice_subrange(b, at, at + 4);
    read_u32_le(s)
}

/// Appends the little-endian bytes of `n` to `v`.
fn push_u32(v: &mut Vec<u8>, n: u32)
    ensures
        final(v)@ == old(v)@ + le32(n),
{
    let b = u32_le_bytes(n);
    v.push(b[0]);
    v.push(b[1]);
    v.push(b[2]);
    v.push(b[3]);
    assert(v@ =~= old(v)@ + le32(n));
}

impl DacStatus {
    /// Parses a status from its twenty bytes; bytes past the twentieth are
    /// ignored.
    pub fn parse(bytes: &[u8]) -> (r: Result<DacStatus, EtherdreamError>)
        ensures
            bytes@.len() < 20 ==> r is Err && r->Err_0 is BadResponseLength,
            bytes@.len() >= 20 ==> r == Ok::<DacStatus, EtherdreamError>(status_of(bytes@)),
    {
        if bytes.len() < STATUS_LEN {
            return Err(bad_length("A status must be no fewer than 20 bytes."));
        }
        Ok(DacStatus {
            protocol: bytes[0],
            light_engine_state: bytes[1],
            playback_state: bytes[2],
            source: bytes[3],
            light_engine_flags: u16_from(bytes, 4),
            playback_flags: u16_from(bytes, 6),
            source_flags: u16_from(bytes, 8),
            buffer_fullness: u16_from(bytes, 10),
            point_rate: u32_from(bytes, 12),
            point_count: u32_from(bytes, 16),
        })
    }

    /// The twenty bytes of this status.
    pub fn serialize(&self) -> (r: Vec<u8>)
        ensures
            r@ == status_bytes(*self),
    {
        let mut v: Vec<u8> = Vec::new();
        v.push(self.protocol);
        v.push(self.light_engine_state);
        v.push(self.playback_state);
        v.push(self.source);
        push_u16(&mut v, self.light_engine_flags);
        push_u16(&mut v, self.playback_flags);
        push_u16(&mut v, self.source_flags);
        push_u16(&mut v, self.buffer_fullness);
        push_u32(&mut v, self.point_rate);
        push_u32(&mut v, self.point_count);
        assert(v@ =~= status_bytes(*self));
        v
    }
}

/// Parsing the bytes of a serialized status gives the status back.
pub proof fn lemma_status_round_trip(s: DacStatus)
    ensures
        status_bytes(s).len() == 20,
        status_of(status_bytes(s)) == s,
{
    let b = status_bytes(s);
    lemma_le16_round_trip(s.light_engine_flags);
    lemma_le16_round_trip(s.playback_flags);
    lemma_le16_round_trip(s.source_flags);
    lemma_le16_round_trip(s.buffer_fullness);
    lemma_le32_round_trip(s.point_rate);
    lemma_le32_round_trip(s.point_count);
    assert(b.subrange(4, 6) =~= le16(s.light_engine_flags));
    assert(b.subrange(6, 8) =~= le16(s.playback_flags));
    assert(b.subrange(8, 10) =~= le16(s.source_flags));
    assert(b.subrange(10, 12) =~= le16(s.buffer_fullness));
    assert(b.subrange(12, 16) =~= le32(s.point_rate));
    assert(b.subrange(16, 20) =~= le32(s.point_count));
    assert(status_of(b) =~= s);
}

/// MAC address reported by the DAC.
#[derive(Clone, Copy, Debug)]
pub struct MacAddress {
    pub address: [u8; 6],
}

impl PartialEq for MacAddress {
    fn eq(&self, other: &MacAddress) -> (r: bool)
        ensures
            r == (self.address@ == other.address@),
    {
        let mut k: usize = 0;
        while k < MAC_LEN
            invariant
                k <= 6,
                self.address@.subrange(0, k as int) == other.address@.subrange(0, k as int),
            decreases 6 - k,
        {
            if self.address[k] != other.address[k] {
                assert(self.address@[k as int] != other.address@[k as int]);
                return false;
            }
            assert(self.address@.subrange(0, k + 1) =~= self.address@.subrange(0, k as int).push(
                self.address@[k as int],
            ));
            assert(other.address@.subrange(0, k + 1) =~= other.address@.subrange(0, k as int).push(
                other.address@[k as int],
            ));
            k = k + 1;
        }
        assert(self.address@ =~= self.address@.subrange(0, 6));
        assert(other.address@ =~= other.address@.subrange(0, 6));
        true
    }
}

impl vstd::std_specs::cmp::PartialEqSpecImpl for MacAddress {
    open spec fn obeys_eq_spec() -> bool {
        true
    }

    open spec fn eq_spec(&self, other: &MacAddress) -> bool {
        self.address@ == other.address@
    }
}

impl MacAddress {
    /// Parses a MAC address from the first six bytes of `bytes`.
    pub fn parse(bytes: &[u8]) -> (r: Result<MacAddress, EtherdreamError>)
        ensures
            bytes@.len() < 6 ==> r is Err && r->Err_0 is BadResponseLength,
            bytes@.len() >= 6 ==> r is Ok && r->Ok_0.address@ == bytes@.subrange(0, 6),
    {
        if bytes.len() < MAC_LEN {
            return Err(bad_length("A MAC address must be no fewer than 6 bytes."));
        }
        let address = [bytes[0], bytes[1], bytes[2], bytes[3], bytes[4], bytes[5]];
        assert(address@ =~= bytes@.subrange(0, 6));
        Ok(MacAddress { address })
    }
}

/// The datagram that a DAC broadcasts about once a second: six bytes of MAC
/// address, ten bytes of identity and capacity, and a status block.
#[derive(Clone, Copy, Debug)]
pub struct Broadcast {
    pub mac_address: MacAddress,
    pub hw_revision: u16,
    pub sw_revision: u16,
    pub buffer_capacity: u16,
    pub max_point_rate: u32,
    pub status: DacStatus,
}

/// Whether `r` is the broadcast held by the first thirty-six bytes of `b`.
pub open spec fn is_broadcast_of(r: Broadcast, b: Seq<u8>) -> bool {
    &&& r.mac_address.address@ == b.subrange(0, 6)
    &&& r.hw_revision == u16_at(b, 6)
    &&& r.sw_revision == u16_at(b, 8)
    &&& r.buffer_capacity == u16_at(b, 10)
    &&& r.max_point_rate == u32_at(b, 12)
    &&& r.status == status_of(b.subrange(16, 36))
}

/// The thirty-six bytes of a broadcast.
pub open spec fn broadcast_bytes(r: Broadcast) -> Seq<u8> {
    r.mac_address.address@ + le16(r.hw_revision) + le16(r.sw_revision) + le16(r.buffer_capacity)
        + le32(r.max_point_rate) + status_bytes(r.status)
}

impl Broadcast {
    /// Parses a broadcast from the first thirty-six bytes of `bytes`.
    pub fn parse(bytes: &[u8]) -> (r: Result<Broadcast, EtherdreamError>)
        ensures
            bytes@.len() < 36 ==> r is Err && r->Err_0 is BadResponseLength,
            bytes@.len() >= 36 ==> r is Ok && is_broadcast_of(r->Ok_0, bytes@),
    {
        if bytes.len() < BROADCAST_LEN {
            return Err(bad_length("A broadcast must be no fewer than 36 bytes."));
        }
        let mac_address = match MacAddress::parse(bytes) {
            Ok(m) => m,
            Err(e) => return Err(e),
        };
        let status = match DacStatus::parse(slice_subrange(bytes, 16, 36)) {
            Ok(s) => s,
            Err(e) => return Err(e),
        };
        Ok(Broadcast {
            mac_address,
            hw_revision: u16_from(bytes, 6),
            sw_revision: u16_from(bytes, 8),
            buffer_capacity: u16_from(bytes, 10),
            max_point_rate: u32_from(bytes, 12),
            status,
        })
    }

    /// The thirty-six bytes of this broadcast.
    pub fn serialize(&self) -> (r: Vec<u8>)
        ensures
            r@ == broadcast_bytes(*self),
    {
        let mut v: Vec<u8> = Vec::new();
        let mut k: usize = 0;
        while k < MAC_LEN
            invariant
                k <= 6,
                v@ == self.mac_address.address@.subrange(0, k as int),
            decreases 6 - k,
        {
            v.push(self.mac_address.address[k]);
            k = k + 1;
            assert(v@ =~= self.mac_address.address@.subrange(0, k as int));
        }
        assert(v@ =~= self.mac_address.address@);
        push_u16(&mut v, self.hw_revision);
        push_u16(&mut v, self.sw_revision);
        push_u16(&mut v, self.buffer_capacity);
        push_u32(&mut v, self.max_point_rate);
        let mut status = self.status.serialize();
        v.append(&mut status);
        v
    }
}

/// Parsing the bytes of a serialized broadcast gives the broadcast back.
pub proof fn lemma_broadcast_round_trip(r: Broadcast)
    ensures
        broadcast_bytes(r).len() == 36,
        is_broadcast_of(r, broadcast_bytes(r)),
{
    let b = broadcast_bytes(r);
    lemma_status_round_trip(r.status);
    lemma_le16_round_trip(r.hw_revision);
    lemma_le16_round_trip(r.sw_revision);
    lemma_le16_round_trip(r.buffer_capacity);
    lemma_le32_round_trip(r.max_point_rate);
    assert(b.subrange(0, 6) =~= r.mac_address.address@);
    assert(b.subrange(6, 8) =~= le16(r.hw_revision));
    assert(b.subrange(8, 10) =~= le16(r.sw_revision));
    assert(b.subrange(10, 12) =~= le16(r.buffer_capacity));
    assert(b.subrange(12, 16) =~= le32(r.max_point_rate));
    assert(b.subrange(16, 36) =~= status_bytes(r.status));
}

/// A 22-byte response the DAC sends to any command.
#[derive(Clone, Copy, Debug, PartialEq, Eq, Structural)]
pub struct DacResponse {
    /// One byte ACK/NACK.
    pub acknowledgement: AckCode,
    /// One byte repeat of the command that was received.
    pub command: CommandCode,
    /// 20-byte status of the DAC.
    pub status: DacStatus,
}

/// The response held by the twenty-two bytes `b`.
pub open spec fn response_of(b: Seq<u8>) -> DacResponse {
    DacResponse {
        acknowledgement: ack_of(b[0]),
        command: command_of(b[1]),
        status: status_of(b.subrange(2, 22)),
    }
}

impl DacResponse {
    /// Parses a response from exactly twenty-two bytes.
    pub fn parse(bytes: &[u8]) -> (r: Result<DacResponse, EtherdreamError>)
        ensures
            bytes@.len() != 22 ==> r is Err && r->Err_0 is BadResponseLength,
            bytes@.len() == 22 ==> r == Ok::<DacResponse, EtherdreamError>(response_of(bytes@)),
    {
        if bytes.len() != RESPONSE_LEN {
            return Err(bad_length("A response must be exactly 22 bytes."));
        }
        let status = match DacStatus::parse(slice_subrange(bytes, 2, 22)) {
            Ok(s) => s,
            Err(e) => return Err(e),
        };
        Ok(DacResponse {
            acknowledgement: AckCode::parse(bytes[0]),
            command: CommandCode::parse(bytes[1]),
            status,
        })
    }

    /// Whether or not the response is a successful ACK.
    pub fn is_ack(&self) -> (r: bool)
        ensures
            r == (self.acknowledgement == AckCode::Ack),
    {
        self.acknowledgement.is_ack()
    }
}

/// Whether the DAC must be sent Prepare before it takes points: it is idle,
/// or its last stream ended with an underflow or an emergency stop.
pub open spec fn status_needs_prepare(s: DacStatus) -> bool {
    s.playback_state == 0 || s.playback_flags & 2 != 0 || s.playback_flags & 4 != 0
}

/// The free places in a buffer of `capacity` points that holds `fullness`.
pub open spec fn free_slots_of(capacity: u16, fullness: u16) -> u16 {
    if fullness < capacity {
        (capacity - fullness) as u16
    } else {
        0
    }
}

impl DacStatus {
    /// Whether the DAC must be sent Prepare before it takes points.
    pub fn needs_prepare(&self) -> (r: bool)
        ensures
            r == status_needs_prepare(*self),
    {
        self.playback_state == 0 || self.playback_flags & 2 != 0 || self.playback_flags & 4 != 0
    }

    /// Whether points are being sent to the output.
    pub fn is_playing(&self) -> (r: bool)
        ensures
            r == (self.playback_state == 2),
    {
        self.playback_state == 2
    }

    /// Whether the light engine is in emergency stop.
    pub fn is_emergency(&self) -> (r: bool)
        ensures
            r == (self.light_engine_state == 3),
    {
        self.light_engine_state == 3
    }

    /// The free places left in a buffer of `capacity` points; none when the
    /// buffer reports itself full or fuller.
    pub fn free_slots(&self, capacity: u16) -> (r: u16)
        ensures
            r == free_slots_of(capacity, self.buffer_fullness),
    {
        if self.buffer_fullness < capacity {
            capacity - self.buffer_fullness
        } else {
            0
        }
    }
}

/// Begin command: starts playback at `point_rate`.
#[derive(Clone, Copy, Debug, PartialEq, Eq, Structural)]
pub struct Begin {
    /// Unused by the DAC.
    pub low_water_mark: u16,
    /// Point rate.
    pub point_rate: u32,
}

/// The seven bytes of a Begin command.
pub open spec fn begin_bytes(b: Begin) -> Seq<u8> {
    seq![COMMAND_BEGIN] + le16(b.low_water_mark) + le32(b.point_rate)
}

impl Begin {
    /// The seven bytes of this command.
    pub fn serialize(&self) -> (r: Vec<u8>)
        ensures
            r@ == begin_bytes(*self),
    {
        let mut v: Vec<u8> = Vec::new();
        v.push(COMMAND_BEGIN);
        push_u16(&mut v, self.low_water_mark);
        push_u32(&mut v, self.point_rate);
        assert(v@ =~= begin_bytes(*self));
        v
    }
}

/// The Ping command.
pub fn encode_ping() -> (r: Vec<u8>)
    ensures
        r@ == seq![COMMAND_PING],
{
    vec![COMMAND_PING]
}

/// The Prepare command.
pub fn encode_prepare() -> (r: Vec<u8>)
    ensures
        r@ == seq![COMMAND_PREPARE],
{
    vec![COMMAND_PREPARE]
}

/// 18-byte point data for a single point.
#[derive(Clone, Copy, Debug, PartialEq, Eq, Structural)]
pub struct Point {
    pub control: u16,
    pub x: i16,
    pub y: i16,
    pub r: u16,
    pub g: u16,
    pub b: u16,
    pub i: u16,
    pub u1: u16,
    pub u2: u16,
}

/// The eighteen bytes of a point: control, x, y, r, g, b, i, u1, u2.
pub open spec fn point_bytes(p: Point) -> Seq<u8> {
    le16(p.control) + le16(p.x as u16) + le16(p.y as u16) + le16(p.r) + le16(p.g) + le16(p.b)
        + le16(p.i) + le16(p.u1) + le16(p.u2)
}

/// The bytes of a run of points, one after the other.
pub open spec fn points_bytes(ps: Seq<Point>) -> Seq<u8>
    decreases ps.len(),
{
    if ps.len() == 0 {
        Seq::empty()
    } else {
        points_bytes(ps.drop_last()) + point_bytes(ps.last())
    }
}

/// The bytes of a Data command carrying `ps`.
pub open spec fn data_bytes(ps: Seq<Point>) -> Seq<u8> {
    seq![COMMAND_DATA] + le16(ps.len() as u16) + points_bytes(ps)
}

/// Each point takes eighteen bytes.
pub proof fn lemma_points_bytes_len(ps: Seq<Point>)
    ensures
        points_bytes(ps).len() == 18 * ps.len(),
    decreases ps.len(),
{
    if ps.len() > 0 {
        lemma_points_bytes_len(ps.drop_last());
    }
}

impl Point {
    /// A point with the given position and colors, and no intensity.
    pub fn xy_rgb(x: i16, y: i16, r: u16, g: u16, b: u16) -> (p: Point)
        ensures
            p == (Point { control: 0, x, y, r, g, b, i: 0, u1: 0, u2: 0 }),
    {
        Point { control: 0, x, y, r, g, b, i: 0, u1: 0, u2: 0 }
    }

    /// A point with the same value on every color channel and the intensity.
    pub fn xy_luma(x: i16, y: i16, luminance: u16) -> (p: Point)
        ensures
            p == (Point {
                control: 0,
                x,
                y,
                r: luminance,
                g: luminance,
                b: luminance,
                i: luminance,
                u1: 0,
                u2: 0,
            }),
    {
        Point { control: 0, x, y, r: luminance, g: luminance, b: luminance, i: luminance, u1: 0, u2: 0 }
    }

    /// A blank point: the lasers are off.
    pub fn xy_blank(x: i16, y: i16) -> (p: Point)
        ensures
            p == (Point { control: 0, x, y, r: 0, g: 0, b: 0, i: 0, u1: 0, u2: 0 }),
    {
        Point::xy_luma(x, y, 0)
    }

    /// A point at full power when `on`, and off otherwise.
    pub fn xy_binary(x: i16, y: i16, on: bool) -> (p: Point)
        ensures
            p == Point::xy_rgb_spec(x, y, if on { COLOR_MAX } else { 0 }),
    {
        let c = if on { COLOR_MAX } else { 0 };
        Point::xy_rgb(x, y, c, c, c)
    }

    /// The point that `xy_rgb` makes with all three colors `c`.
    pub open spec fn xy_rgb_spec(x: i16, y: i16, c: u16) -> Point {
        Point { control: 0, x, y, r: c, g: c, b: c, i: 0, u1: 0, u2: 0 }
    }

    /// The eighteen bytes of this point.
    pub fn serialize(&self) -> (r: Vec<u8>)
        ensures
            r@ == point_bytes(*self),
    {
        let mut v: Vec<u8> = Vec::new();
        self.write_to(&mut v);
        assert(v@ =~= point_bytes(*self));
        v
    }

    /// Appends the eighteen bytes of this point to `v`.
    fn write_to(&self, v: &mut Vec<u8>)
        ensures
            final(v)@ == old(v)@ + point_bytes(*self),
    {
        push_u16(v, self.control);
        push_i16(v, self.x);
        push_i16(v, self.y);
        push_u16(v, self.r);
        push_u16(v, self.g);
        push_u16(v, self.b);
        push_u16(v, self.i);
        push_u16(v, self.u1);
        push_u16(v, self.u2);
        assert(v@ =~= old(v)@ + point_bytes(*self));
    }
}

/// Appends the little-endian bytes of `n` to `v`.
fn push_i16(v: &mut Vec<u8>, n: i16)
    ensures
        final(v)@ == old(v)@ + le16(n as u16),
{
    let b = i16_le_bytes(n);
    v.push(b[0]);
    v.push(b[1]);
    assert(v@ =~= old(v)@ + le16(n as u16));
}

/// The most points that one Data command can carry.
pub const MAX_DATA_POINTS: usize = 65535;

/// The Data command carrying `points`; a command holds at most 65 535 points.
pub fn encode_data(points: &[Point]) -> (r: Result<Vec<u8>, EtherdreamError>)
    ensures
        points@.len() > 65535 ==> r is Err && r->Err_0 is BadResponseLength,
        points@.len() <= 65535 ==> r is Ok && r->Ok_0@ == data_bytes(points@),
{
    let n = points.len();
    if n > MAX_DATA_POINTS {
        return Err(bad_length("A data command holds at most 65535 points."));
    }
    let mut v: Vec<u8> = Vec::new();
    v.push(COMMAND_DATA);
    push_u16(&mut v, n as u16);
    let mut k: usize = 0;
    while k < n
        invariant
            n == points@.len(),
            k <= n,
            v@ == seq![COMMAND_DATA] + le16(n as u16) + points_bytes(points@.subrange(0, k as int)),
        decreases n - k,
    {
        let p = points[k];
        p.write_to(&mut v);
        proof {
            let next = points@.subrange(0, k + 1);
            assert(next.drop_last() =~= points@.subrange(0, k as int));
            assert(next.last() == p);
        }
        k = k + 1;
    }
    assert(points@.subrange(0, n as int) =~= points@);
    Ok(v)
}

/// The layout of a point on the wire: eighteen bytes, holding control, x, y,
/// r, g, b, i, u1 and u2 in that order, each in two bytes.
pub proof fn lemma_point_layout(p: Point)
    ensures
        point_bytes(p).len() == 18,
        u16_at(point_bytes(p), 0) == p.control,
        u16_at(point_bytes(p), 2) as i16 == p.x,
        u16_at(point_bytes(p), 4) as i16 == p.y,
        u16_at(point_bytes(p), 6) == p.r,
        u16_at(point_bytes(p), 8) == p.g,
        u16_at(point_bytes(p), 10) == p.b,
        u16_at(point_bytes(p), 12) == p.i,
        u16_at(point_bytes(p), 14) == p.u1,
        u16_at(point_bytes(p), 16) == p.u2,
{
    let b = point_bytes(p);
    let x = p.x;
    let y = p.y;
    lemma_le16_round_trip(p.control);
    lemma_le16_round_trip(x as u16);
    lemma_le16_round_trip(y as u16);
    lemma_le16_round_trip(p.r);
    lemma_le16_round_trip(p.g);
    lemma_le16_round_trip(p.b);
    lemma_le16_round_trip(p.i);
    lemma_le16_round_trip(p.u1);
    lemma_le16_round_trip(p.u2);
    assert(b.subrange(0, 2) =~= le16(p.control));
    assert(b.subrange(2, 4) =~= le16(x as u16));
    assert(b.subrange(4, 6) =~= le16(y as u16));
    assert(b.subrange(6, 8) =~= le16(p.r));
    assert(b.subrange(8, 10) =~= le16(p.g));
    assert(b.subrange(10, 12) =~= le16(p.b));
    assert(b.subrange(12, 14) =~= le16(p.i));
    assert(b.subrange(14, 16) =~= le16(p.u1));
    assert(b.subrange(16, 18) =~= le16(p.u2));
    assert((x as u16) as i16 == x) by (bit_vector);
    assert((y as u16) as i16 == y) by (bit_vector);
}

/// A Data command carrying up to 65 535 points is `3 + 18 n` bytes long,
/// starts with the Data byte, and gives the count of points in the next two.
pub proof fn lemma_data_frame(ps: Seq<Point>)
    requires
        ps.len() <= 65535,
    ensures
        data_bytes(ps).len() == 3 + 18 * ps.len(),
        data_bytes(ps)[0] == COMMAND_DATA,
        u16_at(data_bytes(ps), 1) == ps.len(),
{
    lemma_points_bytes_len(ps);
    lemma_le16_round_trip(ps.len() as u16);
    assert(data_bytes(ps).subrange(1, 3) =~= le16(ps.len() as u16));
}

/// The response to `expected` held by the frame `bytes`: exactly twenty-two
/// bytes whose echo names `expected`.
pub fn response_to(expected: CommandCode, bytes: &[u8]) -> (r: Result<DacResponse, EtherdreamError>)
    ensures
        bytes@.len() != 22 ==> r is Err && r->Err_0 is BadResponseLength,
        bytes@.len() == 22 && command_of(bytes@[1]) != expected ==> r is Err && r->Err_0
            is WrongResponse,
        bytes@.len() == 22 && command_of(bytes@[1]) == expected ==> r
            == Ok::<DacResponse, EtherdreamError>(response_of(bytes@)),
{
    match DacResponse::parse(bytes) {
        Ok(response) => {
            if response.command == expected {
                Ok(response)
            } else {
                Err(EtherdreamError::WrongResponse)
            }
        },
        Err(e) => Err(e),
    }
}

}
