use vstd::prelude::*;

verus! {

/// Size of the fixed packet header on the wire, in bytes.
pub const HEADER_SIZE: usize = 20;

/// The packet type carried in the high nibble of the header's first byte.
#[derive(Clone, Copy, PartialEq, Eq, Structural, Debug)]
pub enum UtpPacketType {
    Data,
    Fin,
    State,
    Reset,
    Syn,
}

/// Numeric code of a packet type, in spec form.
pub open spec fn spec_type_code(t: UtpPacketType) -> u8 {
    match t {
        UtpPacketType::Data => 0,
        UtpPacketType::Fin => 1,
        UtpPacketType::State => 2,
        UtpPacketType::Reset => 3,
        UtpPacketType::Syn => 4,
    }
}

/// Numeric code of a packet type as it stands in the high nibble of the
/// header's first byte.
pub fn type_code(t: UtpPacketType) -> (r: u8)
    ensures
        r == spec_type_code(t),
{
    match t {
        UtpPacketType::Data => 0,
        UtpPacketType::Fin => 1,
        UtpPacketType::State => 2,
        UtpPacketType::Reset => 3,
        UtpPacketType::Syn => 4,
    }
}

/// The fixed 20-byte packet header. Fields hold host values; the codec lays
/// multi-byte fields out big-endian on the wire.
#[derive(Clone, Copy, PartialEq, Eq, Structural, Debug)]
pub struct UtpPacketHeader {
    /// Packet type in the high nibble, protocol version in the low one.
    pub type_ver: u8,
    /// Extension chain indicator; no extensions are defined.
    pub extension: u8,
    /// Identifies the logical connection on the receiving side.
    pub connection_id: u16,
    /// Sender's local clock at send time, truncated to 32 bits.
    pub timestamp_microseconds: u32,
    /// Most recent one-way-delay sample observed by the sender.
    pub timestamp_difference_microseconds: u32,
    /// Advertised receive capacity.
    pub wnd_size: u32,
    /// This packet's sequence number.
    pub seq_nr: u16,
    /// Last sequence number acknowledged by the sender.
    pub ack_nr: u16,
}

/// The 16-bit value laid out by two big-endian bytes.
pub open spec fn spec_u16_from_bytes(hi: u8, lo: u8) -> u16 {
    (hi as u16) << 8 | (lo as u16)
}

/// The 32-bit value laid out by four big-endian bytes.
pub open spec fn spec_u32_from_bytes(b0: u8, b1: u8, b2: u8, b3: u8) -> u32 {
    (b0 as u32) << 24 | (b1 as u32) << 16 | (b2 as u32) << 8 | (b3 as u32)
}

/// The 20 header bytes in wire order: type/version, extension, then each
/// multi-byte field big-endian.
pub open spec fn spec_header_bytes(h: UtpPacketHeader) -> Seq<u8> {
    seq![
        h.type_ver,
        h.extension,
        (h.connection_id >> 8) as u8,
        h.connection_id as u8,
        (h.timestamp_microseconds >> 24) as u8,
        (h.timestamp_microseconds >> 16) as u8,
        (h.timestamp_microseconds >> 8) as u8,
        h.timestamp_microseconds as u8,
        (h.timestamp_difference_microseconds >> 24) as u8,
        (h.timestamp_difference_microseconds >> 16) as u8,
        (h.timestamp_difference_microseconds >> 8) as u8,
        h.timestamp_difference_microseconds as u8,
        (h.wnd_size >> 24) as u8,
        (h.wnd_size >> 16) as u8,
        (h.wnd_size >> 8) as u8,
        h.wnd_size as u8,
        (h.seq_nr >> 8) as u8,
        h.seq_nr as u8,
        (h.ack_nr >> 8) as u8,
        h.ack_nr as u8,
    ]
}

/// A whole packet on the wire: header bytes followed by the payload.
pub open spec fn spec_packet_bytes(h: UtpPacketHeader, payload: Seq<u8>) -> Seq<u8> {
    spec_header_bytes(h) + payload
}

/// The header a 20-byte-or-longer buffer decodes to, field by fixed offset.
pub open spec fn spec_decode_header(b: Seq<u8>) -> UtpPacketHeader
    recommends
        b.len() >= HEADER_SIZE,
{
    UtpPacketHeader {
        type_ver: b[0],
        extension: b[1],
        connection_id: spec_u16_from_bytes(b[2], b[3]),
        timestamp_microseconds: spec_u32_from_bytes(b[4], b[5], b[6], b[7]),
        timestamp_difference_microseconds: spec_u32_from_bytes(b[8], b[9], b[10], b[11]),
        wnd_size: spec_u32_from_bytes(b[12], b[13], b[14], b[15]),
        seq_nr: spec_u16_from_bytes(b[16], b[17]),
        ack_nr: spec_u16_from_bytes(b[18], b[19]),
    }
}

impl UtpPacketHeader {
    /// Serialises the header into its 20 wire bytes.
    pub fn bytes(&self) -> (r: Vec<u8>)
        ensures
            r@ == spec_header_bytes(*self),
    {
        let mut buf: Vec<u8> = Vec::with_capacity(HEADER_SIZE);
        buf.push(self.type_ver);
        buf.push(self.extension);
        buf.push(#[verifier::truncate] ((self.connection_id >> 8) as u8));
        buf.push(#[verifier::truncate] (self.connection_id as u8));
        buf.push(#[verifier::truncate] ((self.timestamp_microseconds >> 24) as u8));
        buf.push(#[verifier::truncate] ((self.timestamp_microseconds >> 16) as u8));
        buf.push(#[verifier::truncate] ((self.timestamp_microseconds >> 8) as u8));
        buf.push(#[verifier::truncate] (self.timestamp_microseconds as u8));
        buf.push(#[verifier::truncate] ((self.timestamp_difference_microseconds >> 24) as u8));
        buf.push(#[verifier::truncate] ((self.timestamp_difference_microseconds >> 16) as u8));
        buf.push(#[verifier::truncate] ((self.timestamp_difference_microseconds >> 8) as u8));
        buf.push(#[verifier::truncate] (self.timestamp_difference_microseconds as u8));
        buf.push(#[verifier::truncate] ((self.wnd_size >> 24) as u8));
        buf.push(#[verifier::truncate] ((self.wnd_size >> 16) as u8));
        buf.push(#[verifier::truncate] ((self.wnd_size >> 8) as u8));
        buf.push(#[verifier::truncate] (self.wnd_size as u8));
        buf.push(#[verifier::truncate] ((self.seq_nr >> 8) as u8));
        buf.push(#[verifier::truncate] (self.seq_nr as u8));
        buf.push(#[verifier::truncate] ((self.ack_nr >> 8) as u8));
        buf.push(#[verifier::truncate] (self.ack_nr as u8));
        proof {
            assert(buf@ =~= spec_header_bytes(*self));
        }
        buf
    }

    /// Length of the serialised header.
    pub fn len(&self) -> (r: usize)
        ensures
            r == spec_header_bytes(*self).len(),
    {
        HEADER_SIZE
    }
}

/// Error raised by the codec.
#[derive(Clone, Copy, PartialEq, Eq, Structural, Debug)]
pub enum DecodeError {
    /// The buffer is shorter than the fixed header size.
    MalformedPacket,
}

/// A packet: the fixed header followed by opaque payload bytes.
#[derive(Clone, Debug)]
pub struct UtpPacket {
    /// The fixed 20-byte header.
    pub header: UtpPacketHeader,
    /// The payload; its length on the wire is the datagram length minus the
    /// header length.
    pub payload: Vec<u8>,
}

/// The header `h` with its type nibble replaced by `t`'s code and its
/// version nibble kept.
pub open spec fn spec_with_type(h: UtpPacketHeader, t: UtpPacketType) -> UtpPacketHeader {
    UtpPacketHeader { type_ver: spec_type_code(t) << 4 | h.type_ver & 0x0F, ..h }
}

impl UtpPacket {
    /// Constructs a new, empty packet: DATA type, version 1, every other
    /// field zero.
    pub fn new() -> (r: UtpPacket)
        ensures
            r.header == (UtpPacketHeader {
                type_ver: spec_type_code(UtpPacketType::Data) << 4 | 1,
                extension: 0,
                connection_id: 0,
                timestamp_microseconds: 0,
                timestamp_difference_microseconds: 0,
                wnd_size: 0,
                seq_nr: 0,
                ack_nr: 0,
            }),
            r.payload@ == Seq::<u8>::empty(),
    {
        let tv: u8 = type_code(UtpPacketType::Data) << 4 | 1;
        proof {
            assert(0u8 << 4 | 1 == 1) by (bit_vector);
        }
        UtpPacket {
            header: UtpPacketHeader {
                type_ver: tv,
                extension: 0,
                connection_id: 0,
                timestamp_microseconds: 0,
                timestamp_difference_microseconds: 0,
                wnd_size: 0,
                seq_nr: 0,
                ack_nr: 0,
            },
            payload: Vec::new(),
        }
    }

    /// Replaces the packet's type nibble, keeping the version nibble.
    pub fn set_type(&mut self, t: UtpPacketType)
        ensures
            final(self).header == spec_with_type(old(self).header, t),
            final(self).payload@ == old(self).payload@,
    {
        let version: u8 = self.header.type_ver & 0x0F;
        self.header.type_ver = type_code(t) << 4 | version;
    }

    /// Serialises the whole packet: header bytes followed by the payload.
    pub fn bytes(&self) -> (r: Vec<u8>)
        ensures
            r@ == spec_packet_bytes(self.header, self.payload@),
    {
        let mut buf = self.header.bytes();
        let mut i: usize = 0;
        while i < self.payload.len()
            invariant
                i <= self.payload@.len(),
                buf@ == spec_header_bytes(self.header) + self.payload@.take(i as int),
            decreases self.payload@.len() - i,
        {
            buf.push(self.payload[i]);
            proof {
                assert(self.payload@.take(i + 1) =~= self.payload@.take(i as int).push(
                    self.payload@[i as int],
                ));
            }
            i = i + 1;
        }
        proof {
            assert(self.payload@.take(self.payload@.len() as int) =~= self.payload@);
        }
        buf
    }

    /// Total serialised length: header plus payload.
    pub fn len(&self) -> (r: usize)
        requires
            self.payload@.len() + HEADER_SIZE <= usize::MAX,
        ensures
            r == spec_packet_bytes(self.header, self.payload@).len(),
    {
        self.header.len() + self.payload.len()
    }
}

/// Reads the big-endian 16-bit field at offset `at`.
fn read_u16(buf: &[u8], at: usize) -> (r: u16)
    requires
        at + 2 <= buf@.len(),
    ensures
        r == spec_u16_from_bytes(buf@[at as int], buf@[at + 1]),
{
    (buf[at] as u16) << 8 | (buf[at + 1] as u16)
}

/// Reads the big-endian 32-bit field at offset `at`.
fn read_u32(buf: &[u8], at: usize) -> (r: u32)
    requires
        at + 4 <= buf@.len(),
    ensures
        r == spec_u32_from_bytes(buf@[at as int], buf@[at + 1], buf@[at + 2], buf@[at + 3]),
{
    (buf[at] as u32) << 24 | (buf[at + 1] as u32) << 16 | (buf[at + 2] as u32) << 8 | (buf[at
        + 3] as u32)
}

/// Parses a received buffer: fails with MalformedPacket exactly when the
/// buffer is shorter than the fixed header size; otherwise reads each header
/// field by its fixed offset and takes the remaining bytes as the payload.
pub fn decode(buf: &[u8]) -> (r: Result<UtpPacket, DecodeError>)
    ensures
        r is Err <==> buf@.len() < HEADER_SIZE,
        r is Err ==> r->Err_0 == DecodeError::MalformedPacket,
        r is Ok ==> r->Ok_0.header == spec_decode_header(buf@),
        r is Ok ==> r->Ok_0.payload@ == buf@.skip(HEADER_SIZE as int),
{
    if buf.len() < HEADER_SIZE {
        return Err(DecodeError::MalformedPacket);
    }
    let header = UtpPacketHeader {
        type_ver: buf[0],
        extension: buf[1],
        connection_id: read_u16(buf, 2),
        timestamp_microseconds: read_u32(buf, 4),
        timestamp_difference_microseconds: read_u32(buf, 8),
        wnd_size: read_u32(buf, 12),
        seq_nr: read_u16(buf, 16),
        ack_nr: read_u16(buf, 18),
    };
    let mut payload: Vec<u8> = Vec::new();
    let mut i: usize = HEADER_SIZE;
    while i < buf.len()
        invariant
            HEADER_SIZE <= i <= buf@.len(),
            payload@ == buf@.subrange(HEADER_SIZE as int, i as int),
        decreases buf@.len() - i,
    {
        payload.push(buf[i]);
        proof {
            assert(buf@.subrange(HEADER_SIZE as int, i + 1) =~= buf@.subrange(
                HEADER_SIZE as int,
                i as int,
            ).push(buf@[i as int]));
        }
        i = i + 1;
    }
    proof {
        assert(buf@.subrange(HEADER_SIZE as int, buf@.len() as int) =~= buf@.skip(
            HEADER_SIZE as int,
        ));
    }
    Ok(UtpPacket { header, payload })
}

/// Law: round trip through the 16-bit byte split.
proof fn lemma_u16_roundtrip(x: u16)
    ensures
        spec_u16_from_bytes((x >> 8) as u8, x as u8) == x,
{
    assert((((x >> 8) as u8) as u16) << 8 | ((x as u8) as u16) == x) by (bit_vector);
}

/// Law: round trip through the 32-bit byte split.
proof fn lemma_u32_roundtrip(x: u32)
    ensures
        spec_u32_from_bytes((x >> 24) as u8, (x >> 16) as u8, (x >> 8) as u8, x as u8) == x,
{
    assert((((x >> 24) as u8) as u32) << 24 | (((x >> 16) as u8) as u32) << 16 | (((x
        >> 8) as u8) as u32) << 8 | ((x as u8) as u32) == x) by (bit_vector);
}

/// Law: the byte split restores both halves of a 16-bit value.
proof fn lemma_u16_split(hi: u8, lo: u8)
    ensures
        (spec_u16_from_bytes(hi, lo) >> 8) as u8 == hi,
        spec_u16_from_bytes(hi, lo) as u8 == lo,
{
    assert(((((hi as u16) << 8 | (lo as u16)) >> 8) as u8) == hi) by (bit_vector);
    assert((((hi as u16) << 8 | (lo as u16)) as u8) == lo) by (bit_vector);
}

/// Law: the byte split restores all four bytes of a 32-bit value.
proof fn lemma_u32_split(b0: u8, b1: u8, b2: u8, b3: u8)
    ensures
        (spec_u32_from_bytes(b0, b1, b2, b3) >> 24) as u8 == b0,
        (spec_u32_from_bytes(b0, b1, b2, b3) >> 16) as u8 == b1,
        (spec_u32_from_bytes(b0, b1, b2, b3) >> 8) as u8 == b2,
        spec_u32_from_bytes(b0, b1, b2, b3) as u8 == b3,
{
    assert((((b0 as u32) << 24 | (b1 as u32) << 16 | (b2 as u32) << 8 | (b3 as u32)) >> 24) as u8
        == b0) by (bit_vector);
    assert((((b0 as u32) << 24 | (b1 as u32) << 16 | (b2 as u32) << 8 | (b3 as u32)) >> 16) as u8
        == b1) by (bit_vector);
    assert((((b0 as u32) << 24 | (b1 as u32) << 16 | (b2 as u32) << 8 | (b3 as u32)) >> 8) as u8
        == b2) by (bit_vector);
    assert((((b0 as u32) << 24 | (b1 as u32) << 16 | (b2 as u32) << 8 | (b3 as u32)) as u8) == b3)
        by (bit_vector);
}

/// Law (codec round trip, wire side): re-encoding a decoded buffer restores
/// it byte for byte, so the codec is a bijection between buffers of at least
/// header size and header/payload pairs.
pub proof fn lemma_decode_encode(b: Seq<u8>)
    requires
        b.len() >= HEADER_SIZE,
    ensures
        spec_packet_bytes(spec_decode_header(b), b.skip(HEADER_SIZE as int)) == b,
{
    let h = spec_decode_header(b);
    lemma_u16_split(b[2], b[3]);
    lemma_u32_split(b[4], b[5], b[6], b[7]);
    lemma_u32_split(b[8], b[9], b[10], b[11]);
    lemma_u32_split(b[12], b[13], b[14], b[15]);
    lemma_u16_split(b[16], b[17]);
    lemma_u16_split(b[18], b[19]);
    assert(spec_packet_bytes(h, b.skip(HEADER_SIZE as int)) =~= b);
}

/// Law (codec round trip): decoding an encoded packet yields the original
/// header and payload, field for field, for every header and payload.
pub proof fn lemma_codec_roundtrip(h: UtpPacketHeader, payload: Seq<u8>)
    ensures
        spec_packet_bytes(h, payload).len() == HEADER_SIZE + payload.len(),
        spec_decode_header(spec_packet_bytes(h, payload)) == h,
        spec_packet_bytes(h, payload).skip(HEADER_SIZE as int) == payload,
{
    let b = spec_packet_bytes(h, payload);
    lemma_u16_roundtrip(h.connection_id);
    lemma_u32_roundtrip(h.timestamp_microseconds);
    lemma_u32_roundtrip(h.timestamp_difference_microseconds);
    lemma_u32_roundtrip(h.wnd_size);
    lemma_u16_roundtrip(h.seq_nr);
    lemma_u16_roundtrip(h.ack_nr);
    assert(spec_decode_header(b) == h);
    assert(b.skip(HEADER_SIZE as int) =~= payload);
}

} // verus!
