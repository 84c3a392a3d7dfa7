use vstd::prelude::*;

use crate::packet::{
    spec_packet_bytes, spec_type_code, spec_u32_from_bytes, UtpPacket, UtpPacketHeader,
    UtpPacketType, HEADER_SIZE,
};
use crate::util::now_microseconds;

verus! {

/// An IPv4 endpoint held as plain values: the address packed big-endian into
/// 32 bits, and the port.
#[derive(Clone, Copy, PartialEq, Eq, Structural, Debug)]
pub struct Addr {
    /// The four address octets, packed big-endian.
    pub ip: u32,
    /// The UDP port.
    pub port: u16,
}

impl Addr {
    /// Endpoint from dotted-quad octets and a port.
    pub fn new(a: u8, b: u8, c: u8, d: u8, port: u16) -> (r: Addr)
        ensures
            r.ip == spec_u32_from_bytes(a, b, c, d),
            r.port == port,
    {
        Addr { ip: (a as u32) << 24 | (b as u32) << 16 | (c as u32) << 8 | (d as u32), port }
    }
}

/// The logical identity of a bound UDP endpoint. The operating-system socket
/// itself is I/O and stays with the surrounding program, which constructs
/// this value with the address it bound.
#[derive(Clone, Copy, PartialEq, Eq, Structural, Debug)]
pub struct UtpSocket {
    /// The locally bound endpoint.
    pub local: Addr,
}

/// Sequence numbers advance by exactly one per packet sent and wrap modulo
/// 65536.
pub open spec fn spec_next_seq_nr(s: u16) -> u16 {
    if s == 0xFFFF {
        0
    } else {
        (s + 1) as u16
    }
}

/// The header of a SYN packet as `connect` builds it: type SYN, version 1,
/// the stream's connection id and sequence number, stamped with clock
/// reading `t`.
pub open spec fn spec_syn_header(connection_id: u16, seq_nr: u16, t: u32) -> UtpPacketHeader {
    UtpPacketHeader {
        type_ver: spec_type_code(UtpPacketType::Syn) << 4 | 1,
        extension: 0,
        connection_id: connection_id,
        timestamp_microseconds: t,
        timestamp_difference_microseconds: 0,
        wnd_size: 0,
        seq_nr: seq_nr,
        ack_nr: 0,
    }
}

/// The header of a DATA packet as `write` builds it: type DATA, version 1,
/// the stream's connection id and sequence number, stamped with clock
/// reading `t`.
pub open spec fn spec_data_header(connection_id: u16, seq_nr: u16, t: u32) -> UtpPacketHeader {
    UtpPacketHeader {
        type_ver: spec_type_code(UtpPacketType::Data) << 4 | 1,
        extension: 0,
        connection_id: connection_id,
        timestamp_microseconds: t,
        timestamp_difference_microseconds: 0,
        wnd_size: 0,
        seq_nr: seq_nr,
        ack_nr: 0,
    }
}

/// A logical connection over a shared UDP endpoint: the socket identity, the
/// remote peer, and the sequencing counters.
#[derive(Clone, Copy, PartialEq, Eq, Structural, Debug)]
pub struct UtpStream {
    /// Identity of the underlying bound endpoint.
    pub socket: UtpSocket,
    /// The remote peer this stream is bound to.
    pub connected_to: Addr,
    /// Discriminator for demultiplexing datagrams on the shared socket.
    pub connection_id: u16,
    /// The next sequence number to assign on send.
    pub seq_nr: u16,
    /// The last sequence number received from the peer.
    pub ack_nr: u16,
}

/// Relies on rand::random: a 16-bit value drawn from the thread-local
/// generator; nothing can be promised of it.
#[verifier::external_body]
fn random_u16() -> u16 {
    rand::random()
}

impl UtpStream {
    /// A fresh stream over `socket` bound to the remote peer `conn`, with a
    /// pseudo-randomly drawn connection id; sequencing starts at 1.
    pub fn new(socket: UtpSocket, conn: Addr) -> (r: UtpStream)
        ensures
            r.socket == socket,
            r.connected_to == conn,
            r.seq_nr == 1u16,
            r.ack_nr == 0u16,
    {
        UtpStream {
            socket,
            connected_to: conn,
            connection_id: random_u16(),
            seq_nr: 1,
            ack_nr: 0,
        }
    }

    /// Builds this stream's SYN packet, stamps it with the current clock,
    /// and advances the sequence number; the caller transmits the returned
    /// datagram to the peer.
    pub fn connect(self) -> (r: (UtpStream, Vec<u8>))
        ensures
            r.0 == (UtpStream { seq_nr: spec_next_seq_nr(self.seq_nr), ..self }),
            exists|t: u32|
                r.1@ == spec_packet_bytes(
                    spec_syn_header(self.connection_id, self.seq_nr, t),
                    Seq::<u8>::empty(),
                ),
    {
        let mut packet = UtpPacket::new();
        packet.set_type(UtpPacketType::Syn);
        packet.header.connection_id = self.connection_id;
        packet.header.seq_nr = self.seq_nr;
        let t: u32 = now_microseconds();
        packet.header.timestamp_microseconds = t;
        let dgram = packet.bytes();
        proof {
            assert((0u8 << 4 | 1) & 0x0F == 1u8) by (bit_vector);
            assert(packet.header == spec_syn_header(self.connection_id, self.seq_nr, t));
        }
        let next = UtpStream { seq_nr: self.seq_nr.wrapping_add(1), ..self };
        (next, dgram)
    }

    /// Packages `buf` as a single DATA packet, stamps it with the current
    /// clock, and advances the sequence number with wraparound; the caller
    /// transmits the returned datagram to the connected peer. Delivery is
    /// best-effort: no acknowledgment is awaited here.
    pub fn write(&mut self, buf: &[u8]) -> (dgram: Vec<u8>)
        ensures
            *final(self) == (UtpStream { seq_nr: spec_next_seq_nr(old(self).seq_nr), ..*old(self) }),
            exists|t: u32|
                dgram@ == spec_packet_bytes(
                    spec_data_header(old(self).connection_id, old(self).seq_nr, t),
                    buf@,
                ),
    {
        let mut packet = UtpPacket::new();
        packet.payload = slice_to_vec(buf);
        packet.header.connection_id = self.connection_id;
        packet.header.seq_nr = self.seq_nr;
        let t: u32 = now_microseconds();
        packet.header.timestamp_microseconds = t;
        let dgram = packet.bytes();
        proof {
            assert(packet.header == spec_data_header(self.connection_id, self.seq_nr, t));
        }
        self.seq_nr = self.seq_nr.wrapping_add(1);
        dgram
    }

    /// Decides the outcome of a read, given a whole datagram of `nread`
    /// bytes received from `src`: from the connected peer it yields the
    /// datagram's payload length — the bytes past the fixed header — and
    /// from any other source a zero-length read: foreign traffic is
    /// ignored, not an error. Datagrams shorter than a header are
    /// malformed; the receive loop drops them instead of asking here.
    pub fn filter_read(&self, nread: usize, src: Addr) -> (r: usize)
        requires
            nread >= HEADER_SIZE,
        ensures
            r == (if src == self.connected_to {
                nread - HEADER_SIZE
            } else {
                0
            }),
    {
        if src == self.connected_to {
            nread - HEADER_SIZE
        } else {
            0
        }
    }

    /// Releases this stream's view of the endpoint and hands the socket
    /// identity back for reuse.
    pub fn disconnect(self) -> (r: UtpSocket)
        ensures
            r == self.socket,
    {
        self.socket
    }
}

impl UtpSocket {
    /// Active open: makes a stream bound to the remote peer `other` and the
    /// SYN datagram that initiates the connection; the caller transmits the
    /// datagram. The new stream's next sequence number is 2: the SYN
    /// consumed 1.
    pub fn connect(self, other: Addr) -> (r: (UtpStream, Vec<u8>))
        ensures
            r.0.socket == self,
            r.0.connected_to == other,
            r.0.seq_nr == 2u16,
            r.0.ack_nr == 0u16,
            exists|t: u32|
                r.1@ == spec_packet_bytes(
                    spec_syn_header(r.0.connection_id, 1u16, t),
                    Seq::<u8>::empty(),
                ),
    {
        let stream = UtpStream::new(self, other);
        let ghost cid = stream.connection_id;
        let r = stream.connect();
        proof {
            let t = choose|t: u32|
                r.1@ == spec_packet_bytes(spec_syn_header(cid, 1u16, t), Seq::<u8>::empty());
            assert(r.1@ == spec_packet_bytes(
                spec_syn_header(r.0.connection_id, 1u16, t),
                Seq::<u8>::empty(),
            ));
        }
        r
    }
}

/// Copies a byte slice into a fresh vector.
fn slice_to_vec(buf: &[u8]) -> (r: Vec<u8>)
    ensures
        r@ == buf@,
{
    let mut v: Vec<u8> = Vec::with_capacity(buf.len());
    let mut i: usize = 0;
    while i < buf.len()
        invariant
            i <= buf@.len(),
            v@ == buf@.take(i as int),
        decreases buf@.len() - i,
    {
        v.push(buf[i]);
        proof {
            assert(buf@.take(i + 1) =~= buf@.take(i as int).push(buf@[i as int]));
        }
        i = i + 1;
    }
    proof {
        assert(buf@.take(buf@.len() as int) =~= buf@);
    }
    v
}

} // verus!
