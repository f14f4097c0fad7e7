//! Art-Net wire protocol: a total decoder for inbound datagrams and exact
//! encoders for the outbound packets this system produces.
//!
//! Every packet begins with the 8-byte identifier `"Art-Net\0"`, a 16-bit
//! little-endian operation code, and (for the packet kinds handled here) a
//! 16-bit big-endian protocol revision that must be at most 14. A pixel-data
//! packet carries a sequence byte, a physical-port byte, the 15-bit port
//! address as a little-endian word (low byte: sub-net and universe nibbles;
//! high byte: net, top bit unused), a big-endian payload length, and that many
//! bytes of RGB data. The decoder never panics and never reads past the
//! supplied length: every malformed input yields a `DecodeError`.

use vstd::prelude::*;
use vstd::slice::{slice_subrange, slice_to_vec};

verus! {

/// The UDP port Art-Net uses, 0x1936.
pub const ARTNET_PORT: u16 = 0x1936;

/// A decoded inbound packet.
#[derive(Debug, PartialEq, Eq)]
pub enum ArtMessage {
    /// A DMX pixel-data frame addressed to one universe.
    PixelData { sequence: u8, physical: u8, port_address: u16, data: Vec<u8> },
    /// A discovery poll; the node answers with its identity.
    DiscoveryPoll { flags: u8, min_priority: u8 },
    /// A vendor command; decoded but not acted upon.
    VendorCommand { esta_lo: u8, esta_hi: u8, data: Vec<u8> },
    /// A synchronisation marker; decoded but not acted upon.
    Sync,
}

/// Why a datagram was rejected.
#[derive(Debug, Clone, Copy, PartialEq, Eq, Structural)]
pub enum DecodeError {
    /// The 8-byte `"Art-Net\0"` identifier is absent.
    NotArtNet,
    /// The identifier is present but the packet stops short of a complete
    /// header or of its declared payload.
    Truncated,
    /// The protocol revision field is above 14.
    UnsupportedProtocolVersion,
    /// The operation code is not one this node handles.
    UnsupportedOpCode,
}

/// The `"Art-Net\0"` identifier opens the packet.
pub open spec fn spec_id_ok(b: Seq<u8>) -> bool {
    &&& b.len() >= 8
    &&& b[0] == 0x41u8
    &&& b[1] == 0x72u8
    &&& b[2] == 0x74u8
    &&& b[3] == 0x2du8
    &&& b[4] == 0x4eu8
    &&& b[5] == 0x65u8
    &&& b[6] == 0x74u8
    &&& b[7] == 0x00u8
}

/// The operation code, a little-endian word at offset 8.
pub open spec fn spec_opcode(b: Seq<u8>) -> int
    recommends
        b.len() >= 10,
{
    b[8] + 256 * b[9]
}

/// The protocol revision, a big-endian word at offset 10.
pub open spec fn spec_protocol_version(b: Seq<u8>) -> int
    recommends
        b.len() >= 12,
{
    256 * b[10] + b[11]
}

/// Identifier present, header complete, protocol revision accepted.
pub open spec fn spec_header_ok(b: Seq<u8>) -> bool {
    &&& spec_id_ok(b)
    &&& b.len() >= 12
    &&& spec_protocol_version(b) <= 14
}

/// The declared payload length of a pixel-data packet (big-endian, offset 16).
pub open spec fn spec_dmx_len(b: Seq<u8>) -> int
    recommends
        b.len() >= 18,
{
    256 * b[16] + b[17]
}

/// The 15-bit port address of a pixel-data packet: the net byte (top bit
/// discarded) in the high bits, then sub-net and universe nibbles.
pub open spec fn spec_port_address(b: Seq<u8>) -> int
    recommends
        b.len() >= 16,
{
    256 * (b[15] % 128) + b[14]
}

/// The declared payload length of a vendor command (little-endian, offset 14).
pub open spec fn spec_cmd_len(b: Seq<u8>) -> int
    recommends
        b.len() >= 16,
{
    b[14] + 256 * b[15]
}

/// A complete pixel-data packet.
pub open spec fn spec_valid_dmx(b: Seq<u8>) -> bool {
    &&& spec_header_ok(b)
    &&& spec_opcode(b) == 0x5000
    &&& b.len() >= 18
    &&& b.len() >= 18 + spec_dmx_len(b)
}

/// A complete discovery poll: flags and priority, then either nothing or a
/// full four-byte target-address range.
pub open spec fn spec_valid_poll(b: Seq<u8>) -> bool {
    &&& spec_header_ok(b)
    &&& spec_opcode(b) == 0x2000
    &&& (b.len() == 14 || b.len() >= 18)
}

/// A complete vendor command.
pub open spec fn spec_valid_command(b: Seq<u8>) -> bool {
    &&& spec_header_ok(b)
    &&& spec_opcode(b) == 0x2400
    &&& b.len() >= 16
    &&& b.len() >= 16 + spec_cmd_len(b)
}

/// A complete synchronisation packet: two auxiliary bytes follow the header.
pub open spec fn spec_valid_sync(b: Seq<u8>) -> bool {
    &&& spec_header_ok(b)
    &&& spec_opcode(b) == 0x5200
    &&& b.len() >= 14
}

/// Exactly the byte sequences the decoder accepts.
pub open spec fn spec_valid_packet(b: Seq<u8>) -> bool {
    ||| spec_valid_dmx(b)
    ||| spec_valid_poll(b)
    ||| spec_valid_command(b)
    ||| spec_valid_sync(b)
}

/// Decode one datagram. Total: every input that is not a complete packet of a
/// handled kind yields the error the clauses below pin down, and the function
/// never reads past `buf`'s length.
pub fn decode(buf: &[u8]) -> (r: Result<ArtMessage, DecodeError>)
    ensures
        r is Ok <==> spec_valid_packet(buf@),
        spec_valid_dmx(buf@) ==> (r matches Ok(ArtMessage::PixelData {
            sequence,
            physical,
            port_address,
            data,
        }) && sequence == buf@[12] && physical == buf@[13] && port_address == spec_port_address(
            buf@,
        ) && data@ == buf@.subrange(18, 18 + spec_dmx_len(buf@))),
        spec_valid_poll(buf@) ==> (r matches Ok(ArtMessage::DiscoveryPoll { flags, min_priority })
            && flags == buf@[12] && min_priority == buf@[13]),
        spec_valid_command(buf@) ==> (r matches Ok(ArtMessage::VendorCommand {
            esta_lo,
            esta_hi,
            data,
        }) && esta_lo == buf@[12] && esta_hi == buf@[13] && data@ == buf@.subrange(
            16,
            16 + spec_cmd_len(buf@),
        )),
        spec_valid_sync(buf@) ==> r == Ok::<ArtMessage, DecodeError>(ArtMessage::Sync),
        !spec_id_ok(buf@) ==> r == Err::<ArtMessage, DecodeError>(DecodeError::NotArtNet),
        spec_id_ok(buf@) && buf@.len() < 12 ==> r == Err::<ArtMessage, DecodeError>(
            DecodeError::Truncated,
        ),
        spec_id_ok(buf@) && buf@.len() >= 12 && spec_protocol_version(buf@) > 14 ==> r == Err::<
            ArtMessage,
            DecodeError,
        >(DecodeError::UnsupportedProtocolVersion),
        spec_header_ok(buf@) && !(spec_opcode(buf@) == 0x5000 || spec_opcode(buf@) == 0x2000
            || spec_opcode(buf@) == 0x2400 || spec_opcode(buf@) == 0x5200) ==> r == Err::<
            ArtMessage,
            DecodeError,
        >(DecodeError::UnsupportedOpCode),
        spec_header_ok(buf@) && (spec_opcode(buf@) == 0x5000 || spec_opcode(buf@) == 0x2000
            || spec_opcode(buf@) == 0x2400 || spec_opcode(buf@) == 0x5200) && !spec_valid_packet(
            buf@,
        ) ==> r == Err::<ArtMessage, DecodeError>(DecodeError::Truncated),
{
    let n = buf.len();
    if n < 8 {
        return Err(DecodeError::NotArtNet);
    }
    if !(buf[0] == 0x41 && buf[1] == 0x72 && buf[2] == 0x74 && buf[3] == 0x2d && buf[4] == 0x4e
        && buf[5] == 0x65 && buf[6] == 0x74 && buf[7] == 0x00) {
        return Err(DecodeError::NotArtNet);
    }
    if n < 12 {
        return Err(DecodeError::Truncated);
    }
    let protocol_version: u16 = (buf[10] as u16) * 256 + (buf[11] as u16);
    if protocol_version > 14 {
        return Err(DecodeError::UnsupportedProtocolVersion);
    }
    let opcode: u16 = (buf[8] as u16) + (buf[9] as u16) * 256;
    if opcode == 0x5000 {
        if n < 18 {
            return Err(DecodeError::Truncated);
        }
        let dmx_len: usize = (buf[16] as usize) * 256 + (buf[17] as usize);
        if n - 18 < dmx_len {
            return Err(DecodeError::Truncated);
        }
        let data = slice_to_vec(slice_subrange(buf, 18, 18 + dmx_len));
        let port_address: u16 = ((buf[15] % 128) as u16) * 256 + (buf[14] as u16);
        Ok(ArtMessage::PixelData { sequence: buf[12], physical: buf[13], port_address, data })
    } else if opcode == 0x2000 {
        if n < 14 {
            return Err(DecodeError::Truncated);
        }
        if n != 14 && n < 18 {
            return Err(DecodeError::Truncated);
        }
        Ok(ArtMessage::DiscoveryPoll { flags: buf[12], min_priority: buf[13] })
    } else if opcode == 0x2400 {
        if n < 16 {
            return Err(DecodeError::Truncated);
        }
        let cmd_len: usize = (buf[14] as usize) + (buf[15] as usize) * 256;
        if n - 16 < cmd_len {
            return Err(DecodeError::Truncated);
        }
        let data = slice_to_vec(slice_subrange(buf, 16, 16 + cmd_len));
        Ok(ArtMessage::VendorCommand { esta_lo: buf[12], esta_hi: buf[13], data })
    } else if opcode == 0x5200 {
        if n < 14 {
            return Err(DecodeError::Truncated);
        }
        Ok(ArtMessage::Sync)
    } else {
        Err(DecodeError::UnsupportedOpCode)
    }
}

/// The 8 identifier bytes, `"Art-Net\0"`.
pub open spec fn spec_artnet_id() -> Seq<u8> {
    seq![0x41u8, 0x72u8, 0x74u8, 0x2du8, 0x4eu8, 0x65u8, 0x74u8, 0x00u8]
}

/// `n` zero bytes.
pub open spec fn spec_zero_bytes(n: int) -> Seq<u8> {
    Seq::new(n as nat, |i: int| 0u8)
}

/// Append one byte.
fn push1(v: &mut Vec<u8>, a: u8)
    ensures
        final(v)@ == old(v)@ + seq![a],
{
    v.push(a);
    assert(v@ =~= old(v)@ + seq![a]);
}

/// Append two bytes.
fn push2(v: &mut Vec<u8>, a: u8, b: u8)
    ensures
        final(v)@ == old(v)@ + seq![a, b],
{
    v.push(a);
    v.push(b);
    assert(v@ =~= old(v)@ + seq![a, b]);
}

/// Append three bytes.
fn push3(v: &mut Vec<u8>, a: u8, b: u8, c: u8)
    ensures
        final(v)@ == old(v)@ + seq![a, b, c],
{
    v.push(a);
    v.push(b);
    v.push(c);
    assert(v@ =~= old(v)@ + seq![a, b, c]);
}

/// Append the packet identifier.
fn push_id(v: &mut Vec<u8>)
    ensures
        final(v)@ == old(v)@ + spec_artnet_id(),
{
    v.push(0x41);
    v.push(0x72);
    v.push(0x74);
    v.push(0x2d);
    v.push(0x4e);
    v.push(0x65);
    v.push(0x74);
    v.push(0x00);
    assert(v@ =~= old(v)@ + spec_artnet_id());
}

/// Append a whole slice.
fn push_all(v: &mut Vec<u8>, s: &[u8])
    ensures
        final(v)@ == old(v)@ + s@,
{
    let ghost start = v@;
    let mut i: usize = 0;
    assert(v@ =~= start + s@.subrange(0, 0));
    while i < s.len()
        invariant
            i <= s@.len(),
            v@ == start + s@.subrange(0, i as int),
        decreases s@.len() - i,
    {
        v.push(s[i]);
        assert(v@ =~= start + s@.subrange(0, i + 1));
        i += 1;
    }
    assert(v@ =~= start + s@);
}

/// Append `n` zero bytes.
fn push_zeros(v: &mut Vec<u8>, n: usize)
    ensures
        final(v)@ == old(v)@ + spec_zero_bytes(n as int),
{
    let ghost start = v@;
    let mut i: usize = 0;
    assert(v@ =~= start + spec_zero_bytes(0));
    while i < n
        invariant
            i <= n,
            v@ == start + spec_zero_bytes(i as int),
        decreases n - i,
    {
        v.push(0);
        assert(v@ =~= start + spec_zero_bytes(i + 1));
        i += 1;
    }
}

/// Payload length after padding to an even number of bytes.
pub open spec fn spec_padded_len(l: int) -> int {
    if l % 2 == 0 {
        l
    } else {
        l + 1
    }
}

/// The payload after padding to an even number of bytes.
pub open spec fn spec_padded(data: Seq<u8>) -> Seq<u8> {
    if data.len() % 2 == 0 {
        data
    } else {
        data.push(0u8)
    }
}

/// The exact bytes of a pixel-data packet: identifier, pixel-data operation
/// code, protocol revision 14, the sequence byte, a zero physical-port byte,
/// the port address as a little-endian word, the payload length (padded to
/// even, big-endian), then the padded payload.
pub open spec fn spec_pixel_data_bytes(port: int, sequence: u8, data: Seq<u8>) -> Seq<u8> {
    spec_artnet_id()  // identifier
     + seq![0x00u8, 0x50u8]  // pixel-data operation code, little-endian
     + seq![0x00u8, 14u8]  // protocol revision, big-endian
     + seq![sequence, 0x00u8]  // sequence, physical port
     + seq![(port % 256) as u8, (port / 256) as u8]  // port address, little-endian
     + seq![
        (spec_padded_len(data.len() as int) / 256) as u8,
        (spec_padded_len(data.len() as int) % 256) as u8,
    ]  // payload length, big-endian
     + spec_padded(data)
}

/// The layout facts of an encoded pixel-data packet: it is a complete
/// pixel-data packet, and decoding it gives back the port address, the
/// sequence byte, and the padded payload.
pub proof fn lemma_pixel_data_layout(port: int, sequence: u8, data: Seq<u8>)
    requires
        0 <= port < 0x8000,
        1 <= data.len() <= 512,
    ensures
        spec_pixel_data_bytes(port, sequence, data).len() == 18 + spec_padded_len(
            data.len() as int,
        ),
        spec_valid_dmx(spec_pixel_data_bytes(port, sequence, data)),
        spec_port_address(spec_pixel_data_bytes(port, sequence, data)) == port,
        spec_pixel_data_bytes(port, sequence, data)[12] == sequence,
        spec_dmx_len(spec_pixel_data_bytes(port, sequence, data)) == spec_padded_len(
            data.len() as int,
        ),
        spec_pixel_data_bytes(port, sequence, data).subrange(
            18,
            18 + spec_dmx_len(spec_pixel_data_bytes(port, sequence, data)),
        ) == spec_padded(data),
{
    let b = spec_pixel_data_bytes(port, sequence, data);
    let pl = spec_padded_len(data.len() as int);
    assert(b.len() == 18 + pl);
    assert(spec_dmx_len(b) == 256 * ((pl / 256) as u8) + ((pl % 256) as u8));
    assert(spec_port_address(b) == port) by {
        assert(b[15] == (port / 256) as u8);
        assert(port / 256 < 128);
    };
    assert(b.subrange(18, 18 + spec_dmx_len(b)) =~= spec_padded(data));
}

/// Encode a pixel-data packet.
pub fn encode_pixel_data(port_address: u16, sequence: u8, data: &[u8]) -> (r: Vec<u8>)
    requires
        port_address < 0x8000,
        1 <= data@.len() <= 512,
    ensures
        r@ == spec_pixel_data_bytes(port_address as int, sequence, data@),
        spec_valid_dmx(r@),
        spec_port_address(r@) == port_address,
        spec_dmx_len(r@) == spec_padded_len(data@.len() as int),
        r@.subrange(18, 18 + spec_dmx_len(r@)) == spec_padded(data@),
{
    let len = data.len();
    let padded: usize = if len % 2 == 0 {
        len
    } else {
        len + 1
    };
    let mut v: Vec<u8> = Vec::new();
    push_id(&mut v);
    push2(&mut v, 0x00, 0x50);
    push2(&mut v, 0x00, 14);
    push2(&mut v, sequence, 0x00);
    push2(&mut v, (port_address % 256) as u8, (port_address / 256) as u8);
    push2(&mut v, (padded / 256) as u8, (padded % 256) as u8);
    push_all(&mut v, data);
    if len % 2 != 0 {
        push1(&mut v, 0x00);
    }
    proof {
        assert(v@ =~= spec_pixel_data_bytes(port_address as int, sequence, data@));
        lemma_pixel_data_layout(port_address as int, sequence, data@);
    }
    v
}

/// The discovery reply this node sends: identifier, reply operation code,
/// the node's IP address, the Art-Net UDP port as a little-endian word, an
/// indicator-state byte of 0xC0, the node's hardware address, and zeros in
/// every remaining field of the fixed 239-byte layout.
pub open spec fn spec_poll_reply_bytes(ip: Seq<u8>, mac: Seq<u8>) -> Seq<u8> {
    spec_artnet_id()  // identifier
     + seq![0x00u8, 0x21u8]  // reply operation code, little-endian
     + ip  // node IP address
     + seq![0x36u8, 0x19u8]  // UDP port 0x1936, little-endian
     + seq![0x00u8, 0x00u8]  // firmware version
     + seq![0x00u8, 0x00u8]  // net switch, sub switch
     + seq![0x00u8, 0x00u8]  // OEM word
     + seq![0x00u8]  // UBEA version
     + seq![0xC0u8]  // status: indicators in normal mode
     + seq![0x00u8, 0x00u8]  // ESTA manufacturer code
     + spec_zero_bytes(18)  // short name
     + spec_zero_bytes(64)  // long name
     + spec_zero_bytes(64)  // node report
     + seq![0x00u8, 0x00u8]  // port count
     + spec_zero_bytes(20)  // port types, input/output status, universe switches
     + seq![0x00u8, 0x00u8, 0x00u8]  // priority, macro, remote
     + spec_zero_bytes(3)  // spare
     + seq![0x00u8]  // style
     + mac  // hardware address
     + spec_zero_bytes(4)  // bind IP address
     + seq![0x00u8, 0x00u8]  // bind index, second status byte
     + spec_zero_bytes(4)  // second output status
     + seq![0x00u8]  // third status byte
     + spec_zero_bytes(6)  // responder identifier
     + spec_zero_bytes(15)  // filler
}

/// Encode the discovery reply for a node with the given addresses.
pub fn encode_poll_reply(ip: &[u8; 4], mac: &[u8; 6]) -> (r: Vec<u8>)
    ensures
        r@ == spec_poll_reply_bytes(ip@, mac@),
{
    let mut v: Vec<u8> = Vec::new();
    push_id(&mut v);
    push2(&mut v, 0x00, 0x21);
    push_all(&mut v, ip.as_slice());
    push2(&mut v, 0x36, 0x19);
    push2(&mut v, 0x00, 0x00);
    push2(&mut v, 0x00, 0x00);
    push2(&mut v, 0x00, 0x00);
    push1(&mut v, 0x00);
    push1(&mut v, 0xC0);
    push2(&mut v, 0x00, 0x00);
    push_zeros(&mut v, 18);
    push_zeros(&mut v, 64);
    push_zeros(&mut v, 64);
    push2(&mut v, 0x00, 0x00);
    push_zeros(&mut v, 20);
    push3(&mut v, 0x00, 0x00, 0x00);
    push_zeros(&mut v, 3);
    push1(&mut v, 0x00);
    push_all(&mut v, mac.as_slice());
    push_zeros(&mut v, 4);
    push2(&mut v, 0x00, 0x00);
    push_zeros(&mut v, 4);
    push1(&mut v, 0x00);
    push_zeros(&mut v, 6);
    push_zeros(&mut v, 15);
    v
}

/// The fixed layout facts of a discovery reply that callers and tests rely
/// on: its length, its header, and where the addresses sit.
pub proof fn lemma_poll_reply_layout(ip: Seq<u8>, mac: Seq<u8>)
    requires
        ip.len() == 4,
        mac.len() == 6,
    ensures
        spec_poll_reply_bytes(ip, mac).len() == 239,
        spec_id_ok(spec_poll_reply_bytes(ip, mac)),
        spec_poll_reply_bytes(ip, mac)[8] == 0x00u8,
        spec_poll_reply_bytes(ip, mac)[9] == 0x21u8,
        spec_poll_reply_bytes(ip, mac).subrange(10, 14) == ip,
        spec_poll_reply_bytes(ip, mac)[14] == 0x36u8,
        spec_poll_reply_bytes(ip, mac)[15] == 0x19u8,
        spec_poll_reply_bytes(ip, mac)[23] == 0xC0u8,
        spec_poll_reply_bytes(ip, mac).subrange(201, 207) == mac,
{
    let r = spec_poll_reply_bytes(ip, mac);
    assert(r.len() == 239);
    assert(r.subrange(10, 14) =~= ip);
    assert(r.subrange(201, 207) =~= mac);
}

} // verus!
