//! The receiver node: its identity, its per-channel frame buffers, and the
//! decision half of the receive loop. The loop itself lives outside this
//! crate and is trivial: await a datagram, hand it to
//! [`ArtnetNode::handle_datagram`], perform the returned actions, repeat.
//! Every decision — decoding, routing, buffer mutation, when to answer a
//! poll, when to flush a strip — is made here and is verified.

use vstd::prelude::*;

use crate::frame::{spec_apply, FrameBufferSet, Pixel};
use crate::protocol::{
    decode, encode_poll_reply, spec_dmx_len, spec_poll_reply_bytes, spec_port_address,
    spec_valid_dmx, spec_valid_poll, ArtMessage,
};
use crate::router::{route, spec_channel_of, spec_offset_of};

verus! {

/// A UDP endpoint as plain values: an IPv4 address and a port.
#[derive(Clone, Copy, Debug, PartialEq, Eq)]
pub struct Endpoint {
    pub ip: [u8; 4],
    pub port: u16,
}

/// What a node says about itself in a discovery reply. Read at network
/// bring-up and immutable afterwards.
#[derive(Clone, Copy, Debug, PartialEq, Eq)]
pub struct NodeIdentity {
    pub ip: [u8; 4],
    pub mac: [u8; 6],
}

/// An outward effect the caller must perform after a datagram is handled.
#[derive(Debug)]
pub enum Action {
    /// Send these bytes to this endpoint (a discovery reply).
    SendReply { dest: Endpoint, bytes: Vec<u8> },
    /// Transmit this channel's frame buffer to its LED strip.
    Flush { channel: usize },
}

/// The receiver node's whole state.
pub struct ArtnetNode {
    pub identity: NodeIdentity,
    pub buffers: FrameBufferSet,
    /// Sequence byte of the last pixel-data message, kept for skip
    /// diagnostics only; never used for flow control.
    pub last_sequence: u8,
}

/// `sequence` does not directly follow `previous` (sequence bytes wrap
/// around at 255). Diagnostic only.
pub fn sequence_skipped(previous: u8, sequence: u8) -> (r: bool)
    ensures
        r <==> sequence as int != (previous as int + 1) % 256,
{
    let expected: u8 = if previous == 255 {
        0
    } else {
        previous + 1
    };
    sequence != expected
}

impl ArtnetNode {
    /// The buffers are well formed.
    pub open spec fn wf(&self) -> bool {
        self.buffers.wf()
    }

    /// A fresh node: all buffers black.
    pub fn new(identity: NodeIdentity, channels: usize, pixels_per_channel: usize) -> (r:
        ArtnetNode)
        ensures
            r.wf(),
            r.identity == identity,
            r.buffers@.len() == channels,
            r.buffers.spec_channel_len() == pixels_per_channel,
            forall|c: int, i: int|
                0 <= c < channels && 0 <= i < pixels_per_channel ==> r.buffers@[c][i] == (Pixel {
                    r: 0u8,
                    g: 0u8,
                    b: 0u8,
                }),
            r.last_sequence == 0u8,
    {
        ArtnetNode {
            identity,
            buffers: FrameBufferSet::new(channels, pixels_per_channel),
            last_sequence: 0,
        }
    }

    /// Handle one inbound datagram; the single step of the receive loop.
    ///
    /// A complete pixel-data packet is routed to `(port / 10,
    /// (port % 10) * PIXELS_PER_UNIVERSE)`; a channel this node does not own
    /// is dropped, a payload past the end of the buffer is clipped, and a
    /// write at offset zero flushes that channel's strip. A discovery poll
    /// produces exactly one reply, addressed to the poll's source. Anything
    /// else — malformed bytes, unknown packets, sync and vendor commands —
    /// changes nothing and produces no action.
    pub fn handle_datagram(&mut self, datagram: &[u8], source: Endpoint) -> (actions: Vec<Action>)
        requires
            old(self).wf(),
        ensures
            final(self).wf(),
            final(self).identity == old(self).identity,
            final(self).buffers@.len() == old(self).buffers@.len(),
            final(self).buffers.spec_channel_len() == old(self).buffers.spec_channel_len(),
            spec_valid_poll(datagram@) ==> final(self).buffers@ == old(self).buffers@
                && final(self).last_sequence == old(self).last_sequence
                && actions@.len() == 1 && (actions@[0] matches Action::SendReply { dest, bytes }
                && dest == source && bytes@ == spec_poll_reply_bytes(
                old(self).identity.ip@,
                old(self).identity.mac@,
            )),
            spec_valid_dmx(datagram@) ==> ({
                let p = spec_port_address(datagram@);
                let ch = spec_channel_of(p);
                let off = spec_offset_of(p);
                let payload = datagram@.subrange(18, 18 + spec_dmx_len(datagram@));
                &&& final(self).last_sequence == datagram@[12]
                &&& (ch < old(self).buffers@.len() ==> final(self).buffers@ == old(
                    self,
                ).buffers@.update(ch, spec_apply(old(self).buffers@[ch], off, payload)))
                &&& (ch < old(self).buffers@.len() && off == 0 ==> actions@.len() == 1
                    && actions@[0] == (Action::Flush { channel: ch as usize }))
                &&& (ch < old(self).buffers@.len() && off != 0 ==> actions@.len() == 0)
                &&& (ch >= old(self).buffers@.len() ==> final(self).buffers@ == old(self).buffers@
                    && actions@.len() == 0)
            }),
            !(spec_valid_poll(datagram@) || spec_valid_dmx(datagram@)) ==> final(self).buffers@
                == old(self).buffers@ && final(self).last_sequence == old(self).last_sequence
                && actions@.len() == 0,
    {
        let mut actions: Vec<Action> = Vec::new();
        match decode(datagram) {
            Ok(ArtMessage::PixelData { sequence, physical: _, port_address, data }) => {
                let (channel, offset) = route(port_address);
                let in_range = channel < self.buffers.channel_count();
                self.buffers.apply(channel, offset, data.as_slice());
                self.last_sequence = sequence;
                if in_range && offset == 0 {
                    actions.push(Action::Flush { channel });
                }
            },
            Ok(ArtMessage::DiscoveryPoll { flags: _, min_priority: _ }) => {
                let bytes = encode_poll_reply(&self.identity.ip, &self.identity.mac);
                actions.push(Action::SendReply { dest: source, bytes });
            },
            Ok(ArtMessage::VendorCommand { .. }) => {},
            Ok(ArtMessage::Sync) => {},
            Err(_) => {},
        }
        actions
    }
}

/// Any complete pixel-data packet routes to channel `p / 10` at pixel
/// offset `(p % 10) * PIXELS_PER_UNIVERSE`, where `p` is the port address
/// the decoder reads from it.
pub proof fn lemma_valid_packet_routing(b: Seq<u8>)
    requires
        spec_valid_dmx(b),
    ensures
        spec_channel_of(spec_port_address(b)) == spec_port_address(b) / 10,
        spec_offset_of(spec_port_address(b)) == (spec_port_address(b) % 10) * 170,
{
}

/// Every valid encoding of a pixel-data message with port address `p` decodes
/// back to `p` and routes to channel `p / 10` at pixel offset
/// `(p % 10) * PIXELS_PER_UNIVERSE`, carrying the padded payload.
pub proof fn lemma_pixel_data_round_trip(port: int, sequence: u8, data: Seq<u8>)
    requires
        0 <= port < 0x8000,
        1 <= data.len() <= 512,
    ensures
        ({
            let b = crate::protocol::spec_pixel_data_bytes(port, sequence, data);
            &&& spec_valid_dmx(b)
            &&& spec_port_address(b) == port
            &&& b[12] == sequence
            &&& b.subrange(18, 18 + spec_dmx_len(b)) == crate::protocol::spec_padded(data)
            &&& spec_channel_of(spec_port_address(b)) == port / 10
            &&& spec_offset_of(spec_port_address(b)) == (port % 10) * 170
        }),
{
    crate::protocol::lemma_pixel_data_layout(port, sequence, data);
}

/// Handling the same pixel-data message twice in a row leaves the buffers in
/// the same state as handling it once.
pub proof fn lemma_pixel_data_idempotent(
    bufs: Seq<Seq<Pixel>>,
    channel: int,
    offset: int,
    data: Seq<u8>,
)
    requires
        0 <= channel < bufs.len(),
    ensures
        ({
            let once = bufs.update(channel, spec_apply(bufs[channel], offset, data));
            once.update(channel, spec_apply(once[channel], offset, data)) == once
        }),
{
    let once = bufs.update(channel, spec_apply(bufs[channel], offset, data));
    crate::frame::lemma_apply_idempotent(bufs[channel], offset, data);
    assert(once.update(channel, spec_apply(once[channel], offset, data)) =~= once);
}

} // verus!
