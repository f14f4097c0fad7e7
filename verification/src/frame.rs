//! Per-channel frame buffers: one fixed-length pixel buffer per physical LED
//! strip. Incoming pixel-data payloads overwrite a contiguous slice of one
//! channel's buffer; writes past either the channel count or the buffer
//! length are dropped or clipped, never out of bounds.

use vstd::prelude::*;

verus! {

/// One RGB pixel. The channel order is RGB end to end: the wire payload
/// carries byte triples in R, G, B order and the buffer keeps them that way.
#[derive(Clone, Copy, Debug, PartialEq, Eq, Structural)]
pub struct Pixel {
    pub r: u8,
    pub g: u8,
    pub b: u8,
}

impl Pixel {
    /// The all-black pixel every buffer starts from.
    pub fn black() -> (r: Pixel)
        ensures
            r == (Pixel { r: 0u8, g: 0u8, b: 0u8 }),
    {
        Pixel { r: 0, g: 0, b: 0 }
    }

    /// Pack into the word layout the strip hardware consumes: red in the top
    /// byte, then green, then blue, low byte zero.
    pub fn packed(&self) -> (r: u32)
        ensures
            r == self.r as u32 * 0x1000000 + self.g as u32 * 0x10000 + self.b as u32 * 0x100,
    {
        self.r as u32 * 0x1000000 + self.g as u32 * 0x10000 + self.b as u32 * 0x100
    }
}

/// Pixel `i` of a wire payload: byte triple `3*i .. 3*i+3` in R, G, B order.
pub open spec fn spec_pixel_at(data: Seq<u8>, i: int) -> Pixel
    recommends
        0 <= i,
        3 * i + 3 <= data.len(),
{
    Pixel { r: data[3 * i], g: data[3 * i + 1], b: data[3 * i + 2] }
}

/// How many pixels of `data` land in a buffer of length `buf_len` when the
/// write starts at `offset`: every whole triple, clipped to the space left.
pub open spec fn spec_write_count(buf_len: int, offset: int, data_len: int) -> int {
    let triples = data_len / 3;
    let room = if offset < buf_len {
        buf_len - offset
    } else {
        0
    };
    if triples < room {
        triples
    } else {
        room
    }
}

/// The buffer after a clipped overwrite starting at `offset`.
pub open spec fn spec_apply(buf: Seq<Pixel>, offset: int, data: Seq<u8>) -> Seq<Pixel> {
    let w = spec_write_count(buf.len() as int, offset, data.len() as int);
    Seq::new(
        buf.len(),
        |i: int|
            if offset <= i < offset + w {
                spec_pixel_at(data, i - offset)
            } else {
                buf[i]
            },
    )
}

/// Overwrite `row[offset ..]` with the whole triples of `data`, clipped to
/// the end of `row`.
fn apply_row(row: &mut Vec<Pixel>, offset: usize, data: &[u8])
    ensures
        final(row)@ == spec_apply(old(row)@, offset as int, data@),
{
    let cap = row.len();
    let dlen = data.len();
    let room = if offset < cap {
        cap - offset
    } else {
        0
    };
    let triples = dlen / 3;
    let w = if triples < room {
        triples
    } else {
        room
    };
    let mut i: usize = 0;
    while i < w
        invariant
            cap == old(row)@.len(),
            dlen == data@.len(),
            w == spec_write_count(old(row)@.len() as int, offset as int, data@.len() as int),
            w <= old(row)@.len(),
            offset + w <= old(row)@.len() || w == 0,
            3 * w <= data@.len(),
            i <= w,
            row@.len() == old(row)@.len(),
            forall|j: int|
                0 <= j < row@.len() ==> row@[j] == (if offset <= j < offset + i {
                    spec_pixel_at(data@, j - offset)
                } else {
                    old(row)@[j]
                }),
        decreases w - i,
    {
        proof {
            assert(3 * i + 3 <= 3 * w);
            assert(3 * i + 3 <= data@.len());
            assert(offset + i < old(row)@.len());
        }
        let px = Pixel { r: data[3 * i], g: data[3 * i + 1], b: data[3 * i + 2] };
        row.set(offset + i, px);
        i += 1;
    }
    assert(row@ =~= spec_apply(old(row)@, offset as int, data@));
}

/// The fixed set of per-channel pixel buffers a node owns.
pub struct FrameBufferSet {
    bufs: Vec<Vec<Pixel>>,
    channel_len: usize,
}

impl View for FrameBufferSet {
    type V = Seq<Seq<Pixel>>;

    closed spec fn view(&self) -> Seq<Seq<Pixel>> {
        Seq::new(self.bufs@.len(), |c: int| self.bufs@[c]@)
    }
}

impl FrameBufferSet {
    /// Every channel's buffer has the configured fixed length.
    pub open spec fn wf(&self) -> bool {
        forall|c: int|
            0 <= c < self@.len() ==> (#[trigger] self@[c]).len() == self.spec_channel_len()
    }

    /// The configured number of pixels in each channel's buffer.
    pub closed spec fn spec_channel_len(&self) -> int {
        self.channel_len as int
    }

    /// All-black buffers: `channels` of them, `pixels_per_channel` pixels each.
    pub fn new(channels: usize, pixels_per_channel: usize) -> (r: FrameBufferSet)
        ensures
            r.wf(),
            r@.len() == channels,
            r.spec_channel_len() == pixels_per_channel,
            forall|c: int, i: int|
                0 <= c < channels && 0 <= i < pixels_per_channel ==> r@[c][i] == (Pixel {
                    r: 0u8,
                    g: 0u8,
                    b: 0u8,
                }),
    {
        let mut bufs: Vec<Vec<Pixel>> = Vec::new();
        let mut c: usize = 0;
        while c < channels
            invariant
                c <= channels,
                bufs@.len() == c,
                forall|k: int|
                    0 <= k < c ==> (#[trigger] bufs@[k])@ == Seq::new(
                        pixels_per_channel as nat,
                        |i: int| Pixel { r: 0u8, g: 0u8, b: 0u8 },
                    ),
            decreases channels - c,
        {
            let mut row: Vec<Pixel> = Vec::new();
            let mut i: usize = 0;
            while i < pixels_per_channel
                invariant
                    i <= pixels_per_channel,
                    row@ == Seq::new(i as nat, |k: int| Pixel { r: 0u8, g: 0u8, b: 0u8 }),
                decreases pixels_per_channel - i,
            {
                row.push(Pixel::black());
                assert(row@ =~= Seq::new((i + 1) as nat, |k: int| Pixel { r: 0u8, g: 0u8, b: 0u8 }));
                i += 1;
            }
            bufs.push(row);
            c += 1;
        }
        FrameBufferSet { bufs, channel_len: pixels_per_channel }
    }

    /// The number of channels.
    pub fn channel_count(&self) -> (r: usize)
        ensures
            r == self@.len(),
    {
        self.bufs.len()
    }

    /// The number of pixels in each channel's buffer.
    pub fn channel_len(&self) -> (r: usize)
        ensures
            r == self.spec_channel_len(),
    {
        self.channel_len
    }

    /// Write the whole triples of `data` over `channel`'s buffer starting at
    /// pixel `offset`. A channel this node does not own is dropped silently;
    /// a payload that runs past the end of the buffer is clipped to fit.
    pub fn apply(&mut self, channel: usize, offset: usize, data: &[u8])
        requires
            old(self).wf(),
        ensures
            final(self).wf(),
            final(self).spec_channel_len() == old(self).spec_channel_len(),
            channel < old(self)@.len() ==> final(self)@ == old(self)@.update(
                channel as int,
                spec_apply(old(self)@[channel as int], offset as int, data@),
            ),
            channel >= old(self)@.len() ==> final(self)@ == old(self)@,
    {
        if channel < self.bufs.len() {
            apply_row(&mut self.bufs[channel], offset, data);
            assert(final(self)@ =~= old(self)@.update(
                channel as int,
                spec_apply(old(self)@[channel as int], offset as int, data@),
            ));
        } else {
            assert(final(self)@ =~= old(self)@);
        }
    }

    /// Read one pixel.
    pub fn pixel(&self, channel: usize, i: usize) -> (r: Pixel)
        requires
            channel < self@.len(),
            i < self@[channel as int].len(),
        ensures
            r == self@[channel as int][i as int],
    {
        self.bufs[channel][i]
    }

    /// One channel's buffer in the packed word layout the strip hardware
    /// consumes, in pixel order.
    pub fn packed_channel(&self, channel: usize) -> (r: Vec<u32>)
        requires
            channel < self@.len(),
        ensures
            r@.len() == self@[channel as int].len(),
            forall|i: int|
                0 <= i < r@.len() ==> r@[i] == self@[channel as int][i].r as u32 * 0x1000000
                    + self@[channel as int][i].g as u32 * 0x10000 + self@[channel as int][i].b
                    as u32 * 0x100,
    {
        let row = &self.bufs[channel];
        let mut out: Vec<u32> = Vec::new();
        let mut i: usize = 0;
        while i < row.len()
            invariant
                row@ == self@[channel as int],
                i <= row@.len(),
                out@.len() == i,
                forall|k: int|
                    0 <= k < i ==> out@[k] == row@[k].r as u32 * 0x1000000 + row@[k].g as u32
                        * 0x10000 + row@[k].b as u32 * 0x100,
            decreases row@.len() - i,
        {
            out.push(row[i].packed());
            i += 1;
        }
        out
    }
}

/// A clipped write never grows or shrinks the buffer, never touches a pixel
/// outside the written slice, and the written slice always ends at or before
/// the buffer's capacity: the buffer stays fully defined afterwards.
pub proof fn lemma_apply_clipped(buf: Seq<Pixel>, offset: int, data: Seq<u8>)
    ensures
        spec_apply(buf, offset, data).len() == buf.len(),
        ({
            let w = spec_write_count(buf.len() as int, offset, data.len() as int);
            &&& w >= 0
            &&& offset + w <= buf.len() || w == 0
            &&& forall|i: int|
                0 <= i < buf.len() && !(offset <= i < offset + w) ==> spec_apply(
                    buf,
                    offset,
                    data,
                )[i] == buf[i]
        }),
{
}

/// Writing the same payload at the same place twice leaves the buffer exactly
/// as one write does.
pub proof fn lemma_apply_idempotent(buf: Seq<Pixel>, offset: int, data: Seq<u8>)
    ensures
        spec_apply(spec_apply(buf, offset, data), offset, data) == spec_apply(buf, offset, data),
{
    assert(spec_apply(spec_apply(buf, offset, data), offset, data) =~= spec_apply(
        buf,
        offset,
        data,
    ));
}

} // verus!
