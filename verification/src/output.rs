//! The server's outbound pixel frames: one Art-Net pixel-data packet per
//! elder, the whole strip set to the elder's crane-light color after gamma
//! correction. The channel order is RGB end to end, matching the receiver.

use vstd::prelude::*;

use crate::frame::Pixel;
use crate::model::Elder;
use crate::node::Endpoint;
use crate::protocol::{encode_pixel_data, spec_pixel_data_bytes};

verus! {

/// The gamma-correction curve, as a lookup table over the 8-bit color range.
pub open spec fn spec_gamma_table() -> Seq<u8> {
    seq![
        0u8, 0u8, 0u8, 0u8, 0u8, 0u8, 0u8, 0u8, 0u8, 0u8, 0u8, 0u8, 0u8, 0u8, 0u8, 0u8, 0u8,
        0u8, 0u8, 0u8, 0u8, 0u8, 0u8, 0u8, 0u8, 0u8, 0u8, 0u8, 1u8, 1u8, 1u8, 1u8, 1u8, 1u8,
        1u8, 1u8, 1u8, 1u8, 1u8, 1u8, 1u8, 2u8, 2u8, 2u8, 2u8, 2u8, 2u8, 2u8, 2u8, 3u8, 3u8,
        3u8, 3u8, 3u8, 3u8, 3u8, 4u8, 4u8, 4u8, 4u8, 4u8, 5u8, 5u8, 5u8, 5u8, 6u8, 6u8, 6u8,
        6u8, 7u8, 7u8, 7u8, 7u8, 8u8, 8u8, 8u8, 9u8, 9u8, 9u8, 10u8, 10u8, 10u8, 11u8, 11u8,
        11u8, 12u8, 12u8, 13u8, 13u8, 13u8, 14u8, 14u8, 15u8, 15u8, 16u8, 16u8, 17u8, 17u8,
        18u8, 18u8, 19u8, 19u8, 20u8, 20u8, 21u8, 21u8, 22u8, 22u8, 23u8, 24u8, 24u8, 25u8,
        25u8, 26u8, 27u8, 27u8, 28u8, 29u8, 29u8, 30u8, 31u8, 32u8, 32u8, 33u8, 34u8, 35u8,
        35u8, 36u8, 37u8, 38u8, 39u8, 39u8, 40u8, 41u8, 42u8, 43u8, 44u8, 45u8, 46u8, 47u8,
        48u8, 49u8, 50u8, 50u8, 51u8, 52u8, 54u8, 55u8, 56u8, 57u8, 58u8, 59u8, 60u8, 61u8,
        62u8, 63u8, 64u8, 66u8, 67u8, 68u8, 69u8, 70u8, 72u8, 73u8, 74u8, 75u8, 77u8, 78u8,
        79u8, 81u8, 82u8, 83u8, 85u8, 86u8, 87u8, 89u8, 90u8, 92u8, 93u8, 95u8, 96u8, 98u8,
        99u8, 101u8, 102u8, 104u8, 105u8, 107u8, 109u8, 110u8, 112u8, 114u8, 115u8, 117u8,
        119u8, 120u8, 122u8, 124u8, 126u8, 127u8, 129u8, 131u8, 133u8, 135u8, 137u8, 138u8,
        140u8, 142u8, 144u8, 146u8, 148u8, 150u8, 152u8, 154u8, 156u8, 158u8, 160u8, 162u8,
        164u8, 167u8, 169u8, 171u8, 173u8, 175u8, 177u8, 180u8, 182u8, 184u8, 186u8, 189u8,
        191u8, 193u8, 196u8, 198u8, 200u8, 203u8, 205u8, 208u8, 210u8, 213u8, 215u8, 218u8,
        220u8, 223u8, 225u8, 228u8, 231u8, 233u8, 236u8, 239u8, 241u8, 244u8, 247u8, 249u8,
        252u8, 255u8,
    ]
}

/// Gamma-correct one 8-bit color component.
pub open spec fn spec_gamma(x: u8) -> u8 {
    spec_gamma_table()[x as int]
}

/// Gamma-correct one 8-bit color component.
#[verifier::rlimit(50)]
pub fn gamma(x: u8) -> (r: u8)
    ensures
        r == spec_gamma(x),
{
    let table: [u8; 256] = [
        0, 0, 0, 0, 0, 0, 0, 0, 0, 0, 0, 0, 0, 0, 0, 0, 0, 0, 0, 0, 0, 0, 0, 0, 0, 0, 0, 0, 1,
        1, 1, 1, 1, 1, 1, 1, 1, 1, 1, 1, 1, 2, 2, 2, 2, 2, 2, 2, 2, 3, 3, 3, 3, 3, 3, 3, 4, 4,
        4, 4, 4, 5, 5, 5, 5, 6, 6, 6, 6, 7, 7, 7, 7, 8, 8, 8, 9, 9, 9, 10, 10, 10, 11, 11, 11,
        12, 12, 13, 13, 13, 14, 14, 15, 15, 16, 16, 17, 17, 18, 18, 19, 19, 20, 20, 21, 21, 22,
        22, 23, 24, 24, 25, 25, 26, 27, 27, 28, 29, 29, 30, 31, 32, 32, 33, 34, 35, 35, 36, 37,
        38, 39, 39, 40, 41, 42, 43, 44, 45, 46, 47, 48, 49, 50, 50, 51, 52, 54, 55, 56, 57, 58,
        59, 60, 61, 62, 63, 64, 66, 67, 68, 69, 70, 72, 73, 74, 75, 77, 78, 79, 81, 82, 83, 85,
        86, 87, 89, 90, 92, 93, 95, 96, 98, 99, 101, 102, 104, 105, 107, 109, 110, 112, 114,
        115, 117, 119, 120, 122, 124, 126, 127, 129, 131, 133, 135, 137, 138, 140, 142, 144,
        146, 148, 150, 152, 154, 156, 158, 160, 162, 164, 167, 169, 171, 173, 175, 177, 180,
        182, 184, 186, 189, 191, 193, 196, 198, 200, 203, 205, 208, 210, 213, 215, 218, 220,
        223, 225, 228, 231, 233, 236, 239, 241, 244, 247, 249, 252, 255,
    ];
    proof {
        assert(table@ =~= spec_gamma_table());
    }
    table[x as usize]
}

/// The payload of one outbound frame: `n` copies of the gamma-corrected
/// light color, three bytes per pixel in R, G, B order.
pub open spec fn spec_frame_payload(light: Pixel, n: int) -> Seq<u8> {
    Seq::new(
        (3 * n) as nat,
        |i: int|
            spec_gamma(
                if i % 3 == 0 {
                    light.r
                } else if i % 3 == 1 {
                    light.g
                } else {
                    light.b
                },
            ),
    )
}

/// Encode the pixel-data packet that paints a whole strip of `pixel_count`
/// pixels in `light`'s gamma-corrected color, addressed to port address 0
/// with sequence numbering disabled.
pub fn encode_output_frame(light: &Pixel, pixel_count: usize) -> (r: Vec<u8>)
    requires
        1 <= pixel_count,
        3 * pixel_count <= 512,
    ensures
        r@ == spec_pixel_data_bytes(0, 0u8, spec_frame_payload(*light, pixel_count as int)),
{
    let gr = gamma(light.r);
    let gg = gamma(light.g);
    let gb = gamma(light.b);
    let mut payload: Vec<u8> = Vec::new();
    let mut i: usize = 0;
    assert(payload@ =~= spec_frame_payload(*light, 0));
    while i < pixel_count
        invariant
            i <= pixel_count,
            3 * pixel_count <= 512,
            payload@.len() == 3 * i,
            payload@ == spec_frame_payload(*light, i as int),
            gr == spec_gamma(light.r) && gg == spec_gamma(light.g) && gb == spec_gamma(light.b),
        decreases pixel_count - i,
    {
        payload.push(gr);
        payload.push(gg);
        payload.push(gb);
        assert(payload@ =~= spec_frame_payload(*light, i + 1));
        i += 1;
    }
    encode_pixel_data(0, 0, payload.as_slice())
}

/// One outbound datagram per elder: the frame for its crane light, addressed
/// to its receiver node.
pub fn encode_output_frames(elders: &Vec<Elder>, pixel_count: usize) -> (r: Vec<
    (Endpoint, Vec<u8>),
>)
    requires
        1 <= pixel_count,
        3 * pixel_count <= 512,
    ensures
        r@.len() == elders@.len(),
        forall|i: int|
            0 <= i < elders@.len() ==> (#[trigger] r@[i]).0 == elders@[i].artnet_target
                && r@[i].1@ == spec_pixel_data_bytes(
                0,
                0u8,
                spec_frame_payload(elders@[i].crane_light, pixel_count as int),
            ),
{
    let mut out: Vec<(Endpoint, Vec<u8>)> = Vec::new();
    let mut i: usize = 0;
    while i < elders.len()
        invariant
            i <= elders@.len(),
            1 <= pixel_count && 3 * pixel_count <= 512,
            out@.len() == i,
            forall|k: int|
                0 <= k < i ==> (#[trigger] out@[k]).0 == elders@[k].artnet_target
                    && out@[k].1@ == spec_pixel_data_bytes(
                    0,
                    0u8,
                    spec_frame_payload(elders@[k].crane_light, pixel_count as int),
                ),
        decreases elders@.len() - i,
    {
        let elder = &elders[i];
        let frame = encode_output_frame(&elder.crane_light, pixel_count);
        out.push((elder.artnet_target, frame));
        i += 1;
    }
    out
}

} // verus!
