use vstd::prelude::*;

use crate::error::{NokhwaError, is_frame_error, frame_error_message};
use crate::format::FrameFormat;
use vstd::math::{max, min};

verus! {

/// Whether `x` is a value of `i32`.
pub open spec fn fits_i32(x: int) -> bool {
    i32::MIN <= x <= i32::MAX
}

/// Every intermediate value of the `YCbCr` 4:4:4 to RGB888 computation, in the order in which
/// it is evaluated, fits in an `i32`.
pub open spec fn yuv444_in_range(y: int, u: int, v: int) -> bool {
    let c298 = (y - 16) * 298;
    let d = u - 128;
    let e = v - 128;
    &&& fits_i32(y - 16)
    &&& fits_i32(c298)
    &&& fits_i32(d)
    &&& fits_i32(e)
    &&& fits_i32(409 * e)
    &&& fits_i32(c298 + 409 * e)
    &&& fits_i32(c298 + 409 * e + 128)
    &&& fits_i32(100 * d)
    &&& fits_i32(c298 - 100 * d)
    &&& fits_i32(208 * e)
    &&& fits_i32(c298 - 100 * d - 208 * e)
    &&& fits_i32(c298 - 100 * d - 208 * e + 128)
    &&& fits_i32(516 * d)
    &&& fits_i32(c298 + 516 * d)
    &&& fits_i32(c298 + 516 * d + 128)
}

/// `x` limited to the range of a byte.
pub open spec fn clamp_byte(x: int) -> u8 {
    if x < 0 {
        0
    } else if x > 255 {
        255
    } else {
        x as u8
    }
}

/// The red channel of the `YCbCr` colour `(y, u, v)`: `(298 (y - 16) + 409 (v - 128) + 128) / 256`,
/// rounded down and limited to a byte.
pub open spec fn yuv_red(y: int, u: int, v: int) -> u8 {
    clamp_byte((298 * (y - 16) + 409 * (v - 128) + 128) / 256)
}

/// The green channel: `(298 (y - 16) - 100 (u - 128) - 208 (v - 128) + 128) / 256`,
/// rounded down and limited to a byte.
pub open spec fn yuv_green(y: int, u: int, v: int) -> u8 {
    clamp_byte((298 * (y - 16) - 100 * (u - 128) - 208 * (v - 128) + 128) / 256)
}

/// The blue channel: `(298 (y - 16) + 516 (u - 128) + 128) / 256`, rounded down and limited to a
/// byte.
pub open spec fn yuv_blue(y: int, u: int, v: int) -> u8 {
    clamp_byte((298 * (y - 16) + 516 * (u - 128) + 128) / 256)
}

/// The RGB888 pixel of the `YCbCr` colour `(y, u, v)`.
pub open spec fn yuv_to_rgb(y: int, u: int, v: int) -> Seq<u8> {
    seq![yuv_red(y, u, v), yuv_green(y, u, v), yuv_blue(y, u, v)]
}

proof fn lemma_shr8_is_floor_div(x: i32)
    ensures
        (x >> 8u32) as int == (x as int) / 256,
{
    assert((x >> 8u32) as int == (x as int) / 256) by (bit_vector);
}

/// Rounds `x / 256` down and limits it to a byte.
fn scale_and_clamp(x: i32) -> (r: u8)
    ensures
        r == clamp_byte((x as int) / 256),
{
    proof {
        lemma_shr8_is_floor_div(x);
    }
    let s = x >> 8u32;
    if s < 0 {
        0
    } else if s > 255 {
        255
    } else {
        s as u8
    }
}

/// Convert `YCbCr` 4:4:4 to a RGB888.
pub fn yuyv444_to_rgb888(y: i32, u: i32, v: i32) -> (rgb: [u8; 3])
    requires
        yuv444_in_range(y as int, u as int, v as int),
    ensures
        rgb@ == yuv_to_rgb(y as int, u as int, v as int),
{
    let c298 = (y - 16) * 298;
    let d = u - 128;
    let e = v - 128;
    let r = scale_and_clamp(c298 + 409 * e + 128);
    let g = scale_and_clamp(c298 - 100 * d - 208 * e + 128);
    let b = scale_and_clamp(c298 + 516 * d + 128);
    let rgb = [r, g, b];
    assert(rgb@ =~= yuv_to_rgb(y as int, u as int, v as int));
    rgb
}

} // verus!

verus! {

/// Byte `i` of the RGB888 stream that a YUYV 4:2:2 stream `data` converts to.
/// Pixel `p = i / 3` takes its luma from byte `2p` and its chroma from the `U` and `V` bytes of
/// the four-byte group `Y1 U Y2 V` that byte `2p` belongs to; `i % 3` picks the channel.
pub open spec fn yuyv422_rgb_byte(data: Seq<u8>, i: int) -> u8 {
    let p = i / 3;
    let group = 4 * (p / 2);
    yuv_to_rgb(data[2 * p] as int, data[group + 1] as int, data[group + 3] as int)[i % 3]
}

/// The RGB888 stream that a YUYV 4:2:2 stream `data` converts to: six bytes (two pixels) for
/// each group of four bytes.
pub open spec fn yuyv422_to_rgb888_spec(data: Seq<u8>) -> Seq<u8> {
    Seq::new((data.len() / 4 * 6) as nat, |i: int| yuyv422_rgb_byte(data, i))
}

/// The message of the error for a YUYV stream whose length is not a multiple of four.
pub open spec fn yuyv_length_message() -> Seq<char> {
    "Assertion failure, the YUV stream isn't 4:2:2! (wrong number of bytes)"@
}

/// Where output byte `6k + j` (`j < 6`) of a YUYV 4:2:2 conversion comes from: pixel `2k + j / 3`,
/// of the four-byte group `k`, channel `j % 3`.
proof fn lemma_output_position(k: int, j: int)
    requires
        0 <= k,
        0 <= j < 6,
    ensures
        (6 * k + j) / 3 == 2 * k + j / 3,
        ((6 * k + j) / 3) / 2 == k,
        (6 * k + j) % 3 == j % 3,
{
    assert((6 * k + j) / 3 == 2 * k + j / 3) by (nonlinear_arith)
        requires
            0 <= k,
            0 <= j < 6,
    ;
    assert((2 * k + j / 3) / 2 == k) by (nonlinear_arith)
        requires
            0 <= k,
            0 <= j < 6,
    ;
    assert((6 * k + j) % 3 == j % 3) by (nonlinear_arith)
        requires
            0 <= k,
            0 <= j < 6,
    ;
}

/// Converts a YUYV 4:2:2 datastream to a RGB888 Stream.
/// # Errors
/// This errors when the data stream size is not divisible by 4.
pub fn yuyv422_to_rgb888(data: &[u8]) -> (res: Result<Vec<u8>, NokhwaError>)
    ensures
        res is Ok <==> data@.len() % 4 == 0,
        res matches Ok(rgb) ==> rgb@ == yuyv422_to_rgb888_spec(data@),
        res matches Err(e) ==> is_frame_error(e, FrameFormat::YUYV, "RGB888"@)
            && frame_error_message(e) == yuyv_length_message(),
{
    if data.len() % 4 != 0 {
        return Err(
            NokhwaError::ProcessFrameError {
                src: FrameFormat::YUYV,
                destination: "RGB888".to_string(),
                error: "Assertion failure, the YUV stream isn't 4:2:2! (wrong number of bytes)".to_string(),
            },
        );
    }
    let groups = data.len() / 4;
    assert(data@.len() == 4 * groups) by (nonlinear_arith)
        requires
            data@.len() % 4 == 0,
            groups == data@.len() / 4,
    ;
    let mut rgb_vec: Vec<u8> = Vec::new();
    let mut k: usize = 0;
    while k < groups
        invariant
            groups == data@.len() / 4,
            data@.len() == 4 * groups,
            k <= groups,
            rgb_vec@.len() == 6 * k,
            forall|i: int| 0 <= i < 6 * k ==> rgb_vec@[i] == #[trigger] yuyv422_rgb_byte(data@, i),
        decreases groups - k,
    {
        assert(4 * k + 4 <= data.len());
        let base = 4 * k;
        let y1 = data[base] as i32;
        let u = data[base + 1] as i32;
        let y2 = data[base + 2] as i32;
        let v = data[base + 3] as i32;
        let pixel1 = yuyv444_to_rgb888(y1, u, v);
        let pixel2 = yuyv444_to_rgb888(y2, u, v);
        let ghost prev = rgb_vec@;
        rgb_vec.push(pixel1[0]);
        rgb_vec.push(pixel1[1]);
        rgb_vec.push(pixel1[2]);
        rgb_vec.push(pixel2[0]);
        rgb_vec.push(pixel2[1]);
        rgb_vec.push(pixel2[2]);
        assert forall|i: int| 0 <= i < 6 * (k + 1) implies rgb_vec@[i] == #[trigger] yuyv422_rgb_byte(
            data@,
            i,
        ) by {
            if i >= 6 * k {
                lemma_output_position(k as int, i - 6 * k);
            } else {
                assert(rgb_vec@[i] == prev[i]);
            }
        }
        k = k + 1;
    }
    assert(rgb_vec@ =~= yuyv422_to_rgb888_spec(data@));
    Ok(rgb_vec)
}

/// Each group of four bytes of a YUYV 4:2:2 stream gives six bytes of RGB888.
pub proof fn lemma_yuyv422_output_length(data: Seq<u8>)
    requires
        data.len() % 4 == 0,
    ensures
        yuyv422_to_rgb888_spec(data).len() * 2 == data.len() * 3,
{
    assert((data.len() / 4 * 6) * 2 == data.len() * 3) by (nonlinear_arith)
        requires
            data.len() % 4 == 0,
    ;
}

/// The YUYV 4:2:2 conversion is the `YCbCr` 4:4:4 conversion applied to each pixel: group `k`,
/// `Y1 U Y2 V`, gives the pixels `(Y1, U, V)` and `(Y2, U, V)`.
pub proof fn lemma_yuyv422_is_yuv444_per_pixel(data: Seq<u8>, k: int)
    requires
        0 <= k < data.len() / 4,
    ensures
        yuyv422_to_rgb888_spec(data).subrange(6 * k, 6 * k + 3) == yuv_to_rgb(
            data[4 * k] as int,
            data[4 * k + 1] as int,
            data[4 * k + 3] as int,
        ),
        yuyv422_to_rgb888_spec(data).subrange(6 * k + 3, 6 * k + 6) == yuv_to_rgb(
            data[4 * k + 2] as int,
            data[4 * k + 1] as int,
            data[4 * k + 3] as int,
        ),
{
    let out = yuyv422_to_rgb888_spec(data);
    assert(6 * k + 6 <= data.len() / 4 * 6) by (nonlinear_arith)
        requires
            0 <= k < data.len() / 4,
    ;
    lemma_output_position(k, 0);
    lemma_output_position(k, 1);
    lemma_output_position(k, 2);
    lemma_output_position(k, 3);
    lemma_output_position(k, 4);
    lemma_output_position(k, 5);
    assert(out.subrange(6 * k, 6 * k + 3) =~= yuv_to_rgb(
        data[4 * k] as int,
        data[4 * k + 1] as int,
        data[4 * k + 3] as int,
    ));
    assert(out.subrange(6 * k + 3, 6 * k + 6) =~= yuv_to_rgb(
        data[4 * k + 2] as int,
        data[4 * k + 1] as int,
        data[4 * k + 3] as int,
    ));
}

/// A channel is limited to a byte by saturation: below 0 it is 0, above 255 it is 255, and
/// in between it is the value itself.
pub proof fn lemma_clamp_byte_saturates(x: int)
    ensures
        clamp_byte(x) as int == min(255, max(0, x)),
        x < 0 ==> clamp_byte(x) == 0,
        x > 255 ==> clamp_byte(x) == 255,
        0 <= x <= 255 ==> clamp_byte(x) as int == x,
{
}

/// Each channel of a `YCbCr` colour is the BT.601 sum divided by 256, rounded down, and then
/// saturated to `0..=255`.
pub proof fn lemma_yuv_channels(y: int, u: int, v: int)
    ensures
        yuv_red(y, u, v) as int == min(255, max(0, (298 * (y - 16) + 409 * (v - 128) + 128) / 256)),
        yuv_green(y, u, v) as int == min(
            255,
            max(0, (298 * (y - 16) - 100 * (u - 128) - 208 * (v - 128) + 128) / 256),
        ),
        yuv_blue(y, u, v) as int == min(255, max(0, (298 * (y - 16) + 516 * (u - 128) + 128) / 256)),
        yuv_to_rgb(y, u, v).len() == 3,
        yuv_to_rgb(y, u, v)[0] == yuv_red(y, u, v),
        yuv_to_rgb(y, u, v)[1] == yuv_green(y, u, v),
        yuv_to_rgb(y, u, v)[2] == yuv_blue(y, u, v),
{
    lemma_clamp_byte_saturates((298 * (y - 16) + 409 * (v - 128) + 128) / 256);
    lemma_clamp_byte_saturates((298 * (y - 16) - 100 * (u - 128) - 208 * (v - 128) + 128) / 256);
    lemma_clamp_byte_saturates((298 * (y - 16) + 516 * (u - 128) + 128) / 256);
}

/// A colour without chroma (`u == v == 128`) is grey: its three channels are equal, and from
/// luma 235 up it is white.
pub proof fn lemma_grey_without_chroma(y: int)
    ensures
        yuv_red(y, 128, 128) == yuv_green(y, 128, 128),
        yuv_green(y, 128, 128) == yuv_blue(y, 128, 128),
        y >= 235 ==> yuv_to_rgb(y, 128, 128) == seq![255u8, 255u8, 255u8],
        y <= 16 ==> yuv_to_rgb(y, 128, 128) == seq![0u8, 0u8, 0u8],
{
    lemma_yuv_channels(y, 128, 128);
    if y >= 235 {
        assert((298 * (y - 16) + 128) / 256 >= 255) by (nonlinear_arith)
            requires
                y >= 235,
        ;
        assert(yuv_to_rgb(y, 128, 128) =~= seq![255u8, 255u8, 255u8]);
    }
    if y <= 16 {
        assert((298 * (y - 16) + 128) / 256 <= 0) by (nonlinear_arith)
            requires
                y <= 16,
        ;
        assert(yuv_to_rgb(y, 128, 128) =~= seq![0u8, 0u8, 0u8]);
    }
}

} // verus!
