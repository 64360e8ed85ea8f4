//! The RGB888 bytes of a decoded MJPEG frame, and the errors of a failed decode.
use vstd::prelude::*;

use crate::error::{NokhwaError, frame_error_message, is_frame_error};
use crate::format::FrameFormat;

verus! {

/// The bytes of a row of RGB pixels: `R, G, B, R, G, B, ...`.
pub open spec fn flatten_pixels(pixels: Seq<[u8; 3]>) -> Seq<u8> {
    Seq::new(pixels.len() * 3, |i: int| pixels[i / 3]@[i % 3])
}

/// The message of the error for a JPEG whose scanlines could not be read.
pub open spec fn scanline_message() -> Seq<char> {
    "Failed to get read readlines into RGB888 pixels!"@
}

proof fn lemma_triple_position(k: int, j: int)
    requires
        0 <= k,
        0 <= j < 3,
    ensures
        (3 * k + j) / 3 == k,
        (3 * k + j) % 3 == j,
{
    assert((3 * k + j) / 3 == k) by (nonlinear_arith)
        requires
            0 <= k,
            0 <= j < 3,
    ;
    assert((3 * k + j) % 3 == j) by (nonlinear_arith)
        requires
            0 <= k,
            0 <= j < 3,
    ;
}

/// Lays the RGB pixels out as bytes, `R, G, B, R, G, B, ...`.
pub fn rgb_pixels_to_bytes(pixels: &[[u8; 3]]) -> (bytes: Vec<u8>)
    ensures
        bytes@ == flatten_pixels(pixels@),
{
    let mut bytes: Vec<u8> = Vec::new();
    let mut k: usize = 0;
    while k < pixels.len()
        invariant
            k <= pixels@.len(),
            bytes@.len() == 3 * k,
            forall|i: int| 0 <= i < 3 * k ==> bytes@[i] == #[trigger] pixels@[i / 3]@[i % 3],
        decreases pixels.len() - k,
    {
        let px = pixels[k];
        let ghost prev = bytes@;
        bytes.push(px[0]);
        bytes.push(px[1]);
        bytes.push(px[2]);
        assert forall|i: int| 0 <= i < 3 * (k + 1) implies bytes@[i] == #[trigger] pixels@[i
            / 3]@[i % 3] by {
            if i >= 3 * k {
                lemma_triple_position(k as int, i - 3 * k);
            } else {
                assert(bytes@[i] == prev[i]);
            }
        }
        k = k + 1;
    }
    assert(bytes@ =~= flatten_pixels(pixels@));
    bytes
}

/// The error of a failed MJPEG to RGB888 conversion, with its message.
fn mjpeg_error(message: String) -> (e: NokhwaError)
    ensures
        is_frame_error(e, FrameFormat::MJPEG, "RGB888"@),
        frame_error_message(e) == message@,
{
    NokhwaError::ProcessFrameError {
        src: FrameFormat::MJPEG,
        destination: "RGB888".to_string(),
        error: message,
    }
}

/// The outcome of an MJPEG to RGB888 conversion, from the outcome of the JPEG decoder:
/// the decoded pixels, row by row; or a failure, with the decoder's message where it gave one,
/// and no message where reading the scanlines failed.
/// The pixels become their bytes, `R, G, B, R, G, B, ...`; a failure becomes a
/// [`NokhwaError::ProcessFrameError`] from MJPEG to RGB888 that carries the decoder's message,
/// or, for the scanlines, the message that says they could not be read.
pub fn mjpeg_decode_to_rgb888(decoded: Result<Vec<[u8; 3]>, Option<String>>) -> (res: Result<
    Vec<u8>,
    NokhwaError,
>)
    ensures
        res is Ok <==> decoded is Ok,
        decoded matches Ok(px) ==> res matches Ok(bytes) && bytes@ == flatten_pixels(px@),
        res matches Err(e) ==> is_frame_error(e, FrameFormat::MJPEG, "RGB888"@),
        decoded matches Err(Some(m)) ==> res matches Err(e) && frame_error_message(e) == m@,
        decoded matches Err(None) ==> res matches Err(e) && frame_error_message(e)
            == scanline_message(),
{
    match decoded {
        Ok(px) => Ok(rgb_pixels_to_bytes(px.as_slice())),
        Err(Some(message)) => Err(mjpeg_error(message)),
        Err(None) => Err(mjpeg_error("Failed to get read readlines into RGB888 pixels!".to_string())),
    }
}

/// Pixel `k` of a decoded frame gives bytes `3k`, `3k + 1` and `3k + 2`: its red, green and
/// blue channels, in that order, for frames of any length.
pub proof fn lemma_flatten_pixels_layout(pixels: Seq<[u8; 3]>)
    ensures
        flatten_pixels(pixels).len() == 3 * pixels.len(),
        forall|k: int, j: int|
            0 <= k < pixels.len() && 0 <= j < 3 ==> #[trigger] flatten_pixels(pixels)[3 * k + j]
                == pixels[k]@[j],
{
    assert forall|k: int, j: int| 0 <= k < pixels.len() && 0 <= j < 3 implies #[trigger] flatten_pixels(
        pixels,
    )[3 * k + j] == pixels[k]@[j] by {
        lemma_triple_position(k, j);
        assert(3 * k + j < 3 * pixels.len()) by (nonlinear_arith)
            requires
                0 <= k < pixels.len(),
                0 <= j < 3,
        ;
    }
}

} // verus!
