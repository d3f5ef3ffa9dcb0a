//! Pixel work on the captured surface: normalizing the native channel order
//! and quantizing into the packed 16-bit wire encoding.

use vstd::prelude::*;

verus! {

/// The packed 16-bit value for one pixel: red and blue quantized to 5 bits,
/// green to 6, by truncation, laid out as `(R5 << 11) | (G6 << 5) | B5`.
/// Alpha is discarded.
pub open spec fn pack_rgb565_spec(r: u8, g: u8, b: u8) -> u16 {
    ((((r >> 3) as u16) << 11) | (((g >> 2) as u16) << 5)) | ((b >> 3) as u16)
}

/// The packed value of pixel `p` of a 4-byte-per-pixel buffer in red, green,
/// blue, alpha order.
pub open spec fn frame_pixel(raw: Seq<u8>, p: int) -> u16 {
    pack_rgb565_spec(raw[4 * p], raw[4 * p + 1], raw[4 * p + 2])
}

/// Byte `j` of the encoded frame: each pixel's packed value is written high
/// byte first.
pub open spec fn frame_byte(raw: Seq<u8>, j: int) -> u8 {
    if j % 2 == 0 {
        (frame_pixel(raw, j / 2) >> 8) as u8
    } else {
        (frame_pixel(raw, j / 2) & 0xff) as u8
    }
}

/// The whole encoded frame: two bytes per input pixel, row-major, in the same
/// pixel order as the input.
pub open spec fn encode_rgb565_spec(raw: Seq<u8>) -> Seq<u8> {
    Seq::new((raw.len() / 4) * 2, |j: int| frame_byte(raw, j))
}

/// The buffer with each 4-byte pixel's first and third channel swapped: what
/// a blue, green, red, alpha surface reads back as once normalized to red,
/// green, blue, alpha.
pub open spec fn normalized_rgba(bgra: Seq<u8>) -> Seq<u8> {
    Seq::new(
        bgra.len(),
        |i: int|
            if i % 4 == 0 {
                bgra[i + 2]
            } else if i % 4 == 2 {
                bgra[i - 2]
            } else {
                bgra[i]
            },
    )
}

/// Quantizes one pixel to the packed 16-bit encoding.
pub fn pack_rgb565(r: u8, g: u8, b: u8) -> (v: u16)
    ensures
        v == pack_rgb565_spec(r, g, b),
{
    ((((r >> 3) as u16) << 11) | (((g >> 2) as u16) << 5)) | ((b >> 3) as u16)
}

/// Reorders a 4-byte-per-pixel buffer from the surface's blue, green, red,
/// alpha order into the normalized red, green, blue, alpha order.  This
/// reorders, never merely copies: byte `4p` of the result is byte `4p + 2` of
/// the input and vice versa.
pub fn normalize_bgra(buffer: &Vec<u8>) -> (out: Vec<u8>)
    requires
        buffer@.len() % 4 == 0,
    ensures
        out@.len() == buffer@.len(),
        out@ == normalized_rgba(buffer@),
{
    let len = buffer.len();
    let mut out: Vec<u8> = Vec::new();
    let mut i: usize = 0;
    while i < len
        invariant
            len == buffer@.len(),
            len % 4 == 0,
            i % 4 == 0,
            i <= len,
            out@.len() == i,
            forall|j: int| 0 <= j < i ==> out@[j] == normalized_rgba(buffer@)[j],
        decreases len - i,
    {
        out.push(buffer[i + 2]);
        out.push(buffer[i + 1]);
        out.push(buffer[i]);
        out.push(buffer[i + 3]);
        i = i + 4;
    }
    assert(out@ =~= normalized_rgba(buffer@));
    out
}

/// Encodes a normalized red, green, blue, alpha buffer of `width * height`
/// pixels into the packed 16-bit frame: one packed value per pixel, high byte
/// first, row-major, in the input's pixel order.
pub fn encode_rgb565(raw: &Vec<u8>, width: usize, height: usize) -> (frame: Vec<u8>)
    requires
        raw@.len() == width * height * 4,
    ensures
        frame@.len() == width * height * 2,
        frame@ == encode_rgb565_spec(raw@),
{
    let len = raw.len();
    let npix = len / 4;
    assert(npix == width * height);
    let mut frame: Vec<u8> = Vec::new();
    let mut p: usize = 0;
    while p < npix
        invariant
            raw@.len() == npix * 4,
            npix <= usize::MAX / 4,
            p <= npix,
            frame@.len() == 2 * p,
            forall|j: int| 0 <= j < 2 * p ==> frame@[j] == frame_byte(raw@, j),
        decreases npix - p,
    {
        let v = pack_rgb565(raw[4 * p], raw[4 * p + 1], raw[4 * p + 2]);
        frame.push((v >> 8) as u8);
        frame.push((v & 0xff) as u8);
        assert(frame@[2 * p as int] == frame_byte(raw@, 2 * p as int));
        assert(frame@[2 * p as int + 1] == frame_byte(raw@, 2 * p as int + 1));
        p = p + 1;
    }
    assert(frame@ =~= encode_rgb565_spec(raw@));
    frame
}

/// Encoding is a pure function of the pixel bytes alone: identical input
/// buffers always yield identical encoded frames.
pub proof fn lemma_encode_deterministic(a: Seq<u8>, b: Seq<u8>)
    requires
        a == b,
    ensures
        encode_rgb565_spec(a) == encode_rgb565_spec(b),
{
}

} // verus!
