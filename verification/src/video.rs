//! Conversion of the plugin's raw framebuffer into the canonical encoding:
//! RGBA8, four bytes per pixel, row-major, no stride padding, fully opaque.
//!
//! The pipeline has two stages, applied in order: first the row padding that
//! the pitch (stride) may carry is stripped, then the raw pixel encoding is
//! expanded to RGBA8. A malformed buffer is reported as an error, never a
//! panic, so a misbehaving plugin cannot take the session down.

use vstd::prelude::*;
use vstd::arithmetic::div_mod::{
    lemma_div_multiples_vanish, lemma_fundamental_div_mod, lemma_fundamental_div_mod_converse,
    lemma_mod_multiples_basic,
};
use vstd::arithmetic::mul::{
    lemma_mul_inequality, lemma_mul_is_associative, lemma_mul_is_commutative,
    lemma_mul_is_distributive_add_other_way, lemma_mul_upper_bound,
};
use crate::data::VideoData;
use crate::error::ConversionError;

verus! {

/// The raw pixel encodings a plugin may declare during negotiation.
#[derive(Clone, Copy, Debug, PartialEq, Eq, Structural)]
pub enum PixelFormat {
    /// 15-bit encoding, two bytes per pixel. Declared in the negotiation
    /// protocol but not convertible by this host: it is rejected when the
    /// plugin asks for it.
    ARGB1555,
    /// 32-bit little-endian encoding, stored as [B,G,R,A] bytes.
    ARGB8888,
    /// 16-bit little-endian encoding with 5/6/5-bit red/green/blue fields.
    RGB565,
}

impl PixelFormat {
    /// The meaning of the integer codes a plugin sends when it asks the host
    /// to switch pixel formats.
    pub open spec fn spec_from_code(code: u32) -> Option<PixelFormat> {
        if code == 0 {
            Some(PixelFormat::ARGB1555)
        } else if code == 1 {
            Some(PixelFormat::ARGB8888)
        } else if code == 2 {
            Some(PixelFormat::RGB565)
        } else {
            None
        }
    }

    pub fn from_code(code: u32) -> (r: Option<PixelFormat>)
        ensures
            r == PixelFormat::spec_from_code(code),
    {
        if code == 0 {
            Some(PixelFormat::ARGB1555)
        } else if code == 1 {
            Some(PixelFormat::ARGB8888)
        } else if code == 2 {
            Some(PixelFormat::RGB565)
        } else {
            None
        }
    }

    pub open spec fn spec_bytes_per_pixel(self) -> nat {
        match self {
            PixelFormat::ARGB1555 => 2,
            PixelFormat::ARGB8888 => 4,
            PixelFormat::RGB565 => 2,
        }
    }

    pub fn bytes_per_pixel(self) -> (r: usize)
        ensures
            r == self.spec_bytes_per_pixel(),
            1 <= r <= 4,
    {
        match self {
            PixelFormat::ARGB1555 => 2,
            PixelFormat::ARGB8888 => 4,
            PixelFormat::RGB565 => 2,
        }
    }

    /// The host can expand these encodings to RGBA8; the 15-bit one it
    /// cannot, and a request for it is refused at negotiation time.
    pub open spec fn spec_supported(self) -> bool {
        self == PixelFormat::RGB565 || self == PixelFormat::ARGB8888
    }

    pub fn is_supported(self) -> (b: bool)
        ensures
            b == self.spec_supported(),
    {
        match self {
            PixelFormat::ARGB1555 => false,
            PixelFormat::ARGB8888 => true,
            PixelFormat::RGB565 => true,
        }
    }
}

/// The packed bytes left when each row of `pitch` bytes keeps only its first
/// `width * bytes_per_pixel` visible bytes: byte `i` of the result is byte
/// `(i / row) * pitch + i % row` of the input, where `row` is the visible
/// row length.
pub open spec fn strip_pitch_spec(data: Seq<u8>, width: nat, pitch: nat, bytes_per_pixel: nat) -> Seq<u8>
    recommends
        pitch > 0,
        width * bytes_per_pixel <= pitch,
{
    let row: nat = width * bytes_per_pixel;
    Seq::new(
        (data.len() / pitch) * row,
        |i: int| data[(i / row as int) * pitch + i % row as int],
    )
}

/// Widen a 5-bit channel to 8 bits: shift it into the high bits and
/// replicate its top bits into the freed low bits.
pub open spec fn expand5(v: u8) -> u8
    recommends
        v < 32,
{
    (v << 3) | (v >> 2)
}

/// Widen a 6-bit channel to 8 bits the same way.
pub open spec fn expand6(v: u8) -> u8
    recommends
        v < 64,
{
    (v << 2) | (v >> 4)
}

/// The RGBA8 expansion of packed little-endian RGB565 pixels. Pixel `p` is
/// the 16-bit value `data[2p] | data[2p+1] << 8`; its 5/6/5-bit red, green
/// and blue fields widen to one byte each and alpha is forced fully opaque.
pub open spec fn rgb565_to_rgba_spec(data: Seq<u8>) -> Seq<u8> {
    Seq::new(
        (data.len() / 2) * 4,
        |i: int|
            {
                let p: int = i / 4;
                let px: u16 = (data[2 * p] as u16) | ((data[2 * p + 1] as u16) << 8);
                if i % 4 == 0 {
                    expand5((px >> 11) as u8)
                } else if i % 4 == 1 {
                    expand6(((px >> 5) & 0x3f) as u8)
                } else if i % 4 == 2 {
                    expand5((px & 0x1f) as u8)
                } else {
                    255u8
                }
            },
    )
}

/// The RGBA8 reordering of packed little-endian ARGB8888 pixels: the stored
/// bytes [B,G,R,A] become [R,G,B,255]; the source alpha is discarded.
pub open spec fn argb8888_to_rgba_spec(data: Seq<u8>) -> Seq<u8> {
    Seq::new(
        (data.len() / 4) * 4,
        |i: int|
            {
                let p: int = i / 4;
                if i % 4 == 0 {
                    data[4 * p + 2]
                } else if i % 4 == 1 {
                    data[4 * p + 1]
                } else if i % 4 == 2 {
                    data[4 * p]
                } else {
                    255u8
                }
            },
    )
}

/// A raw buffer the pipeline accepts whole: a convertible format, a pitch at
/// least one visible row long, and a length that is an exact multiple of the
/// pitch.
pub open spec fn frame_shape_ok(format: PixelFormat, len: nat, width: nat, pitch: nat) -> bool {
    format.spec_supported() && width * format.spec_bytes_per_pixel() <= pitch && pitch > 0
        && len % pitch == 0
}

/// The canonical RGBA8 bytes of a whole raw frame: padding stripped, then
/// the format's expansion applied.
pub open spec fn canonical_frame_spec(format: PixelFormat, data: Seq<u8>, width: nat, pitch: nat) -> Seq<u8>
    recommends
        frame_shape_ok(format, data.len(), width, pitch),
{
    let packed = strip_pitch_spec(data, width, pitch, format.spec_bytes_per_pixel());
    match format {
        PixelFormat::RGB565 => rgb565_to_rgba_spec(packed),
        PixelFormat::ARGB8888 => argb8888_to_rgba_spec(packed),
        PixelFormat::ARGB1555 => Seq::empty(),
    }
}

/// Which error a malformed raw frame is reported with: an inconvertible
/// format first, then a pitch shorter than a visible row, then a length
/// that is not a multiple of the pitch.
pub open spec fn frame_error_spec(format: PixelFormat, width: nat, pitch: nat) -> ConversionError {
    if !format.spec_supported() {
        ConversionError::UnsupportedPixelFormat
    } else if width * format.spec_bytes_per_pixel() > pitch {
        ConversionError::PitchTooSmall
    } else {
        ConversionError::SizeNotMultipleOfPitch
    }
}

proof fn lemma_quad_index(p: int, c: int)
    requires
        0 <= p,
        0 <= c < 4,
    ensures
        (4 * p + c) / 4 == p,
        (4 * p + c) % 4 == c,
{
    lemma_fundamental_div_mod_converse(4 * p + c, 4, p, c);
}

/// Copy, for each row of `pitch` bytes, only its first
/// `width * bytes_per_pixel` bytes, discarding the trailing padding.
/// A buffer shaped wrong is reported, never aborted on: a pitch shorter
/// than one visible row first, then a length that is not an exact multiple
/// of the pitch.
pub fn remove_pitch(data: &[u8], width: u32, pitch: usize, bytes_per_pixel: usize) -> (r: Result<
    Vec<u8>,
    ConversionError,
>)
    ensures
        match r {
            Ok(out) => width as int * bytes_per_pixel as int <= pitch as int && pitch > 0
                && data@.len() as int % (pitch as int) == 0 && out@ == strip_pitch_spec(
                data@,
                width as nat,
                pitch as nat,
                bytes_per_pixel as nat,
            ),
            Err(e) => if width as int * bytes_per_pixel as int > pitch as int {
                e == ConversionError::PitchTooSmall
            } else {
                (pitch == 0 || data@.len() as int % (pitch as int) != 0) && e
                    == ConversionError::SizeNotMultipleOfPitch
            },
        },
{
    proof {
        lemma_mul_upper_bound(width as int, 0xffff_ffff, bytes_per_pixel as int, usize::MAX as int);
    }
    if (width as u128) * (bytes_per_pixel as u128) > (pitch as u128) {
        return Err(ConversionError::PitchTooSmall);
    }
    if pitch == 0 || data.len() % pitch != 0 {
        return Err(ConversionError::SizeNotMultipleOfPitch);
    }
    let total: usize = data.len();
    let rows: usize = total / pitch;
    let row_len: usize = (width as usize) * bytes_per_pixel;
    let ghost gspec = strip_pitch_spec(data@, width as nat, pitch as nat, bytes_per_pixel as nat);
    proof {
        lemma_fundamental_div_mod(data@.len() as int, pitch as int);
        lemma_mul_is_commutative(pitch as int, rows as int);
        assert(gspec.len() == rows as int * row_len as int);
    }
    let mut out: Vec<u8> = Vec::new();
    let mut r: usize = 0;
    while r < rows
        invariant
            pitch > 0,
            row_len == width as int * bytes_per_pixel as int,
            row_len <= pitch,
            data@.len() == total as int,
            data@.len() == rows as int * pitch as int,
            gspec == strip_pitch_spec(data@, width as nat, pitch as nat, bytes_per_pixel as nat),
            gspec.len() == rows as int * row_len as int,
            r <= rows,
            out@.len() == r as int * row_len as int,
            forall|i: int| 0 <= i < out@.len() ==> out@[i] == gspec[i],
        decreases rows - r,
    {
        let mut c: usize = 0;
        proof {
            lemma_mul_inequality(r as int + 1, rows as int, pitch as int);
        }
        while c < row_len
            invariant
                pitch > 0,
                row_len == width as int * bytes_per_pixel as int,
                row_len <= pitch,
                data@.len() == total as int,
                data@.len() == rows as int * pitch as int,
                (r as int + 1) * pitch as int <= data@.len(),
                gspec == strip_pitch_spec(data@, width as nat, pitch as nat, bytes_per_pixel as nat),
                gspec.len() == rows as int * row_len as int,
                r < rows,
                c <= row_len,
                out@.len() == r as int * row_len as int + c as int,
                forall|i: int| 0 <= i < out@.len() ==> out@[i] == gspec[i],
            decreases row_len - c,
        {
            proof {
                lemma_mul_is_distributive_add_other_way(pitch as int, r as int, 1);
            }
            let idx: usize = r * pitch + c;
            let b: u8 = data[idx];
            proof {
                lemma_fundamental_div_mod_converse(
                    r as int * row_len as int + c as int,
                    row_len as int,
                    r as int,
                    c as int,
                );
                lemma_mul_is_distributive_add_other_way(row_len as int, r as int, 1);
                lemma_mul_inequality(r as int + 1, rows as int, row_len as int);
            }
            out.push(b);
            c += 1;
        }
        proof {
            lemma_mul_is_distributive_add_other_way(row_len as int, r as int, 1);
        }
        r += 1;
    }
    proof {
        assert(out@ =~= gspec);
    }
    Ok(out)
}

proof fn lemma_rgb565_fields(lo: u8, hi: u8)
    ensures
        (hi & 0xf8) >> 3 == ((((lo as u16) | ((hi as u16) << 8)) >> 11) as u8),
        ((hi & 0x07) << 3) | ((lo & 0xe0) >> 5) == (((((lo as u16) | ((hi as u16) << 8)) >> 5)
            & 0x3f) as u8),
        lo & 0x1f == ((((lo as u16) | ((hi as u16) << 8)) & 0x1f) as u8),
{
    assert((hi & 0xf8) >> 3 == ((((lo as u16) | ((hi as u16) << 8)) >> 11) as u8)
        && ((hi & 0x07) << 3) | ((lo & 0xe0) >> 5) == (((((lo as u16) | ((hi as u16) << 8)) >> 5)
        & 0x3f) as u8) && lo & 0x1f == ((((lo as u16) | ((hi as u16) << 8)) & 0x1f) as u8))
        by (bit_vector);
}

/// Expand packed little-endian RGB565 pixels to canonical RGBA8. An odd
/// byte count cannot hold whole pixels and is reported as an error.
pub fn rgb565_to_rgb8888(data: &[u8]) -> (r: Result<Vec<u8>, ConversionError>)
    ensures
        match r {
            Ok(out) => data@.len() % 2 == 0 && out@ == rgb565_to_rgba_spec(data@),
            Err(e) => data@.len() % 2 != 0 && e == ConversionError::SizeNotMultipleOfPixel,
        },
{
    if data.len() % 2 != 0 {
        return Err(ConversionError::SizeNotMultipleOfPixel);
    }
    let total: usize = data.len();
    let n: usize = total / 2;
    let ghost gspec = rgb565_to_rgba_spec(data@);
    proof {
        lemma_fundamental_div_mod(data@.len() as int, 2);
    }
    let mut out: Vec<u8> = Vec::new();
    let mut p: usize = 0;
    while p < n
        invariant
            data@.len() == total as int,
            data@.len() == 2 * n as int,
            gspec == rgb565_to_rgba_spec(data@),
            gspec.len() == 4 * n as int,
            p <= n,
            out@.len() == 4 * p as int,
            forall|i: int| 0 <= i < out@.len() ==> out@[i] == gspec[i],
        decreases n - p,
    {
        let lo: u8 = data[2 * p];
        let hi: u8 = data[2 * p + 1];
        let r5: u8 = (hi & 0xf8) >> 3;
        let g6: u8 = ((hi & 0x07) << 3) | ((lo & 0xe0) >> 5);
        let b5: u8 = lo & 0x1f;
        let r8: u8 = (r5 << 3) | (r5 >> 2);
        let g8: u8 = (g6 << 2) | (g6 >> 4);
        let b8: u8 = (b5 << 3) | (b5 >> 2);
        proof {
            lemma_rgb565_fields(lo, hi);
            lemma_quad_index(p as int, 0);
            lemma_quad_index(p as int, 1);
            lemma_quad_index(p as int, 2);
            lemma_quad_index(p as int, 3);
            let px: u16 = (data@[2 * p as int] as u16) | ((data@[2 * p as int + 1] as u16) << 8);
            assert(r8 == expand5((px >> 11) as u8));
            assert(g8 == expand6(((px >> 5) & 0x3f) as u8));
            assert(b8 == expand5((px & 0x1f) as u8));
        }
        out.push(r8);
        out.push(g8);
        out.push(b8);
        out.push(255);
        p += 1;
    }
    proof {
        assert(out@ =~= gspec);
    }
    Ok(out)
}

/// Reorder packed little-endian ARGB8888 pixels to canonical RGBA8, forcing
/// alpha fully opaque. A byte count that is not a multiple of four cannot
/// hold whole pixels and is reported as an error.
pub fn rgb8888_to_rgb8888(data: &[u8]) -> (r: Result<Vec<u8>, ConversionError>)
    ensures
        match r {
            Ok(out) => data@.len() % 4 == 0 && out@ == argb8888_to_rgba_spec(data@),
            Err(e) => data@.len() % 4 != 0 && e == ConversionError::SizeNotMultipleOfPixel,
        },
{
    if data.len() % 4 != 0 {
        return Err(ConversionError::SizeNotMultipleOfPixel);
    }
    let total: usize = data.len();
    let n: usize = total / 4;
    let ghost gspec = argb8888_to_rgba_spec(data@);
    proof {
        lemma_fundamental_div_mod(data@.len() as int, 4);
    }
    let mut out: Vec<u8> = Vec::new();
    let mut p: usize = 0;
    while p < n
        invariant
            data@.len() == total as int,
            data@.len() == 4 * n as int,
            gspec == argb8888_to_rgba_spec(data@),
            gspec.len() == 4 * n as int,
            p <= n,
            out@.len() == 4 * p as int,
            forall|i: int| 0 <= i < out@.len() ==> out@[i] == gspec[i],
        decreases n - p,
    {
        let b: u8 = data[4 * p];
        let g: u8 = data[4 * p + 1];
        let r2: u8 = data[4 * p + 2];
        proof {
            lemma_quad_index(p as int, 0);
            lemma_quad_index(p as int, 1);
            lemma_quad_index(p as int, 2);
            lemma_quad_index(p as int, 3);
        }
        out.push(r2);
        out.push(g);
        out.push(b);
        out.push(255);
        p += 1;
    }
    proof {
        assert(out@ =~= gspec);
    }
    Ok(out)
}

/// Stripping yields exactly `rows * width * bytes_per_pixel` bytes: a buffer
/// of `rows` rows of `pitch` bytes each keeps one visible row's worth per row.
pub proof fn lemma_strip_pitch_length(
    data: Seq<u8>,
    rows: nat,
    width: nat,
    pitch: nat,
    bytes_per_pixel: nat,
)
    requires
        pitch > 0,
        width * bytes_per_pixel <= pitch,
        data.len() == rows * pitch,
    ensures
        strip_pitch_spec(data, width, pitch, bytes_per_pixel).len() == rows * (width
            * bytes_per_pixel),
{
    lemma_fundamental_div_mod_converse(data.len() as int, pitch as int, rows as int, 0);
}

/// A whole frame of `height` rows of `pitch` bytes converts to exactly
/// `width * height * 4` canonical bytes: four per visible pixel, whatever
/// padding the pitch carried and whichever convertible encoding came in.
pub proof fn lemma_canonical_frame_length(
    format: PixelFormat,
    data: Seq<u8>,
    width: nat,
    height: nat,
    pitch: nat,
)
    requires
        frame_shape_ok(format, data.len(), width, pitch),
        data.len() == height * pitch,
    ensures
        canonical_frame_spec(format, data, width, pitch).len() == width * height * 4,
{
    let bpp: nat = format.spec_bytes_per_pixel();
    lemma_strip_pitch_length(data, height, width, pitch, bpp);
    let packed = strip_pitch_spec(data, width, pitch, bpp);
    assert(packed.len() == height * (width * bpp));
    lemma_mul_is_associative(height as int, width as int, bpp as int);
    lemma_mul_is_commutative(height as int * width as int, bpp as int);
    lemma_div_multiples_vanish(height as int * width as int, bpp as int);
    assert(packed.len() as int / bpp as int == height as int * width as int);
    lemma_mul_is_commutative(height as int, width as int);
}

/// Stripping is the identity when the pitch is exactly one visible row:
/// there is no padding, so every byte is kept in place.
pub proof fn lemma_strip_pitch_identity(data: Seq<u8>, width: nat, bytes_per_pixel: nat)
    requires
        width * bytes_per_pixel > 0,
        data.len() % (width * bytes_per_pixel) == 0,
    ensures
        strip_pitch_spec(data, width, width * bytes_per_pixel, bytes_per_pixel) == data,
{
    let row: nat = width * bytes_per_pixel;
    lemma_fundamental_div_mod(data.len() as int, row as int);
    lemma_mul_is_commutative(row as int, data.len() as int / row as int);
    let s = strip_pitch_spec(data, width, row, bytes_per_pixel);
    assert(s.len() == data.len());
    assert forall|i: int| 0 <= i < data.len() implies s[i] == data[i] by {
        lemma_fundamental_div_mod(i, row as int);
        lemma_mul_is_commutative(row as int, i / row as int);
    };
    assert(s =~= data);
}

proof fn lemma_expand5_close(v: u8)
    requires
        v < 32,
    ensures
        255 * v - 31 <= 31 * expand5(v),
        31 * expand5(v) <= 255 * v + 31,
{
    assert(v < 32 ==> (255 * v <= 31 * ((v << 3) | (v >> 2)) + 31 && 31 * ((v << 3) | (v >> 2))
        <= 255 * v + 31)) by (bit_vector);
}

proof fn lemma_expand6_close(v: u8)
    requires
        v < 64,
    ensures
        255 * v - 63 <= 63 * expand6(v),
        63 * expand6(v) <= 255 * v + 63,
{
    assert(v < 64 ==> (255 * v <= 63 * ((v << 2) | (v >> 4)) + 63 && 63 * ((v << 2) | (v >> 4))
        <= 255 * v + 63)) by (bit_vector);
}

/// Every channel of every 16-bit RGB565 pixel expands to within one count of
/// the ideal linear upscale of its field. Multiplied through by the field's
/// maximum (31 for the two 5-bit fields, 63 for the 6-bit one), the expanded
/// byte differs from 255 times the field value by at most that maximum, i.e.
/// the byte is within 1 of `field * 255 / field_max`; being a byte it can
/// neither exceed 255 nor fall below 0.
pub proof fn lemma_rgb565_expansion_within_one(px: u16)
    ensures
        ({
            let v = (px >> 11) as u8;
            255 * v - 31 <= 31 * expand5(v) <= 255 * v + 31
        }),
        ({
            let v = ((px >> 5) & 0x3f) as u8;
            255 * v - 63 <= 63 * expand6(v) <= 255 * v + 63
        }),
        ({
            let v = (px & 0x1f) as u8;
            255 * v - 31 <= 31 * expand5(v) <= 255 * v + 31
        }),
{
    assert(((px >> 11) as u8) < 32 && (((px >> 5) & 0x3f) as u8) < 64 && ((px & 0x1f) as u8) < 32)
        by (bit_vector);
    lemma_expand5_close((px >> 11) as u8);
    lemma_expand6_close(((px >> 5) & 0x3f) as u8);
    lemma_expand5_close((px & 0x1f) as u8);
}

/// For one stored ARGB8888 pixel [B,G,R,A], the canonical output holds
/// [R,G,B,255]: alpha comes out fully opaque whatever the source alpha held.
pub proof fn lemma_argb8888_pixel(data: Seq<u8>, p: int)
    requires
        0 <= p < data.len() as int / 4,
    ensures
        argb8888_to_rgba_spec(data)[4 * p] == data[4 * p + 2],
        argb8888_to_rgba_spec(data)[4 * p + 1] == data[4 * p + 1],
        argb8888_to_rgba_spec(data)[4 * p + 2] == data[4 * p],
        argb8888_to_rgba_spec(data)[4 * p + 3] == 255,
{
    lemma_quad_index(p, 0);
    lemma_quad_index(p, 1);
    lemma_quad_index(p, 2);
    lemma_quad_index(p, 3);
}

/// An already-canonical RGBA8 frame comes back byte for byte from the full
/// pipeline (stripping with pitch = width * 4, then the ARGB8888 expansion),
/// provided each four-byte pixel reads the same from both ends: alpha
/// already 255 and equal first and third bytes. The ARGB8888 stage swaps
/// each pixel's first and third bytes, so a frame holding a pixel whose red
/// and blue channels differ does not come back unchanged.
pub proof fn lemma_pipeline_fixed_point(data: Seq<u8>, width: nat)
    requires
        width > 0,
        data.len() % (width * 4) == 0,
        forall|p: int|
            0 <= p < data.len() as int / 4 ==> #[trigger] data[4 * p] == data[4 * p + 2] && data[4
                * p + 3] == 255,
    ensures
        canonical_frame_spec(PixelFormat::ARGB8888, data, width, width * 4) == data,
{
    lemma_strip_pitch_identity(data, width, 4);
    let row: int = width as int * 4;
    let q: int = data.len() as int / row;
    lemma_fundamental_div_mod(data.len() as int, row);
    lemma_mul_is_commutative(row, q);
    lemma_mul_is_associative(q, width as int, 4);
    lemma_mul_is_commutative(q, width as int);
    lemma_mul_is_commutative(q, row);
    lemma_mod_multiples_basic(q * width as int, 4);
    assert(data.len() as int % 4 == 0);
    lemma_fundamental_div_mod(data.len() as int, 4);
    let out = canonical_frame_spec(PixelFormat::ARGB8888, data, width, width * 4);
    assert(out.len() == data.len());
    assert forall|i: int| 0 <= i < data.len() implies out[i] == data[i] by {
        lemma_fundamental_div_mod(i, 4);
        let p: int = i / 4;
        assert(4 * p < data.len());
        assert(p < data.len() as int / 4);
        assert(data[4 * p] == data[4 * p + 2] && data[4 * p + 3] == 255);
    };
    assert(out =~= data);
}

/// Run one raw frame through the whole pipeline: strip the row padding, then
/// expand the negotiated encoding to canonical RGBA8. Exactly the malformed
/// shapes are reported: an inconvertible format, a pitch shorter than a
/// visible row, and a length that is not a multiple of the pitch.
pub fn convert_frame(format: PixelFormat, data: &[u8], width: u32, height: u32, pitch: usize) -> (r:
    Result<VideoData, ConversionError>)
    ensures
        match r {
            Ok(v) => frame_shape_ok(format, data@.len(), width as nat, pitch as nat) && v.width
                == width && v.height == height && v.buffer@ == canonical_frame_spec(
                format,
                data@,
                width as nat,
                pitch as nat,
            ),
            Err(e) => !frame_shape_ok(format, data@.len(), width as nat, pitch as nat) && e
                == frame_error_spec(format, width as nat, pitch as nat),
        },
{
    if !format.is_supported() {
        return Err(ConversionError::UnsupportedPixelFormat);
    }
    let bpp: usize = format.bytes_per_pixel();
    let packed: Vec<u8> = match remove_pitch(data, width, pitch, bpp) {
        Ok(p) => p,
        Err(e) => {
            return Err(e);
        },
    };
    proof {
        lemma_mul_is_associative(
            data@.len() as int / pitch as int,
            width as int,
            bpp as int,
        );
        lemma_mod_multiples_basic((data@.len() as int / pitch as int) * width as int, bpp as int);
        assert(packed@.len() as int % (bpp as int) == 0);
    }
    let converted: Result<Vec<u8>, ConversionError> = match format {
        PixelFormat::RGB565 => rgb565_to_rgb8888(packed.as_slice()),
        PixelFormat::ARGB8888 => rgb8888_to_rgb8888(packed.as_slice()),
        PixelFormat::ARGB1555 => Err(ConversionError::UnsupportedPixelFormat),
    };
    match converted {
        Ok(buffer) => Ok(VideoData { width, height, buffer }),
        Err(e) => Err(e),
    }
}

} // verus!
