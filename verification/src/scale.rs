//! Letterboxed placement of the frame in a window: a uniform scale factor,
//! the smaller of the two axis fits, and the scaled content centered.
//!
//! Every quantity is an exact rational, a numerator over a denominator, so
//! the placement is computed and stated without rounding; the presentation
//! layer divides out whatever precision its drawing API wants.

use vstd::prelude::*;
use vstd::arithmetic::mul::{lemma_mul_is_commutative, lemma_mul_strictly_positive, lemma_mul_upper_bound};

verus! {

/// Where and how large the frame is drawn inside the window.
///
/// The per-axis stretch applied to the source buffer is
/// `scale_x_num / scale_x_den` by `scale_y_num / scale_y_den`; the top-left
/// corner of the scaled content sits at `offset_x_num / offset_den` from the
/// left edge and `offset_y_num / offset_den` from the top.
#[derive(Clone, Copy, Debug, PartialEq, Eq, Structural)]
pub struct Placement {
    pub scale_x_num: u64,
    pub scale_x_den: u64,
    pub scale_y_num: u64,
    pub scale_y_den: u64,
    pub offset_x_num: u64,
    pub offset_y_num: u64,
    pub offset_den: u64,
}

/// Compute the letterboxed placement of a frame buffer presented at the
/// content's ideal size inside a window.
///
/// The uniform factor is the smaller of the two axis fits
/// `window_width / ideal_width` and `window_height / ideal_height`; the
/// scaled content never overflows the window, is centered, and when the
/// window's aspect ratio does not match the content's, exactly the axis
/// with room to spare gets a nonzero margin. Returns nothing exactly when
/// some content or buffer dimension is zero, leaving no ratio to preserve.
pub fn calc_dest_scale(
    ideal_width: u32,
    ideal_height: u32,
    buffer_width: u32,
    buffer_height: u32,
    window_width: u32,
    window_height: u32,
) -> (r: Option<Placement>)
    ensures
        r is Some <==> (ideal_width > 0 && ideal_height > 0 && buffer_width > 0 && buffer_height
            > 0),
        r matches Some(p) ==> ({
            let fit_x = window_width as int * ideal_height as int <= window_height as int
                * ideal_width as int;
            let fnum: int = if fit_x { window_width as int } else { window_height as int };
            let fden: int = if fit_x { ideal_width as int } else { ideal_height as int };
            &&& p.scale_x_num == ideal_width as int * fnum
            &&& p.scale_x_den == buffer_width as int * fden
            &&& p.scale_y_num == ideal_height as int * fnum
            &&& p.scale_y_den == buffer_height as int * fden
            &&& p.offset_x_num == window_width as int * fden - ideal_width as int * fnum
            &&& p.offset_y_num == window_height as int * fden - ideal_height as int * fnum
            &&& p.offset_den == 2 * fden
            &&& p.scale_x_den > 0
            &&& p.scale_y_den > 0
            &&& p.offset_den > 0
            &&& ideal_width as int * fnum <= window_width as int * fden
            &&& ideal_height as int * fnum <= window_height as int * fden
        }),
        r matches Some(p) ==> ((window_width as int * ideal_height as int) < (window_height
            as int * ideal_width as int) ==> p.offset_x_num == 0 && p.offset_y_num > 0),
        r matches Some(p) ==> ((window_width as int * ideal_height as int) > (window_height
            as int * ideal_width as int) ==> p.offset_y_num == 0 && p.offset_x_num > 0),
        r matches Some(p) ==> (window_width as int * ideal_height as int == window_height as int
            * ideal_width as int ==> p.offset_x_num == 0 && p.offset_y_num == 0),
{
    if ideal_width == 0 || ideal_height == 0 || buffer_width == 0 || buffer_height == 0 {
        return None;
    }
    let iw: u64 = ideal_width as u64;
    let ih: u64 = ideal_height as u64;
    let bw: u64 = buffer_width as u64;
    let bh: u64 = buffer_height as u64;
    let ww: u64 = window_width as u64;
    let wh: u64 = window_height as u64;
    proof {
        lemma_mul_upper_bound(ww as int, 0xffff_ffff, ih as int, 0xffff_ffff);
        lemma_mul_upper_bound(wh as int, 0xffff_ffff, iw as int, 0xffff_ffff);
    }
    let cross_x: u64 = ww * ih;
    let cross_y: u64 = wh * iw;
    let fit_x: bool = cross_x <= cross_y;
    let fnum: u64 = if fit_x { ww } else { wh };
    let fden: u64 = if fit_x { iw } else { ih };
    proof {
        lemma_mul_upper_bound(iw as int, 0xffff_ffff, fnum as int, 0xffff_ffff);
        lemma_mul_upper_bound(bw as int, 0xffff_ffff, fden as int, 0xffff_ffff);
        lemma_mul_upper_bound(ih as int, 0xffff_ffff, fnum as int, 0xffff_ffff);
        lemma_mul_upper_bound(bh as int, 0xffff_ffff, fden as int, 0xffff_ffff);
        lemma_mul_upper_bound(ww as int, 0xffff_ffff, fden as int, 0xffff_ffff);
        lemma_mul_upper_bound(wh as int, 0xffff_ffff, fden as int, 0xffff_ffff);
    }
    proof {
        lemma_mul_strictly_positive(bw as int, fden as int);
        lemma_mul_strictly_positive(bh as int, fden as int);
    }
    let scale_x_num: u64 = iw * fnum;
    let scale_x_den: u64 = bw * fden;
    let scale_y_num: u64 = ih * fnum;
    let scale_y_den: u64 = bh * fden;
    let window_x: u64 = ww * fden;
    let window_y: u64 = wh * fden;
    proof {
        if fit_x {
            lemma_mul_is_commutative(iw as int, ww as int);
            lemma_mul_is_commutative(ww as int, ih as int);
            lemma_mul_is_commutative(wh as int, iw as int);
        } else {
            lemma_mul_is_commutative(ih as int, wh as int);
            lemma_mul_is_commutative(wh as int, iw as int);
            lemma_mul_is_commutative(ww as int, ih as int);
        }
    }
    let offset_x_num: u64 = window_x - scale_x_num;
    let offset_y_num: u64 = window_y - scale_y_num;
    let offset_den: u64 = 2 * fden;
    Some(
        Placement {
            scale_x_num,
            scale_x_den,
            scale_y_num,
            scale_y_den,
            offset_x_num,
            offset_y_num,
            offset_den,
        },
    )
}

} // verus!
