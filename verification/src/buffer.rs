//! Layout of the flat pixel buffer.
//!
//! Workers emit colors bottom-to-top, row major: the flat buffer index runs
//! `x` fastest, starting at the bottom image row. The image sink addresses
//! pixels top-down, so the flat index must be mapped back to image
//! coordinates when the buffer is encoded.

use crate::bands::{spec_band_end, spec_band_size, spec_band_start};
use vstd::prelude::*;

verus! {

/// Position of a pixel inside the flat, row-major sample buffer that a
/// worker fills for its band: `x` steps fastest, one row is `width` entries.
pub fn flat_index(x: usize, row: usize, width: usize) -> (idx: usize)
    requires
        x < width,
        row * width + x <= usize::MAX,
    ensures
        idx == row * width + x,
{
    row * width + x
}

/// Image-plane coordinates of the flat-buffer entry `idx`: the buffer is
/// row major with `x` fastest, and its first row is the bottom image row,
/// so the image `y` counts down from `height - 1`.
pub fn image_coords(idx: usize, width: usize, height: usize) -> (xy: (usize, usize))
    requires
        0 < width,
        idx < width * height,
    ensures
        xy.0 == idx % width,
        xy.1 == height - 1 - idx / width,
        xy.0 < width,
        xy.1 < height,
        (height - 1 - xy.1) * width + xy.0 == idx,
{
    let q = idx / width;
    let r = idx % width;
    proof {
        broadcast use vstd::arithmetic::mul::lemma_mul_is_commutative;

        vstd::arithmetic::div_mod::lemma_fundamental_div_mod(idx as int, width as int);
        vstd::arithmetic::div_mod::lemma_mod_bound(idx as int, width as int);
        vstd::arithmetic::div_mod::lemma_multiply_divide_lt(idx as int, width as int, height as int);
    }
    (r, height - 1 - q)
}

/// The contents of the per-worker band buffers, in worker order, as one
/// flat sequence.
pub open spec fn spec_flattened<T>(bands: Seq<Vec<T>>) -> Seq<T>
    decreases bands.len(),
{
    if bands.len() == 0 {
        Seq::empty()
    } else {
        bands.first()@ + spec_flattened(bands.drop_first())
    }
}

/// Joins the band buffers of the workers, in worker order (worker 0 first),
/// into the single flat pixel buffer handed to the image sink: the result
/// is exactly the bands' contents, concatenated, nothing dropped and
/// nothing reordered.
pub fn concat_bands<T>(bands: Vec<Vec<T>>) -> (flat: Vec<T>)
    ensures
        flat@ == spec_flattened(bands@),
{
    let ghost whole = spec_flattened(bands@);
    let mut rest = bands;
    let mut flat: Vec<T> = Vec::new();
    proof {
        assert(flat@ + spec_flattened(rest@) =~= whole);
    }
    while rest.len() > 0
        invariant
            flat@ + spec_flattened(rest@) == whole,
        decreases rest.len(),
    {
        let ghost prev_flat = flat@;
        let ghost prev = rest@;
        let mut band = rest.remove(0);
        flat.append(&mut band);
        proof {
            assert(rest@ =~= prev.drop_first());
            assert(flat@ =~= prev_flat + prev.first()@);
            assert(flat@ + spec_flattened(rest@) =~= whole);
        }
    }
    proof {
        assert(flat@ =~= whole);
    }
    flat
}

/// Length bookkeeping for `lemma_bands_fill_image`, over the bands from
/// worker `i` on.
proof fn lemma_flattened_tail_len<T>(
    views: Seq<Vec<T>>,
    i: int,
    thread_num: int,
    img_width: int,
    img_height: int,
)
    requires
        0 < thread_num,
        0 <= i < thread_num,
        views.len() == thread_num - i,
        0 <= img_width,
        0 <= img_height,
        forall|j: int|
            0 <= j < views.len() ==> (#[trigger] views[j])@.len() == img_width * (
            spec_band_end(i + j, thread_num, img_height) - spec_band_start(
                i + j,
                thread_num,
                img_height,
            )),
    ensures
        spec_flattened(views).len() == img_width * (img_height - spec_band_start(
            i,
            thread_num,
            img_height,
        )),
    decreases views.len(),
{
    assert(spec_flattened(views) == views.first()@ + spec_flattened(views.drop_first()));
    if i == thread_num - 1 {
        assert(views.drop_first().len() == 0);
        assert(spec_flattened(views.drop_first()).len() == 0);
        assert(views[0]@.len() == img_width * (img_height - spec_band_start(
            i,
            thread_num,
            img_height,
        )));
    } else {
        let tail = views.drop_first();
        assert(views[0]@.len() == img_width * (spec_band_end(i, thread_num, img_height)
            - spec_band_start(i, thread_num, img_height)));
        assert forall|j: int| 0 <= j < tail.len() implies (#[trigger] tail[j])@.len() == img_width
            * (spec_band_end(i + 1 + j, thread_num, img_height) - spec_band_start(
            i + 1 + j,
            thread_num,
            img_height,
        )) by {
            assert(tail[j] == views[j + 1]);
        }
        lemma_flattened_tail_len(tail, i + 1, thread_num, img_width, img_height);
        assert(spec_band_start(i + 1, thread_num, img_height) == spec_band_end(
            i,
            thread_num,
            img_height,
        ));
        let e = spec_band_end(i, thread_num, img_height);
        let s = spec_band_start(i, thread_num, img_height);
        assert(img_width * (e - s) + img_width * (img_height - e) == img_width * (img_height
            - s)) by {
            vstd::arithmetic::mul::lemma_mul_is_distributive_add(img_width, e - s, img_height - e);
        }
    }
}

/// A full image: when every worker's band buffer holds one color per pixel
/// of its band (the band's rows times the image width), the joined flat
/// buffer holds exactly `img_width * img_height` colors.
pub proof fn lemma_bands_fill_image<T>(
    views: Seq<Vec<T>>,
    thread_num: int,
    img_width: int,
    img_height: int,
)
    requires
        0 < thread_num,
        views.len() == thread_num,
        0 <= img_width,
        0 <= img_height,
        forall|i: int|
            0 <= i < thread_num ==> (#[trigger] views[i])@.len() == img_width * (
            spec_band_end(i, thread_num, img_height) - spec_band_start(
                i,
                thread_num,
                img_height,
            )),
    ensures
        spec_flattened(views).len() == img_width * img_height,
{
    lemma_flattened_tail_len(views, 0, thread_num, img_width, img_height);
    assert(spec_band_start(0, thread_num, img_height) == 0) by {
        vstd::arithmetic::mul::lemma_mul_basics(
            spec_band_size(thread_num, img_height),
        );
    }
}

} // verus!
