//! Division of the image into row bands, one band per worker thread.
//!
//! The renderer gives each of `thread_num` workers a contiguous, disjoint
//! band of image rows: every band holds `img_height / thread_num` rows,
//! except that the last worker absorbs the remainder. Workers never share a
//! row, and together the bands tile the whole image.

use vstd::prelude::*;

verus! {

/// Number of rows in every band but the last: the image height divided
/// evenly over the workers, rounded down.
pub open spec fn spec_band_size(thread_num: int, img_height: int) -> int {
    img_height / thread_num
}

/// First row of the band of worker `thread_id`.
pub open spec fn spec_band_start(thread_id: int, thread_num: int, img_height: int) -> int {
    thread_id * spec_band_size(thread_num, img_height)
}

/// One past the last row of the band of worker `thread_id`; the last
/// worker's band runs to the image height, absorbing the remainder rows.
pub open spec fn spec_band_end(thread_id: int, thread_num: int, img_height: int) -> int {
    if thread_id == thread_num - 1 {
        img_height
    } else {
        (thread_id + 1) * spec_band_size(thread_num, img_height)
    }
}

/// Arithmetic facts shared by the band functions: band bounds are ordered
/// and stay within the image.
proof fn lemma_band_arith(id: int, n: int, h: int)
    requires
        0 < n,
        0 <= id < n,
        0 <= h,
    ensures
        0 <= id * (h / n),
        (id + 1) * (h / n) == id * (h / n) + h / n,
        (id + 1) * (h / n) <= h,
{
    let s = h / n;
    vstd::arithmetic::div_mod::lemma_fundamental_div_mod(h, n);
    vstd::arithmetic::div_mod::lemma_mod_bound(h, n);
    assert(0 <= s) by {
        vstd::arithmetic::div_mod::lemma_div_pos_is_pos(h, n);
    }
    vstd::arithmetic::mul::lemma_mul_nonnegative(id, s);
    assert((id + 1) * s == id * s + 1 * s) by {
        vstd::arithmetic::mul::lemma_mul_is_distributive_add_other_way(s, id, 1);
    }
    assert((id + 1) * s <= n * s) by {
        vstd::arithmetic::mul::lemma_mul_inequality(id + 1, n, s);
    }
    assert(n * s <= h);
}

/// The rows rendered by worker `thread_id`, as the half-open range
/// `band.0 .. band.1`.
pub fn band_rows(thread_id: usize, thread_num: usize, img_height: usize) -> (band: (usize, usize))
    requires
        0 < thread_num,
        thread_id < thread_num,
    ensures
        band.0 == spec_band_start(thread_id as int, thread_num as int, img_height as int),
        band.1 == spec_band_end(thread_id as int, thread_num as int, img_height as int),
        band.0 <= band.1 <= img_height,
{
    let section = img_height / thread_num;
    proof {
        lemma_band_arith(thread_id as int, thread_num as int, img_height as int);
    }
    let beg = thread_id * section;
    let end = if thread_id == thread_num - 1 {
        img_height
    } else {
        beg + section
    };
    (beg, end)
}

/// How many pixels a band of rows `row_beg .. row_end` holds; the length
/// handed to that worker's progress reporting.
pub fn band_pixel_count(img_width: usize, row_beg: usize, row_end: usize) -> (count: usize)
    requires
        row_beg <= row_end,
        img_width * (row_end - row_beg) <= usize::MAX,
    ensures
        count == img_width * (row_end - row_beg),
{
    img_width * (row_end - row_beg)
}

/// The bands tile the image: worker 0 starts at row 0, the last worker ends
/// at the image height, and each band begins exactly where the one before
/// it ends, so no row is dropped and none is rendered twice.
pub proof fn lemma_bands_tile(thread_num: int, img_height: int)
    requires
        0 < thread_num,
        0 <= img_height,
    ensures
        spec_band_start(0, thread_num, img_height) == 0,
        spec_band_end(thread_num - 1, thread_num, img_height) == img_height,
        forall|i: int|
            0 <= i < thread_num - 1 ==> #[trigger] spec_band_end(i, thread_num, img_height)
                == spec_band_start(i + 1, thread_num, img_height),
{
    vstd::arithmetic::mul::lemma_mul_basics(spec_band_size(thread_num, img_height));
}

/// The rows are divided evenly: every band holds exactly
/// `img_height / thread_num` rows, except the last, which also absorbs the
/// `img_height % thread_num` remainder rows.
pub proof fn lemma_band_sizes(thread_num: int, img_height: int)
    requires
        0 < thread_num,
        0 <= img_height,
    ensures
        forall|i: int|
            0 <= i < thread_num - 1 ==> #[trigger] spec_band_end(i, thread_num, img_height)
                - spec_band_start(i, thread_num, img_height) == spec_band_size(
                thread_num,
                img_height,
            ),
        spec_band_end(thread_num - 1, thread_num, img_height) - spec_band_start(
            thread_num - 1,
            thread_num,
            img_height,
        ) == spec_band_size(thread_num, img_height) + img_height % thread_num,
{
    let s = spec_band_size(thread_num, img_height);
    assert forall|i: int| 0 <= i < thread_num - 1 implies #[trigger] spec_band_end(
        i,
        thread_num,
        img_height,
    ) - spec_band_start(i, thread_num, img_height) == s by {
        vstd::arithmetic::mul::lemma_mul_is_distributive_add_other_way(s, i, 1);
    }
    vstd::arithmetic::div_mod::lemma_fundamental_div_mod(img_height, thread_num);
    assert((thread_num - 1) * s == thread_num * s - 1 * s) by {
        vstd::arithmetic::mul::lemma_mul_is_distributive_sub_other_way(s, thread_num, 1);
    }
}

/// Distinct workers never touch the same row: the band of worker `i` ends
/// no later than the band of any later worker `j` begins.
pub proof fn lemma_bands_disjoint(i: int, j: int, thread_num: int, img_height: int)
    requires
        0 < thread_num,
        0 <= i < j < thread_num,
        0 <= img_height,
    ensures
        spec_band_end(i, thread_num, img_height) <= spec_band_start(j, thread_num, img_height),
{
    let s = spec_band_size(thread_num, img_height);
    lemma_band_arith(i, thread_num, img_height);
    assert((i + 1) * s <= j * s) by {
        vstd::arithmetic::mul::lemma_mul_inequality(i + 1, j, s);
    }
}

/// Every image row is rendered: each row lies inside the band of some
/// worker.
pub proof fn lemma_row_covered(row: int, thread_num: int, img_height: int)
    requires
        0 < thread_num,
        0 <= row < img_height,
    ensures
        exists|i: int|
            0 <= i < thread_num && #[trigger] spec_band_start(i, thread_num, img_height) <= row
                < spec_band_end(i, thread_num, img_height),
{
    let s = spec_band_size(thread_num, img_height);
    vstd::arithmetic::div_mod::lemma_fundamental_div_mod(img_height, thread_num);
    vstd::arithmetic::div_mod::lemma_mod_bound(img_height, thread_num);
    if s == 0 {
        lemma_band_arith(thread_num - 1, thread_num, img_height);
        assert(spec_band_start(thread_num - 1, thread_num, img_height) <= row
            < spec_band_end(thread_num - 1, thread_num, img_height));
    } else {
        let q = row / s;
        vstd::arithmetic::div_mod::lemma_fundamental_div_mod(row, s);
        vstd::arithmetic::div_mod::lemma_mod_bound(row, s);
        if q < thread_num - 1 {
            assert(0 <= q) by {
                vstd::arithmetic::div_mod::lemma_div_pos_is_pos(row, s);
            }
            assert(spec_band_start(q, thread_num, img_height) <= row) by {
                assert(q * s <= row);
            }
            assert(row < spec_band_end(q, thread_num, img_height)) by {
                assert((q + 1) * s == q * s + 1 * s) by {
                    vstd::arithmetic::mul::lemma_mul_is_distributive_add_other_way(s, q, 1);
                }
            }
            assert(0 <= q < thread_num && spec_band_start(q, thread_num, img_height) <= row
                < spec_band_end(q, thread_num, img_height));
        } else {
            let last = thread_num - 1;
            assert(last * s <= q * s) by {
                vstd::arithmetic::mul::lemma_mul_inequality(last, q, s);
            }
            assert(q * s <= row);
            assert(spec_band_start(last, thread_num, img_height) <= row
                < spec_band_end(last, thread_num, img_height));
        }
    }
}

} // verus!
