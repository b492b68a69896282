use raytracer::bands::{band_pixel_count, band_rows};
use raytracer::buffer::{concat_bands, flat_index, image_coords};
use raytracer::bvh::{build_shape, leaf_index_list, BvhShape};
use raytracer::integrator::{radiance_step, RadianceStep, SurfaceEvent};

#[test]
fn bands_even_split() {
    for id in 0..4 {
        let (beg, end) = band_rows(id, 4, 100);
        assert_eq!(beg, id * 25);
        assert_eq!(end, id * 25 + 25);
    }
}

#[test]
fn bands_last_absorbs_remainder() {
    // 100 rows over 8 workers: bands of 12 rows, the last takes 16.
    for id in 0..7 {
        let (beg, end) = band_rows(id, 8, 100);
        assert_eq!(beg, id * 12);
        assert_eq!(end, id * 12 + 12);
    }
    let (beg, end) = band_rows(7, 8, 100);
    assert_eq!(beg, 84);
    assert_eq!(end, 100);
}

#[test]
fn bands_single_worker() {
    assert_eq!(band_rows(0, 1, 37), (0, 37));
}

#[test]
fn bands_more_workers_than_rows() {
    // 3 rows over 5 workers: the first four bands are empty, the last
    // renders everything.
    for id in 0..4 {
        assert_eq!(band_rows(id, 5, 3), (0, 0));
    }
    assert_eq!(band_rows(4, 5, 3), (0, 3));
}

#[test]
fn bands_tile_the_image() {
    let (threads, height) = (7, 453);
    let mut covered = vec![0u32; height];
    for id in 0..threads {
        let (beg, end) = band_rows(id, threads, height);
        assert!(beg <= end && end <= height);
        for row in beg..end {
            covered[row] += 1;
        }
    }
    assert!(covered.iter().all(|&c| c == 1));
}

#[test]
fn band_pixel_count_is_width_times_rows() {
    assert_eq!(band_pixel_count(20, 12, 24), 240);
    assert_eq!(band_pixel_count(20, 5, 5), 0);
}

#[test]
fn flat_index_row_major() {
    assert_eq!(flat_index(0, 0, 4), 0);
    assert_eq!(flat_index(3, 2, 4), 11);
}

#[test]
fn image_coords_bottom_to_top() {
    // Buffer entry 0 is the left pixel of the bottom image row.
    assert_eq!(image_coords(0, 4, 3), (0, 2));
    assert_eq!(image_coords(3, 4, 3), (3, 2));
    assert_eq!(image_coords(4, 4, 3), (0, 1));
    assert_eq!(image_coords(11, 4, 3), (3, 0));
}

#[test]
fn image_coords_round_trip() {
    let (width, height) = (20, 13);
    for idx in 0..width * height {
        let (x, y) = image_coords(idx, width, height);
        assert!(x < width && y < height);
        assert_eq!(flat_index(x, height - 1 - y, width), idx);
    }
}

#[test]
fn concat_bands_keeps_worker_order() {
    let bands = vec![vec![1u32, 2, 3], vec![], vec![4, 5], vec![6]];
    assert_eq!(concat_bands(bands), vec![1, 2, 3, 4, 5, 6]);
}

#[test]
fn concat_bands_of_nothing_is_empty() {
    let bands: Vec<Vec<u32>> = vec![];
    assert!(concat_bands(bands).is_empty());
}

#[test]
fn concat_bands_on_colors() {
    let bands = vec![vec![[0.0f64, 0.5, 1.0], [0.25, 0.25, 0.25]], vec![[1.0, 1.0, 1.0]]];
    let flat = concat_bands(bands);
    assert_eq!(flat.len(), 3);
    assert_eq!(flat[0], [0.0, 0.5, 1.0]);
    assert_eq!(flat[2], [1.0, 1.0, 1.0]);
}

fn check_axes(shape: &BvhShape) {
    match shape {
        BvhShape::Leaf { .. } => {}
        BvhShape::Node { axis, left, right } => {
            assert!(*axis < 3);
            check_axes(left);
            check_axes(right);
        }
    }
}

#[test]
fn bvh_shape_single_primitive() {
    let shape = build_shape(5, 6);
    assert!(matches!(shape, BvhShape::Leaf { index: 5 }));
}

#[test]
fn bvh_shape_two_primitives() {
    let shape = build_shape(0, 2);
    match &shape {
        BvhShape::Node { axis, left, right } => {
            assert!(*axis < 3);
            assert!(matches!(**left, BvhShape::Leaf { index: 0 }));
            assert!(matches!(**right, BvhShape::Leaf { index: 1 }));
        }
        BvhShape::Leaf { .. } => panic!("two primitives must split"),
    }
}

#[test]
fn bvh_shape_keeps_every_primitive_once() {
    for &(lo, hi) in &[(0usize, 7usize), (3, 4), (2, 10), (0, 33)] {
        let shape = build_shape(lo, hi);
        check_axes(&shape);
        let leaves = leaf_index_list(&shape);
        let expected: Vec<usize> = (lo..hi).collect();
        assert_eq!(leaves, expected);
    }
}

#[test]
fn depth_cutoff_returns_black() {
    let events = [
        SurfaceEvent::Miss,
        SurfaceEvent::Absorbed,
        SurfaceEvent::SpecularBounce,
        SurfaceEvent::DiffuseBounce { degenerate_pdf: false },
        SurfaceEvent::DiffuseBounce { degenerate_pdf: true },
    ];
    for event in events {
        assert_eq!(radiance_step(0, event), RadianceStep::Black);
    }
}

#[test]
fn miss_returns_background() {
    assert_eq!(radiance_step(50, SurfaceEvent::Miss), RadianceStep::Background);
}

#[test]
fn absorbed_returns_emission_only() {
    assert_eq!(radiance_step(50, SurfaceEvent::Absorbed), RadianceStep::EmissionOnly);
}

#[test]
fn bounces_spend_one_depth_unit() {
    assert_eq!(
        radiance_step(3, SurfaceEvent::SpecularBounce),
        RadianceStep::SpecularRecurse { next_depth: 2 }
    );
    assert_eq!(
        radiance_step(3, SurfaceEvent::DiffuseBounce { degenerate_pdf: false }),
        RadianceStep::DiffuseRecurse { next_depth: 2 }
    );
}

#[test]
fn degenerate_pdf_sample_keeps_emission_only() {
    assert_eq!(
        radiance_step(3, SurfaceEvent::DiffuseBounce { degenerate_pdf: true }),
        RadianceStep::EmissionOnly
    );
}
