//! Properties that hold across every tiling: vertex counts, in-bounds and
//! distinct face keys, polygon sizes, determinism, patch-size
//! independence, degenerate inputs, and the overflow guard.

use tilings::mesh::{Point, TilingError};
use tilings::{RegularTiling, SemiRegularTiling};

/// Every tiling's mesh for the given dimensions, with the polygon sizes
/// its face rule may emit.
fn all_meshes(rows: u32, cols: u32) -> Vec<(&'static str, Vec<Point>, Vec<Vec<u32>>, Vec<usize>)> {
    let mut out: Vec<(&'static str, Vec<Point>, Vec<Vec<u32>>, Vec<usize>)> = Vec::new();
    let m = RegularTiling::triangle(rows, cols).unwrap();
    out.push(("TRIANGLE", m.points, m.face_index, vec![3]));
    let m = RegularTiling::square(rows, cols).unwrap();
    out.push(("SQUARE", m.points, m.face_index, vec![4]));
    let m = RegularTiling::hexagon(rows, cols).unwrap();
    out.push(("HEXAGON", m.points, m.face_index, vec![6]));
    let m = SemiRegularTiling::one(rows, cols).unwrap();
    out.push(("SEMI-REGULAR-1", m.points, m.face_index, vec![3, 6]));
    let m = SemiRegularTiling::two(rows, cols).unwrap();
    out.push(("SEMI-REGULAR-2", m.points, m.face_index, vec![4, 8]));
    let m = SemiRegularTiling::three(rows, cols).unwrap();
    out.push(("SEMI-REGULAR-3", m.points, m.face_index, vec![3, 4]));
    let m = SemiRegularTiling::four(rows, cols).unwrap();
    out.push(("SEMI-REGULAR-4", m.points, m.face_index, vec![3, 6]));
    let m = SemiRegularTiling::five(rows, cols).unwrap();
    out.push(("SEMI-REGULAR-5", m.points, m.face_index, vec![3, 4]));
    let m = SemiRegularTiling::six(rows, cols).unwrap();
    out.push(("SEMI-REGULAR-6", m.points, m.face_index, vec![3, 12]));
    let m = SemiRegularTiling::seven(rows, cols).unwrap();
    out.push(("SEMI-REGULAR-7", m.points, m.face_index, vec![3, 4, 6]));
    let m = SemiRegularTiling::eight(rows, cols).unwrap();
    out.push(("SEMI-REGULAR-8", m.points, m.face_index, vec![4, 6, 12]));
    out
}

#[test]
fn point_count_is_rows_times_cols() {
    for (rows, cols) in [(0u32, 0u32), (0, 4), (4, 0), (1, 1), (5, 7), (16, 16)] {
        for (name, points, _, _) in all_meshes(rows, cols) {
            assert_eq!(points.len(), (rows * cols) as usize, "{name} {rows}x{cols}");
        }
    }
}

#[test]
fn face_keys_in_bounds_and_distinct() {
    for (rows, cols) in [(16u32, 16u32), (17, 19), (9, 23)] {
        let n = rows * cols;
        for (name, _, faces, _) in all_meshes(rows, cols) {
            for face in &faces {
                for &key in face {
                    assert!(key < n, "{name}: key {key} out of bounds");
                }
                for i in 0..face.len() {
                    for j in (i + 1)..face.len() {
                        assert_ne!(face[i], face[j], "{name}: repeated key in {face:?}");
                    }
                }
            }
        }
    }
}

#[test]
fn face_shapes_match_polygon_mix() {
    for (name, _, faces, allowed) in all_meshes(16, 16) {
        assert!(!faces.is_empty(), "{name}: no faces at 16x16");
        for face in &faces {
            assert!(allowed.contains(&face.len()), "{name}: a {}-gon", face.len());
        }
        for want in &allowed {
            assert!(
                faces.iter().any(|f| f.len() == *want),
                "{name}: no {want}-gon at 16x16",
            );
        }
    }
}

#[test]
fn polygon_counts_follow_discriminators() {
    // eighth tiling at 16x16: interior is 3..13 by 3..12; one dodecagon
    // per cell with x % 4 == 3 and y % 4 == 1, so x in {3,7,11}, y in {5,9}
    let m = SemiRegularTiling::eight(16, 16).unwrap();
    assert_eq!(m.face_index.iter().filter(|f| f.len() == 12).count(), 6);
    // sixth tiling at 16x16: interior is 0..13 by 1..12; one dodecagon per
    // cell with x even and y % 4 == 0, so x in {0,2,...,12}, y in {4,8}
    let m = SemiRegularTiling::six(16, 16).unwrap();
    assert_eq!(m.face_index.iter().filter(|f| f.len() == 12).count(), 14);
    // second tiling at 16x16: one octagon per cell with x odd and y even
    // in 1..14 by 1..14, so x in {1,3,...,13}, y in {2,4,...,12}
    let m = SemiRegularTiling::two(16, 16).unwrap();
    assert_eq!(m.face_index.iter().filter(|f| f.len() == 8).count(), 42);
}

#[test]
fn generation_is_deterministic() {
    let first = all_meshes(13, 11);
    let second = all_meshes(13, 11);
    for ((n1, p1, f1, _), (n2, p2, f2, _)) in first.iter().zip(second.iter()) {
        assert_eq!(n1, n2);
        assert_eq!(p1, p2, "{n1}: points differ between calls");
        assert_eq!(f1, f2, "{n1}: faces differ between calls");
    }
}

#[test]
fn point_positions_independent_of_patch_size() {
    let (r1, c1) = (8u32, 9u32);
    let (r2, c2) = (12u32, 13u32);
    let small = all_meshes(r1, c1);
    let large = all_meshes(r2, c2);
    for ((name, p1, _, _), (_, p2, _, _)) in small.iter().zip(large.iter()) {
        for y in 0..r1 {
            for x in 0..c1 {
                assert_eq!(
                    p1[(x + y * c1) as usize],
                    p2[(x + y * c2) as usize],
                    "{name}: point ({x},{y}) moved with patch size",
                );
            }
        }
    }
}

#[test]
fn degenerate_dimensions_yield_no_faces() {
    for (rows, cols) in [(0u32, 0u32), (0, 5), (5, 0), (1, 1)] {
        for (name, points, faces, _) in all_meshes(rows, cols) {
            assert_eq!(points.len(), (rows * cols) as usize, "{name}");
            assert!(faces.is_empty(), "{name}: faces at {rows}x{cols}");
        }
    }
}

#[test]
fn dimensions_below_margins_yield_no_faces() {
    assert!(SemiRegularTiling::one(2, 16).unwrap().face_index.is_empty());
    assert!(SemiRegularTiling::one(16, 2).unwrap().face_index.is_empty());
    assert!(SemiRegularTiling::four(3, 16).unwrap().face_index.is_empty());
    assert!(SemiRegularTiling::four(16, 2).unwrap().face_index.is_empty());
    assert!(SemiRegularTiling::six(5, 16).unwrap().face_index.is_empty());
    assert!(SemiRegularTiling::six(16, 3).unwrap().face_index.is_empty());
    assert!(SemiRegularTiling::seven(5, 16).unwrap().face_index.is_empty());
    assert!(SemiRegularTiling::seven(16, 4).unwrap().face_index.is_empty());
    assert!(SemiRegularTiling::eight(7, 16).unwrap().face_index.is_empty());
    assert!(SemiRegularTiling::eight(16, 6).unwrap().face_index.is_empty());
    assert!(RegularTiling::hexagon(2, 16).unwrap().face_index.is_empty());
    // margins are not over-sized: modest patches do carry faces
    assert!(!SemiRegularTiling::eight(12, 11).unwrap().face_index.is_empty());
    assert!(!RegularTiling::hexagon(3, 2).unwrap().face_index.is_empty());
}

#[test]
fn oversized_lattice_is_an_overflow_error() {
    assert!(matches!(
        RegularTiling::triangle(65536, 65536),
        Err(TilingError::Overflow)
    ));
    assert!(matches!(
        RegularTiling::square(u32::MAX, 2),
        Err(TilingError::Overflow)
    ));
    assert!(matches!(
        RegularTiling::hexagon(2, u32::MAX),
        Err(TilingError::Overflow)
    ));
    assert!(matches!(
        SemiRegularTiling::one(65536, 65536),
        Err(TilingError::Overflow)
    ));
    assert!(matches!(
        SemiRegularTiling::two(65536, 65536),
        Err(TilingError::Overflow)
    ));
    assert!(matches!(
        SemiRegularTiling::three(65536, 65536),
        Err(TilingError::Overflow)
    ));
    assert!(matches!(
        SemiRegularTiling::four(65536, 65536),
        Err(TilingError::Overflow)
    ));
    assert!(matches!(
        SemiRegularTiling::five(65536, 65536),
        Err(TilingError::Overflow)
    ));
    assert!(matches!(
        SemiRegularTiling::six(65536, 65536),
        Err(TilingError::Overflow)
    ));
    assert!(matches!(
        SemiRegularTiling::seven(65536, 65536),
        Err(TilingError::Overflow)
    ));
    assert!(matches!(
        SemiRegularTiling::eight(65536, 65536),
        Err(TilingError::Overflow)
    ));
    // a lattice that fits the key type is not rejected
    assert!(RegularTiling::square(65535, 2).is_ok());
}
