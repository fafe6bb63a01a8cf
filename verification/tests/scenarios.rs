//! Concrete end-to-end scenarios: small patches with hand-derived
//! expected vertices and faces.

use tilings::mesh::{Coord, Point};
use tilings::{RegularTiling, SemiRegularTiling};

fn pt(xu: i64, x2: i64, x3: i64, yu: i64, y2: i64, y3: i64) -> Point {
    Point {
        x: Coord { units: xu, rt2: x2, rt3: x3 },
        y: Coord { units: yu, rt2: y2, rt3: y3 },
    }
}

#[test]
fn square_three_by_three() {
    let m = RegularTiling::square(3, 3).unwrap();
    assert_eq!(m.points().len(), 9);
    for y in 0..3i64 {
        for x in 0..3i64 {
            // integer coordinates (0,0) .. (2,2), held in half units
            assert_eq!(m.points()[(x + y * 3) as usize], pt(2 * x, 0, 0, 2 * y, 0, 0));
        }
    }
    let expected: Vec<Vec<u32>> = vec![
        vec![0, 1, 4, 3],
        vec![1, 2, 5, 4],
        vec![3, 4, 7, 6],
        vec![4, 5, 8, 7],
    ];
    assert_eq!(m.faces(), &expected);
}

#[test]
fn triangle_two_by_two() {
    let m = RegularTiling::triangle(2, 2).unwrap();
    assert_eq!(m.points().len(), 4);
    let expected: Vec<Vec<u32>> = vec![vec![0, 1, 2], vec![1, 3, 2]];
    assert_eq!(m.faces(), &expected);
}

#[test]
fn triangle_points_exact() {
    // x + 0.5 * y and y * sqrt(3) / 2, in half units
    let m = RegularTiling::triangle(3, 2).unwrap();
    assert_eq!(m.points()[0], pt(0, 0, 0, 0, 0, 0));
    assert_eq!(m.points()[1], pt(2, 0, 0, 0, 0, 0));
    assert_eq!(m.points()[2], pt(1, 0, 0, 0, 0, 1));
    assert_eq!(m.points()[3], pt(3, 0, 0, 0, 0, 1));
    assert_eq!(m.points()[4], pt(2, 0, 0, 0, 0, 2));
    assert_eq!(m.points()[5], pt(4, 0, 0, 0, 0, 2));
}

#[test]
fn hexagon_four_by_four() {
    let m = RegularTiling::hexagon(4, 4).unwrap();
    assert_eq!(m.points().len(), 16);
    // brick-offset abscissa: floor((x + y % 2) / 2) * 3 + (x + y) % 2 - 1.5 * (y % 2)
    assert_eq!(m.points()[0], pt(0, 0, 0, 0, 0, 0));
    assert_eq!(m.points()[1], pt(2, 0, 0, 0, 0, 0));
    assert_eq!(m.points()[2], pt(6, 0, 0, 0, 0, 0));
    assert_eq!(m.points()[4], pt(-1, 0, 0, 0, 0, 1));
    assert_eq!(m.points()[5], pt(3, 0, 0, 0, 0, 1));
    let expected: Vec<Vec<u32>> = vec![
        vec![0, 1, 5, 9, 8, 4],
        vec![2, 3, 7, 11, 10, 6],
        vec![5, 6, 10, 14, 13, 9],
    ];
    assert_eq!(m.faces(), &expected);
}

#[test]
fn semi_regular_one_four_by_four() {
    // discriminator (x + 3 * y) % 7 over the interior cells (1,1)..(2,2)
    let m = SemiRegularTiling::one(4, 4).unwrap();
    assert_eq!(m.points().len(), 16);
    let expected: Vec<Vec<u32>> = vec![
        vec![6, 10, 9],
        vec![6, 9, 8, 4, 1, 2],
        vec![6, 7, 10],
        vec![7, 11, 10],
        vec![9, 10, 13],
    ];
    assert_eq!(m.faces(), &expected);
}

#[test]
fn semi_regular_three_three_by_three() {
    let m = SemiRegularTiling::three(3, 3).unwrap();
    assert_eq!(m.points().len(), 9);
    let expected: Vec<Vec<u32>> = vec![
        vec![0, 1, 4, 3],
        vec![1, 2, 5, 4],
        vec![3, 4, 6],
        vec![4, 7, 6],
        vec![4, 5, 7],
        vec![5, 8, 7],
    ];
    assert_eq!(m.faces(), &expected);
}

#[test]
fn semi_regular_two_points_exact() {
    // 2x2 super-cells with sqrt(2) octagon offsets, in half units
    let m = SemiRegularTiling::two(4, 4).unwrap();
    assert_eq!(m.points()[0], pt(0, 0, 0, 0, 0, 0));
    assert_eq!(m.points()[1], pt(2, 0, 0, 0, 0, 0));
    assert_eq!(m.points()[2], pt(4, 2, 0, 0, 0, 0));
    assert_eq!(m.points()[4], pt(0, 0, 0, 2, 0, 0));
    assert_eq!(m.points()[8], pt(2, 1, 0, 2, 1, 0));
    assert_eq!(m.points()[14], pt(6, 3, 0, 4, 1, 0));
}

#[test]
fn tiling_names() {
    assert_eq!(RegularTiling::triangle(2, 2).unwrap().name(), "TRIANGLE");
    assert_eq!(RegularTiling::square(2, 2).unwrap().name(), "SQUARE");
    assert_eq!(RegularTiling::hexagon(2, 2).unwrap().name(), "HEXAGON");
    assert_eq!(SemiRegularTiling::one(2, 2).unwrap().name(), "SEMI-REGULAR-1");
    assert_eq!(SemiRegularTiling::two(2, 2).unwrap().name(), "SEMI-REGULAR-2");
    assert_eq!(SemiRegularTiling::three(2, 2).unwrap().name(), "SEMI-REGULAR-3");
    assert_eq!(SemiRegularTiling::four(2, 2).unwrap().name(), "SEMI-REGULAR-4");
    assert_eq!(SemiRegularTiling::five(2, 2).unwrap().name(), "SEMI-REGULAR-5");
    assert_eq!(SemiRegularTiling::six(2, 2).unwrap().name(), "SEMI-REGULAR-6");
    assert_eq!(SemiRegularTiling::seven(2, 2).unwrap().name(), "SEMI-REGULAR-7");
    assert_eq!(SemiRegularTiling::eight(2, 2).unwrap().name(), "SEMI-REGULAR-8");
}
