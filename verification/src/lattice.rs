//! Lattice builders: the per-tiling coordinate transforms.
//!
//! Each tiling maps a logical lattice cell `(x, y)` to an exact [`Point`]
//! through a closed-form transform of its own. Positions depend only on
//! `(x, y)`, never on the requested patch size, so a larger patch
//! reproduces the coordinates of every shared cell exactly.

use vstd::prelude::*;

use crate::keys::{lemma_flat_key_bound, lemma_flat_key_coords, lemma_flat_key_decompose};
use crate::mesh::{Coord, Point};

verus! {

/// The eleven uniform tilings: three regular, eight semi-regular.
#[derive(Clone, Copy, PartialEq, Eq, Structural, Debug)]
pub enum TilingKind {
    Triangle,
    Square,
    Hexagon,
    One,
    Two,
    Three,
    Four,
    Five,
    Six,
    Seven,
    Eight,
}

/// The 60-degree rhombic lattice: shared by the triangle tiling and the
/// semi-regular tilings built on a triangular grid.
pub open spec fn tri_point(x: int, y: int) -> Point {
    Point {
        x: Coord { units: (2 * x + y) as i64, rt2: 0, rt3: 0 },
        y: Coord { units: 0, rt2: 0, rt3: y as i64 },
    }
}

/// The unit square lattice.
pub open spec fn square_point(x: int, y: int) -> Point {
    Point {
        x: Coord { units: (2 * x) as i64, rt2: 0, rt3: 0 },
        y: Coord { units: (2 * y) as i64, rt2: 0, rt3: 0 },
    }
}

/// The brick-offset hexagon lattice: `x` staggers with the parities of
/// `x + y` and of `y`.
pub open spec fn hex_point(x: int, y: int) -> Point {
    Point {
        x: Coord {
            units: (6 * ((x + y % 2) / 2) + 2 * ((x + y) % 2) - 3 * (y % 2)) as i64,
            rt2: 0,
            rt3: 0,
        },
        y: Coord { units: 0, rt2: 0, rt3: y as i64 },
    }
}

/// Lattice of the second semi-regular tiling: 2x2 super-cells with
/// `sqrt(2)` octagon offsets.
pub open spec fn two_point(x: int, y: int) -> Point {
    Point {
        x: Coord {
            units: (4 * (x / 2) + 2 * (x % 2) + 2 * (y / 2)) as i64,
            rt2: (2 * (x / 2) + y / 2) as i64,
            rt3: 0,
        },
        y: Coord { units: (2 * (y / 2) + 2 * (y % 2)) as i64, rt2: (y / 2) as i64, rt3: 0 },
    }
}

/// Lattice of the third semi-regular tiling: square rows alternating with
/// triangle rows.
pub open spec fn three_point(x: int, y: int) -> Point {
    Point {
        x: Coord { units: (2 * x + y / 2) as i64, rt2: 0, rt3: 0 },
        y: Coord { units: (2 * (y / 2) + 2 * (y % 2)) as i64, rt2: 0, rt3: (y / 2) as i64 },
    }
}

/// Lattice of the fifth semi-regular tiling: 2x2 super-cells sheared in
/// both axes.
pub open spec fn five_point(x: int, y: int) -> Point {
    Point {
        x: Coord {
            units: (2 * (x / 2) + 2 * (x % 2) - y / 2) as i64,
            rt2: 0,
            rt3: (x / 2) as i64,
        },
        y: Coord {
            units: (2 * (y / 2) + 2 * (y % 2) + x / 2) as i64,
            rt2: 0,
            rt3: (y / 2) as i64,
        },
    }
}

/// Lattice of the sixth semi-regular tiling: 2-wide, 4-tall super-cells.
pub open spec fn six_point(x: int, y: int) -> Point {
    Point {
        x: Coord {
            units: (4 * (x / 2) + 2 * (x % 2) + 2 * (y / 4) + if y % 4 == 1 || y % 4 == 2 {
                1int
            } else {
                0int
            }) as i64,
            rt2: 0,
            rt3: (2 * (x / 2) + y / 4) as i64,
        },
        y: Coord {
            units: (3 * (y / 4) + if y % 4 == 2 || y % 4 == 3 {
                2int
            } else {
                0int
            }) as i64,
            rt2: 0,
            rt3: (2 * (y / 4) + if y % 4 == 1 || y % 4 == 2 {
                1int
            } else if y % 4 == 3 {
                2int
            } else {
                0int
            }) as i64,
        },
    }
}

/// Lattice of the seventh semi-regular tiling: 2-wide, 4-tall super-cells
/// with `sqrt(3)` column strides.
pub open spec fn seven_point(x: int, y: int) -> Point {
    Point {
        x: Coord {
            units: (2 * (x / 2) + y / 4) as i64,
            rt2: 0,
            rt3: (2 * (x / 2) + 2 * (x % 2) + y / 4 + if y % 4 == 0 || y % 4 == 3 {
                1int
            } else {
                0int
            }) as i64,
        },
        y: Coord {
            units: (3 * (y / 4) + if y % 4 == 0 {
                -1int
            } else if y % 4 == 2 {
                2int
            } else if y % 4 == 3 {
                3int
            } else {
                0int
            }) as i64,
            rt2: 0,
            rt3: (y / 4) as i64,
        },
    }
}

/// Lattice of the eighth semi-regular tiling: 4x4 super-cells mixing unit
/// and `sqrt(3)` strides.
pub open spec fn eight_point(x: int, y: int) -> Point {
    Point {
        x: Coord {
            units: (6 * (x / 4) + 3 * (y / 4) + if x % 4 == 2 || x % 4 == 3 {
                2int
            } else {
                0int
            }) as i64,
            rt2: 0,
            rt3: (6 * (x / 4) + 3 * (y / 4) + (if y % 4 == 0 || y % 4 == 3 {
                1int
            } else {
                0int
            }) + if x % 4 == 1 || x % 4 == 2 {
                2int
            } else if x % 4 == 3 {
                4int
            } else {
                0int
            }) as i64,
        },
        y: Coord {
            units: (3 * (y / 4) + if y % 4 == 0 {
                -1int
            } else if y % 4 == 2 {
                2int
            } else if y % 4 == 3 {
                3int
            } else {
                0int
            }) as i64,
            rt2: 0,
            rt3: (y / 4) as i64,
        },
    }
}

/// The coordinate transform of each tiling's lattice builder.
pub open spec fn point_spec(kind: TilingKind, x: int, y: int) -> Point {
    match kind {
        TilingKind::Triangle => tri_point(x, y),
        TilingKind::Square => square_point(x, y),
        TilingKind::Hexagon => hex_point(x, y),
        TilingKind::One => tri_point(x, y),
        TilingKind::Two => two_point(x, y),
        TilingKind::Three => three_point(x, y),
        TilingKind::Four => tri_point(x, y),
        TilingKind::Five => five_point(x, y),
        TilingKind::Six => six_point(x, y),
        TilingKind::Seven => seven_point(x, y),
        TilingKind::Eight => eight_point(x, y),
    }
}

/// `ps` is exactly the lattice a given tiling produces for `rows` by
/// `cols`: one point per cell, flat-indexed by `x + y * cols`.
pub open spec fn points_match(ps: Seq<Point>, rows: int, cols: int, kind: TilingKind) -> bool {
    &&& ps.len() == rows * cols
    &&& forall|x: int, y: int|
        0 <= x < cols && 0 <= y < rows ==> ps[x + y * cols] == #[trigger] point_spec(kind, x, y)
}

/// Computes the lattice point of cell `(x, y)` for the chosen tiling.
pub fn point_at(kind: TilingKind, x: u32, y: u32) -> (p: Point)
    ensures
        p == point_spec(kind, x as int, y as int),
{
    let xi = x as i64;
    let yi = y as i64;
    let xh = (x / 2) as i64;
    let xq = (x / 4) as i64;
    let xm2 = (x % 2) as i64;
    let xm4 = (x % 4) as i64;
    let yh = (y / 2) as i64;
    let yq = (y / 4) as i64;
    let ym2 = (y % 2) as i64;
    let ym4 = (y % 4) as i64;
    match kind {
        TilingKind::Triangle | TilingKind::One | TilingKind::Four => Point {
            x: Coord { units: 2 * xi + yi, rt2: 0, rt3: 0 },
            y: Coord { units: 0, rt2: 0, rt3: yi },
        },
        TilingKind::Square => Point {
            x: Coord { units: 2 * xi, rt2: 0, rt3: 0 },
            y: Coord { units: 2 * yi, rt2: 0, rt3: 0 },
        },
        TilingKind::Hexagon => Point {
            x: Coord {
                units: 6 * ((xi + ym2) / 2) + 2 * ((xi + yi) % 2) - 3 * ym2,
                rt2: 0,
                rt3: 0,
            },
            y: Coord { units: 0, rt2: 0, rt3: yi },
        },
        TilingKind::Two => Point {
            x: Coord { units: 4 * xh + 2 * xm2 + 2 * yh, rt2: 2 * xh + yh, rt3: 0 },
            y: Coord { units: 2 * yh + 2 * ym2, rt2: yh, rt3: 0 },
        },
        TilingKind::Three => Point {
            x: Coord { units: 2 * xi + yh, rt2: 0, rt3: 0 },
            y: Coord { units: 2 * yh + 2 * ym2, rt2: 0, rt3: yh },
        },
        TilingKind::Five => Point {
            x: Coord { units: 2 * xh + 2 * xm2 - yh, rt2: 0, rt3: xh },
            y: Coord { units: 2 * yh + 2 * ym2 + xh, rt2: 0, rt3: yh },
        },
        TilingKind::Six => Point {
            x: Coord {
                units: 4 * xh + 2 * xm2 + 2 * yq + if ym4 == 1 || ym4 == 2 { 1 } else { 0 },
                rt2: 0,
                rt3: 2 * xh + yq,
            },
            y: Coord {
                units: 3 * yq + if ym4 == 2 || ym4 == 3 { 2 } else { 0 },
                rt2: 0,
                rt3: 2 * yq + if ym4 == 1 || ym4 == 2 { 1 } else if ym4 == 3 { 2 } else { 0 },
            },
        },
        TilingKind::Seven => Point {
            x: Coord {
                units: 2 * xh + yq,
                rt2: 0,
                rt3: 2 * xh + 2 * xm2 + yq + if ym4 == 0 || ym4 == 3 { 1 } else { 0 },
            },
            y: Coord {
                units: 3 * yq + if ym4 == 0 { -1 } else if ym4 == 2 { 2 } else if ym4 == 3 { 3 } else { 0 },
                rt2: 0,
                rt3: yq,
            },
        },
        TilingKind::Eight => Point {
            x: Coord {
                units: 6 * xq + 3 * yq + if xm4 == 2 || xm4 == 3 { 2 } else { 0 },
                rt2: 0,
                rt3: 6 * xq + 3 * yq + (if ym4 == 0 || ym4 == 3 { 1 } else { 0 }) + if xm4 == 1
                    || xm4 == 2 { 2 } else if xm4 == 3 { 4 } else { 0 },
            },
            y: Coord {
                units: 3 * yq + if ym4 == 0 { -1 } else if ym4 == 2 { 2 } else if ym4 == 3 { 3 } else { 0 },
                rt2: 0,
                rt3: yq,
            },
        },
    }
}

/// Builds the flat point list of a `rows` by `cols` patch: `y` is the
/// slowest-varying index, so cell `(x, y)` lands at flat index
/// `x + y * cols`.
pub fn build_points(kind: TilingKind, rows: u32, cols: u32) -> (ps: Vec<Point>)
    requires
        rows as int * cols as int <= u32::MAX as int,
    ensures
        points_match(ps@, rows as int, cols as int, kind),
{
    let mut ps: Vec<Point> = Vec::new();
    let mut y: u32 = 0;
    while y < rows
        invariant
            y <= rows,
            rows as int * cols as int <= u32::MAX as int,
            ps@.len() == y as int * cols as int,
            forall|k: int|
                0 <= k < ps@.len() ==> (#[trigger] ps@[k]) == point_spec(
                    kind,
                    k % (cols as int),
                    k / (cols as int),
                ),
        decreases rows - y,
    {
        let mut x: u32 = 0;
        while x < cols
            invariant
                x <= cols,
                y < rows,
                rows as int * cols as int <= u32::MAX as int,
                ps@.len() == y as int * cols as int + x as int,
                forall|k: int|
                    0 <= k < ps@.len() ==> (#[trigger] ps@[k]) == point_spec(
                        kind,
                        k % (cols as int),
                        k / (cols as int),
                    ),
            decreases cols - x,
        {
            let p = point_at(kind, x, y);
            proof {
                lemma_flat_key_coords(x as int, y as int, cols as int);
                lemma_flat_key_bound(x as int, y as int, rows as int, cols as int);
            }
            ps.push(p);
            x = x + 1;
        }
        proof {
            assert((y as int + 1) * (cols as int) == y as int * cols as int + cols as int)
                by (nonlinear_arith);
        }
        y = y + 1;
    }
    proof {
        assert forall|x: int, y2: int| 0 <= x < cols && 0 <= y2 < rows implies ps@[x + y2 * (
        cols as int)] == #[trigger] point_spec(kind, x, y2) by {
            lemma_flat_key_coords(x, y2, cols as int);
            lemma_flat_key_bound(x, y2, rows as int, cols as int);
        }
    }
    ps
}

/// Determinism: two point lists that both satisfy a tiling's lattice
/// contract for the same dimensions are identical.
pub proof fn lemma_points_deterministic(
    p1: Seq<Point>,
    p2: Seq<Point>,
    rows: int,
    cols: int,
    kind: TilingKind,
)
    requires
        rows >= 0,
        cols >= 0,
        points_match(p1, rows, cols, kind),
        points_match(p2, rows, cols, kind),
    ensures
        p1 =~= p2,
{
    assert forall|k: int| 0 <= k < p1.len() implies p1[k] == p2[k] by {
        assert(cols == 0 ==> rows * cols == 0) by (nonlinear_arith);
        lemma_flat_key_decompose(k, rows, cols);
        let x = k % cols;
        let y = k / cols;
        assert(p1[x + y * cols] == point_spec(kind, x, y));
        assert(p2[x + y * cols] == point_spec(kind, x, y));
    }
}

/// Monotonic consistency: point positions do not depend on the patch
/// size, so the point of a shared cell agrees across two patches of the
/// same tiling.
pub proof fn lemma_points_patch_consistent(
    p1: Seq<Point>,
    r1: int,
    c1: int,
    p2: Seq<Point>,
    r2: int,
    c2: int,
    kind: TilingKind,
    x: int,
    y: int,
)
    requires
        points_match(p1, r1, c1, kind),
        points_match(p2, r2, c2, kind),
        r1 <= r2,
        c1 <= c2,
        0 <= x < c1,
        0 <= y < r1,
    ensures
        0 <= x + y * c1 < p1.len(),
        0 <= x + y * c2 < p2.len(),
        p1[x + y * c1] == p2[x + y * c2],
{
    lemma_flat_key_bound(x, y, r1, c1);
    lemma_flat_key_bound(x, y, r2, c2);
    assert(p1[x + y * c1] == point_spec(kind, x, y));
    assert(p2[x + y * c2] == point_spec(kind, x, y));
}

} // verus!
