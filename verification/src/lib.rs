//! Planar meshes for the eleven uniform tilings of the Euclidean plane.
//!
//! A regular tiling tessellates the plane with one regular polygon of unit
//! edge length (triangle, square or hexagon); a semi-regular tiling mixes
//! two or more regular polygons so that every vertex looks identical up to
//! rotation. Each generator takes a row and column count and returns a
//! fresh mesh: a flat list of lattice points, indexed by `x + y * cols`,
//! and a list of polygonal faces over those indices, describing a finite
//! patch of the infinite tiling. Boundary cells whose neighbours would
//! fall outside the patch are left unfaced, so every emitted face is in
//! bounds by construction.

pub mod grid;
pub mod keys;
pub mod lattice;
pub mod mesh;
pub mod rules;

use vstd::prelude::*;

pub use crate::mesh::{Face, FaceIndex, Point, Points, TilingError};

use crate::grid::{faces_match, lemma_faces_deterministic, lemma_faces_extended_trans,
    lemma_faces_match_new};
use crate::lattice::{build_points, lemma_points_deterministic, points_match, TilingKind};
use crate::mesh::face_ok;
use crate::rules::{build_pass, lemma_pass_faces_empty, lemma_pass_faces_ok, pass_faces, shape_ok,
    FaceRule};

verus! {

/// The assembled face sequence of one whole tiling: every tiling is one
/// pass over its interior rectangle, except the second semi-regular
/// tiling, which chains its octagon pass and its square pass.
pub open spec fn tiling_faces(kind: TilingKind, rows: int, cols: int) -> Seq<Seq<u32>> {
    match kind {
        TilingKind::Triangle => pass_faces(FaceRule::Triangle, rows, cols),
        TilingKind::Square => pass_faces(FaceRule::Square, rows, cols),
        TilingKind::Hexagon => pass_faces(FaceRule::Hexagon, rows, cols),
        TilingKind::One => pass_faces(FaceRule::One, rows, cols),
        TilingKind::Two => pass_faces(FaceRule::TwoOctagon, rows, cols) + pass_faces(
            FaceRule::TwoSquare,
            rows,
            cols,
        ),
        TilingKind::Three => pass_faces(FaceRule::Three, rows, cols),
        TilingKind::Four => pass_faces(FaceRule::Four, rows, cols),
        TilingKind::Five => pass_faces(FaceRule::Five, rows, cols),
        TilingKind::Six => pass_faces(FaceRule::Six, rows, cols),
        TilingKind::Seven => pass_faces(FaceRule::Seven, rows, cols),
        TilingKind::Eight => pass_faces(FaceRule::Eight, rows, cols),
    }
}

/// The polygon sizes a tiling's face list may hold.
pub open spec fn tiling_shape_ok(kind: TilingKind, len: nat) -> bool {
    match kind {
        TilingKind::Triangle => len == 3,
        TilingKind::Square => len == 4,
        TilingKind::Hexagon => len == 6,
        TilingKind::One => len == 3 || len == 6,
        TilingKind::Two => len == 4 || len == 8,
        TilingKind::Three => len == 3 || len == 4,
        TilingKind::Four => len == 3 || len == 6,
        TilingKind::Five => len == 3 || len == 4,
        TilingKind::Six => len == 3 || len == 12,
        TilingKind::Seven => len == 3 || len == 4 || len == 6,
        TilingKind::Eight => len == 4 || len == 6 || len == 12,
    }
}

/// Fewer rows than this leave a tiling's interior empty of faces.
pub open spec fn min_rows(kind: TilingKind) -> int {
    match kind {
        TilingKind::Triangle => 2,
        TilingKind::Square => 2,
        TilingKind::Hexagon => 3,
        TilingKind::One => 3,
        TilingKind::Two => 2,
        TilingKind::Three => 2,
        TilingKind::Four => 4,
        TilingKind::Five => 2,
        TilingKind::Six => 6,
        TilingKind::Seven => 6,
        TilingKind::Eight => 8,
    }
}

/// Fewer columns than this leave a tiling's interior empty of faces.
pub open spec fn min_cols(kind: TilingKind) -> int {
    match kind {
        TilingKind::Triangle => 2,
        TilingKind::Square => 2,
        TilingKind::Hexagon => 2,
        TilingKind::One => 3,
        TilingKind::Two => 2,
        TilingKind::Three => 2,
        TilingKind::Four => 3,
        TilingKind::Five => 3,
        TilingKind::Six => 4,
        TilingKind::Seven => 5,
        TilingKind::Eight => 7,
    }
}

/// Every face a tiling assembles is in bounds for its lattice, repeats no
/// vertex, and has one of the tiling's polygon sizes.
pub proof fn lemma_tiling_faces_ok(kind: TilingKind, rows: int, cols: int)
    requires
        0 <= rows,
        0 <= cols,
        rows * cols <= u32::MAX as int,
    ensures
        forall|i: int|
            0 <= i < tiling_faces(kind, rows, cols).len() ==> face_ok(
                #[trigger] tiling_faces(kind, rows, cols)[i],
                rows * cols,
            ) && tiling_shape_ok(kind, tiling_faces(kind, rows, cols)[i].len()),
{
    let n = rows * cols;
    match kind {
        TilingKind::Triangle => lemma_pass_faces_ok(FaceRule::Triangle, rows, cols),
        TilingKind::Square => lemma_pass_faces_ok(FaceRule::Square, rows, cols),
        TilingKind::Hexagon => lemma_pass_faces_ok(FaceRule::Hexagon, rows, cols),
        TilingKind::One => lemma_pass_faces_ok(FaceRule::One, rows, cols),
        TilingKind::Two => {
            lemma_pass_faces_ok(FaceRule::TwoOctagon, rows, cols);
            lemma_pass_faces_ok(FaceRule::TwoSquare, rows, cols);
            let a = pass_faces(FaceRule::TwoOctagon, rows, cols);
            let b = pass_faces(FaceRule::TwoSquare, rows, cols);
            assert forall|i: int| 0 <= i < (a + b).len() implies face_ok(#[trigger] (a + b)[i], n)
                && tiling_shape_ok(kind, (a + b)[i].len()) by {
                if i < a.len() {
                    assert((a + b)[i] == a[i]);
                    assert(face_ok(a[i], n) && shape_ok(FaceRule::TwoOctagon, a[i].len()));
                } else {
                    assert((a + b)[i] == b[i - a.len()]);
                    assert(face_ok(b[i - a.len()], n) && shape_ok(
                        FaceRule::TwoSquare,
                        b[i - a.len()].len(),
                    ));
                }
            }
        },
        TilingKind::Three => lemma_pass_faces_ok(FaceRule::Three, rows, cols),
        TilingKind::Four => lemma_pass_faces_ok(FaceRule::Four, rows, cols),
        TilingKind::Five => lemma_pass_faces_ok(FaceRule::Five, rows, cols),
        TilingKind::Six => lemma_pass_faces_ok(FaceRule::Six, rows, cols),
        TilingKind::Seven => lemma_pass_faces_ok(FaceRule::Seven, rows, cols),
        TilingKind::Eight => lemma_pass_faces_ok(FaceRule::Eight, rows, cols),
    }
}

/// Degenerate dimensions: below a tiling's minimum margins the interior
/// rectangle is empty, so the tiling assembles no faces at all.
pub proof fn lemma_tiling_faces_degenerate(kind: TilingKind, rows: int, cols: int)
    requires
        rows < min_rows(kind) || cols < min_cols(kind),
    ensures
        tiling_faces(kind, rows, cols) == Seq::<Seq<u32>>::empty(),
{
    match kind {
        TilingKind::Triangle => lemma_pass_faces_empty(FaceRule::Triangle, rows, cols),
        TilingKind::Square => lemma_pass_faces_empty(FaceRule::Square, rows, cols),
        TilingKind::Hexagon => lemma_pass_faces_empty(FaceRule::Hexagon, rows, cols),
        TilingKind::One => lemma_pass_faces_empty(FaceRule::One, rows, cols),
        TilingKind::Two => {
            lemma_pass_faces_empty(FaceRule::TwoOctagon, rows, cols);
            lemma_pass_faces_empty(FaceRule::TwoSquare, rows, cols);
            assert(pass_faces(FaceRule::TwoOctagon, rows, cols) + pass_faces(
                FaceRule::TwoSquare,
                rows,
                cols,
            ) =~= Seq::<Seq<u32>>::empty());
        },
        TilingKind::Three => lemma_pass_faces_empty(FaceRule::Three, rows, cols),
        TilingKind::Four => lemma_pass_faces_empty(FaceRule::Four, rows, cols),
        TilingKind::Five => lemma_pass_faces_empty(FaceRule::Five, rows, cols),
        TilingKind::Six => lemma_pass_faces_empty(FaceRule::Six, rows, cols),
        TilingKind::Seven => lemma_pass_faces_empty(FaceRule::Seven, rows, cols),
        TilingKind::Eight => lemma_pass_faces_empty(FaceRule::Eight, rows, cols),
    }
}

/// Determinism: any two meshes that satisfy one tiling's contract for the
/// same dimensions hold identical points and identical faces.
pub proof fn lemma_mesh_deterministic(
    ps1: Seq<Point>,
    fs1: Seq<Face>,
    ps2: Seq<Point>,
    fs2: Seq<Face>,
    rows: int,
    cols: int,
    kind: TilingKind,
)
    requires
        rows >= 0,
        cols >= 0,
        points_match(ps1, rows, cols, kind),
        points_match(ps2, rows, cols, kind),
        faces_match(fs1, tiling_faces(kind, rows, cols)),
        faces_match(fs2, tiling_faces(kind, rows, cols)),
    ensures
        ps1 =~= ps2,
        fs1.len() == fs2.len(),
        forall|i: int| 0 <= i < fs1.len() ==> (#[trigger] fs1[i])@ == fs2[i]@,
{
    lemma_points_deterministic(ps1, ps2, rows, cols, kind);
    lemma_faces_deterministic(fs1, fs2, tiling_faces(kind, rows, cols));
}

/// Generates one tiling's lattice and face list, or reports overflow when
/// the lattice has more vertices than a vertex key can index.
fn mesh_parts(kind: TilingKind, rows: u32, cols: u32) -> (r: Result<
    (Vec<Point>, Vec<Vec<u32>>),
    TilingError,
>)
    ensures
        r is Ok <==> rows as int * cols as int <= u32::MAX as int,
        r matches Err(e) ==> e == TilingError::Overflow,
        r matches Ok(m) ==> {
            &&& points_match(m.0@, rows as int, cols as int, kind)
            &&& faces_match(m.1@, tiling_faces(kind, rows as int, cols as int))
            &&& forall|i: int|
                0 <= i < m.1@.len() ==> face_ok(
                    (#[trigger] m.1@[i])@,
                    rows as int * cols as int,
                ) && tiling_shape_ok(kind, m.1@[i]@.len())
            &&& ((rows as int) < min_rows(kind) || (cols as int) < min_cols(kind) ==> m.1@.len()
                == 0)
        },
{
    proof {
        assert(rows as int * cols as int <= 0xffff_ffff * 0xffff_ffff) by (nonlinear_arith)
            requires
                rows as int <= 0xffff_ffff,
                cols as int <= 0xffff_ffff,
        ;
    }
    let n = (rows as u64) * (cols as u64);
    if n > (u32::MAX as u64) {
        return Err(TilingError::Overflow);
    }
    let points = build_points(kind, rows, cols);
    let mut face_index: Vec<Vec<u32>> = Vec::new();
    match kind {
        TilingKind::Triangle => build_pass(FaceRule::Triangle, rows, cols, &mut face_index),
        TilingKind::Square => build_pass(FaceRule::Square, rows, cols, &mut face_index),
        TilingKind::Hexagon => build_pass(FaceRule::Hexagon, rows, cols, &mut face_index),
        TilingKind::One => build_pass(FaceRule::One, rows, cols, &mut face_index),
        TilingKind::Two => {
            build_pass(FaceRule::TwoOctagon, rows, cols, &mut face_index);
            let ghost mid = face_index@;
            build_pass(FaceRule::TwoSquare, rows, cols, &mut face_index);
            proof {
                lemma_faces_extended_trans(
                    Seq::<Face>::empty(),
                    mid,
                    face_index@,
                    pass_faces(FaceRule::TwoOctagon, rows as int, cols as int),
                    pass_faces(FaceRule::TwoSquare, rows as int, cols as int),
                );
            }
        },
        TilingKind::Three => build_pass(FaceRule::Three, rows, cols, &mut face_index),
        TilingKind::Four => build_pass(FaceRule::Four, rows, cols, &mut face_index),
        TilingKind::Five => build_pass(FaceRule::Five, rows, cols, &mut face_index),
        TilingKind::Six => build_pass(FaceRule::Six, rows, cols, &mut face_index),
        TilingKind::Seven => build_pass(FaceRule::Seven, rows, cols, &mut face_index),
        TilingKind::Eight => build_pass(FaceRule::Eight, rows, cols, &mut face_index),
    }
    proof {
        let tf = tiling_faces(kind, rows as int, cols as int);
        lemma_faces_match_new(face_index@, tf);
        lemma_tiling_faces_ok(kind, rows as int, cols as int);
        assert forall|i: int| 0 <= i < face_index@.len() implies face_ok(
            (#[trigger] face_index@[i])@,
            rows as int * cols as int,
        ) && tiling_shape_ok(kind, face_index@[i]@.len()) by {
            assert(face_index@[i]@ == tf[i]);
            assert(face_ok(tf[i], rows as int * cols as int));
            assert(tiling_shape_ok(kind, tf[i].len()));
        }
        if (rows as int) < min_rows(kind) || (cols as int) < min_cols(kind) {
            lemma_tiling_faces_degenerate(kind, rows as int, cols as int);
        }
    }
    Ok((points, face_index))
}

/// A generated patch of one of the eight semi-regular tilings.
pub struct SemiRegularTiling {
    pub face_index: FaceIndex,
    pub points: Points,
    pub name: &'static str,
}

impl SemiRegularTiling {
    /// The generated faces.
    pub fn faces(&self) -> (r: &FaceIndex)
        ensures
            r@ == self.face_index@,
    {
        &self.face_index
    }

    /// The generated lattice points.
    pub fn points(&self) -> (r: &Points)
        ensures
            r@ == self.points@,
    {
        &self.points
    }

    /// The tiling's identifier.
    pub fn name(&self) -> (r: &str)
        ensures
            r@ == self.name@,
    {
        self.name
    }

    /// Creates the 1st semi-regular tiling: triangles and hexagons,
    /// classified by `(x + 3 * y) % 7`.
    pub fn one(rows: u32, cols: u32) -> (r: Result<Self, TilingError>)
        ensures
            r is Ok <==> rows as int * cols as int <= u32::MAX as int,
            r matches Err(e) ==> e == TilingError::Overflow,
            r matches Ok(m) ==> semi_regular_mesh(m, rows, cols, TilingKind::One)
                && m.name@ == "SEMI-REGULAR-1"@,
    {
        match mesh_parts(TilingKind::One, rows, cols) {
            Ok(p) => Ok(Self { face_index: p.1, points: p.0, name: "SEMI-REGULAR-1" }),
            Err(e) => Err(e),
        }
    }

    /// Creates the 2nd semi-regular tiling: octagons and squares.
    pub fn two(rows: u32, cols: u32) -> (r: Result<Self, TilingError>)
        ensures
            r is Ok <==> rows as int * cols as int <= u32::MAX as int,
            r matches Err(e) ==> e == TilingError::Overflow,
            r matches Ok(m) ==> semi_regular_mesh(m, rows, cols, TilingKind::Two)
                && m.name@ == "SEMI-REGULAR-2"@,
    {
        match mesh_parts(TilingKind::Two, rows, cols) {
            Ok(p) => Ok(Self { face_index: p.1, points: p.0, name: "SEMI-REGULAR-2" }),
            Err(e) => Err(e),
        }
    }

    /// Creates the 3rd semi-regular tiling: square rows alternating with
    /// triangle rows.
    pub fn three(rows: u32, cols: u32) -> (r: Result<Self, TilingError>)
        ensures
            r is Ok <==> rows as int * cols as int <= u32::MAX as int,
            r matches Err(e) ==> e == TilingError::Overflow,
            r matches Ok(m) ==> semi_regular_mesh(m, rows, cols, TilingKind::Three)
                && m.name@ == "SEMI-REGULAR-3"@,
    {
        match mesh_parts(TilingKind::Three, rows, cols) {
            Ok(p) => Ok(Self { face_index: p.1, points: p.0, name: "SEMI-REGULAR-3" }),
            Err(e) => Err(e),
        }
    }

    /// Creates the 4th semi-regular tiling: triangles and hexagons on the
    /// triangular lattice.
    pub fn four(rows: u32, cols: u32) -> (r: Result<Self, TilingError>)
        ensures
            r is Ok <==> rows as int * cols as int <= u32::MAX as int,
            r matches Err(e) ==> e == TilingError::Overflow,
            r matches Ok(m) ==> semi_regular_mesh(m, rows, cols, TilingKind::Four)
                && m.name@ == "SEMI-REGULAR-4"@,
    {
        match mesh_parts(TilingKind::Four, rows, cols) {
            Ok(p) => Ok(Self { face_index: p.1, points: p.0, name: "SEMI-REGULAR-4" }),
            Err(e) => Err(e),
        }
    }

    /// Creates the 5th semi-regular tiling: squares and triangles on a
    /// sheared super-cell lattice.
    pub fn five(rows: u32, cols: u32) -> (r: Result<Self, TilingError>)
        ensures
            r is Ok <==> rows as int * cols as int <= u32::MAX as int,
            r matches Err(e) ==> e == TilingError::Overflow,
            r matches Ok(m) ==> semi_regular_mesh(m, rows, cols, TilingKind::Five)
                && m.name@ == "SEMI-REGULAR-5"@,
    {
        match mesh_parts(TilingKind::Five, rows, cols) {
            Ok(p) => Ok(Self { face_index: p.1, points: p.0, name: "SEMI-REGULAR-5" }),
            Err(e) => Err(e),
        }
    }

    /// Creates the 6th semi-regular tiling: dodecagons and triangles.
    pub fn six(rows: u32, cols: u32) -> (r: Result<Self, TilingError>)
        ensures
            r is Ok <==> rows as int * cols as int <= u32::MAX as int,
            r matches Err(e) ==> e == TilingError::Overflow,
            r matches Ok(m) ==> semi_regular_mesh(m, rows, cols, TilingKind::Six)
                && m.name@ == "SEMI-REGULAR-6"@,
    {
        match mesh_parts(TilingKind::Six, rows, cols) {
            Ok(p) => Ok(Self { face_index: p.1, points: p.0, name: "SEMI-REGULAR-6" }),
            Err(e) => Err(e),
        }
    }

    /// Creates the 7th semi-regular tiling: hexagons, squares and
    /// triangles.
    pub fn seven(rows: u32, cols: u32) -> (r: Result<Self, TilingError>)
        ensures
            r is Ok <==> rows as int * cols as int <= u32::MAX as int,
            r matches Err(e) ==> e == TilingError::Overflow,
            r matches Ok(m) ==> semi_regular_mesh(m, rows, cols, TilingKind::Seven)
                && m.name@ == "SEMI-REGULAR-7"@,
    {
        match mesh_parts(TilingKind::Seven, rows, cols) {
            Ok(p) => Ok(Self { face_index: p.1, points: p.0, name: "SEMI-REGULAR-7" }),
            Err(e) => Err(e),
        }
    }

    /// Creates the 8th semi-regular tiling: dodecagons, hexagons and
    /// squares.
    pub fn eight(rows: u32, cols: u32) -> (r: Result<Self, TilingError>)
        ensures
            r is Ok <==> rows as int * cols as int <= u32::MAX as int,
            r matches Err(e) ==> e == TilingError::Overflow,
            r matches Ok(m) ==> semi_regular_mesh(m, rows, cols, TilingKind::Eight)
                && m.name@ == "SEMI-REGULAR-8"@,
    {
        match mesh_parts(TilingKind::Eight, rows, cols) {
            Ok(p) => Ok(Self { face_index: p.1, points: p.0, name: "SEMI-REGULAR-8" }),
            Err(e) => Err(e),
        }
    }
}

/// A generated `SemiRegularTiling` mesh is exactly the tiling's lattice
/// and face list for the requested dimensions, every face is in bounds,
/// repeats no vertex and has one of the tiling's polygon sizes, and
/// dimensions below the tiling's margins yield no faces.
pub open spec fn semi_regular_mesh(
    m: SemiRegularTiling,
    rows: u32,
    cols: u32,
    kind: TilingKind,
) -> bool {
    &&& points_match(m.points@, rows as int, cols as int, kind)
    &&& m.points@.len() == rows as int * cols as int
    &&& faces_match(m.face_index@, tiling_faces(kind, rows as int, cols as int))
    &&& forall|i: int|
        0 <= i < m.face_index@.len() ==> face_ok(
            (#[trigger] m.face_index@[i])@,
            rows as int * cols as int,
        ) && tiling_shape_ok(kind, m.face_index@[i]@.len())
    &&& ((rows as int) < min_rows(kind) || (cols as int) < min_cols(kind)
        ==> m.face_index@.len() == 0)
}

/// A generated patch of one of the three regular tilings.
pub struct RegularTiling {
    pub face_index: FaceIndex,
    pub points: Points,
    pub name: &'static str,
}

/// A generated `RegularTiling` mesh is exactly the tiling's lattice and
/// face list for the requested dimensions, every face is in bounds,
/// repeats no vertex and has the tiling's polygon size, and dimensions
/// below the tiling's margins yield no faces.
pub open spec fn regular_mesh(m: RegularTiling, rows: u32, cols: u32, kind: TilingKind) -> bool {
    &&& points_match(m.points@, rows as int, cols as int, kind)
    &&& m.points@.len() == rows as int * cols as int
    &&& faces_match(m.face_index@, tiling_faces(kind, rows as int, cols as int))
    &&& forall|i: int|
        0 <= i < m.face_index@.len() ==> face_ok(
            (#[trigger] m.face_index@[i])@,
            rows as int * cols as int,
        ) && tiling_shape_ok(kind, m.face_index@[i]@.len())
    &&& ((rows as int) < min_rows(kind) || (cols as int) < min_cols(kind)
        ==> m.face_index@.len() == 0)
}

impl RegularTiling {
    /// The generated faces.
    pub fn faces(&self) -> (r: &FaceIndex)
        ensures
            r@ == self.face_index@,
    {
        &self.face_index
    }

    /// The generated lattice points.
    pub fn points(&self) -> (r: &Points)
        ensures
            r@ == self.points@,
    {
        &self.points
    }

    /// The tiling's identifier.
    pub fn name(&self) -> (r: &str)
        ensures
            r@ == self.name@,
    {
        self.name
    }

    /// Creates the triangle regular tiling: two triangles per lattice
    /// cell.
    pub fn triangle(rows: u32, cols: u32) -> (r: Result<Self, TilingError>)
        ensures
            r is Ok <==> rows as int * cols as int <= u32::MAX as int,
            r matches Err(e) ==> e == TilingError::Overflow,
            r matches Ok(m) ==> regular_mesh(m, rows, cols, TilingKind::Triangle)
                && m.name@ == "TRIANGLE"@,
    {
        match mesh_parts(TilingKind::Triangle, rows, cols) {
            Ok(p) => Ok(Self { face_index: p.1, points: p.0, name: "TRIANGLE" }),
            Err(e) => Err(e),
        }
    }

    /// Creates the square regular tiling: one unit square per lattice
    /// cell.
    pub fn square(rows: u32, cols: u32) -> (r: Result<Self, TilingError>)
        ensures
            r is Ok <==> rows as int * cols as int <= u32::MAX as int,
            r matches Err(e) ==> e == TilingError::Overflow,
            r matches Ok(m) ==> regular_mesh(m, rows, cols, TilingKind::Square)
                && m.name@ == "SQUARE"@,
    {
        match mesh_parts(TilingKind::Square, rows, cols) {
            Ok(p) => Ok(Self { face_index: p.1, points: p.0, name: "SQUARE" }),
            Err(e) => Err(e),
        }
    }

    /// Creates the hexagon regular tiling: one hexagon where the parities
    /// of `x` and `y` agree.
    pub fn hexagon(rows: u32, cols: u32) -> (r: Result<Self, TilingError>)
        ensures
            r is Ok <==> rows as int * cols as int <= u32::MAX as int,
            r matches Err(e) ==> e == TilingError::Overflow,
            r matches Ok(m) ==> regular_mesh(m, rows, cols, TilingKind::Hexagon)
                && m.name@ == "HEXAGON"@,
    {
        match mesh_parts(TilingKind::Hexagon, rows, cols) {
            Ok(p) => Ok(Self { face_index: p.1, points: p.0, name: "HEXAGON" }),
            Err(e) => Err(e),
        }
    }
}

} // verus!
