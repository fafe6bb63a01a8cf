//! Face assemblers: the per-tiling discriminator tables.
//!
//! Each tiling classifies every interior lattice cell by small modular
//! discriminators on `(x, y)` and emits a fixed list of faces per class,
//! each face a fixed pattern of flat-key offsets. The tables below are the
//! encoded combinatorial structure of each tiling; the interior margins
//! are sized so that every offset a rule uses stays inside the lattice.
//!
//! A tiling contributes one pass over its interior rectangle; the second
//! semi-regular tiling contributes two (octagons, then squares), chained
//! in that order.

use vstd::prelude::*;

use crate::grid::{all_faces, faces_extended, grid_faces, lemma_faces_add_assoc,
    lemma_faces_extended_trans, lemma_grid_empty_cols, lemma_grid_faces_all, row_faces};
use crate::keys::{flat_key, flat_key_at, lemma_flat_key_bound, lemma_flat_key_injective};
use crate::mesh::face_ok;

verus! {

/// One face-assembly pass: the eleven tilings' rules, with the second
/// semi-regular tiling split into its octagon and its square pass.
#[derive(Clone, Copy, PartialEq, Eq, Structural, Debug)]
pub enum FaceRule {
    Triangle,
    Square,
    Hexagon,
    One,
    TwoOctagon,
    TwoSquare,
    Three,
    Four,
    Five,
    Six,
    Seven,
    Eight,
}

/// The interior margins of a pass, as
/// `(y start, y end offset, x start, x end offset)`: the pass walks
/// `y start <= y < rows - y end offset` and
/// `x start <= x < cols - x end offset`, sized so that every offset the
/// rule uses stays inside the lattice.
pub open spec fn margins(rule: FaceRule) -> (int, int, int, int) {
    match rule {
        FaceRule::Triangle => (0, 1, 0, 1),
        FaceRule::Square => (0, 1, 0, 1),
        FaceRule::Hexagon => (0, 2, 0, 1),
        FaceRule::One => (1, 1, 1, 1),
        FaceRule::TwoOctagon => (1, 2, 1, 2),
        FaceRule::TwoSquare => (0, 1, 0, 1),
        FaceRule::Three => (0, 1, 0, 1),
        FaceRule::Four => (1, 2, 1, 1),
        FaceRule::Five => (0, 1, 1, 1),
        FaceRule::Six => (1, 4, 0, 3),
        FaceRule::Seven => (2, 3, 2, 2),
        FaceRule::Eight => (3, 4, 3, 3),
    }
}

/// Cell `(x, y)` lies in the interior rectangle a pass walks.
pub open spec fn in_pass_range(rule: FaceRule, rows: int, cols: int, x: int, y: int) -> bool {
    let m = margins(rule);
    &&& m.2 <= x < cols - m.3
    &&& m.0 <= y < rows - m.1
}

/// The faces cell `(x, y)` contributes under a rule: the tiling's
/// discriminator table.
pub open spec fn cell_spec(rule: FaceRule, cols: int, x: int, y: int) -> Seq<Seq<u32>> {
    match rule {
        FaceRule::Triangle => seq![
            seq![flat_key(x, y, cols), flat_key(x + 1, y, cols), flat_key(x, y + 1, cols)],
            seq![
                flat_key(x + 1, y, cols),
                flat_key(x + 1, y + 1, cols),
                flat_key(x, y + 1, cols),
            ],
        ],
        FaceRule::Square => seq![
            seq![
                flat_key(x, y, cols),
                flat_key(x + 1, y, cols),
                flat_key(x + 1, y + 1, cols),
                flat_key(x, y + 1, cols),
            ],
        ],
        FaceRule::Hexagon => {
            if (y % 2 == 0 && x % 2 == 0) || (y % 2 == 1 && x % 2 == 1) {
                seq![
                    seq![
                        flat_key(x, y, cols),
                        flat_key(x + 1, y, cols),
                        flat_key(x + 1, y + 1, cols),
                        flat_key(x + 1, y + 2, cols),
                        flat_key(x, y + 2, cols),
                        flat_key(x, y + 1, cols),
                    ],
                ]
            } else {
                Seq::<Seq<u32>>::empty()
            }
        },
        FaceRule::One => {
            let i = (x + 3 * y) % 7;
            (if i == 0 || i == 2 || i >= 5 {
                seq![
                    seq![flat_key(x, y, cols), flat_key(x + 1, y, cols), flat_key(x, y + 1, cols)],
                ]
            } else {
                Seq::<Seq<u32>>::empty()
            }) + (if i == 2 || i >= 4 {
                seq![
                    seq![
                        flat_key(x + 1, y, cols),
                        flat_key(x + 1, y + 1, cols),
                        flat_key(x, y + 1, cols),
                    ],
                ]
            } else {
                Seq::<Seq<u32>>::empty()
            }) + (if i == 4 {
                seq![
                    seq![
                        flat_key(x + 1, y, cols),
                        flat_key(x, y + 1, cols),
                        flat_key(x - 1, y + 1, cols),
                        flat_key(x - 1, y, cols),
                        flat_key(x, y - 1, cols),
                        flat_key(x + 1, y - 1, cols),
                    ],
                ]
            } else {
                Seq::<Seq<u32>>::empty()
            })
        },
        FaceRule::TwoOctagon => {
            if x % 2 == 1 && y % 2 == 0 {
                seq![
                    seq![
                        flat_key(x, y, cols),
                        flat_key(x + 1, y - 1, cols),
                        flat_key(x + 2, y - 1, cols),
                        flat_key(x + 1, y, cols),
                        flat_key(x + 1, y + 1, cols),
                        flat_key(x, y + 2, cols),
                        flat_key(x - 1, y + 2, cols),
                        flat_key(x, y + 1, cols),
                    ],
                ]
            } else {
                Seq::<Seq<u32>>::empty()
            }
        },
        FaceRule::TwoSquare => {
            if x % 2 == 0 && y % 2 == 0 {
                seq![
                    seq![
                        flat_key(x, y, cols),
                        flat_key(x + 1, y, cols),
                        flat_key(x + 1, y + 1, cols),
                        flat_key(x, y + 1, cols),
                    ],
                ]
            } else {
                Seq::<Seq<u32>>::empty()
            }
        },
        FaceRule::Three => {
            if y % 2 == 0 {
                seq![
                    seq![
                        flat_key(x, y, cols),
                        flat_key(x + 1, y, cols),
                        flat_key(x + 1, y + 1, cols),
                        flat_key(x, y + 1, cols),
                    ],
                ]
            } else {
                seq![
                    seq![flat_key(x, y, cols), flat_key(x + 1, y, cols), flat_key(x, y + 1, cols)],
                    seq![
                        flat_key(x + 1, y, cols),
                        flat_key(x + 1, y + 1, cols),
                        flat_key(x, y + 1, cols),
                    ],
                ]
            }
        },
        FaceRule::Four => {
            if x % 2 == 0 && y % 2 == 0 {
                seq![
                    seq![flat_key(x, y, cols), flat_key(x + 1, y, cols), flat_key(x, y + 1, cols)],
                ]
            } else if x % 2 == 0 && y % 2 == 1 {
                seq![
                    seq![
                        flat_key(x, y, cols),
                        flat_key(x, y + 1, cols),
                        flat_key(x - 1, y + 1, cols),
                    ],
                ]
            } else if x % 2 == 1 && y % 2 == 0 {
                seq![
                    seq![
                        flat_key(x, y, cols),
                        flat_key(x + 1, y, cols),
                        flat_key(x + 1, y + 1, cols),
                        flat_key(x, y + 2, cols),
                        flat_key(x - 1, y + 2, cols),
                        flat_key(x - 1, y + 1, cols),
                    ],
                ]
            } else {
                Seq::<Seq<u32>>::empty()
            }
        },
        FaceRule::Five => {
            if x % 2 == 0 && y % 2 == 0 {
                seq![
                    seq![
                        flat_key(x, y, cols),
                        flat_key(x + 1, y, cols),
                        flat_key(x + 1, y + 1, cols),
                        flat_key(x, y + 1, cols),
                    ],
                    seq![
                        flat_key(x, y, cols),
                        flat_key(x, y + 1, cols),
                        flat_key(x - 1, y + 1, cols),
                    ],
                ]
            } else if x % 2 == 1 && y % 2 == 0 {
                seq![
                    seq![flat_key(x, y, cols), flat_key(x + 1, y, cols), flat_key(x, y + 1, cols)],
                ]
            } else if x % 2 == 0 && y % 2 == 1 {
                seq![
                    seq![
                        flat_key(x, y, cols),
                        flat_key(x + 1, y, cols),
                        flat_key(x + 1, y + 1, cols),
                    ],
                    seq![
                        flat_key(x, y, cols),
                        flat_key(x + 1, y + 1, cols),
                        flat_key(x, y + 1, cols),
                    ],
                ]
            } else {
                seq![
                    seq![
                        flat_key(x, y, cols),
                        flat_key(x + 1, y, cols),
                        flat_key(x + 1, y + 1, cols),
                        flat_key(x, y + 1, cols),
                    ],
                ]
            }
        },
        FaceRule::Six => {
            if x % 2 == 0 && y % 4 == 0 {
                seq![
                    seq![
                        flat_key(x + 1, y, cols),
                        flat_key(x + 2, y - 1, cols),
                        flat_key(x + 3, y - 1, cols),
                        flat_key(x + 2, y, cols),
                        flat_key(x + 2, y + 1, cols),
                        flat_key(x + 2, y + 2, cols),
                        flat_key(x + 2, y + 3, cols),
                        flat_key(x + 1, y + 4, cols),
                        flat_key(x, y + 4, cols),
                        flat_key(x + 1, y + 3, cols),
                        flat_key(x, y + 2, cols),
                        flat_key(x, y + 1, cols),
                    ],
                    seq![flat_key(x, y, cols), flat_key(x + 1, y, cols), flat_key(x, y + 1, cols)],
                ]
            } else if x % 2 == 0 && y % 4 == 2 {
                seq![
                    seq![
                        flat_key(x, y, cols),
                        flat_key(x + 1, y + 1, cols),
                        flat_key(x, y + 1, cols),
                    ],
                ]
            } else {
                Seq::<Seq<u32>>::empty()
            }
        },
        FaceRule::Seven => {
            if x % 2 == 0 && y % 4 == 0 {
                seq![
                    seq![
                        flat_key(x, y, cols),
                        flat_key(x + 1, y + 1, cols),
                        flat_key(x + 1, y + 2, cols),
                        flat_key(x, y + 3, cols),
                        flat_key(x, y + 2, cols),
                        flat_key(x, y + 1, cols),
                    ],
                    seq![
                        flat_key(x, y, cols),
                        flat_key(x + 2, y - 2, cols),
                        flat_key(x + 2, y - 1, cols),
                        flat_key(x + 1, y + 1, cols),
                    ],
                    seq![
                        flat_key(x + 1, y + 1, cols),
                        flat_key(x + 2, y - 1, cols),
                        flat_key(x + 2, y + 1, cols),
                    ],
                ]
            } else if x % 2 == 1 && y % 4 == 1 {
                seq![
                    seq![
                        flat_key(x, y, cols),
                        flat_key(x + 1, y, cols),
                        flat_key(x + 1, y + 1, cols),
                        flat_key(x, y + 1, cols),
                    ],
                ]
            } else if x % 2 == 1 && y % 4 == 2 {
                seq![
                    seq![
                        flat_key(x, y, cols),
                        flat_key(x - 1, y + 2, cols),
                        flat_key(x - 1, y + 3, cols),
                        flat_key(x - 1, y + 1, cols),
                    ],
                ]
            } else if x % 2 == 0 && y % 4 == 2 {
                seq![
                    seq![
                        flat_key(x - 1, y, cols),
                        flat_key(x, y, cols),
                        flat_key(x - 2, y + 2, cols),
                    ],
                ]
            } else {
                Seq::<Seq<u32>>::empty()
            }
        },
        FaceRule::Eight => {
            ((((if x % 2 == 0 && y % 4 == 0 {
                seq![
                    seq![
                        flat_key(x, y, cols),
                        flat_key(x + 1, y + 1, cols),
                        flat_key(x + 1, y + 2, cols),
                        flat_key(x, y + 3, cols),
                        flat_key(x, y + 2, cols),
                        flat_key(x, y + 1, cols),
                    ],
                ]
            } else {
                Seq::<Seq<u32>>::empty()
            }) + (if x % 4 == 1 && y % 4 == 1 {
                seq![
                    seq![
                        flat_key(x, y, cols),
                        flat_key(x + 1, y, cols),
                        flat_key(x + 1, y + 1, cols),
                        flat_key(x, y + 1, cols),
                    ],
                ]
            } else {
                Seq::<Seq<u32>>::empty()
            })) + (if x % 4 == 3 && y % 4 == 2 {
                seq![
                    seq![
                        flat_key(x, y, cols),
                        flat_key(x - 3, y + 2, cols),
                        flat_key(x - 3, y + 3, cols),
                        flat_key(x - 1, y + 1, cols),
                    ],
                ]
            } else {
                Seq::<Seq<u32>>::empty()
            })) + (if x % 4 == 0 && y % 4 == 2 {
                seq![
                    seq![
                        flat_key(x, y + 1, cols),
                        flat_key(x - 1, y + 3, cols),
                        flat_key(x - 2, y + 2, cols),
                        flat_key(x, y, cols),
                    ],
                ]
            } else {
                Seq::<Seq<u32>>::empty()
            })) + (if x % 4 == 3 && y % 4 == 1 {
                seq![
                    seq![
                        flat_key(x, y, cols),
                        flat_key(x + 1, y - 2, cols),
                        flat_key(x + 2, y - 3, cols),
                        flat_key(x + 3, y - 3, cols),
                        flat_key(x + 3, y - 2, cols),
                        flat_key(x + 1, y, cols),
                        flat_key(x + 1, y + 1, cols),
                        flat_key(x - 1, y + 3, cols),
                        flat_key(x - 1, y + 4, cols),
                        flat_key(x - 2, y + 4, cols),
                        flat_key(x - 3, y + 3, cols),
                        flat_key(x, y + 1, cols),
                    ],
                ]
            } else {
                Seq::<Seq<u32>>::empty()
            })
        },
    }
}

/// The faces of one whole pass over a `rows` by `cols` lattice.
pub open spec fn pass_faces(rule: FaceRule, rows: int, cols: int) -> Seq<Seq<u32>> {
    let m = margins(rule);
    grid_faces(cell_rule(rule, cols), m.0, rows - m.1, m.2, cols - m.3)
}

/// A pass's cell rule as a value, so that specs, loops and lemmas all
/// speak of the same function.
pub open spec fn cell_rule(rule: FaceRule, cols: int) -> crate::grid::CellRule {
    |x: int, y: int| cell_spec(rule, cols, x, y)
}

/// The polygon sizes a pass may emit.
pub open spec fn shape_ok(rule: FaceRule, len: nat) -> bool {
    match rule {
        FaceRule::Triangle => len == 3,
        FaceRule::Square => len == 4,
        FaceRule::Hexagon => len == 6,
        FaceRule::One => len == 3 || len == 6,
        FaceRule::TwoOctagon => len == 8,
        FaceRule::TwoSquare => len == 4,
        FaceRule::Three => len == 3 || len == 4,
        FaceRule::Four => len == 3 || len == 6,
        FaceRule::Five => len == 3 || len == 4,
        FaceRule::Six => len == 3 || len == 12,
        FaceRule::Seven => len == 3 || len == 4 || len == 6,
        FaceRule::Eight => len == 4 || len == 6 || len == 12,
    }
}

/// Every face of `s` is well formed for `n` vertices and sized as the
/// rule's polygon mix allows.
pub open spec fn faces_ok(rule: FaceRule, n: int, s: Seq<Seq<u32>>) -> bool {
    forall|i: int|
        0 <= i < s.len() ==> face_ok(#[trigger] s[i], n) && shape_ok(rule, s[i].len())
}

/// Every face a cell contributes is in bounds, repeats no vertex, and has
/// the rule's polygon size.
#[verifier::rlimit(100)]
pub proof fn lemma_cell_faces_ok(rule: FaceRule, rows: int, cols: int, x: int, y: int)
    requires
        in_pass_range(rule, rows, cols, x, y),
        rows * cols <= u32::MAX as int,
    ensures
        faces_ok(rule, rows * cols, cell_spec(rule, cols, x, y)),
{
    let n = rows * cols;
    assert forall|a: int, b: int| 0 <= a < cols && 0 <= b < rows implies ((
    #[trigger] flat_key(a, b, cols)) as int == a + b * cols && a + b * cols < n) by {
        lemma_flat_key_bound(a, b, rows, cols);
    }
    assert forall|a1: int, b1: int, a2: int, b2: int|
        0 <= a1 < cols && 0 <= b1 < rows && 0 <= a2 < cols && 0 <= b2 < rows && (a1 != a2 || b1
            != b2) implies #[trigger] flat_key(a1, b1, cols) != #[trigger] flat_key(
        a2,
        b2,
        cols,
    ) by {
        lemma_flat_key_bound(a1, b1, rows, cols);
        lemma_flat_key_bound(a2, b2, rows, cols);
        if a1 + b1 * cols == a2 + b2 * cols {
            lemma_flat_key_injective(a1, b1, a2, b2, cols);
        }
    }
    match rule {
        FaceRule::Triangle => {
            assert(faces_ok(rule, n, cell_spec(rule, cols, x, y)));
        },
        FaceRule::Square => {
            assert(faces_ok(rule, n, cell_spec(rule, cols, x, y)));
        },
        FaceRule::Hexagon => {
            assert(faces_ok(rule, n, cell_spec(rule, cols, x, y)));
        },
        FaceRule::One => {
            assert(faces_ok(rule, n, cell_spec(rule, cols, x, y)));
        },
        FaceRule::TwoOctagon => {
            assert(faces_ok(rule, n, cell_spec(rule, cols, x, y)));
        },
        FaceRule::TwoSquare => {
            assert(faces_ok(rule, n, cell_spec(rule, cols, x, y)));
        },
        FaceRule::Three => {
            assert(faces_ok(rule, n, cell_spec(rule, cols, x, y)));
        },
        FaceRule::Four => {
            assert(faces_ok(rule, n, cell_spec(rule, cols, x, y)));
        },
        FaceRule::Five => {
            assert(faces_ok(rule, n, cell_spec(rule, cols, x, y)));
        },
        FaceRule::Six => {
            assert(faces_ok(rule, n, cell_spec(rule, cols, x, y)));
        },
        FaceRule::Seven => {
            assert(faces_ok(rule, n, cell_spec(rule, cols, x, y)));
        },
        FaceRule::Eight => {
            assert(faces_ok(rule, n, cell_spec(rule, cols, x, y)));
        },
    }
}

/// A lattice smaller than a pass's margins leaves the pass's interior
/// rectangle empty, so the pass contributes no faces.
pub proof fn lemma_pass_faces_empty(rule: FaceRule, rows: int, cols: int)
    requires
        rows - margins(rule).1 <= margins(rule).0 || cols - margins(rule).3 <= margins(rule).2,
    ensures
        pass_faces(rule, rows, cols) == Seq::<Seq<u32>>::empty(),
{
    let m = margins(rule);
    if rows - m.1 <= m.0 {
        assert(pass_faces(rule, rows, cols) =~= Seq::<Seq<u32>>::empty());
    } else {
        lemma_grid_empty_cols(cell_rule(rule, cols), m.0, rows - m.1, m.2, cols - m.3);
    }
}

/// Every face of one whole pass is in bounds, repeats no vertex, and has
/// the rule's polygon size.
pub proof fn lemma_pass_faces_ok(rule: FaceRule, rows: int, cols: int)
    requires
        0 <= rows,
        0 <= cols,
        rows * cols <= u32::MAX as int,
    ensures
        faces_ok(rule, rows * cols, pass_faces(rule, rows, cols)),
{
    let n = rows * cols;
    let pred = |f: Seq<u32>| face_ok(f, n) && shape_ok(rule, f.len());
    let cellf = cell_rule(rule, cols);
    let m = margins(rule);
    assert forall|x: int, y: int|
        m.2 <= x < cols - m.3 && m.0 <= y < rows - m.1 implies all_faces(
        #[trigger] cellf(x, y),
        pred,
    ) by {
        lemma_cell_faces_ok(rule, rows, cols, x, y);
        assert forall|i: int| 0 <= i < cellf(x, y).len() implies pred(#[trigger] cellf(x, y)[i]) by {
            assert(face_ok(cell_spec(rule, cols, x, y)[i], n));
            assert(shape_ok(rule, cell_spec(rule, cols, x, y)[i].len()));
        }
    }
    lemma_grid_faces_all(cellf, m.0, rows - m.1, m.2, cols - m.3, pred);
    assert forall|i: int| 0 <= i < pass_faces(rule, rows, cols).len() implies face_ok(
        #[trigger] pass_faces(rule, rows, cols)[i],
        n,
    ) && shape_ok(rule, pass_faces(rule, rows, cols)[i].len()) by {
        assert(pred(pass_faces(rule, rows, cols)[i]));
    }
}


/// Builds a three-vertex face.
fn face3(k0: u32, k1: u32, k2: u32) -> (f: Vec<u32>)
    ensures
        f@ == seq![k0, k1, k2],
{
    let mut f: Vec<u32> = Vec::new();
    f.push(k0);
    f.push(k1);
    f.push(k2);
    proof {
        assert(f@ =~= seq![k0, k1, k2]);
    }
    f
}

/// Builds a four-vertex face.
fn face4(k0: u32, k1: u32, k2: u32, k3: u32) -> (f: Vec<u32>)
    ensures
        f@ == seq![k0, k1, k2, k3],
{
    let mut f: Vec<u32> = Vec::new();
    f.push(k0);
    f.push(k1);
    f.push(k2);
    f.push(k3);
    proof {
        assert(f@ =~= seq![k0, k1, k2, k3]);
    }
    f
}

/// Builds a six-vertex face.
fn face6(k0: u32, k1: u32, k2: u32, k3: u32, k4: u32, k5: u32) -> (f: Vec<u32>)
    ensures
        f@ == seq![k0, k1, k2, k3, k4, k5],
{
    let mut f: Vec<u32> = Vec::new();
    f.push(k0);
    f.push(k1);
    f.push(k2);
    f.push(k3);
    f.push(k4);
    f.push(k5);
    proof {
        assert(f@ =~= seq![k0, k1, k2, k3, k4, k5]);
    }
    f
}

/// Builds an eight-vertex face.
fn face8(k0: u32, k1: u32, k2: u32, k3: u32, k4: u32, k5: u32, k6: u32, k7: u32) -> (f: Vec<u32>)
    ensures
        f@ == seq![k0, k1, k2, k3, k4, k5, k6, k7],
{
    let mut f: Vec<u32> = Vec::new();
    f.push(k0);
    f.push(k1);
    f.push(k2);
    f.push(k3);
    f.push(k4);
    f.push(k5);
    f.push(k6);
    f.push(k7);
    proof {
        assert(f@ =~= seq![k0, k1, k2, k3, k4, k5, k6, k7]);
    }
    f
}

/// Builds a twelve-vertex face.
fn face12(
    k0: u32,
    k1: u32,
    k2: u32,
    k3: u32,
    k4: u32,
    k5: u32,
    k6: u32,
    k7: u32,
    k8: u32,
    k9: u32,
    k10: u32,
    k11: u32,
) -> (f: Vec<u32>)
    ensures
        f@ == seq![k0, k1, k2, k3, k4, k5, k6, k7, k8, k9, k10, k11],
{
    let mut f: Vec<u32> = Vec::new();
    f.push(k0);
    f.push(k1);
    f.push(k2);
    f.push(k3);
    f.push(k4);
    f.push(k5);
    f.push(k6);
    f.push(k7);
    f.push(k8);
    f.push(k9);
    f.push(k10);
    f.push(k11);
    proof {
        assert(f@ =~= seq![k0, k1, k2, k3, k4, k5, k6, k7, k8, k9, k10, k11]);
    }
    f
}

/// Appends the faces of one triangle-tiling cell: two triangles per cell.
fn emit_triangle(rows: u32, cols: u32, x: u32, y: u32, acc: &mut Vec<Vec<u32>>)
    requires
        in_pass_range(FaceRule::Triangle, rows as int, cols as int, x as int, y as int),
        rows as int * cols as int <= u32::MAX as int,
    ensures
        faces_extended(
            old(acc)@,
            final(acc)@,
            cell_spec(FaceRule::Triangle, cols as int, x as int, y as int),
        ),
{
    acc.push(face3(
        flat_key_at(x, y, rows, cols),
        flat_key_at(x + 1, y, rows, cols),
        flat_key_at(x, y + 1, rows, cols),
    ));
    acc.push(face3(
        flat_key_at(x + 1, y, rows, cols),
        flat_key_at(x + 1, y + 1, rows, cols),
        flat_key_at(x, y + 1, rows, cols),
    ));
}

/// Appends the face of one square-tiling cell: one unit square.
fn emit_square(rows: u32, cols: u32, x: u32, y: u32, acc: &mut Vec<Vec<u32>>)
    requires
        in_pass_range(FaceRule::Square, rows as int, cols as int, x as int, y as int),
        rows as int * cols as int <= u32::MAX as int,
    ensures
        faces_extended(
            old(acc)@,
            final(acc)@,
            cell_spec(FaceRule::Square, cols as int, x as int, y as int),
        ),
{
    acc.push(face4(
        flat_key_at(x, y, rows, cols),
        flat_key_at(x + 1, y, rows, cols),
        flat_key_at(x + 1, y + 1, rows, cols),
        flat_key_at(x, y + 1, rows, cols),
    ));
}

/// Appends the face of one hexagon-tiling cell: a hexagon where the
/// parities of `x` and `y` agree.
fn emit_hexagon(rows: u32, cols: u32, x: u32, y: u32, acc: &mut Vec<Vec<u32>>)
    requires
        in_pass_range(FaceRule::Hexagon, rows as int, cols as int, x as int, y as int),
        rows as int * cols as int <= u32::MAX as int,
    ensures
        faces_extended(
            old(acc)@,
            final(acc)@,
            cell_spec(FaceRule::Hexagon, cols as int, x as int, y as int),
        ),
{
    if (y % 2 == 0 && x % 2 == 0) || (y % 2 == 1 && x % 2 == 1) {
        acc.push(face6(
            flat_key_at(x, y, rows, cols),
            flat_key_at(x + 1, y, rows, cols),
            flat_key_at(x + 1, y + 1, rows, cols),
            flat_key_at(x + 1, y + 2, rows, cols),
            flat_key_at(x, y + 2, rows, cols),
            flat_key_at(x, y + 1, rows, cols),
        ));
    }
}

/// Appends the faces of one cell of the first semi-regular tiling,
/// classified by `(x + 3 * y) % 7`: up to two triangles and a hexagon.
fn emit_one(rows: u32, cols: u32, x: u32, y: u32, acc: &mut Vec<Vec<u32>>)
    requires
        in_pass_range(FaceRule::One, rows as int, cols as int, x as int, y as int),
        rows as int * cols as int <= u32::MAX as int,
    ensures
        faces_extended(old(acc)@, final(acc)@, cell_spec(FaceRule::One, cols as int, x as int, y as int)),
{
    let d = ((x as u64) + 3 * (y as u64)) % 7;
    if d == 0 || d == 2 || d >= 5 {
        acc.push(face3(
            flat_key_at(x, y, rows, cols),
            flat_key_at(x + 1, y, rows, cols),
            flat_key_at(x, y + 1, rows, cols),
        ));
    }
    if d == 2 || d >= 4 {
        acc.push(face3(
            flat_key_at(x + 1, y, rows, cols),
            flat_key_at(x + 1, y + 1, rows, cols),
            flat_key_at(x, y + 1, rows, cols),
        ));
    }
    if d == 4 {
        acc.push(face6(
            flat_key_at(x + 1, y, rows, cols),
            flat_key_at(x, y + 1, rows, cols),
            flat_key_at(x - 1, y + 1, rows, cols),
            flat_key_at(x - 1, y, rows, cols),
            flat_key_at(x, y - 1, rows, cols),
            flat_key_at(x + 1, y - 1, rows, cols),
        ));
    }
}

/// Appends the face of one octagon cell of the second semi-regular tiling.
fn emit_two_octagon(rows: u32, cols: u32, x: u32, y: u32, acc: &mut Vec<Vec<u32>>)
    requires
        in_pass_range(FaceRule::TwoOctagon, rows as int, cols as int, x as int, y as int),
        rows as int * cols as int <= u32::MAX as int,
    ensures
        faces_extended(
            old(acc)@,
            final(acc)@,
            cell_spec(FaceRule::TwoOctagon, cols as int, x as int, y as int),
        ),
{
    if x % 2 == 1 && y % 2 == 0 {
        acc.push(face8(
            flat_key_at(x, y, rows, cols),
            flat_key_at(x + 1, y - 1, rows, cols),
            flat_key_at(x + 2, y - 1, rows, cols),
            flat_key_at(x + 1, y, rows, cols),
            flat_key_at(x + 1, y + 1, rows, cols),
            flat_key_at(x, y + 2, rows, cols),
            flat_key_at(x - 1, y + 2, rows, cols),
            flat_key_at(x, y + 1, rows, cols),
        ));
    }
}

/// Appends the face of one square cell of the second semi-regular tiling.
fn emit_two_square(rows: u32, cols: u32, x: u32, y: u32, acc: &mut Vec<Vec<u32>>)
    requires
        in_pass_range(FaceRule::TwoSquare, rows as int, cols as int, x as int, y as int),
        rows as int * cols as int <= u32::MAX as int,
    ensures
        faces_extended(
            old(acc)@,
            final(acc)@,
            cell_spec(FaceRule::TwoSquare, cols as int, x as int, y as int),
        ),
{
    if x % 2 == 0 && y % 2 == 0 {
        acc.push(face4(
            flat_key_at(x, y, rows, cols),
            flat_key_at(x + 1, y, rows, cols),
            flat_key_at(x + 1, y + 1, rows, cols),
            flat_key_at(x, y + 1, rows, cols),
        ));
    }
}

/// Appends the faces of one cell of the third semi-regular tiling: a
/// square on even rows, two triangles on odd rows.
fn emit_three(rows: u32, cols: u32, x: u32, y: u32, acc: &mut Vec<Vec<u32>>)
    requires
        in_pass_range(FaceRule::Three, rows as int, cols as int, x as int, y as int),
        rows as int * cols as int <= u32::MAX as int,
    ensures
        faces_extended(
            old(acc)@,
            final(acc)@,
            cell_spec(FaceRule::Three, cols as int, x as int, y as int),
        ),
{
    if y % 2 == 0 {
        acc.push(face4(
            flat_key_at(x, y, rows, cols),
            flat_key_at(x + 1, y, rows, cols),
            flat_key_at(x + 1, y + 1, rows, cols),
            flat_key_at(x, y + 1, rows, cols),
        ));
    } else {
        acc.push(face3(
            flat_key_at(x, y, rows, cols),
            flat_key_at(x + 1, y, rows, cols),
            flat_key_at(x, y + 1, rows, cols),
        ));
        acc.push(face3(
            flat_key_at(x + 1, y, rows, cols),
            flat_key_at(x + 1, y + 1, rows, cols),
            flat_key_at(x, y + 1, rows, cols),
        ));
    }
}

/// Appends the faces of one cell of the fourth semi-regular tiling,
/// classified by the parities of `x` and `y`.
fn emit_four(rows: u32, cols: u32, x: u32, y: u32, acc: &mut Vec<Vec<u32>>)
    requires
        in_pass_range(FaceRule::Four, rows as int, cols as int, x as int, y as int),
        rows as int * cols as int <= u32::MAX as int,
    ensures
        faces_extended(old(acc)@, final(acc)@, cell_spec(FaceRule::Four, cols as int, x as int, y as int)),
{
    if x % 2 == 0 && y % 2 == 0 {
        acc.push(face3(
            flat_key_at(x, y, rows, cols),
            flat_key_at(x + 1, y, rows, cols),
            flat_key_at(x, y + 1, rows, cols),
        ));
    } else if x % 2 == 0 && y % 2 == 1 {
        acc.push(face3(
            flat_key_at(x, y, rows, cols),
            flat_key_at(x, y + 1, rows, cols),
            flat_key_at(x - 1, y + 1, rows, cols),
        ));
    } else if x % 2 == 1 && y % 2 == 0 {
        acc.push(face6(
            flat_key_at(x, y, rows, cols),
            flat_key_at(x + 1, y, rows, cols),
            flat_key_at(x + 1, y + 1, rows, cols),
            flat_key_at(x, y + 2, rows, cols),
            flat_key_at(x - 1, y + 2, rows, cols),
            flat_key_at(x - 1, y + 1, rows, cols),
        ));
    }
}

/// Appends the faces of one cell of the fifth semi-regular tiling,
/// classified by the parities of `x` and `y`.
fn emit_five(rows: u32, cols: u32, x: u32, y: u32, acc: &mut Vec<Vec<u32>>)
    requires
        in_pass_range(FaceRule::Five, rows as int, cols as int, x as int, y as int),
        rows as int * cols as int <= u32::MAX as int,
    ensures
        faces_extended(old(acc)@, final(acc)@, cell_spec(FaceRule::Five, cols as int, x as int, y as int)),
{
    if x % 2 == 0 && y % 2 == 0 {
        acc.push(face4(
            flat_key_at(x, y, rows, cols),
            flat_key_at(x + 1, y, rows, cols),
            flat_key_at(x + 1, y + 1, rows, cols),
            flat_key_at(x, y + 1, rows, cols),
        ));
        acc.push(face3(
            flat_key_at(x, y, rows, cols),
            flat_key_at(x, y + 1, rows, cols),
            flat_key_at(x - 1, y + 1, rows, cols),
        ));
    } else if x % 2 == 1 && y % 2 == 0 {
        acc.push(face3(
            flat_key_at(x, y, rows, cols),
            flat_key_at(x + 1, y, rows, cols),
            flat_key_at(x, y + 1, rows, cols),
        ));
    } else if x % 2 == 0 && y % 2 == 1 {
        acc.push(face3(
            flat_key_at(x, y, rows, cols),
            flat_key_at(x + 1, y, rows, cols),
            flat_key_at(x + 1, y + 1, rows, cols),
        ));
        acc.push(face3(
            flat_key_at(x, y, rows, cols),
            flat_key_at(x + 1, y + 1, rows, cols),
            flat_key_at(x, y + 1, rows, cols),
        ));
    } else {
        acc.push(face4(
            flat_key_at(x, y, rows, cols),
            flat_key_at(x + 1, y, rows, cols),
            flat_key_at(x + 1, y + 1, rows, cols),
            flat_key_at(x, y + 1, rows, cols),
        ));
    }
}

/// Appends the faces of one cell of the sixth semi-regular tiling: a
/// dodecagon and a triangle, or a lone triangle, on alternating even rows.
fn emit_six(rows: u32, cols: u32, x: u32, y: u32, acc: &mut Vec<Vec<u32>>)
    requires
        in_pass_range(FaceRule::Six, rows as int, cols as int, x as int, y as int),
        rows as int * cols as int <= u32::MAX as int,
    ensures
        faces_extended(old(acc)@, final(acc)@, cell_spec(FaceRule::Six, cols as int, x as int, y as int)),
{
    if x % 2 == 0 && y % 4 == 0 {
        acc.push(face12(
            flat_key_at(x + 1, y, rows, cols),
            flat_key_at(x + 2, y - 1, rows, cols),
            flat_key_at(x + 3, y - 1, rows, cols),
            flat_key_at(x + 2, y, rows, cols),
            flat_key_at(x + 2, y + 1, rows, cols),
            flat_key_at(x + 2, y + 2, rows, cols),
            flat_key_at(x + 2, y + 3, rows, cols),
            flat_key_at(x + 1, y + 4, rows, cols),
            flat_key_at(x, y + 4, rows, cols),
            flat_key_at(x + 1, y + 3, rows, cols),
            flat_key_at(x, y + 2, rows, cols),
            flat_key_at(x, y + 1, rows, cols),
        ));
        acc.push(face3(
            flat_key_at(x, y, rows, cols),
            flat_key_at(x + 1, y, rows, cols),
            flat_key_at(x, y + 1, rows, cols),
        ));
    } else if x % 2 == 0 && y % 4 == 2 {
        acc.push(face3(
            flat_key_at(x, y, rows, cols),
            flat_key_at(x + 1, y + 1, rows, cols),
            flat_key_at(x, y + 1, rows, cols),
        ));
    }
}

/// Appends the faces of one cell of the seventh semi-regular tiling,
/// classified by `x % 2` and `y % 4`.
fn emit_seven(rows: u32, cols: u32, x: u32, y: u32, acc: &mut Vec<Vec<u32>>)
    requires
        in_pass_range(FaceRule::Seven, rows as int, cols as int, x as int, y as int),
        rows as int * cols as int <= u32::MAX as int,
    ensures
        faces_extended(
            old(acc)@,
            final(acc)@,
            cell_spec(FaceRule::Seven, cols as int, x as int, y as int),
        ),
{
    if x % 2 == 0 && y % 4 == 0 {
        acc.push(face6(
            flat_key_at(x, y, rows, cols),
            flat_key_at(x + 1, y + 1, rows, cols),
            flat_key_at(x + 1, y + 2, rows, cols),
            flat_key_at(x, y + 3, rows, cols),
            flat_key_at(x, y + 2, rows, cols),
            flat_key_at(x, y + 1, rows, cols),
        ));
        acc.push(face4(
            flat_key_at(x, y, rows, cols),
            flat_key_at(x + 2, y - 2, rows, cols),
            flat_key_at(x + 2, y - 1, rows, cols),
            flat_key_at(x + 1, y + 1, rows, cols),
        ));
        acc.push(face3(
            flat_key_at(x + 1, y + 1, rows, cols),
            flat_key_at(x + 2, y - 1, rows, cols),
            flat_key_at(x + 2, y + 1, rows, cols),
        ));
    } else if x % 2 == 1 && y % 4 == 1 {
        acc.push(face4(
            flat_key_at(x, y, rows, cols),
            flat_key_at(x + 1, y, rows, cols),
            flat_key_at(x + 1, y + 1, rows, cols),
            flat_key_at(x, y + 1, rows, cols),
        ));
    } else if x % 2 == 1 && y % 4 == 2 {
        acc.push(face4(
            flat_key_at(x, y, rows, cols),
            flat_key_at(x - 1, y + 2, rows, cols),
            flat_key_at(x - 1, y + 3, rows, cols),
            flat_key_at(x - 1, y + 1, rows, cols),
        ));
    } else if x % 2 == 0 && y % 4 == 2 {
        acc.push(face3(
            flat_key_at(x - 1, y, rows, cols),
            flat_key_at(x, y, rows, cols),
            flat_key_at(x - 2, y + 2, rows, cols),
        ));
    }
}

/// Appends the faces of one cell of the eighth semi-regular tiling,
/// classified by `x % 4` and `y % 4`.
fn emit_eight(rows: u32, cols: u32, x: u32, y: u32, acc: &mut Vec<Vec<u32>>)
    requires
        in_pass_range(FaceRule::Eight, rows as int, cols as int, x as int, y as int),
        rows as int * cols as int <= u32::MAX as int,
    ensures
        faces_extended(
            old(acc)@,
            final(acc)@,
            cell_spec(FaceRule::Eight, cols as int, x as int, y as int),
        ),
{
    if x % 2 == 0 && y % 4 == 0 {
        acc.push(face6(
            flat_key_at(x, y, rows, cols),
            flat_key_at(x + 1, y + 1, rows, cols),
            flat_key_at(x + 1, y + 2, rows, cols),
            flat_key_at(x, y + 3, rows, cols),
            flat_key_at(x, y + 2, rows, cols),
            flat_key_at(x, y + 1, rows, cols),
        ));
    }
    if x % 4 == 1 && y % 4 == 1 {
        acc.push(face4(
            flat_key_at(x, y, rows, cols),
            flat_key_at(x + 1, y, rows, cols),
            flat_key_at(x + 1, y + 1, rows, cols),
            flat_key_at(x, y + 1, rows, cols),
        ));
    }
    if x % 4 == 3 && y % 4 == 2 {
        acc.push(face4(
            flat_key_at(x, y, rows, cols),
            flat_key_at(x - 3, y + 2, rows, cols),
            flat_key_at(x - 3, y + 3, rows, cols),
            flat_key_at(x - 1, y + 1, rows, cols),
        ));
    }
    if x % 4 == 0 && y % 4 == 2 {
        acc.push(face4(
            flat_key_at(x, y + 1, rows, cols),
            flat_key_at(x - 1, y + 3, rows, cols),
            flat_key_at(x - 2, y + 2, rows, cols),
            flat_key_at(x, y, rows, cols),
        ));
    }
    if x % 4 == 3 && y % 4 == 1 {
        acc.push(face12(
            flat_key_at(x, y, rows, cols),
            flat_key_at(x + 1, y - 2, rows, cols),
            flat_key_at(x + 2, y - 3, rows, cols),
            flat_key_at(x + 3, y - 3, rows, cols),
            flat_key_at(x + 3, y - 2, rows, cols),
            flat_key_at(x + 1, y, rows, cols),
            flat_key_at(x + 1, y + 1, rows, cols),
            flat_key_at(x - 1, y + 3, rows, cols),
            flat_key_at(x - 1, y + 4, rows, cols),
            flat_key_at(x - 2, y + 4, rows, cols),
            flat_key_at(x - 3, y + 3, rows, cols),
            flat_key_at(x, y + 1, rows, cols),
        ));
    }
}

/// Appends the faces one cell contributes under a rule.
fn emit_cell(rule: FaceRule, rows: u32, cols: u32, x: u32, y: u32, acc: &mut Vec<Vec<u32>>)
    requires
        in_pass_range(rule, rows as int, cols as int, x as int, y as int),
        rows as int * cols as int <= u32::MAX as int,
    ensures
        faces_extended(old(acc)@, final(acc)@, cell_spec(rule, cols as int, x as int, y as int)),
{
    match rule {
        FaceRule::Triangle => emit_triangle(rows, cols, x, y, acc),
        FaceRule::Square => emit_square(rows, cols, x, y, acc),
        FaceRule::Hexagon => emit_hexagon(rows, cols, x, y, acc),
        FaceRule::One => emit_one(rows, cols, x, y, acc),
        FaceRule::TwoOctagon => emit_two_octagon(rows, cols, x, y, acc),
        FaceRule::TwoSquare => emit_two_square(rows, cols, x, y, acc),
        FaceRule::Three => emit_three(rows, cols, x, y, acc),
        FaceRule::Four => emit_four(rows, cols, x, y, acc),
        FaceRule::Five => emit_five(rows, cols, x, y, acc),
        FaceRule::Six => emit_six(rows, cols, x, y, acc),
        FaceRule::Seven => emit_seven(rows, cols, x, y, acc),
        FaceRule::Eight => emit_eight(rows, cols, x, y, acc),
    }
}

/// The interior margins of a pass, as executable values.
fn margins_at(rule: FaceRule) -> (m: (u32, u32, u32, u32))
    ensures
        m.0 as int == margins(rule).0,
        m.1 as int == margins(rule).1,
        m.2 as int == margins(rule).2,
        m.3 as int == margins(rule).3,
{
    match rule {
        FaceRule::Triangle => (0, 1, 0, 1),
        FaceRule::Square => (0, 1, 0, 1),
        FaceRule::Hexagon => (0, 2, 0, 1),
        FaceRule::One => (1, 1, 1, 1),
        FaceRule::TwoOctagon => (1, 2, 1, 2),
        FaceRule::TwoSquare => (0, 1, 0, 1),
        FaceRule::Three => (0, 1, 0, 1),
        FaceRule::Four => (1, 2, 1, 1),
        FaceRule::Five => (0, 1, 1, 1),
        FaceRule::Six => (1, 4, 0, 3),
        FaceRule::Seven => (2, 3, 2, 2),
        FaceRule::Eight => (3, 4, 3, 3),
    }
}

/// Appends one whole pass over the interior rectangle of a `rows` by
/// `cols` lattice, row by row: exactly the faces of `pass_faces`. When the
/// lattice is smaller than the rule's margins, the interior is empty and
/// nothing is appended.
#[verifier::loop_isolation(false)]
pub fn build_pass(rule: FaceRule, rows: u32, cols: u32, acc: &mut Vec<Vec<u32>>)
    requires
        rows as int * cols as int <= u32::MAX as int,
    ensures
        faces_extended(old(acc)@, final(acc)@, pass_faces(rule, rows as int, cols as int)),
{
    let (ylo, yd, xlo, xd) = margins_at(rule);
    let ghost cellf = cell_rule(rule, cols as int);
    let ghost m = margins(rule);
    if rows <= ylo + yd {
        proof {
            assert(pass_faces(rule, rows as int, cols as int) =~= Seq::<Seq<u32>>::empty());
        }
        return ;
    }
    if cols <= xlo + xd {
        proof {
            lemma_grid_empty_cols(cellf, m.0, rows as int - m.1, m.2, cols as int - m.3);
        }
        return ;
    }
    let yhi = rows - yd;
    let xhi = cols - xd;
    let mut y: u32 = ylo;
    while y < yhi
        invariant
            ylo <= y <= yhi,
            faces_extended(
                old(acc)@,
                acc@,
                grid_faces(cellf, ylo as int, y as int, xlo as int, xhi as int),
            ),
        decreases yhi - y,
    {
        proof {
            assert(grid_faces(cellf, ylo as int, y as int, xlo as int, xhi as int) + row_faces(
                cellf,
                y as int,
                xlo as int,
                xlo as int,
            ) =~= grid_faces(cellf, ylo as int, y as int, xlo as int, xhi as int));
        }
        let mut x: u32 = xlo;
        while x < xhi
            invariant
                xlo <= x <= xhi,
                y < yhi,
                faces_extended(
                    old(acc)@,
                    acc@,
                    grid_faces(cellf, ylo as int, y as int, xlo as int, xhi as int) + row_faces(
                        cellf,
                        y as int,
                        xlo as int,
                        x as int,
                    ),
                ),
            decreases xhi - x,
        {
            let ghost before = acc@;
            emit_cell(rule, rows, cols, x, y, acc);
            proof {
                let g = grid_faces(cellf, ylo as int, y as int, xlo as int, xhi as int);
                let r = row_faces(cellf, y as int, xlo as int, x as int);
                let c = cell_spec(rule, cols as int, x as int, y as int);
                lemma_faces_extended_trans(old(acc)@, before, acc@, g + r, c);
                lemma_faces_add_assoc(g, r, c);
                assert(cellf(x as int, y as int) == c);
                assert(row_faces(cellf, y as int, xlo as int, x as int + 1) == r + c);
            }
            x = x + 1;
        }
        proof {
            assert(grid_faces(cellf, ylo as int, y as int + 1, xlo as int, xhi as int)
                == grid_faces(cellf, ylo as int, y as int, xlo as int, xhi as int) + row_faces(
                cellf,
                y as int,
                xlo as int,
                xhi as int,
            ));
        }
        y = y + 1;
    }
}

} // verus!
