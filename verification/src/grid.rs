//! Shared face-assembly machinery.
//!
//! Every tiling's face assembler walks an interior rectangle of lattice
//! cells in row-major order and lets each cell contribute a short list of
//! faces. The spec functions here define that iteration once, for any
//! per-cell rule, and the lemmas let the one executable loop and the
//! per-tiling proofs reuse it.

use vstd::prelude::*;

use crate::mesh::Face;

verus! {

/// A per-cell face rule: the faces cell `(x, y)` contributes.
pub type CellRule = spec_fn(int, int) -> Seq<Seq<u32>>;

/// The faces of cells `(xlo, y) .. (xhi, y)`, in column order.
pub open spec fn row_faces(cell: CellRule, y: int, xlo: int, xhi: int) -> Seq<Seq<u32>>
    decreases xhi - xlo,
{
    if xhi <= xlo {
        Seq::empty()
    } else {
        row_faces(cell, y, xlo, xhi - 1) + cell(xhi - 1, y)
    }
}

/// The faces of all cells in `xlo..xhi` by `ylo..yhi`, row by row.
pub open spec fn grid_faces(cell: CellRule, ylo: int, yhi: int, xlo: int, xhi: int) -> Seq<
    Seq<u32>,
>
    decreases yhi - ylo,
{
    if yhi <= ylo {
        Seq::empty()
    } else {
        grid_faces(cell, ylo, yhi - 1, xlo, xhi) + row_faces(cell, yhi - 1, xlo, xhi)
    }
}

/// A grid over an empty column range contributes no faces at all.
pub proof fn lemma_grid_empty_cols(cell: CellRule, ylo: int, yhi: int, xlo: int, xhi: int)
    requires
        xhi <= xlo,
    ensures
        grid_faces(cell, ylo, yhi, xlo, xhi) == Seq::<Seq<u32>>::empty(),
    decreases yhi - ylo,
{
    if yhi > ylo {
        lemma_grid_empty_cols(cell, ylo, yhi - 1, xlo, xhi);
    }
    assert(grid_faces(cell, ylo, yhi, xlo, xhi) =~= Seq::<Seq<u32>>::empty());
}

/// Every face in `s` satisfies `pred`.
pub open spec fn all_faces(s: Seq<Seq<u32>>, pred: spec_fn(Seq<u32>) -> bool) -> bool {
    forall|i: int| 0 <= i < s.len() ==> pred(#[trigger] s[i])
}

/// A row inherits any per-face property its cells guarantee.
pub proof fn lemma_row_faces_all(
    cell: CellRule,
    y: int,
    xlo: int,
    xhi: int,
    pred: spec_fn(Seq<u32>) -> bool,
)
    requires
        forall|x: int| xlo <= x < xhi ==> all_faces(#[trigger] cell(x, y), pred),
    ensures
        all_faces(row_faces(cell, y, xlo, xhi), pred),
    decreases xhi - xlo,
{
    if xhi > xlo {
        lemma_row_faces_all(cell, y, xlo, xhi - 1, pred);
        let a = row_faces(cell, y, xlo, xhi - 1);
        let b = cell(xhi - 1, y);
        assert(all_faces(b, pred));
        assert forall|i: int| 0 <= i < row_faces(cell, y, xlo, xhi).len() implies pred(
            #[trigger] row_faces(cell, y, xlo, xhi)[i],
        ) by {
            if i < a.len() {
                assert(row_faces(cell, y, xlo, xhi)[i] == a[i]);
                assert(pred(a[i]));
            } else {
                assert(row_faces(cell, y, xlo, xhi)[i] == b[i - a.len()]);
                assert(pred(b[i - a.len()]));
            }
        }
    }
}

/// A grid inherits any per-face property its cells guarantee.
pub proof fn lemma_grid_faces_all(
    cell: CellRule,
    ylo: int,
    yhi: int,
    xlo: int,
    xhi: int,
    pred: spec_fn(Seq<u32>) -> bool,
)
    requires
        forall|x: int, y: int|
            xlo <= x < xhi && ylo <= y < yhi ==> all_faces(#[trigger] cell(x, y), pred),
    ensures
        all_faces(grid_faces(cell, ylo, yhi, xlo, xhi), pred),
    decreases yhi - ylo,
{
    if yhi > ylo {
        lemma_grid_faces_all(cell, ylo, yhi - 1, xlo, xhi, pred);
        lemma_row_faces_all(cell, yhi - 1, xlo, xhi, pred);
        let a = grid_faces(cell, ylo, yhi - 1, xlo, xhi);
        let b = row_faces(cell, yhi - 1, xlo, xhi);
        assert forall|i: int| 0 <= i < grid_faces(cell, ylo, yhi, xlo, xhi).len() implies pred(
            #[trigger] grid_faces(cell, ylo, yhi, xlo, xhi)[i],
        ) by {
            if i < a.len() {
                assert(grid_faces(cell, ylo, yhi, xlo, xhi)[i] == a[i]);
                assert(pred(a[i]));
            } else {
                assert(grid_faces(cell, ylo, yhi, xlo, xhi)[i] == b[i - a.len()]);
                assert(pred(b[i - a.len()]));
            }
        }
    }
}

/// `v` holds exactly the faces of `s`, in order.
pub open spec fn faces_match(v: Seq<Face>, s: Seq<Seq<u32>>) -> bool {
    &&& v.len() == s.len()
    &&& forall|i: int| 0 <= i < s.len() ==> (#[trigger] v[i])@ == s[i]
}

/// `post` extends `pre` by exactly the faces of `add`, in order.
pub open spec fn faces_extended(pre: Seq<Face>, post: Seq<Face>, add: Seq<Seq<u32>>) -> bool {
    &&& post.len() == pre.len() + add.len()
    &&& forall|i: int| 0 <= i < pre.len() ==> (#[trigger] post[i]) == pre[i]
    &&& forall|i: int| 0 <= i < add.len() ==> post[pre.len() + i]@ == #[trigger] add[i]
}

/// Two extensions in a row make one extension by the concatenation.
pub proof fn lemma_faces_extended_trans(
    pre: Seq<Face>,
    mid: Seq<Face>,
    post: Seq<Face>,
    a: Seq<Seq<u32>>,
    b: Seq<Seq<u32>>,
)
    requires
        faces_extended(pre, mid, a),
        faces_extended(mid, post, b),
    ensures
        faces_extended(pre, post, a + b),
{
    assert forall|i: int| 0 <= i < pre.len() implies (#[trigger] post[i]) == pre[i] by {
        assert(post[i] == mid[i]);
        assert(mid[i] == pre[i]);
    }
    assert forall|i: int| 0 <= i < (a + b).len() implies post[pre.len() + i]@ == #[trigger] (a
        + b)[i] by {
        if i < a.len() {
            assert((a + b)[i] == a[i]);
            assert(mid[pre.len() + i]@ == a[i]);
            assert(post[pre.len() + i] == mid[pre.len() + i]);
        } else {
            assert((a + b)[i] == b[i - a.len()]);
            assert(post[mid.len() + (i - a.len())]@ == b[i - a.len()]);
        }
    }
}

/// An extension of nothing is an exact match.
pub proof fn lemma_faces_match_new(v: Seq<Face>, s: Seq<Seq<u32>>)
    requires
        faces_extended(Seq::<Face>::empty(), v, s),
    ensures
        faces_match(v, s),
{
    assert forall|i: int| 0 <= i < s.len() implies (#[trigger] v[i])@ == s[i] by {
        assert(v[Seq::<Face>::empty().len() + i]@ == s[i]);
    }
}

/// Concatenation of face lists is associative.
pub proof fn lemma_faces_add_assoc(a: Seq<Seq<u32>>, b: Seq<Seq<u32>>, c: Seq<Seq<u32>>)
    ensures
        (a + b) + c == a + (b + c),
{
    assert((a + b) + c =~= a + (b + c));
}

/// Determinism: two face lists that both match the same assembled face
/// sequence hold identical faces.
pub proof fn lemma_faces_deterministic(v1: Seq<Face>, v2: Seq<Face>, s: Seq<Seq<u32>>)
    requires
        faces_match(v1, s),
        faces_match(v2, s),
    ensures
        v1.len() == v2.len(),
        forall|i: int| 0 <= i < v1.len() ==> (#[trigger] v1[i])@ == v2[i]@,
{
    assert forall|i: int| 0 <= i < v1.len() implies (#[trigger] v1[i])@ == v2[i]@ by {
        assert(v1[i]@ == s[i]);
        assert(v2[i]@ == s[i]);
    }
}

} // verus!
