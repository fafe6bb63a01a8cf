//! Flat indexing of a row-major lattice.
//!
//! Every tiling stores its lattice points in one flat sequence, with the
//! point of logical cell `(x, y)` at index `x + y * cols`. All face rules
//! compute their vertex keys by offset arithmetic on this formula, so the
//! basic facts about it live here.

use vstd::prelude::*;

verus! {

/// The flat vertex key of lattice cell `(x, y)` in a grid with `cols` columns.
pub open spec fn flat_key(x: int, y: int, cols: int) -> u32 {
    (x + y * cols) as u32
}

/// A flat key of an in-range cell is within the lattice.
pub proof fn lemma_flat_key_bound(x: int, y: int, rows: int, cols: int)
    by (nonlinear_arith)
    requires
        0 <= x < cols,
        0 <= y < rows,
    ensures
        0 <= x + y * cols < rows * cols,
{
}

/// Distinct in-range cells have distinct flat keys.
pub proof fn lemma_flat_key_injective(x1: int, y1: int, x2: int, y2: int, cols: int)
    by (nonlinear_arith)
    requires
        0 <= x1 < cols,
        0 <= x2 < cols,
        0 <= y1,
        0 <= y2,
        x1 + y1 * cols == x2 + y2 * cols,
    ensures
        x1 == x2,
        y1 == y2,
{
}

/// The flat key of an in-range cell decomposes back into that cell.
pub proof fn lemma_flat_key_coords(x: int, y: int, cols: int)
    by (nonlinear_arith)
    requires
        0 <= x < cols,
        0 <= y,
    ensures
        (x + y * cols) % cols == x,
        (x + y * cols) / cols == y,
{
}

/// Every index below `rows * cols` is the flat key of exactly one cell.
pub proof fn lemma_flat_key_decompose(k: int, rows: int, cols: int)
    by (nonlinear_arith)
    requires
        0 < cols,
        0 <= k < rows * cols,
    ensures
        0 <= k % cols < cols,
        0 <= k / cols < rows,
        k == (k % cols) + (k / cols) * cols,
{
}

/// Computes the flat vertex key of cell `(x, y)`, free of overflow as long
/// as the whole lattice fits in the key type.
pub fn flat_key_at(x: u32, y: u32, rows: u32, cols: u32) -> (k: u32)
    requires
        x < cols,
        y < rows,
        rows as int * cols as int <= u32::MAX as int,
    ensures
        k == flat_key(x as int, y as int, cols as int),
        k as int == x as int + y as int * cols as int,
        (k as int) < rows as int * cols as int,
{
    proof {
        lemma_flat_key_bound(x as int, y as int, rows as int, cols as int);
    }
    x + y * cols
}

} // verus!
