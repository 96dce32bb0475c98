//! The grid half of the midpoint quadrature rule.
//!
//! A rectangle is divided into `count_x` columns and `count_y` rows of equal
//! cells, and the integral is approximated by a sum with one term per cell.
//! The sum is correct only if the traversal meets every cell exactly once,
//! and a grid with no divisions along some axis must yield the empty sum
//! rather than reach for a cell width it cannot have. Everything about that
//! plan is integer combinatorics, stated and proved here; sampling the field
//! at the midpoints is left to the caller, who walks the listing this module
//! returns.

use vstd::prelude::*;
use vstd::arithmetic::div_mod::*;
use vstd::arithmetic::mul::*;

verus! {

/// `cells` lists every cell of a `count_x` by `count_y` grid in row-major
/// order: position `i * count_y + j` names the cell in column `i` and row
/// `j`, so position `k` names cell `(k / count_y, k % count_y)`.
pub open spec fn is_row_major(cells: Seq<(usize, usize)>, count_x: int, count_y: int) -> bool {
    &&& cells.len() == count_x * count_y
    &&& forall|k: int|
        0 <= k < cells.len() ==> (#[trigger] cells[k]).0 == k / count_y && cells[k].1 == k
            % count_y
}

/// How many cells a grid with the given division counts holds, or `None`
/// when the product does not fit in `usize`.
pub fn cell_count(count_x: usize, count_y: usize) -> (count: Option<usize>)
    ensures
        match count {
            Some(n) => n == count_x * count_y,
            None => count_x * count_y > usize::MAX,
        },
{
    count_x.checked_mul(count_y)
}

/// The cell that position `k` of the row-major traversal names, in a grid
/// whose columns are `count_y` cells tall.
pub fn coords_of(k: usize, count_y: usize) -> (cell: (usize, usize))
    requires
        count_y > 0,
    ensures
        cell.0 == k as int / count_y as int,
        cell.1 == k as int % count_y as int,
{
    (k / count_y, k % count_y)
}

/// A position below the cell total names a cell inside the grid: the column
/// `coords_of` reads out of it is below `count_x` and the row below
/// `count_y`. A caller that walks positions `0 .. count_x * count_y`
/// therefore never leaves the grid.
pub proof fn lemma_position_names_a_cell(k: int, count_x: int, count_y: int)
    requires
        0 <= k < count_x * count_y,
        0 < count_y,
    ensures
        0 <= k / count_y < count_x,
        0 <= k % count_y < count_y,
{
    lemma_mul_is_commutative(count_x, count_y);
    lemma_div_pos_is_pos(k, count_y);
    lemma_multiply_divide_lt(k, count_y, count_x);
    lemma_mod_pos_bound(k, count_y);
}

/// The full traversal plan of a `count_x` by `count_y` grid: every cell in
/// lexicographic order, each exactly once (see `lemma_row_major_no_repeats`
/// and `lemma_row_major_covers_grid`). A grid
/// degenerate along either axis has no cells, so the quadrature sum over it
/// is the empty sum.
pub fn row_major_cells(count_x: usize, count_y: usize) -> (cells: Vec<(usize, usize)>)
    requires
        count_x * count_y <= usize::MAX,
    ensures
        is_row_major(cells@, count_x as int, count_y as int),
        count_x == 0 || count_y == 0 ==> cells@.len() == 0,
{
    let mut cells: Vec<(usize, usize)> = Vec::new();
    let mut i: usize = 0;
    while i < count_x
        invariant
            i <= count_x,
            count_x * count_y <= usize::MAX,
            cells@.len() == i * count_y,
            forall|k: int|
                0 <= k < cells@.len() ==> (#[trigger] cells@[k]).0 == k / count_y as int
                    && cells@[k].1 == k % count_y as int,
        decreases count_x - i,
    {
        let mut j: usize = 0;
        while j < count_y
            invariant
                i < count_x,
                j <= count_y,
                count_x * count_y <= usize::MAX,
                cells@.len() == i * count_y + j,
                forall|k: int|
                    0 <= k < cells@.len() ==> (#[trigger] cells@[k]).0 == k / count_y as int
                        && cells@[k].1 == k % count_y as int,
            decreases count_y - j,
        {
            proof {
                lemma_fundamental_div_mod_converse(
                    i * count_y + j,
                    count_y as int,
                    i as int,
                    j as int,
                );
            }
            cells.push((i, j));
            j = j + 1;
        }
        proof {
            assert((i + 1) * count_y == i * count_y + count_y) by (nonlinear_arith);
        }
        i = i + 1;
    }
    proof {
        lemma_mul_basics(count_x as int);
        lemma_mul_basics(count_y as int);
    }
    cells
}

/// No cell appears at two positions of a row-major listing: the traversal
/// meets each cell at most once, so no midpoint sample is counted twice.
pub proof fn lemma_row_major_no_repeats(cells: Seq<(usize, usize)>, count_x: int, count_y: int)
    requires
        0 <= count_x,
        0 <= count_y,
        is_row_major(cells, count_x, count_y),
    ensures
        forall|k1: int, k2: int|
            0 <= k1 < cells.len() && 0 <= k2 < cells.len() && #[trigger] cells[k1]
                == #[trigger] cells[k2] ==> k1 == k2,
{
    assert forall|k1: int, k2: int|
        0 <= k1 < cells.len() && 0 <= k2 < cells.len() && #[trigger] cells[k1]
            == #[trigger] cells[k2] implies k1 == k2 by {
        lemma_mul_basics(count_x);
        lemma_fundamental_div_mod(k1, count_y);
        lemma_fundamental_div_mod(k2, count_y);
    }
}

/// Every cell of the grid appears in a row-major listing: cell `(i, j)`
/// stands at position `i * count_y + j`. Together with
/// `lemma_row_major_no_repeats` this is the quadrature engine's traversal
/// law: each cell is sampled exactly once.
pub proof fn lemma_row_major_covers_grid(
    cells: Seq<(usize, usize)>,
    count_x: int,
    count_y: int,
    i: int,
    j: int,
)
    requires
        is_row_major(cells, count_x, count_y),
        0 <= i < count_x,
        0 <= j < count_y,
    ensures
        0 <= i * count_y + j < cells.len(),
        cells[i * count_y + j].0 == i,
        cells[i * count_y + j].1 == j,
{
    lemma_mul_nonnegative(i, count_y);
    lemma_mul_inequality(i + 1, count_x, count_y);
    assert((i + 1) * count_y == i * count_y + count_y) by (nonlinear_arith);
    lemma_fundamental_div_mod_converse(i * count_y + j, count_y, i, j);
}

} // verus!
