//! Layout of 4x4 grids stored row by row (`m[row][col]`), independent of
//! what the cells hold: transposition, diagonal grids and flattening.
use vstd::prelude::*;

verus! {

/// Cell `(i, j)` of a grid: row `i`, column `j`.
pub open spec fn cell<T>(m: [[T; 4]; 4], i: int, j: int) -> T {
    m@[i]@[j]
}

/// `t` is the transpose of `m`: each cell `(i, j)` of `t` is cell `(j, i)` of `m`.
pub open spec fn is_transpose<T>(t: [[T; 4]; 4], m: [[T; 4]; 4]) -> bool {
    forall|i: int, j: int| 0 <= i < 4 && 0 <= j < 4 ==> #[trigger] cell(t, i, j) == cell(m, j, i)
}

/// Two grids hold the same value in every cell.
pub open spec fn same_cells<T>(a: [[T; 4]; 4], b: [[T; 4]; 4]) -> bool {
    forall|i: int, j: int| 0 <= i < 4 && 0 <= j < 4 ==> #[trigger] cell(a, i, j) == cell(b, i, j)
}

/// The grid whose rows are the columns of `m`.
pub fn transpose<T: Copy>(m: &[[T; 4]; 4]) -> (r: [[T; 4]; 4])
    ensures
        is_transpose(r, *m),
{
    let r = [
        [m[0][0], m[1][0], m[2][0], m[3][0]],
        [m[0][1], m[1][1], m[2][1], m[3][1]],
        [m[0][2], m[1][2], m[2][2], m[3][2]],
        [m[0][3], m[1][3], m[2][3], m[3][3]],
    ];
    assert(is_transpose(r, *m));
    r
}

/// `d` on the diagonal and `off` in every other cell.
pub open spec fn is_diagonal<T>(r: [[T; 4]; 4], d: [T; 4], off: T) -> bool {
    forall|i: int, j: int|
        0 <= i < 4 && 0 <= j < 4 ==> #[trigger] cell(r, i, j) == if i == j {
            d@[i]
        } else {
            off
        }
}

/// The grid with `d[i]` at cell `(i, i)` and `off` everywhere else.
pub fn diagonal<T: Copy>(d: [T; 4], off: T) -> (r: [[T; 4]; 4])
    ensures
        is_diagonal(r, d, off),
{
    let r = [
        [d[0], off, off, off],
        [off, d[1], off, off],
        [off, off, d[2], off],
        [off, off, off, d[3]],
    ];
    assert(is_diagonal(r, d, off));
    r
}

/// The cells of `m` read row by row: cell `(i, j)` stands at `4 * i + j`.
pub open spec fn row_major<T>(m: [[T; 4]; 4]) -> Seq<T> {
    Seq::new(16, |k: int| cell(m, k / 4, k % 4))
}

/// The sixteen cells of `m`, row by row.
pub fn flatten<T: Copy>(m: &[[T; 4]; 4]) -> (r: Vec<T>)
    ensures
        r@ == row_major(*m),
        forall|i: int, j: int| 0 <= i < 4 && 0 <= j < 4 ==> r@[4 * i + j] == #[trigger] cell(*m, i, j),
{
    let mut r: Vec<T> = Vec::new();
    let mut i: usize = 0;
    while i < 4
        invariant
            i <= 4,
            r@.len() == 4 * i,
            forall|k: int| 0 <= k < 4 * i ==> r@[k] == cell(*m, k / 4, k % 4),
        decreases 4 - i,
    {
        let mut j: usize = 0;
        while j < 4
            invariant
                i < 4,
                j <= 4,
                r@.len() == 4 * i + j,
                forall|k: int| 0 <= k < 4 * i + j ==> r@[k] == cell(*m, k / 4, k % 4),
            decreases 4 - j,
        {
            r.push(m[i][j]);
            assert((4 * i + j) as int / 4 == i as int && (4 * i + j) as int % 4 == j as int);
            j = j + 1;
        }
        i = i + 1;
    }
    assert(r@ =~= row_major(*m));
    assert forall|i: int, j: int| 0 <= i < 4 && 0 <= j < 4 implies r@[4 * i + j] == #[trigger] cell(*m, i, j) by {
        assert((4 * i + j) / 4 == i && (4 * i + j) % 4 == j);
    }
    r
}

/// Transposing twice gives back the grid that was transposed.
pub proof fn lemma_transpose_involution<T>(m: [[T; 4]; 4], t: [[T; 4]; 4], tt: [[T; 4]; 4])
    requires
        is_transpose(t, m),
        is_transpose(tt, t),
    ensures
        same_cells(tt, m),
        tt == m,
{
    broadcast use vstd::array::group_array_axioms;

    assert forall|i: int, j: int| 0 <= i < 4 && 0 <= j < 4 implies #[trigger] cell(tt, i, j) == cell(m, i, j) by {
        assert(cell(tt, i, j) == cell(t, j, i));
    }
    assert forall|i: int| 0 <= i < 4 implies #[trigger] tt[i] == m[i] by {
        assert forall|j: int| 0 <= j < 4 implies tt[i][j] == m[i][j] by {
            assert(cell(tt, i, j) == cell(m, i, j));
        }
        assert(tt[i] =~= m[i]);
    }
    assert(tt =~= m);
}

} // verus!
