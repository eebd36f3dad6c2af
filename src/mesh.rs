//! Topology of the wireframe cube: the sign pattern of its corners and the
//! pairs of vertices that are joined by a line.
use vstd::prelude::*;

verus! {

/// Sign of a coordinate of corner `k` of the cube: the first four corners
/// go round the face at `z = +1` starting top left (`x = -1, y = +1`)
/// clockwise seen from `+z`; the next four repeat that round at `z = -1`.
pub open spec fn corner_sign(k: int, axis: int) -> int {
    let q = k % 4;
    if axis == 0 {
        if q == 1 || q == 2 { 1 } else { -1 }
    } else if axis == 1 {
        if q < 2 { 1 } else { -1 }
    } else {
        if k < 4 { 1 } else { -1 }
    }
}

/// The eight corners of the cube `[-1, 1]^3` as sign triples `(x, y, z)`.
pub fn cube_corners() -> (r: Vec<[i8; 3]>)
    ensures
        r@.len() == 8,
        forall|k: int, a: int| 0 <= k < 8 && 0 <= a < 3 ==> #[trigger] r@[k]@[a] as int == corner_sign(k, a),
{
    let r: Vec<[i8; 3]> = vec![
        [-1, 1, 1],
        [1, 1, 1],
        [1, -1, 1],
        [-1, -1, 1],
        [-1, 1, -1],
        [1, 1, -1],
        [1, -1, -1],
        [-1, -1, -1],
    ];
    r
}

/// The pairs that start at vertex `i` of `n`: `(i, i + 1)` up to `(i, n - 1)`.
pub open spec fn pair_row(n: nat, i: nat) -> Seq<(usize, usize)> {
    Seq::new((n - i - 1) as nat, |k: int| (i as usize, (i + 1 + k) as usize))
}

/// The pairs whose first vertex is below `i`, row by row.
pub open spec fn pairs_before(n: nat, i: nat) -> Seq<(usize, usize)>
    decreases i,
{
    if i == 0 {
        Seq::empty()
    } else {
        pairs_before(n, (i - 1) as nat) + pair_row(n, (i - 1) as nat)
    }
}

/// Every pair `(i, j)` with `i < j < n`, ordered by `i` and then by `j`.
pub open spec fn all_pairs(n: nat) -> Seq<(usize, usize)> {
    pairs_before(n, n)
}

/// Every unordered pair of distinct vertices among `n`, each once, as
/// `(i, j)` with `i < j`, ordered by `i` and then by `j`.
pub fn vertex_pairs(n: usize) -> (r: Vec<(usize, usize)>)
    ensures
        r@ == all_pairs(n as nat),
{
    let mut r: Vec<(usize, usize)> = Vec::new();
    let mut i: usize = 0;
    while i < n
        invariant
            i <= n,
            r@ == pairs_before(n as nat, i as nat),
        decreases n - i,
    {
        let mut j: usize = i + 1;
        while j < n
            invariant
                i < n,
                i + 1 <= j <= n,
                r@ == pairs_before(n as nat, i as nat) + pair_row(n as nat, i as nat).take(j - i - 1),
            decreases n - j,
        {
            proof {
                let row = pair_row(n as nat, i as nat);
                assert(row.take(j - i) =~= row.take(j - i - 1).push((i, j)));
            }
            r.push((i, j));
            assert(r@ =~= pairs_before(n as nat, i as nat) + pair_row(n as nat, i as nat).take(j + 1 - i - 1));
            j = j + 1;
        }
        assert(pair_row(n as nat, i as nat).take(n - i - 1) =~= pair_row(n as nat, i as nat));
        i = i + 1;
    }
    r
}

/// `p` comes strictly before `q`: by first vertex, then by second.
pub open spec fn pair_lt(p: (usize, usize), q: (usize, usize)) -> bool {
    p.0 < q.0 || (p.0 == q.0 && p.1 < q.1)
}

proof fn lemma_pairs_before(n: nat, i: nat)
    requires
        i <= n <= usize::MAX,
    ensures
        2 * pairs_before(n, i).len() == i * (2 * n - i - 1),
        forall|k: int|
            0 <= k < pairs_before(n, i).len() ==> {
                let p = #[trigger] pairs_before(n, i)[k];
                p.0 < i && p.0 < p.1 && p.1 < n
            },
        forall|a: usize, b: usize| a < i && a < b && b < n ==> #[trigger] pairs_before(n, i).contains((a, b)),
        forall|k1: int, k2: int|
            0 <= k1 < k2 < pairs_before(n, i).len() ==> pair_lt(
                #[trigger] pairs_before(n, i)[k1],
                #[trigger] pairs_before(n, i)[k2],
            ),
    decreases i,
{
    if i > 0 {
        let h = (i - 1) as nat;
        lemma_pairs_before(n, h);
        let prev = pairs_before(n, h);
        let row = pair_row(n, h);
        let cur = pairs_before(n, i);
        assert(cur == prev + row);
        assert(2 * cur.len() == i * (2 * n - i - 1)) by (nonlinear_arith)
            requires
                cur.len() == prev.len() + row.len(),
                2 * prev.len() == h * (2 * n - h - 1),
                row.len() == n - h - 1,
                i == h + 1,
                i <= n,
        ;
        assert forall|k: int| 0 <= k < cur.len() implies {
            let p = #[trigger] cur[k];
            p.0 < i && p.0 < p.1 && p.1 < n
        } by {
            if k >= prev.len() {
                assert(cur[k] == row[k - prev.len()]);
            } else {
                assert(cur[k] == prev[k]);
            }
        }
        assert forall|a: usize, b: usize| a < i && a < b && b < n implies #[trigger] cur.contains((a, b)) by {
            if a < h {
                assert(prev.contains((a, b)));
                let k = choose|k: int| 0 <= k < prev.len() && prev[k] == (a, b);
                assert(cur[k] == prev[k]);
            } else {
                let k = b - a - 1;
                assert(row[k] == (a, b));
                assert(cur[prev.len() + k] == row[k]);
            }
        }
        assert forall|k1: int, k2: int| 0 <= k1 < k2 < cur.len() implies pair_lt(
            #[trigger] cur[k1],
            #[trigger] cur[k2],
        ) by {
            if k2 < prev.len() {
                assert(cur[k1] == prev[k1] && cur[k2] == prev[k2]);
            } else if k1 < prev.len() {
                assert(cur[k1] == prev[k1] && cur[k2] == row[k2 - prev.len()]);
            } else {
                assert(cur[k1] == row[k1 - prev.len()] && cur[k2] == row[k2 - prev.len()]);
            }
        }
    }
}

/// What `vertex_pairs(n)` lists: exactly the pairs `(a, b)` with
/// `a < b < n`, `n * (n - 1) / 2` of them, in strictly increasing order,
/// so that no pair of vertices is joined twice.
pub proof fn lemma_all_pairs(n: usize)
    ensures
        2 * all_pairs(n as nat).len() == n * (n - 1),
        forall|a: usize, b: usize| #[trigger] all_pairs(n as nat).contains((a, b)) <==> a < b && b < n,
        forall|k1: int, k2: int|
            0 <= k1 < k2 < all_pairs(n as nat).len() ==> pair_lt(
                #[trigger] all_pairs(n as nat)[k1],
                #[trigger] all_pairs(n as nat)[k2],
            ),
        forall|k1: int, k2: int|
            0 <= k1 < all_pairs(n as nat).len() && 0 <= k2 < all_pairs(n as nat).len() && k1 != k2
                ==> #[trigger] all_pairs(n as nat)[k1] != #[trigger] all_pairs(n as nat)[k2],
{
    lemma_pairs_before(n as nat, n as nat);
    let s = all_pairs(n as nat);
    assert forall|a: usize, b: usize| #[trigger] s.contains((a, b)) implies a < b && b < n by {
        let k = choose|k: int| 0 <= k < s.len() && s[k] == (a, b);
        assert(s[k] == (a, b));
    }
    assert forall|k1: int, k2: int|
        0 <= k1 < s.len() && 0 <= k2 < s.len() && k1 != k2 implies #[trigger] s[k1] != #[trigger] s[k2] by {
        if k1 < k2 {
            assert(pair_lt(s[k1], s[k2]));
        } else {
            assert(pair_lt(s[k2], s[k1]));
        }
    }
}

} // verus!
