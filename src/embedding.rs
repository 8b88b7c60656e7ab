//! Layout of the circulant embedding and the order in which it consumes
//! random draws.
use vstd::prelude::*;

verus! {

/// The index of the autocovariance that entry `j` of the first column of a
/// symmetric circulant matrix of order `m` holds: `j` in the upper half,
/// its reflection `m - j` in the lower half.
pub open spec fn mirror(m: int, j: int) -> int {
    if j <= m - j {
        j
    } else {
        m - j
    }
}

/// The first column of the circulant matrix built from the autocovariances
/// `c(0), ..., c(n)`: it has order `2n`.
pub open spec fn column<T>(cov: Seq<T>) -> Seq<T> {
    let m = 2 * (cov.len() - 1);
    Seq::new(m as nat, |j: int| cov[mirror(m, j)])
}

/// Lays out the autocovariances `c(0), ..., c(n)`, with `n >= 1`, as the first
/// column of a symmetric circulant matrix of order `m = 2n`: entry `i` and
/// entry `m - i` both hold `c(i)` for `1 <= i <= n`, and entry `0` holds `c(0)`.
pub fn circulant_column<T: Copy>(cov: &Vec<T>) -> (r: Vec<T>)
    requires
        cov.len() >= 2,
        2 * (cov.len() - 1) <= usize::MAX,
    ensures
        r@ == column(cov@),
        r.len() == 2 * (cov.len() - 1),
        r[0] == cov[0],
        forall|i: int| 1 <= i <= cov.len() - 1 ==> #[trigger] r[i] == cov[i],
        forall|i: int| 1 <= i <= cov.len() - 1 ==> r[r.len() - i] == #[trigger] cov[i],
{
    let n: usize = cov.len() - 1;
    let m: usize = 2 * n;
    let mut r: Vec<T> = Vec::with_capacity(m);
    let mut j: usize = 0;
    while j < m
        invariant
            n == cov.len() - 1,
            m == 2 * n,
            j <= m,
            r.len() == j,
            forall|k: int| 0 <= k < j ==> r[k] == cov[mirror(m as int, k)],
        decreases m - j,
    {
        let i: usize = if j <= m - j {
            j
        } else {
            m - j
        };
        r.push(cov[i]);
        j = j + 1;
    }
    assert(r@ =~= column(cov@));
    assert forall|i: int| 1 <= i <= cov.len() - 1 implies r[m - i] == #[trigger] cov[i] by {
        assert(mirror(m as int, m - i) == i);
    }
    r
}

/// The draws `g(0), g(1), ...` grouped as `(g(2k), g(2k + 1))` for entry `k`:
/// index-major, the real part's draw before the imaginary part's. An odd
/// draw at the end is left unused.
pub open spec fn paired<T>(draws: Seq<T>) -> Seq<(T, T)> {
    Seq::new(draws.len() / 2, |k: int| (draws[2 * k], draws[2 * k + 1]))
}

/// Groups a sequence of random draws into the pairs that give the real and
/// imaginary parts of the randomized spectrum, in the order they are drawn.
pub fn pair_draws<T: Copy>(draws: &Vec<T>) -> (r: Vec<(T, T)>)
    ensures
        r@ == paired(draws@),
        r.len() == draws.len() / 2,
        forall|k: int|
            0 <= k < r.len() ==> #[trigger] r[k] == (draws[2 * k], draws[2 * k + 1]),
{
    let half: usize = draws.len() / 2;
    let mut r: Vec<(T, T)> = Vec::with_capacity(half);
    let mut k: usize = 0;
    while k < half
        invariant
            half == draws.len() / 2,
            k <= half,
            r.len() == k,
            forall|i: int| 0 <= i < k ==> #[trigger] r[i] == (draws[2 * i], draws[2 * i + 1]),
        decreases half - k,
    {
        r.push((draws[2 * k], draws[2 * k + 1]));
        k = k + 1;
    }
    assert(r@ =~= paired(draws@));
    r
}

/// Sampling is reproducible: draw number `k` always lands in entry `k / 2`,
/// as its real part when `k` is even and as its imaginary part when `k` is
/// odd, so the same ordered draws give the same spectrum.
pub proof fn lemma_draw_order<T>(draws: Seq<T>, k: int)
    requires
        0 <= k < 2 * (draws.len() / 2),
    ensures
        k % 2 == 0 ==> paired(draws)[k / 2].0 == draws[k],
        k % 2 == 1 ==> paired(draws)[k / 2].1 == draws[k],
{
}

} // verus!
