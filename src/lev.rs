use vstd::prelude::*;

verus! {

/// Minimum of three naturals.
pub open spec fn min3(a: nat, b: nat, c: nat) -> nat {
    if a <= b && a <= c {
        a
    } else if b <= c {
        b
    } else {
        c
    }
}

/// The edit distance (insertions, deletions, substitutions) between `a` and `b`.
pub open spec fn lev(a: Seq<char>, b: Seq<char>) -> nat
    decreases a.len() + b.len(),
{
    if a.len() == 0 {
        b.len()
    } else if b.len() == 0 {
        a.len()
    } else if a.last() == b.last() {
        lev(a.drop_last(), b.drop_last())
    } else {
        1 + min3(lev(a.drop_last(), b), lev(a, b.drop_last()), lev(a.drop_last(), b.drop_last()))
    }
}

proof fn lemma_lev_bounded(a: Seq<char>, b: Seq<char>)
    ensures
        lev(a, b) <= if a.len() >= b.len() { a.len() } else { b.len() },
    decreases a.len() + b.len(),
{
    if a.len() > 0 && b.len() > 0 {
        lemma_lev_bounded(a.drop_last(), b.drop_last());
    }
}

/// Computes `lev(a@, b@)` with a single rolling column.
pub fn lev_distance(a: &str, b: &str) -> (r: usize)
    ensures
        r == lev(a@, b@),
{
    let n: usize = a.unicode_len();
    let m: usize = b.unicode_len();
    let mut col: Vec<usize> = Vec::new();
    col.push(0);
    proof {
        assert(lev(a@.subrange(0, 0), b@.subrange(0, 0)) == 0);
    }
    let mut k: usize = 0;
    while k < m
        invariant
            m == b@.len(),
            k <= m,
            col@.len() == k + 1,
            forall|x: int| 0 <= x <= k ==> col@[x] == lev(a@.subrange(0, 0), b@.subrange(0, x)),
        decreases m - k,
    {
        k = k + 1;
        col.push(k);
        assert(lev(a@.subrange(0, 0), b@.subrange(0, k as int)) == k);
    }
    let mut i: usize = 0;
    while i < n
        invariant
            n == a@.len(),
            m == b@.len(),
            i <= n,
            col@.len() == m + 1,
            forall|x: int| 0 <= x <= m ==> col@[x] == lev(a@.subrange(0, i as int), b@.subrange(0, x)),
        decreases n - i,
    {
        let ca = a.get_char(i);
        let ghost row = a@.subrange(0, i + 1);
        let ghost prev = a@.subrange(0, i as int);
        assert(row.drop_last() =~= prev);
        assert(lev(row, b@.subrange(0, 0)) == i + 1);
        let mut current: usize = i;
        col.set(0, i + 1);
        let mut j: usize = 0;
        while j < m
            invariant
                n == a@.len(),
                m == b@.len(),
                i < n,
                j <= m,
                ca == a@[i as int],
                row == a@.subrange(0, i + 1),
                prev == a@.subrange(0, i as int),
                row.drop_last() =~= prev,
                col@.len() == m + 1,
                current == lev(prev, b@.subrange(0, j as int)),
                forall|x: int| 0 <= x <= j ==> col@[x] == lev(row, b@.subrange(0, x)),
                forall|x: int| j < x <= m ==> col@[x] == lev(prev, b@.subrange(0, x)),
            decreases m - j,
        {
            let cb = b.get_char(j);
            let ghost bj = b@.subrange(0, j + 1);
            assert(bj.drop_last() =~= b@.subrange(0, j as int));
            let next = col[j + 1];
            let left = col[j];
            proof {
                lemma_lev_bounded(prev, b@.subrange(0, j as int));
            }
            let value: usize = if ca == cb {
                current
            } else {
                let mut best: usize = current;
                if next < best {
                    best = next;
                }
                if left < best {
                    best = left;
                }
                best + 1
            };
            assert(value == lev(row, bj));
            col.set(j + 1, value);
            current = next;
            j = j + 1;
        }
        i = i + 1;
    }
    assert(a@.subrange(0, n as int) =~= a@);
    assert(b@.subrange(0, m as int) =~= b@);
    col[m]
}

} // verus!
