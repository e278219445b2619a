//! Fixed-size arrays described by sequences, and building them from slices.
use vstd::prelude::*;

use vstd::array::{axiom_spec_array_update, spec_array_update};

verus! {

/// `base` with its first `k` elements replaced by those of `s`.
pub open spec fn overwrite_prefix<T, const N: usize>(base: [T; N], s: Seq<T>, k: nat) -> [T; N]
    decreases k,
{
    if k == 0 {
        base
    } else {
        spec_array_update(overwrite_prefix(base, s, (k - 1) as nat), k - 1, s[k - 1])
    }
}

/// The array of length `N` whose elements are those of `s` (meaningful where `s` has length `N`).
pub open spec fn array_of<T, const N: usize>(base: [T; N], s: Seq<T>) -> [T; N] {
    overwrite_prefix(base, s, N as nat)
}

proof fn lemma_overwrite_prefix<T, const N: usize>(base: [T; N], s: Seq<T>, k: nat)
    requires
        k <= N,
        k <= s.len(),
    ensures
        overwrite_prefix(base, s, k)@ == s.take(k as int) + base@.skip(k as int),
    decreases k,
{
    if k > 0 {
        let prev = overwrite_prefix(base, s, (k - 1) as nat);
        lemma_overwrite_prefix(base, s, (k - 1) as nat);
        axiom_spec_array_update(prev, k - 1, s[k - 1]);
        assert(prev@.update(k - 1, s[k - 1]) =~= s.take(k as int) + base@.skip(k as int));
    }
}

/// The array built from a sequence of length `N` has exactly that sequence as its elements.
pub proof fn lemma_array_of<T, const N: usize>(base: [T; N], s: Seq<T>)
    requires
        s.len() == N,
    ensures
        array_of(base, s)@ == s,
{
    lemma_overwrite_prefix(base, s, N as nat);
    assert(s.take(N as int) + base@.skip(N as int) =~= s);
}

/// Arrays with the same elements are equal.
pub proof fn lemma_array_eq<T, const N: usize>(a: [T; N], b: [T; N])
    requires
        a@ == b@,
    ensures
        a == b,
{
    assert(forall|i: int| 0 <= i < N ==> a[i] == b[i]);
    assert(a =~= b);
}

/// An array of `N` copies of `fill` with the first elements replaced by those of `src`.
pub fn fill_then_copy<T: Copy, const N: usize>(fill: T, src: &[T]) -> (r: [T; N])
    requires
        src@.len() <= N,
    ensures
        r@ == src@ + Seq::new((N - src@.len()) as nat, |_i: int| fill),
{
    let mut out: [T; N] = [fill; N];
    let mut i: usize = 0;
    while i < src.len()
        invariant
            i <= src@.len() <= N,
            out@.len() == N,
            forall|j: int| 0 <= j < i ==> out@[j] == src@[j],
            forall|j: int| i <= j < N ==> out@[j] == fill,
        decreases src.len() - i,
    {
        out[i] = src[i];
        i = i + 1;
    }
    assert(out@ =~= src@ + Seq::new((N - src@.len()) as nat, |_i: int| fill));
    out
}

/// The array holding exactly the elements of `src`, which has length `N`.
pub fn array_from_slice<T: Copy, const N: usize>(fill: T, src: &[T]) -> (r: [T; N])
    requires
        src@.len() == N,
    ensures
        r@ == src@,
{
    let out: [T; N] = fill_then_copy(fill, src);
    assert(out@ =~= src@);
    out
}

} // verus!
