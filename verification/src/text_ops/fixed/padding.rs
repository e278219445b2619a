//! Padding conventions of fixed-size text fields: filling up to the field size, and what
//! decoding keeps of a padded field.
use vstd::prelude::*;

verus! {

/// `u` followed by copies of `pad` up to length `n`.
pub open spec fn pad_to<T>(u: Seq<T>, n: nat, pad: T) -> Seq<T> {
    u + Seq::new((n - u.len()) as nat, |_i: int| pad)
}

/// `s` without its trailing copies of `pad`.
pub open spec fn trim_end<T>(s: Seq<T>, pad: T) -> Seq<T>
    decreases s.len(),
{
    if s.len() > 0 && s.last() == pad {
        trim_end(s.drop_last(), pad)
    } else {
        s
    }
}

/// The part of `s` before the first `stop` (all of `s` where there is none).
pub open spec fn before_first<T>(s: Seq<T>, stop: T) -> Seq<T>
    decreases s.len(),
{
    if s.len() == 0 {
        s
    } else if s[0] == stop {
        Seq::empty()
    } else {
        seq![s[0]] + before_first(s.drop_first(), stop)
    }
}

/// The prefix up to the first `stop` is what `before_first` keeps.
pub proof fn lemma_before_first<T>(s: Seq<T>, stop: T, end: int)
    requires
        0 <= end <= s.len(),
        forall|j: int| 0 <= j < end ==> s[j] != stop,
        end == s.len() || s[end] == stop,
    ensures
        before_first(s, stop) == s.take(end),
    decreases end,
{
    if end == 0 {
        assert(s.take(0) =~= Seq::<T>::empty());
        if s.len() == 0 {
            assert(s =~= Seq::<T>::empty());
        }
    } else {
        lemma_before_first(s.drop_first(), stop, end - 1);
        assert(seq![s[0]] + s.drop_first().take(end - 1) =~= s.take(end));
    }
}

/// Trimming a prefix that ends in `pad` trims the same as trimming one element less.
pub proof fn lemma_trim_end_step<T>(s: Seq<T>, pad: T, end: int)
    requires
        0 < end <= s.len(),
        s[end - 1] == pad,
    ensures
        trim_end(s.take(end), pad) == trim_end(s.take(end - 1), pad),
{
    assert(s.take(end).drop_last() =~= s.take(end - 1));
}

/// A sequence that does not end in `pad` is left as it is.
pub proof fn lemma_trim_end_done<T>(s: Seq<T>, pad: T)
    requires
        s.len() == 0 || s.last() != pad,
    ensures
        trim_end(s, pad) == s,
{
}

/// Trailing padding is removed again by trimming.
pub proof fn lemma_trim_end_pad<T>(u: Seq<T>, n: nat, pad: T)
    requires
        u.len() <= n,
    ensures
        trim_end(pad_to(u, n, pad), pad) == trim_end(u, pad),
    decreases n - u.len(),
{
    if u.len() < n {
        let p = pad_to(u, n, pad);
        assert(p.drop_last() =~= pad_to(u, (n - 1) as nat, pad));
        lemma_trim_end_pad(u, (n - 1) as nat, pad);
    } else {
        assert(pad_to(u, n, pad) =~= u);
    }
}

/// Padding after text that holds no `stop` ends where the padding starts.
pub proof fn lemma_before_first_pad<T>(u: Seq<T>, n: nat, stop: T)
    requires
        u.len() <= n,
        !u.contains(stop),
    ensures
        before_first(pad_to(u, n, stop), stop) == u,
{
    let p = pad_to(u, n, stop);
    assert forall|j: int| 0 <= j < u.len() implies p[j] != stop by {
        assert(p[j] == u[j]);
    }
    lemma_before_first(p, stop, u.len() as int);
    assert(p.take(u.len() as int) =~= u);
}

/// Trimming never lengthens.
pub proof fn lemma_trim_end_len<T>(s: Seq<T>, pad: T)
    ensures
        trim_end(s, pad).len() <= s.len(),
    decreases s.len(),
{
    if s.len() > 0 && s.last() == pad {
        lemma_trim_end_len(s.drop_last(), pad);
    }
}

} // verus!
