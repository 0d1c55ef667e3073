//! Spec-level helpers for sequences of byte payloads.

use vstd::prelude::*;

verus! {

/// The byte sequences seen through a vector of owned byte payloads.
pub open spec fn views(s: Seq<Vec<u8>>) -> Seq<Seq<u8>> {
    Seq::new(s.len(), |i: int| s[i]@)
}

/// Total number of bytes held by a sequence of byte slices.
pub open spec fn sum_len(s: Seq<Seq<u8>>) -> int
    decreases s.len(),
{
    if s.len() == 0 {
        0
    } else {
        sum_len(s.drop_last()) + s.last().len()
    }
}

pub proof fn lemma_sum_len_nonneg(s: Seq<Seq<u8>>)
    ensures
        sum_len(s) >= 0,
    decreases s.len(),
{
    if s.len() > 0 {
        lemma_sum_len_nonneg(s.drop_last());
    }
}

pub proof fn lemma_sum_len_push(s: Seq<Seq<u8>>, x: Seq<u8>)
    ensures
        sum_len(s.push(x)) == sum_len(s) + x.len(),
{
    assert(s.push(x).drop_last() =~= s);
    assert(s.push(x).last() == x);
}

pub proof fn lemma_sum_len_append(a: Seq<Seq<u8>>, b: Seq<Seq<u8>>)
    ensures
        sum_len(a + b) == sum_len(a) + sum_len(b),
    decreases b.len(),
{
    if b.len() == 0 {
        assert(a + b =~= a);
    } else {
        lemma_sum_len_append(a, b.drop_last());
        assert((a + b).drop_last() =~= a + b.drop_last());
        assert((a + b).last() == b.last());
    }
}

/// Extending a prefix of `s` by one element accounts for exactly that
/// element's bytes.
pub proof fn lemma_sum_len_take_step(s: Seq<Seq<u8>>, k: int)
    requires
        0 <= k < s.len(),
    ensures
        sum_len(s.take(k + 1)) == sum_len(s.take(k)) + s[k].len(),
{
    assert(s.take(k + 1).drop_last() =~= s.take(k));
    assert(s.take(k + 1).last() == s[k]);
}

/// A prefix never holds more bytes than the whole sequence.
pub proof fn lemma_sum_len_take_le(s: Seq<Seq<u8>>, k: int)
    requires
        0 <= k <= s.len(),
    ensures
        sum_len(s.take(k)) <= sum_len(s),
    decreases s.len() - k,
{
    if k == s.len() {
        assert(s.take(k) =~= s);
    } else {
        lemma_sum_len_take_step(s, k);
        lemma_sum_len_take_le(s, k + 1);
        assert(s[k].len() >= 0);
    }
}

pub proof fn lemma_views_push(s: Seq<Vec<u8>>, x: Vec<u8>)
    ensures
        views(s.push(x)) == views(s).push(x@),
{
    assert(views(s.push(x)) =~= views(s).push(x@));
}

} // verus!
