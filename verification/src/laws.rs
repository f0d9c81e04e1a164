//! Laws of the pool's behaviour that span several operations: deduplication,
//! the round-robin cycle, and the health-check sweep's two extremes.

use vstd::prelude::*;
use vstd::arithmetic::div_mod::{lemma_mod_self_0, lemma_small_mod};

use crate::pool::{by_scheme, cleaned_lines, mask_filter};
use crate::protocol::Protocol;
use crate::proxy::ProxyView;
use crate::text::trim_chars;

verus! {

/// Law: loading deduplicates — the cleaned backing-list lines are pairwise
/// distinct, so an entry repeated any number of times survives once.
pub proof fn lemma_cleaned_lines_distinct(ls: Seq<Seq<char>>)
    ensures
        forall|i: int, j: int|
            0 <= i < j < cleaned_lines(ls).len()
                ==> #[trigger] cleaned_lines(ls)[i] != #[trigger] cleaned_lines(ls)[j],
    decreases ls.len(),
{
    if ls.len() > 0 {
        lemma_cleaned_lines_distinct(ls.drop_last());
        let prev = cleaned_lines(ls.drop_last());
        let t = trim_chars(ls.last());
        if t.len() > 0 && !prev.contains(t) {
            assert(cleaned_lines(ls) == prev.push(t));
            assert forall|i: int, j: int|
                0 <= i < j < cleaned_lines(ls).len()
                    implies #[trigger] cleaned_lines(ls)[i] != #[trigger] cleaned_lines(ls)[j] by {
                if j == prev.len() {
                    assert(cleaned_lines(ls)[j] == t);
                    assert(cleaned_lines(ls)[i] == prev[i]);
                    assert(!prev.contains(t));
                } else {
                    assert(cleaned_lines(ls)[i] == prev[i]);
                    assert(cleaned_lines(ls)[j] == prev[j]);
                }
            }
        }
    }
}

/// Law: from any cursor, the positions that consecutive selections visit are
/// pairwise distinct over one full cycle. The `a`-th and `b`-th of `len`
/// consecutive `get` calls land on cursor values `(c + a) % len` and
/// `(c + b) % len`; for a cycle starting at cursor zero these are
/// `1, 2, ..., len - 1, 0`.
pub proof fn lemma_round_robin_distinct(len: int, a: int, b: int)
    requires
        0 < len,
        1 <= a < b <= len,
    ensures
        a % len != b % len,
{
    lemma_small_mod(a as nat, len as nat);
    if b < len {
        lemma_small_mod(b as nat, len as nat);
    } else {
        lemma_mod_self_0(len);
    }
}

/// Law: one full round-robin cycle misses no index — every position of a
/// non-empty list is the cursor value of one of the first `len` selections.
pub proof fn lemma_round_robin_covers(len: int, idx: int)
    requires
        0 < len,
        0 <= idx < len,
    ensures
        exists|k: int| 1 <= k <= len && #[trigger] (k % len) == idx,
{
    if idx == 0 {
        lemma_mod_self_0(len);
        assert(len % len == idx);
    } else {
        lemma_small_mod(idx as nat, len as nat);
        assert(idx % len == idx);
    }
}

/// Law: a sweep in which every probe fails leaves nothing — the surviving
/// set is empty.
pub proof fn lemma_sweep_all_fail(ps: Seq<ProxyView>, bs: Seq<bool>)
    requires
        ps.len() == bs.len(),
        forall|k: int| 0 <= k < bs.len() ==> !bs[k],
    ensures
        mask_filter(ps, bs).len() == 0,
    decreases ps.len(),
{
    if ps.len() > 0 {
        lemma_sweep_all_fail(ps.drop_last(), bs.drop_last());
        assert(!bs[bs.len() - 1]);
    }
}

/// Law: a sweep in which every probe passes keeps every candidate, in its
/// snapshot order.
pub proof fn lemma_sweep_all_pass(ps: Seq<ProxyView>, bs: Seq<bool>)
    requires
        ps.len() == bs.len(),
        forall|k: int| 0 <= k < bs.len() ==> bs[k],
    ensures
        mask_filter(ps, bs) == ps,
    decreases ps.len(),
{
    if ps.len() > 0 {
        lemma_sweep_all_pass(ps.drop_last(), bs.drop_last());
        assert(bs[bs.len() - 1]);
        assert(mask_filter(ps, bs) =~= ps);
    } else {
        assert(mask_filter(ps, bs) =~= ps);
    }
}

/// Law: a sweep in which every probe passes leaves the pool holding exactly
/// as many entries, across both protocol-scoped lists, as it probed.
pub proof fn lemma_sweep_all_pass_cardinality(ps: Seq<ProxyView>, bs: Seq<bool>)
    requires
        ps.len() == bs.len(),
        forall|k: int| 0 <= k < bs.len() ==> bs[k],
    ensures
        by_scheme(mask_filter(ps, bs), Protocol::Http).len()
            + by_scheme(mask_filter(ps, bs), Protocol::Socks5).len() == ps.len(),
{
    lemma_sweep_all_pass(ps, bs);
    lemma_partition_cardinality(ps);
}

/// Law: partitioning by scheme loses nothing and invents nothing — the two
/// protocol-scoped lists together hold exactly as many entries as the list
/// they were split from.
pub proof fn lemma_partition_cardinality(ps: Seq<ProxyView>)
    ensures
        by_scheme(ps, Protocol::Http).len() + by_scheme(ps, Protocol::Socks5).len() == ps.len(),
    decreases ps.len(),
{
    reveal(Seq::filter);
    if ps.len() > 0 {
        lemma_partition_cardinality(ps.drop_last());
        match ps.last().scheme {
            Protocol::Http => {},
            Protocol::Socks5 => {},
        }
    }
}

} // verus!
