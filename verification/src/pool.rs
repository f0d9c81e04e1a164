//! The proxy pool: two protocol-scoped candidate lists with independent
//! round-robin cursors, loaded from and saved to the backing list, and
//! refreshed by a health-check sweep.

use vstd::prelude::*;

use crate::errors::ProxyError;
use crate::protocol::Protocol;
use crate::proxy::{parse_proxy_spec, show_chars, Proxy, ProxyView};
use crate::text::trim_chars;

verus! {

/// The trimmed, non-blank backing-list lines, first occurrence of each kept.
pub open spec fn cleaned_lines(ls: Seq<Seq<char>>) -> Seq<Seq<char>>
    decreases ls.len(),
{
    if ls.len() == 0 {
        Seq::empty()
    } else {
        let prev = cleaned_lines(ls.drop_last());
        let t = trim_chars(ls.last());
        if t.len() > 0 && !prev.contains(t) {
            prev.push(t)
        } else {
            prev
        }
    }
}

/// The proxies the lines denote, in order; lines that do not parse are
/// dropped silently.
pub open spec fn parsed_views(ls: Seq<Seq<char>>) -> Seq<ProxyView>
    decreases ls.len(),
{
    if ls.len() == 0 {
        Seq::empty()
    } else {
        let prev = parsed_views(ls.drop_last());
        match parse_proxy_spec(ls.last()) {
            Some(v) => prev.push(v),
            None => prev,
        }
    }
}

/// The entries of `ps` whose scheme is `sch`, in order.
pub open spec fn by_scheme(ps: Seq<ProxyView>, sch: Protocol) -> Seq<ProxyView> {
    ps.filter(|p: ProxyView| p.scheme == sch)
}

/// The entries of `ps` whose probe passed, in order.
pub open spec fn mask_filter(ps: Seq<ProxyView>, bs: Seq<bool>) -> Seq<ProxyView>
    decreases ps.len(),
{
    if ps.len() == 0 {
        Seq::empty()
    } else {
        let prev = mask_filter(ps.drop_last(), bs.drop_last());
        if bs.len() == ps.len() && bs.last() {
            prev.push(ps.last())
        } else {
            prev
        }
    }
}

/// The normalized lines the pool writes back: HTTP entries first, then
/// SOCKS5 entries.
pub open spec fn shown_lines(ps: Seq<ProxyView>) -> Seq<Seq<char>> {
    ps.map_values(|v: ProxyView| show_chars(v))
}

/// The process-wide pool of upstream candidates: one (list, cursor) pair per
/// protocol.
pub struct ProxyPool {
    pub http_proxy_list: Vec<Proxy>,
    pub http_index: usize,
    pub socks5_proxy_list: Vec<Proxy>,
    pub socks5_index: usize,
}

impl ProxyPool {
    /// The HTTP candidates, as mathematical values.
    pub open spec fn http_views(&self) -> Seq<ProxyView> {
        self.http_proxy_list.deep_view()
    }

    /// The SOCKS5 candidates, as mathematical values.
    pub open spec fn socks5_views(&self) -> Seq<ProxyView> {
        self.socks5_proxy_list.deep_view()
    }

    /// The pool's invariant: each cursor stays inside its list whenever the
    /// list is non-empty (and parked at zero when it is empty), and each
    /// list holds only entries of its own scheme.
    pub open spec fn wf(&self) -> bool {
        &&& (if self.http_views().len() == 0 {
            self.http_index == 0
        } else {
            self.http_index < self.http_views().len()
        })
        &&& (if self.socks5_views().len() == 0 {
            self.socks5_index == 0
        } else {
            self.socks5_index < self.socks5_views().len()
        })
        &&& (forall|i: int| 0 <= i < self.http_views().len()
            ==> (#[trigger] self.http_views()[i]).scheme == Protocol::Http)
        &&& (forall|i: int| 0 <= i < self.socks5_views().len()
            ==> (#[trigger] self.socks5_views()[i]).scheme == Protocol::Socks5)
    }

    /// An empty pool with both cursors at zero.
    pub fn new() -> (r: Self)
        ensures
            r.wf(),
            r.http_views() == Seq::<ProxyView>::empty(),
            r.socks5_views() == Seq::<ProxyView>::empty(),
            r.http_index == 0,
            r.socks5_index == 0,
    {
        let r = ProxyPool {
            http_proxy_list: Vec::new(),
            http_index: 0,
            socks5_proxy_list: Vec::new(),
            socks5_index: 0,
        };
        proof {
            assert(r.http_views() =~= Seq::<ProxyView>::empty());
            assert(r.socks5_views() =~= Seq::<ProxyView>::empty());
        }
        r
    }

    /// Advances the cursor of `scheme`'s list by one, wrapping around, and
    /// returns the entry it lands on; the other protocol's state is
    /// untouched. An empty list reports `PoolExhausted` and changes nothing.
    pub fn get(&mut self, scheme: Protocol) -> (r: Result<Proxy, ProxyError>)
        requires
            old(self).wf(),
        ensures
            final(self).wf(),
            scheme == Protocol::Http ==> {
                &&& final(self).socks5_proxy_list == old(self).socks5_proxy_list
                &&& final(self).socks5_index == old(self).socks5_index
                &&& final(self).http_proxy_list == old(self).http_proxy_list
                &&& (old(self).http_views().len() == 0 ==> {
                    &&& r == Err::<Proxy, ProxyError>(ProxyError::PoolExhausted)
                    &&& final(self).http_index == old(self).http_index
                })
                &&& (old(self).http_views().len() > 0 ==> {
                    &&& final(self).http_index as int
                        == (old(self).http_index + 1) as int % old(self).http_views().len() as int
                    &&& r is Ok
                    &&& r.unwrap()@ == old(self).http_views()[final(self).http_index as int]
                })
            },
            scheme == Protocol::Socks5 ==> {
                &&& final(self).http_proxy_list == old(self).http_proxy_list
                &&& final(self).http_index == old(self).http_index
                &&& final(self).socks5_proxy_list == old(self).socks5_proxy_list
                &&& (old(self).socks5_views().len() == 0 ==> {
                    &&& r == Err::<Proxy, ProxyError>(ProxyError::PoolExhausted)
                    &&& final(self).socks5_index == old(self).socks5_index
                })
                &&& (old(self).socks5_views().len() > 0 ==> {
                    &&& final(self).socks5_index as int
                        == (old(self).socks5_index + 1) as int
                            % old(self).socks5_views().len() as int
                    &&& r is Ok
                    &&& r.unwrap()@ == old(self).socks5_views()[final(self).socks5_index as int]
                })
            },
    {
        match scheme {
            Protocol::Http => {
                let len = self.http_proxy_list.len();
                if len == 0 {
                    return Err(ProxyError::PoolExhausted);
                }
                self.http_index = (self.http_index + 1) % len;
                let p = self.http_proxy_list[self.http_index].clone();
                Ok(p)
            },
            Protocol::Socks5 => {
                let len = self.socks5_proxy_list.len();
                if len == 0 {
                    return Err(ProxyError::PoolExhausted);
                }
                self.socks5_index = (self.socks5_index + 1) % len;
                let p = self.socks5_proxy_list[self.socks5_index].clone();
                Ok(p)
            },
        }
    }

    /// A read-only preview of what the cursor's next advancement would
    /// select, computed from the current cursor without moving it. A `get`
    /// that interleaves before the next one shifts what that next `get`
    /// returns.
    pub fn next(&self, scheme: Protocol) -> (r: Result<Proxy, ProxyError>)
        requires
            self.wf(),
        ensures
            scheme == Protocol::Http ==> {
                &&& (self.http_views().len() == 0
                    ==> r == Err::<Proxy, ProxyError>(ProxyError::PoolExhausted))
                &&& (self.http_views().len() > 0 ==> r is Ok && r.unwrap()@
                    == self.http_views()[
                        (self.http_index + 1) as int % self.http_views().len() as int])
            },
            scheme == Protocol::Socks5 ==> {
                &&& (self.socks5_views().len() == 0
                    ==> r == Err::<Proxy, ProxyError>(ProxyError::PoolExhausted))
                &&& (self.socks5_views().len() > 0 ==> r is Ok && r.unwrap()@
                    == self.socks5_views()[
                        (self.socks5_index + 1) as int % self.socks5_views().len() as int])
            },
    {
        match scheme {
            Protocol::Http => {
                let len = self.http_proxy_list.len();
                if len == 0 {
                    return Err(ProxyError::PoolExhausted);
                }
                let ix = (self.http_index + 1) % len;
                Ok(self.http_proxy_list[ix].clone())
            },
            Protocol::Socks5 => {
                let len = self.socks5_proxy_list.len();
                if len == 0 {
                    return Err(ProxyError::PoolExhausted);
                }
                let ix = (self.socks5_index + 1) % len;
                Ok(self.socks5_proxy_list[ix].clone())
            },
        }
    }

    /// Replaces both lists with `list` partitioned by scheme and resets both
    /// cursors to zero.
    pub fn update(&mut self, list: Vec<Proxy>)
        ensures
            final(self).wf(),
            final(self).http_views() == by_scheme(list.deep_view(), Protocol::Http),
            final(self).socks5_views() == by_scheme(list.deep_view(), Protocol::Socks5),
            final(self).http_index == 0,
            final(self).socks5_index == 0,
    {
        let ghost dv = list.deep_view();
        let mut http_acc: Vec<Proxy> = Vec::new();
        let mut socks5_acc: Vec<Proxy> = Vec::new();
        let mut i: usize = 0;
        proof {
            reveal(Seq::filter);
            assert(dv.subrange(0, 0) =~= Seq::<ProxyView>::empty());
        }
        while i < list.len()
            invariant
                i <= list@.len(),
                dv == list.deep_view(),
                http_acc.deep_view() == by_scheme(dv.subrange(0, i as int), Protocol::Http),
                socks5_acc.deep_view() == by_scheme(dv.subrange(0, i as int), Protocol::Socks5),
            decreases list@.len() - i,
        {
            let p = list[i].clone();
            proof {
                reveal(Seq::filter);
                assert(dv.subrange(0, i + 1).drop_last() =~= dv.subrange(0, i as int));
                assert(dv.subrange(0, i + 1).last() == dv[i as int]);
                assert(dv[i as int] == list@[i as int]@);
            }
            match p.scheme {
                Protocol::Http => {
                    http_acc.push(p);
                    proof {
                        assert(http_acc.deep_view()
                            =~= by_scheme(dv.subrange(0, i + 1), Protocol::Http));
                        assert(socks5_acc.deep_view()
                            =~= by_scheme(dv.subrange(0, i + 1), Protocol::Socks5));
                    }
                },
                Protocol::Socks5 => {
                    socks5_acc.push(p);
                    proof {
                        assert(http_acc.deep_view()
                            =~= by_scheme(dv.subrange(0, i + 1), Protocol::Http));
                        assert(socks5_acc.deep_view()
                            =~= by_scheme(dv.subrange(0, i + 1), Protocol::Socks5));
                    }
                },
            }
            i += 1;
        }
        proof {
            assert(dv.subrange(0, dv.len() as int) =~= dv);
            broadcast use vstd::seq_lib::group_seq_lib_default;
        }
        self.http_proxy_list = http_acc;
        self.socks5_proxy_list = socks5_acc;
        self.http_index = 0;
        self.socks5_index = 0;
        proof {
            assert forall|k: int| 0 <= k < self.http_views().len()
                implies (#[trigger] self.http_views()[k]).scheme == Protocol::Http by {
                Seq::lemma_filter_pred(dv, |p: ProxyView| p.scheme == Protocol::Http, k);
            }
            assert forall|k: int| 0 <= k < self.socks5_views().len()
                implies (#[trigger] self.socks5_views()[k]).scheme == Protocol::Socks5 by {
                Seq::lemma_filter_pred(dv, |p: ProxyView| p.scheme == Protocol::Socks5, k);
            }
        }
    }

    /// The normalized lines of the pool's current contents, HTTP entries
    /// first, then SOCKS5 entries.
    pub fn save(&self) -> (r: Vec<String>)
        ensures
            r.deep_view() == shown_lines(self.http_views() + self.socks5_views()),
    {
        let mut out: Vec<String> = Vec::new();
        let mut i: usize = 0;
        while i < self.http_proxy_list.len()
            invariant
                i <= self.http_views().len(),
                out.deep_view() == shown_lines(self.http_views().subrange(0, i as int)),
            decreases self.http_views().len() - i,
        {
            proof {
                assert(self.http_views()[i as int] == self.http_proxy_list@[i as int]@);
                assert(shown_lines(self.http_views().subrange(0, i + 1))
                    =~= shown_lines(self.http_views().subrange(0, i as int)).push(
                        show_chars(self.http_views()[i as int])));
            }
            out.push(self.http_proxy_list[i].show());
            proof {
                assert(out.deep_view() =~~= shown_lines(self.http_views().subrange(0, i + 1)));
            }
            i += 1;
        }
        proof {
            assert(self.http_views().subrange(0, self.http_views().len() as int)
                =~= self.http_views());
        }
        let mut j: usize = 0;
        while j < self.socks5_proxy_list.len()
            invariant
                j <= self.socks5_views().len(),
                out.deep_view() == shown_lines(
                    self.http_views() + self.socks5_views().subrange(0, j as int)),
            decreases self.socks5_views().len() - j,
        {
            proof {
                assert(self.socks5_views()[j as int] == self.socks5_proxy_list@[j as int]@);
                assert(shown_lines(self.http_views() + self.socks5_views().subrange(0, j + 1))
                    =~= shown_lines(
                        self.http_views() + self.socks5_views().subrange(0, j as int)).push(
                        show_chars(self.socks5_views()[j as int])));
            }
            out.push(self.socks5_proxy_list[j].show());
            proof {
                assert(out.deep_view() =~~= shown_lines(
                    self.http_views() + self.socks5_views().subrange(0, j + 1)));
            }
            j += 1;
        }
        proof {
            assert(self.http_views() + self.socks5_views().subrange(
                0, self.socks5_views().len() as int)
                =~= self.http_views() + self.socks5_views());
        }
        out
    }

    /// A copy of the combined candidate lists, HTTP entries first: the
    /// snapshot the health-check sweep probes.
    pub fn snapshot(&self) -> (r: Vec<Proxy>)
        ensures
            r.deep_view() == self.http_views() + self.socks5_views(),
    {
        let mut out: Vec<Proxy> = Vec::new();
        let mut i: usize = 0;
        while i < self.http_proxy_list.len()
            invariant
                i <= self.http_views().len(),
                out.deep_view() == self.http_views().subrange(0, i as int),
            decreases self.http_views().len() - i,
        {
            proof {
                assert(self.http_views()[i as int] == self.http_proxy_list@[i as int]@);
                assert(self.http_views().subrange(0, i + 1)
                    =~= self.http_views().subrange(0, i as int).push(
                        self.http_views()[i as int]));
            }
            out.push(self.http_proxy_list[i].clone());
            proof {
                assert(out.deep_view() =~= self.http_views().subrange(0, i + 1));
            }
            i += 1;
        }
        proof {
            assert(self.http_views().subrange(0, self.http_views().len() as int)
                =~= self.http_views());
        }
        let mut j: usize = 0;
        while j < self.socks5_proxy_list.len()
            invariant
                j <= self.socks5_views().len(),
                out.deep_view() == self.http_views() + self.socks5_views().subrange(0, j as int),
            decreases self.socks5_views().len() - j,
        {
            proof {
                assert(self.socks5_views()[j as int] == self.socks5_proxy_list@[j as int]@);
                assert(self.http_views() + self.socks5_views().subrange(0, j + 1)
                    =~= (self.http_views() + self.socks5_views().subrange(0, j as int)).push(
                        self.socks5_views()[j as int]));
            }
            out.push(self.socks5_proxy_list[j].clone());
            proof {
                assert(out.deep_view()
                    =~= self.http_views() + self.socks5_views().subrange(0, j + 1));
            }
            j += 1;
        }
        proof {
            assert(self.http_views() + self.socks5_views().subrange(
                0, self.socks5_views().len() as int)
                =~= self.http_views() + self.socks5_views());
        }
        out
    }

    /// Rebuilds the pool from the backing list's lines: trims and
    /// deduplicates them, parses the survivors, partitions them by scheme,
    /// resets both cursors, and returns the normalized lines to write back.
    /// Reports `PoolEmpty`, changing nothing, when no line parses.
    pub fn load(&mut self, lines: &Vec<String>) -> (r: Result<Vec<String>, ProxyError>)
        requires
            old(self).wf(),
        ensures
            final(self).wf(),
            ({
                let ps = parsed_views(cleaned_lines(lines.deep_view()));
                &&& (ps.len() == 0 ==> r == Err::<Vec<String>, ProxyError>(ProxyError::PoolEmpty)
                    && *final(self) == *old(self))
                &&& (ps.len() > 0 ==> {
                    &&& r is Ok
                    &&& final(self).http_views() == by_scheme(ps, Protocol::Http)
                    &&& final(self).socks5_views() == by_scheme(ps, Protocol::Socks5)
                    &&& final(self).http_index == 0
                    &&& final(self).socks5_index == 0
                    &&& r.unwrap().deep_view() == shown_lines(
                        by_scheme(ps, Protocol::Http) + by_scheme(ps, Protocol::Socks5))
                })
            }),
    {
        let ghost lv = lines.deep_view();
        let mut cleaned: Vec<String> = Vec::new();
        let mut i: usize = 0;
        proof {
            assert(lv.subrange(0, 0) =~= Seq::<Seq<char>>::empty());
            assert(cleaned.deep_view() =~= cleaned_lines(lv.subrange(0, 0)));
        }
        while i < lines.len()
            invariant
                i <= lv.len(),
                lv == lines.deep_view(),
                cleaned.deep_view() == cleaned_lines(lv.subrange(0, i as int)),
            decreases lv.len() - i,
        {
            let t = crate::text::trim(lines[i].as_str());
            proof {
                assert(lv.subrange(0, i + 1).drop_last() =~= lv.subrange(0, i as int));
                assert(lv.subrange(0, i + 1).last() == lv[i as int]);
                assert(lv[i as int] == lines@[i as int]@);
            }
            if !t.as_str().is_empty() && !contains_line(&cleaned, &t) {
                cleaned.push(t);
                proof {
                    assert(cleaned.deep_view() =~= cleaned_lines(lv.subrange(0, i + 1)));
                }
            } else {
                proof {
                    assert(cleaned.deep_view() =~= cleaned_lines(lv.subrange(0, i + 1)));
                }
            }
            i += 1;
        }
        proof {
            assert(lv.subrange(0, lv.len() as int) =~= lv);
        }
        let ghost cv = cleaned.deep_view();
        let mut parsed: Vec<Proxy> = Vec::new();
        let mut j: usize = 0;
        proof {
            assert(cv.subrange(0, 0) =~= Seq::<Seq<char>>::empty());
            assert(parsed.deep_view() =~= parsed_views(cv.subrange(0, 0)));
        }
        while j < cleaned.len()
            invariant
                j <= cv.len(),
                cv == cleaned.deep_view(),
                parsed.deep_view() == parsed_views(cv.subrange(0, j as int)),
            decreases cv.len() - j,
        {
            proof {
                assert(cv.subrange(0, j + 1).drop_last() =~= cv.subrange(0, j as int));
                assert(cv.subrange(0, j + 1).last() == cv[j as int]);
                assert(cv[j as int] == cleaned@[j as int]@);
            }
            match Proxy::from(cleaned[j].as_str()) {
                Some(p) => {
                    parsed.push(p);
                    proof {
                        assert(parsed.deep_view() =~= parsed_views(cv.subrange(0, j + 1)));
                    }
                },
                None => {
                    proof {
                        assert(parsed.deep_view() =~= parsed_views(cv.subrange(0, j + 1)));
                    }
                },
            }
            j += 1;
        }
        proof {
            assert(cv.subrange(0, cv.len() as int) =~= cv);
        }
        if parsed.len() == 0 {
            return Err(ProxyError::PoolEmpty);
        }
        self.update(parsed);
        Ok(self.save())
    }

    /// Ends a health-check sweep: keeps exactly the snapshot entries whose
    /// probe passed, installs them as the new pool contents, and returns the
    /// normalized lines to persist. An empty snapshot means no sweep ran:
    /// nothing changes and nothing is written.
    pub fn apply_test_results(&mut self, candidates: &Vec<Proxy>, passed: &Vec<bool>)
        -> (r: Option<Vec<String>>)
        requires
            old(self).wf(),
            candidates.deep_view().len() == passed@.len(),
        ensures
            final(self).wf(),
            candidates.deep_view().len() == 0 ==> r is None && *final(self) == *old(self),
            candidates.deep_view().len() > 0 ==> {
                let kept = mask_filter(candidates.deep_view(), passed@);
                &&& final(self).http_views() == by_scheme(kept, Protocol::Http)
                &&& final(self).socks5_views() == by_scheme(kept, Protocol::Socks5)
                &&& final(self).http_index == 0
                &&& final(self).socks5_index == 0
                &&& r is Some
                &&& r.unwrap().deep_view() == shown_lines(
                    by_scheme(kept, Protocol::Http) + by_scheme(kept, Protocol::Socks5))
            },
    {
        if candidates.len() == 0 {
            return None;
        }
        let kept = filter_passing(candidates, passed);
        self.update(kept);
        Some(self.save())
    }
}

/// Is `t` already among the lines of `v`?
fn contains_line(v: &Vec<String>, t: &String) -> (r: bool)
    ensures
        r == v.deep_view().contains(t@),
{
    let mut k: usize = 0;
    while k < v.len()
        invariant
            k <= v@.len(),
            forall|m: int| 0 <= m < k ==> v.deep_view()[m] != t@,
        decreases v@.len() - k,
    {
        if v[k].eq(t) {
            proof {
                assert(v.deep_view()[k as int] == t@);
            }
            return true;
        }
        k += 1;
    }
    false
}

/// The candidates whose probe passed, in their snapshot order.
pub fn filter_passing(candidates: &Vec<Proxy>, passed: &Vec<bool>) -> (r: Vec<Proxy>)
    requires
        candidates.deep_view().len() == passed@.len(),
    ensures
        r.deep_view() == mask_filter(candidates.deep_view(), passed@),
{
    let ghost dv = candidates.deep_view();
    let mut out: Vec<Proxy> = Vec::new();
    let mut i: usize = 0;
    proof {
        assert(out.deep_view() =~= mask_filter(dv.subrange(0, 0), passed@.subrange(0, 0)));
    }
    while i < candidates.len()
        invariant
            i <= dv.len(),
            dv == candidates.deep_view(),
            dv.len() == passed@.len(),
            out.deep_view() == mask_filter(dv.subrange(0, i as int), passed@.subrange(0, i as int)),
        decreases dv.len() - i,
    {
        proof {
            assert(dv.subrange(0, i + 1).drop_last() =~= dv.subrange(0, i as int));
            assert(passed@.subrange(0, i + 1).drop_last() =~= passed@.subrange(0, i as int));
            assert(dv.subrange(0, i + 1).last() == dv[i as int]);
            assert(passed@.subrange(0, i + 1).last() == passed@[i as int]);
            assert(dv[i as int] == candidates@[i as int]@);
        }
        if passed[i] {
            out.push(candidates[i].clone());
            proof {
                assert(out.deep_view()
                    =~= mask_filter(dv.subrange(0, i + 1), passed@.subrange(0, i + 1)));
            }
        } else {
            proof {
                assert(out.deep_view()
                    =~= mask_filter(dv.subrange(0, i + 1), passed@.subrange(0, i + 1)));
            }
        }
        i += 1;
    }
    proof {
        assert(dv.subrange(0, dv.len() as int) =~= dv);
        assert(passed@.subrange(0, passed@.len() as int) =~= passed@);
    }
    out
}

} // verus!
