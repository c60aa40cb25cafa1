//! Immutable sorted set of method-name strings with a binary-search
//! membership test. Built once from an arbitrary sequence of names (duplicates
//! tolerated), sorted ascending in ordinal order, never mutated afterwards.

use vstd::prelude::*;

verus! {

use crate::ordering::{
    StrOrd,
    cmp_str,
    lex_lt,
    lex_le,
    lemma_lex_lt_irreflexive,
    lemma_lex_lt_asymmetric,
    lemma_lex_lt_trichotomy,
    lemma_lex_lt_le_transitive,
    lemma_lex_le_lt_transitive,
    lemma_lex_le_transitive,
};

broadcast use vstd::seq_lib::group_to_multiset_ensures, vstd::seq_lib::to_multiset_insert;

/// The character sequences of a sequence of strings.
pub open spec fn views_of(s: Seq<String>) -> Seq<Seq<char>> {
    s.map_values(|x: String| x@)
}

/// Every pair of entries is in non-decreasing ordinal order.
pub open spec fn sorted_ascending(s: Seq<Seq<char>>) -> bool {
    forall|i: int, j: int|
        #![trigger s[i], s[j]]
        0 <= i <= j < s.len() ==> lex_le(s[i], s[j])
}

/// The result of the binary-search scheme over the window `[lo, hi)` of a
/// sorted sequence: true exactly when the pivot chain meets `x`.
pub open spec fn bisect_find(s: Seq<Seq<char>>, x: Seq<char>, lo: int, hi: int) -> bool
    decreases hi - lo,
{
    if lo >= hi {
        false
    } else {
        let p = (lo + hi) / 2;
        if s[p] == x {
            true
        } else if lex_lt(x, s[p]) {
            bisect_find(s, x, lo, p)
        } else {
            bisect_find(s, x, p + 1, hi)
        }
    }
}

/// How many pivots the binary-search scheme examines over `[lo, hi)`.
pub open spec fn bisect_steps(s: Seq<Seq<char>>, x: Seq<char>, lo: int, hi: int) -> nat
    decreases hi - lo,
{
    if lo >= hi {
        0
    } else {
        let p = (lo + hi) / 2;
        if s[p] == x {
            1
        } else if lex_lt(x, s[p]) {
            (1 + bisect_steps(s, x, lo, p)) as nat
        } else {
            (1 + bisect_steps(s, x, p + 1, hi)) as nat
        }
    }
}

/// Ceiling of the base-two logarithm.
pub open spec fn log2_up(n: nat) -> nat
    decreases n,
{
    if n <= 1 {
        0
    } else {
        1 + log2_up((n + 1) / 2)
    }
}

proof fn lemma_log2_up_mono(a: nat, b: nat)
    requires
        a <= b,
    ensures
        log2_up(a) <= log2_up(b),
    decreases b,
{
    if a > 1 {
        lemma_log2_up_mono((a + 1) / 2, (b + 1) / 2);
    }
}

proof fn lemma_bisect_steps_bound(s: Seq<Seq<char>>, x: Seq<char>, lo: int, hi: int)
    requires
        0 <= lo <= hi,
    ensures
        bisect_steps(s, x, lo, hi) <= log2_up((hi - lo + 1) as nat),
    decreases hi - lo,
{
    if lo < hi {
        let p = (lo + hi) / 2;
        let n = hi - lo;
        assert(p - lo == n / 2);
        assert(log2_up((n + 1) as nat) == 1 + log2_up(((n + 2) / 2) as nat));
        if s[p] == x {
        } else if lex_lt(x, s[p]) {
            lemma_bisect_steps_bound(s, x, lo, p);
            lemma_log2_up_mono((p - lo + 1) as nat, ((n + 2) / 2) as nat);
        } else {
            lemma_bisect_steps_bound(s, x, p + 1, hi);
            lemma_log2_up_mono((hi - p) as nat, ((n + 2) / 2) as nat);
        }
    }
}

/// On a sorted sequence, the binary-search scheme reports exactly whether
/// some entry of the window equals `x`.
proof fn lemma_bisect_find_correct(s: Seq<Seq<char>>, x: Seq<char>, lo: int, hi: int)
    requires
        sorted_ascending(s),
        0 <= lo <= hi <= s.len(),
    ensures
        bisect_find(s, x, lo, hi) <==> (exists|k: int| lo <= k < hi && s[k] == x),
    decreases hi - lo,
{
    if lo < hi {
        let p = (lo + hi) / 2;
        if s[p] == x {
            assert(lo <= p < hi && s[p] == x);
        } else if lex_lt(x, s[p]) {
            lemma_bisect_find_correct(s, x, lo, p);
            assert forall|k: int| p <= k < hi implies s[k] != x by {
                assert(lex_le(s[p], s[k]));
                lemma_lex_lt_le_transitive(x, s[p], s[k]);
                lemma_lex_lt_irreflexive(s[k]);
            }
        } else {
            lemma_lex_lt_trichotomy(x, s[p]);
            lemma_bisect_find_correct(s, x, p + 1, hi);
            assert forall|k: int| lo <= k <= p implies s[k] != x by {
                assert(lex_le(s[k], s[p]));
                lemma_lex_le_lt_transitive(s[k], s[p], x);
                lemma_lex_lt_irreflexive(x);
            }
        }
    }
}

/// The binary search behind `contains` examines at most `ceil(log2(n + 1))`
/// pivots on an allow-list of `n` entries, for every target string; its
/// search window never leaves the bounds of the list.
pub proof fn lemma_contains_comparison_bound(s: Seq<Seq<char>>, x: Seq<char>)
    ensures
        bisect_steps(s, x, 0, s.len() as int) <= log2_up((s.len() + 1) as nat),
{
    lemma_bisect_steps_bound(s, x, 0, s.len() as int);
}

/// Two sequences holding the same names, duplicates counted, contain
/// exactly the same names: membership in an allow-list built from some
/// input coincides with membership in that input, the sorting done at
/// construction notwithstanding.
pub proof fn lemma_same_contents_same_membership(a: Seq<Seq<char>>, b: Seq<Seq<char>>)
    requires
        a.to_multiset() == b.to_multiset(),
    ensures
        forall|x: Seq<char>| a.contains(x) <==> b.contains(x),
{
    assert forall|x: Seq<char>| a.contains(x) <==> b.contains(x) by {
        vstd::seq_lib::to_multiset_contains(a, x);
        vstd::seq_lib::to_multiset_contains(b, x);
        assert(a.to_multiset().count(x) == b.to_multiset().count(x));
    }
}

proof fn lemma_views_of_insert(s: Seq<String>, p: int, x: String)
    requires
        0 <= p <= s.len(),
    ensures
        views_of(s.insert(p, x)) =~= views_of(s).insert(p, x@),
{
    s.insert_ensures(p, x);
    views_of(s).insert_ensures(p, x@);
    assert forall|i: int| 0 <= i < s.len() + 1 implies views_of(s.insert(p, x))[i] == views_of(
        s,
    ).insert(p, x@)[i] by {
        if i < p {
            assert(s.insert(p, x)[i] == s[i]);
        } else if i == p {
            assert(s.insert(p, x)[p] == x);
        } else {
            assert(s.insert(p, x)[i] == s[i - 1]);
            assert(views_of(s).insert(p, x@)[i] == views_of(s)[i - 1]);
        }
    }
}

/// Immutable sorted collection of method names; membership is decided by
/// binary search.
pub struct BisectSet {
    items: Vec<String>,
}

impl View for BisectSet {
    type V = Seq<Seq<char>>;

    closed spec fn view(&self) -> Seq<Seq<char>> {
        views_of(self.items@)
    }
}

impl BisectSet {
    #[verifier::type_invariant]
    spec fn inv(self) -> bool {
        sorted_ascending(views_of(self.items@))
    }

    /// Builds the set from any sequence of names: sorts ascending, keeps
    /// duplicates. The result holds exactly the names given, and membership
    /// in it coincides with membership in the input.
    pub fn from_iter(items: Vec<String>) -> (r: BisectSet)
        ensures
            sorted_ascending(r@),
            r@.to_multiset() == views_of(items@).to_multiset(),
            forall|x: Seq<char>| r@.contains(x) <==> views_of(items@).contains(x),
    {
        let ghost vs = views_of(items@);
        let mut out: Vec<String> = Vec::new();
        let mut i: usize = 0;
        proof {
            assert(views_of(out@) =~= vs.take(0));
        }
        while i < items.len()
            invariant
                i <= items.len(),
                vs == views_of(items@),
                items@.len() == vs.len(),
                sorted_ascending(views_of(out@)),
                views_of(out@).to_multiset() == vs.take(i as int).to_multiset(),
            decreases items.len() - i,
        {
            let x = items[i].clone();
            let p = insert_pos(&out, x.as_str());
            let ghost os = out@;
            let ghost ov = views_of(out@);
            out.insert(p, x);
            proof {
                lemma_views_of_insert(os, p as int, x);
                let nv = views_of(out@);
                ov.insert_ensures(p as int, x@);
                assert forall|a: int, b: int|
                    0 <= a <= b < nv.len() implies lex_le(nv[a], nv[b]) by {
                    if b < p {
                        assert(lex_le(ov[a], ov[b]));
                    } else if a < p && b == p {
                        assert(lex_lt(ov[a], x@));
                    } else if a == p && b == p {
                    } else if a == p && b > p {
                        assert(lex_le(x@, ov[p as int]));
                        assert(lex_le(ov[p as int], ov[b - 1]));
                        lemma_lex_le_transitive(x@, ov[p as int], ov[b - 1]);
                    } else if a < p && b > p {
                        assert(lex_lt(ov[a], x@));
                        assert(lex_le(ov[a], ov[b - 1]));
                    } else {
                        assert(lex_le(ov[a - 1], ov[b - 1]));
                    }
                }
                assert(nv.to_multiset() =~= ov.insert(p as int, x@).to_multiset());
                assert(nv.to_multiset() =~= ov.to_multiset().insert(x@));
                assert(vs.take(i + 1) =~= vs.take(i as int).push(vs[i as int]));
                assert(x@ == vs[i as int]);
                assert(vs.take(i as int).push(vs[i as int]).to_multiset() =~= vs.take(
                    i as int,
                ).to_multiset().insert(vs[i as int]));
            }
            i = i + 1;
        }
        proof {
            assert(vs.take(items@.len() as int) =~= vs);
            lemma_same_contents_same_membership(views_of(out@), vs);
        }
        BisectSet { items: out }
    }

    /// Binary search for `target`: true exactly when some entry of the set
    /// equals it.
    pub fn contains(&self, target: &str) -> (r: bool)
        ensures
            r == self@.contains(target@),
            r == bisect_find(self@, target@, 0, self@.len() as int),
    {
        proof {
            use_type_invariant(self);
        }
        let ghost s = self@;
        proof {
            lemma_bisect_find_correct(s, target@, 0, s.len() as int);
        }
        let mut left: usize = 0;
        let mut right: usize = self.items.len();
        while left != right
            invariant
                left <= right <= self.items@.len(),
                s == views_of(self.items@),
                sorted_ascending(s),
                bisect_find(s, target@, left as int, right as int) == bisect_find(
                    s,
                    target@,
                    0,
                    s.len() as int,
                ),
            decreases right - left,
        {
            let pivot = left + (right - left) / 2;
            proof {
                assert(pivot as int == (left as int + right as int) / 2);
            }
            match cmp_str(self.items[pivot].as_str(), target) {
                StrOrd::Less => {
                    proof {
                        lemma_lex_lt_irreflexive(target@);
                        lemma_lex_lt_asymmetric(s[pivot as int], target@);
                    }
                    left = pivot + 1;
                },
                StrOrd::Greater => {
                    proof {
                        lemma_lex_lt_irreflexive(target@);
                    }
                    right = pivot;
                },
                StrOrd::Equal => {
                    proof {
                        assert(s[pivot as int] == target@);
                        assert(s.contains(target@));
                    }
                    return true;
                },
            }
        }
        false
    }

    /// Number of entries, duplicates counted.
    pub fn len(&self) -> (n: usize)
        ensures
            n == self@.len(),
    {
        self.items.len()
    }
}

/// First position of a sorted vector at which `x` could be inserted while
/// keeping it sorted.
fn insert_pos(out: &Vec<String>, x: &str) -> (p: usize)
    requires
        sorted_ascending(views_of(out@)),
    ensures
        p <= out@.len(),
        forall|k: int| 0 <= k < p ==> lex_lt(views_of(out@)[k], x@),
        p < out@.len() ==> lex_le(x@, views_of(out@)[p as int]),
{
    let mut p: usize = 0;
    loop
        invariant
            p <= out@.len(),
            forall|k: int| 0 <= k < p ==> lex_lt(views_of(out@)[k], x@),
        decreases out@.len() - p,
    {
        if p == out.len() {
            return p;
        }
        match cmp_str(out[p].as_str(), x) {
            StrOrd::Less => {
                p = p + 1;
            },
            StrOrd::Equal => {
                return p;
            },
            StrOrd::Greater => {
                return p;
            },
        }
    }
}

} // verus!
